use chumsky::error::Simple;
use chumsky::primitive::{filter, just};
use chumsky::text::TextParser;
use chumsky::Parser;
use dsn::atoms::{Bool, Id};
use dsn::outcome::Outcome;
use dsn::parsable::parse_str;
use dsn::pcb::network::PinReference;
use dsn::text::{chars_of, is_white_space_char, keyword, lparen, rparen};

fn chumsky_string() -> impl Parser<char, String, Error = Simple<char>> {
    let quoted = just('"')
        .ignore_then(filter(|c: &char| *c != '"' && *c != '\n').repeated().map(|cs: Vec<char>| cs.into_iter().collect()))
        .then_ignore(just('"'))
        .padded();
    let unquoted = filter(|c: &char| !c.is_whitespace() && *c != '(' && *c != ')' && *c != '"' && *c != '\n')
        .repeated()
        .at_least(1)
        .map(|cs: Vec<char>| cs.into_iter().collect())
        .padded();
    quoted.or(unquoted)
}

const SAMPLES: &[&str] = &[
    "abc", "  abc  def", "\"a b c\" rest", "\"\"", "\"unterminated", "\"line\nbreak\"", "(x)", ")", "",
    "\u{3000}wide\u{2003}space", "a\"b", "tab\there", "caf\u{e9}", "\u{85}next",
];

#[test]
fn white_space_matches_std() {
    for code in 0u32..0x11000 {
        if let Some(c) = char::from_u32(code) {
            assert_eq!(is_white_space_char(c), c.is_whitespace(), "{:?}", c);
        }
    }
}

#[test]
fn string_agrees_with_chumsky() {
    for s in SAMPLES {
        let ours = parse_str::<String>(s).value();
        let theirs = chumsky_string().parse(*s).ok();
        assert_eq!(ours, theirs, "input {:?}", s);
    }
}

#[test]
fn id_reads_quoted_and_bare() {
    assert_eq!(parse_str::<Id>("  \"a (b)\"  x"), Outcome::Parsed(Id::new("a (b)".to_string()), 11));
    assert_eq!(parse_str::<Id>("F.Cu)"), Outcome::Parsed(Id::new("F.Cu".to_string()), 4));
    assert_eq!(parse_str::<Id>("()"), Outcome::Failed);
    assert_eq!(Id::new("x".to_string()).as_str(), "x");
}

#[test]
fn keyword_is_matched_as_a_prefix() {
    let s = chars_of("  layer_rule x");
    assert_eq!(keyword(&s, 0, "layer"), Some(7));
    assert_eq!(keyword(&s, 0, "layer_rule"), Some(13));
    assert_eq!(keyword(&s, 0, "net"), None);
    let theirs = just::<char, _, Simple<char>>("layer").padded().map_with_span(|_, span| span.end).parse("  layer_rule x");
    assert!(theirs.is_ok());
}

#[test]
fn parens_do_not_skip_white_space() {
    let s = chars_of(" ( )");
    assert_eq!(lparen(&s, 0), None);
    assert_eq!(lparen(&s, 1), Some(2));
    assert_eq!(rparen(&s, 2), None);
    assert_eq!(rparen(&s, 3), Some(4));
}

#[test]
fn bool_is_not_padded() {
    assert_eq!(parse_str::<Bool>("on"), Outcome::Parsed(Bool(true), 2));
    assert_eq!(parse_str::<Bool>("off)"), Outcome::Parsed(Bool(false), 3));
    assert_eq!(parse_str::<Bool>(" on"), Outcome::Failed);
    assert_eq!(parse_str::<Bool>("yes"), Outcome::Failed);
}

#[test]
fn pin_reference_forms() {
    let r = parse_str::<PinReference>("  U1-A3  ").value().unwrap();
    assert_eq!(r.component_id, Id::new("U1".to_string()));
    assert_eq!(r.pin_id, Id::new("A3".to_string()));
    let r = parse_str::<PinReference>("-7").value().unwrap();
    assert_eq!(r.component_id, Id::new(String::new()));
    assert_eq!(parse_str::<PinReference>("U1.3"), Outcome::Failed);
}

#[test]
fn lists_and_options() {
    assert_eq!(parse_str::<Vec<Id>>(" a b (c"), Outcome::Parsed(vec![Id::new("a".to_string()), Id::new("b".to_string())], 5));
    assert_eq!(parse_str::<Option<Bool>>("  x"), Outcome::Parsed(None, 2));
    assert_eq!(parse_str::<()>("   "), Outcome::Parsed((), 3));
}
