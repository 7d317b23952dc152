use dsn::atoms::{Bool, Id};
use dsn::numeric::PositiveInteger;
use dsn::outcome::Outcome;
use dsn::parsable::{field, parse_named, parse_optional, parse_padded, parse_str, FieldConfig, Token};
use dsn::session::Session;
use dsn::text::{chars_of, skip_ws};

#[test]
fn skipping_white_space_twice_is_skipping_once() {
    let s = chars_of(" \t\n x  ");
    let once = skip_ws(&s, 0);
    assert_eq!(once, 4);
    assert_eq!(skip_ws(&s, once), once);
    assert_eq!(skip_ws(&s, 2), once);
}

#[test]
fn padded_value_reads_the_same_from_inside_leading_white_space() {
    let s = chars_of("   abc ");
    for p in 0..=3 {
        assert_eq!(parse_padded::<Id>(&s, p), Outcome::Parsed(Id::new("abc".to_string()), 7));
    }
}

#[test]
fn unquoted_and_quoted_text_read_back() {
    assert_eq!(parse_str::<String>("word)"), Outcome::Parsed("word".to_string(), 4));
    assert_eq!(parse_str::<String>("\"two words\"x"), Outcome::Parsed("two words".to_string(), 11));
    assert_eq!(parse_str::<String>("\"\""), Outcome::Parsed(String::new(), 2));
}

#[test]
fn repetition_never_fails() {
    assert_eq!(parse_str::<Vec<Id>>("("), Outcome::Parsed(vec![], 0));
    // Elements of a list are not padded themselves: `2` cannot follow `1 `.
    assert_eq!(parse_str::<Vec<PositiveInteger>>("1 2"), Outcome::Parsed(vec![PositiveInteger(1)], 2));
}

#[test]
fn absent_optional_consumes_nothing() {
    let s = chars_of("  )");
    assert_eq!(parse_optional::<Id>(&s, 0), Outcome::Parsed(None, 0));
    assert_eq!(parse_optional::<Id>(&s, 1), Outcome::Parsed(None, 1));
}

#[test]
fn digits_read_back_and_len_counts_them() {
    let v = parse_str::<PositiveInteger>("456").value().unwrap();
    assert_eq!(v, PositiveInteger(456));
    assert_eq!(v.len(), 3);
    // With a leading zero the count of digits read and `len` differ.
    let v = parse_str::<PositiveInteger>("007").value().unwrap();
    assert_eq!(v.len(), 1);
    assert_eq!(PositiveInteger(999).len(), 3);
    assert_eq!(PositiveInteger(1000).len(), 4);
    assert_eq!(u64::from(PositiveInteger(12)), 12);
}

#[test]
fn fields_by_configuration() {
    // The value of a configured field may have white space around it ...
    let s = chars_of(" (width  on ) ");
    assert_eq!(field::<Bool>(FieldConfig::new("width", false), &s, 0), Outcome::Parsed(Bool(true), 14));
    // ... while a named field of a declared type may not have it after the value.
    assert_eq!(parse_named::<Bool>(&s, 0, "width"), Outcome::Failed);
    let s = chars_of(" (width  7 ) ");
    assert_eq!(
        field::<PositiveInteger>(FieldConfig::new("width", false), &s, 0),
        Outcome::Parsed(PositiveInteger(7), 13)
    );
    let s = chars_of("  7  ");
    assert_eq!(
        field::<PositiveInteger>(FieldConfig::new("width", true), &s, 0),
        Outcome::Parsed(PositiveInteger(7), 5)
    );
}

#[test]
fn identifiers_convert_and_dereference() {
    let i: Id = Id::from("net".to_string());
    assert_eq!(i.len(), 3);
    assert_eq!(*Bool(true), true);
    assert_ne!(Token::LParen, Token::RParen);
    assert_eq!(Token::Keyword("pcb".to_string()), Token::Keyword("pcb".to_string()));
}

#[test]
fn session_file() {
    let text = "(session board.ses (base_design board.dsn)
        (routes
          (resolution um 10)
          (parser (string_quote \") (space_in_quoted_tokens on))
          (library_out (padstack Via (shape (circle F.Cu 600)) (attach off)))
          (network_out
            (net GND (wire (path F.Cu 250 0 0 10 0)))
          )
        )
      )";
    let session = parse_str::<Session>(text).value().unwrap();
    assert_eq!(session.session_id, Id::new("board.ses".to_string()));
    assert_eq!(session.base_design, Id::new("board.dsn".to_string()));
    assert!(session.routes.parser.is_some());
    assert_eq!(session.routes.library_out.unwrap().padstacks.len(), 1);
    let nets = session.routes.network_out.unwrap().nets;
    assert_eq!(nets[0].net_id, Id::new("GND".to_string()));
    assert_eq!(nets[0].wires.len(), 1);
}
