//! The rules of a few types, built again with chumsky from the same
//! description, must agree with the library's readers.
use chumsky::error::Simple;
use chumsky::primitive::{choice, empty, filter, just};
use chumsky::text::{digits, TextParser};
use chumsky::{BoxedParser, Parser};
use dsn::atoms::Id;
use dsn::numeric::{Number, NumberType, PositiveDimension, PositiveInteger, Rational, Real, Sign};
use dsn::outcome::Outcome;
use dsn::parsable::{parse_str, Parsable};
use dsn::shapes::{AperatureType, PathDescriptor, Vertex};

type P<T> = BoxedParser<'static, char, T, Simple<char>>;

fn keyword(k: &'static str) -> P<()> {
    just(k).map(|_| ()).padded().boxed()
}

fn string() -> P<String> {
    let quoted = just('"')
        .ignore_then(filter(|c: &char| *c != '"' && *c != '\n').repeated().map(|cs: Vec<char>| cs.into_iter().collect()))
        .then_ignore(just('"'))
        .padded();
    let unquoted = filter(|c: &char| !c.is_whitespace() && *c != '(' && *c != ')' && *c != '"' && *c != '\n')
        .repeated()
        .at_least(1)
        .map(|cs: Vec<char>| cs.into_iter().collect())
        .padded();
    quoted.or(unquoted).boxed()
}

fn id() -> P<Id> {
    empty().then(string().padded()).padded().map(|(_, s)| Id::new(s)).boxed()
}

fn positive_integer() -> P<PositiveInteger> {
    digits(10).map(|s: String| PositiveInteger(s.parse().unwrap())).boxed()
}

fn decimal() -> P<Real> {
    positive_integer()
        .then_ignore(just('.'))
        .then(positive_integer())
        .map(|(integer, fraction)| Real { integer, fraction })
        .boxed()
}

fn rational() -> P<Rational> {
    positive_integer().then_ignore(just('/')).then(positive_integer()).map(|(a, b)| Rational(a.0, b.0)).boxed()
}

fn sign() -> P<Sign> {
    choice((keyword("+").padded().map(|_| Sign::Plus), keyword("-").padded().map(|_| Sign::Minus))).boxed()
}

fn number_type() -> P<NumberType> {
    choice((
        empty().then(decimal().padded()).padded().map(|(_, v)| NumberType::Float(v)),
        empty().then(rational().padded()).padded().map(|(_, v)| NumberType::Rat(v)),
        empty().then(positive_integer().padded()).padded().map(|(_, v)| NumberType::PosInt(v)),
    ))
    .boxed()
}

fn number() -> P<Number> {
    empty()
        .then(sign().padded().or_not())
        .then(number_type().padded())
        .padded()
        .map(|((_, sign), number_type)| Number { sign, number_type })
        .boxed()
}

fn vertex() -> P<Vertex> {
    empty().then(number().padded()).then(number().padded()).padded().map(|((_, x), y)| Vertex(x, y)).boxed()
}

fn aperature_type() -> P<AperatureType> {
    choice((
        keyword("round").padded().map(|_| AperatureType::Round),
        keyword("square").padded().map(|_| AperatureType::Square),
    ))
    .boxed()
}

fn path() -> P<PathDescriptor> {
    let width = empty().then(number().padded()).padded().map(|(_, n)| PositiveDimension(n));
    just('(')
        .ignore_then(keyword("path"))
        .then(id().padded())
        .then(width.padded())
        .then(vertex().repeated().padded().padded())
        .then(aperature_type().padded().or_not())
        .then_ignore(just(')'))
        .padded()
        .map(|((((_, layer_id), aperature_width), vertices), aperature_type)| PathDescriptor {
            layer_id,
            aperature_width,
            vertices,
            aperature_type,
        })
        .boxed()
}

fn agree<T: Parsable + PartialEq + std::fmt::Debug + 'static>(theirs: P<T>, inputs: &[&str]) {
    let with_end = theirs.map_with_span(|v, span: std::ops::Range<usize>| (v, span.end));
    for input in inputs {
        let expected = with_end.parse(*input).ok();
        let ours = match parse_str::<T>(input) {
            Outcome::Parsed(v, end) => Some((v, end)),
            Outcome::Failed => None,
            Outcome::Aborted => panic!("aborted on {:?}", input),
        };
        match (&ours, &expected) {
            (Some(a), Some(b)) => assert_eq!(a, b, "input {:?}", input),
            (None, None) => {},
            _ => panic!("input {:?}: ours {:?}, chumsky {:?}", input, ours, expected),
        }
    }
}

const NUMBERS: &[&str] = &["0", "12", "1.5", "1.", "3/4", "3/", "-2", "+ 7", "- 1.25 ", "x", "", " 9", "12 34"];

const PATHS: &[&str] = &[
    "(path F.Cu 250 0 0 10 10)",
    "  ( path x 1 2 3 4 square )  rest",
    "(path x 1.5 -2 +3/4 5)",
    "(path x 1 2 3)",
    "(pathx 1 2)",
    "(path\n\tL1\n 0)",
    "(path L1 0 1 2 round)",
    "(path L1 0 1 2 roundish)",
    "(path \"a b\" 0)",
    "(path () 0)",
    "(path L1 0 1 2",
    "path L1 0)",
];

#[test]
fn numbers_agree() {
    agree(number(), NUMBERS);
    agree(positive_integer(), NUMBERS);
    agree(decimal(), NUMBERS);
    agree(rational(), NUMBERS);
    agree(sign(), &["+", " - ", "x"]);
}

#[test]
fn ids_and_vertices_agree() {
    agree(id(), &["a", " \"q\" ", "(", "", "a)b"]);
    agree(vertex(), &["1 2", "1", "-1 -2 x", "1.5 2/3"]);
}

#[test]
fn paths_agree() {
    agree(path(), PATHS);
}
