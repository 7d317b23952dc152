use dsn::numeric::{Number, NumberType, PositiveInteger, Rational, Real, Sign};
use dsn::outcome::Outcome;
use dsn::parsable::parse_str;

/// The value a `Real` stands for: the fraction is scaled by the number of
/// digits with which its value is written.
fn real_value(r: &Real) -> f64 {
    let frac_len = r.fraction.len();
    let int_val = r.integer.0 as f64;
    let frac_val = r.fraction.0 as f64;
    int_val + frac_val / 10_f64.powi(frac_len as i32)
}

fn number_value(n: &Number) -> f64 {
    let mult: f64 = match n.sign {
        Some(Sign::Minus) => -1.0,
        _ => 1.0,
    };
    let v = match &n.number_type {
        NumberType::PosInt(i) => i.0 as f64,
        NumberType::Float(r) => real_value(r),
        NumberType::Rat(q) => q.0 as f64 / q.1 as f64,
    };
    v * mult
}

fn parse_number(s: &str) -> f64 {
    number_value(&parse_str::<Number>(s).value().unwrap())
}

#[test]
fn test_positive_integer() {
    assert_eq!(parse_str::<PositiveInteger>("123").value().unwrap(), PositiveInteger(123));
}

#[test]
fn test_real() {
    assert_eq!(real_value(&parse_str::<Real>("123.456").value().unwrap()), 123.456);
}

#[test]
fn test_rational() {
    assert_eq!(parse_str::<Rational>("123/456").value().unwrap(), Rational(123, 456));
}

#[test]
fn test_number() {
    assert_eq!(parse_number("123"), 123.0);
    assert_eq!(parse_number("123.456"), 123.456);
    assert_eq!(parse_number("123/456"), 123.0 / 456.0);
    assert_eq!(parse_number("-123.456"), -123.456);
    assert_eq!(parse_number("-123/456"), -123.0 / 456.0);
}

#[test]
fn positive_integer_end_position() {
    assert_eq!(parse_str::<PositiveInteger>("0042x"), Outcome::Parsed(PositiveInteger(42), 4));
    assert_eq!(parse_str::<PositiveInteger>(" 1"), Outcome::Failed);
    assert_eq!(parse_str::<PositiveInteger>(""), Outcome::Failed);
}

#[test]
fn positive_integer_limits() {
    assert_eq!(
        parse_str::<PositiveInteger>("18446744073709551615"),
        Outcome::Parsed(PositiveInteger(u64::MAX), 20)
    );
    assert_eq!(parse_str::<PositiveInteger>("18446744073709551616"), Outcome::Aborted);
    assert_eq!(
        parse_str::<PositiveInteger>("000000000000000000000000007"),
        Outcome::Parsed(PositiveInteger(7), 27)
    );
}

#[test]
fn positive_integer_len() {
    assert_eq!(PositiveInteger(0).len(), 1);
    assert_eq!(PositiveInteger(9).len(), 1);
    assert_eq!(PositiveInteger(10).len(), 2);
    assert_eq!(PositiveInteger(456).len(), 3);
    assert_eq!(PositiveInteger(u64::MAX).len(), 20);
}

#[test]
fn real_keeps_both_digit_runs() {
    assert_eq!(
        parse_str::<Real>("1.05"),
        Outcome::Parsed(Real { integer: PositiveInteger(1), fraction: PositiveInteger(5) }, 4)
    );
    // Leading zeros of the fraction are not counted: `1.05` stands for 1.5.
    assert_eq!(real_value(&parse_str::<Real>("1.05").value().unwrap()), 1.5);
    assert_eq!(real_value(&parse_str::<Real>("1.5").value().unwrap()), 1.5);
    assert_eq!(real_value(&parse_str::<Real>("2.25").value().unwrap()), 2.25);
    assert_eq!(
        parse_str::<Real>("0.000"),
        Outcome::Parsed(Real { integer: PositiveInteger(0), fraction: PositiveInteger(0) }, 5)
    );
    assert_eq!(parse_str::<Real>("12"), Outcome::Failed);
    assert_eq!(parse_str::<Real>("12."), Outcome::Failed);
}

#[test]
fn overflow_aborts_even_when_another_branch_would_match() {
    // The integer part of a real is read (and overflows) before the `.` is looked for.
    assert_eq!(parse_str::<Number>("99999999999999999999999"), Outcome::Aborted);
}

#[test]
fn number_forms() {
    let n = parse_str::<Number>("  - 7  ").value().unwrap();
    assert_eq!(n.sign, Some(Sign::Minus));
    assert_eq!(n.number_type, NumberType::PosInt(PositiveInteger(7)));
    let n = parse_str::<Number>("+3/4").value().unwrap();
    assert_eq!(n.sign, Some(Sign::Plus));
    assert_eq!(n.number_type, NumberType::Rat(Rational(3, 4)));
    assert_eq!(parse_str::<Number>("x"), Outcome::Failed);
}
