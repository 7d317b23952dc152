//! Numbers: integers, decimals, fractions, signs and units.

use vstd::prelude::*;
use crate::outcome::{Outcome, SpecOutcome, bind};
use crate::parsable::{Parsable, spec_padded, parse_padded, spec_optional, parse_optional, spec_keyword_item, parse_keyword_item};
use crate::text::{ws_end, skip_ws, spec_char};

verus! {

/// A decimal digit `0`-`9`.
pub open spec fn is_decimal_digit(c: char) -> bool {
    '0' <= c && c <= '9'
}

/// The end of the run of decimal digits that starts at `p`.
pub open spec fn digits_end(s: Seq<char>, p: int) -> int
    decreases s.len() - p,
{
    if 0 <= p < s.len() && is_decimal_digit(s[p]) {
        digits_end(s, p + 1)
    } else {
        p
    }
}

pub open spec fn digit_value(c: char) -> int {
    c as int - '0' as int
}

/// The number that a run of decimal digits denotes.
pub open spec fn decimal_value(d: Seq<char>) -> int
    decreases d.len(),
{
    if d.len() == 0 {
        0
    } else {
        decimal_value(d.drop_last()) * 10 + digit_value(d.last())
    }
}

/// The number of decimal digits with which `n` is written (one for zero).
pub open spec fn decimal_len(n: nat) -> nat
    decreases n,
{
    if n < 10 {
        1
    } else {
        1 + decimal_len(n / 10)
    }
}

/// A non-negative integer, written as one or more decimal digits. A run of
/// digits whose value does not fit in 64 bits cannot be read.
#[derive(Debug, Clone, Copy, PartialEq, Eq)]
pub struct PositiveInteger(pub u64);

impl DeepView for PositiveInteger {
    type V = PositiveInteger;

    open spec fn deep_view(&self) -> PositiveInteger {
        *self
    }
}

pub open spec fn spec_positive_integer(s: Seq<char>, p: int) -> SpecOutcome<PositiveInteger> {
    let e = digits_end(s, p);
    if e <= p {
        SpecOutcome::Failed
    } else if decimal_value(s.subrange(p, e)) <= u64::MAX {
        SpecOutcome::Parsed(PositiveInteger(decimal_value(s.subrange(p, e)) as u64), e)
    } else {
        SpecOutcome::Aborted
    }
}

proof fn lemma_decimal_value_step(s: Seq<char>, p: int, i: int)
    requires
        0 <= p <= i < s.len(),
    ensures
        decimal_value(s.subrange(p, i + 1)) == decimal_value(s.subrange(p, i)) * 10 + digit_value(
            s[i],
        ),
{
    assert(s.subrange(p, i + 1).drop_last() =~= s.subrange(p, i));
}

proof fn lemma_decimal_value_nonneg(d: Seq<char>)
    requires
        forall|j: int| 0 <= j < d.len() ==> is_decimal_digit(#[trigger] d[j]),
    ensures
        decimal_value(d) >= 0,
    decreases d.len(),
{
    if d.len() > 0 {
        lemma_decimal_value_nonneg(d.drop_last());
    }
}

impl Parsable for PositiveInteger {
    open spec fn spec_parse(s: Seq<char>, p: int) -> SpecOutcome<PositiveInteger> {
        spec_positive_integer(s, p)
    }

    fn parse_at(s: &Vec<char>, p: usize) -> (r: Outcome<PositiveInteger>) {
        let mut i = p;
        let mut acc: u64 = 0;
        let mut overflow = false;
        assert(s@.subrange(p as int, p as int) =~= Seq::<char>::empty());
        while i < s.len() && '0' <= s[i] && s[i] <= '9'
            invariant
                p <= i <= s.len(),
                digits_end(s@, p as int) == digits_end(s@, i as int),
                forall|j: int| p <= j < i ==> is_decimal_digit(#[trigger] s@[j]),
                !overflow ==> acc == decimal_value(s@.subrange(p as int, i as int)),
                overflow ==> decimal_value(s@.subrange(p as int, i as int)) > u64::MAX,
            decreases s.len() - i,
        {
            let c = s[i];
            let d: u64 = if c == '0' { 0 }
                else if c == '1' { 1 }
                else if c == '2' { 2 }
                else if c == '3' { 3 }
                else if c == '4' { 4 }
                else if c == '5' { 5 }
                else if c == '6' { 6 }
                else if c == '7' { 7 }
                else if c == '8' { 8 }
                else { 9 };
            assert(d == digit_value(c)) by {
                assert('0' as int == 48);
                assert('9' as int == 57);
            }
            proof {
                lemma_decimal_value_step(s@, p as int, i as int);
                lemma_decimal_value_nonneg(s@.subrange(p as int, i as int));
            }
            if !overflow {
                match acc.checked_mul(10) {
                    Some(m) => match m.checked_add(d) {
                        Some(a) => {
                            acc = a;
                        },
                        None => {
                            overflow = true;
                        },
                    },
                    None => {
                        overflow = true;
                    },
                }
            }
            i = i + 1;
        }
        assert(digits_end(s@, i as int) == i as int);
        if i == p {
            assert(spec_positive_integer(s@, p as int) == SpecOutcome::<PositiveInteger>::Failed);
            Outcome::Failed
        } else if overflow {
            assert(spec_positive_integer(s@, p as int) == SpecOutcome::<PositiveInteger>::Aborted);
            Outcome::Aborted
        } else {
            assert(spec_positive_integer(s@, p as int) == SpecOutcome::Parsed(PositiveInteger(acc), i as int));
            let r = Outcome::Parsed(PositiveInteger(acc), i);
            assert(r@ == spec_positive_integer(s@, p as int));
            assert(r@ == Self::spec_parse(s@, p as int));
            r
        }
    }
}

impl PositiveInteger {
    /// The number of decimal digits with which the value is written.
    pub fn len(&self) -> (r: u32)
        ensures
            r == decimal_len(self.0 as nat),
    {
        proof {
            lemma_u64_decimal_len(self.0);
        }
        let mut v = self.0;
        let mut count: u32 = 1;
        while v >= 10
            invariant
                decimal_len(self.0 as nat) == count - 1 + decimal_len(v as nat),
                decimal_len(self.0 as nat) <= 20,
                count >= 1,
            decreases v,
        {
            assert(decimal_len((v / 10) as nat) >= 1);
            v = v / 10;
            count = count + 1;
        }
        count
    }
}

/// A 64-bit number is written with at most twenty digits.
proof fn lemma_u64_decimal_len(n: u64)
    ensures
        decimal_len(n as nat) <= 20,
{
    assert(pow10(20) == 100000000000000000000nat) by {
        reveal_with_fuel(pow10, 21);
    }
    lemma_decimal_len_upper(n as nat, 20);
}

/// A number below `10^k` is written with at most `k` digits.
pub proof fn lemma_decimal_len_upper(n: nat, k: nat)
    requires
        k >= 1,
        n < pow10(k),
    ensures
        decimal_len(n) <= k,
    decreases n,
{
    if n >= 10 {
        if k == 1 {
            assert(pow10(1) == 10) by {
                reveal_with_fuel(pow10, 2);
            }
        } else {
            let m = pow10((k - 1) as nat);
            assert(n / 10 < m) by (nonlinear_arith)
                requires
                    n < 10 * m,
            ;
            lemma_decimal_len_upper(n / 10, (k - 1) as nat);
        }
    }
}

/// Ten to the power `k`.
pub open spec fn pow10(k: nat) -> nat
    decreases k,
{
    if k == 0 {
        1
    } else {
        10 * pow10((k - 1) as nat)
    }
}

/// A decimal number with a fractional part: digits, `.`, digits, held as the
/// values of the two runs of digits. It stands for
/// `integer + fraction / 10^n`, where `n` is the number of digits with which
/// the value `fraction` is written (`PositiveInteger::len`): leading zeros of
/// the fraction are not counted, so `1.05` stands for the same number as
/// `1.5` (see `real_numerator` and `lemma_decimal_read_back`).
#[derive(Debug, Clone, Copy, PartialEq, Eq)]
pub struct Real {
    pub integer: PositiveInteger,
    pub fraction: PositiveInteger,
}

/// The value of a `Real` times `real_denominator(r)`.
pub open spec fn real_numerator(r: Real) -> int {
    r.integer.0 * pow10(decimal_len(r.fraction.0 as nat)) + r.fraction.0
}

/// Ten to the number of digits of the fraction's value: the value of a
/// `Real` is `real_numerator(r) / real_denominator(r)`.
pub open spec fn real_denominator(r: Real) -> nat {
    pow10(decimal_len(r.fraction.0 as nat))
}

impl DeepView for Real {
    type V = Real;

    open spec fn deep_view(&self) -> Real {
        *self
    }
}

/// Two integers with `sep` between them, as `Real` and `Rational` are written.
pub open spec fn spec_integer_pair(s: Seq<char>, p: int, sep: char) -> SpecOutcome<
    (PositiveInteger, PositiveInteger),
> {
    match spec_positive_integer(s, p) {
        SpecOutcome::Parsed(a, q1) => match spec_char(s, q1, sep) {
            Some(q2) => match spec_positive_integer(s, q2) {
                SpecOutcome::Parsed(b, q3) => SpecOutcome::Parsed((a, b), q3),
                SpecOutcome::Failed => SpecOutcome::Failed,
                SpecOutcome::Aborted => SpecOutcome::Aborted,
            },
            None => SpecOutcome::Failed,
        },
        SpecOutcome::Failed => SpecOutcome::Failed,
        SpecOutcome::Aborted => SpecOutcome::Aborted,
    }
}

fn parse_integer_pair(s: &Vec<char>, p: usize, sep: char) -> (r: Outcome<(PositiveInteger, PositiveInteger)>)
    requires
        p <= s.len(),
    ensures
        r@ == spec_integer_pair(s@, p as int, sep),
        r.within(p as int, s.len() as int),
{
    match PositiveInteger::parse_at(s, p) {
        Outcome::Parsed(a, q1) => {
            if q1 < s.len() && s[q1] == sep {
                match PositiveInteger::parse_at(s, q1 + 1) {
                    Outcome::Parsed(b, q3) => Outcome::Parsed((a, b), q3),
                    Outcome::Failed => Outcome::Failed,
                    Outcome::Aborted => Outcome::Aborted,
                }
            } else {
                Outcome::Failed
            }
        },
        Outcome::Failed => Outcome::Failed,
        Outcome::Aborted => Outcome::Aborted,
    }
}

impl Parsable for Real {
    open spec fn spec_parse(s: Seq<char>, p: int) -> SpecOutcome<Real> {
        match spec_positive_integer(s, p) {
            SpecOutcome::Parsed(a, q1) => match spec_char(s, q1, '.') {
                Some(q2) => match spec_positive_integer(s, q2) {
                    SpecOutcome::Parsed(b, q3) => SpecOutcome::Parsed(Real { integer: a, fraction: b }, q3),
                    SpecOutcome::Failed => SpecOutcome::Failed,
                    SpecOutcome::Aborted => SpecOutcome::Aborted,
                },
                None => SpecOutcome::Failed,
            },
            SpecOutcome::Failed => SpecOutcome::Failed,
            SpecOutcome::Aborted => SpecOutcome::Aborted,
        }
    }

    fn parse_at(s: &Vec<char>, p: usize) -> (r: Outcome<Real>) {
        match PositiveInteger::parse_at(s, p) {
            Outcome::Parsed(a, q1) => {
                if q1 < s.len() && s[q1] == '.' {
                    match PositiveInteger::parse_at(s, q1 + 1) {
                        Outcome::Parsed(b, q3) => Outcome::Parsed(Real { integer: a, fraction: b }, q3),
                        Outcome::Failed => Outcome::Failed,
                        Outcome::Aborted => Outcome::Aborted,
                    }
                } else {
                    Outcome::Failed
                }
            },
            Outcome::Failed => Outcome::Failed,
            Outcome::Aborted => Outcome::Aborted,
        }
    }
}

/// The digits of `a` followed by those of `b` denote `a`'s value scaled by
/// ten to the number of digits in `b`, plus `b`'s value.
pub proof fn lemma_decimal_value_concat(a: Seq<char>, b: Seq<char>)
    ensures
        decimal_value(a + b) == decimal_value(a) * pow10(b.len()) + decimal_value(b),
    decreases b.len(),
{
    if b.len() == 0 {
        assert(a + b =~= a);
        assert(pow10(0) == 1);
        assert(decimal_value(b) == 0);
        assert(decimal_value(a) * 1 == decimal_value(a));
    } else {
        let c = b.last();
        let b0 = b.drop_last();
        assert((a + b).drop_last() =~= a + b0);
        assert((a + b).last() == c);
        lemma_decimal_value_concat(a, b0);
        assert(pow10(b.len()) == 10 * pow10(b0.len()));
        let va = decimal_value(a);
        let p0 = pow10(b0.len()) as int;
        let x = decimal_value(b0);
        let d = digit_value(c);
        assert(decimal_value(a + b) == decimal_value(a + b0) * 10 + d);
        assert(decimal_value(b) == x * 10 + d);
        assert((va * p0 + x) * 10 + d == va * (10 * p0) + (x * 10 + d)) by (nonlinear_arith);
        assert(decimal_value(a + b0) == va * p0 + x);
        assert(decimal_value(a + b) == va * (10 * p0) + (x * 10 + d));
    }
}

/// A decimal written `i.f` reads as the values of its two runs of digits.
/// Its value is scaled by the number of digits of the fraction's value, so
/// where `f` has no leading zero (or is a single digit) it is the number the
/// digits of `i` and `f` denote, divided by `10^|f|`; where `f` has leading
/// zeros they are dropped (`1.05` is read as `1.5`). This holds where both
/// runs fit in 64 bits.
pub proof fn lemma_decimal_read_back(i: Seq<char>, f: Seq<char>, rest: Seq<char>)
    requires
        i.len() > 0,
        f.len() > 0,
        forall|j: int| 0 <= j < i.len() ==> is_decimal_digit(#[trigger] i[j]),
        forall|j: int| 0 <= j < f.len() ==> is_decimal_digit(#[trigger] f[j]),
        rest.len() == 0 || !is_decimal_digit(rest[0]),
        decimal_value(i) <= u64::MAX,
        decimal_value(f) <= u64::MAX,
    ensures
        match Real::spec_parse(i + seq!['.'] + f + rest, 0) {
            SpecOutcome::Parsed(r, q) => {
                &&& q == i.len() + 1 + f.len()
                &&& r.integer.0 == decimal_value(i)
                &&& r.fraction.0 == decimal_value(f)
                &&& real_denominator(r) == pow10(decimal_len(decimal_value(f) as nat))
                &&& (f.len() == 1 || f[0] != '0') ==> real_denominator(r) == pow10(f.len())
                    && real_numerator(r) == decimal_value(i + f)
            },
            _ => false,
        },
{
    let s = i + seq!['.'] + f + rest;
    let tail = seq!['.'] + f + rest;
    assert(s =~= i + tail);
    lemma_digits_read_back(i, tail);
    assert(tail[0] == '.');
    let q2 = i.len() + 1;
    let tail2 = f + rest;
    assert(s.subrange(q2 as int, s.len() as int) =~= tail2);
    lemma_digits_end_of_run(f, rest, 0);
    lemma_digits_end_shift(s, q2 as int, tail2, 0);
    assert(s.subrange(q2 as int, (q2 + f.len()) as int) =~= f);
    lemma_decimal_value_nonneg(i);
    lemma_decimal_value_nonneg(f);
    lemma_decimal_value_concat(i, f);
    if f.len() == 1 || f[0] != '0' {
        lemma_decimal_len_of_digits(f);
    }
    assert(spec_positive_integer(s, 0) == SpecOutcome::Parsed(
        PositiveInteger(decimal_value(i) as u64),
        i.len() as int,
    ));
    assert(spec_char(s, i.len() as int, '.') == Some(q2 as int));
    assert(digits_end(s, q2 as int) == q2 + f.len());
    assert(spec_positive_integer(s, q2 as int) == SpecOutcome::Parsed(
        PositiveInteger(decimal_value(f) as u64),
        (q2 + f.len()) as int,
    ));
}

/// The end of a digit run found in a suffix, moved back to the whole text.
proof fn lemma_digits_end_shift(s: Seq<char>, off: int, t: Seq<char>, j: int)
    requires
        0 <= off <= s.len(),
        t == s.subrange(off, s.len() as int),
        0 <= j <= t.len(),
    ensures
        digits_end(s, off + j) == off + digits_end(t, j),
    decreases t.len() - j,
{
    if j < t.len() {
        assert(s[off + j] == t[j]);
        if is_decimal_digit(t[j]) {
            lemma_digits_end_shift(s, off, t, j + 1);
        }
    }
}

/// A fraction: digits, `/`, digits.
#[derive(Debug, Clone, Copy, PartialEq, Eq)]
pub struct Rational(pub u64, pub u64);

impl DeepView for Rational {
    type V = Rational;

    open spec fn deep_view(&self) -> Rational {
        *self
    }
}

impl Parsable for Rational {
    open spec fn spec_parse(s: Seq<char>, p: int) -> SpecOutcome<Rational> {
        match spec_integer_pair(s, p, '/') {
            SpecOutcome::Parsed((a, b), q) => SpecOutcome::Parsed(Rational(a.0, b.0), q),
            SpecOutcome::Failed => SpecOutcome::Failed,
            SpecOutcome::Aborted => SpecOutcome::Aborted,
        }
    }

    fn parse_at(s: &Vec<char>, p: usize) -> (r: Outcome<Rational>) {
        match parse_integer_pair(s, p, '/') {
            Outcome::Parsed((a, b), q) => Outcome::Parsed(Rational(a.0, b.0), q),
            Outcome::Failed => Outcome::Failed,
            Outcome::Aborted => Outcome::Aborted,
        }
    }
}

proof fn lemma_digits_end_of_run(d: Seq<char>, rest: Seq<char>, i: int)
    requires
        0 <= i <= d.len(),
        forall|j: int| 0 <= j < d.len() ==> is_decimal_digit(#[trigger] d[j]),
        rest.len() == 0 || !is_decimal_digit(rest[0]),
    ensures
        digits_end(d + rest, i) == d.len(),
    decreases d.len() - i,
{
    let s = d + rest;
    if i < d.len() {
        assert(s[i] == d[i]);
        lemma_digits_end_of_run(d, rest, i + 1);
    } else if rest.len() > 0 {
        assert(s[i] == rest[0]);
    }
}

/// A run of digits reads back as the number it denotes, unless that number
/// does not fit in 64 bits.
pub proof fn lemma_digits_read_back(d: Seq<char>, rest: Seq<char>)
    requires
        d.len() > 0,
        forall|j: int| 0 <= j < d.len() ==> is_decimal_digit(#[trigger] d[j]),
        rest.len() == 0 || !is_decimal_digit(rest[0]),
    ensures
        spec_positive_integer(d + rest, 0) == (if decimal_value(d) <= u64::MAX {
            SpecOutcome::Parsed(PositiveInteger(decimal_value(d) as u64), d.len() as int)
        } else {
            SpecOutcome::Aborted
        }),
{
    lemma_digits_end_of_run(d, rest, 0);
    assert((d + rest).subrange(0, d.len() as int) =~= d);
}

proof fn lemma_digit_value_range(c: char)
    requires
        is_decimal_digit(c),
    ensures
        0 <= digit_value(c) <= 9,
{
    assert('0' as int == 48);
    assert('9' as int == 57);
}

proof fn lemma_decimal_value_at_least_first(d: Seq<char>)
    requires
        d.len() > 0,
        forall|j: int| 0 <= j < d.len() ==> is_decimal_digit(#[trigger] d[j]),
    ensures
        decimal_value(d) >= digit_value(d[0]),
    decreases d.len(),
{
    assert(is_decimal_digit(d.last()));
    lemma_digit_value_range(d.last());
    assert(decimal_value(d) == decimal_value(d.drop_last()) * 10 + digit_value(d.last()));
    if d.len() > 1 {
        let e = d.drop_last();
        assert(e[0] == d[0]);
        lemma_decimal_value_at_least_first(e);
        lemma_decimal_value_nonneg(e);
        assert(decimal_value(e) * 10 >= decimal_value(e));
    } else {
        assert(d.drop_last() =~= Seq::<char>::empty());
        assert(decimal_value(d.drop_last()) == 0);
        assert(d.last() == d[0]);
    }
}

/// A run of digits without a leading zero has as many digits as its value is
/// written with: `len` counts the digits that were read.
pub proof fn lemma_decimal_len_of_digits(d: Seq<char>)
    requires
        d.len() > 0,
        forall|j: int| 0 <= j < d.len() ==> is_decimal_digit(#[trigger] d[j]),
        d.len() == 1 || d[0] != '0',
    ensures
        decimal_value(d) >= 0,
        decimal_len(decimal_value(d) as nat) == d.len(),
    decreases d.len(),
{
    lemma_decimal_value_nonneg(d);
    assert(is_decimal_digit(d.last()));
    lemma_digit_value_range(d.last());
    assert(decimal_value(d) == decimal_value(d.drop_last()) * 10 + digit_value(d.last()));
    if d.len() == 1 {
        assert(d.drop_last() =~= Seq::<char>::empty());
        assert(decimal_value(d.drop_last()) == 0);
        assert(d.last() == d[0]);
        assert(decimal_value(d) < 10);
    } else {
        let e = d.drop_last();
        assert(e[0] == d[0]);
        lemma_decimal_len_of_digits(e);
        lemma_decimal_value_at_least_first(e);
        assert(is_decimal_digit(d[0]) && d[0] != '0');
        lemma_digit_value_range(d[0]);
        assert('0' as int == 48);
        let v = decimal_value(e);
        let c = digit_value(d.last());
        assert(is_decimal_digit(d.last()));
        assert(0 <= c < 10);
        assert(v >= 1);
        assert((v * 10 + c) / 10 == v) by (nonlinear_arith)
            requires
                0 <= c < 10,
                v >= 0,
        ;
        assert(decimal_len((v * 10 + c) as nat) == 1 + decimal_len(v as nat));
    }
}

/// `decimal_len(n)` is the number of decimal digits of `n`:
/// `10^(len - 1) <= n < 10^len` (the lower bound for `n >= 10`).
pub proof fn lemma_decimal_len_bounds(n: nat)
    ensures
        decimal_len(n) >= 1,
        n < pow10(decimal_len(n)),
        n >= 10 ==> pow10((decimal_len(n) - 1) as nat) <= n,
    decreases n,
{
    reveal_with_fuel(pow10, 2);
    if n >= 10 {
        let m = n / 10;
        lemma_decimal_len_bounds(m);
        let k = decimal_len(m);
        assert(pow10(k + 1) == 10 * pow10(k));
        assert(n < 10 * pow10(k)) by (nonlinear_arith)
            requires
                m == n / 10,
                m < pow10(k),
        ;
        if m >= 10 {
            assert(pow10(k) == 10 * pow10((k - 1) as nat));
            assert(pow10(k) <= n) by (nonlinear_arith)
                requires
                    m == n / 10,
                    pow10((k - 1) as nat) <= m,
                    pow10(k) == 10 * pow10((k - 1) as nat),
            ;
        } else {
            assert(k == 1);
        }
    }
}

impl From<PositiveInteger> for u64 {
    fn from(value: PositiveInteger) -> (r: u64) {
        value.0
    }
}

impl vstd::std_specs::convert::FromSpecImpl<PositiveInteger> for u64 {
    open spec fn obeys_from_spec() -> bool {
        true
    }

    open spec fn from_spec(v: PositiveInteger) -> u64 {
        v.0
    }
}

/// Written `[sign] number_type`.
#[derive(Debug, Clone, Copy, PartialEq)]
pub struct Number {
    pub sign: Option<Sign>,
    pub number_type: NumberType,
}

impl DeepView for Number {
    type V = Number;

    open spec fn deep_view(&self) -> Number {
        *self
    }
}

impl Parsable for Number {
    open spec fn spec_parse(s: Seq<char>, p: int) -> SpecOutcome<Number> {
        bind(spec_optional::<Sign>(s, ws_end(s, p)), |sign: Option<Sign>, q1: int|
        bind(spec_padded::<NumberType>(s, q1), |number_type: NumberType, q2: int|
        SpecOutcome::Parsed(Number { sign, number_type }, ws_end(s, q2))))
    }

    fn parse_at(s: &Vec<char>, p: usize) -> (r: Outcome<Number>) {
        let q0 = skip_ws(s, p);
        let (v_sign, q1) = match parse_optional::<Sign>(s, q0) {
            Outcome::Parsed(v, q) => (v, q),
            Outcome::Failed => return Outcome::Failed,
            Outcome::Aborted => return Outcome::Aborted,
        };
        let (v_number_type, q2) = match parse_padded::<NumberType>(s, q1) {
            Outcome::Parsed(v, q) => (v, q),
            Outcome::Failed => return Outcome::Failed,
            Outcome::Aborted => return Outcome::Aborted,
        };
        let q3 = skip_ws(s, q2);
        Outcome::Parsed(Number { sign: v_sign, number_type: v_number_type }, q3)
    }
}

/// One of, tried in this order:
/// - `Float`: `Real`
/// - `Rat`: `Rational`
/// - `PosInt`: `PositiveInteger`
#[derive(Debug, Clone, Copy, PartialEq)]
pub enum NumberType {
    Float(Real),
    Rat(Rational),
    PosInt(PositiveInteger),
}

impl DeepView for NumberType {
    type V = NumberType;

    open spec fn deep_view(&self) -> NumberType {
        *self
    }
}

pub open spec fn spec_number_type_float(s: Seq<char>, p: int) -> SpecOutcome<NumberType> {
    bind(spec_padded::<Real>(s, ws_end(s, p)), |v0: Real, q1: int|
    SpecOutcome::Parsed(NumberType::Float(v0), ws_end(s, q1)))
}

fn parse_number_type_float(s: &Vec<char>, p: usize) -> (r: Outcome<NumberType>)
    requires
        p <= s.len(),
    ensures
        r@ == spec_number_type_float(s@, p as int),
        r.within(p as int, s.len() as int),
{
    let q0 = skip_ws(s, p);
    let (v_0, q1) = match parse_padded::<Real>(s, q0) {
        Outcome::Parsed(v, q) => (v, q),
        Outcome::Failed => return Outcome::Failed,
        Outcome::Aborted => return Outcome::Aborted,
    };
    let q2 = skip_ws(s, q1);
    Outcome::Parsed(NumberType::Float(v_0), q2)
}

pub open spec fn spec_number_type_rat(s: Seq<char>, p: int) -> SpecOutcome<NumberType> {
    bind(spec_padded::<Rational>(s, ws_end(s, p)), |v0: Rational, q1: int|
    SpecOutcome::Parsed(NumberType::Rat(v0), ws_end(s, q1)))
}

fn parse_number_type_rat(s: &Vec<char>, p: usize) -> (r: Outcome<NumberType>)
    requires
        p <= s.len(),
    ensures
        r@ == spec_number_type_rat(s@, p as int),
        r.within(p as int, s.len() as int),
{
    let q0 = skip_ws(s, p);
    let (v_0, q1) = match parse_padded::<Rational>(s, q0) {
        Outcome::Parsed(v, q) => (v, q),
        Outcome::Failed => return Outcome::Failed,
        Outcome::Aborted => return Outcome::Aborted,
    };
    let q2 = skip_ws(s, q1);
    Outcome::Parsed(NumberType::Rat(v_0), q2)
}

pub open spec fn spec_number_type_pos_int(s: Seq<char>, p: int) -> SpecOutcome<NumberType> {
    bind(spec_padded::<PositiveInteger>(s, ws_end(s, p)), |v0: PositiveInteger, q1: int|
    SpecOutcome::Parsed(NumberType::PosInt(v0), ws_end(s, q1)))
}

fn parse_number_type_pos_int(s: &Vec<char>, p: usize) -> (r: Outcome<NumberType>)
    requires
        p <= s.len(),
    ensures
        r@ == spec_number_type_pos_int(s@, p as int),
        r.within(p as int, s.len() as int),
{
    let q0 = skip_ws(s, p);
    let (v_0, q1) = match parse_padded::<PositiveInteger>(s, q0) {
        Outcome::Parsed(v, q) => (v, q),
        Outcome::Failed => return Outcome::Failed,
        Outcome::Aborted => return Outcome::Aborted,
    };
    let q2 = skip_ws(s, q1);
    Outcome::Parsed(NumberType::PosInt(v_0), q2)
}

impl Parsable for NumberType {
    open spec fn spec_parse(s: Seq<char>, p: int) -> SpecOutcome<NumberType> {
        match spec_number_type_float(s, p) {
            SpecOutcome::Failed => match spec_number_type_rat(s, p) {
                SpecOutcome::Failed => spec_number_type_pos_int(s, p),
                o => o,
            },
            o => o,
        }
    }

    fn parse_at(s: &Vec<char>, p: usize) -> (r: Outcome<NumberType>) {
        match parse_number_type_float(s, p) {
            Outcome::Failed => {},
            o => return o,
        }
        match parse_number_type_rat(s, p) {
            Outcome::Failed => {},
            o => return o,
        }
        parse_number_type_pos_int(s, p)
    }
}

/// One of, tried in this order:
/// - `Plus`: `+`
/// - `Minus`: `-`
#[derive(Debug, Clone, Copy, PartialEq)]
pub enum Sign {
    Plus,
    Minus,
}

impl DeepView for Sign {
    type V = Sign;

    open spec fn deep_view(&self) -> Sign {
        *self
    }
}

pub open spec fn spec_sign_plus(s: Seq<char>, p: int) -> SpecOutcome<Sign> {
    match spec_keyword_item(s, p, "+"@) {
        None => SpecOutcome::Failed,
        Some(q) => SpecOutcome::Parsed(Sign::Plus, q),
    }
}

fn parse_sign_plus(s: &Vec<char>, p: usize) -> (r: Outcome<Sign>)
    requires
        p <= s.len(),
    ensures
        r@ == spec_sign_plus(s@, p as int),
        r.within(p as int, s.len() as int),
{
    let q0 = match parse_keyword_item(s, p, "+") {
        Some(q) => q,
        None => return Outcome::Failed,
    };
    Outcome::Parsed(Sign::Plus, q0)
}

pub open spec fn spec_sign_minus(s: Seq<char>, p: int) -> SpecOutcome<Sign> {
    match spec_keyword_item(s, p, "-"@) {
        None => SpecOutcome::Failed,
        Some(q) => SpecOutcome::Parsed(Sign::Minus, q),
    }
}

fn parse_sign_minus(s: &Vec<char>, p: usize) -> (r: Outcome<Sign>)
    requires
        p <= s.len(),
    ensures
        r@ == spec_sign_minus(s@, p as int),
        r.within(p as int, s.len() as int),
{
    let q0 = match parse_keyword_item(s, p, "-") {
        Some(q) => q,
        None => return Outcome::Failed,
    };
    Outcome::Parsed(Sign::Minus, q0)
}

impl Parsable for Sign {
    open spec fn spec_parse(s: Seq<char>, p: int) -> SpecOutcome<Sign> {
        match spec_sign_plus(s, p) {
            SpecOutcome::Failed => spec_sign_minus(s, p),
            o => o,
        }
    }

    fn parse_at(s: &Vec<char>, p: usize) -> (r: Outcome<Sign>) {
        match parse_sign_plus(s, p) {
            Outcome::Failed => {},
            o => return o,
        }
        parse_sign_minus(s, p)
    }
}

/// One of, tried in this order:
/// - `Inch`: `inch`
/// - `Mil`: `mil`
/// - `Cm`: `cm`
/// - `Mm`: `mm`
/// - `Um`: `um`
#[derive(Debug, Clone, Copy, PartialEq)]
pub enum DimensionUnit {
    Inch,
    Mil,
    Cm,
    Mm,
    Um,
}

impl DeepView for DimensionUnit {
    type V = DimensionUnit;

    open spec fn deep_view(&self) -> DimensionUnit {
        *self
    }
}

pub open spec fn spec_dimension_unit_inch(s: Seq<char>, p: int) -> SpecOutcome<DimensionUnit> {
    match spec_keyword_item(s, p, "inch"@) {
        None => SpecOutcome::Failed,
        Some(q) => SpecOutcome::Parsed(DimensionUnit::Inch, q),
    }
}

fn parse_dimension_unit_inch(s: &Vec<char>, p: usize) -> (r: Outcome<DimensionUnit>)
    requires
        p <= s.len(),
    ensures
        r@ == spec_dimension_unit_inch(s@, p as int),
        r.within(p as int, s.len() as int),
{
    let q0 = match parse_keyword_item(s, p, "inch") {
        Some(q) => q,
        None => return Outcome::Failed,
    };
    Outcome::Parsed(DimensionUnit::Inch, q0)
}

pub open spec fn spec_dimension_unit_mil(s: Seq<char>, p: int) -> SpecOutcome<DimensionUnit> {
    match spec_keyword_item(s, p, "mil"@) {
        None => SpecOutcome::Failed,
        Some(q) => SpecOutcome::Parsed(DimensionUnit::Mil, q),
    }
}

fn parse_dimension_unit_mil(s: &Vec<char>, p: usize) -> (r: Outcome<DimensionUnit>)
    requires
        p <= s.len(),
    ensures
        r@ == spec_dimension_unit_mil(s@, p as int),
        r.within(p as int, s.len() as int),
{
    let q0 = match parse_keyword_item(s, p, "mil") {
        Some(q) => q,
        None => return Outcome::Failed,
    };
    Outcome::Parsed(DimensionUnit::Mil, q0)
}

pub open spec fn spec_dimension_unit_cm(s: Seq<char>, p: int) -> SpecOutcome<DimensionUnit> {
    match spec_keyword_item(s, p, "cm"@) {
        None => SpecOutcome::Failed,
        Some(q) => SpecOutcome::Parsed(DimensionUnit::Cm, q),
    }
}

fn parse_dimension_unit_cm(s: &Vec<char>, p: usize) -> (r: Outcome<DimensionUnit>)
    requires
        p <= s.len(),
    ensures
        r@ == spec_dimension_unit_cm(s@, p as int),
        r.within(p as int, s.len() as int),
{
    let q0 = match parse_keyword_item(s, p, "cm") {
        Some(q) => q,
        None => return Outcome::Failed,
    };
    Outcome::Parsed(DimensionUnit::Cm, q0)
}

pub open spec fn spec_dimension_unit_mm(s: Seq<char>, p: int) -> SpecOutcome<DimensionUnit> {
    match spec_keyword_item(s, p, "mm"@) {
        None => SpecOutcome::Failed,
        Some(q) => SpecOutcome::Parsed(DimensionUnit::Mm, q),
    }
}

fn parse_dimension_unit_mm(s: &Vec<char>, p: usize) -> (r: Outcome<DimensionUnit>)
    requires
        p <= s.len(),
    ensures
        r@ == spec_dimension_unit_mm(s@, p as int),
        r.within(p as int, s.len() as int),
{
    let q0 = match parse_keyword_item(s, p, "mm") {
        Some(q) => q,
        None => return Outcome::Failed,
    };
    Outcome::Parsed(DimensionUnit::Mm, q0)
}

pub open spec fn spec_dimension_unit_um(s: Seq<char>, p: int) -> SpecOutcome<DimensionUnit> {
    match spec_keyword_item(s, p, "um"@) {
        None => SpecOutcome::Failed,
        Some(q) => SpecOutcome::Parsed(DimensionUnit::Um, q),
    }
}

fn parse_dimension_unit_um(s: &Vec<char>, p: usize) -> (r: Outcome<DimensionUnit>)
    requires
        p <= s.len(),
    ensures
        r@ == spec_dimension_unit_um(s@, p as int),
        r.within(p as int, s.len() as int),
{
    let q0 = match parse_keyword_item(s, p, "um") {
        Some(q) => q,
        None => return Outcome::Failed,
    };
    Outcome::Parsed(DimensionUnit::Um, q0)
}

impl Parsable for DimensionUnit {
    open spec fn spec_parse(s: Seq<char>, p: int) -> SpecOutcome<DimensionUnit> {
        match spec_dimension_unit_inch(s, p) {
            SpecOutcome::Failed => match spec_dimension_unit_mil(s, p) {
                SpecOutcome::Failed => match spec_dimension_unit_cm(s, p) {
                    SpecOutcome::Failed => match spec_dimension_unit_mm(s, p) {
                        SpecOutcome::Failed => spec_dimension_unit_um(s, p),
                        o => o,
                    },
                    o => o,
                },
                o => o,
            },
            o => o,
        }
    }

    fn parse_at(s: &Vec<char>, p: usize) -> (r: Outcome<DimensionUnit>) {
        match parse_dimension_unit_inch(s, p) {
            Outcome::Failed => {},
            o => return o,
        }
        match parse_dimension_unit_mil(s, p) {
            Outcome::Failed => {},
            o => return o,
        }
        match parse_dimension_unit_cm(s, p) {
            Outcome::Failed => {},
            o => return o,
        }
        match parse_dimension_unit_mm(s, p) {
            Outcome::Failed => {},
            o => return o,
        }
        parse_dimension_unit_um(s, p)
    }
}

/// Written `Number`.
#[derive(Debug, Clone, Copy, PartialEq)]
pub struct PositiveDimension(pub Number);

impl DeepView for PositiveDimension {
    type V = PositiveDimension;

    open spec fn deep_view(&self) -> PositiveDimension {
        *self
    }
}

impl Parsable for PositiveDimension {
    open spec fn spec_parse(s: Seq<char>, p: int) -> SpecOutcome<PositiveDimension> {
        bind(spec_padded::<Number>(s, ws_end(s, p)), |v0: Number, q1: int|
        SpecOutcome::Parsed(PositiveDimension(v0), ws_end(s, q1)))
    }

    fn parse_at(s: &Vec<char>, p: usize) -> (r: Outcome<PositiveDimension>) {
        let q0 = skip_ws(s, p);
        let (v_0, q1) = match parse_padded::<Number>(s, q0) {
            Outcome::Parsed(v, q) => (v, q),
            Outcome::Failed => return Outcome::Failed,
            Outcome::Aborted => return Outcome::Aborted,
        };
        let q2 = skip_ws(s, q1);
        Outcome::Parsed(PositiveDimension(v_0), q2)
    }
}

/// The fields of `Number` come from the text in
/// declaration order: each is what its own rule reads where the previous one
/// ended.
pub proof fn lemma_number_fields_in_order(s: Seq<char>, p: int)
    ensures
        Number::spec_parse(s, p) matches SpecOutcome::Parsed(v, q) ==> {
            let r0 = spec_optional::<Sign>(s, ws_end(s, p));
            let r1 = spec_padded::<NumberType>(s, r0.end());
            &&& r0 == SpecOutcome::Parsed(v.sign, r0.end())
            &&& r1 == SpecOutcome::Parsed(v.number_type, r1.end())
            &&& q == ws_end(s, r1.end())
        },
{
}

/// The fields of `PositiveDimension` come from the text in
/// declaration order: each is what its own rule reads where the previous one
/// ended.
pub proof fn lemma_positive_dimension_fields_in_order(s: Seq<char>, p: int)
    ensures
        PositiveDimension::spec_parse(s, p) matches SpecOutcome::Parsed(v, q) ==> {
            let r0 = spec_padded::<Number>(s, ws_end(s, p));
            &&& r0 == SpecOutcome::Parsed(v.0, r0.end())
            &&& q == ws_end(s, r0.end())
        },
{
}

/// The fields of the `Float` form read by `spec_number_type_float` come from the text in
/// declaration order: each is what its own rule reads where the previous one
/// ended.
pub proof fn lemma_number_type_float_fields_in_order(s: Seq<char>, p: int)
    ensures
        spec_number_type_float(s, p) matches SpecOutcome::Parsed(v, q) ==> {
            let r0 = spec_padded::<Real>(s, ws_end(s, p));
            &&& v is Float
            &&& r0 == SpecOutcome::Parsed(v->Float_0, r0.end())
            &&& q == ws_end(s, r0.end())
        },
{
}

/// The fields of the `Rat` form read by `spec_number_type_rat` come from the text in
/// declaration order: each is what its own rule reads where the previous one
/// ended.
pub proof fn lemma_number_type_rat_fields_in_order(s: Seq<char>, p: int)
    ensures
        spec_number_type_rat(s, p) matches SpecOutcome::Parsed(v, q) ==> {
            let r0 = spec_padded::<Rational>(s, ws_end(s, p));
            &&& v is Rat
            &&& r0 == SpecOutcome::Parsed(v->Rat_0, r0.end())
            &&& q == ws_end(s, r0.end())
        },
{
}

/// The fields of the `PosInt` form read by `spec_number_type_pos_int` come from the text in
/// declaration order: each is what its own rule reads where the previous one
/// ended.
pub proof fn lemma_number_type_pos_int_fields_in_order(s: Seq<char>, p: int)
    ensures
        spec_number_type_pos_int(s, p) matches SpecOutcome::Parsed(v, q) ==> {
            let r0 = spec_padded::<PositiveInteger>(s, ws_end(s, p));
            &&& v is PosInt
            &&& r0 == SpecOutcome::Parsed(v->PosInt_0, r0.end())
            &&& q == ws_end(s, r0.end())
        },
{
}

} // verus!
