use vstd::prelude::*;
use crate::outcome::{Outcome, SpecOutcome, spec_or_not, opt_pos};
use crate::text::{lit_at, lemma_ws_end_bounds, lemma_ws_end_within_run, chars_of, ws_end, skip_ws, spec_lparen, spec_rparen, spec_keyword, spec_char, lparen, rparen, keyword, is_white_space, is_white_space_char, copy_range, string_from_chars};

verus! {

/// A type that can be read from S-expression text. `spec_parse` is the grammar
/// rule of the type; `parse_at` runs it.
pub trait Parsable: Sized + DeepView {
    /// The value and end position the rule gives when started at `p`.
    spec fn spec_parse(s: Seq<char>, p: int) -> SpecOutcome<Self::V>;

    /// Runs the rule of the type at position `p` of the input.
    fn parse_at(s: &Vec<char>, p: usize) -> (r: Outcome<Self>)
        requires
            p <= s.len(),
        ensures
            r@ == Self::spec_parse(s@, p as int),
            r.within(p as int, s.len() as int),
    ;
}

/// Moves the end of a successful parse past the white space that follows.
pub open spec fn spec_then_ws<V>(o: SpecOutcome<V>, s: Seq<char>) -> SpecOutcome<V> {
    match o {
        SpecOutcome::Parsed(v, q) => SpecOutcome::Parsed(v, ws_end(s, q)),
        SpecOutcome::Failed => SpecOutcome::Failed,
        SpecOutcome::Aborted => SpecOutcome::Aborted,
    }
}

/// A value with optional white space around it (`padded`).
pub open spec fn spec_padded<T: Parsable>(s: Seq<char>, p: int) -> SpecOutcome<T::V> {
    spec_then_ws(T::spec_parse(s, ws_end(s, p)), s)
}

pub fn parse_padded<T: Parsable>(s: &Vec<char>, p: usize) -> (r: Outcome<T>)
    requires
        p <= s.len(),
    ensures
        r@ == spec_padded::<T>(s@, p as int),
        r.within(p as int, s.len() as int),
{
    let q = skip_ws(s, p);
    match T::parse_at(s, q) {
        Outcome::Parsed(v, q1) => Outcome::Parsed(v, skip_ws(s, q1)),
        Outcome::Failed => Outcome::Failed,
        Outcome::Aborted => Outcome::Aborted,
    }
}

/// A field written as `(name value)`, with optional white space around it.
pub open spec fn spec_named<T: Parsable>(s: Seq<char>, p: int, name: Seq<char>) -> SpecOutcome<
    T::V,
> {
    match spec_lparen(s, ws_end(s, p)) {
        None => SpecOutcome::Failed,
        Some(q1) => match spec_keyword(s, q1, name) {
            None => SpecOutcome::Failed,
            Some(q2) => match T::spec_parse(s, q2) {
                SpecOutcome::Parsed(v, q3) => match spec_rparen(s, q3) {
                    Some(q4) => SpecOutcome::Parsed(v, ws_end(s, q4)),
                    None => SpecOutcome::Failed,
                },
                SpecOutcome::Failed => SpecOutcome::Failed,
                SpecOutcome::Aborted => SpecOutcome::Aborted,
            },
        },
    }
}

pub fn parse_named<T: Parsable>(s: &Vec<char>, p: usize, name: &str) -> (r: Outcome<T>)
    requires
        p <= s.len(),
    ensures
        r@ == spec_named::<T>(s@, p as int, name@),
        r.within(p as int, s.len() as int),
{
    let q = skip_ws(s, p);
    let q1 = match lparen(s, q) {
        Some(q1) => q1,
        None => return Outcome::Failed,
    };
    let q2 = match keyword(s, q1, name) {
        Some(q2) => q2,
        None => return Outcome::Failed,
    };
    match T::parse_at(s, q2) {
        Outcome::Parsed(v, q3) => match rparen(s, q3) {
            Some(q4) => Outcome::Parsed(v, skip_ws(s, q4)),
            None => Outcome::Failed,
        },
        Outcome::Failed => Outcome::Failed,
        Outcome::Aborted => Outcome::Aborted,
    }
}

/// An optional value with white space around it.
pub open spec fn spec_optional<T: Parsable>(s: Seq<char>, p: int) -> SpecOutcome<Option<T::V>> {
    spec_or_not(spec_padded::<T>(s, p), p)
}

pub fn parse_optional<T: Parsable>(s: &Vec<char>, p: usize) -> (r: Outcome<Option<T>>)
    requires
        p <= s.len(),
    ensures
        r@ == spec_optional::<T>(s@, p as int),
        r.within(p as int, s.len() as int),
{
    match parse_padded::<T>(s, p) {
        Outcome::Parsed(v, q) => Outcome::Parsed(Some(v), q),
        Outcome::Failed => Outcome::Parsed(None, p),
        Outcome::Aborted => Outcome::Aborted,
    }
}

/// An optional `(name value)` field.
pub open spec fn spec_optional_named<T: Parsable>(s: Seq<char>, p: int, name: Seq<char>) -> SpecOutcome<
    Option<T::V>,
> {
    spec_or_not(spec_named::<T>(s, p, name), p)
}

pub fn parse_optional_named<T: Parsable>(s: &Vec<char>, p: usize, name: &str) -> (r: Outcome<
    Option<T>,
>)
    requires
        p <= s.len(),
    ensures
        r@ == spec_optional_named::<T>(s@, p as int, name@),
        r.within(p as int, s.len() as int),
{
    match parse_named::<T>(s, p, name) {
        Outcome::Parsed(v, q) => Outcome::Parsed(Some(v), q),
        Outcome::Failed => Outcome::Parsed(None, p),
        Outcome::Aborted => Outcome::Aborted,
    }
}

/// The start of a list `(name ...`: white space, `(`, then the keyword.
pub open spec fn spec_open(s: Seq<char>, p: int, name: Seq<char>) -> Option<int> {
    match spec_lparen(s, ws_end(s, p)) {
        Some(q) => spec_keyword(s, q, name),
        None => None,
    }
}

pub fn parse_open(s: &Vec<char>, p: usize, name: &str) -> (r: Option<usize>)
    requires
        p <= s.len(),
    ensures
        opt_pos(r) == spec_open(s@, p as int, name@),
        r matches Some(q) ==> p <= q <= s.len(),
{
    let q = skip_ws(s, p);
    match lparen(s, q) {
        Some(q1) => keyword(s, q1, name),
        None => None,
    }
}

/// The end of a list: `)` then white space.
pub open spec fn spec_close(s: Seq<char>, p: int) -> Option<int> {
    match spec_rparen(s, p) {
        Some(q) => Some(ws_end(s, q)),
        None => None,
    }
}

pub fn parse_close(s: &Vec<char>, p: usize) -> (r: Option<usize>)
    requires
        p <= s.len(),
    ensures
        opt_pos(r) == spec_close(s@, p as int),
        r matches Some(q) ==> p <= q <= s.len(),
{
    match rparen(s, p) {
        Some(q) => Some(skip_ws(s, q)),
        None => None,
    }
}

/// A bare keyword with white space around it, as a unit-like item is written.
pub open spec fn spec_keyword_item(s: Seq<char>, p: int, name: Seq<char>) -> Option<int> {
    match spec_keyword(s, ws_end(s, p), name) {
        Some(q) => Some(ws_end(s, q)),
        None => None,
    }
}

pub fn parse_keyword_item(s: &Vec<char>, p: usize, name: &str) -> (r: Option<usize>)
    requires
        p <= s.len(),
    ensures
        opt_pos(r) == spec_keyword_item(s@, p as int, name@),
        r matches Some(q) ==> p <= q <= s.len(),
{
    let q = skip_ws(s, p);
    match keyword(s, q, name) {
        Some(q1) => Some(skip_ws(s, q1)),
        None => None,
    }
}

/// Two keywords that differ at a position within both cannot both stand at
/// the same place: at most one of their keyword items matches.
pub proof fn lemma_keyword_items_exclusive(s: Seq<char>, p: int, a: Seq<char>, b: Seq<char>, i: int)
    requires
        0 <= i < a.len(),
        i < b.len(),
        a[i] != b[i],
    ensures
        !(spec_keyword_item(s, p, a) is Some && spec_keyword_item(s, p, b) is Some),
{
    let q = ws_end(s, ws_end(s, p));
    if lit_at(s, q, a) && lit_at(s, q, b) {
        assert(s.subrange(q, q + a.len())[i] == a[i]);
        assert(s.subrange(q, q + b.len())[i] == b[i]);
    }
}

/// Zero or more values, as many as match. An element that matches without
/// consuming input would repeat forever; the rule aborts there.
pub open spec fn spec_many<T: Parsable>(s: Seq<char>, p: int) -> SpecOutcome<Seq<T::V>>
    decreases s.len() - p,
{
    match T::spec_parse(s, p) {
        SpecOutcome::Parsed(v, q) => if q <= p {
            SpecOutcome::Aborted
        } else if q <= s.len() {
            match spec_many::<T>(s, q) {
                SpecOutcome::Parsed(vs, r) => SpecOutcome::Parsed(seq![v] + vs, r),
                SpecOutcome::Failed => SpecOutcome::Failed,
                SpecOutcome::Aborted => SpecOutcome::Aborted,
            }
        } else {
            SpecOutcome::Parsed(seq![v], q)
        },
        SpecOutcome::Failed => SpecOutcome::Parsed(seq![], p),
        SpecOutcome::Aborted => SpecOutcome::Aborted,
    }
}

/// `vs` put in front of the values of a repetition.
pub open spec fn spec_prepend<V>(vs: Seq<V>, o: SpecOutcome<Seq<V>>) -> SpecOutcome<Seq<V>> {
    match o {
        SpecOutcome::Parsed(ws, r) => SpecOutcome::Parsed(vs + ws, r),
        SpecOutcome::Failed => SpecOutcome::Failed,
        SpecOutcome::Aborted => SpecOutcome::Aborted,
    }
}

pub fn parse_many<T: Parsable>(s: &Vec<char>, p: usize) -> (r: Outcome<Vec<T>>)
    requires
        p <= s.len(),
    ensures
        r@ == spec_many::<T>(s@, p as int),
        r.within(p as int, s.len() as int),
{
    let mut acc: Vec<T> = Vec::new();
    let mut cur = p;
    assert(acc.deep_view() =~= Seq::<T::V>::empty());
    assert(spec_many::<T>(s@, p as int) == spec_prepend(
        acc.deep_view(),
        spec_many::<T>(s@, cur as int),
    )) by {
        match spec_many::<T>(s@, p as int) {
            SpecOutcome::Parsed(vs, r) => {
                assert(Seq::<T::V>::empty() + vs =~= vs);
            },
            _ => {},
        }
    }
    loop
        invariant
            p <= cur <= s.len(),
            spec_many::<T>(s@, p as int) == spec_prepend(
                acc.deep_view(),
                spec_many::<T>(s@, cur as int),
            ),
        decreases s.len() - cur,
    {
        match T::parse_at(s, cur) {
            Outcome::Parsed(v, q) => {
                if q <= cur {
                    return Outcome::Aborted;
                }
                let ghost old_acc = acc.deep_view();
                let ghost vv = v.deep_view();
                acc.push(v);
                assert(acc.deep_view() =~= old_acc.push(vv));
                proof {
                    match spec_many::<T>(s@, q as int) {
                        SpecOutcome::Parsed(vs, r) => {
                            assert(old_acc + (seq![vv] + vs) =~= old_acc.push(vv) + vs);
                        },
                        _ => {},
                    }
                }
                cur = q;
            },
            Outcome::Failed => {
                assert(acc.deep_view() + Seq::<T::V>::empty() =~= acc.deep_view());
                return Outcome::Parsed(acc, cur);
            },
            Outcome::Aborted => {
                return Outcome::Aborted;
            },
        }
    }
}

impl<T: Parsable> Parsable for Vec<T> {
    /// `T` repeated, with white space around the whole.
    open spec fn spec_parse(s: Seq<char>, p: int) -> SpecOutcome<Seq<T::V>> {
        spec_then_ws(spec_many::<T>(s, ws_end(s, p)), s)
    }

    fn parse_at(s: &Vec<char>, p: usize) -> (r: Outcome<Vec<T>>) {
        let q = skip_ws(s, p);
        match parse_many::<T>(s, q) {
            Outcome::Parsed(v, q1) => Outcome::Parsed(v, skip_ws(s, q1)),
            Outcome::Failed => Outcome::Failed,
            Outcome::Aborted => Outcome::Aborted,
        }
    }
}

impl<T: Parsable> Parsable for Option<T> {
    /// `T` or nothing, with white space around.
    open spec fn spec_parse(s: Seq<char>, p: int) -> SpecOutcome<Option<T::V>> {
        let q = ws_end(s, p);
        spec_then_ws(spec_or_not(T::spec_parse(s, q), q), s)
    }

    fn parse_at(s: &Vec<char>, p: usize) -> (r: Outcome<Option<T>>) {
        let q = skip_ws(s, p);
        match T::parse_at(s, q) {
            Outcome::Parsed(v, q1) => Outcome::Parsed(Some(v), skip_ws(s, q1)),
            Outcome::Failed => Outcome::Parsed(None, skip_ws(s, q)),
            Outcome::Aborted => Outcome::Aborted,
        }
    }
}

impl<T: Parsable> Parsable for (T, T) {
    /// Two values in a row, with white space around the pair.
    open spec fn spec_parse(s: Seq<char>, p: int) -> SpecOutcome<(T::V, T::V)> {
        match T::spec_parse(s, ws_end(s, p)) {
            SpecOutcome::Parsed(a, q1) => match T::spec_parse(s, q1) {
                SpecOutcome::Parsed(b, q2) => SpecOutcome::Parsed((a, b), ws_end(s, q2)),
                SpecOutcome::Failed => SpecOutcome::Failed,
                SpecOutcome::Aborted => SpecOutcome::Aborted,
            },
            SpecOutcome::Failed => SpecOutcome::Failed,
            SpecOutcome::Aborted => SpecOutcome::Aborted,
        }
    }

    fn parse_at(s: &Vec<char>, p: usize) -> (r: Outcome<(T, T)>) {
        let q = skip_ws(s, p);
        match T::parse_at(s, q) {
            Outcome::Parsed(a, q1) => match T::parse_at(s, q1) {
                Outcome::Parsed(b, q2) => Outcome::Parsed((a, b), skip_ws(s, q2)),
                Outcome::Failed => Outcome::Failed,
                Outcome::Aborted => Outcome::Aborted,
            },
            Outcome::Failed => Outcome::Failed,
            Outcome::Aborted => Outcome::Aborted,
        }
    }
}

impl Parsable for () {
    /// Nothing: only white space is consumed.
    open spec fn spec_parse(s: Seq<char>, p: int) -> SpecOutcome<()> {
        SpecOutcome::Parsed((), ws_end(s, ws_end(s, p)))
    }

    fn parse_at(s: &Vec<char>, p: usize) -> (r: Outcome<()>) {
        let q = skip_ws(s, p);
        Outcome::Parsed((), skip_ws(s, q))
    }
}

/// A character that may stand between double quotes.
pub open spec fn is_quoted_char(c: char) -> bool {
    c != '"' && c != '\n'
}

/// A character that may stand in an unquoted string.
pub open spec fn is_unquoted_char(c: char) -> bool {
    !is_white_space(c) && c != '(' && c != ')' && c != '"' && c != '\n'
}

pub open spec fn quoted_end(s: Seq<char>, p: int) -> int
    decreases s.len() - p,
{
    if 0 <= p < s.len() && is_quoted_char(s[p]) {
        quoted_end(s, p + 1)
    } else {
        p
    }
}

pub open spec fn unquoted_end(s: Seq<char>, p: int) -> int
    decreases s.len() - p,
{
    if 0 <= p < s.len() && is_unquoted_char(s[p]) {
        unquoted_end(s, p + 1)
    } else {
        p
    }
}

/// A string: either `"..."` (no quote or newline inside) or a non-empty run of
/// characters other than white space, parentheses and quotes.
pub open spec fn spec_string(s: Seq<char>, p: int) -> SpecOutcome<Seq<char>> {
    let q = ws_end(s, p);
    let b = quoted_end(s, q + 1);
    let e = unquoted_end(s, q);
    if spec_char(s, q, '"') is Some && spec_char(s, b, '"') is Some {
        SpecOutcome::Parsed(s.subrange(q + 1, b), ws_end(s, b + 1))
    } else if e > q {
        SpecOutcome::Parsed(s.subrange(q, e), ws_end(s, e))
    } else {
        SpecOutcome::Failed
    }
}

fn scan_quoted(s: &Vec<char>, p: usize) -> (r: usize)
    requires
        p <= s.len(),
    ensures
        r == quoted_end(s@, p as int),
        p <= r <= s.len(),
{
    let mut i = p;
    while i < s.len() && s[i] != '"' && s[i] != '\n'
        invariant
            p <= i <= s.len(),
            quoted_end(s@, p as int) == quoted_end(s@, i as int),
        decreases s.len() - i,
    {
        i = i + 1;
    }
    i
}

fn scan_unquoted(s: &Vec<char>, p: usize) -> (r: usize)
    requires
        p <= s.len(),
    ensures
        r == unquoted_end(s@, p as int),
        p <= r <= s.len(),
{
    let mut i = p;
    while i < s.len() && !is_white_space_char(s[i]) && s[i] != '(' && s[i] != ')' && s[i] != '"'
        && s[i] != '\n'
        invariant
            p <= i <= s.len(),
            unquoted_end(s@, p as int) == unquoted_end(s@, i as int),
        decreases s.len() - i,
    {
        i = i + 1;
    }
    i
}

impl Parsable for String {
    open spec fn spec_parse(s: Seq<char>, p: int) -> SpecOutcome<Seq<char>> {
        spec_string(s, p)
    }

    fn parse_at(s: &Vec<char>, p: usize) -> (r: Outcome<String>) {
        let q = skip_ws(s, p);
        if q < s.len() && s[q] == '"' {
            let b = scan_quoted(s, q + 1);
            if b < s.len() && s[b] == '"' {
                let body = string_from_chars(copy_range(s, q + 1, b));
                return Outcome::Parsed(body, skip_ws(s, b + 1));
            }
        }
        let e = scan_unquoted(s, q);
        if e > q {
            Outcome::Parsed(string_from_chars(copy_range(s, q, e)), skip_ws(s, e))
        } else {
            Outcome::Failed
        }
    }
}

/// Reads a value of type `T` from the start of `input`. What follows the
/// value is not looked at.
pub fn parse_str<T: Parsable>(input: &str) -> (r: Outcome<T>)
    ensures
        r@ == T::spec_parse(input@, 0),
        r.within(0, input@.len() as int),
{
    let s = chars_of(input);
    T::parse_at(&s, 0)
}

/// A value with white space around it reads the same from anywhere in the
/// white space before it.
pub proof fn lemma_padded_ignores_leading_white_space<T: Parsable>(s: Seq<char>, p: int, q: int)
    requires
        0 <= p <= q <= ws_end(s, p),
    ensures
        spec_padded::<T>(s, q) == spec_padded::<T>(s, p),
{
    lemma_ws_end_within_run(s, p, q);
}

/// A repetition never fails: it matches zero or more elements, or aborts.
pub proof fn lemma_many_never_fails<T: Parsable>(s: Seq<char>, p: int)
    ensures
        !(spec_many::<T>(s, p) is Failed),
    decreases s.len() - p,
{
    match T::spec_parse(s, p) {
        SpecOutcome::Parsed(v, q) => {
            if p < q && q <= s.len() {
                lemma_many_never_fails::<T>(s, q);
            }
        },
        _ => {},
    }
}

/// An optional list is never absent: where no element matches it is present
/// and empty.
pub proof fn lemma_optional_list_is_present<T: Parsable>(s: Seq<char>, p: int)
    ensures
        !(spec_optional::<Vec<T>>(s, p) matches SpecOutcome::Parsed(None, _)),
{
    lemma_many_never_fails::<T>(s, ws_end(s, ws_end(s, p)));
}

/// An optional value that is absent consumes nothing.
pub proof fn lemma_absent_consumes_nothing<T: Parsable>(s: Seq<char>, p: int)
    ensures
        spec_optional::<T>(s, p) matches SpecOutcome::Parsed(None, q) ==> q == p,
        spec_optional_named::<T>(s, p, seq![]) matches SpecOutcome::Parsed(None, q) ==> q == p,
{
}

/// A word of characters other than white space, parentheses and quotes reads
/// back as itself when what follows it cannot continue it.
pub proof fn lemma_unquoted_word_reads_back(w: Seq<char>, rest: Seq<char>)
    requires
        w.len() > 0,
        forall|i: int| 0 <= i < w.len() ==> is_unquoted_char(#[trigger] w[i]),
        rest.len() == 0 || !is_unquoted_char(rest[0]),
    ensures
        spec_string(w + rest, 0) == SpecOutcome::Parsed(w, ws_end(w + rest, w.len() as int)),
{
    let s = w + rest;
    assert(s[0] == w[0]);
    lemma_unquoted_end_of_word(w, rest, 0);
    assert(s.subrange(0, w.len() as int) =~= w);
}

proof fn lemma_unquoted_end_of_word(w: Seq<char>, rest: Seq<char>, i: int)
    requires
        0 <= i <= w.len(),
        forall|j: int| 0 <= j < w.len() ==> is_unquoted_char(#[trigger] w[j]),
        rest.len() == 0 || !is_unquoted_char(rest[0]),
    ensures
        unquoted_end(w + rest, i) == w.len(),
    decreases w.len() - i,
{
    let s = w + rest;
    if i < w.len() {
        assert(s[i] == w[i]);
        lemma_unquoted_end_of_word(w, rest, i + 1);
    } else if rest.len() > 0 {
        assert(s[i] == rest[0]);
    }
}

/// Text between double quotes (without quotes or line breaks in it) reads
/// back as itself.
pub proof fn lemma_quoted_text_reads_back(w: Seq<char>, rest: Seq<char>)
    requires
        forall|i: int| 0 <= i < w.len() ==> is_quoted_char(#[trigger] w[i]),
    ensures
        spec_string(seq!['"'] + w + seq!['"'] + rest, 0) == SpecOutcome::Parsed(
            w,
            ws_end(seq!['"'] + w + seq!['"'] + rest, w.len() as int + 2),
        ),
{
    let s = seq!['"'] + w + seq!['"'] + rest;
    assert(s[0] == '"');
    lemma_quoted_end_of_text(w, rest, 1);
    assert(s[w.len() as int + 1] == '"');
    assert(s.subrange(1, w.len() as int + 1) =~= w);
}

proof fn lemma_quoted_end_of_text(w: Seq<char>, rest: Seq<char>, i: int)
    requires
        1 <= i <= w.len() + 1,
        forall|j: int| 0 <= j < w.len() ==> is_quoted_char(#[trigger] w[j]),
    ensures
        quoted_end(seq!['"'] + w + seq!['"'] + rest, i) == w.len() + 1,
    decreases w.len() + 1 - i,
{
    let s = seq!['"'] + w + seq!['"'] + rest;
    if i <= w.len() {
        assert(s[i] == w[i - 1]);
        lemma_quoted_end_of_text(w, rest, i + 1);
    } else {
        assert(s[i] == '"');
    }
}

/// The lexical tokens of S-expression text.
#[derive(Clone, PartialEq, Eq, Hash, Debug)]
pub enum Token {
    String(String),
    Keyword(String),
    Number(String),
    LParen,
    RParen,
}

/// How a field of a list is written: as its bare value (anonymous), or as
/// `(name value)`.
#[derive(Clone, Copy, Debug)]
pub struct FieldConfig<'a> {
    pub name: &'a str,
    pub anonymous: bool,
}

impl<'a> FieldConfig<'a> {
    pub fn new(name: &'a str, anonymous: bool) -> (r: FieldConfig<'a>)
        ensures
            r.name == name,
            r.anonymous == anonymous,
    {
        FieldConfig { name, anonymous }
    }
}

/// A field written as its configuration says, with white space around it; in
/// the `(name value)` form the value may also have white space around it.
pub open spec fn spec_field<T: Parsable>(s: Seq<char>, p: int, name: Seq<char>, anonymous: bool) -> SpecOutcome<
    T::V,
> {
    if anonymous {
        spec_padded::<T>(s, p)
    } else {
        match spec_lparen(s, ws_end(s, p)) {
            None => SpecOutcome::Failed,
            Some(q1) => match spec_keyword(s, q1, name) {
                None => SpecOutcome::Failed,
                Some(q2) => match spec_padded::<T>(s, q2) {
                    SpecOutcome::Parsed(v, q3) => match spec_rparen(s, q3) {
                        Some(q4) => SpecOutcome::Parsed(v, ws_end(s, q4)),
                        None => SpecOutcome::Failed,
                    },
                    SpecOutcome::Failed => SpecOutcome::Failed,
                    SpecOutcome::Aborted => SpecOutcome::Aborted,
                },
            },
        }
    }
}

pub fn field<T: Parsable>(config: FieldConfig, s: &Vec<char>, p: usize) -> (r: Outcome<T>)
    requires
        p <= s.len(),
    ensures
        r@ == spec_field::<T>(s@, p as int, config.name@, config.anonymous),
        r.within(p as int, s.len() as int),
{
    if config.anonymous {
        return parse_padded::<T>(s, p);
    }
    let q = skip_ws(s, p);
    let q1 = match lparen(s, q) {
        Some(q1) => q1,
        None => return Outcome::Failed,
    };
    let q2 = match keyword(s, q1, config.name) {
        Some(q2) => q2,
        None => return Outcome::Failed,
    };
    match parse_padded::<T>(s, q2) {
        Outcome::Parsed(v, q3) => match rparen(s, q3) {
            Some(q4) => Outcome::Parsed(v, skip_ws(s, q4)),
            None => Outcome::Failed,
        },
        Outcome::Failed => Outcome::Failed,
        Outcome::Aborted => Outcome::Aborted,
    }
}

} // verus!
