use vstd::prelude::*;
use crate::outcome::opt_pos;
use vstd::std_specs::iter::IteratorSpec;

verus! {

/// The Unicode `White_Space` property, which `char::is_whitespace` tests.
pub open spec fn is_white_space(c: char) -> bool {
    ||| ('\u{09}' <= c && c <= '\u{0D}')
    ||| c == ' '
    ||| c == '\u{85}'
    ||| c == '\u{A0}'
    ||| c == '\u{1680}'
    ||| ('\u{2000}' <= c && c <= '\u{200A}')
    ||| c == '\u{2028}'
    ||| c == '\u{2029}'
    ||| c == '\u{202F}'
    ||| c == '\u{205F}'
    ||| c == '\u{3000}'
}

pub fn is_white_space_char(c: char) -> (r: bool)
    ensures
        r == is_white_space(c),
{
    ('\u{09}' <= c && c <= '\u{0D}') || c == ' ' || c == '\u{85}' || c == '\u{A0}' || c
        == '\u{1680}' || ('\u{2000}' <= c && c <= '\u{200A}') || c == '\u{2028}' || c
        == '\u{2029}' || c == '\u{202F}' || c == '\u{205F}' || c == '\u{3000}'
}

/// The end of the run of white space that starts at `p`.
pub open spec fn ws_end(s: Seq<char>, p: int) -> int
    decreases s.len() - p,
{
    if 0 <= p < s.len() && is_white_space(s[p]) {
        ws_end(s, p + 1)
    } else {
        p
    }
}

/// Skips the white space that starts at `p`.
pub fn skip_ws(s: &Vec<char>, p: usize) -> (r: usize)
    requires
        p <= s.len(),
    ensures
        r == ws_end(s@, p as int),
        p <= r <= s.len(),
{
    let mut i = p;
    while i < s.len() && is_white_space_char(s[i])
        invariant
            p <= i <= s.len(),
            ws_end(s@, p as int) == ws_end(s@, i as int),
        decreases s.len() - i,
    {
        i = i + 1;
    }
    i
}

/// `lit` stands in the input at position `p`.
pub open spec fn lit_at(s: Seq<char>, p: int, lit: Seq<char>) -> bool {
    &&& 0 <= p
    &&& p + lit.len() <= s.len()
    &&& s.subrange(p, p + lit.len()) == lit
}

/// Tests whether `lit` stands in the input at position `p`.
pub fn match_lit(s: &Vec<char>, p: usize, lit: &str) -> (r: bool)
    requires
        p <= s.len(),
    ensures
        r == lit_at(s@, p as int, lit@),
{
    let n = lit.unicode_len();
    if n > s.len() - p {
        return false;
    }
    let mut i: usize = 0;
    while i < n
        invariant
            n == lit@.len(),
            p + n <= s.len(),
            i <= n,
            forall|j: int| 0 <= j < i ==> s@[p + j] == lit@[j],
        decreases n - i,
    {
        if s[p + i] != lit.get_char(i) {
            assert(s@.subrange(p as int, p + n)[i as int] != lit@[i as int]);
            return false;
        }
        i = i + 1;
    }
    assert(s@.subrange(p as int, p + n) =~= lit@);
    true
}

/// `just(c)`: the single character `c` at position `p`.
pub open spec fn spec_char(s: Seq<char>, p: int, c: char) -> Option<int> {
    if 0 <= p < s.len() && s[p] == c {
        Some(p + 1)
    } else {
        None
    }
}

pub open spec fn spec_lparen(s: Seq<char>, p: int) -> Option<int> {
    spec_char(s, p, '(')
}

pub open spec fn spec_rparen(s: Seq<char>, p: int) -> Option<int> {
    spec_char(s, p, ')')
}

/// An opening parenthesis, exactly at `p`; gives the position after it.
pub fn lparen(s: &Vec<char>, p: usize) -> (r: Option<usize>)
    requires
        p <= s.len(),
    ensures
        opt_pos(r) == spec_lparen(s@, p as int),
{
    if p < s.len() && s[p] == '(' {
        Some(p + 1)
    } else {
        None
    }
}

/// A closing parenthesis, exactly at `p`; gives the position after it.
pub fn rparen(s: &Vec<char>, p: usize) -> (r: Option<usize>)
    requires
        p <= s.len(),
    ensures
        opt_pos(r) == spec_rparen(s@, p as int),
{
    if p < s.len() && s[p] == ')' {
        Some(p + 1)
    } else {
        None
    }
}

/// A keyword surrounded by optional white space. The keyword is matched as a
/// plain run of characters: nothing is required to follow it.
pub open spec fn spec_keyword(s: Seq<char>, p: int, kw: Seq<char>) -> Option<int> {
    let q = ws_end(s, p);
    if lit_at(s, q, kw) {
        Some(ws_end(s, q + kw.len()))
    } else {
        None
    }
}

pub fn keyword(s: &Vec<char>, p: usize, kw: &str) -> (r: Option<usize>)
    requires
        p <= s.len(),
    ensures
        opt_pos(r) == spec_keyword(s@, p as int, kw@),
        r matches Some(q) ==> p <= q <= s.len(),
{
    let q = skip_ws(s, p);
    if match_lit(s, q, kw) {
        let n = kw.unicode_len();
        Some(skip_ws(s, q + n))
    } else {
        None
    }
}

/// The characters of a string, in order.
pub fn chars_of(input: &str) -> (r: Vec<char>)
    ensures
        r@ == input@,
{
    broadcast use vstd::string::axiom_spec_iter, vstd::string::next_postcondition;

    let mut v: Vec<char> = Vec::new();
    let mut it = input.chars();
    loop
        invariant
            it.obeys_prophetic_iter_laws(),
            v@ + it.remaining() == input@,
            it.decrease() is Some,
        decreases it.decrease()->0,
    {
        let ghost before = it.remaining();
        match it.next() {
            Some(c) => {
                assert(v@.push(c) + it.remaining() =~= v@ + before);
                v.push(c);
            },
            None => {
                assert(v@ =~= input@);
                return v;
            },
        }
    }
}

/// The characters `s[from..to]`, copied.
pub fn copy_range(s: &Vec<char>, from: usize, to: usize) -> (r: Vec<char>)
    requires
        from <= to <= s.len(),
    ensures
        r@ == s@.subrange(from as int, to as int),
{
    let mut v: Vec<char> = Vec::new();
    let mut i = from;
    while i < to
        invariant
            from <= i <= to <= s.len(),
            v@ == s@.subrange(from as int, i as int),
        decreases to - i,
    {
        v.push(s[i]);
        i = i + 1;
    }
    v
}

/// Collects characters into a `String` (`FromIterator<char>` for `String`,
/// which appends the characters in order). Trusted: the claim is that the
/// string holds exactly these characters.
#[verifier::external_body]
pub(crate) fn string_from_chars(cs: Vec<char>) -> (r: String)
    ensures
        r@ == cs@,
{
    cs.into_iter().collect()
}

/// Skipping white space never moves backwards, and stays within the input.
pub proof fn lemma_ws_end_bounds(s: Seq<char>, p: int)
    requires
        0 <= p,
    ensures
        p <= ws_end(s, p),
        p <= s.len() ==> ws_end(s, p) <= s.len(),
    decreases s.len() - p,
{
    if 0 <= p < s.len() && is_white_space(s[p]) {
        lemma_ws_end_bounds(s, p + 1);
    }
}

/// Skipping white space from any point inside a run of white space ends where
/// skipping from its start ends.
pub proof fn lemma_ws_end_within_run(s: Seq<char>, p: int, q: int)
    requires
        0 <= p <= q <= ws_end(s, p),
    ensures
        ws_end(s, q) == ws_end(s, p),
    decreases q - p,
{
    if p < q {
        lemma_ws_end_within_run(s, p + 1, q);
    }
}

/// Skipping white space twice is skipping it once.
pub proof fn lemma_ws_end_idempotent(s: Seq<char>, p: int)
    requires
        0 <= p,
    ensures
        ws_end(s, ws_end(s, p)) == ws_end(s, p),
{
    lemma_ws_end_bounds(s, p);
    lemma_ws_end_within_run(s, p, ws_end(s, p));
}

} // verus!
