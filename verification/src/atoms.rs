//! Identifiers and on/off flags.

use vstd::prelude::*;
use crate::outcome::{Outcome, SpecOutcome, bind};
use crate::parsable::{Parsable, spec_padded, parse_padded};
use crate::text::{ws_end, skip_ws};

verus! {

/// `on` or `off`, exactly at the current position (no white space is skipped).
#[derive(Debug, Clone, Copy, PartialEq, Eq)]
pub struct Bool(pub bool);

impl DeepView for Bool {
    type V = Bool;

    open spec fn deep_view(&self) -> Bool {
        *self
    }
}

impl Parsable for Bool {
    open spec fn spec_parse(s: Seq<char>, p: int) -> SpecOutcome<Bool> {
        if 0 <= p && p + 2 <= s.len() && s[p] == 'o' && s[p + 1] == 'n' {
            SpecOutcome::Parsed(Bool(true), p + 2)
        } else if 0 <= p && p + 3 <= s.len() && s[p] == 'o' && s[p + 1] == 'f' && s[p + 2] == 'f' {
            SpecOutcome::Parsed(Bool(false), p + 3)
        } else {
            SpecOutcome::Failed
        }
    }

    fn parse_at(s: &Vec<char>, p: usize) -> (r: Outcome<Bool>) {
        let n = s.len();
        if n - p >= 2 && s[p] == 'o' && s[p + 1] == 'n' {
            Outcome::Parsed(Bool(true), p + 2)
        } else if n - p >= 3 && s[p] == 'o' && s[p + 1] == 'f' && s[p + 2] == 'f' {
            Outcome::Parsed(Bool(false), p + 3)
        } else {
            Outcome::Failed
        }
    }
}

impl Bool {
    /// The truth value.
    pub fn value(&self) -> (r: bool)
        ensures
            r == self.0,
    {
        self.0
    }
}

impl Id {
    /// Wraps a string as an identifier.
    pub fn new(value: String) -> (r: Id)
        ensures
            r.0 == value,
    {
        Id(value)
    }

    /// The text of the identifier.
    pub fn as_str(&self) -> (r: &str)
        ensures
            r@ == self.0@,
    {
        self.0.as_str()
    }
}

impl From<String> for Id {
    fn from(value: String) -> (r: Id) {
        Id(value)
    }
}

impl vstd::std_specs::convert::FromSpecImpl<String> for Id {
    open spec fn obeys_from_spec() -> bool {
        true
    }

    open spec fn from_spec(v: String) -> Id {
        Id(v)
    }
}

impl core::ops::Deref for Id {
    type Target = String;

    fn deref(&self) -> (r: &String)
        ensures
            *r == self.0,
    {
        &self.0
    }
}

impl core::ops::Deref for Bool {
    type Target = bool;

    fn deref(&self) -> (r: &bool)
        ensures
            *r == self.0,
    {
        &self.0
    }
}

/// Written `String`.
#[derive(Debug, Clone, PartialEq)]
pub struct Id(pub String);

impl DeepView for Id {
    type V = Seq<char>;

    open spec fn deep_view(&self) -> Seq<char> {
        self.0.deep_view()
    }
}

impl Parsable for Id {
    open spec fn spec_parse(s: Seq<char>, p: int) -> SpecOutcome<Seq<char>> {
        bind(spec_padded::<String>(s, ws_end(s, p)), |v0: Seq<char>, q1: int|
        SpecOutcome::Parsed(v0, ws_end(s, q1)))
    }

    fn parse_at(s: &Vec<char>, p: usize) -> (r: Outcome<Id>) {
        let q0 = skip_ws(s, p);
        let (v_0, q1) = match parse_padded::<String>(s, q0) {
            Outcome::Parsed(v, q) => (v, q),
            Outcome::Failed => return Outcome::Failed,
            Outcome::Aborted => return Outcome::Aborted,
        };
        let q2 = skip_ws(s, q1);
        Outcome::Parsed(Id(v_0), q2)
    }
}

} // verus!
