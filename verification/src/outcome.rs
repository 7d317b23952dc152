use vstd::prelude::*;

verus! {

/// What a parser gives back when it is started at some position of the input.
#[derive(Debug, Clone, PartialEq)]
pub enum Outcome<T> {
    /// The rule matched; the value and the position just past what it consumed.
    Parsed(T, usize),
    /// The rule does not match at this position.
    Failed,
    /// The input can never be read: a decimal number does not fit in 64 bits,
    /// or a repetition matched an element without consuming any input.
    Aborted,
}

/// The mathematical counterpart of [`Outcome`]: what a grammar rule gives.
pub enum SpecOutcome<V> {
    Parsed(V, int),
    Failed,
    Aborted,
}

impl<T: DeepView> View for Outcome<T> {
    type V = SpecOutcome<T::V>;

    open spec fn view(&self) -> SpecOutcome<T::V> {
        match self {
            Outcome::Parsed(v, q) => SpecOutcome::Parsed(v.deep_view(), *q as int),
            Outcome::Failed => SpecOutcome::Failed,
            Outcome::Aborted => SpecOutcome::Aborted,
        }
    }
}

impl<T> Outcome<T> {
    /// A parse that succeeded ends between its start `p` and the end of the input.
    pub open spec fn within(&self, p: int, len: int) -> bool {
        match self {
            Outcome::Parsed(_, q) => p <= *q <= len,
            _ => true,
        }
    }

    /// The parsed value, if the rule matched.
    pub fn value(self) -> (r: Option<T>)
        ensures
            r == (match self {
                Outcome::Parsed(v, _) => Some(v),
                _ => None::<T>,
            }),
    {
        match self {
            Outcome::Parsed(v, _) => Some(v),
            _ => None,
        }
    }

    /// Whether the rule matched.
    pub fn is_parsed(&self) -> (r: bool)
        ensures
            r == (self is Parsed),
    {
        match self {
            Outcome::Parsed(_, _) => true,
            _ => false,
        }
    }
}

impl<V> SpecOutcome<V> {
    /// The end position of a successful parse.
    pub open spec fn end(self) -> int {
        match self {
            SpecOutcome::Parsed(_, q) => q,
            _ => -1,
        }
    }
}

/// Sequencing: when `o` matched, continues with its value and end position.
pub open spec fn bind<V, W>(o: SpecOutcome<V>, k: spec_fn(V, int) -> SpecOutcome<W>) -> SpecOutcome<W> {
    match o {
        SpecOutcome::Parsed(v, q) => k(v, q),
        SpecOutcome::Failed => SpecOutcome::Failed,
        SpecOutcome::Aborted => SpecOutcome::Aborted,
    }
}

/// `or_not`: a rule that failed yields `None` without consuming input.
pub open spec fn spec_or_not<V>(o: SpecOutcome<V>, p: int) -> SpecOutcome<Option<V>> {
    match o {
        SpecOutcome::Parsed(v, q) => SpecOutcome::Parsed(Some(v), q),
        SpecOutcome::Failed => SpecOutcome::Parsed(None, p),
        SpecOutcome::Aborted => SpecOutcome::Aborted,
    }
}

/// A position given back by an executable parser, as an integer.
pub open spec fn opt_pos(r: Option<usize>) -> Option<int> {
    match r {
        Some(q) => Some(q as int),
        None => None,
    }
}

} // verus!
