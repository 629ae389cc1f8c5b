use vstd::prelude::*;
use vstd::std_specs::cmp::PartialEqSpec;

verus! {

/// The closed set of failures the toolkit reports, each with its message.
#[derive(Debug, Clone)]
pub enum Error {
    /// The parsing engine rejected the input at some position.
    ParseError(String),
    /// The input ended before a construct was complete.
    ParseIncomplete(String),
    /// A generation step could not proceed.
    GenerateError(String),
    /// A bounded-depth traversal went past its limit.
    RecursionLimit(String),
}

impl Error {
    /// The text carried by the error, whatever its category.
    pub open spec fn message(self) -> Seq<char> {
        match self {
            Error::ParseError(s) => s@,
            Error::ParseIncomplete(s) => s@,
            Error::GenerateError(s) => s@,
            Error::RecursionLimit(s) => s@,
        }
    }

    /// Both errors are of the same category.
    pub open spec fn same_category(self, other: Error) -> bool {
        ||| (self is ParseError && other is ParseError)
        ||| (self is ParseIncomplete && other is ParseIncomplete)
        ||| (self is GenerateError && other is GenerateError)
        ||| (self is RecursionLimit && other is RecursionLimit)
    }

    /// Renders the error: its stored message, verbatim.
    pub fn to_string(&self) -> (r: String)
        ensures
            r@ == self.message(),
    {
        match self {
            Error::ParseError(s) => s.clone(),
            Error::ParseIncomplete(s) => s.clone(),
            Error::GenerateError(s) => s.clone(),
            Error::RecursionLimit(s) => s.clone(),
        }
    }
}

impl PartialEq for Error {
    fn eq(&self, other: &Error) -> (r: bool) {
        match (self, other) {
            (Error::ParseError(a), Error::ParseError(b)) => a.eq(b),
            (Error::ParseIncomplete(a), Error::ParseIncomplete(b)) => a.eq(b),
            (Error::GenerateError(a), Error::GenerateError(b)) => a.eq(b),
            (Error::RecursionLimit(a), Error::RecursionLimit(b)) => a.eq(b),
            _ => false,
        }
    }
}

impl vstd::std_specs::cmp::PartialEqSpecImpl for Error {
    open spec fn obeys_eq_spec() -> bool {
        true
    }

    open spec fn eq_spec(&self, other: &Error) -> bool {
        self.same_category(*other) && self.message() == other.message()
    }
}

/// An error built from a message renders as exactly that message, in every category.
pub proof fn lemma_render_constructed(msg: String)
    ensures
        Error::ParseError(msg).message() == msg@,
        Error::ParseIncomplete(msg).message() == msg@,
        Error::GenerateError(msg).message() == msg@,
        Error::RecursionLimit(msg).message() == msg@,
{
}

/// Equality of errors is reflexive, symmetric and transitive, and holds
/// exactly when category and message agree.
pub proof fn lemma_eq_equivalence(a: Error, b: Error, c: Error)
    ensures
        a.eq_spec(&a),
        a.eq_spec(&b) == b.eq_spec(&a),
        a.eq_spec(&b) && b.eq_spec(&c) ==> a.eq_spec(&c),
        a.eq_spec(&b) <==> (a.same_category(b) && a.message() == b.message()),
{
}

/// Errors of different categories differ even with the same message, and
/// errors of one category differ when their messages do.
pub proof fn lemma_eq_sensitive(s: String, t: String)
    ensures
        !Error::ParseError(s).eq_spec(&Error::ParseIncomplete(t)),
        !Error::GenerateError(s).eq_spec(&Error::RecursionLimit(t)),
        s@ != t@ ==> !Error::ParseError(s).eq_spec(&Error::ParseError(t)),
{
}

} // verus!
