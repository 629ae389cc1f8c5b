//! Translation of the parsing engine's failure values into `Error`.
use crate::error::Error;
use crate::message::{failure_message, failure_text, fold_notes, needed_message, needed_text, texts};
use vstd::prelude::*;

verus! {

/// How many more bytes the engine needs: unknown, or a given size.
#[verifier::external_type_specification]
pub struct ExNeeded(nom::Needed);

/// The engine's error code; carried through, never read.
#[verifier::external_type_specification]
#[verifier::external_body]
#[verifier::reject_recursive_types(E)]
pub struct ExErrorKind<E>(nom::ErrorKind<E>);

/// A failure of the engine: an error code, with the input position and
/// the chain of sub-errors when the engine recorded them.
#[verifier::external_type_specification]
#[verifier::reject_recursive_types(P)]
#[verifier::reject_recursive_types(E)]
pub struct ExErr<P, E>(nom::Err<P, E>);

/// What `String::from_utf8_lossy` makes of a byte sequence.
pub uninterp spec fn lossy_utf8(b: Seq<u8>) -> Seq<char>;

/// Relies on `String::from_utf8_lossy`: the text decoded from the bytes,
/// with invalid sequences replaced by U+FFFD.
#[verifier::external_body]
fn lossy_text(b: &[u8]) -> (r: String)
    ensures
        r@ == lossy_utf8(b@),
{
    String::from_utf8_lossy(b).into_owned()
}

/// Relies on nom's `Display` for `Err`: the description of one sub-error.
#[verifier::external_body]
fn describe(e: &nom::Err<&[u8]>) -> (r: String) {
    format!("{}", e)
}

/// The number of sub-errors that a failure carries.
pub open spec fn note_count(err: nom::Err<&[u8]>) -> nat {
    match err {
        nom::Err::Code(_) => 0,
        nom::Err::Node(_, n) => n@.len(),
        nom::Err::Position(_, _) => 0,
        nom::Err::NodePosition(_, _, n) => n@.len(),
    }
}

/// The message of a failure, given the descriptions of its sub-errors.
pub open spec fn parse_failure_text(err: nom::Err<&[u8]>, notes: Seq<Seq<char>>) -> Seq<char> {
    match err {
        nom::Err::Code(_) => failure_text(None, None),
        nom::Err::Node(_, _) => failure_text(None, Some(notes)),
        nom::Err::Position(_, p) => failure_text(Some(lossy_utf8(p@)), None),
        nom::Err::NodePosition(_, p, _) => failure_text(Some(lossy_utf8(p@)), Some(notes)),
    }
}

/// The number of bytes still needed, when the engine knows it.
pub open spec fn needed_size(needed: nom::Needed) -> Option<nat> {
    match needed {
        nom::Needed::Unknown => None,
        nom::Needed::Size(k) => Some(k as nat),
    }
}

/// A failure that carries only an error code reads "Parsing error: Unknown
/// origin", whatever the sub-error descriptions.
pub proof fn lemma_code_failure(err: nom::Err<&[u8]>, notes: Seq<Seq<char>>)
    requires
        err is Code,
    ensures
        parse_failure_text(err, notes) == "Parsing error: Unknown origin"@,
{
}

/// A failure with a chain of two sub-errors and no position reads
/// "Parsing error: Unknown origin." followed by each description, in order,
/// each after a single space.
pub proof fn lemma_node_failure_two(err: nom::Err<&[u8]>, e1: Seq<char>, e2: Seq<char>)
    requires
        err is Node,
    ensures
        parse_failure_text(err, seq![e1, e2]) == "Parsing error: Unknown origin."@ + " "@ + e1
            + " "@ + e2,
{
    let notes = seq![e1, e2];
    assert(notes.drop_last() =~= seq![e1]);
    assert(seq![e1].drop_last() =~= Seq::<Seq<char>>::empty());
    let seed = "Parsing error: Unknown origin."@;
    assert(fold_notes(seed, Seq::<Seq<char>>::empty()) == seed);
    assert(fold_notes(seed, seq![e1]) == seed + " "@ + e1);
    assert(fold_notes(seed, notes) == seed + " "@ + e1 + " "@ + e2);
}

fn describe_all(notes: &Vec<nom::Err<&[u8]>>) -> (r: Vec<String>)
    ensures
        r@.len() == notes@.len(),
{
    let mut out: Vec<String> = Vec::new();
    let mut i: usize = 0;
    while i < notes.len()
        invariant
            i <= notes.len(),
            out@.len() == i,
        decreases notes.len() - i,
    {
        out.push(describe(&notes[i]));
        i = i + 1;
    }
    out
}

impl Error {
    /// Translates a parse failure of the engine into a `ParseError`.
    pub fn from_parse_failure(err: nom::Err<&[u8]>) -> (r: Error)
        ensures
            r is ParseError,
            exists|notes: Seq<Seq<char>>|
                notes.len() == note_count(err) && r.message() == parse_failure_text(err, notes),
    {
        let ghost mut w: Seq<Seq<char>> = Seq::empty();
        let text = match &err {
            nom::Err::Code(_) => failure_message(None, None),
            nom::Err::Node(_, n) => {
                let notes = describe_all(n);
                proof {
                    w = texts(notes@);
                }
                failure_message(None, Some(&notes))
            },
            nom::Err::Position(_, p) => {
                let input = lossy_text(p);
                failure_message(Some(input.as_str()), None)
            },
            nom::Err::NodePosition(_, p, n) => {
                let input = lossy_text(p);
                let notes = describe_all(n);
                proof {
                    w = texts(notes@);
                }
                failure_message(Some(input.as_str()), Some(&notes))
            },
        };
        assert(w.len() == note_count(err) && text@ == parse_failure_text(err, w));
        Error::ParseError(text)
    }

    /// Translates an incomplete-input signal of the engine into a `ParseIncomplete`.
    pub fn from_needed(needed: nom::Needed) -> (r: Error)
        ensures
            r is ParseIncomplete,
            r.message() == needed_text(needed_size(needed)),
    {
        let size = match needed {
            nom::Needed::Unknown => None,
            nom::Needed::Size(k) => Some(k),
        };
        Error::ParseIncomplete(needed_message(size))
    }
}

impl<'a> From<nom::Err<&'a [u8]>> for Error {
    /// Same as [`Error::from_parse_failure`].
    fn from(err: nom::Err<&'a [u8]>) -> (r: Error)
        ensures
            r is ParseError,
            exists|notes: Seq<Seq<char>>|
                notes.len() == note_count(err) && r.message() == parse_failure_text(err, notes),
    {
        Error::from_parse_failure(err)
    }
}

// The result holds a `String`, which spec code cannot build from its text:
// the contract stands on `from` itself rather than on `from_spec`.
impl<'a> vstd::std_specs::convert::FromSpecImpl<nom::Err<&'a [u8]>> for Error {
    open spec fn obeys_from_spec() -> bool {
        false
    }

    open spec fn from_spec(v: nom::Err<&'a [u8]>) -> Error {
        arbitrary()
    }
}

impl From<nom::Needed> for Error {
    /// Same as [`Error::from_needed`].
    fn from(needed: nom::Needed) -> (r: Error)
        ensures
            r is ParseIncomplete,
            r.message() == needed_text(needed_size(needed)),
    {
        Error::from_needed(needed)
    }
}

// As above: the contract stands on `from`.
impl vstd::std_specs::convert::FromSpecImpl<nom::Needed> for Error {
    open spec fn obeys_from_spec() -> bool {
        false
    }

    open spec fn from_spec(v: nom::Needed) -> Error {
        arbitrary()
    }
}

} // verus!
