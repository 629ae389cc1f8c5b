//! The wording of translated failures, and the verified code that builds it.
use vstd::prelude::*;

verus! {

/// The character of a decimal digit.
pub open spec fn digit_char(d: nat) -> char {
    if d == 0 {
        '0'
    } else if d == 1 {
        '1'
    } else if d == 2 {
        '2'
    } else if d == 3 {
        '3'
    } else if d == 4 {
        '4'
    } else if d == 5 {
        '5'
    } else if d == 6 {
        '6'
    } else if d == 7 {
        '7'
    } else if d == 8 {
        '8'
    } else {
        '9'
    }
}

/// The decimal rendering of `n`, most significant digit first, without leading zeros.
pub open spec fn decimal(n: nat) -> Seq<char>
    decreases n,
{
    if n < 10 {
        seq![digit_char(n)]
    } else {
        decimal(n / 10).push(digit_char(n % 10))
    }
}

/// `seed`, followed by each note in order, each preceded by a single space.
pub open spec fn fold_notes(seed: Seq<char>, notes: Seq<Seq<char>>) -> Seq<char>
    decreases notes.len(),
{
    if notes.len() == 0 {
        seed
    } else {
        fold_notes(seed, notes.drop_last()) + " "@ + notes.last()
    }
}

/// The texts of a sequence of strings.
pub open spec fn texts(notes: Seq<String>) -> Seq<Seq<char>> {
    notes.map_values(|s: String| s@)
}

/// The message of a parse failure, from the text of the input where it
/// happened (when known) and the descriptions of its sub-errors (when given).
pub open spec fn failure_text(input: Option<Seq<char>>, notes: Option<Seq<Seq<char>>>) -> Seq<
    char,
> {
    match (input, notes) {
        (None, None) => "Parsing error: Unknown origin"@,
        (None, Some(n)) => fold_notes("Parsing error: Unknown origin."@, n),
        (Some(i), None) => "Parsing error: When input is "@ + i,
        (Some(i), Some(n)) => fold_notes("Parsing error: When input is "@ + i + "."@, n),
    }
}

/// The message of an incomplete input, from the number of bytes still
/// needed (when known).
pub open spec fn needed_text(size: Option<nat>) -> Seq<char> {
    match size {
        None => "Data error: insufficient size, expectation unknown"@,
        Some(k) => "Data error: insufficient size, expected "@ + decimal(k) + " bytes"@,
    }
}

fn digit_text(d: usize) -> (r: &'static str)
    requires
        d < 10,
    ensures
        r@ == seq![digit_char(d as nat)],
{
    proof {
        reveal_strlit("0");
        reveal_strlit("1");
        reveal_strlit("2");
        reveal_strlit("3");
        reveal_strlit("4");
        reveal_strlit("5");
        reveal_strlit("6");
        reveal_strlit("7");
        reveal_strlit("8");
        reveal_strlit("9");
    }
    if d == 0 {
        "0"
    } else if d == 1 {
        "1"
    } else if d == 2 {
        "2"
    } else if d == 3 {
        "3"
    } else if d == 4 {
        "4"
    } else if d == 5 {
        "5"
    } else if d == 6 {
        "6"
    } else if d == 7 {
        "7"
    } else if d == 8 {
        "8"
    } else {
        "9"
    }
}

/// Appends the decimal rendering of `n` to `text`.
pub fn append_decimal(text: &mut String, n: usize)
    ensures
        final(text)@ == old(text)@ + decimal(n as nat),
    decreases n,
{
    if n >= 10 {
        append_decimal(text, n / 10);
    }
    text.append(digit_text(n % 10));
    proof {
        if n >= 10 {
            assert(final(text)@ =~= old(text)@ + decimal(n as nat));
        }
    }
}

/// Appends each note to `text` in order, each after a single space.
pub fn append_notes(text: &mut String, notes: &Vec<String>)
    ensures
        final(text)@ == fold_notes(old(text)@, texts(notes@)),
{
    let ghost seed = text@;
    let mut i: usize = 0;
    while i < notes.len()
        invariant
            i <= notes.len(),
            seed == old(text)@,
            text@ == fold_notes(seed, texts(notes@.take(i as int))),
        decreases notes.len() - i,
    {
        text.append(" ");
        text.append(notes[i].as_str());
        proof {
            assert(texts(notes@.take(i + 1)).drop_last() =~= texts(notes@.take(i as int)));
        }
        i = i + 1;
    }
    assert(notes@.take(i as int) =~= notes@);
}

/// Builds the message of a parse failure from the text of the input where
/// it happened (when known) and the descriptions of its sub-errors (when given).
pub fn failure_message(input: Option<&str>, notes: Option<&Vec<String>>) -> (r: String)
    ensures
        r@ == failure_text(
            match input {
                Some(s) => Some(s@),
                None => None,
            },
            match notes {
                Some(n) => Some(texts(n@)),
                None => None,
            },
        ),
{
    match (input, notes) {
        (None, None) => String::from_str("Parsing error: Unknown origin"),
        (None, Some(n)) => {
            let mut text = String::from_str("Parsing error: Unknown origin.");
            append_notes(&mut text, n);
            text
        },
        (Some(i), None) => {
            let mut text = String::from_str("Parsing error: When input is ");
            text.append(i);
            text
        },
        (Some(i), Some(n)) => {
            let mut text = String::from_str("Parsing error: When input is ");
            text.append(i);
            text.append(".");
            append_notes(&mut text, n);
            text
        },
    }
}

/// Builds the message of an incomplete input from the number of bytes
/// still needed (when known).
pub fn needed_message(size: Option<usize>) -> (r: String)
    ensures
        r@ == needed_text(
            match size {
                Some(k) => Some(k as nat),
                None => None,
            },
        ),
{
    match size {
        None => String::from_str("Data error: insufficient size, expectation unknown"),
        Some(k) => {
            let mut text = String::from_str("Data error: insufficient size, expected ");
            append_decimal(&mut text, k);
            text.append(" bytes");
            text
        },
    }
}

} // verus!
