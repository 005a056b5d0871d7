//! Human input for `ask` and `choose`: the request types and the checks
//! an answer goes through.

use vstd::prelude::*;
use crate::errors::RuntimeError;
use crate::prompt_bridge::parsed_i64;
use crate::text::{ascii_lower, cat, chars_of, dec, lower_chars, owned, push_str, u64_to_decimal};

verus! {

/// A typed question put to a human.
pub struct HumanInputRequest {
    pub prompt: String,
    pub expected_type: String,
}

/// The interactive interactor, reading answers from standard input.
pub struct StdinHumanInteractor;

impl StdinHumanInteractor {
    pub fn new() -> (r: StdinHumanInteractor) {
        StdinHumanInteractor
    }
}

/// A chosen option index, accepted only when it names one of the
/// options; otherwise the error says so.
pub fn checked_choice(index: usize, option_count: usize) -> (r: Result<usize, RuntimeError>)
    ensures
        index < option_count ==> r == Ok::<usize, RuntimeError>(index),
        index >= option_count ==> (r matches Err(RuntimeError::Other(m)) && m@ == "choice index "@
            + dec(index as nat) + " out of range for "@ + dec(option_count as nat) + " options"@),
{
    if index < option_count {
        return Ok(index);
    }
    let mut m = owned("choice index ");
    let i = u64_to_decimal(index as u64);
    push_str(&mut m, i.as_str());
    push_str(&mut m, " out of range for ");
    let n = u64_to_decimal(option_count as u64);
    push_str(&mut m, n.as_str());
    push_str(&mut m, " options");
    Err(RuntimeError::Other(m))
}

/// The truth value a `Bool` answer spells (any case): `true`, `yes`, `y`
/// or `false`, `no`, `n`.
pub open spec fn bool_answer(lower: Seq<char>) -> Option<bool> {
    if lower == "true"@ || lower == "yes"@ || lower == "y"@ {
        Some(true)
    } else if lower == "false"@ || lower == "no"@ || lower == "n"@ {
        Some(false)
    } else {
        None
    }
}

fn is_word(v: &Vec<char>, w: &str) -> (r: bool)
    ensures
        r == (v@ == w@),
{
    let wv = chars_of(w);
    if v.len() != wv.len() {
        return false;
    }
    let mut i: usize = 0;
    while i < v.len()
        invariant
            v@.len() == wv@.len(),
            wv@ == w@,
            i <= v@.len(),
            forall|k: int| 0 <= k < i ==> v@[k] == wv@[k],
        decreases v.len() - i,
    {
        if v[i] != wv[i] {
            return false;
        }
        i = i + 1;
    }
    assert(v@ =~= wv@);
    true
}

/// Reads a `Bool` answer (see [`bool_answer`]); any other word is an
/// error.
pub fn parse_human_bool(raw: &str) -> (r: Result<bool, RuntimeError>)
    ensures
        bool_answer(ascii_lower(raw@)) is Some ==> r == Ok::<bool, RuntimeError>(bool_answer(ascii_lower(raw@))->Some_0),
        bool_answer(ascii_lower(raw@)) is None ==> (r matches Err(RuntimeError::Other(m)) && m@
            == "invalid Bool input"@),
{
    let l = lower_chars(&chars_of(raw));
    if is_word(&l, "true") || is_word(&l, "yes") || is_word(&l, "y") {
        Ok(true)
    } else if is_word(&l, "false") || is_word(&l, "no") || is_word(&l, "n") {
        Ok(false)
    } else {
        Err(RuntimeError::Other(owned("invalid Bool input")))
    }
}

/// `str::parse::<i64>`: the integer, or the parse error's text. It
/// accepts what the documentation of `i64::from_str` gives: an optional
/// sign and decimal digits, with a value in range. The error's wording is
/// left open.
#[verifier::external_body]
fn std_parse_i64(raw: &str) -> (r: Result<i64, String>)
    ensures
        match r {
            Ok(v) => parsed_i64(raw@) == Some(v),
            Err(_) => parsed_i64(raw@) is None,
        },
{
    raw.parse::<i64>().map_err(|err| err.to_string())
}

/// Reads an `Int` answer: a decimal integer in range, or an error that
/// starts `invalid Int input: ` and carries the parser's complaint.
pub fn parse_human_int(raw: &str) -> (r: Result<i64, RuntimeError>)
    ensures
        parsed_i64(raw@) matches Some(v) ==> r == Ok::<i64, RuntimeError>(v),
        parsed_i64(raw@) is None ==> (r matches Err(RuntimeError::Other(m)) && exists|why: Seq<char>|
            m@ == "invalid Int input: "@ + why),
{
    match std_parse_i64(raw) {
        Ok(v) => Ok(v),
        Err(why) => Err(RuntimeError::Other(cat("invalid Int input: ", why.as_str()))),
    }
}

} // verus!
