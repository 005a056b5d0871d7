//! Reading an adversarial adjudicator's verdict.

use vstd::prelude::*;
use crate::errors::RuntimeError;
use crate::json::{find_member, json_text, member_index, render, JsonValue};
use crate::text::{cat, owned};

verus! {

/// The verdict's `contradiction` flag. The verdict must be a JSON object
/// whose `contradiction` member is a boolean; otherwise the verdict is
/// invalid, and the error says what was found.
pub fn contradiction_flag(prompt: &str, verdict: &JsonValue) -> (r: Result<bool, RuntimeError>)
    ensures
        match verdict {
            JsonValue::Object(ms) => {
                let i = member_index(ms@, "contradiction"@);
                if i < 0 {
                    r matches Err(RuntimeError::InvalidAdversarialVerdict { prompt: p, message: m })
                        && p@ == prompt@ && m@ == "missing `contradiction` field"@
                } else {
                    match ms@[i].value {
                        JsonValue::Bool(b) => r == Ok::<bool, RuntimeError>(b),
                        other => r matches Err(
                            RuntimeError::InvalidAdversarialVerdict { prompt: p, message: m },
                        ) && p@ == prompt@ && m@ == "`contradiction` must be Bool, got "@ + render(
                            other,
                        ),
                    }
                }
            },
            other => r matches Err(RuntimeError::InvalidAdversarialVerdict { prompt: p, message: m })
                && p@ == prompt@ && m@ == "expected struct-like JSON object, got "@ + render(*other),
        },
{
    match verdict {
        JsonValue::Object(ms) => match find_member(ms, "contradiction") {
            None => Err(
                RuntimeError::InvalidAdversarialVerdict {
                    prompt: owned(prompt),
                    message: owned("missing `contradiction` field"),
                },
            ),
            Some(i) => match &ms[i].value {
                JsonValue::Bool(b) => Ok(*b),
                other => {
                    let text = json_text(other);
                    Err(
                        RuntimeError::InvalidAdversarialVerdict {
                            prompt: owned(prompt),
                            message: cat("`contradiction` must be Bool, got ", &text),
                        },
                    )
                },
            },
        },
        other => {
            let text = json_text(other);
            Err(
                RuntimeError::InvalidAdversarialVerdict {
                    prompt: owned(prompt),
                    message: cat("expected struct-like JSON object, got ", &text),
                },
            )
        },
    }
}

/// Text for a trace payload: a string as it is, anything else as its
/// compact JSON.
pub fn trace_text(value: &JsonValue) -> (r: String)
    ensures
        r@ == match value {
            JsonValue::String(s) => s@,
            other => render(*other),
        },
{
    match value {
        JsonValue::String(s) => owned(s),
        other => json_text(other),
    }
}

} // verus!
