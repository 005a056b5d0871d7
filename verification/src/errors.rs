//! Runtime errors raised at the runtime boundary: tool dispatch,
//! approval flow, LLM adapters, tracing, governance checks.

use vstd::prelude::*;
use crate::text::{cat, cat3, owned, push_str};

verus! {

#[derive(Debug, Clone)]
pub enum RuntimeError {
    /// A tool name was called that has no registered handler.
    UnknownTool(String),
    /// A tool handler returned an error.
    ToolFailed { tool: String, message: String },
    /// A prompt name was called that has no registered template / handler.
    UnknownPrompt(String),
    /// No LLM adapter is registered that can handle the requested model.
    NoAdapter(String),
    /// An LLM adapter returned an error (HTTP, parse, etc.).
    AdapterFailed { adapter: String, message: String },
    /// Approval was denied.
    ApprovalDenied { action: String },
    /// Approval flow failed for a non-deny reason (timeout, IO).
    ApprovalFailed(String),
    /// Wire-format conversion failed.
    Marshal(String),
    /// No model is configured for an LLM call.
    NoModelConfigured,
    /// The model catalog was present but malformed.
    ModelCatalogParse { path: String, message: String },
    /// Capability-based routing found no model strong enough.
    NoEligibleModel { required_capability: String, available_models: Vec<String> },
    /// A `route:` prompt evaluated every arm and found no match.
    NoMatchingRoute { prompt: String },
    /// An adversarial adjudicator returned a value that breaks the
    /// contradiction contract.
    InvalidAdversarialVerdict { prompt: String, message: String },
    /// A replay trace could not be loaded.
    ReplayTraceLoad { path: String, message: String },
    /// Replay across writer tiers is not supported.
    CrossTierReplayUnsupported { recorded_writer: String, replay_writer: String },
    /// Catch-all.
    Other(String),
}

/// The pieces joined by `sep`, in order.
pub open spec fn join(parts: Seq<Seq<char>>, sep: Seq<char>) -> Seq<char>
    decreases parts.len(),
{
    if parts.len() == 0 {
        Seq::empty()
    } else if parts.len() == 1 {
        parts[0]
    } else {
        join(parts.drop_last(), sep) + sep + parts.last()
    }
}

pub open spec fn views(v: Seq<String>) -> Seq<Seq<char>> {
    v.map_values(|s: String| s@)
}

/// The human-readable message of an error.
pub open spec fn message_of(e: RuntimeError) -> Seq<char> {
    match e {
        RuntimeError::UnknownTool(name) => "no handler registered for tool `"@ + name@ + "`"@,
        RuntimeError::ToolFailed { tool, message } => "tool `"@ + tool@ + "` failed: "@
            + message@,
        RuntimeError::UnknownPrompt(name) => "no prompt named `"@ + name@ + "`"@,
        RuntimeError::NoAdapter(model) => "no LLM adapter registered for model `"@ + model@
            + "`"@,
        RuntimeError::AdapterFailed { adapter, message } => "LLM adapter `"@ + adapter@
            + "` failed: "@ + message@,
        RuntimeError::ApprovalDenied { action } => "approval denied for `"@ + action@ + "`"@,
        RuntimeError::ApprovalFailed(msg) => "approval flow failed: "@ + msg@,
        RuntimeError::Marshal(msg) => "value marshalling failed: "@ + msg@,
        RuntimeError::NoModelConfigured => no_model_message()@,
        RuntimeError::ModelCatalogParse { path, message } => "failed to parse model catalog in `"@
            + path@ + "`: "@ + message@,
        RuntimeError::NoEligibleModel { required_capability, available_models } =>
            "no eligible model for capability `"@ + required_capability@
            + "`; available models: "@ + if available_models@.len() == 0 {
            "none"@
        } else {
            join(views(available_models@), ", "@)
        },
        RuntimeError::NoMatchingRoute { prompt } => "no matching route arm for prompt `"@
            + prompt@ + "`"@,
        RuntimeError::InvalidAdversarialVerdict { prompt, message } =>
            "invalid adversarial verdict for prompt `"@ + prompt@ + "`: "@ + message@,
        RuntimeError::ReplayTraceLoad { path, message } => "failed to load replay trace `"@
            + path@ + "`: "@ + message@,
        RuntimeError::CrossTierReplayUnsupported { recorded_writer, replay_writer } =>
            "cross-tier replay is not supported in v1: trace writer `"@ + recorded_writer@
            + "` cannot replay on `"@ + replay_writer@ + "`"@,
        RuntimeError::Other(msg) => msg@,
    }
}

pub open spec fn no_model_message() -> &'static str {
    "no LLM model configured. Set CORVID_MODEL, add `default_model = \"...\"` to corvid.toml, or pass `model=` per call."
}

/// Joins the strings with a separator.
pub fn join_strings(v: &Vec<String>, sep: &str) -> (r: String)
    ensures
        r@ == join(views(v@), sep@),
{
    let mut r = String::new();
    let mut i: usize = 0;
    while i < v.len()
        invariant
            i <= v.len(),
            r@ == join(views(v@.take(i as int)), sep@),
        decreases v.len() - i,
    {
        let ghost prev = views(v@.take(i as int));
        if i > 0 {
            push_str(&mut r, sep);
        }
        push_str(&mut r, v[i].as_str());
        proof {
            let next = views(v@.take(i + 1));
            assert(next.drop_last() =~= prev);
            assert(next.last() == v@[i as int]@);
            if i == 0 {
                assert(next.len() == 1);
                assert(r@ =~= next[0]);
            }
        }
        i = i + 1;
    }
    assert(v@.take(v.len() as int) =~= v@);
    r
}

impl RuntimeError {
    /// The error's message, as `Display` renders it.
    pub fn message(&self) -> (r: String)
        ensures
            r@ == message_of(*self),
    {
        match self {
            RuntimeError::UnknownTool(name) => cat3("no handler registered for tool `", name.as_str(), "`"),
            RuntimeError::ToolFailed { tool, message } => {
                let mut s = cat3("tool `", tool.as_str(), "` failed: ");
                push_str(&mut s, message.as_str());
                s
            },
            RuntimeError::UnknownPrompt(name) => cat3("no prompt named `", name.as_str(), "`"),
            RuntimeError::NoAdapter(model) => cat3(
                "no LLM adapter registered for model `",
                model.as_str(),
                "`",
            ),
            RuntimeError::AdapterFailed { adapter, message } => {
                let mut s = cat3("LLM adapter `", adapter.as_str(), "` failed: ");
                push_str(&mut s, message.as_str());
                s
            },
            RuntimeError::ApprovalDenied { action } => cat3(
                "approval denied for `",
                action.as_str(),
                "`",
            ),
            RuntimeError::ApprovalFailed(msg) => cat("approval flow failed: ", msg.as_str()),
            RuntimeError::Marshal(msg) => cat("value marshalling failed: ", msg.as_str()),
            RuntimeError::NoModelConfigured => owned(
                "no LLM model configured. Set CORVID_MODEL, add `default_model = \"...\"` to corvid.toml, or pass `model=` per call.",
            ),
            RuntimeError::ModelCatalogParse { path, message } => {
                let mut s = cat3("failed to parse model catalog in `", path.as_str(), "`: ");
                push_str(&mut s, message.as_str());
                s
            },
            RuntimeError::NoEligibleModel { required_capability, available_models } => {
                let mut s = cat3(
                    "no eligible model for capability `",
                    required_capability.as_str(),
                    "`; available models: ",
                );
                if available_models.len() == 0 {
                    push_str(&mut s, "none");
                } else {
                    let joined = join_strings(available_models, ", ");
                    push_str(&mut s, joined.as_str());
                }
                s
            },
            RuntimeError::NoMatchingRoute { prompt } => cat3(
                "no matching route arm for prompt `",
                prompt.as_str(),
                "`",
            ),
            RuntimeError::InvalidAdversarialVerdict { prompt, message } => {
                let mut s = cat3(
                    "invalid adversarial verdict for prompt `",
                    prompt.as_str(),
                    "`: ",
                );
                push_str(&mut s, message.as_str());
                s
            },
            RuntimeError::ReplayTraceLoad { path, message } => {
                let mut s = cat3("failed to load replay trace `", path.as_str(), "`: ");
                push_str(&mut s, message.as_str());
                s
            },
            RuntimeError::CrossTierReplayUnsupported { recorded_writer, replay_writer } => {
                let mut s = cat3(
                    "cross-tier replay is not supported in v1: trace writer `",
                    recorded_writer.as_str(),
                    "` cannot replay on `",
                );
                push_str(&mut s, replay_writer.as_str());
                push_str(&mut s, "`");
                s
            },
            RuntimeError::Other(msg) => msg.clone(),
        }
    }
}

} // verus!

verus! {

/// `r` failed with `RuntimeError::Other` carrying exactly `m`.
pub open spec fn is_other_err<T>(r: Result<T, RuntimeError>, m: Seq<char>) -> bool {
    r matches Err(RuntimeError::Other(s)) && s@ == m
}

/// `r` agrees with the expected refusal: `Ok` when there is none,
/// `Err(Other(m))` when the refusal is `m`.
pub open spec fn refused_as<T>(r: Result<T, RuntimeError>, refusal: Option<Seq<char>>) -> bool {
    match refusal {
        None => r is Ok,
        Some(m) => is_other_err(r, m),
    }
}

/// `RuntimeError::Other` with the given message.
pub fn other(m: String) -> (e: RuntimeError)
    ensures
        e == RuntimeError::Other(m),
{
    RuntimeError::Other(m)
}

} // verus!
