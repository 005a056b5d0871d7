//! How the embedded runtime reads its configuration from the process
//! environment: which approver, model, replay mode and LLM keys it runs
//! with, the mock tools a test run registers, and the worker and retry
//! counts. The environment itself is read by the caller; this module
//! decides what the values mean.

use vstd::prelude::*;
use crate::prompt_bridge::{
    all_digits, digits_value, is_digit, lemma_digits_grow, parse_i64, parsed_i64, slice_of,
};
use crate::text::{cat, cat3, chars_of, owned, push_str, str_eq, string_from_chars, trim, trim_chars};

verus! {

/// What `str::parse` accepts for an unsigned type whose largest value is
/// `max`: an optional `+` and at least one digit, with a value in range.
pub open spec fn parsed_unsigned(t: Seq<char>, max: nat) -> Option<nat> {
    let body = if t.len() > 0 && t[0] == '+' {
        t.drop_first()
    } else {
        t
    };
    if body.len() == 0 || !all_digits(body) || digits_value(body) > max {
        None
    } else {
        Some(digits_value(body))
    }
}

/// Parses an unsigned number no larger than `max` (see
/// [`parsed_unsigned`]).
pub fn parse_unsigned(t: &Vec<char>, max: u64) -> (r: Option<u64>)
    ensures
        match parsed_unsigned(t@, max as nat) {
            Some(v) => r == Some(v as u64),
            None => r is None,
        },
{
    let signed = t.len() > 0 && t[0] == '+';
    let body = if signed {
        slice_of(t, 1, t.len())
    } else {
        slice_of(t, 0, t.len())
    };
    proof {
        if signed {
            assert(body@ =~= t@.drop_first());
        } else {
            assert(body@ =~= t@);
        }
    }
    if body.len() == 0 {
        return None;
    }
    let mut acc: u128 = 0;
    let mut i: usize = 0;
    while i < body.len()
        invariant
            body@.len() > 0,
            body@ == (if t@.len() > 0 && t@[0] == '+' { t@.drop_first() } else { t@ }),
            i <= body@.len(),
            all_digits(body@.take(i as int)),
            acc == digits_value(body@.take(i as int)),
            acc <= max,
        decreases body.len() - i,
    {
        let c = body[i];
        if !('0' <= c && c <= '9') {
            assert(!is_digit(body@[i as int]));
            return None;
        }
        let d = (c as u32 - 48) as u128;
        proof {
            assert(body@.take(i + 1).drop_last() =~= body@.take(i as int));
            assert(body@.take(i + 1).last() == c);
        }
        let next = acc * 10 + d;
        assert(next == digits_value(body@.take(i + 1)));
        if next > max as u128 {
            proof {
                assert(all_digits(body@.take(i + 1)));
                if all_digits(body@) {
                    lemma_digits_grow(body@, i + 1);
                }
            }
            return None;
        }
        acc = next;
        i = i + 1;
    }
    assert(body@.take(body@.len() as int) =~= body@);
    Some(acc as u64)
}

/// The pieces of `s` between the separator `sep`, in order (`str::split`):
/// one more piece than there are separators, some of them empty.
pub open spec fn split_on(s: Seq<char>, sep: char) -> Seq<Seq<char>>
    decreases s.len(),
{
    if s.len() == 0 {
        seq![Seq::empty()]
    } else {
        let earlier = split_on(s.drop_last(), sep);
        if s.last() == sep {
            earlier.push(Seq::empty())
        } else {
            earlier.update(earlier.len() - 1, earlier.last().push(s.last()))
        }
    }
}

pub proof fn lemma_split_nonempty(s: Seq<char>, sep: char)
    ensures
        split_on(s, sep).len() >= 1,
    decreases s.len(),
{
    if s.len() > 0 {
        lemma_split_nonempty(s.drop_last(), sep);
    }
}

/// The position of the first `c` in `s`, or -1.
pub open spec fn first_index_of(s: Seq<char>, c: char) -> int
    decreases s.len(),
{
    if s.len() == 0 {
        -1
    } else if first_index_of(s.drop_last(), c) >= 0 {
        first_index_of(s.drop_last(), c)
    } else if s.last() == c {
        s.len() - 1
    } else {
        -1
    }
}

/// A tool a test run registers: it ignores its arguments and returns
/// `value`.
pub struct MockIntTool {
    pub name: String,
    pub value: i64,
}

/// What one entry of the mock tool list comes to: nothing (a blank
/// entry), a tool, or a warning that it was skipped.
pub enum MockEntry {
    Blank,
    Tool(Seq<char>, i64),
    Skipped(Seq<char>),
}

pub open spec fn mock_entry(piece: Seq<char>) -> MockEntry {
    let t = trim(piece);
    let k = first_index_of(t, ':');
    if t.len() == 0 {
        MockEntry::Blank
    } else if k < 0 {
        MockEntry::Skipped(
            "corvid: malformed CORVID_TEST_MOCK_INT_TOOLS entry `"@ + t
                + "` (expected `name:value`); skipping"@,
        )
    } else {
        let name = t.take(k);
        let value = t.skip(k + 1);
        match parsed_i64(trim(value)) {
            Some(v) => MockEntry::Tool(trim(name), v),
            None => MockEntry::Skipped(
                "corvid: CORVID_TEST_MOCK_INT_TOOLS value `"@ + value + "` for `"@ + name
                    + "` isn't a valid i64; skipping"@,
            ),
        }
    }
}

/// The tools and the warnings of the first `n` entries, in order.
pub open spec fn mock_tools_upto(pieces: Seq<Seq<char>>, n: int) -> (Seq<(Seq<char>, i64)>, Seq<Seq<char>>)
    decreases n,
{
    if n <= 0 {
        (Seq::empty(), Seq::empty())
    } else {
        let (tools, warnings) = mock_tools_upto(pieces, n - 1);
        match mock_entry(pieces[n - 1]) {
            MockEntry::Blank => (tools, warnings),
            MockEntry::Tool(name, v) => (tools.push((name, v)), warnings),
            MockEntry::Skipped(w) => (tools, warnings.push(w)),
        }
    }
}

/// The tools a `name:value;name:value` list registers, and a warning for
/// each entry that is skipped.
pub open spec fn mock_tools(spec: Seq<char>) -> (Seq<(Seq<char>, i64)>, Seq<Seq<char>>) {
    mock_tools_upto(split_on(spec, ';'), split_on(spec, ';').len() as int)
}

pub open spec fn tool_views(v: Seq<MockIntTool>) -> Seq<(Seq<char>, i64)> {
    v.map_values(|t: MockIntTool| (t.name@, t.value))
}

pub open spec fn texts(v: Seq<String>) -> Seq<Seq<char>> {
    v.map_values(|s: String| s@)
}

fn index_of(t: &Vec<char>, c: char) -> (r: Option<usize>)
    ensures
        match r {
            Some(k) => k < t@.len() && k == first_index_of(t@, c),
            None => first_index_of(t@, c) < 0,
        },
{
    let mut i: usize = 0;
    while i < t.len()
        invariant
            i <= t@.len(),
            first_index_of(t@.take(i as int), c) < 0,
        decreases t@.len() - i,
    {
        assert(t@.take(i as int + 1).drop_last() =~= t@.take(i as int));
        if t[i] == c {
            proof {
                lemma_first_index_extends(t@, i as int + 1, c);
            }
            return Some(i);
        }
        i += 1;
    }
    assert(t@.take(t@.len() as int) =~= t@);
    None
}

proof fn lemma_first_index_extends(t: Seq<char>, n: int, c: char)
    requires
        0 <= n <= t.len(),
        first_index_of(t.take(n), c) >= 0,
    ensures
        first_index_of(t, c) == first_index_of(t.take(n), c),
    decreases t.len() - n,
{
    if n == t.len() {
        assert(t.take(n) =~= t);
    } else {
        assert(t.take(n + 1).drop_last() =~= t.take(n));
        lemma_first_index_extends(t, n + 1, c);
    }
}

/// Adds what one entry comes to (see [`mock_entry`]).
fn take_mock_entry(piece: &Vec<char>, tools: &mut Vec<MockIntTool>, warnings: &mut Vec<String>)
    ensures
        match mock_entry(piece@) {
            MockEntry::Blank => tool_views(final(tools)@) == tool_views(old(tools)@) && texts(
                final(warnings)@,
            ) == texts(old(warnings)@),
            MockEntry::Tool(name, v) => tool_views(final(tools)@) == tool_views(old(tools)@).push(
                (name, v),
            ) && texts(final(warnings)@) == texts(old(warnings)@),
            MockEntry::Skipped(w) => tool_views(final(tools)@) == tool_views(old(tools)@) && texts(
                final(warnings)@,
            ) == texts(old(warnings)@).push(w),
        },
{
    let t = trim_chars(piece);
    if t.len() == 0 {
        return;
    }
    match index_of(&t, ':') {
        None => {
            let shown = string_from_chars(&t);
            let w = cat3(
                "corvid: malformed CORVID_TEST_MOCK_INT_TOOLS entry `",
                &shown,
                "` (expected `name:value`); skipping",
            );
            warnings.push(w);
            assert(texts(warnings@) =~= texts(old(warnings)@).push(w@));
        },
        Some(k) => {
            let name = slice_of(&t, 0, k);
            let value = slice_of(&t, k + 1, t.len());
            proof {
                assert(name@ =~= t@.take(k as int));
                assert(value@ =~= t@.skip(k + 1));
            }
            match parse_i64(&trim_chars(&value)) {
                Some(v) => {
                    let tool = MockIntTool { name: string_from_chars(&trim_chars(&name)), value: v };
                    tools.push(tool);
                    assert(tool_views(tools@) =~= tool_views(old(tools)@).push((tool.name@, v)));
                },
                None => {
                    let value_text = string_from_chars(&value);
                    let name_text = string_from_chars(&name);
                    let head = cat3("corvid: CORVID_TEST_MOCK_INT_TOOLS value `", &value_text, "` for `");
                    let w = cat3(&head, &name_text, "` isn't a valid i64; skipping");
                    warnings.push(w);
                    assert(texts(warnings@) =~= texts(old(warnings)@).push(w@));
                },
            }
        },
    }
}

/// The tools a `name:value;name:value` list registers, with a warning for
/// each entry that is skipped (see [`mock_tools`]).
pub fn parse_mock_int_tools(spec: &str) -> (r: (Vec<MockIntTool>, Vec<String>))
    ensures
        (tool_views(r.0@), texts(r.1@)) == mock_tools(spec@),
{
    let s = chars_of(spec);
    let mut tools: Vec<MockIntTool> = Vec::new();
    let mut warnings: Vec<String> = Vec::new();
    let mut cur: Vec<char> = Vec::new();
    let mut i: usize = 0;
    proof {
        assert(s@.take(0) =~= Seq::<char>::empty());
    }
    while i < s.len()
        invariant
            i <= s@.len(),
            split_on(s@.take(i as int), ';').len() >= 1,
            split_on(s@.take(i as int), ';').last() == cur@,
            (tool_views(tools@), texts(warnings@)) == mock_tools_upto(
                split_on(s@.take(i as int), ';'),
                split_on(s@.take(i as int), ';').len() - 1,
            ),
        decreases s@.len() - i,
    {
        let ghost before = split_on(s@.take(i as int), ';');
        assert(s@.take(i as int + 1).drop_last() =~= s@.take(i as int));
        assert(s@.take(i as int + 1).last() == s@[i as int]);
        if s[i] == ';' {
            take_mock_entry(&cur, &mut tools, &mut warnings);
            cur = Vec::new();
            proof {
                let after = split_on(s@.take(i as int + 1), ';');
                assert(after == before.push(Seq::empty()));
                assert(after.take(after.len() - 1) =~= before);
                assert(mock_tools_upto(after, after.len() - 1) == mock_tools_upto(before, before.len() as int)) by {
                    lemma_upto_prefix(after, before, before.len() as int);
                }
                assert(after.last() =~= cur@);
            }
        } else {
            cur.push(s[i]);
            proof {
                let after = split_on(s@.take(i as int + 1), ';');
                assert(after == before.update(before.len() - 1, before.last().push(s@[i as int])));
                lemma_upto_prefix(after, before, before.len() - 1);
                assert(after.last() =~= cur@);
            }
        }
        i += 1;
    }
    assert(s@.take(s@.len() as int) =~= s@);
    take_mock_entry(&cur, &mut tools, &mut warnings);
    (tools, warnings)
}

/// Folding over a prefix only looks at the prefix.
proof fn lemma_upto_prefix(a: Seq<Seq<char>>, b: Seq<Seq<char>>, n: int)
    requires
        0 <= n <= a.len(),
        n <= b.len(),
        forall|i: int| 0 <= i < n ==> a[i] == b[i],
    ensures
        mock_tools_upto(a, n) == mock_tools_upto(b, n),
    decreases n,
{
    if n > 0 {
        lemma_upto_prefix(a, b, n - 1);
    }
}

/// The environment variables the runtime reads, as found (absent, or not
/// valid text, is `None`).
pub struct RuntimeEnv {
    /// `CORVID_APPROVE_AUTO`
    pub approve_auto: Option<String>,
    /// `CORVID_MODEL`
    pub model: Option<String>,
    /// `CORVID_ROLLOUT_SEED`
    pub rollout_seed: Option<String>,
    /// `CORVID_REPLAY_TRACE_PATH`
    pub replay_trace_path: Option<String>,
    /// `CORVID_REPLAY_MUTATE_STEP`
    pub replay_mutate_step: Option<String>,
    /// `CORVID_REPLAY_MUTATE_JSON`
    pub replay_mutate_json: Option<String>,
    /// `CORVID_REPLAY_MODEL`
    pub replay_model: Option<String>,
    /// `CORVID_TEST_MOCK_LLM`
    pub test_mock_llm: Option<String>,
    /// `ANTHROPIC_API_KEY`
    pub anthropic_api_key: Option<String>,
    /// `OPENAI_API_KEY`
    pub openai_api_key: Option<String>,
    /// `GOOGLE_API_KEY`
    pub google_api_key: Option<String>,
    /// `GEMINI_API_KEY`
    pub gemini_api_key: Option<String>,
    /// `OPENAI_COMPAT_API_KEY`
    pub openai_compat_api_key: Option<String>,
    /// `CORVID_TEST_MOCK_INT_TOOLS`
    pub test_mock_int_tools: Option<String>,
}

/// Which recorded trace, if any, a run replays, and how.
pub enum ReplaySelection {
    /// No replay: a live run.
    Live,
    /// Replay with the step's result replaced by the given JSON; the step
    /// and the JSON are still to be read.
    Mutation { path: String, step: String, replacement_json: String },
    /// Replay against another model.
    Differential { path: String, model: String },
    /// Replay as recorded.
    Replay { path: String },
}

/// What the runtime is built with.
pub struct RuntimeSettings {
    /// Approve every request without asking (batch and CI runs).
    pub auto_approve: bool,
    pub default_model: Option<String>,
    pub rollout_seed: Option<u64>,
    pub replay: ReplaySelection,
    /// Register the environment-driven mock LLM before the real adapters.
    pub mock_llm: bool,
    pub anthropic_key: String,
    pub openai_key: String,
    pub gemini_key: String,
    pub openai_compat_key: String,
    pub mock_int_tools: Vec<MockIntTool>,
    /// Mock tool entries that were skipped, in order.
    pub warnings: Vec<String>,
}

pub open spec fn is_one(v: Option<String>) -> bool {
    v matches Some(s) && s@ == "1"@
}

pub open spec fn text_or_empty(v: Option<String>) -> Seq<char> {
    match v {
        Some(s) => s@,
        None => Seq::empty(),
    }
}

pub open spec fn opt_text(v: Option<String>) -> Option<Seq<char>> {
    match v {
        Some(s) => Some(s@),
        None => None,
    }
}

/// The replay a run makes: with a trace path, a mutation when both a step
/// and a replacement are given, else a differential run when a model is
/// given, else a plain replay.
pub open spec fn replay_is(r: ReplaySelection, env: RuntimeEnv) -> bool {
    match env.replay_trace_path {
        None => r is Live,
        Some(path) => if env.replay_mutate_step is Some && env.replay_mutate_json is Some {
            r matches ReplaySelection::Mutation { path: p, step, replacement_json }
                && p@ == path@ && step@ == env.replay_mutate_step->0@
                && replacement_json@ == env.replay_mutate_json->0@
        } else if env.replay_model is Some {
            r matches ReplaySelection::Differential { path: p, model } && p@ == path@ && model@
                == env.replay_model->0@
        } else {
            r matches ReplaySelection::Replay { path: p } && p@ == path@
        },
    }
}

fn is_one_exec(v: &Option<String>) -> (r: bool)
    ensures
        r == is_one(*v),
{
    match v {
        Some(s) => str_eq(s, "1"),
        None => false,
    }
}

fn text_or_empty_exec(v: &Option<String>) -> (r: String)
    ensures
        r@ == text_or_empty(*v),
{
    match v {
        Some(s) => owned(s),
        None => String::new(),
    }
}

/// What the runtime is built with, from its environment: auto-approval
/// only when `CORVID_APPROVE_AUTO` is `1`; a rollout seed only when it
/// parses as a `u64`; the replay mode (see [`replay_is`]); the mock LLM
/// only when `CORVID_TEST_MOCK_LLM` is `1`; each missing API key as empty
/// text, the Google key standing in for the Gemini one; and the mock
/// tools of `CORVID_TEST_MOCK_INT_TOOLS`.
pub fn runtime_settings(env: &RuntimeEnv) -> (r: RuntimeSettings)
    ensures
        r.auto_approve == is_one(env.approve_auto),
        opt_text(r.default_model) == opt_text(env.model),
        r.rollout_seed == (match env.rollout_seed {
            Some(s) => match parsed_unsigned(s@, u64::MAX as nat) {
                Some(v) => Some(v as u64),
                None => None,
            },
            None => None,
        }),
        replay_is(r.replay, *env),
        r.mock_llm == is_one(env.test_mock_llm),
        r.anthropic_key@ == text_or_empty(env.anthropic_api_key),
        r.openai_key@ == text_or_empty(env.openai_api_key),
        r.gemini_key@ == (if env.google_api_key is Some {
            text_or_empty(env.google_api_key)
        } else {
            text_or_empty(env.gemini_api_key)
        }),
        r.openai_compat_key@ == text_or_empty(env.openai_compat_api_key),
        (tool_views(r.mock_int_tools@), texts(r.warnings@)) == (match env.test_mock_int_tools {
            Some(spec) => mock_tools(spec@),
            None => (Seq::empty(), Seq::empty()),
        }),
{
    let rollout_seed = match &env.rollout_seed {
        Some(s) => parse_unsigned(&chars_of(s), u64::MAX),
        None => None,
    };
    let replay = match &env.replay_trace_path {
        None => ReplaySelection::Live,
        Some(path) => match (&env.replay_mutate_step, &env.replay_mutate_json) {
            (Some(step), Some(json)) => ReplaySelection::Mutation {
                path: owned(path),
                step: owned(step),
                replacement_json: owned(json),
            },
            _ => match &env.replay_model {
                Some(model) => ReplaySelection::Differential { path: owned(path), model: owned(model) },
                None => ReplaySelection::Replay { path: owned(path) },
            },
        },
    };
    let gemini_key = if env.google_api_key.is_some() {
        text_or_empty_exec(&env.google_api_key)
    } else {
        text_or_empty_exec(&env.gemini_api_key)
    };
    let (mock_int_tools, warnings) = match &env.test_mock_int_tools {
        Some(spec) => parse_mock_int_tools(spec),
        None => (Vec::new(), Vec::new()),
    };
    proof {
        if env.test_mock_int_tools is None {
            assert(tool_views(mock_int_tools@) =~= Seq::<(Seq<char>, i64)>::empty());
            assert(texts(warnings@) =~= Seq::<Seq<char>>::empty());
        }
    }
    RuntimeSettings {
        auto_approve: is_one_exec(&env.approve_auto),
        default_model: match &env.model {
            Some(m) => Some(owned(m)),
            None => None,
        },
        rollout_seed,
        replay,
        mock_llm: is_one_exec(&env.test_mock_llm),
        anthropic_key: text_or_empty_exec(&env.anthropic_api_key),
        openai_key: text_or_empty_exec(&env.openai_api_key),
        gemini_key,
        openai_compat_key: text_or_empty_exec(&env.openai_compat_api_key),
        mock_int_tools,
        warnings,
    }
}

/// How many retries a typed prompt call makes when none is configured.
pub const DEFAULT_PROMPT_MAX_RETRIES: u32 = 3;

/// The retry count of typed prompt calls: `CORVID_PROMPT_MAX_RETRIES`
/// when it parses as a `u32`, else the default.
pub fn prompt_max_retries(configured: Option<&str>) -> (r: u32)
    ensures
        r == (match configured {
            Some(s) => match parsed_unsigned(s@, u32::MAX as nat) {
                Some(v) => v as u32,
                None => DEFAULT_PROMPT_MAX_RETRIES,
            },
            None => DEFAULT_PROMPT_MAX_RETRIES,
        }),
{
    match configured {
        Some(s) => match parse_unsigned(&chars_of(s), u32::MAX as u64) {
            Some(v) => v as u32,
            None => DEFAULT_PROMPT_MAX_RETRIES,
        },
        None => DEFAULT_PROMPT_MAX_RETRIES,
    }
}

/// The worker thread count of the async runtime: `CORVID_TOKIO_WORKERS`
/// when it parses as a positive `usize`; otherwise the runtime's own
/// default (`None`).
pub fn tokio_workers(configured: Option<&str>) -> (r: Option<usize>)
    ensures
        r == (match configured {
            Some(s) => match parsed_unsigned(s@, usize::MAX as nat) {
                Some(v) => if v > 0 {
                    Some(v as usize)
                } else {
                    None
                },
                None => None,
            },
            None => None,
        }),
{
    match configured {
        Some(s) => match parse_unsigned(&chars_of(s), usize::MAX as u64) {
            Some(v) => if v > 0 {
                Some(v as usize)
            } else {
                None
            },
            None => None,
        },
        None => None,
    }
}

} // verus!
