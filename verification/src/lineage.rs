//! Lineage events: one span of a traced request (route, tool call,
//! approval, ...) with the contract context it ran under, and the
//! structural check that a set of spans forms one well-formed trace.

use vstd::prelude::*;
use crate::text::{dec, owned, push_str, u64_to_decimal};

verus! {

/// Schema tag carried by every lineage event.
pub const LINEAGE_SCHEMA: &'static str = "corvid.lineage.v1";

#[derive(Debug, Clone, Copy, PartialEq, Eq, Structural)]
pub enum LineageKind {
    Route,
    Job,
    Agent,
    Prompt,
    Tool,
    Approval,
    Db,
    Retry,
    Error,
    Eval,
    Review,
}

#[derive(Debug, Clone, Copy, PartialEq, Eq, Structural)]
pub enum LineageStatus {
    Succeeded,
    Failed,
    Denied,
    PendingReview,
    Replayed,
    Redacted,
}

/// One span of a trace.
///
/// `cost_micro_usd` is the span's spend in millionths of a US dollar;
/// `confidence_bits` the bits of the `f64` confidence reported for it
/// (zero, that is `0.0`, where none was).
#[derive(Debug, Clone)]
pub struct LineageEvent {
    pub schema: String,
    pub trace_id: String,
    pub span_id: String,
    pub parent_span_id: String,
    pub kind: LineageKind,
    pub name: String,
    pub status: LineageStatus,
    pub started_ms: u64,
    pub ended_ms: u64,
    pub latency_ms: u64,
    pub cost_micro_usd: u64,
    pub confidence_bits: u64,
    pub guarantee_id: String,
    pub approval_id: String,
    pub replay_key: String,
    pub data_classes: Vec<String>,
    pub effect_ids: Vec<String>,
    pub model_fingerprint: String,
    pub prompt_hash: String,
    pub retrieval_index_hash: String,
    pub redaction_policy_hash: String,
}

/// Lower-case name of a span kind.
pub open spec fn kind_text(kind: LineageKind) -> Seq<char> {
    match kind {
        LineageKind::Route => "route"@,
        LineageKind::Job => "job"@,
        LineageKind::Agent => "agent"@,
        LineageKind::Prompt => "prompt"@,
        LineageKind::Tool => "tool"@,
        LineageKind::Approval => "approval"@,
        LineageKind::Db => "db"@,
        LineageKind::Retry => "retry"@,
        LineageKind::Error => "error"@,
        LineageKind::Eval => "eval"@,
        LineageKind::Review => "review"@,
    }
}

/// Lower-case name of a span status.
pub open spec fn status_text(status: LineageStatus) -> Seq<char> {
    match status {
        LineageStatus::Succeeded => "ok"@,
        LineageStatus::Failed => "failed"@,
        LineageStatus::Denied => "denied"@,
        LineageStatus::PendingReview => "pending_review"@,
        LineageStatus::Replayed => "replayed"@,
        LineageStatus::Redacted => "redacted"@,
    }
}

/// Position of a kind in declaration order, by which sibling spans that
/// started together are ordered.
pub open spec fn kind_rank(kind: LineageKind) -> nat {
    match kind {
        LineageKind::Route => 0,
        LineageKind::Job => 1,
        LineageKind::Agent => 2,
        LineageKind::Prompt => 3,
        LineageKind::Tool => 4,
        LineageKind::Approval => 5,
        LineageKind::Db => 6,
        LineageKind::Retry => 7,
        LineageKind::Error => 8,
        LineageKind::Eval => 9,
        LineageKind::Review => 10,
    }
}

pub fn kind_label(kind: LineageKind) -> (r: &'static str)
    ensures
        r@ == kind_text(kind),
{
    match kind {
        LineageKind::Route => "route",
        LineageKind::Job => "job",
        LineageKind::Agent => "agent",
        LineageKind::Prompt => "prompt",
        LineageKind::Tool => "tool",
        LineageKind::Approval => "approval",
        LineageKind::Db => "db",
        LineageKind::Retry => "retry",
        LineageKind::Error => "error",
        LineageKind::Eval => "eval",
        LineageKind::Review => "review",
    }
}

pub fn status_label(status: LineageStatus) -> (r: &'static str)
    ensures
        r@ == status_text(status),
{
    match status {
        LineageStatus::Succeeded => "ok",
        LineageStatus::Failed => "failed",
        LineageStatus::Denied => "denied",
        LineageStatus::PendingReview => "pending_review",
        LineageStatus::Replayed => "replayed",
        LineageStatus::Redacted => "redacted",
    }
}

pub fn kind_order(kind: LineageKind) -> (r: u8)
    ensures
        r == kind_rank(kind),
{
    match kind {
        LineageKind::Route => 0,
        LineageKind::Job => 1,
        LineageKind::Agent => 2,
        LineageKind::Prompt => 3,
        LineageKind::Tool => 4,
        LineageKind::Approval => 5,
        LineageKind::Db => 6,
        LineageKind::Retry => 7,
        LineageKind::Error => 8,
        LineageKind::Eval => 9,
        LineageKind::Review => 10,
    }
}

/// Span id of a trace's root span.
pub open spec fn root_span_id(trace_id: Seq<char>, kind: LineageKind) -> Seq<char> {
    trace_id + "/"@ + kind_text(kind)
}

/// Span id of the `index`-th child of the given kind under `parent`.
pub open spec fn child_span_id(parent: Seq<char>, kind: LineageKind, index: nat) -> Seq<char> {
    parent + "/"@ + kind_text(kind) + "-"@ + dec(index)
}

/// The fields every freshly opened span has: current schema, status `Succeeded`,
/// not yet ended, no cost and no contract context.
pub open spec fn fresh_span(e: LineageEvent, kind: LineageKind, name: Seq<char>, started_ms: u64) -> bool {
    &&& e.schema@ == LINEAGE_SCHEMA@
    &&& e.kind == kind
    &&& e.name@ == name
    &&& e.status == LineageStatus::Succeeded
    &&& e.started_ms == started_ms
    &&& e.ended_ms == started_ms
    &&& e.latency_ms == 0
    &&& e.cost_micro_usd == 0
    &&& e.confidence_bits == 0
    &&& e.guarantee_id@.len() == 0
    &&& e.approval_id@.len() == 0
    &&& e.replay_key@.len() == 0
    &&& e.data_classes@.len() == 0
    &&& e.effect_ids@.len() == 0
    &&& e.model_fingerprint@.len() == 0
    &&& e.prompt_hash@.len() == 0
    &&& e.retrieval_index_hash@.len() == 0
    &&& e.redaction_policy_hash@.len() == 0
}

/// A copy of a list of strings.
pub fn copy_strings(v: &Vec<String>) -> (r: Vec<String>)
    ensures
        r@ == v@,
{
    let mut r: Vec<String> = Vec::new();
    let mut i: usize = 0;
    while i < v.len()
        invariant
            i <= v.len(),
            r@ == v@.take(i as int),
        decreases v.len() - i,
    {
        r.push(v[i].clone());
        i = i + 1;
        assert(r@ =~= v@.take(i as int));
    }
    assert(v@.take(v.len() as int) =~= v@);
    r
}

impl LineageEvent {
    fn fresh(
        trace_id: String,
        span_id: String,
        parent_span_id: String,
        kind: LineageKind,
        name: &str,
        started_ms: u64,
    ) -> (e: LineageEvent)
        ensures
            fresh_span(e, kind, name@, started_ms),
            e.trace_id == trace_id,
            e.span_id == span_id,
            e.parent_span_id == parent_span_id,
    {
        LineageEvent {
            schema: owned(LINEAGE_SCHEMA),
            trace_id,
            span_id,
            parent_span_id,
            kind,
            name: owned(name),
            status: LineageStatus::Succeeded,
            started_ms,
            ended_ms: started_ms,
            latency_ms: 0,
            cost_micro_usd: 0,
            confidence_bits: 0,
            guarantee_id: String::new(),
            approval_id: String::new(),
            replay_key: String::new(),
            data_classes: Vec::new(),
            effect_ids: Vec::new(),
            model_fingerprint: String::new(),
            prompt_hash: String::new(),
            retrieval_index_hash: String::new(),
            redaction_policy_hash: String::new(),
        }
    }

    /// Opens the root span of a trace.
    pub fn root(trace_id: &str, kind: LineageKind, name: &str, started_ms: u64) -> (e: LineageEvent)
        ensures
            fresh_span(e, kind, name@, started_ms),
            e.trace_id@ == trace_id@,
            e.span_id@ == root_span_id(trace_id@, kind),
            e.parent_span_id@.len() == 0,
    {
        let mut span = owned(trace_id);
        push_str(&mut span, "/");
        push_str(&mut span, kind_label(kind));
        LineageEvent::fresh(owned(trace_id), span, String::new(), kind, name, started_ms)
    }

    /// Opens the `index`-th child span of `parent`, in the parent's trace.
    pub fn child(parent: &LineageEvent, kind: LineageKind, name: &str, index: u64, started_ms: u64) -> (e: LineageEvent)
        ensures
            fresh_span(e, kind, name@, started_ms),
            e.trace_id@ == parent.trace_id@,
            e.span_id@ == child_span_id(parent.span_id@, kind, index as nat),
            e.parent_span_id@ == parent.span_id@,
    {
        let mut span = parent.span_id.clone();
        push_str(&mut span, "/");
        push_str(&mut span, kind_label(kind));
        push_str(&mut span, "-");
        let digits = u64_to_decimal(index);
        push_str(&mut span, digits.as_str());
        LineageEvent::fresh(
            parent.trace_id.clone(),
            span,
            parent.span_id.clone(),
            kind,
            name,
            started_ms,
        )
    }

    /// Closes the span with a final status at `ended_ms`; the latency is
    /// the time since it started (zero if the clock went backwards).
    pub fn finish(self, status: LineageStatus, ended_ms: u64) -> (e: LineageEvent)
        ensures
            e == (LineageEvent {
                status,
                ended_ms,
                latency_ms: if ended_ms >= self.started_ms { (ended_ms - self.started_ms) as u64 } else { 0 },
                ..self
            }),
    {
        let latency = if ended_ms >= self.started_ms { ended_ms - self.started_ms } else { 0 };
        LineageEvent { status, ended_ms, latency_ms: latency, ..self }
    }
}

/// Outcome of checking a set of spans.
pub struct LineageValidation {
    pub complete: bool,
    pub violations: Vec<String>,
}

pub open spec fn is_root(e: LineageEvent) -> bool {
    e.parent_span_id@.len() == 0
}

/// Number of root spans among the first `n` events.
pub open spec fn roots_upto(evs: Seq<LineageEvent>, n: int) -> nat
    decreases n,
{
    if n <= 0 {
        0
    } else {
        roots_upto(evs, n - 1) + if is_root(evs[n - 1]) { 1nat } else { 0nat }
    }
}

/// Some of the first `n` events has span id `span`.
pub open spec fn has_span(evs: Seq<LineageEvent>, span: Seq<char>, n: int) -> bool {
    exists|j: int| 0 <= j < n && j < evs.len() && (#[trigger] evs[j]).span_id@ == span
}

/// What is wrong with the `i`-th event: a trace id other than the first
/// event's, a span id used by an earlier event, a parent span that no
/// event has.
pub open spec fn event_violations(evs: Seq<LineageEvent>, i: int) -> Seq<Seq<char>> {
    let e = evs[i];
    (if e.trace_id@ != evs[0].trace_id@ {
        seq!["trace_mismatch:"@ + e.span_id@]
    } else {
        Seq::empty()
    }) + (if has_span(evs, e.span_id@, i) {
        seq!["duplicate_span:"@ + e.span_id@]
    } else {
        Seq::empty()
    }) + (if !is_root(e) && !has_span(evs, e.parent_span_id@, evs.len() as int) {
        seq!["missing_parent:"@ + e.span_id@]
    } else {
        Seq::empty()
    })
}

pub open spec fn violations_upto(evs: Seq<LineageEvent>, n: int) -> Seq<Seq<char>>
    decreases n,
{
    if n <= 0 {
        Seq::empty()
    } else {
        violations_upto(evs, n - 1) + event_violations(evs, n - 1)
    }
}

/// Every violation of a set of spans, in order: `expected_one_root`
/// unless exactly one span is a root, then each event's own violations.
pub open spec fn lineage_violations(evs: Seq<LineageEvent>) -> Seq<Seq<char>> {
    (if roots_upto(evs, evs.len() as int) != 1 {
        seq!["expected_one_root"@]
    } else {
        Seq::empty()
    }) + violations_upto(evs, evs.len() as int)
}

/// Whether some event of `events` has span id `span`.
fn find_span(events: &[LineageEvent], span: &String, n: usize) -> (r: bool)
    requires
        n <= events@.len(),
    ensures
        r == has_span(events@, span@, n as int),
{
    let mut j: usize = 0;
    while j < n
        invariant
            n <= events@.len(),
            j <= n,
            forall|k: int| 0 <= k < j ==> (#[trigger] events@[k]).span_id@ != span@,
        decreases n - j,
    {
        if events[j].span_id == *span {
            assert(events@[j as int].span_id@ == span@);
            return true;
        }
        j = j + 1;
    }
    false
}

fn labelled(label: &str, span: &String) -> (r: String)
    ensures
        r@ == label@ + span@,
{
    let mut s = owned(label);
    push_str(&mut s, span.as_str());
    s
}

/// Checks that the events form one trace with a single root, distinct
/// span ids and a present parent for every other span.
pub fn validate_lineage(events: &[LineageEvent]) -> (v: LineageValidation)
    ensures
        v.violations@.map_values(|s: String| s@) == lineage_violations(events@),
        v.complete == (lineage_violations(events@).len() == 0),
{
    let n = events.len();
    let mut roots: usize = 0;
    let mut i: usize = 0;
    while i < n
        invariant
            n == events@.len(),
            i <= n,
            roots == roots_upto(events@, i as int),
            roots <= i,
        decreases n - i,
    {
        if events[i].parent_span_id.as_str().is_empty() {
            roots = roots + 1;
        }
        i = i + 1;
    }
    let mut out: Vec<String> = Vec::new();
    if roots != 1 {
        out.push(owned("expected_one_root"));
    }
    let ghost head = out@.map_values(|s: String| s@);
    assert(head == (if roots_upto(events@, n as int) != 1 {
        seq!["expected_one_root"@]
    } else {
        Seq::<Seq<char>>::empty()
    }));
    let mut i: usize = 0;
    while i < n
        invariant
            n == events@.len(),
            i <= n,
            out@.map_values(|s: String| s@) == head + violations_upto(events@, i as int),
        decreases n - i,
    {
        let ghost before = out@.map_values(|s: String| s@);
        let e = &events[i];
        let ghost mut added: Seq<Seq<char>> = Seq::empty();
        if e.trace_id != events[0].trace_id {
            out.push(labelled("trace_mismatch:", &e.span_id));
            proof { added = added.push("trace_mismatch:"@ + e.span_id@); }
        }
        if find_span(events, &e.span_id, i) {
            out.push(labelled("duplicate_span:", &e.span_id));
            proof { added = added.push("duplicate_span:"@ + e.span_id@); }
        }
        if !e.parent_span_id.as_str().is_empty() && !find_span(events, &e.parent_span_id, n) {
            out.push(labelled("missing_parent:", &e.span_id));
            proof { added = added.push("missing_parent:"@ + e.span_id@); }
        }
        proof {
            assert(added =~= event_violations(events@, i as int));
            assert(out@.map_values(|s: String| s@) =~= before + added);
        }
        i = i + 1;
    }
    let complete = out.len() == 0;
    LineageValidation { complete, violations: out }
}

} // verus!
