//! Drift metrics of lineage trace sets: how a candidate set of traces
//! differs from a baseline in size, schema conformance, spend, latency,
//! denials, tool errors and reported confidence.
//!
//! Spend is counted in millionths of a dollar. Confidences are `f64`
//! values; the summary keeps the ones that count (finite and above zero),
//! and their average is taken where floating point is at hand.

use vstd::prelude::*;
use crate::floatbits::{is_finite, sign_set};
use crate::lineage::{LineageEvent, LineageKind, LineageStatus, LINEAGE_SCHEMA};
use crate::text::str_eq;

verus! {

/// Totals over one set of lineage events.
pub struct LineageDriftSummary {
    pub trace_count: u64,
    pub event_count: u64,
    pub schema_violation_count: u64,
    pub total_cost_micro_usd: u64,
    pub total_latency_ms: u64,
    pub denial_count: u64,
    pub tool_error_count: u64,
    pub confidence_sample_count: u64,
    /// The bits of the confidences that count, in event order.
    pub confidence_sample_bits: Vec<u64>,
}

/// How a candidate set of events differs from a baseline.
pub struct LineageDriftReport {
    pub baseline: LineageDriftSummary,
    pub candidate: LineageDriftSummary,
    pub cost_delta_micro_usd: i128,
    pub latency_delta_ms: i128,
    pub denial_delta: i128,
    pub tool_error_delta: i128,
    pub schema_violation_delta: i128,
}

/// The number of distinct trace ids among the events.
pub open spec fn distinct_traces(s: Seq<LineageEvent>) -> nat
    decreases s.len(),
{
    if s.len() == 0 {
        0
    } else {
        distinct_traces(s.drop_last()) + if seen_trace(s.drop_last(), s.last().trace_id@) {
            0nat
        } else {
            1nat
        }
    }
}

/// Some event is of trace `id`.
pub open spec fn seen_trace(s: Seq<LineageEvent>, id: Seq<char>) -> bool {
    exists|i: int| 0 <= i < s.len() && (#[trigger] s[i]).trace_id@ == id
}

/// Events whose schema is not the current one.
pub open spec fn schema_violations(s: Seq<LineageEvent>) -> nat
    decreases s.len(),
{
    if s.len() == 0 {
        0
    } else {
        schema_violations(s.drop_last()) + if s.last().schema@ != LINEAGE_SCHEMA@ {
            1nat
        } else {
            0nat
        }
    }
}

/// Events that were denied.
pub open spec fn denials(s: Seq<LineageEvent>) -> nat
    decreases s.len(),
{
    if s.len() == 0 {
        0
    } else {
        denials(s.drop_last()) + if s.last().status == LineageStatus::Denied {
            1nat
        } else {
            0nat
        }
    }
}

/// Tool calls that failed.
pub open spec fn tool_errors(s: Seq<LineageEvent>) -> nat
    decreases s.len(),
{
    if s.len() == 0 {
        0
    } else {
        tool_errors(s.drop_last()) + if s.last().kind == LineageKind::Tool && s.last().status
            == LineageStatus::Failed {
            1nat
        } else {
            0nat
        }
    }
}

/// Total spend, in millionths of a dollar.
pub open spec fn total_cost(s: Seq<LineageEvent>) -> nat
    decreases s.len(),
{
    if s.len() == 0 {
        0
    } else {
        total_cost(s.drop_last()) + s.last().cost_micro_usd as nat
    }
}

/// Total latency, in milliseconds.
pub open spec fn total_latency(s: Seq<LineageEvent>) -> nat
    decreases s.len(),
{
    if s.len() == 0 {
        0
    } else {
        total_latency(s.drop_last()) + s.last().latency_ms as nat
    }
}

/// A confidence counts when it is finite and above zero.
pub open spec fn counts_as_confidence(bits: u64) -> bool {
    is_finite(bits) && !sign_set(bits) && bits != 0
}

/// The confidences that count, in event order.
pub open spec fn confidence_samples(s: Seq<LineageEvent>) -> Seq<u64>
    decreases s.len(),
{
    if s.len() == 0 {
        Seq::empty()
    } else if counts_as_confidence(s.last().confidence_bits) {
        confidence_samples(s.drop_last()).push(s.last().confidence_bits)
    } else {
        confidence_samples(s.drop_last())
    }
}

/// The summary of a set of events.
pub open spec fn is_summary_of(r: LineageDriftSummary, s: Seq<LineageEvent>) -> bool {
    &&& r.trace_count == distinct_traces(s)
    &&& r.event_count == s.len()
    &&& r.schema_violation_count == schema_violations(s)
    &&& r.total_cost_micro_usd == total_cost(s)
    &&& r.total_latency_ms == total_latency(s)
    &&& r.denial_count == denials(s)
    &&& r.tool_error_count == tool_errors(s)
    &&& r.confidence_sample_bits@ == confidence_samples(s)
    &&& r.confidence_sample_count == confidence_samples(s).len()
}

proof fn lemma_counts_bounded(s: Seq<LineageEvent>)
    ensures
        distinct_traces(s) <= s.len(),
        schema_violations(s) <= s.len(),
        denials(s) <= s.len(),
        tool_errors(s) <= s.len(),
        confidence_samples(s).len() <= s.len(),
    decreases s.len(),
{
    if s.len() > 0 {
        lemma_counts_bounded(s.drop_last());
    }
}

proof fn lemma_totals_grow(s: Seq<LineageEvent>, n: int)
    requires
        0 <= n <= s.len(),
    ensures
        total_cost(s.take(n)) <= total_cost(s),
        total_latency(s.take(n)) <= total_latency(s),
    decreases s.len() - n,
{
    if n < s.len() {
        lemma_totals_grow(s, n + 1);
        assert(s.take(n + 1).drop_last() =~= s.take(n));
    } else {
        assert(s.take(n) =~= s);
    }
}

fn bits_count_as_confidence(bits: u64) -> (r: bool)
    ensures
        r == counts_as_confidence(bits),
{
    let finite = crate::floatbits::bits_is_finite(bits);
    let negative_sign = bits >= 0x8000_0000_0000_0000;
    proof {
        assert(sign_set(bits) == (bits >= 0x8000_0000_0000_0000)) by (bit_vector)
            requires
                sign_set(bits) == ((bits >> 63u64) == 1u64),
        ;
    }
    finite && !negative_sign && bits != 0
}

fn trace_seen_before(events: &Vec<LineageEvent>, n: usize, id: &String) -> (r: bool)
    requires
        n <= events@.len(),
    ensures
        r == seen_trace(events@.take(n as int), id@),
{
    let mut i: usize = 0;
    while i < n
        invariant
            i <= n <= events@.len(),
            forall|k: int| 0 <= k < i ==> (#[trigger] events@[k]).trace_id@ != id@,
        decreases n - i,
    {
        if str_eq(&events[i].trace_id, id) {
            assert(events@.take(n as int)[i as int] == events@[i as int]);
            return true;
        }
        i += 1;
    }
    assert forall|k: int| 0 <= k < n implies (#[trigger] events@.take(n as int)[k]).trace_id@ != id@ by {
        assert(events@.take(n as int)[k] == events@[k]);
    }
    false
}

/// Totals over one set of lineage events: distinct traces, events, events
/// off the current schema, spend, latency, denials, failed tool calls, and
/// the confidences that count.
pub fn summarize_lineage_drift_metrics(events: &Vec<LineageEvent>) -> (r: LineageDriftSummary)
    requires
        total_cost(events@) <= u64::MAX,
        total_latency(events@) <= u64::MAX,
    ensures
        is_summary_of(r, events@),
{
    let mut trace_count: u64 = 0;
    let mut schema_violation_count: u64 = 0;
    let mut total_cost_micro_usd: u64 = 0;
    let mut total_latency_ms: u64 = 0;
    let mut denial_count: u64 = 0;
    let mut tool_error_count: u64 = 0;
    let mut samples: Vec<u64> = Vec::new();
    let mut i: usize = 0;
    proof {
        lemma_counts_bounded(events@);
    }
    while i < events.len()
        invariant
            i <= events@.len(),
            total_cost(events@) <= u64::MAX,
            total_latency(events@) <= u64::MAX,
            trace_count == distinct_traces(events@.take(i as int)),
            schema_violation_count == schema_violations(events@.take(i as int)),
            total_cost_micro_usd == total_cost(events@.take(i as int)),
            total_latency_ms == total_latency(events@.take(i as int)),
            denial_count == denials(events@.take(i as int)),
            tool_error_count == tool_errors(events@.take(i as int)),
            samples@ == confidence_samples(events@.take(i as int)),
        decreases events@.len() - i,
    {
        let ghost pre = events@.take(i as int);
        let ghost next = events@.take(i as int + 1);
        proof {
            assert(next.drop_last() =~= pre);
            assert(next.last() == events@[i as int]);
            lemma_counts_bounded(next);
            lemma_totals_grow(events@, i as int + 1);
        }
        let e = &events[i];
        if !trace_seen_before(events, i, &e.trace_id) {
            trace_count += 1;
        }
        if !str_eq(&e.schema, LINEAGE_SCHEMA) {
            schema_violation_count += 1;
        }
        total_cost_micro_usd += e.cost_micro_usd;
        total_latency_ms += e.latency_ms;
        if e.status == LineageStatus::Denied {
            denial_count += 1;
        }
        if e.kind == LineageKind::Tool && e.status == LineageStatus::Failed {
            tool_error_count += 1;
        }
        if bits_count_as_confidence(e.confidence_bits) {
            samples.push(e.confidence_bits);
        }
        i += 1;
    }
    assert(events@.take(events@.len() as int) =~= events@);
    let count = samples.len() as u64;
    LineageDriftSummary {
        trace_count,
        event_count: events.len() as u64,
        schema_violation_count,
        total_cost_micro_usd,
        total_latency_ms,
        denial_count,
        tool_error_count,
        confidence_sample_count: count,
        confidence_sample_bits: samples,
    }
}

/// The drift from `baseline_events` to `candidate_events`: both summaries,
/// and the candidate's totals less the baseline's.
pub fn compute_lineage_drift_report(
    baseline_events: &Vec<LineageEvent>,
    candidate_events: &Vec<LineageEvent>,
) -> (r: LineageDriftReport)
    requires
        total_cost(baseline_events@) <= u64::MAX,
        total_latency(baseline_events@) <= u64::MAX,
        total_cost(candidate_events@) <= u64::MAX,
        total_latency(candidate_events@) <= u64::MAX,
    ensures
        is_summary_of(r.baseline, baseline_events@),
        is_summary_of(r.candidate, candidate_events@),
        r.cost_delta_micro_usd == total_cost(candidate_events@) - total_cost(baseline_events@),
        r.latency_delta_ms == total_latency(candidate_events@) - total_latency(baseline_events@),
        r.denial_delta == denials(candidate_events@) - denials(baseline_events@),
        r.tool_error_delta == tool_errors(candidate_events@) - tool_errors(baseline_events@),
        r.schema_violation_delta == schema_violations(candidate_events@) - schema_violations(
            baseline_events@,
        ),
{
    let baseline = summarize_lineage_drift_metrics(baseline_events);
    let candidate = summarize_lineage_drift_metrics(candidate_events);
    LineageDriftReport {
        cost_delta_micro_usd: candidate.total_cost_micro_usd as i128 - baseline.total_cost_micro_usd as i128,
        latency_delta_ms: candidate.total_latency_ms as i128 - baseline.total_latency_ms as i128,
        denial_delta: candidate.denial_count as i128 - baseline.denial_count as i128,
        tool_error_delta: candidate.tool_error_count as i128 - baseline.tool_error_count as i128,
        schema_violation_delta: candidate.schema_violation_count as i128
            - baseline.schema_violation_count as i128,
        baseline,
        candidate,
    }
}

} // verus!
