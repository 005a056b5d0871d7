//! Redaction of lineage events before they leave the process: names and
//! identifiers are replaced by a short digest, and every redacted event
//! records which policy produced it.

use vstd::prelude::*;
use vstd::utf8::encode_utf8;
use crate::digest::{hex_prefix, hex_text, lemma_hex_text_len, sha256_digest, sha256_of_text};
use crate::lineage::{copy_strings, event_violations, has_span, lineage_violations, roots_upto, violations_upto, LineageEvent};
use crate::text::{cat, owned, push_str};

verus! {

/// What a redaction pass hides.
pub struct LineageRedactionPolicy {
    /// Identifier of the policy, part of its hash.
    pub policy_id: String,
    /// Replace span names (which may carry user data).
    pub redact_names: bool,
    /// Replace approval ids, replay keys, model fingerprints, prompt and
    /// retrieval-index hashes.
    pub redact_identifiers: bool,
}

pub open spec fn bool_text(b: bool) -> Seq<char> {
    if b {
        "true"@
    } else {
        "false"@
    }
}

/// The canonical text of a policy, which its hash covers.
pub open spec fn policy_text(p: LineageRedactionPolicy) -> Seq<char> {
    "policy="@ + p.policy_id@ + ";names="@ + bool_text(p.redact_names) + ";identifiers="@
        + bool_text(p.redact_identifiers)
}

/// The first 16 hex digits of the SHA-256 digest of `text`'s UTF-8 bytes.
pub open spec fn short_digest(text: Seq<char>) -> Seq<char> {
    hex_text(sha256_digest(encode_utf8(text))).take(16)
}

/// `"sha256:"` and the short digest of the policy's canonical text.
pub open spec fn policy_hash_text(p: LineageRedactionPolicy) -> Seq<char> {
    "sha256:"@ + short_digest(policy_text(p))
}

/// A value as a policy leaves it: unchanged when the policy keeps it or
/// it is empty, otherwise `"redacted:"` and its short digest.
pub open spec fn redact_text(value: Seq<char>, hide: bool) -> Seq<char> {
    if hide && value.len() > 0 {
        "redacted:"@ + short_digest(value)
    } else {
        value
    }
}

/// `r` is `e` redacted under `p`: the structure, timing, cost, guarantee,
/// data classes and effects stay; names and identifiers are redacted as
/// the policy says; the policy's hash is recorded.
pub open spec fn is_redaction(r: LineageEvent, e: LineageEvent, p: LineageRedactionPolicy) -> bool {
    &&& r.schema@ == e.schema@
    &&& r.trace_id@ == e.trace_id@
    &&& r.span_id@ == e.span_id@
    &&& r.parent_span_id@ == e.parent_span_id@
    &&& r.kind == e.kind
    &&& r.name@ == redact_text(e.name@, p.redact_names)
    &&& r.status == e.status
    &&& r.started_ms == e.started_ms
    &&& r.ended_ms == e.ended_ms
    &&& r.latency_ms == e.latency_ms
    &&& r.cost_micro_usd == e.cost_micro_usd
    &&& r.confidence_bits == e.confidence_bits
    &&& r.guarantee_id@ == e.guarantee_id@
    &&& r.approval_id@ == redact_text(e.approval_id@, p.redact_identifiers)
    &&& r.replay_key@ == redact_text(e.replay_key@, p.redact_identifiers)
    &&& r.data_classes@ == e.data_classes@
    &&& r.effect_ids@ == e.effect_ids@
    &&& r.model_fingerprint@ == redact_text(e.model_fingerprint@, p.redact_identifiers)
    &&& r.prompt_hash@ == redact_text(e.prompt_hash@, p.redact_identifiers)
    &&& r.retrieval_index_hash@ == redact_text(e.retrieval_index_hash@, p.redact_identifiers)
    &&& r.redaction_policy_hash@ == policy_hash_text(p)
}

/// The short digest of a text.
pub fn short_digest_of(text: &str) -> (r: String)
    ensures
        r@ == short_digest(text@),
{
    let d = sha256_of_text(text);
    proof {
        lemma_hex_text_len(d@);
    }
    hex_prefix(d.as_slice(), 16)
}

fn bool_word(b: bool) -> (r: &'static str)
    ensures
        r@ == bool_text(b),
{
    if b {
        "true"
    } else {
        "false"
    }
}

/// A value redacted when `hide` is set (see [`redact_text`]).
pub fn redact_value(value: &String, hide: bool) -> (r: String)
    ensures
        r@ == redact_text(value@, hide),
{
    if hide && !value.as_str().is_empty() {
        let d = short_digest_of(value.as_str());
        cat("redacted:", d.as_str())
    } else {
        value.clone()
    }
}

impl LineageRedactionPolicy {
    /// A policy that keeps every value and only stamps its hash.
    pub fn keep_all() -> (p: LineageRedactionPolicy)
        ensures
            p.policy_id@ == "corvid.lineage.redaction.keep.v1"@,
            !p.redact_names,
            !p.redact_identifiers,
    {
        LineageRedactionPolicy {
            policy_id: owned("corvid.lineage.redaction.keep.v1"),
            redact_names: false,
            redact_identifiers: false,
        }
    }

    /// The policy for traces that leave production: names and
    /// identifiers are redacted.
    pub fn production_default() -> (p: LineageRedactionPolicy)
        ensures
            p.policy_id@ == "corvid.lineage.redaction.production.v1"@,
            p.redact_names,
            p.redact_identifiers,
    {
        LineageRedactionPolicy {
            policy_id: owned("corvid.lineage.redaction.production.v1"),
            redact_names: true,
            redact_identifiers: true,
        }
    }

    /// The policy's hash (see [`policy_hash_text`]).
    pub fn policy_hash(&self) -> (r: String)
        ensures
            r@ == policy_hash_text(*self),
    {
        let mut text = owned("policy=");
        push_str(&mut text, self.policy_id.as_str());
        push_str(&mut text, ";names=");
        push_str(&mut text, bool_word(self.redact_names));
        push_str(&mut text, ";identifiers=");
        push_str(&mut text, bool_word(self.redact_identifiers));
        assert(text@ =~= policy_text(*self));
        let d = short_digest_of(text.as_str());
        cat("sha256:", d.as_str())
    }
}

impl Default for LineageRedactionPolicy {
    fn default() -> (p: LineageRedactionPolicy)
        ensures
            p.policy_id@ == "corvid.lineage.redaction.keep.v1"@,
            !p.redact_names,
            !p.redact_identifiers,
    {
        LineageRedactionPolicy::keep_all()
    }
}

/// One event redacted under `policy`, whose hash is `policy_hash`.
fn redact_event(e: &LineageEvent, policy: &LineageRedactionPolicy, policy_hash: &String) -> (r: LineageEvent)
    requires
        policy_hash@ == policy_hash_text(*policy),
    ensures
        is_redaction(r, *e, *policy),
{
    LineageEvent {
        schema: e.schema.clone(),
        trace_id: e.trace_id.clone(),
        span_id: e.span_id.clone(),
        parent_span_id: e.parent_span_id.clone(),
        kind: e.kind,
        name: redact_value(&e.name, policy.redact_names),
        status: e.status,
        started_ms: e.started_ms,
        ended_ms: e.ended_ms,
        latency_ms: e.latency_ms,
        cost_micro_usd: e.cost_micro_usd,
        confidence_bits: e.confidence_bits,
        guarantee_id: e.guarantee_id.clone(),
        approval_id: redact_value(&e.approval_id, policy.redact_identifiers),
        replay_key: redact_value(&e.replay_key, policy.redact_identifiers),
        data_classes: copy_strings(&e.data_classes),
        effect_ids: copy_strings(&e.effect_ids),
        model_fingerprint: redact_value(&e.model_fingerprint, policy.redact_identifiers),
        prompt_hash: redact_value(&e.prompt_hash, policy.redact_identifiers),
        retrieval_index_hash: redact_value(&e.retrieval_index_hash, policy.redact_identifiers),
        redaction_policy_hash: policy_hash.clone(),
    }
}

/// Every event redacted under `policy`, in order.
pub fn redact_lineage_events(events: &[LineageEvent], policy: &LineageRedactionPolicy) -> (r: Vec<LineageEvent>)
    ensures
        r@.len() == events@.len(),
        forall|i: int| 0 <= i < r@.len() ==> is_redaction(#[trigger] r@[i], events@[i], *policy),
{
    let hash = policy.policy_hash();
    let mut out: Vec<LineageEvent> = Vec::new();
    let mut i: usize = 0;
    while i < events.len()
        invariant
            i <= events@.len(),
            hash@ == policy_hash_text(*policy),
            out@.len() == i,
            forall|j: int| 0 <= j < i ==> is_redaction(#[trigger] out@[j], events@[j], *policy),
        decreases events.len() - i,
    {
        let r = redact_event(&events[i], policy, &hash);
        out.push(r);
        i = i + 1;
    }
    out
}

/// `rs` is `es` redacted, event by event, under `p`.
pub open spec fn redacted_from(rs: Seq<LineageEvent>, es: Seq<LineageEvent>, p: LineageRedactionPolicy) -> bool {
    rs.len() == es.len() && forall|i: int| 0 <= i < rs.len() ==> is_redaction(#[trigger] rs[i], es[i], p)
}

proof fn lemma_roots_kept(rs: Seq<LineageEvent>, es: Seq<LineageEvent>, p: LineageRedactionPolicy, n: int)
    requires
        redacted_from(rs, es, p),
        n <= rs.len(),
    ensures
        roots_upto(rs, n) == roots_upto(es, n),
    decreases n,
{
    if n > 0 {
        lemma_roots_kept(rs, es, p, n - 1);
        assert(is_redaction(rs[n - 1], es[n - 1], p));
    }
}

proof fn lemma_spans_kept(rs: Seq<LineageEvent>, es: Seq<LineageEvent>, p: LineageRedactionPolicy, span: Seq<char>, n: int)
    requires
        redacted_from(rs, es, p),
    ensures
        has_span(rs, span, n) == has_span(es, span, n),
{
    if has_span(rs, span, n) {
        let j = choose|j: int| 0 <= j < n && j < rs.len() && (#[trigger] rs[j]).span_id@ == span;
        assert(is_redaction(rs[j], es[j], p));
        assert(es[j].span_id@ == span);
    }
    if has_span(es, span, n) {
        let j = choose|j: int| 0 <= j < n && j < es.len() && (#[trigger] es[j]).span_id@ == span;
        assert(is_redaction(rs[j], es[j], p));
        assert(rs[j].span_id@ == span);
    }
}

proof fn lemma_violations_kept(rs: Seq<LineageEvent>, es: Seq<LineageEvent>, p: LineageRedactionPolicy, n: int)
    requires
        redacted_from(rs, es, p),
        n <= rs.len(),
    ensures
        violations_upto(rs, n) == violations_upto(es, n),
    decreases n,
{
    if n > 0 {
        lemma_violations_kept(rs, es, p, n - 1);
        let i = n - 1;
        assert(is_redaction(rs[i], es[i], p));
        assert(is_redaction(rs[0], es[0], p));
        lemma_spans_kept(rs, es, p, rs[i].span_id@, i);
        lemma_spans_kept(rs, es, p, rs[i].parent_span_id@, rs.len() as int);
        assert(event_violations(rs, i) =~= event_violations(es, i));
    }
}

/// Redaction keeps a trace's shape: spans redacted under any policy have
/// exactly the lineage violations of the spans they came from, so a trace
/// is complete after redaction exactly when it was before.
pub proof fn redaction_keeps_lineage_violations(
    rs: Seq<LineageEvent>,
    es: Seq<LineageEvent>,
    p: LineageRedactionPolicy,
)
    requires
        redacted_from(rs, es, p),
    ensures
        lineage_violations(rs) == lineage_violations(es),
{
    lemma_roots_kept(rs, es, p, rs.len() as int);
    lemma_violations_kept(rs, es, p, rs.len() as int);
}

} // verus!
