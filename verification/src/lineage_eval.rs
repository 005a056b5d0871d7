//! Promotion of redacted lineage traces into deterministic eval fixtures.

use vstd::prelude::*;
use crate::errors::views;
use crate::lineage::{kind_label, kind_text, lineage_violations, status_label, status_text, validate_lineage, LineageEvent};
use crate::lineage_redact::{is_redaction, policy_hash_text, redact_lineage_events, short_digest, LineageRedactionPolicy};
use crate::text::{cat, chars_of, dec, lemma_lex_total, lemma_lex_transitive, lex_lt, owned, push_str, string_lt, u64_to_decimal};

verus! {

/// Schema tag of an eval fixture.
pub const LINEAGE_EVAL_FIXTURE_SCHEMA: &'static str = "corvid.eval.lineage_fixture.v1";

/// An eval fixture built from one redacted trace.
pub struct LineageEvalFixture {
    pub schema: String,
    pub trace_id: String,
    pub fixture_hash: String,
    pub redaction_policy_hash: String,
    pub source_event_count: usize,
    pub selected_span_ids: Vec<String>,
    pub expected_guarantee_ids: Vec<String>,
    pub expected_effect_ids: Vec<String>,
    pub replay_keys: Vec<String>,
    pub model_fingerprints: Vec<String>,
    pub prompt_hashes: Vec<String>,
    pub retrieval_index_hashes: Vec<String>,
    pub events: Vec<LineageEvent>,
}

/// Why a trace could not become a fixture.
pub enum LineageEvalPromotionError {
    /// The trace is not well formed; the violations, in order.
    InvalidLineage(Vec<String>),
    /// There are no events.
    EmptyTrace,
    /// Redaction did not stamp a policy hash.
    MissingRedactionPolicyHash,
}

impl LineageEvalPromotionError {
    /// The error's message, as `Display` renders it.
    pub fn message(&self) -> (r: String)
        ensures
            r@ == promotion_error_message(*self),
    {
        match self {
            LineageEvalPromotionError::InvalidLineage(violations) => {
                let joined = crate::errors::join_strings(violations, ", ");
                cat("lineage is incomplete: ", joined.as_str())
            },
            LineageEvalPromotionError::EmptyTrace => owned("lineage trace is empty"),
            LineageEvalPromotionError::MissingRedactionPolicyHash => owned(
                "redacted lineage did not include a redaction policy hash",
            ),
        }
    }
}

pub open spec fn promotion_error_message(e: LineageEvalPromotionError) -> Seq<char> {
    match e {
        LineageEvalPromotionError::InvalidLineage(v) => "lineage is incomplete: "@
            + crate::errors::join(views(v@), ", "@),
        LineageEvalPromotionError::EmptyTrace => "lineage trace is empty"@,
        LineageEvalPromotionError::MissingRedactionPolicyHash =>
            "redacted lineage did not include a redaction policy hash"@,
    }
}

// ---------------------------------------------------------------------
// Sorted, duplicate-free value sets

/// Strictly increasing in lexicographic order (so without duplicates).
pub open spec fn sorted_unique(s: Seq<Seq<char>>) -> bool {
    forall|i: int, j: int| 0 <= i < j < s.len() ==> lex_lt(#[trigger] s[i], #[trigger] s[j])
}

/// `r` lists, in increasing order and once each, the non-empty values of
/// `vals` (what collecting them into a `BTreeSet` yields).
pub open spec fn unique_values(r: Seq<Seq<char>>, vals: Seq<Seq<char>>) -> bool {
    &&& sorted_unique(r)
    &&& forall|x: Seq<char>| r.contains(x) <==> (x.len() > 0 && vals.contains(x))
}

proof fn lemma_push_contains<A>(s: Seq<A>, a: A, x: A)
    ensures
        s.push(a).contains(x) <==> (s.contains(x) || x == a),
{
    if s.contains(x) {
        let k = choose|k: int| 0 <= k < s.len() && s[k] == x;
        assert(s.push(a)[k] == x);
    }
    if x == a {
        assert(s.push(a)[s.len() as int] == x);
    }
    if s.push(a).contains(x) {
        let k = choose|k: int| 0 <= k < s.push(a).len() && s.push(a)[k] == x;
        if k < s.len() {
            assert(s[k] == x);
        }
    }
}

proof fn lemma_insert_contains<A>(s: Seq<A>, p: int, a: A, x: A)
    requires
        0 <= p <= s.len(),
    ensures
        s.insert(p, a).contains(x) <==> (s.contains(x) || x == a),
{
    let t = s.insert(p, a);
    if s.contains(x) {
        let k = choose|k: int| 0 <= k < s.len() && s[k] == x;
        if k < p {
            assert(t[k] == x);
        } else {
            assert(t[k + 1] == x);
        }
    }
    if x == a {
        assert(t[p] == x);
    }
    if t.contains(x) {
        let k = choose|k: int| 0 <= k < t.len() && t[k] == x;
        if k < p {
            assert(s[k] == x);
        } else if k > p {
            assert(s[k - 1] == x);
        }
    }
}

/// The non-empty values, sorted, each once.
pub fn collect_unique(values: &Vec<String>) -> (r: Vec<String>)
    ensures
        unique_values(views(r@), views(values@)),
{
    let mut out: Vec<String> = Vec::new();
    let mut i: usize = 0;
    while i < values.len()
        invariant
            i <= values@.len(),
            unique_values(views(out@), views(values@.take(i as int))),
        decreases values.len() - i,
    {
        let v = &values[i];
        let ghost before = views(out@);
        let ghost vals_next = views(values@.take(i + 1));
        proof {
            assert(vals_next =~= views(values@.take(i as int)).push(v@));
            assert forall|x: Seq<char>| vals_next.contains(x) <==> (views(values@.take(i as int)).contains(x) || x == v@) by {
                lemma_push_contains(views(values@.take(i as int)), v@, x);
            }
        }
        if !v.as_str().is_empty() {
            let mut p: usize = 0;
            while p < out.len() && string_lt(&out[p], v)
                invariant
                    p <= out@.len(),
                    before == views(out@),
                    forall|k: int| 0 <= k < p ==> lex_lt(#[trigger] before[k], v@),
                decreases out.len() - p,
            {
                p = p + 1;
            }
            if p < out.len() && out[p] == *v {
                proof {
                    assert(before[p as int] == v@);
                    assert(before.contains(v@));
                }
            } else {
                let c = v.clone();
                out.insert(p, c);
                proof {
                    let after = views(out@);
                    assert(after =~= before.insert(p as int, v@));
                    if p < before.len() {
                        assert(before[p as int] != v@);
                        assert(!lex_lt(before[p as int], v@));
                        lemma_lex_total(before[p as int], v@);
                    }
                    assert forall|a: int, b: int| 0 <= a < b < after.len() implies lex_lt(
                        #[trigger] after[a],
                        #[trigger] after[b],
                    ) by {
                        if b < p {
                            assert(after[a] == before[a] && after[b] == before[b]);
                        } else if b == p {
                            assert(after[a] == before[a]);
                        } else if a < p {
                            assert(after[a] == before[a] && after[b] == before[b - 1]);
                        } else if a == p {
                            assert(after[b] == before[b - 1]);
                            if b - 1 > p {
                                assert(lex_lt(before[p as int], before[b - 1]));
                                lemma_lex_transitive(v@, before[p as int], before[b - 1]);
                            }
                        } else {
                            assert(after[a] == before[a - 1] && after[b] == before[b - 1]);
                        }
                    }
                    assert forall|x: Seq<char>| after.contains(x) <==> (x.len() > 0
                        && vals_next.contains(x)) by {
                        lemma_insert_contains(before, p as int, v@, x);
                    }
                }
            }
        }
        i = i + 1;
    }
    assert(values@.take(values@.len() as int) =~= values@);
    out
}

// ---------------------------------------------------------------------
// Per-event values

/// Which text field of an event to gather.
#[derive(Clone, Copy)]
enum EventText {
    Span,
    Guarantee,
    Replay,
    Model,
    Prompt,
    Retrieval,
}

spec fn event_text(e: LineageEvent, f: EventText) -> Seq<char> {
    match f {
        EventText::Span => e.span_id@,
        EventText::Guarantee => e.guarantee_id@,
        EventText::Replay => e.replay_key@,
        EventText::Model => e.model_fingerprint@,
        EventText::Prompt => e.prompt_hash@,
        EventText::Retrieval => e.retrieval_index_hash@,
    }
}

/// The given field of each event, in order.
pub open spec fn span_ids(evs: Seq<LineageEvent>) -> Seq<Seq<char>> {
    Seq::new(evs.len(), |i: int| evs[i].span_id@)
}

pub open spec fn guarantee_ids(evs: Seq<LineageEvent>) -> Seq<Seq<char>> {
    Seq::new(evs.len(), |i: int| evs[i].guarantee_id@)
}

pub open spec fn replay_keys(evs: Seq<LineageEvent>) -> Seq<Seq<char>> {
    Seq::new(evs.len(), |i: int| evs[i].replay_key@)
}

pub open spec fn model_fingerprints(evs: Seq<LineageEvent>) -> Seq<Seq<char>> {
    Seq::new(evs.len(), |i: int| evs[i].model_fingerprint@)
}

pub open spec fn prompt_hashes(evs: Seq<LineageEvent>) -> Seq<Seq<char>> {
    Seq::new(evs.len(), |i: int| evs[i].prompt_hash@)
}

pub open spec fn retrieval_index_hashes(evs: Seq<LineageEvent>) -> Seq<Seq<char>> {
    Seq::new(evs.len(), |i: int| evs[i].retrieval_index_hash@)
}

/// The effect ids of all events, one event after the other.
pub open spec fn effect_ids(evs: Seq<LineageEvent>) -> Seq<Seq<char>>
    decreases evs.len(),
{
    if evs.len() == 0 {
        Seq::empty()
    } else {
        effect_ids(evs.drop_last()) + views(evs.last().effect_ids@)
    }
}

fn text_of(e: &LineageEvent, f: EventText) -> (r: &String)
    ensures
        r@ == event_text(*e, f),
{
    match f {
        EventText::Span => &e.span_id,
        EventText::Guarantee => &e.guarantee_id,
        EventText::Replay => &e.replay_key,
        EventText::Model => &e.model_fingerprint,
        EventText::Prompt => &e.prompt_hash,
        EventText::Retrieval => &e.retrieval_index_hash,
    }
}

fn gather(events: &Vec<LineageEvent>, f: EventText) -> (r: Vec<String>)
    ensures
        views(r@) == Seq::new(events@.len(), |i: int| event_text(events@[i], f)),
{
    let mut out: Vec<String> = Vec::new();
    let mut i: usize = 0;
    while i < events.len()
        invariant
            i <= events@.len(),
            views(out@) == Seq::new(i as nat, |k: int| event_text(events@[k], f)),
        decreases events.len() - i,
    {
        let ghost prev = views(out@);
        let t = text_of(&events[i], f).clone();
        out.push(t);
        assert(views(out@) =~= prev.push(event_text(events@[i as int], f)));
        i = i + 1;
        assert(views(out@) =~= Seq::new(i as nat, |k: int| event_text(events@[k], f)));
    }
    out
}

fn gather_effects(events: &Vec<LineageEvent>) -> (r: Vec<String>)
    ensures
        views(r@) == effect_ids(events@),
{
    let mut out: Vec<String> = Vec::new();
    let mut i: usize = 0;
    while i < events.len()
        invariant
            i <= events@.len(),
            views(out@) == effect_ids(events@.take(i as int)),
        decreases events.len() - i,
    {
        let ids = &events[i].effect_ids;
        let ghost start = views(out@);
        let mut j: usize = 0;
        while j < ids.len()
            invariant
                j <= ids@.len(),
                views(out@) == start + views(ids@.take(j as int)),
            decreases ids.len() - j,
        {
            let ghost prev = views(out@);
            let t = ids[j].clone();
            out.push(t);
            assert(views(out@) =~= prev.push(ids@[j as int]@));
            assert(views(ids@.take(j + 1)) =~= views(ids@.take(j as int)).push(ids@[j as int]@));
            j = j + 1;
            assert(views(out@) =~= start + views(ids@.take(j as int)));
        }
        proof {
            assert(ids@.take(ids@.len() as int) =~= ids@);
            assert(events@.take(i + 1).drop_last() =~= events@.take(i as int));
        }
        i = i + 1;
    }
    assert(events@.take(events@.len() as int) =~= events@);
    out
}

// ---------------------------------------------------------------------
// Canonical text of a fixture, which its hash covers

/// A text field: its length in characters, `:`, the text.
pub open spec fn field(s: Seq<char>) -> Seq<char> {
    dec(s.len()) + ":"@ + s
}

/// A number field: its decimal digits and `;`.
pub open spec fn number(n: nat) -> Seq<char> {
    dec(n) + ";"@
}

pub open spec fn fields(v: Seq<Seq<char>>) -> Seq<char>
    decreases v.len(),
{
    if v.len() == 0 {
        Seq::empty()
    } else {
        fields(v.drop_last()) + field(v.last())
    }
}

/// A list field: its length, `#`, each entry as a text field.
pub open spec fn list(v: Seq<Seq<char>>) -> Seq<char> {
    dec(v.len()) + "#"@ + fields(v)
}

/// Canonical text of one event: every field, in declaration order.
pub open spec fn event_canonical(e: LineageEvent) -> Seq<char> {
    field(e.schema@) + field(e.trace_id@) + field(e.span_id@) + field(e.parent_span_id@) + field(
        kind_text(e.kind),
    ) + field(e.name@) + field(status_text(e.status)) + number(e.started_ms as nat) + number(
        e.ended_ms as nat,
    ) + number(e.latency_ms as nat) + number(e.cost_micro_usd as nat) + event_canonical_tail(e)
}

pub open spec fn event_canonical_tail(e: LineageEvent) -> Seq<char> {
    field(e.guarantee_id@) + field(e.approval_id@) + field(e.replay_key@) + list(
        views(e.data_classes@),
    ) + list(views(e.effect_ids@)) + field(e.model_fingerprint@) + field(e.prompt_hash@) + field(
        e.retrieval_index_hash@,
    ) + field(e.redaction_policy_hash@)
}

pub open spec fn events_canonical(evs: Seq<LineageEvent>) -> Seq<char>
    decreases evs.len(),
{
    if evs.len() == 0 {
        Seq::empty()
    } else {
        events_canonical(evs.drop_last()) + event_canonical(evs.last())
    }
}

/// Canonical text of a fixture: every field but the fixture hash, in
/// declaration order.
pub open spec fn fixture_canonical(f: LineageEvalFixture) -> Seq<char> {
    field(f.schema@) + field(f.trace_id@) + field(f.redaction_policy_hash@) + number(
        f.source_event_count as nat,
    ) + list(views(f.selected_span_ids@)) + list(views(f.expected_guarantee_ids@)) + list(
        views(f.expected_effect_ids@),
    ) + list(views(f.replay_keys@)) + list(views(f.model_fingerprints@)) + list(
        views(f.prompt_hashes@),
    ) + list(views(f.retrieval_index_hashes@)) + number(f.events@.len()) + events_canonical(
        f.events@,
    )
}

/// The fixture hash: `"sha256:"` and the short digest of the canonical
/// text.
pub open spec fn fixture_hash_text(f: LineageEvalFixture) -> Seq<char> {
    "sha256:"@ + short_digest(fixture_canonical(f))
}

fn put(out: &mut String, s: &str)
    ensures
        final(out)@ == old(out)@ + s@,
{
    push_str(out, s)
}

fn put_number(out: &mut String, n: u64)
    ensures
        final(out)@ == old(out)@ + number(n as nat),
{
    let d = u64_to_decimal(n);
    put(out, d.as_str());
    put(out, ";");
}

fn put_field(out: &mut String, s: &str)
    ensures
        final(out)@ == old(out)@ + field(s@),
{
    let n = chars_of(s).len();
    let d = u64_to_decimal(n as u64);
    put(out, d.as_str());
    put(out, ":");
    put(out, s);
}

fn put_list(out: &mut String, v: &Vec<String>)
    ensures
        final(out)@ == old(out)@ + list(views(v@)),
{
    let d = u64_to_decimal(v.len() as u64);
    put(out, d.as_str());
    put(out, "#");
    let ghost start = out@;
    let mut i: usize = 0;
    while i < v.len()
        invariant
            i <= v@.len(),
            out@ == start + fields(views(v@.take(i as int))),
        decreases v.len() - i,
    {
        put_field(out, v[i].as_str());
        proof {
            assert(views(v@.take(i + 1)).drop_last() =~= views(v@.take(i as int)));
        }
        i = i + 1;
        assert(out@ =~= start + fields(views(v@.take(i as int))));
    }
    assert(v@.take(v@.len() as int) =~= v@);
    assert(out@ =~= old(out)@ + list(views(v@)));
}

fn put_event_tail(out: &mut String, e: &LineageEvent)
    ensures
        final(out)@ == old(out)@ + event_canonical_tail(*e),
{
    put_field(out, e.guarantee_id.as_str());
    put_field(out, e.approval_id.as_str());
    put_field(out, e.replay_key.as_str());
    put_list(out, &e.data_classes);
    put_list(out, &e.effect_ids);
    put_field(out, e.model_fingerprint.as_str());
    put_field(out, e.prompt_hash.as_str());
    put_field(out, e.retrieval_index_hash.as_str());
    put_field(out, e.redaction_policy_hash.as_str());
    assert(final(out)@ =~= old(out)@ + event_canonical_tail(*e));
}

fn put_event(out: &mut String, e: &LineageEvent)
    ensures
        final(out)@ == old(out)@ + event_canonical(*e),
{
    put_field(out, e.schema.as_str());
    put_field(out, e.trace_id.as_str());
    put_field(out, e.span_id.as_str());
    put_field(out, e.parent_span_id.as_str());
    put_field(out, kind_label(e.kind));
    put_field(out, e.name.as_str());
    put_field(out, status_label(e.status));
    put_number(out, e.started_ms);
    put_number(out, e.ended_ms);
    put_number(out, e.latency_ms);
    put_number(out, e.cost_micro_usd);
    put_event_tail(out, e);
    assert(final(out)@ =~= old(out)@ + event_canonical(*e));
}

fn put_fixture_head(out: &mut String, f: &LineageEvalFixture)
    ensures
        final(out)@ == old(out)@ + field(f.schema@) + field(f.trace_id@) + field(
            f.redaction_policy_hash@,
        ) + number(f.source_event_count as nat) + list(views(f.selected_span_ids@)) + list(
            views(f.expected_guarantee_ids@),
        ) + list(views(f.expected_effect_ids@)) + list(views(f.replay_keys@)) + list(
            views(f.model_fingerprints@),
        ) + list(views(f.prompt_hashes@)) + list(views(f.retrieval_index_hashes@)),
{
    put_field(out, f.schema.as_str());
    put_field(out, f.trace_id.as_str());
    put_field(out, f.redaction_policy_hash.as_str());
    put_number(out, f.source_event_count as u64);
    put_list(out, &f.selected_span_ids);
    put_list(out, &f.expected_guarantee_ids);
    put_list(out, &f.expected_effect_ids);
    put_list(out, &f.replay_keys);
    put_list(out, &f.model_fingerprints);
    put_list(out, &f.prompt_hashes);
    put_list(out, &f.retrieval_index_hashes);
}

/// The canonical text of a fixture (see [`fixture_canonical`]).
#[verifier::rlimit(40)]
fn canonical_text(f: &LineageEvalFixture) -> (r: String)
    ensures
        r@ == fixture_canonical(*f),
{
    let mut out = String::new();
    put_fixture_head(&mut out, f);
    put_number(&mut out, f.events.len() as u64);
    let ghost start = out@;
    let mut i: usize = 0;
    while i < f.events.len()
        invariant
            i <= f.events@.len(),
            out@ == start + events_canonical(f.events@.take(i as int)),
        decreases f.events.len() - i,
    {
        put_event(&mut out, &f.events[i]);
        proof {
            assert(f.events@.take(i + 1).drop_last() =~= f.events@.take(i as int));
        }
        i = i + 1;
        assert(out@ =~= start + events_canonical(f.events@.take(i as int)));
    }
    assert(f.events@.take(f.events@.len() as int) =~= f.events@);
    assert(out@ =~= fixture_canonical(*f));
    out
}

/// The hash of a fixture's content (see [`fixture_hash_text`]); the
/// stored `fixture_hash` itself is not part of it.
pub fn lineage_eval_fixture_hash(fixture: &LineageEvalFixture) -> (r: String)
    ensures
        r@ == fixture_hash_text(*fixture),
{
    let text = canonical_text(fixture);
    let d = crate::lineage_redact::short_digest_of(text.as_str());
    cat("sha256:", d.as_str())
}

// ---------------------------------------------------------------------
// Promotion

/// `f` is the fixture of the trace `evs` under policy `p`: its events
/// are the redacted events, its lists are collected from them, and its
/// hash covers the rest of it.
pub open spec fn is_fixture_of(f: LineageEvalFixture, evs: Seq<LineageEvent>, p: LineageRedactionPolicy) -> bool {
    &&& f.schema@ == LINEAGE_EVAL_FIXTURE_SCHEMA@
    &&& f.trace_id@ == evs[0].trace_id@
    &&& f.redaction_policy_hash@ == policy_hash_text(p)
    &&& f.source_event_count == evs.len()
    &&& f.events@.len() == evs.len()
    &&& forall|i: int| 0 <= i < evs.len() ==> is_redaction(#[trigger] f.events@[i], evs[i], p)
    &&& views(f.selected_span_ids@) == span_ids(f.events@)
    &&& unique_values(views(f.expected_guarantee_ids@), guarantee_ids(f.events@))
    &&& unique_values(views(f.expected_effect_ids@), effect_ids(f.events@))
    &&& unique_values(views(f.replay_keys@), replay_keys(f.events@))
    &&& unique_values(views(f.model_fingerprints@), model_fingerprints(f.events@))
    &&& unique_values(views(f.prompt_hashes@), prompt_hashes(f.events@))
    &&& unique_values(views(f.retrieval_index_hashes@), retrieval_index_hashes(f.events@))
    &&& f.fixture_hash@ == fixture_hash_text(f)
}

/// Turns a complete trace into an eval fixture: empty traces and
/// incomplete ones are refused; otherwise the events are redacted under
/// `policy` and summarised.
pub fn promote_lineage_events_to_eval(events: &[LineageEvent], policy: &LineageRedactionPolicy) -> (r:
    Result<LineageEvalFixture, LineageEvalPromotionError>)
    ensures
        events@.len() == 0 ==> r is Err && r->Err_0 is EmptyTrace,
        events@.len() > 0 && lineage_violations(events@).len() > 0 ==> (r matches Err(
            LineageEvalPromotionError::InvalidLineage(v),
        ) && views(v@) == lineage_violations(events@)),
        events@.len() > 0 && lineage_violations(events@).len() == 0 ==> (r matches Ok(f)
            && is_fixture_of(f, events@, *policy)),
{
    if events.len() == 0 {
        return Err(LineageEvalPromotionError::EmptyTrace);
    }
    let validation = validate_lineage(events);
    if !validation.complete {
        proof {
            assert(views(validation.violations@) =~= validation.violations@.map_values(
                |s: String| s@,
            ));
        }
        return Err(LineageEvalPromotionError::InvalidLineage(validation.violations));
    }
    let redacted = redact_lineage_events(events, policy);
    let policy_hash = redacted[0].redaction_policy_hash.clone();
    if policy_hash.as_str().is_empty() {
        proof {
            reveal_strlit("sha256:");
        }
        return Err(LineageEvalPromotionError::MissingRedactionPolicyHash);
    }
    let trace_id = redacted[0].trace_id.clone();
    let spans = gather(&redacted, EventText::Span);
    let guarantees = collect_unique(&gather(&redacted, EventText::Guarantee));
    let effects = collect_unique(&gather_effects(&redacted));
    let replays = collect_unique(&gather(&redacted, EventText::Replay));
    let models = collect_unique(&gather(&redacted, EventText::Model));
    let prompts = collect_unique(&gather(&redacted, EventText::Prompt));
    let retrievals = collect_unique(&gather(&redacted, EventText::Retrieval));
    let mut fixture = LineageEvalFixture {
        schema: owned(LINEAGE_EVAL_FIXTURE_SCHEMA),
        trace_id,
        fixture_hash: String::new(),
        redaction_policy_hash: policy_hash,
        source_event_count: events.len(),
        selected_span_ids: spans,
        expected_guarantee_ids: guarantees,
        expected_effect_ids: effects,
        replay_keys: replays,
        model_fingerprints: models,
        prompt_hashes: prompts,
        retrieval_index_hashes: retrievals,
        events: redacted,
    };
    let hash = lineage_eval_fixture_hash(&fixture);
    fixture.fixture_hash = hash;
    proof {
        assert(span_ids(fixture.events@) =~= Seq::new(fixture.events@.len(), |i: int| event_text(fixture.events@[i], EventText::Span)));
        assert(guarantee_ids(fixture.events@) =~= Seq::new(fixture.events@.len(), |i: int| event_text(fixture.events@[i], EventText::Guarantee)));
        assert(replay_keys(fixture.events@) =~= Seq::new(fixture.events@.len(), |i: int| event_text(fixture.events@[i], EventText::Replay)));
        assert(model_fingerprints(fixture.events@) =~= Seq::new(fixture.events@.len(), |i: int| event_text(fixture.events@[i], EventText::Model)));
        assert(prompt_hashes(fixture.events@) =~= Seq::new(fixture.events@.len(), |i: int| event_text(fixture.events@[i], EventText::Prompt)));
        assert(retrieval_index_hashes(fixture.events@) =~= Seq::new(fixture.events@.len(), |i: int| event_text(fixture.events@[i], EventText::Retrieval)));
    }
    Ok(fixture)
}

} // verus!
