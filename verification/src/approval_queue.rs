//! The approval queue: contracts, queued approvals and their audit trail,
//! with the transitions approvers may make.
//!
//! Every operation either succeeds and appends exactly one audit event, or
//! fails and leaves the queue as it was (the transaction is rolled back).
//! Times are passed in by the caller.

use vstd::prelude::*;
use crate::approval_authorization::{authorize_approval_delegate_target, authorize_approval_transition, delegate_target_refusal, transition_refusal, ApprovalActorContext, ApprovalTransitionKind};
use crate::approval_policy::{policy_violations, validate_approval_contract_policy_at};
use crate::approval_records::{opt_owned, ApprovalAuditCoverage, ApprovalContractRecord, ApprovalCreate, ApprovalQueueAuditEvent, ApprovalQueueRecord};
use crate::auth_store::now_ms;
use crate::errors::{join, join_strings, other, refused_as, views, RuntimeError};
use crate::floatbits::{bits_is_finite, bits_is_negative, is_finite, is_negative};
use crate::text::{blank, cat, cat3, dec, is_blank, lex_lt, owned, push_str, str_eq, string_lt, u64_to_decimal};

verus! {

pub struct ApprovalQueueRuntime {
    contracts: Vec<ApprovalContractRecord>,
    approvals: Vec<ApprovalQueueRecord>,
    audit: Vec<ApprovalQueueAuditEvent>,
}

/// The queue's three tables: contracts, approvals (in insertion order) and
/// audit events (in insertion order).
pub type QueueState = (Seq<ApprovalContractRecord>, Seq<ApprovalQueueRecord>, Seq<ApprovalQueueAuditEvent>);

impl View for ApprovalQueueRuntime {
    type V = QueueState;

    closed spec fn view(&self) -> QueueState {
        (self.contracts@, self.approvals@, self.audit@)
    }
}

pub open spec fn opt_view(o: Option<String>) -> Option<Seq<char>> {
    match o {
        Some(s) => Some(s@),
        None => None,
    }
}

pub open spec fn opt_str_view(o: Option<&str>) -> Option<Seq<char>> {
    match o {
        Some(s) => Some(s@),
        None => None,
    }
}

/// Index of the approval with id `id`, or -1.
pub open spec fn find_approval(s: Seq<ApprovalQueueRecord>, id: Seq<char>) -> int
    decreases s.len(),
{
    if s.len() == 0 {
        -1
    } else if s.last().id@ == id {
        s.len() - 1
    } else {
        find_approval(s.drop_last(), id)
    }
}

/// Whether some audit event has id `id`.
pub open spec fn audit_id_taken(s: Seq<ApprovalQueueAuditEvent>, id: Seq<char>) -> bool {
    exists|i: int| 0 <= i < s.len() && (#[trigger] s[i]).id@ == id
}

/// Index of the contract `(id, version)`, or -1.
pub open spec fn find_contract(s: Seq<ApprovalContractRecord>, id: Seq<char>, version: Seq<char>) -> int
    decreases s.len(),
{
    if s.len() == 0 {
        -1
    } else if s.last().id@ == id && s.last().version@ == version {
        s.len() - 1
    } else {
        find_contract(s.drop_last(), id, version)
    }
}

/// The id an audit event gets: `{approval}:audit:{ms}:{kind}`.
pub open spec fn audit_id(approval_id: Seq<char>, at_ms: u64, kind: Seq<char>) -> Seq<char> {
    approval_id + ":audit:"@ + dec(at_ms as nat) + ":"@ + kind
}

pub open spec fn must_not_be_empty(label: Seq<char>) -> Seq<char> {
    label + " must not be empty"@
}

pub open spec fn not_found(id: Seq<char>) -> Seq<char> {
    "approval `"@ + id + "` not found"@
}

pub open spec fn not_pending(id: Seq<char>) -> Seq<char> {
    "approval `"@ + id + "` is not pending"@
}

pub open spec fn unique_audit_failure() -> Seq<char> {
    "approval queue sqlite error: UNIQUE constraint failed: approval_queue_audit.id"@
}

pub open spec fn unique_approval_failure() -> Seq<char> {
    "approval queue sqlite error: UNIQUE constraint failed: approval_queue.id"@
}

/// The audit event an operation appends.
pub open spec fn is_audit_event(
    e: ApprovalQueueAuditEvent,
    approval_id: Seq<char>,
    tenant_id: Seq<char>,
    actor_id: Seq<char>,
    kind: Seq<char>,
    before: Seq<char>,
    after: Seq<char>,
    reason: Option<Seq<char>>,
    trace_id: Seq<char>,
    at_ms: u64,
) -> bool {
    &&& e.id@ == audit_id(approval_id, at_ms, kind)
    &&& e.approval_id@ == approval_id
    &&& e.tenant_id@ == tenant_id
    &&& e.actor_id@ == actor_id
    &&& e.event_kind@ == kind
    &&& e.status_before@ == before
    &&& e.status_after@ == after
    &&& opt_view(e.reason) == reason
    &&& e.trace_id@ == trace_id
    &&& e.created_ms == at_ms
}

/// Why `input` is malformed, if it is.
pub open spec fn create_input_refusal(input: ApprovalCreate) -> Option<Seq<char>> {
    if blank(input.id@) {
        Some(must_not_be_empty("approval id"@))
    } else if blank(input.tenant_id@) {
        Some(must_not_be_empty("tenant id"@))
    } else if blank(input.requester_actor_id@) {
        Some(must_not_be_empty("requester actor id"@))
    } else if blank(input.contract.id@) {
        Some(must_not_be_empty("contract id"@))
    } else if blank(input.contract.version@) {
        Some(must_not_be_empty("contract version"@))
    } else if blank(input.contract.action@) {
        Some(must_not_be_empty("action"@))
    } else if blank(input.contract.target_kind@) {
        Some(must_not_be_empty("target kind"@))
    } else if blank(input.contract.target_id@) {
        Some(must_not_be_empty("target id"@))
    } else if blank(input.contract.required_role@) {
        Some(must_not_be_empty("required role"@))
    } else if blank(input.risk_level@) {
        Some(must_not_be_empty("risk level"@))
    } else if blank(input.trace_id@) {
        Some(must_not_be_empty("trace id"@))
    } else if blank(input.contract.replay_key@) {
        Some(must_not_be_empty("replay key"@))
    } else if !is_finite(input.contract.max_cost_usd_bits) || is_negative(
        input.contract.max_cost_usd_bits,
    ) {
        Some("approval max cost must be finite and non-negative"@)
    } else {
        None
    }
}

/// Why queueing `input` at `now` fails, if it does.
pub open spec fn create_refusal(q: QueueState, input: ApprovalCreate, now: u64) -> Option<Seq<char>> {
    if create_input_refusal(input) is Some {
        create_input_refusal(input)
    } else if input.tenant_id@ != input.contract.tenant_id@ {
        Some("approval tenant must match contract tenant"@)
    } else if policy_violations(input.contract, now).len() > 0 {
        Some(
            "approval contract policy violation: "@ + join(
                policy_violations(input.contract, now),
                ","@,
            ),
        )
    } else if find_approval(q.1, input.id@) >= 0 {
        Some(unique_approval_failure())
    } else if audit_id_taken(q.2, audit_id(input.id@, now, "created"@)) {
        Some(unique_audit_failure())
    } else {
        None
    }
}

/// The approval queued from `input` at `now`.
pub open spec fn is_created_record(r: ApprovalQueueRecord, input: ApprovalCreate, now: u64) -> bool {
    &&& r.id@ == input.id@
    &&& r.tenant_id@ == input.tenant_id@
    &&& r.requester_actor_id@ == input.requester_actor_id@
    &&& r.approver_actor_id is None
    &&& r.delegated_to_actor_id is None
    &&& r.contract_id@ == input.contract.id@
    &&& r.contract_version@ == input.contract.version@
    &&& r.action@ == input.contract.action@
    &&& r.target_kind@ == input.contract.target_kind@
    &&& r.target_id@ == input.contract.target_id@
    &&& r.status@ == "pending"@
    &&& r.required_role@ == input.contract.required_role@
    &&& r.risk_level@ == input.risk_level@
    &&& r.data_class@ == input.contract.data_class@
    &&& r.irreversible == input.contract.irreversible
    &&& r.max_cost_usd_bits == input.contract.max_cost_usd_bits
    &&& r.expires_ms == input.contract.expires_ms
    &&& r.trace_id@ == input.trace_id@
    &&& r.replay_key@ == input.contract.replay_key@
    &&& r.created_ms == now
    &&& r.updated_ms == now
}

/// The contracts table after upserting `c` at `now`: an existing
/// `(id, version)` row keeps its creation time and takes every other field
/// of `c`; a new row is created at `now`.
pub open spec fn contracts_after_upsert(
    before: Seq<ApprovalContractRecord>,
    after: Seq<ApprovalContractRecord>,
    c: ApprovalContractRecord,
    now: u64,
) -> bool {
    let i = find_contract(before, c.id@, c.version@);
    if i >= 0 {
        after == before.update(i, ApprovalContractRecord { created_ms: before[i].created_ms, ..c })
    } else {
        after == before.push(ApprovalContractRecord { created_ms: now, ..c })
    }
}

/// Why the approval `id` of tenant `tenant` cannot be looked up, if it can't.
pub open spec fn tenant_refusal(q: QueueState, id: Seq<char>, tenant: Seq<char>) -> Option<Seq<char>> {
    if blank(id) {
        Some(must_not_be_empty("approval id"@))
    } else if blank(tenant) {
        Some(must_not_be_empty("tenant id"@))
    } else if find_approval(q.1, id) < 0 {
        Some(not_found(id))
    } else if q.1[find_approval(q.1, id)].tenant_id@ != tenant {
        Some("approval tenant mismatch"@)
    } else {
        None
    }
}

/// Why the approval `id` of tenant `tenant` is not open for decision, if
/// it is not.
pub open spec fn pending_refusal(q: QueueState, id: Seq<char>, tenant: Seq<char>) -> Option<Seq<char>> {
    if tenant_refusal(q, id, tenant) is Some {
        tenant_refusal(q, id, tenant)
    } else if q.1[find_approval(q.1, id)].status@ != "pending"@ {
        Some(not_pending(id))
    } else {
        None
    }
}

/// Why `actor` cannot move the approval to `status` (event `kind`) at `at`.
pub open spec fn decision_refusal(
    q: QueueState,
    id: Seq<char>,
    tenant: Seq<char>,
    actor: ApprovalActorContext,
    transition: ApprovalTransitionKind,
    kind: Seq<char>,
    at: u64,
) -> Option<Seq<char>> {
    if pending_refusal(q, id, tenant) is Some {
        pending_refusal(q, id, tenant)
    } else if transition_refusal(q.1[find_approval(q.1, id)], actor, transition, at) is Some {
        transition_refusal(q.1[find_approval(q.1, id)], actor, transition, at)
    } else if audit_id_taken(q.2, audit_id(id, at, kind)) {
        Some(unique_audit_failure())
    } else {
        None
    }
}

/// `after` is `before` with a decision recorded.
pub open spec fn is_decided(
    before: ApprovalQueueRecord,
    after: ApprovalQueueRecord,
    status: Seq<char>,
    approver: Seq<char>,
    at: u64,
) -> bool {
    &&& after.status@ == status
    &&& after.approver_actor_id is Some
    &&& after.approver_actor_id->0@ == approver
    &&& after.updated_ms == at
    &&& after == ApprovalQueueRecord {
        status: after.status,
        approver_actor_id: after.approver_actor_id,
        updated_ms: at,
        ..before
    }
}

/// A successful decision on approval `id`.
pub open spec fn decision_recorded(
    before: QueueState,
    after: QueueState,
    rec: ApprovalQueueRecord,
    id: Seq<char>,
    tenant: Seq<char>,
    actor_id: Seq<char>,
    kind: Seq<char>,
    status: Seq<char>,
    reason: Option<Seq<char>>,
    at: u64,
) -> bool {
    let i = find_approval(before.1, id);
    &&& 0 <= i < before.1.len()
    &&& is_decided(before.1[i], rec, status, actor_id, at)
    &&& after.0 == before.0
    &&& after.1 == before.1.update(i, rec)
    &&& after.2.len() == before.2.len() + 1
    &&& after.2.take(before.2.len() as int) == before.2
    &&& is_audit_event(
        after.2.last(),
        id,
        tenant,
        actor_id,
        kind,
        "pending"@,
        status,
        reason,
        before.1[i].trace_id@,
        at,
    )
}

/// Why expiring the approval at `at` fails, if it does.
pub open spec fn expire_refusal(
    q: QueueState,
    id: Seq<char>,
    tenant: Seq<char>,
    actor_id: Seq<char>,
    at: u64,
) -> Option<Seq<char>> {
    if pending_refusal(q, id, tenant) is Some {
        pending_refusal(q, id, tenant)
    } else if at < q.1[find_approval(q.1, id)].expires_ms {
        Some("approval cannot expire before contract expiry"@)
    } else if blank(actor_id) {
        Some(must_not_be_empty("actor id"@))
    } else if audit_id_taken(q.2, audit_id(id, at, "expired"@)) {
        Some(unique_audit_failure())
    } else {
        None
    }
}

/// What queueing `input` at time `now` comes to: the refusal and an
/// unchanged queue, or the new pending record, its contract stored and one
/// `created` audit event more.
pub open spec fn create_outcome(
    pre: QueueState,
    post: QueueState,
    input: ApprovalCreate,
    now: u64,
    r: Result<ApprovalQueueRecord, RuntimeError>,
) -> bool {
    &&& refused_as(r, create_refusal(pre, input, now))
    &&& (r is Err ==> post == pre)
    &&& (r matches Ok(rec) ==> {
        &&& is_created_record(rec, input, now)
        &&& contracts_after_upsert(pre.0, post.0, input.contract, now)
        &&& post.1 == pre.1.push(rec)
        &&& post.2.len() == pre.2.len() + 1
        &&& post.2.drop_last() == pre.2
        &&& is_audit_event(
            post.2.last(),
            input.id@,
            input.tenant_id@,
            input.requester_actor_id@,
            "created"@,
            Seq::empty(),
            "pending"@,
            Some("approval created"@),
            input.trace_id@,
            now,
        )
    })
}

/// What an approver's decision (`kind` is both the event and the new
/// status) on approval `id` at `at` comes to.
pub open spec fn decision_outcome(
    pre: QueueState,
    post: QueueState,
    id: &str,
    tenant_id: &str,
    actor: ApprovalActorContext,
    transition: ApprovalTransitionKind,
    kind: Seq<char>,
    reason: Option<Seq<char>>,
    at: u64,
    r: Result<ApprovalQueueRecord, RuntimeError>,
) -> bool {
    &&& refused_as(r, decision_refusal(pre, id@, tenant_id@, actor, transition, kind, at))
    &&& (r is Err ==> post == pre)
    &&& (r matches Ok(rec) ==> decision_recorded(pre, post, rec, id@, tenant_id@, actor.actor_id@, kind, kind, reason, at))
}

/// What a comment on approval `id` at time `now` comes to: the refusal and
/// an unchanged queue, or the queue with one `commented` audit event more.
pub open spec fn comment_outcome(
    pre: QueueState,
    post: QueueState,
    id: &str,
    tenant_id: &str,
    actor_id: &str,
    comment: &str,
    now: u64,
    r: Result<ApprovalQueueAuditEvent, RuntimeError>,
) -> bool {
    &&& (refused_as(r, comment_refusal(pre, id@, tenant_id@, comment@, now)))
    &&& (r is Err ==> post == pre)
    &&& (r matches Ok(e) ==> {
        let rec = pre.1[find_approval(pre.1, id@)];
        &&& post.0 == pre.0
        &&& post.1 == pre.1
        &&& post.2 == pre.2.push(e)
        &&& is_audit_event(
            e,
            id@,
            tenant_id@,
            actor_id@,
            "commented"@,
            rec.status@,
            rec.status@,
            Some(comment@),
            rec.trace_id@,
            now,
        )
    }
    )
}

/// What delegating approval `id` to `delegated_to_actor_id` at time `now`
/// comes to: the refusal and an unchanged queue, or the record handed over
/// with one `delegated` audit event more.
pub open spec fn delegate_outcome(
    pre: QueueState,
    post: QueueState,
    id: &str,
    tenant_id: &str,
    actor: &ApprovalActorContext,
    delegated_to_actor_id: &str,
    reason: Option<&str>,
    now: u64,
    r: Result<ApprovalQueueRecord, RuntimeError>,
) -> bool {
    &&& (refused_as(
        r,
        delegate_refusal(pre, id@, tenant_id@, *actor, delegated_to_actor_id@, now),
    )
    )
    &&& (r is Err ==> post == pre)
    &&& (r matches Ok(rec) ==> {
        let i = find_approval(pre.1, id@);
        let before = pre.1[i];
        &&& 0 <= i < pre.1.len()
        &&& rec.delegated_to_actor_id is Some
        &&& rec.delegated_to_actor_id->0@ == delegated_to_actor_id@
        &&& rec == ApprovalQueueRecord {
            delegated_to_actor_id: rec.delegated_to_actor_id,
            updated_ms: now,
            ..before
        }
        &&& post.0 == pre.0
        &&& post.1 == pre.1.update(i, rec)
        &&& post.2.len() == pre.2.len() + 1
        &&& post.2.drop_last() == pre.2
        &&& is_audit_event(
            post.2.last(),
            id@,
            tenant_id@,
            actor.actor_id@,
            "delegated"@,
            before.status@,
            before.status@,
            opt_str_view(reason),
            before.trace_id@,
            now,
        )
    }
    )
}

/// What expiring approval `id` at `at` comes to: the refusal and an
/// unchanged queue, or the record expired with one `expired` audit event
/// more.
pub open spec fn expire_outcome(
    pre: QueueState,
    post: QueueState,
    id: &str,
    tenant_id: &str,
    actor_id: &str,
    reason: Option<&str>,
    at: u64,
    r: Result<ApprovalQueueRecord, RuntimeError>,
) -> bool {
    &&& refused_as(r, expire_refusal(pre, id@, tenant_id@, actor_id@, at))
    &&& (r is Err ==> post == pre)
    &&& (r matches Ok(rec) ==> decision_recorded(
        pre,
        post,
        rec,
        id@,
        tenant_id@,
        actor_id@,
        "expired"@,
        "expired"@,
        opt_str_view(reason),
        at,
    ))
}

/// Why commenting fails, if it does.
pub open spec fn comment_refusal(
    q: QueueState,
    id: Seq<char>,
    tenant: Seq<char>,
    comment: Seq<char>,
    now: u64,
) -> Option<Seq<char>> {
    if blank(comment) {
        Some(must_not_be_empty("comment"@))
    } else if tenant_refusal(q, id, tenant) is Some {
        tenant_refusal(q, id, tenant)
    } else if audit_id_taken(q.2, audit_id(id, now, "commented"@)) {
        Some(unique_audit_failure())
    } else {
        None
    }
}

/// Why delegating fails, if it does.
pub open spec fn delegate_refusal(
    q: QueueState,
    id: Seq<char>,
    tenant: Seq<char>,
    actor: ApprovalActorContext,
    target: Seq<char>,
    now: u64,
) -> Option<Seq<char>> {
    if blank(target) {
        Some(must_not_be_empty("delegated actor id"@))
    } else if pending_refusal(q, id, tenant) is Some {
        pending_refusal(q, id, tenant)
    } else if transition_refusal(
        q.1[find_approval(q.1, id)],
        actor,
        ApprovalTransitionKind::Delegate,
        now,
    ) is Some {
        transition_refusal(q.1[find_approval(q.1, id)], actor, ApprovalTransitionKind::Delegate, now)
    } else if delegate_target_refusal(q.1[find_approval(q.1, id)], target) is Some {
        delegate_target_refusal(q.1[find_approval(q.1, id)], target)
    } else if audit_id_taken(q.2, audit_id(id, now, "delegated"@)) {
        Some(unique_audit_failure())
    } else {
        None
    }
}

/// The audit events of approval `id`, in the order they were written.
pub open spec fn events_for(s: Seq<ApprovalQueueAuditEvent>, id: Seq<char>) -> Seq<
    ApprovalQueueAuditEvent,
>
    decreases s.len(),
{
    if s.len() == 0 {
        Seq::empty()
    } else if s.last().approval_id@ == id {
        events_for(s.drop_last(), id).push(s.last())
    } else {
        events_for(s.drop_last(), id)
    }
}

/// The approvals of tenant `tenant`, in the order they were queued.
pub open spec fn approvals_of(s: Seq<ApprovalQueueRecord>, tenant: Seq<char>) -> Seq<
    ApprovalQueueRecord,
>
    decreases s.len(),
{
    if s.len() == 0 {
        Seq::empty()
    } else if s.last().tenant_id@ == tenant {
        approvals_of(s.drop_last(), tenant).push(s.last())
    } else {
        approvals_of(s.drop_last(), tenant)
    }
}

/// Approvals are listed by creation time, then by id.
pub open spec fn approval_before(a: ApprovalQueueRecord, b: ApprovalQueueRecord) -> bool {
    a.created_ms < b.created_ms || (a.created_ms == b.created_ms && lex_lt(a.id@, b.id@))
}

/// Inserts `x` after every approval it does not sort strictly before.
pub open spec fn insert_approval_sorted(s: Seq<ApprovalQueueRecord>, x: ApprovalQueueRecord) -> Seq<ApprovalQueueRecord>
    decreases s.len(),
{
    if s.len() == 0 {
        seq![x]
    } else if approval_before(x, s.last()) {
        insert_approval_sorted(s.drop_last(), x).push(s.last())
    } else {
        s.push(x)
    }
}

/// The approvals in listing order (a stable sort of the given order).
pub open spec fn sorted_approvals(s: Seq<ApprovalQueueRecord>) -> Seq<ApprovalQueueRecord>
    decreases s.len(),
{
    if s.len() == 0 {
        Seq::empty()
    } else {
        insert_approval_sorted(sorted_approvals(s.drop_last()), s.last())
    }
}

fn approval_precedes(a: &ApprovalQueueRecord, b: &ApprovalQueueRecord) -> (r: bool)
    ensures
        r == approval_before(*a, *b),
{
    if a.created_ms != b.created_ms {
        return a.created_ms < b.created_ms;
    }
    string_lt(&a.id, &b.id)
}

fn insert_approval(out: &mut Vec<ApprovalQueueRecord>, x: ApprovalQueueRecord)
    ensures
        final(out)@ == insert_approval_sorted(old(out)@, x),
{
    let ghost target = insert_approval_sorted(old(out)@, x);
    let mut moved: Vec<ApprovalQueueRecord> = Vec::new();
    while out.len() > 0 && approval_precedes(&x, &out[out.len() - 1])
        invariant
            target == insert_approval_sorted(out@, x) + moved@.reverse(),
        decreases out.len(),
    {
        let ghost before = out@;
        let last = out.pop().unwrap();
        proof {
            assert(before.drop_last() =~= out@);
            assert(moved@.push(last).reverse() =~= seq![last] + moved@.reverse());
            assert(target =~= insert_approval_sorted(out@, x) + moved@.push(last).reverse());
        }
        moved.push(last);
    }
    let ghost base = out@;
    out.push(x);
    assert(insert_approval_sorted(base, x) =~= base.push(x));
    while moved.len() > 0
        invariant
            target == out@ + moved@.reverse(),
        decreases moved.len(),
    {
        let ghost mv = moved@;
        let m = moved.pop().unwrap();
        proof {
            assert(mv.reverse() =~= seq![m] + moved@.reverse());
        }
        out.push(m);
        assert(target =~= out@ + moved@.reverse());
    }
    assert(moved@.reverse() =~= Seq::<ApprovalQueueRecord>::empty());
    assert(target =~= out@);
}

/// The creation event of `rec` is in `events`.
pub open spec fn has_create_event(rec: ApprovalQueueRecord, events: Seq<ApprovalQueueAuditEvent>) -> bool {
    exists|i: int|
        0 <= i < events.len() && {
            let e = #[trigger] events[i];
            &&& e.event_kind@ == "created"@
            &&& e.status_before@.len() == 0
            &&& e.status_after@ == "pending"@
            &&& e.trace_id@ == rec.trace_id@
            &&& e.tenant_id@ == rec.tenant_id@
        }
}

pub open spec fn is_terminal(status: Seq<char>) -> bool {
    status == "approved"@ || status == "denied"@ || status == "expired"@
}

/// The transition into `rec`'s current status is in `events` (trivially so
/// while it is pending; never for an unknown status).
pub open spec fn has_terminal_event(rec: ApprovalQueueRecord, events: Seq<ApprovalQueueAuditEvent>) -> bool {
    if is_terminal(rec.status@) {
        exists|i: int|
            0 <= i < events.len() && {
                let e = #[trigger] events[i];
                &&& e.status_before@ == "pending"@
                &&& e.status_after@ == rec.status@
                &&& e.trace_id@ == rec.trace_id@
                &&& e.tenant_id@ == rec.tenant_id@
            }
    } else {
        rec.status@ == "pending"@
    }
}

/// Every event is tied to `rec`'s approval, tenant and trace, with a named
/// actor and kind.
pub open spec fn all_trace_linked(rec: ApprovalQueueRecord, events: Seq<ApprovalQueueAuditEvent>) -> bool {
    forall|i: int|
        0 <= i < events.len() ==> {
            let e = #[trigger] events[i];
            &&& e.approval_id@ == rec.id@
            &&& e.tenant_id@ == rec.tenant_id@
            &&& e.trace_id@ == rec.trace_id@
            &&& !blank(e.actor_id@)
            &&& !blank(e.event_kind@)
        }
}

/// The coverage report for approval `rec` given its events.
pub open spec fn is_coverage(
    c: ApprovalAuditCoverage,
    rec: ApprovalQueueRecord,
    events: Seq<ApprovalQueueAuditEvent>,
) -> bool {
    &&& c.approval_id@ == rec.id@
    &&& c.tenant_id@ == rec.tenant_id@
    &&& c.trace_id@ == rec.trace_id@
    &&& c.current_status@ == rec.status@
    &&& c.event_count == events.len()
    &&& c.has_create == has_create_event(rec, events)
    &&& c.has_terminal_transition == has_terminal_event(rec, events)
    &&& c.complete == (has_create_event(rec, events) && has_terminal_event(rec, events)
        && all_trace_linked(rec, events))
}

impl ApprovalQueueRuntime {
    /// The queue's approvals, in insertion order.
    pub open spec fn approvals(&self) -> Seq<ApprovalQueueRecord> {
        self@.1
    }

    /// The queue's audit trail, in insertion order.
    pub open spec fn audit(&self) -> Seq<ApprovalQueueAuditEvent> {
        self@.2
    }

    /// The approval with id `id`, if any.
    pub open spec fn approval(&self, id: Seq<char>) -> Option<ApprovalQueueRecord> {
        if find_approval(self@.1, id) >= 0 {
            Some(self@.1[find_approval(self@.1, id)])
        } else {
            None
        }
    }

    /// An empty queue.
    pub fn new() -> (q: Self)
        ensures
            q@.0.len() == 0,
            q@.1.len() == 0,
            q@.2.len() == 0,
    {
        ApprovalQueueRuntime { contracts: Vec::new(), approvals: Vec::new(), audit: Vec::new() }
    }

    /// Opens the queue's store: an empty queue. Opening never fails.
    pub fn open_in_memory() -> (r: Result<Self, RuntimeError>)
        ensures
            r matches Ok(q) && q@.0.len() == 0 && q@.1.len() == 0 && q@.2.len() == 0,
    {
        Ok(Self::new())
    }

    /// [`Self::create_at`] at the current time.
    pub fn create(&mut self, input: ApprovalCreate) -> (r: Result<ApprovalQueueRecord, RuntimeError>)
        ensures
            exists|now: u64| #[trigger] create_outcome(old(self)@, final(self)@, input, now, r),
    {
        let now = now_ms();
        self.create_at(input, now)
    }

    /// [`Self::approve_at`] at the current time.
    pub fn approve(
        &mut self,
        id: &str,
        tenant_id: &str,
        actor: &ApprovalActorContext,
        reason: Option<&str>,
    ) -> (r: Result<ApprovalQueueRecord, RuntimeError>)
        ensures
            exists|now: u64|
                #[trigger] decision_outcome(
                    old(self)@,
                    final(self)@,
                    id,
                    tenant_id,
                    *actor,
                    ApprovalTransitionKind::Approve,
                    "approved"@,
                    opt_str_view(reason),
                    now,
                    r,
                ),
    {
        let now = now_ms();
        self.approve_at(id, tenant_id, actor, reason, now)
    }

    /// [`Self::deny_at`] at the current time.
    pub fn deny(
        &mut self,
        id: &str,
        tenant_id: &str,
        actor: &ApprovalActorContext,
        reason: Option<&str>,
    ) -> (r: Result<ApprovalQueueRecord, RuntimeError>)
        ensures
            exists|now: u64|
                #[trigger] decision_outcome(
                    old(self)@,
                    final(self)@,
                    id,
                    tenant_id,
                    *actor,
                    ApprovalTransitionKind::Deny,
                    "denied"@,
                    opt_str_view(reason),
                    now,
                    r,
                ),
    {
        let now = now_ms();
        self.deny_at(id, tenant_id, actor, reason, now)
    }

    /// [`Self::comment_at`] at the current time.
    pub fn comment(&mut self, id: &str, tenant_id: &str, actor_id: &str, comment: &str) -> (r: Result<
        ApprovalQueueAuditEvent,
        RuntimeError,
    >)
        ensures
            exists|now: u64|
                #[trigger] comment_outcome(old(self)@, final(self)@, id, tenant_id, actor_id, comment, now, r),
    {
        let now = now_ms();
        self.comment_at(id, tenant_id, actor_id, comment, now)
    }

    /// [`Self::delegate_at`] at the current time.
    pub fn delegate(
        &mut self,
        id: &str,
        tenant_id: &str,
        actor: &ApprovalActorContext,
        delegated_to_actor_id: &str,
        reason: Option<&str>,
    ) -> (r: Result<ApprovalQueueRecord, RuntimeError>)
        ensures
            exists|now: u64|
                #[trigger] delegate_outcome(
                    old(self)@,
                    final(self)@,
                    id,
                    tenant_id,
                    actor,
                    delegated_to_actor_id,
                    reason,
                    now,
                    r,
                ),
    {
        let now = now_ms();
        self.delegate_at(id, tenant_id, actor, delegated_to_actor_id, reason, now)
    }

    fn find(&self, id: &str) -> (r: Option<usize>)
        ensures
            match r {
                Some(i) => i as int == find_approval(self@.1, id@) && i < self@.1.len(),
                None => find_approval(self@.1, id@) < 0,
            },
    {
        let mut i = self.approvals.len();
        assert(self.approvals@.take(i as int) =~= self.approvals@);
        while i > 0
            invariant
                i <= self.approvals@.len(),
                find_approval(self.approvals@, id@) == find_approval(
                    self.approvals@.take(i as int),
                    id@,
                ),
            decreases i,
        {
            let ghost pre = self.approvals@.take(i as int);
            assert(pre.drop_last() =~= self.approvals@.take(i - 1));
            if str_eq(self.approvals[i - 1].id.as_str(), id) {
                return Some(i - 1);
            }
            i = i - 1;
        }
        None
    }

    fn audit_taken(&self, id: &String) -> (r: bool)
        ensures
            r == audit_id_taken(self@.2, id@),
    {
        let mut i: usize = 0;
        while i < self.audit.len()
            invariant
                i <= self.audit@.len(),
                forall|k: int| 0 <= k < i ==> (#[trigger] self.audit@[k]).id@ != id@,
            decreases self.audit.len() - i,
        {
            if self.audit[i].id == *id {
                return true;
            }
            i = i + 1;
        }
        false
    }

    /// The approval with id `id`.
    pub fn get(&self, id: &str) -> (r: Option<ApprovalQueueRecord>)
        ensures
            r == self.approval(id@),
    {
        match self.find(id) {
            Some(i) => Some(self.approvals[i].duplicate()),
            None => None,
        }
    }

    /// The approvals of tenant `tenant_id`, oldest first (by creation
    /// time, then id).
    pub fn list_by_tenant(&self, tenant_id: &str) -> (r: Vec<ApprovalQueueRecord>)
        ensures
            r@ == sorted_approvals(approvals_of(self@.1, tenant_id@)),
    {
        let mut r: Vec<ApprovalQueueRecord> = Vec::new();
        let mut i: usize = 0;
        while i < self.approvals.len()
            invariant
                i <= self.approvals@.len(),
                r@ == approvals_of(self.approvals@.take(i as int), tenant_id@),
            decreases self.approvals.len() - i,
        {
            assert(self.approvals@.take(i + 1).drop_last() =~= self.approvals@.take(i as int));
            if str_eq(self.approvals[i].tenant_id.as_str(), tenant_id) {
                r.push(self.approvals[i].duplicate());
            }
            i = i + 1;
        }
        assert(self.approvals@.take(self.approvals@.len() as int) =~= self.approvals@);
        let mut sorted: Vec<ApprovalQueueRecord> = Vec::new();
        let mut k: usize = 0;
        while k < r.len()
            invariant
                k <= r@.len(),
                sorted@ == sorted_approvals(r@.take(k as int)),
            decreases r.len() - k,
        {
            let e = r[k].duplicate();
            proof {
                assert(r@.take(k + 1).drop_last() =~= r@.take(k as int));
            }
            insert_approval(&mut sorted, e);
            k = k + 1;
        }
        assert(r@.take(r@.len() as int) =~= r@);
        sorted
    }

    /// The audit trail of approval `approval_id`, in the order it was written.
    pub fn audit_events(&self, approval_id: &str) -> (r: Vec<ApprovalQueueAuditEvent>)
        ensures
            r@ == events_for(self@.2, approval_id@),
    {
        let mut r: Vec<ApprovalQueueAuditEvent> = Vec::new();
        let mut i: usize = 0;
        while i < self.audit.len()
            invariant
                i <= self.audit@.len(),
                r@ == events_for(self.audit@.take(i as int), approval_id@),
            decreases self.audit.len() - i,
        {
            assert(self.audit@.take(i + 1).drop_last() =~= self.audit@.take(i as int));
            if str_eq(self.audit[i].approval_id.as_str(), approval_id) {
                r.push(self.audit[i].duplicate());
            }
            i = i + 1;
        }
        assert(self.audit@.take(self.audit@.len() as int) =~= self.audit@);
        r
    }

    fn append_audit(&mut self, e: ApprovalQueueAuditEvent)
        ensures
            final(self)@ == (old(self)@.0, old(self)@.1, old(self)@.2.push(e)),
    {
        self.audit.push(e);
    }
}

/// Builds an audit event.
fn audit_event(
    approval_id: &str,
    tenant_id: &str,
    actor_id: &str,
    event_kind: &str,
    status_before: &str,
    status_after: &str,
    reason: Option<&str>,
    trace_id: &str,
    created_ms: u64,
) -> (e: ApprovalQueueAuditEvent)
    ensures
        is_audit_event(
            e,
            approval_id@,
            tenant_id@,
            actor_id@,
            event_kind@,
            status_before@,
            status_after@,
            opt_str_view(reason),
            trace_id@,
            created_ms,
        ),
{
    ApprovalQueueAuditEvent {
        id: audit_event_id(approval_id, created_ms, event_kind),
        approval_id: owned(approval_id),
        tenant_id: owned(tenant_id),
        actor_id: owned(actor_id),
        event_kind: owned(event_kind),
        status_before: owned(status_before),
        status_after: owned(status_after),
        reason: opt_owned(reason),
        trace_id: owned(trace_id),
        created_ms,
    }
}

fn audit_event_id(approval_id: &str, at_ms: u64, kind: &str) -> (r: String)
    ensures
        r@ == audit_id(approval_id@, at_ms, kind@),
{
    let mut s = cat(approval_id, ":audit:");
    let ms = u64_to_decimal(at_ms);
    push_str(&mut s, ms.as_str());
    push_str(&mut s, ":");
    push_str(&mut s, kind);
    s
}

fn validate_value(label: &str, value: &str) -> (r: Result<(), RuntimeError>)
    ensures
        refused_as(
            r,
            if blank(value@) {
                Some(must_not_be_empty(label@))
            } else {
                None
            },
        ),
{
    if is_blank(value) {
        Err(other(cat(label, " must not be empty")))
    } else {
        Ok(())
    }
}

fn validate_create(input: &ApprovalCreate) -> (r: Result<(), RuntimeError>)
    ensures
        refused_as(r, create_input_refusal(*input)),
{
    validate_value("approval id", input.id.as_str())?;
    validate_value("tenant id", input.tenant_id.as_str())?;
    validate_value("requester actor id", input.requester_actor_id.as_str())?;
    validate_value("contract id", input.contract.id.as_str())?;
    validate_value("contract version", input.contract.version.as_str())?;
    validate_value("action", input.contract.action.as_str())?;
    validate_value("target kind", input.contract.target_kind.as_str())?;
    validate_value("target id", input.contract.target_id.as_str())?;
    validate_value("required role", input.contract.required_role.as_str())?;
    validate_value("risk level", input.risk_level.as_str())?;
    validate_value("trace id", input.trace_id.as_str())?;
    validate_value("replay key", input.contract.replay_key.as_str())?;
    if !bits_is_finite(input.contract.max_cost_usd_bits) || bits_is_negative(
        input.contract.max_cost_usd_bits,
    ) {
        return Err(other(owned("approval max cost must be finite and non-negative")));
    }
    Ok(())
}

impl ApprovalQueueRuntime {
    fn find_contract_index(&self, id: &String, version: &String) -> (r: Option<usize>)
        ensures
            match r {
                Some(i) => i as int == find_contract(self@.0, id@, version@) && i < self@.0.len(),
                None => find_contract(self@.0, id@, version@) < 0,
            },
    {
        let mut i = self.contracts.len();
        assert(self.contracts@.take(i as int) =~= self.contracts@);
        while i > 0
            invariant
                i <= self.contracts@.len(),
                find_contract(self.contracts@, id@, version@) == find_contract(
                    self.contracts@.take(i as int),
                    id@,
                    version@,
                ),
            decreases i,
        {
            assert(self.contracts@.take(i as int).drop_last() =~= self.contracts@.take(i - 1));
            if self.contracts[i - 1].id == *id && self.contracts[i - 1].version == *version {
                return Some(i - 1);
            }
            i = i - 1;
        }
        None
    }

    fn upsert_contract(&mut self, c: &ApprovalContractRecord, now: u64)
        ensures
            contracts_after_upsert(old(self)@.0, final(self)@.0, *c, now),
            final(self)@.1 == old(self)@.1,
            final(self)@.2 == old(self)@.2,
    {
        match self.find_contract_index(&c.id, &c.version) {
            Some(i) => {
                let mut updated = c.duplicate();
                updated.created_ms = self.contracts[i].created_ms;
                self.contracts.set(i, updated);
            },
            None => {
                let mut inserted = c.duplicate();
                inserted.created_ms = now;
                self.contracts.push(inserted);
            },
        }
    }

    fn require_tenant(&self, id: &str, tenant_id: &str) -> (r: Result<usize, RuntimeError>)
        ensures
            refused_as(r, tenant_refusal(self@, id@, tenant_id@)),
            r matches Ok(i) ==> i as int == find_approval(self@.1, id@) && i < self@.1.len(),
    {
        validate_value("approval id", id)?;
        validate_value("tenant id", tenant_id)?;
        let i = match self.find(id) {
            Some(i) => i,
            None => {
                return Err(other(cat3("approval `", id, "` not found")));
            },
        };
        if !str_eq(self.approvals[i].tenant_id.as_str(), tenant_id) {
            return Err(other(owned("approval tenant mismatch")));
        }
        Ok(i)
    }

    fn require_pending(&self, id: &str, tenant_id: &str) -> (r: Result<usize, RuntimeError>)
        ensures
            refused_as(r, pending_refusal(self@, id@, tenant_id@)),
            r matches Ok(i) ==> i as int == find_approval(self@.1, id@) && i < self@.1.len(),
    {
        let i = self.require_tenant(id, tenant_id)?;
        let pending = owned("pending");
        if self.approvals[i].status != pending {
            return Err(other(cat3("approval `", id, "` is not pending")));
        }
        Ok(i)
    }

    /// Queues a new approval for `input` at time `now`, together with its
    /// contract and its creation audit event.
    pub fn create_at(&mut self, input: ApprovalCreate, now: u64) -> (r: Result<
        ApprovalQueueRecord,
        RuntimeError,
    >)
        ensures
            create_outcome(old(self)@, final(self)@, input, now, r),
    {
        validate_create(&input)?;
        if input.tenant_id != input.contract.tenant_id {
            return Err(other(owned("approval tenant must match contract tenant")));
        }
        let policy = validate_approval_contract_policy_at(&input.contract, now);
        if !policy.valid {
            let joined = join_strings(&policy.violations, ",");
            assert(views(policy.violations@) == crate::approval_policy::report_views(
                policy.violations@,
            ));
            return Err(other(cat("approval contract policy violation: ", joined.as_str())));
        }
        if self.find(input.id.as_str()).is_some() {
            return Err(
                other(
                    owned(
                        "approval queue sqlite error: UNIQUE constraint failed: approval_queue.id",
                    ),
                ),
            );
        }
        let event_id = audit_event_id(input.id.as_str(), now, "created");
        if self.audit_taken(&event_id) {
            return Err(
                other(
                    owned(
                        "approval queue sqlite error: UNIQUE constraint failed: approval_queue_audit.id",
                    ),
                ),
            );
        }
        let record = ApprovalQueueRecord {
            id: input.id.clone(),
            tenant_id: input.tenant_id.clone(),
            requester_actor_id: input.requester_actor_id.clone(),
            approver_actor_id: None,
            delegated_to_actor_id: None,
            contract_id: input.contract.id.clone(),
            contract_version: input.contract.version.clone(),
            action: input.contract.action.clone(),
            target_kind: input.contract.target_kind.clone(),
            target_id: input.contract.target_id.clone(),
            status: owned("pending"),
            required_role: input.contract.required_role.clone(),
            risk_level: input.risk_level.clone(),
            data_class: input.contract.data_class.clone(),
            irreversible: input.contract.irreversible,
            max_cost_usd_bits: input.contract.max_cost_usd_bits,
            expires_ms: input.contract.expires_ms,
            trace_id: input.trace_id.clone(),
            replay_key: input.contract.replay_key.clone(),
            created_ms: now,
            updated_ms: now,
        };
        self.upsert_contract(&input.contract, now);
        self.approvals.push(record.duplicate());
        proof {
            reveal_strlit("");
            assert(""@ =~= Seq::<char>::empty());
        }
        let event = audit_event(
            input.id.as_str(),
            input.tenant_id.as_str(),
            input.requester_actor_id.as_str(),
            "created",
            "",
            "pending",
            Some("approval created"),
            input.trace_id.as_str(),
            now,
        );
        self.append_audit(event);
        proof {
            assert(final(self)@.2.drop_last() =~= old(self)@.2);
        }
        Ok(record)
    }

    fn decide_at(
        &mut self,
        id: &str,
        tenant_id: &str,
        actor: &ApprovalActorContext,
        transition: ApprovalTransitionKind,
        event_kind: &str,
        reason: Option<&str>,
        at_ms: u64,
    ) -> (r: Result<ApprovalQueueRecord, RuntimeError>)
        ensures
            refused_as(
                r,
                decision_refusal(old(self)@, id@, tenant_id@, *actor, transition, event_kind@, at_ms),
            ),
            r is Err ==> final(self)@ == old(self)@,
            r matches Ok(rec) ==> decision_recorded(
                old(self)@,
                final(self)@,
                rec,
                id@,
                tenant_id@,
                actor.actor_id@,
                event_kind@,
                event_kind@,
                opt_str_view(reason),
                at_ms,
            ),
    {
        validate_value("approval id", id)?;
        validate_value("tenant id", tenant_id)?;
        let i = self.require_pending(id, tenant_id)?;
        authorize_approval_transition(&self.approvals[i], actor, transition, at_ms)?;
        let event_id = audit_event_id(id, at_ms, event_kind);
        if self.audit_taken(&event_id) {
            return Err(
                other(
                    owned(
                        "approval queue sqlite error: UNIQUE constraint failed: approval_queue_audit.id",
                    ),
                ),
            );
        }
        let mut rec = self.approvals[i].duplicate();
        rec.status = owned(event_kind);
        rec.approver_actor_id = Some(actor.actor_id.clone());
        rec.updated_ms = at_ms;
        let trace_id = self.approvals[i].trace_id.clone();
        self.approvals.set(i, rec.duplicate());
        let event = audit_event(
            id,
            tenant_id,
            actor.actor_id.as_str(),
            event_kind,
            "pending",
            event_kind,
            reason,
            trace_id.as_str(),
            at_ms,
        );
        self.append_audit(event);
        proof {
            assert(final(self)@.2.take(old(self)@.2.len() as int) =~= old(self)@.2);
        }
        Ok(rec)
    }

    /// Approves a pending approval on behalf of `actor` at time `at_ms`.
    pub fn approve_at(
        &mut self,
        id: &str,
        tenant_id: &str,
        actor: &ApprovalActorContext,
        reason: Option<&str>,
        at_ms: u64,
    ) -> (r: Result<ApprovalQueueRecord, RuntimeError>)
        ensures
            decision_outcome(old(self)@, final(self)@, id, tenant_id, *actor, ApprovalTransitionKind::Approve, "approved"@, opt_str_view(reason), at_ms, r),
    {
        self.decide_at(id, tenant_id, actor, ApprovalTransitionKind::Approve, "approved", reason, at_ms)
    }

    /// Denies a pending approval on behalf of `actor` at time `at_ms`.
    pub fn deny_at(
        &mut self,
        id: &str,
        tenant_id: &str,
        actor: &ApprovalActorContext,
        reason: Option<&str>,
        at_ms: u64,
    ) -> (r: Result<ApprovalQueueRecord, RuntimeError>)
        ensures
            decision_outcome(old(self)@, final(self)@, id, tenant_id, *actor, ApprovalTransitionKind::Deny, "denied"@, opt_str_view(reason), at_ms, r),
    {
        self.decide_at(id, tenant_id, actor, ApprovalTransitionKind::Deny, "denied", reason, at_ms)
    }

    /// Expires a pending approval whose contract deadline has passed.
    pub fn expire(
        &mut self,
        id: &str,
        tenant_id: &str,
        actor_id: &str,
        reason: Option<&str>,
        at_ms: u64,
    ) -> (r: Result<ApprovalQueueRecord, RuntimeError>)
        ensures
            expire_outcome(old(self)@, final(self)@, id, tenant_id, actor_id, reason, at_ms, r),
    {
        let i = self.require_pending(id, tenant_id)?;
        if at_ms < self.approvals[i].expires_ms {
            return Err(other(owned("approval cannot expire before contract expiry")));
        }
        validate_value("approval id", id)?;
        validate_value("tenant id", tenant_id)?;
        validate_value("actor id", actor_id)?;
        let i = self.require_pending(id, tenant_id)?;
        let event_id = audit_event_id(id, at_ms, "expired");
        if self.audit_taken(&event_id) {
            return Err(
                other(
                    owned(
                        "approval queue sqlite error: UNIQUE constraint failed: approval_queue_audit.id",
                    ),
                ),
            );
        }
        let mut rec = self.approvals[i].duplicate();
        rec.status = owned("expired");
        rec.approver_actor_id = Some(owned(actor_id));
        rec.updated_ms = at_ms;
        let trace_id = self.approvals[i].trace_id.clone();
        self.approvals.set(i, rec.duplicate());
        let event = audit_event(
            id,
            tenant_id,
            actor_id,
            "expired",
            "pending",
            "expired",
            reason,
            trace_id.as_str(),
            at_ms,
        );
        self.append_audit(event);
        proof {
            assert(final(self)@.2.take(old(self)@.2.len() as int) =~= old(self)@.2);
        }
        Ok(rec)
    }

    /// Records an approver comment on an approval of tenant `tenant_id`.
    pub fn comment_at(
        &mut self,
        id: &str,
        tenant_id: &str,
        actor_id: &str,
        comment: &str,
        now: u64,
    ) -> (r: Result<ApprovalQueueAuditEvent, RuntimeError>)
        ensures
            comment_outcome(old(self)@, final(self)@, id, tenant_id, actor_id, comment, now, r),
    {
        validate_value("comment", comment)?;
        let i = self.require_tenant(id, tenant_id)?;
        let event_id = audit_event_id(id, now, "commented");
        if self.audit_taken(&event_id) {
            return Err(
                other(
                    owned(
                        "approval queue sqlite error: UNIQUE constraint failed: approval_queue_audit.id",
                    ),
                ),
            );
        }
        let event = audit_event(
            id,
            tenant_id,
            actor_id,
            "commented",
            self.approvals[i].status.as_str(),
            self.approvals[i].status.as_str(),
            Some(comment),
            self.approvals[i].trace_id.as_str(),
            now,
        );
        self.append_audit(event.duplicate());
        Ok(event)
    }

    /// Hands a pending approval to another approver.
    pub fn delegate_at(
        &mut self,
        id: &str,
        tenant_id: &str,
        actor: &ApprovalActorContext,
        delegated_to_actor_id: &str,
        reason: Option<&str>,
        now: u64,
    ) -> (r: Result<ApprovalQueueRecord, RuntimeError>)
        ensures
            delegate_outcome(old(self)@, final(self)@, id, tenant_id, actor, delegated_to_actor_id, reason, now, r),
    {
        validate_value("delegated actor id", delegated_to_actor_id)?;
        let i = self.require_pending(id, tenant_id)?;
        authorize_approval_transition(
            &self.approvals[i],
            actor,
            ApprovalTransitionKind::Delegate,
            now,
        )?;
        authorize_approval_delegate_target(&self.approvals[i], delegated_to_actor_id)?;
        let event_id = audit_event_id(id, now, "delegated");
        if self.audit_taken(&event_id) {
            return Err(
                other(
                    owned(
                        "approval queue sqlite error: UNIQUE constraint failed: approval_queue_audit.id",
                    ),
                ),
            );
        }
        let mut rec = self.approvals[i].duplicate();
        rec.delegated_to_actor_id = Some(owned(delegated_to_actor_id));
        rec.updated_ms = now;
        let status = self.approvals[i].status.clone();
        let trace_id = self.approvals[i].trace_id.clone();
        self.approvals.set(i, rec.duplicate());
        let event = audit_event(
            id,
            tenant_id,
            actor.actor_id.as_str(),
            "delegated",
            status.as_str(),
            status.as_str(),
            reason,
            trace_id.as_str(),
            now,
        );
        self.append_audit(event);
        proof {
            assert(final(self)@.2.drop_last() =~= old(self)@.2);
        }
        Ok(rec)
    }
}

fn is_create_event(rec: &ApprovalQueueRecord, e: &ApprovalQueueAuditEvent) -> (r: bool)
    ensures
        r == (e.event_kind@ == "created"@ && e.status_before@.len() == 0 && e.status_after@
            == "pending"@ && e.trace_id@ == rec.trace_id@ && e.tenant_id@ == rec.tenant_id@),
{
    e.event_kind == owned("created") && e.status_before.as_str().is_empty() && e.status_after
        == owned("pending") && e.trace_id == rec.trace_id && e.tenant_id == rec.tenant_id
}

fn is_terminal_event(rec: &ApprovalQueueRecord, e: &ApprovalQueueAuditEvent) -> (r: bool)
    ensures
        r == (e.status_before@ == "pending"@ && e.status_after@ == rec.status@ && e.trace_id@
            == rec.trace_id@ && e.tenant_id@ == rec.tenant_id@),
{
    e.status_before == owned("pending") && e.status_after == rec.status && e.trace_id
        == rec.trace_id && e.tenant_id == rec.tenant_id
}

fn is_linked_event(rec: &ApprovalQueueRecord, e: &ApprovalQueueAuditEvent) -> (r: bool)
    ensures
        r == (e.approval_id@ == rec.id@ && e.tenant_id@ == rec.tenant_id@ && e.trace_id@
            == rec.trace_id@ && !blank(e.actor_id@) && !blank(e.event_kind@)),
{
    e.approval_id == rec.id && e.tenant_id == rec.tenant_id && e.trace_id == rec.trace_id
        && !is_blank(e.actor_id.as_str()) && !is_blank(e.event_kind.as_str())
}

impl ApprovalQueueRuntime {
    /// Whether the audit trail of approval `id` covers its life so far.
    pub fn audit_coverage(&self, id: &str) -> (r: Result<ApprovalAuditCoverage, RuntimeError>)
        ensures
            refused_as(
                r,
                if find_approval(self@.1, id@) < 0 {
                    Some(not_found(id@))
                } else {
                    None
                },
            ),
            r matches Ok(c) ==> is_coverage(
                c,
                self@.1[find_approval(self@.1, id@)],
                events_for(self@.2, id@),
            ),
    {
        let i = match self.find(id) {
            Some(i) => i,
            None => {
                return Err(other(cat3("approval `", id, "` not found")));
            },
        };
        let rec = &self.approvals[i];
        let events = self.audit_events(id);
        let mut has_create = false;
        let mut any_terminal = false;
        let mut linked = true;
        let mut k: usize = 0;
        while k < events.len()
            invariant
                k <= events@.len(),
                has_create == exists|j: int|
                    0 <= j < k && {
                        let e = #[trigger] events@[j];
                        &&& e.event_kind@ == "created"@
                        &&& e.status_before@.len() == 0
                        &&& e.status_after@ == "pending"@
                        &&& e.trace_id@ == rec.trace_id@
                        &&& e.tenant_id@ == rec.tenant_id@
                    },
                any_terminal == exists|j: int|
                    0 <= j < k && {
                        let e = #[trigger] events@[j];
                        &&& e.status_before@ == "pending"@
                        &&& e.status_after@ == rec.status@
                        &&& e.trace_id@ == rec.trace_id@
                        &&& e.tenant_id@ == rec.tenant_id@
                    },
                linked == forall|j: int|
                    0 <= j < k ==> {
                        let e = #[trigger] events@[j];
                        &&& e.approval_id@ == rec.id@
                        &&& e.tenant_id@ == rec.tenant_id@
                        &&& e.trace_id@ == rec.trace_id@
                        &&& !blank(e.actor_id@)
                        &&& !blank(e.event_kind@)
                    },
            decreases events.len() - k,
        {
            let e = &events[k];
            let c = is_create_event(rec, e);
            let t = is_terminal_event(rec, e);
            let l = is_linked_event(rec, e);
            proof {
                if c {
                    assert(events@[k as int] == *e);
                }
                if t {
                    assert(events@[k as int] == *e);
                }
                if !l {
                    assert(events@[k as int] == *e);
                }
            }
            has_create = has_create || c;
            any_terminal = any_terminal || t;
            linked = linked && l;
            k = k + 1;
        }
        let approved = owned("approved");
        let denied = owned("denied");
        let expired = owned("expired");
        let pending = owned("pending");
        let terminal = rec.status == approved || rec.status == denied || rec.status == expired;
        let has_terminal_transition = if terminal {
            any_terminal
        } else {
            rec.status == pending
        };
        Ok(ApprovalAuditCoverage {
            approval_id: rec.id.clone(),
            tenant_id: rec.tenant_id.clone(),
            trace_id: rec.trace_id.clone(),
            current_status: rec.status.clone(),
            event_count: events.len(),
            has_create,
            has_terminal_transition,
            complete: has_create && has_terminal_transition && linked,
        })
    }
}

/// A decided approval (approved, denied or expired) is final: every later
/// attempt to approve, deny, delegate or expire it is refused as "not
/// pending".
pub proof fn decided_approval_is_final(
    q: QueueState,
    id: Seq<char>,
    tenant: Seq<char>,
    actor: ApprovalActorContext,
    transition: ApprovalTransitionKind,
    kind: Seq<char>,
    target: Seq<char>,
    actor_id: Seq<char>,
    at: u64,
)
    requires
        tenant_refusal(q, id, tenant) is None,
        q.1[find_approval(q.1, id)].status@ != "pending"@,
        !blank(target),
    ensures
        decision_refusal(q, id, tenant, actor, transition, kind, at) == Some(not_pending(id)),
        expire_refusal(q, id, tenant, actor_id, at) == Some(not_pending(id)),
        delegate_refusal(q, id, tenant, actor, target, at) == Some(not_pending(id)),
{
}

/// Whoever requested an approval can never approve, deny or delegate it.
pub proof fn requester_never_decides(
    q: QueueState,
    id: Seq<char>,
    tenant: Seq<char>,
    actor: ApprovalActorContext,
    transition: ApprovalTransitionKind,
    kind: Seq<char>,
    at: u64,
)
    requires
        find_approval(q.1, id) >= 0,
        actor.actor_id@ == q.1[find_approval(q.1, id)].requester_actor_id@,
    ensures
        decision_refusal(q, id, tenant, actor, transition, kind, at) is Some,
{
}

/// An actor from another tenant can never approve, deny or delegate an
/// approval.
pub proof fn foreign_tenant_never_decides(
    q: QueueState,
    id: Seq<char>,
    tenant: Seq<char>,
    actor: ApprovalActorContext,
    transition: ApprovalTransitionKind,
    kind: Seq<char>,
    at: u64,
)
    requires
        find_approval(q.1, id) >= 0,
        actor.tenant_id@ != q.1[find_approval(q.1, id)].tenant_id@,
    ensures
        decision_refusal(q, id, tenant, actor, transition, kind, at) is Some,
{
}

/// An actor without the approval's required role can never approve, deny or
/// delegate it.
pub proof fn missing_role_never_decides(
    q: QueueState,
    id: Seq<char>,
    tenant: Seq<char>,
    actor: ApprovalActorContext,
    transition: ApprovalTransitionKind,
    kind: Seq<char>,
    at: u64,
)
    requires
        find_approval(q.1, id) >= 0,
        actor.role@ != q.1[find_approval(q.1, id)].required_role@,
    ensures
        decision_refusal(q, id, tenant, actor, transition, kind, at) is Some,
{
}

/// No approval is granted at or after its contract's expiry.
pub proof fn no_approval_after_expiry(
    q: QueueState,
    id: Seq<char>,
    tenant: Seq<char>,
    actor: ApprovalActorContext,
    at: u64,
)
    requires
        find_approval(q.1, id) >= 0,
        at >= q.1[find_approval(q.1, id)].expires_ms,
    ensures
        decision_refusal(q, id, tenant, actor, ApprovalTransitionKind::Approve, "approved"@, at) is Some,
{
}

/// An approval delegated to someone can only be decided by that delegate.
pub proof fn only_the_delegate_decides(
    q: QueueState,
    id: Seq<char>,
    tenant: Seq<char>,
    actor: ApprovalActorContext,
    transition: ApprovalTransitionKind,
    kind: Seq<char>,
    at: u64,
)
    requires
        find_approval(q.1, id) >= 0,
        q.1[find_approval(q.1, id)].delegated_to_actor_id is Some,
        actor.actor_id@ != q.1[find_approval(q.1, id)].delegated_to_actor_id->0@,
    ensures
        decision_refusal(q, id, tenant, actor, transition, kind, at) is Some,
{
}

/// `post` keeps every audit event of `pre`, in order, and adds exactly one.
pub open spec fn appends_one_event(pre: QueueState, post: QueueState) -> bool {
    post.2.len() == pre.2.len() + 1 && post.2.take(pre.2.len() as int) == pre.2
}

/// Queueing an approval either fails and leaves the queue as it was, or
/// succeeds and appends exactly one audit event to an otherwise unchanged
/// trail.
pub proof fn creating_appends_one_audit_event(
    pre: QueueState,
    post: QueueState,
    input: ApprovalCreate,
    now: u64,
    r: Result<ApprovalQueueRecord, RuntimeError>,
)
    requires
        create_outcome(pre, post, input, now, r),
    ensures
        r is Err ==> post == pre,
        r is Ok ==> appends_one_event(pre, post),
{
    if r is Ok {
        assert(post.2.take(pre.2.len() as int) =~= post.2.drop_last());
    }
}

/// Approving or denying either fails and leaves the queue as it was, or
/// succeeds and appends exactly one audit event.
pub proof fn deciding_appends_one_audit_event(
    pre: QueueState,
    post: QueueState,
    id: &str,
    tenant_id: &str,
    actor: ApprovalActorContext,
    transition: ApprovalTransitionKind,
    kind: Seq<char>,
    reason: Option<Seq<char>>,
    at: u64,
    r: Result<ApprovalQueueRecord, RuntimeError>,
)
    requires
        decision_outcome(pre, post, id, tenant_id, actor, transition, kind, reason, at, r),
    ensures
        r is Err ==> post == pre,
        r is Ok ==> appends_one_event(pre, post),
{
}

/// Expiring either fails and leaves the queue as it was, or succeeds and
/// appends exactly one audit event.
pub proof fn expiring_appends_one_audit_event(
    pre: QueueState,
    post: QueueState,
    id: &str,
    tenant_id: &str,
    actor_id: &str,
    reason: Option<&str>,
    at: u64,
    r: Result<ApprovalQueueRecord, RuntimeError>,
)
    requires
        expire_outcome(pre, post, id, tenant_id, actor_id, reason, at, r),
    ensures
        r is Err ==> post == pre,
        r is Ok ==> appends_one_event(pre, post),
{
}

/// Commenting either fails and leaves the queue as it was, or succeeds and
/// appends exactly one audit event, changing nothing else.
pub proof fn commenting_appends_one_audit_event(
    pre: QueueState,
    post: QueueState,
    id: &str,
    tenant_id: &str,
    actor_id: &str,
    comment: &str,
    now: u64,
    r: Result<ApprovalQueueAuditEvent, RuntimeError>,
)
    requires
        comment_outcome(pre, post, id, tenant_id, actor_id, comment, now, r),
    ensures
        r is Err ==> post == pre,
        r is Ok ==> appends_one_event(pre, post) && post.0 == pre.0 && post.1 == pre.1,
{
    if r is Ok {
        assert(post.2.take(pre.2.len() as int) =~= pre.2);
    }
}

/// Delegating either fails and leaves the queue as it was, or succeeds and
/// appends exactly one audit event.
pub proof fn delegating_appends_one_audit_event(
    pre: QueueState,
    post: QueueState,
    id: &str,
    tenant_id: &str,
    actor: &ApprovalActorContext,
    delegated_to_actor_id: &str,
    reason: Option<&str>,
    now: u64,
    r: Result<ApprovalQueueRecord, RuntimeError>,
)
    requires
        delegate_outcome(pre, post, id, tenant_id, actor, delegated_to_actor_id, reason, now, r),
    ensures
        r is Err ==> post == pre,
        r is Ok ==> appends_one_event(pre, post),
{
    if r is Ok {
        assert(post.2.take(pre.2.len() as int) =~= post.2.drop_last());
    }
}

/// An irreversible contract approvable by a `Member` or `Service` role is
/// never queued: creating an approval for it fails and leaves the queue
/// as it was.
pub proof fn weakly_guarded_irreversible_contract_is_never_queued(
    pre: QueueState,
    post: QueueState,
    input: ApprovalCreate,
    now: u64,
    r: Result<ApprovalQueueRecord, RuntimeError>,
)
    requires
        create_outcome(pre, post, input, now, r),
        input.contract.irreversible,
        input.contract.required_role@ == "Member"@ || input.contract.required_role@ == "Service"@,
    ensures
        r is Err,
        post == pre,
{
    crate::approval_policy::irreversible_needs_an_elevated_role(input.contract, now);
}

/// An approval is never delegated to its own requester: a delegation that
/// succeeds hands the approval to someone else.
pub proof fn never_delegated_to_the_requester(
    pre: QueueState,
    post: QueueState,
    id: &str,
    tenant_id: &str,
    actor: &ApprovalActorContext,
    delegated_to_actor_id: &str,
    reason: Option<&str>,
    now: u64,
    r: Result<ApprovalQueueRecord, RuntimeError>,
)
    requires
        delegate_outcome(pre, post, id, tenant_id, actor, delegated_to_actor_id, reason, now, r),
    ensures
        r matches Ok(rec) ==> rec.delegated_to_actor_id->0@ != rec.requester_actor_id@,
        delegated_to_actor_id@ == pre.1[find_approval(pre.1, id@)].requester_actor_id@ ==> r is Err
            && post == pre,
{
}

} // verus!
