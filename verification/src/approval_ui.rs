//! The frontend-neutral view of a queued approval: title, summary, the
//! transitions the viewer may take, and the audit trail.

use vstd::prelude::*;
use crate::approval_records::{copy_opt, ApprovalQueueAuditEvent, ApprovalQueueRecord};
use crate::errors::{join, views};
use crate::text::{char_upper, chars_of, owned, push_str, str_eq, string_from_chars, upper_chars};
use crate::approvals::is_ascii_upper;

verus! {

/// What an approval is about.
pub struct ApprovalUiTarget {
    pub kind: String,
    pub id: String,
}

/// One audit row as the UI shows it.
pub struct ApprovalUiAuditEvent {
    pub event_kind: String,
    pub actor_id: String,
    pub status_before: String,
    pub status_after: String,
    pub trace_id: String,
    pub created_ms: u64,
}

/// The approval as a viewer sees it. `max_cost_usd_bits` holds the
/// contract's dollar ceiling as `f64` bits.
pub struct ApprovalUiPayload {
    pub schema_version: String,
    pub id: String,
    pub tenant_id: String,
    pub title: String,
    pub summary: String,
    pub status: String,
    pub risk_level: String,
    pub action: String,
    pub target: ApprovalUiTarget,
    pub requester_actor_id: String,
    pub approver_actor_id: Option<String>,
    pub delegated_to_actor_id: Option<String>,
    pub required_role: String,
    pub data_class: String,
    pub irreversible: bool,
    pub max_cost_usd_bits: u64,
    pub expires_ms: u64,
    pub trace_id: String,
    pub replay_key: String,
    pub allowed_transitions: Vec<String>,
    pub audit: Vec<ApprovalUiAuditEvent>,
    pub redacted: bool,
}

pub open spec fn is_title_sep(c: char) -> bool {
    c == '_' || c == '-'
}

/// The words of an action name: the non-empty runs between `_` and `-`,
/// where an ASCII capital inside a run also starts a new word.
pub open spec fn title_parts(s: Seq<char>) -> Seq<Seq<char>>
    decreases s.len(),
{
    if s.len() == 0 {
        Seq::empty()
    } else {
        let prev = title_parts(s.drop_last());
        let c = s.last();
        if is_title_sep(c) {
            prev
        } else if s.len() >= 2 && !is_title_sep(s[s.len() - 2]) && !is_ascii_upper(c) {
            prev.update(prev.len() - 1, prev.last().push(c))
        } else {
            prev.push(seq![c])
        }
    }
}

/// A word with its first character upper-cased.
pub open spec fn capitalized(w: Seq<char>) -> Seq<char> {
    if w.len() == 0 {
        w
    } else {
        char_upper(w[0]) + w.drop_first()
    }
}

/// The title of an action: its parts capitalized and joined by spaces,
/// or `Approval` when it has none (`send_executive_follow_up` and
/// `SendExecutiveFollowUp` are both `Send Executive Follow Up`).
pub open spec fn title_of(action: Seq<char>) -> Seq<char> {
    let parts = title_parts(action);
    if parts.len() == 0 {
        "Approval"@
    } else {
        join(Seq::new(parts.len(), |i: int| capitalized(parts[i])), seq![' '])
    }
}

proof fn lemma_title_parts_open(s: Seq<char>)
    requires
        s.len() > 0,
        !is_title_sep(s.last()),
    ensures
        title_parts(s).len() > 0,
    decreases s.len(),
{
    if s.len() >= 2 && !is_title_sep(s[s.len() - 2]) && !is_ascii_upper(s.last()) {
        lemma_title_parts_open(s.drop_last());
    }
}

proof fn lemma_title_parts_nonempty(s: Seq<char>)
    ensures
        forall|j: int| 0 <= j < title_parts(s).len() ==> (#[trigger] title_parts(s)[j]).len() > 0,
    decreases s.len(),
{
    if s.len() > 0 {
        lemma_title_parts_nonempty(s.drop_last());
        if !is_title_sep(s.last()) && s.len() >= 2 && !is_title_sep(s[s.len() - 2]) && !is_ascii_upper(
            s.last(),
        ) {
            lemma_title_parts_open(s.drop_last());
        }
    }
}

fn split_title_parts(v: &Vec<char>) -> (r: Vec<Vec<char>>)
    ensures
        r@.len() == title_parts(v@).len(),
        forall|j: int| 0 <= j < r@.len() ==> (#[trigger] r@[j])@ == title_parts(v@)[j],
{
    let mut list: Vec<Vec<char>> = Vec::new();
    let mut cur: Vec<char> = Vec::new();
    let mut i: usize = 0;
    while i < v.len()
        invariant
            i <= v.len(),
            cur@.len() > 0 <==> (i > 0 && !is_title_sep(v@[i - 1])),
            cur@.len() == 0 ==> list@.len() == title_parts(v@.take(i as int)).len(),
            cur@.len() > 0 ==> list@.len() + 1 == title_parts(v@.take(i as int)).len(),
            forall|j: int| 0 <= j < list@.len() ==> (#[trigger] list@[j])@ == title_parts(v@.take(i as int))[j],
            cur@.len() > 0 ==> cur@ == title_parts(v@.take(i as int))[list@.len() as int],
        decreases v.len() - i,
    {
        let c = v[i];
        let ghost before = v@.take(i as int);
        let ghost after = v@.take(i + 1);
        proof {
            assert(after.drop_last() =~= before);
            assert(after.last() == c);
            if i > 0 {
                assert(after[after.len() - 2] == v@[i - 1]);
                if !is_title_sep(v@[i - 1]) {
                    lemma_title_parts_open(before);
                }
            }
        }
        if c == '_' || c == '-' {
            if cur.len() > 0 {
                let done = cur;
                list.push(done);
                cur = Vec::new();
            }
        } else if 'A' <= c && c <= 'Z' && cur.len() > 0 {
            let done = cur;
            list.push(done);
            cur = Vec::new();
            cur.push(c);
        } else {
            cur.push(c);
        }
        i = i + 1;
        proof {
            assert(v@.take(i as int) == after);
        }
    }
    if cur.len() > 0 {
        list.push(cur);
    }
    assert(v@.take(v.len() as int) =~= v@);
    list
}

/// The title of an action (see [`title_of`]).
pub fn human_title(action: &str) -> (r: String)
    ensures
        r@ == title_of(action@),
{
    let v = chars_of(action);
    let parts = split_title_parts(&v);
    if parts.len() == 0 {
        return owned("Approval");
    }
    proof {
        lemma_title_parts_nonempty(v@);
    }
    let ghost caps = Seq::new(parts@.len(), |i: int| capitalized(title_parts(v@)[i]));
    let mut out: Vec<char> = Vec::new();
    let mut k: usize = 0;
    while k < parts.len()
        invariant
            k <= parts@.len(),
            parts@.len() == title_parts(v@).len(),
            forall|j: int| 0 <= j < parts@.len() ==> (#[trigger] parts@[j])@ == title_parts(v@)[j],
            forall|j: int| 0 <= j < title_parts(v@).len() ==> (#[trigger] title_parts(v@)[j]).len() > 0,
            caps == Seq::new(parts@.len(), |i: int| capitalized(title_parts(v@)[i])),
            out@ == join(caps.take(k as int), seq![' ']),
        decreases parts.len() - k,
    {
        if k > 0 {
            out.push(' ');
        }
        let part = &parts[k];
        let ghost before = out@;
        let up = upper_chars(part[0]);
        let mut a: usize = 0;
        while a < up.len()
            invariant
                a <= up@.len(),
                out@ == before + up@.take(a as int),
            decreases up.len() - a,
        {
            out.push(up[a]);
            a = a + 1;
            assert(out@ =~= before + up@.take(a as int));
        }
        assert(up@.take(up@.len() as int) =~= up@);
        let ghost mid = out@;
        let mut b: usize = 1;
        while b < part.len()
            invariant
                1 <= b <= part@.len(),
                out@ == mid + part@.subrange(1, b as int),
            decreases part.len() - b,
        {
            out.push(part[b]);
            b = b + 1;
            assert(out@ =~= mid + part@.subrange(1, b as int));
        }
        proof {
            assert(part@.subrange(1, part@.len() as int) =~= part@.drop_first());
            assert(caps.take(k + 1).drop_last() =~= caps.take(k as int));
            assert(caps.take(k + 1).last() == capitalized(part@));
            if k == 0 {
                assert(caps.take(1).len() == 1);
                assert(join(caps.take(1), seq![' ']) == caps.take(1)[0]);
            }
        }
        k = k + 1;
        assert(out@ =~= join(caps.take(k as int), seq![' ']));
    }
    assert(caps.take(caps.len() as int) =~= caps);
    string_from_chars(&out)
}

/// The transitions a viewer may take on an approval: none unless it is
/// pending; only a comment for a viewer without the required role or
/// other than the delegate; otherwise approve, deny, comment, delegate.
pub open spec fn transitions_for(a: ApprovalQueueRecord, viewer: Seq<char>, role: Seq<char>) -> Seq<Seq<char>> {
    if a.status@ != "pending"@ {
        Seq::empty()
    } else if role != a.required_role@ || (a.delegated_to_actor_id matches Some(d) && d@ != viewer) {
        seq!["comment"@]
    } else {
        seq!["approve"@, "deny"@, "comment"@, "delegate"@]
    }
}

pub fn allowed_transitions(approval: &ApprovalQueueRecord, viewer_actor_id: &str, viewer_role: &str) -> (r: Vec<String>)
    ensures
        views(r@) == transitions_for(*approval, viewer_actor_id@, viewer_role@),
{
    let mut out: Vec<String> = Vec::new();
    if !str_eq(approval.status.as_str(), "pending") {
        assert(views(out@) =~= Seq::<Seq<char>>::empty());
        return out;
    }
    let delegated_match = match &approval.delegated_to_actor_id {
        Some(d) => str_eq(d.as_str(), viewer_actor_id),
        None => true,
    };
    if !str_eq(viewer_role, approval.required_role.as_str()) || !delegated_match {
        out.push(owned("comment"));
        assert(views(out@) =~= seq!["comment"@]);
        return out;
    }
    out.push(owned("approve"));
    out.push(owned("deny"));
    out.push(owned("comment"));
    out.push(owned("delegate"));
    assert(views(out@) =~= seq!["approve"@, "deny"@, "comment"@, "delegate"@]);
    out
}

/// The UI row of an audit event: its kind, actor, statuses, trace and
/// time.
pub fn ui_audit_event(event: &ApprovalQueueAuditEvent) -> (r: ApprovalUiAuditEvent)
    ensures
        r.event_kind == event.event_kind,
        r.actor_id == event.actor_id,
        r.status_before == event.status_before,
        r.status_after == event.status_after,
        r.trace_id == event.trace_id,
        r.created_ms == event.created_ms,
{
    ApprovalUiAuditEvent {
        event_kind: event.event_kind.clone(),
        actor_id: event.actor_id.clone(),
        status_before: event.status_before.clone(),
        status_after: event.status_after.clone(),
        trace_id: event.trace_id.clone(),
        created_ms: event.created_ms,
    }
}

/// `"<title> on <target kind> `<target id>`"`.
pub open spec fn summary_of(a: ApprovalQueueRecord) -> Seq<char> {
    title_of(a.action@) + " on "@ + a.target_kind@ + " `"@ + a.target_id@ + "`"@
}

/// The UI payload of an approval and its audit trail for a viewer.
pub fn approval_ui_payload(
    approval: &ApprovalQueueRecord,
    audit: &[ApprovalQueueAuditEvent],
    viewer_actor_id: &str,
    viewer_role: &str,
) -> (p: ApprovalUiPayload)
    ensures
        p.schema_version@ == "corvid.approval.ui.v1"@,
        p.id == approval.id,
        p.tenant_id == approval.tenant_id,
        p.title@ == title_of(approval.action@),
        p.summary@ == summary_of(*approval),
        p.status == approval.status,
        p.risk_level == approval.risk_level,
        p.action == approval.action,
        p.target.kind == approval.target_kind,
        p.target.id == approval.target_id,
        p.requester_actor_id == approval.requester_actor_id,
        p.approver_actor_id == approval.approver_actor_id,
        p.delegated_to_actor_id == approval.delegated_to_actor_id,
        p.required_role == approval.required_role,
        p.data_class == approval.data_class,
        p.irreversible == approval.irreversible,
        p.max_cost_usd_bits == approval.max_cost_usd_bits,
        p.expires_ms == approval.expires_ms,
        p.trace_id == approval.trace_id,
        p.replay_key == approval.replay_key,
        views(p.allowed_transitions@) == transitions_for(*approval, viewer_actor_id@, viewer_role@),
        p.audit@.len() == audit@.len(),
        forall|i: int| 0 <= i < audit@.len() ==> {
            &&& (#[trigger] p.audit@[i]).event_kind == audit@[i].event_kind
            &&& p.audit@[i].actor_id == audit@[i].actor_id
            &&& p.audit@[i].status_before == audit@[i].status_before
            &&& p.audit@[i].status_after == audit@[i].status_after
            &&& p.audit@[i].trace_id == audit@[i].trace_id
            &&& p.audit@[i].created_ms == audit@[i].created_ms
        },
        p.redacted,
{
    let title = human_title(approval.action.as_str());
    let mut summary = human_title(approval.action.as_str());
    push_str(&mut summary, " on ");
    push_str(&mut summary, approval.target_kind.as_str());
    push_str(&mut summary, " `");
    push_str(&mut summary, approval.target_id.as_str());
    push_str(&mut summary, "`");
    let mut rows: Vec<ApprovalUiAuditEvent> = Vec::new();
    let mut i: usize = 0;
    while i < audit.len()
        invariant
            i <= audit@.len(),
            rows@.len() == i,
            forall|k: int| 0 <= k < i ==> {
                &&& (#[trigger] rows@[k]).event_kind == audit@[k].event_kind
                &&& rows@[k].actor_id == audit@[k].actor_id
                &&& rows@[k].status_before == audit@[k].status_before
                &&& rows@[k].status_after == audit@[k].status_after
                &&& rows@[k].trace_id == audit@[k].trace_id
                &&& rows@[k].created_ms == audit@[k].created_ms
            },
        decreases audit.len() - i,
    {
        rows.push(ui_audit_event(&audit[i]));
        i = i + 1;
    }
    ApprovalUiPayload {
        schema_version: owned("corvid.approval.ui.v1"),
        id: approval.id.clone(),
        tenant_id: approval.tenant_id.clone(),
        title,
        summary,
        status: approval.status.clone(),
        risk_level: approval.risk_level.clone(),
        action: approval.action.clone(),
        target: ApprovalUiTarget { kind: approval.target_kind.clone(), id: approval.target_id.clone() },
        requester_actor_id: approval.requester_actor_id.clone(),
        approver_actor_id: copy_opt(&approval.approver_actor_id),
        delegated_to_actor_id: copy_opt(&approval.delegated_to_actor_id),
        required_role: approval.required_role.clone(),
        data_class: approval.data_class.clone(),
        irreversible: approval.irreversible,
        max_cost_usd_bits: approval.max_cost_usd_bits,
        expires_ms: approval.expires_ms,
        trace_id: approval.trace_id.clone(),
        replay_key: approval.replay_key.clone(),
        allowed_transitions: allowed_transitions(approval, viewer_actor_id, viewer_role),
        audit: rows,
        redacted: true,
    }
}

} // verus!
