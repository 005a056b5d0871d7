//! Records of the approval queue: contracts, queued approvals, audit events.

use vstd::prelude::*;

verus! {

/// The approval contract an approval request is bound to.
///
/// `max_cost_usd_bits` holds the contract's dollar ceiling as the bits of
/// an `f64` (`f64::to_bits`).
#[derive(Debug, Clone, PartialEq)]
pub struct ApprovalContractRecord {
    pub id: String,
    pub version: String,
    pub action: String,
    pub target_kind: String,
    pub target_id: String,
    pub tenant_id: String,
    pub required_role: String,
    pub max_cost_usd_bits: u64,
    pub data_class: String,
    pub irreversible: bool,
    pub expires_ms: u64,
    pub replay_key: String,
    pub created_ms: u64,
}

/// A request to queue an approval.
#[derive(Debug, Clone, PartialEq)]
pub struct ApprovalCreate {
    pub id: String,
    pub tenant_id: String,
    pub requester_actor_id: String,
    pub contract: ApprovalContractRecord,
    pub risk_level: String,
    pub trace_id: String,
}

/// A queued approval and its current decision state.
#[derive(Debug, Clone, PartialEq)]
pub struct ApprovalQueueRecord {
    pub id: String,
    pub tenant_id: String,
    pub requester_actor_id: String,
    pub approver_actor_id: Option<String>,
    pub delegated_to_actor_id: Option<String>,
    pub contract_id: String,
    pub contract_version: String,
    pub action: String,
    pub target_kind: String,
    pub target_id: String,
    pub status: String,
    pub required_role: String,
    pub risk_level: String,
    pub data_class: String,
    pub irreversible: bool,
    pub max_cost_usd_bits: u64,
    pub expires_ms: u64,
    pub trace_id: String,
    pub replay_key: String,
    pub created_ms: u64,
    pub updated_ms: u64,
}

/// One row of an approval's audit trail.
#[derive(Debug, Clone, PartialEq, Eq)]
pub struct ApprovalQueueAuditEvent {
    pub id: String,
    pub approval_id: String,
    pub tenant_id: String,
    pub actor_id: String,
    pub event_kind: String,
    pub status_before: String,
    pub status_after: String,
    pub reason: Option<String>,
    pub trace_id: String,
    pub created_ms: u64,
}

/// Whether an approval's audit trail covers its life so far.
#[derive(Debug, Clone, PartialEq, Eq)]
pub struct ApprovalAuditCoverage {
    pub approval_id: String,
    pub tenant_id: String,
    pub trace_id: String,
    pub current_status: String,
    pub event_count: usize,
    pub has_create: bool,
    pub has_terminal_transition: bool,
    pub complete: bool,
}

/// A copy of an optional string.
pub fn copy_opt(o: &Option<String>) -> (r: Option<String>)
    ensures
        r == *o,
{
    match o {
        Some(s) => Some(s.clone()),
        None => None,
    }
}

/// An optional string from an optional slice.
pub fn opt_owned(o: Option<&str>) -> (r: Option<String>)
    ensures
        r is Some <==> o is Some,
        r is Some ==> r->0@ == o->0@,
{
    match o {
        Some(s) => Some(s.to_owned()),
        None => None,
    }
}

impl ApprovalContractRecord {
    pub fn duplicate(&self) -> (r: Self)
        ensures
            r == *self,
    {
        ApprovalContractRecord {
            id: self.id.clone(),
            version: self.version.clone(),
            action: self.action.clone(),
            target_kind: self.target_kind.clone(),
            target_id: self.target_id.clone(),
            tenant_id: self.tenant_id.clone(),
            required_role: self.required_role.clone(),
            max_cost_usd_bits: self.max_cost_usd_bits,
            data_class: self.data_class.clone(),
            irreversible: self.irreversible,
            expires_ms: self.expires_ms,
            replay_key: self.replay_key.clone(),
            created_ms: self.created_ms,
        }
    }
}

impl ApprovalQueueRecord {
    pub fn duplicate(&self) -> (r: Self)
        ensures
            r == *self,
    {
        ApprovalQueueRecord {
            id: self.id.clone(),
            tenant_id: self.tenant_id.clone(),
            requester_actor_id: self.requester_actor_id.clone(),
            approver_actor_id: copy_opt(&self.approver_actor_id),
            delegated_to_actor_id: copy_opt(&self.delegated_to_actor_id),
            contract_id: self.contract_id.clone(),
            contract_version: self.contract_version.clone(),
            action: self.action.clone(),
            target_kind: self.target_kind.clone(),
            target_id: self.target_id.clone(),
            status: self.status.clone(),
            required_role: self.required_role.clone(),
            risk_level: self.risk_level.clone(),
            data_class: self.data_class.clone(),
            irreversible: self.irreversible,
            max_cost_usd_bits: self.max_cost_usd_bits,
            expires_ms: self.expires_ms,
            trace_id: self.trace_id.clone(),
            replay_key: self.replay_key.clone(),
            created_ms: self.created_ms,
            updated_ms: self.updated_ms,
        }
    }
}

impl ApprovalQueueAuditEvent {
    pub fn duplicate(&self) -> (r: Self)
        ensures
            r == *self,
    {
        ApprovalQueueAuditEvent {
            id: self.id.clone(),
            approval_id: self.approval_id.clone(),
            tenant_id: self.tenant_id.clone(),
            actor_id: self.actor_id.clone(),
            event_kind: self.event_kind.clone(),
            status_before: self.status_before.clone(),
            status_after: self.status_after.clone(),
            reason: copy_opt(&self.reason),
            trace_id: self.trace_id.clone(),
            created_ms: self.created_ms,
        }
    }
}

} // verus!
