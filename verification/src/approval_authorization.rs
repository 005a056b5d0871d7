//! Authorization checks for approval queue transitions.
//!
//! The queue owns state and audit. This module owns the security decision
//! for who may approve, deny, or delegate a pending approval.

use vstd::prelude::*;
use crate::approval_records::ApprovalQueueRecord;
use crate::errors::{other, refused_as, RuntimeError};
use crate::text::{blank, cat, is_blank, owned, str_eq};

verus! {

#[derive(Debug, Clone, PartialEq, Eq)]
pub struct ApprovalActorContext {
    pub actor_id: String,
    pub tenant_id: String,
    pub role: String,
}

#[derive(Debug, Clone, Copy, PartialEq, Eq)]
pub enum ApprovalTransitionKind {
    Approve,
    Deny,
    Delegate,
}

/// Why an actor context is malformed, if it is.
pub open spec fn actor_refusal(actor: ApprovalActorContext) -> Option<Seq<char>> {
    if blank(actor.actor_id@) {
        Some("approval actor id"@ + " must not be empty"@)
    } else if blank(actor.tenant_id@) {
        Some("approval actor tenant"@ + " must not be empty"@)
    } else if blank(actor.role@) {
        Some("approval actor role"@ + " must not be empty"@)
    } else {
        None
    }
}

/// Why `actor` may not perform `transition` on `approval` at `at_ms`, if
/// they may not.
pub open spec fn transition_refusal(
    approval: ApprovalQueueRecord,
    actor: ApprovalActorContext,
    transition: ApprovalTransitionKind,
    at_ms: u64,
) -> Option<Seq<char>> {
    if actor_refusal(actor) is Some {
        actor_refusal(actor)
    } else if actor.tenant_id@ != approval.tenant_id@ {
        Some("approval actor tenant mismatch"@)
    } else if actor.role@ != approval.required_role@ {
        Some("approval actor role does not satisfy required role"@)
    } else if actor.actor_id@ == approval.requester_actor_id@ {
        Some("approval requester cannot approve their own request"@)
    } else if approval.delegated_to_actor_id is Some && actor.actor_id@
        != approval.delegated_to_actor_id->0@ {
        Some("approval is delegated to a different actor"@)
    } else if transition == ApprovalTransitionKind::Approve && at_ms >= approval.expires_ms {
        Some("approval contract expired before approval transition"@)
    } else {
        None
    }
}

/// Why `approval` may not be delegated to `target`, if it may not.
pub open spec fn delegate_target_refusal(approval: ApprovalQueueRecord, target: Seq<char>) -> Option<
    Seq<char>,
> {
    if blank(target) {
        Some("delegated actor id must not be empty"@)
    } else if target == approval.requester_actor_id@ {
        Some("approval cannot be delegated to the requester"@)
    } else {
        None
    }
}

/// Decides whether `actor` may approve, deny or delegate `approval`.
pub fn authorize_approval_transition(
    approval: &ApprovalQueueRecord,
    actor: &ApprovalActorContext,
    transition: ApprovalTransitionKind,
    at_ms: u64,
) -> (r: Result<(), RuntimeError>)
    ensures
        refused_as(r, transition_refusal(*approval, *actor, transition, at_ms)),
{
    validate_actor(actor)?;
    if actor.tenant_id != approval.tenant_id {
        return deny("approval actor tenant mismatch");
    }
    if actor.role != approval.required_role {
        return deny("approval actor role does not satisfy required role");
    }
    if actor.actor_id == approval.requester_actor_id {
        return deny("approval requester cannot approve their own request");
    }
    if let Some(delegated_to) = &approval.delegated_to_actor_id {
        if actor.actor_id != *delegated_to {
            return deny("approval is delegated to a different actor");
        }
    }
    if matches!(transition, ApprovalTransitionKind::Approve) && at_ms >= approval.expires_ms {
        return deny("approval contract expired before approval transition");
    }
    Ok(())
}

/// Decides whether `approval` may be handed to `delegated_to_actor_id`.
pub fn authorize_approval_delegate_target(
    approval: &ApprovalQueueRecord,
    delegated_to_actor_id: &str,
) -> (r: Result<(), RuntimeError>)
    ensures
        refused_as(r, delegate_target_refusal(*approval, delegated_to_actor_id@)),
{
    if is_blank(delegated_to_actor_id) {
        return deny("delegated actor id must not be empty");
    }
    if str_eq(approval.requester_actor_id.as_str(), delegated_to_actor_id) {
        return deny("approval cannot be delegated to the requester");
    }
    Ok(())
}

fn validate_actor(actor: &ApprovalActorContext) -> (r: Result<(), RuntimeError>)
    ensures
        refused_as(r, actor_refusal(*actor)),
{
    if is_blank(actor.actor_id.as_str()) {
        return Err(other(cat("approval actor id", " must not be empty")));
    }
    if is_blank(actor.tenant_id.as_str()) {
        return Err(other(cat("approval actor tenant", " must not be empty")));
    }
    if is_blank(actor.role.as_str()) {
        return Err(other(cat("approval actor role", " must not be empty")));
    }
    Ok(())
}

fn deny(message: &str) -> (r: Result<(), RuntimeError>)
    ensures
        r matches Err(RuntimeError::Other(m)) && m@ == message@,
{
    Err(other(owned(message)))
}

/// No approval may be delegated to the actor who requested it, whoever
/// that is.
pub proof fn requester_is_never_a_delegate(approval: ApprovalQueueRecord, target: Seq<char>)
    requires
        target == approval.requester_actor_id@,
    ensures
        delegate_target_refusal(approval, target) is Some,
{
}

} // verus!
