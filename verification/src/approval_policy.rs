//! Policy every approval contract must satisfy before it may be queued.

use vstd::prelude::*;
use crate::approval_records::ApprovalContractRecord;
use crate::auth_store::now_ms;
use crate::floatbits::{bits_is_finite, bits_is_negative, is_finite, is_negative};
use crate::text::{blank, is_blank, owned};

verus! {

#[derive(Debug, Clone, PartialEq, Eq)]
pub struct ApprovalContractPolicyReport {
    pub contract_id: String,
    pub valid: bool,
    pub violations: Vec<String>,
}

/// Longest lifetime an irreversible contract may have: one day.
pub const IRREVERSIBLE_MAX_LIFETIME_MS: u64 = 86_400_000;

/// `[s]` when `cond` holds, `[]` otherwise.
pub open spec fn when(cond: bool, s: Seq<char>) -> Seq<Seq<char>> {
    if cond {
        seq![s]
    } else {
        Seq::empty()
    }
}

/// `u64::saturating_sub`.
pub open spec fn sat_sub(a: u64, b: u64) -> int {
    if a >= b {
        a - b
    } else {
        0
    }
}

/// The violations of `contract` at time `now`, in the order they are
/// reported.
pub open spec fn policy_violations(contract: ApprovalContractRecord, now: u64) -> Seq<Seq<char>> {
    when(blank(contract.action@), "missing_action"@) + when(
        blank(contract.target_kind@) || blank(contract.target_id@),
        "missing_target"@,
    ) + when(blank(contract.required_role@), "missing_required_role"@) + when(
        !is_finite(contract.max_cost_usd_bits) || is_negative(contract.max_cost_usd_bits),
        "invalid_max_cost"@,
    ) + when(blank(contract.data_class@), "missing_data_class"@) + when(
        contract.expires_ms <= now,
        "expired_contract"@,
    ) + when(
        contract.irreversible && (contract.required_role@ == "Member"@ || contract.required_role@
            == "Service"@),
        "irreversible_requires_elevated_role"@,
    ) + when(
        contract.irreversible && contract.data_class@ == "unknown"@,
        "irreversible_requires_known_data_class"@,
    ) + when(
        contract.irreversible && sat_sub(contract.expires_ms, now) > IRREVERSIBLE_MAX_LIFETIME_MS,
        "irreversible_expiry_too_long"@,
    )
}

pub open spec fn report_views(v: Seq<String>) -> Seq<Seq<char>> {
    v.map_values(|s: String| s@)
}

fn push_when(v: &mut Vec<String>, cond: bool, s: &str)
    ensures
        report_views(final(v)@) == report_views(old(v)@) + when(cond, s@),
{
    let ghost before = report_views(v@);
    if cond {
        v.push(owned(s));
        assert(report_views(v@) =~= before + seq![s@]);
    } else {
        assert(report_views(v@) =~= before + Seq::<Seq<char>>::empty());
    }
}

/// Checks `contract` against the approval policy at the current time.
pub fn validate_approval_contract_policy(contract: &ApprovalContractRecord) -> (r:
    ApprovalContractPolicyReport)
    ensures
        r.contract_id@ == contract.id@,
        exists|now: u64|
            report_views(r.violations@) == #[trigger] policy_violations(*contract, now)
                && r.valid == (policy_violations(*contract, now).len() == 0),
{
    let now = now_ms();
    validate_approval_contract_policy_at(contract, now)
}

/// Checks `contract` against the approval policy at time `now`.
pub fn validate_approval_contract_policy_at(contract: &ApprovalContractRecord, now: u64) -> (r:
    ApprovalContractPolicyReport)
    ensures
        r.contract_id@ == contract.id@,
        report_views(r.violations@) == policy_violations(*contract, now),
        r.valid == (policy_violations(*contract, now).len() == 0),
{
    let mut violations: Vec<String> = Vec::new();
    assert(report_views(violations@) =~= Seq::<Seq<char>>::empty());
    push_when(&mut violations, is_blank(contract.action.as_str()), "missing_action");
    let missing_target = is_blank(contract.target_kind.as_str()) || is_blank(
        contract.target_id.as_str(),
    );
    push_when(&mut violations, missing_target, "missing_target");
    push_when(&mut violations, is_blank(contract.required_role.as_str()), "missing_required_role");
    let bad_cost = !bits_is_finite(contract.max_cost_usd_bits) || bits_is_negative(
        contract.max_cost_usd_bits,
    );
    push_when(&mut violations, bad_cost, "invalid_max_cost");
    push_when(&mut violations, is_blank(contract.data_class.as_str()), "missing_data_class");
    push_when(&mut violations, contract.expires_ms <= now, "expired_contract");
    let member = owned("Member");
    let service = owned("Service");
    let unknown = owned("unknown");
    let weak_role = contract.irreversible && (contract.required_role == member
        || contract.required_role == service);
    push_when(&mut violations, weak_role, "irreversible_requires_elevated_role");
    let unknown_class = contract.irreversible && contract.data_class == unknown;
    push_when(&mut violations, unknown_class, "irreversible_requires_known_data_class");
    let remaining = contract.expires_ms.saturating_sub(now);
    push_when(
        &mut violations,
        contract.irreversible && remaining > IRREVERSIBLE_MAX_LIFETIME_MS,
        "irreversible_expiry_too_long",
    );
    assert(report_views(violations@) == policy_violations(*contract, now));
    ApprovalContractPolicyReport {
        contract_id: contract.id.clone(),
        valid: violations.len() == 0,
        violations,
    }
}

/// An irreversible contract that a `Member` or a `Service` role may
/// approve is never valid: whatever else it says and whenever it is
/// checked, its violations include `irreversible_requires_elevated_role`.
pub proof fn irreversible_needs_an_elevated_role(contract: ApprovalContractRecord, now: u64)
    requires
        contract.irreversible,
        contract.required_role@ == "Member"@ || contract.required_role@ == "Service"@,
    ensures
        policy_violations(contract, now).contains("irreversible_requires_elevated_role"@),
        policy_violations(contract, now).len() > 0,
{
    let head = when(blank(contract.action@), "missing_action"@) + when(
        blank(contract.target_kind@) || blank(contract.target_id@),
        "missing_target"@,
    ) + when(blank(contract.required_role@), "missing_required_role"@) + when(
        !is_finite(contract.max_cost_usd_bits) || is_negative(contract.max_cost_usd_bits),
        "invalid_max_cost"@,
    ) + when(blank(contract.data_class@), "missing_data_class"@) + when(
        contract.expires_ms <= now,
        "expired_contract"@,
    );
    let mid = when(true, "irreversible_requires_elevated_role"@);
    let tail = when(
        contract.irreversible && contract.data_class@ == "unknown"@,
        "irreversible_requires_known_data_class"@,
    ) + when(
        contract.irreversible && sat_sub(contract.expires_ms, now) > IRREVERSIBLE_MAX_LIFETIME_MS,
        "irreversible_expiry_too_long"@,
    );
    assert(policy_violations(contract, now) == head + mid + tail);
    assert((head + mid + tail)[head.len() as int] == "irreversible_requires_elevated_role"@);
}

} // verus!
