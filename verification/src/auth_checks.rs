//! Pure validators for authorization-flow contracts: no store access, no
//! side effects.
//!
//! Both return diagnostics marked `redacted: true`, so the resulting
//! structures are safe to log without leaking claim values.

use vstd::prelude::*;
use crate::auth_records::{
    AuthActor, AuthTraceContext, AuthorizationDecision, JwtContractDiagnostic,
    JwtVerificationContract, PermissionRequirement,
};
use crate::text::{blank, is_blank, owned, starts_with, starts_with_str};

verus! {

/// Largest clock skew a JWT verifier may tolerate: five minutes.
pub const MAX_CLOCK_SKEW_MS: u64 = 300_000;

/// The JWKS URL is fetched over TLS, or from the local machine.
pub open spec fn secure_jwks_url(url: Seq<char>) -> bool {
    starts_with(url, "https://"@) || starts_with(url, "http://localhost"@) || starts_with(
        url,
        "http://127.0.0.1"@,
    )
}

/// The algorithms accepted for production tokens.
pub open spec fn production_algorithm(alg: Seq<char>) -> bool {
    alg == "RS256"@ || alg == "ES256"@ || alg == "EdDSA"@
}

/// The first thing wrong with `c`, if anything is.
pub open spec fn jwt_contract_failure(c: JwtVerificationContract) -> Option<Seq<char>> {
    if blank(c.issuer@) {
        Some("missing_issuer"@)
    } else if blank(c.audience@) {
        Some("missing_audience"@)
    } else if blank(c.jwks_url@) {
        Some("missing_jwks_url"@)
    } else if !secure_jwks_url(c.jwks_url@) {
        Some("jwks_url_not_https"@)
    } else if !production_algorithm(c.algorithm@) {
        Some("unsupported_algorithm"@)
    } else if blank(c.required_subject_claim@) {
        Some("missing_subject_claim"@)
    } else if blank(c.required_tenant_claim@) {
        Some("missing_tenant_claim"@)
    } else if c.clock_skew_ms > MAX_CLOCK_SKEW_MS {
        Some("clock_skew_too_large"@)
    } else {
        None
    }
}

/// Enforces the production constraints on a JWT verification contract.
pub fn validate_jwt_verification_contract(contract: &JwtVerificationContract) -> (r:
    JwtContractDiagnostic)
    ensures
        r.valid == (jwt_contract_failure(*contract) is None),
        r.failure_kind is Some == (jwt_contract_failure(*contract) is Some),
        r.failure_kind is Some ==> r.failure_kind->0@ == jwt_contract_failure(*contract)->0,
        r.redacted,
{
    let failure: Option<&str> = if is_blank(contract.issuer.as_str()) {
        Some("missing_issuer")
    } else if is_blank(contract.audience.as_str()) {
        Some("missing_audience")
    } else if is_blank(contract.jwks_url.as_str()) {
        Some("missing_jwks_url")
    } else if !(starts_with_str(contract.jwks_url.as_str(), "https://") || starts_with_str(
        contract.jwks_url.as_str(),
        "http://localhost",
    ) || starts_with_str(contract.jwks_url.as_str(), "http://127.0.0.1")) {
        Some("jwks_url_not_https")
    } else if !(contract.algorithm == owned("RS256") || contract.algorithm == owned("ES256")
        || contract.algorithm == owned("EdDSA")) {
        Some("unsupported_algorithm")
    } else if is_blank(contract.required_subject_claim.as_str()) {
        Some("missing_subject_claim")
    } else if is_blank(contract.required_tenant_claim.as_str()) {
        Some("missing_tenant_claim")
    } else if contract.clock_skew_ms > MAX_CLOCK_SKEW_MS {
        Some("clock_skew_too_large")
    } else {
        None
    };
    JwtContractDiagnostic {
        valid: failure.is_none(),
        failure_kind: match failure {
            Some(kind) => Some(owned(kind)),
            None => None,
        },
        redacted: true,
    }
}

/// Why the permission does not propagate, if it does not.
pub open spec fn permission_denial(
    actor: AuthActor,
    trace: AuthTraceContext,
    requirement: PermissionRequirement,
) -> Option<Seq<char>> {
    if actor.tenant_id@ != requirement.tenant_id@ {
        Some("actor tenant does not match requirement tenant"@)
    } else if trace.tenant_id@ != requirement.tenant_id@ {
        Some("trace tenant does not match requirement tenant"@)
    } else if trace.actor_id@ != actor.id@ {
        Some("trace actor does not match actor"@)
    } else if trace.trace_id@ != requirement.trace_id@ {
        Some("trace id does not match requirement"@)
    } else if actor.permission_fingerprint@ != requirement.permission_fingerprint@ {
        Some("actor permission fingerprint does not satisfy requirement"@)
    } else if trace.permission_fingerprint@ != requirement.permission_fingerprint@ {
        Some("trace permission fingerprint does not satisfy requirement"@)
    } else {
        None
    }
}

/// Cross-checks an actor and its trace context against a permission
/// requirement.
pub fn authorize_trace_permission(
    actor: &AuthActor,
    trace: &AuthTraceContext,
    requirement: &PermissionRequirement,
) -> (r: AuthorizationDecision)
    ensures
        r.allowed == (permission_denial(*actor, *trace, *requirement) is None),
        r.reason@ == match permission_denial(*actor, *trace, *requirement) {
            Some(m) => m,
            None => "permission propagated"@,
        },
        r.actor_id@ == actor.id@,
        r.tenant_id@ == requirement.tenant_id@,
        r.permission@ == requirement.permission@,
        r.surface_kind@ == requirement.surface_kind@,
        r.surface_id@ == requirement.surface_id@,
        r.trace_id@ == requirement.trace_id@,
        r.redacted,
{
    let reason: Option<&str> = if actor.tenant_id != requirement.tenant_id {
        Some("actor tenant does not match requirement tenant")
    } else if trace.tenant_id != requirement.tenant_id {
        Some("trace tenant does not match requirement tenant")
    } else if trace.actor_id != actor.id {
        Some("trace actor does not match actor")
    } else if trace.trace_id != requirement.trace_id {
        Some("trace id does not match requirement")
    } else if actor.permission_fingerprint != requirement.permission_fingerprint {
        Some("actor permission fingerprint does not satisfy requirement")
    } else if trace.permission_fingerprint != requirement.permission_fingerprint {
        Some("trace permission fingerprint does not satisfy requirement")
    } else {
        None
    };
    AuthorizationDecision {
        allowed: reason.is_none(),
        actor_id: actor.id.clone(),
        tenant_id: requirement.tenant_id.clone(),
        permission: requirement.permission.clone(),
        surface_kind: requirement.surface_kind.clone(),
        surface_id: requirement.surface_id.clone(),
        trace_id: requirement.trace_id.clone(),
        reason: owned(
            match reason {
                Some(m) => m,
                None => "permission propagated",
            },
        ),
        redacted: true,
    }
}

/// A permission propagates only to the tenant, actor and trace it was
/// granted for: whenever the decision allows, the actor, the trace and the
/// requirement all name the same tenant, the trace belongs to the actor and
/// to the required trace id, and both fingerprints match the requirement.
pub proof fn allowed_permission_is_bound(
    actor: AuthActor,
    trace: AuthTraceContext,
    requirement: PermissionRequirement,
)
    requires
        permission_denial(actor, trace, requirement) is None,
    ensures
        actor.tenant_id@ == requirement.tenant_id@,
        trace.tenant_id@ == requirement.tenant_id@,
        trace.actor_id@ == actor.id@,
        trace.trace_id@ == requirement.trace_id@,
        actor.permission_fingerprint@ == requirement.permission_fingerprint@,
        trace.permission_fingerprint@ == requirement.permission_fingerprint@,
{
}

/// A contract that passes validation fetches its keys securely, uses a
/// production algorithm and tolerates at most five minutes of skew.
pub proof fn valid_jwt_contract_is_production_grade(c: JwtVerificationContract)
    requires
        jwt_contract_failure(c) is None,
    ensures
        secure_jwks_url(c.jwks_url@),
        production_algorithm(c.algorithm@),
        c.clock_skew_ms <= MAX_CLOCK_SKEW_MS,
        !blank(c.issuer@),
        !blank(c.audience@),
        !blank(c.required_subject_claim@),
        !blank(c.required_tenant_claim@),
{
}

} // verus!
