use corvid_runtime::auth_checks::{authorize_trace_permission, validate_jwt_verification_contract};
use corvid_runtime::auth_records::{
    AuthActor, AuthTraceContext, JwtVerificationContract, PermissionRequirement,
};

fn actor(id: &str, tenant_id: &str) -> AuthActor {
    AuthActor {
        id: id.to_string(),
        tenant_id: tenant_id.to_string(),
        display_name: "Ada".to_string(),
        actor_kind: "user".to_string(),
        auth_method: "session".to_string(),
        assurance_level: "aal1".to_string(),
        role_fingerprint: "sha256:roles".to_string(),
        permission_fingerprint: "sha256:permissions".to_string(),
        created_ms: 1,
        updated_ms: 1,
    }
}

fn contract() -> JwtVerificationContract {
    JwtVerificationContract {
        issuer: "https://issuer.example".to_string(),
        audience: "corvid-api".to_string(),
        jwks_url: "https://issuer.example/.well-known/jwks.json".to_string(),
        algorithm: "RS256".to_string(),
        required_tenant_claim: "tenant".to_string(),
        required_subject_claim: "sub".to_string(),
        clock_skew_ms: 60_000,
    }
}

fn check_jwt_contract_validation() {
    let contract = contract();
    let ok = validate_jwt_verification_contract(&contract);
    assert!(ok.valid);
    assert_eq!(ok.failure_kind, None);
    assert!(ok.redacted);

    for (algorithm, failure) in [("none", "unsupported_algorithm"), ("HS256", "unsupported_algorithm")] {
        let mut bad = contract.clone();
        bad.algorithm = algorithm.to_string();
        let diagnostic = validate_jwt_verification_contract(&bad);
        assert!(!diagnostic.valid);
        assert_eq!(diagnostic.failure_kind.as_deref(), Some(failure));
        assert!(diagnostic.redacted);
    }

    let mut insecure = contract.clone();
    insecure.jwks_url = "http://issuer.example/jwks.json".to_string();
    let diagnostic = validate_jwt_verification_contract(&insecure);
    assert!(!diagnostic.valid);
    assert_eq!(diagnostic.failure_kind.as_deref(), Some("jwks_url_not_https"));
    assert!(diagnostic.redacted);
}

fn check_permission_propagation() {
    let actor = actor("user-1", "org-1");
    let trace = AuthTraceContext {
        trace_id: "trace-1".to_string(),
        tenant_id: "org-1".to_string(),
        actor_id: "user-1".to_string(),
        auth_method: "session".to_string(),
        session_id: "sess-1".to_string(),
        api_key_id: String::new(),
        permission_fingerprint: "sha256:permissions".to_string(),
        replay_key: "replay-1".to_string(),
    };
    let requirement = PermissionRequirement {
        tenant_id: "org-1".to_string(),
        permission: "CanReviewEmail".to_string(),
        permission_fingerprint: "sha256:permissions".to_string(),
        surface_kind: "job".to_string(),
        surface_id: "email_triage_job".to_string(),
        trace_id: "trace-1".to_string(),
    };
    let allowed = authorize_trace_permission(&actor, &trace, &requirement);
    assert!(allowed.allowed);
    assert_eq!(allowed.surface_kind, "job");
    assert_eq!(allowed.reason, "permission propagated");
    assert!(allowed.redacted);

    let mut cross_tenant = requirement.clone();
    cross_tenant.tenant_id = "org-2".to_string();
    let denied = authorize_trace_permission(&actor, &trace, &cross_tenant);
    assert!(!denied.allowed);
    assert!(denied.reason.contains("tenant"));

    let mut stale_trace = trace.clone();
    stale_trace.permission_fingerprint = "sha256:old".to_string();
    let denied = authorize_trace_permission(&actor, &stale_trace, &requirement);
    assert!(!denied.allowed);
    assert!(denied.reason.contains("trace permission"));
}

#[test]
fn approvals_jwt_contract_validation_accepts_production_algorithms_and_redacts_failures() {
    check_jwt_contract_validation();
}

#[test]
fn approvals_permission_propagation_binds_actor_tenant_trace_and_surface() {
    check_permission_propagation();
}

#[test]
fn mod_jwt_contract_validation_accepts_production_algorithms_and_redacts_failures() {
    check_jwt_contract_validation();
}

#[test]
fn mod_permission_propagation_binds_actor_tenant_trace_and_surface() {
    check_permission_propagation();
}
