use corvid_runtime::auth_records::{ApiKeyCreate, AuthActor, OAuthStateCreate, SessionCreate};
use corvid_runtime::auth_store::{
    hash_api_key_secret, hash_oauth_state, hash_session_secret, verify_api_key_secret,
    SessionAuthRuntime,
};
use corvid_runtime::errors::RuntimeError;

fn actor(id: &str, tenant_id: &str, kind: &str) -> AuthActor {
    AuthActor {
        id: id.to_string(),
        tenant_id: tenant_id.to_string(),
        display_name: "Ada".to_string(),
        actor_kind: kind.to_string(),
        auth_method: "session".to_string(),
        assurance_level: "aal1".to_string(),
        role_fingerprint: "sha256:roles".to_string(),
        permission_fingerprint: "sha256:permissions".to_string(),
        created_ms: 1,
        updated_ms: 1,
    }
}

fn session(id: &str, token: &str, issued: u64, expires: u64) -> SessionCreate {
    SessionCreate {
        id: id.to_string(),
        actor_id: "user-1".to_string(),
        tenant_id: "org-1".to_string(),
        raw_token: token.to_string(),
        issued_ms: issued,
        expires_ms: expires,
        csrf_binding_id: "csrf-1".to_string(),
    }
}

fn message(err: RuntimeError) -> String {
    err.message()
}

#[test]
fn session_hash_is_prefixed_hex_digest() {
    let h = hash_session_secret("raw-session-secret");
    assert!(h.starts_with("sha256:"));
    assert_eq!(h.len(), "sha256:".len() + 64);
    assert!(!h.contains("raw-session-secret"));
    assert_ne!(h, hash_oauth_state("raw-session-secret"));
    assert_eq!(h, hash_session_secret("raw-session-secret"));
}

#[test]
fn session_runtime_resolves_actor_context_and_survives_restart() {
    let mut auth = SessionAuthRuntime::new();
    auth.upsert_actor_at(actor("user-1", "org-1", "user"), 10).ok().unwrap();
    let created = auth.create_session_at(session("sess-1", "raw-session-secret", 1_000, 9_000), 50).ok().unwrap();
    assert_eq!(created.token_hash, hash_session_secret("raw-session-secret"));
    assert!(!created.token_hash.contains("raw-session-secret"));
    assert_eq!(created.rotation_counter, 0);
    let resolved = auth
        .resolve_session_at("raw-session-secret", "org-1", "trace-1", "replay-auth-1", 5_000, 60)
        .ok()
        .unwrap();
    assert_eq!(resolved.actor.id, "user-1");
    assert_eq!(resolved.trace.tenant_id, "org-1");
    assert_eq!(resolved.trace.actor_id, "user-1");
    assert_eq!(resolved.trace.session_id, "sess-1");
    assert_eq!(resolved.trace.replay_key, "replay-auth-1");
    let audit = auth.audit_events();
    assert_eq!(audit.len(), 1);
    assert_eq!(audit[0].status, "allowed");
    assert_eq!(audit[0].session_id.as_deref(), Some("sess-1"));
    assert!(audit[0].id.starts_with("auth_audit_60_"));
}

#[test]
fn session_runtime_rejects_expired_revoked_and_cross_tenant_sessions() {
    let mut auth = SessionAuthRuntime::new();
    auth.upsert_actor_at(actor("user-1", "org-1", "user"), 1).ok().unwrap();
    auth.create_session_at(session("sess-1", "secret-1", 1_000, 2_000), 1).ok().unwrap();

    let expired = auth
        .resolve_session_at("secret-1", "org-1", "trace-expired", "replay-expired", 2_000, 10)
        .err()
        .unwrap();
    assert!(message(expired).contains("session expired"));
    let tenant = auth
        .resolve_session_at("secret-1", "org-2", "trace-tenant", "replay-tenant", 1_500, 11)
        .err()
        .unwrap();
    assert!(message(tenant).contains("tenant mismatch"));
    auth.revoke_session("sess-1", 1_600).ok().unwrap();
    let revoked = auth
        .resolve_session_at("secret-1", "org-1", "trace-revoked", "replay-revoked", 1_700, 12)
        .err()
        .unwrap();
    assert!(message(revoked).contains("session revoked"));

    let audit = auth.audit_events();
    assert_eq!(audit.len(), 3);
    assert!(audit.iter().all(|event| event.status == "denied"));
    assert!(audit
        .iter()
        .all(|event| !event.reason.contains("secret-1") && !event.id.contains("secret-1")));
}

#[test]
fn session_rotation_invalidates_old_token_and_preserves_rotation_counter() {
    let mut auth = SessionAuthRuntime::new();
    auth.upsert_actor_at(actor("user-1", "org-1", "user"), 1).ok().unwrap();
    auth.create_session_at(session("sess-1", "old-secret", 1_000, 5_000), 1).ok().unwrap();

    let rotated = auth.rotate_session_at("sess-1", "new-secret", 8_000, 2).ok().unwrap();
    assert_eq!(rotated.rotation_counter, 1);
    assert_eq!(rotated.token_hash, hash_session_secret("new-secret"));
    assert!(auth
        .resolve_session_at("old-secret", "org-1", "trace-old", "replay-old", 2_000, 3)
        .is_err());
    let resolved = auth
        .resolve_session_at("new-secret", "org-1", "trace-new", "replay-new", 2_000, 4)
        .ok()
        .unwrap();
    assert_eq!(resolved.session.rotation_counter, 1);
}

#[test]
fn session_creation_validates_inputs() {
    let mut auth = SessionAuthRuntime::new();
    let err = auth.create_session_at(session("sess-1", "t", 1, 2), 1).err().unwrap();
    assert_eq!(message(err), "auth actor `user-1` not found");
    auth.upsert_actor_at(actor("user-1", "org-1", "user"), 1).ok().unwrap();
    let err = auth.create_session_at(session(" ", "t", 1, 2), 1).err().unwrap();
    assert_eq!(message(err), "session id must not be empty");
    let err = auth.create_session_at(session("sess-1", "t", 5, 5), 1).err().unwrap();
    assert_eq!(message(err), "session expiry must be after issue time");
    auth.create_session_at(session("sess-1", "t", 1, 2), 1).ok().unwrap();
    let err = auth.create_session_at(session("sess-1", "u", 1, 2), 1).err().unwrap();
    assert_eq!(message(err), "failed to create session: UNIQUE constraint failed: auth_sessions.id");
    let err = auth.create_session_at(session("sess-2", "t", 1, 2), 1).err().unwrap();
    assert_eq!(
        message(err),
        "failed to create session: UNIQUE constraint failed: auth_sessions.token_hash"
    );
}

#[test]
fn upsert_keeps_creation_time_and_defaults_timestamps() {
    let mut auth = SessionAuthRuntime::new();
    let mut a = actor("user-1", "org-1", "user");
    a.created_ms = 0;
    a.updated_ms = 0;
    let first = auth.upsert_actor_at(a.clone(), 100).ok().unwrap();
    assert_eq!((first.created_ms, first.updated_ms), (100, 100));
    let mut b = a.clone();
    b.display_name = "Grace".to_string();
    b.created_ms = 7;
    let second = auth.upsert_actor_at(b, 200).ok().unwrap();
    assert_eq!((second.created_ms, second.updated_ms), (100, 200));
    assert_eq!(auth.get_actor("user-1").unwrap().display_name, "Grace");
    let err = auth.upsert_actor_at(actor("", "org-1", "user"), 1).err().unwrap();
    assert_eq!(message(err), "actor id must not be empty");
}

fn oauth(id: &str, state: &str, expires: u64) -> OAuthStateCreate {
    OAuthStateCreate {
        id: id.to_string(),
        provider: "github".to_string(),
        tenant_id: "org-1".to_string(),
        actor_id: "user-1".to_string(),
        raw_state: state.to_string(),
        pkce_verifier_ref: "pkce-1".to_string(),
        nonce_fingerprint: "nonce-1".to_string(),
        expires_ms: expires,
        replay_key: "replay-oauth".to_string(),
    }
}

#[test]
fn oauth_state_is_single_use_and_expires() {
    let mut auth = SessionAuthRuntime::new();
    auth.upsert_actor_at(actor("user-1", "org-1", "user"), 1).ok().unwrap();
    let err = auth.create_oauth_state_at(oauth("st-1", "state-1", 100), 100).err().unwrap();
    assert_eq!(message(err), "oauth state expiry must be in the future");
    let rec = auth.create_oauth_state_at(oauth("st-1", "state-1", 1_000), 100).ok().unwrap();
    assert_eq!(rec.state_hash, hash_oauth_state("state-1"));
    assert!(rec.used_ms.is_none());

    let resolved = auth.resolve_oauth_callback_at("state-1", "org-1", "trace-1", 500, 501).ok().unwrap();
    assert_eq!(resolved.state.used_ms, Some(500));
    assert_eq!(resolved.trace.auth_method, "oauth");
    assert_eq!(resolved.trace.replay_key, "replay-oauth");
    let again = auth.resolve_oauth_callback_at("state-1", "org-1", "trace-2", 600, 601).err().unwrap();
    assert_eq!(message(again), "oauth callback denied: state already used");

    auth.create_oauth_state_at(oauth("st-2", "state-2", 1_000), 100).ok().unwrap();
    let expired = auth.resolve_oauth_callback_at("state-2", "org-1", "trace-3", 1_000, 1_001).err().unwrap();
    assert_eq!(message(expired), "oauth callback denied: state expired");
    let audit = auth.audit_events();
    assert_eq!(audit.len(), 3);
    assert_eq!(audit[0].status, "allowed");
    assert_eq!(audit[1].reason, "oauth state already used");
}

#[test]
fn api_keys_hash_verify_and_resolve_only_for_service_actors() {
    let hashed = hash_api_key_secret("key-secret-1").ok().unwrap();
    assert!(hashed.starts_with("$argon2id$"));
    assert!(!hashed.contains("key-secret-1"));
    assert_eq!(verify_api_key_secret("key-secret-1", &hashed).ok(), Some(true));
    assert_eq!(verify_api_key_secret("other", &hashed).ok(), Some(false));
    let bad = verify_api_key_secret("key-secret-1", "not a phc string").err().unwrap();
    assert!(message(bad).starts_with("invalid stored api key hash: "));

    let mut auth = SessionAuthRuntime::new();
    auth.upsert_actor_at(actor("svc-1", "org-1", "service"), 1).ok().unwrap();
    auth.upsert_actor_at(actor("user-1", "org-1", "user"), 1).ok().unwrap();
    let input = |id: &str, actor: &str| ApiKeyCreate {
        id: id.to_string(),
        service_actor_id: actor.to_string(),
        tenant_id: "org-1".to_string(),
        raw_key: "key-secret-1".to_string(),
        scope_fingerprint: "sha256:scope".to_string(),
        expires_ms: 10_000,
    };
    let err = auth.create_api_key_at(input("key-0", "user-1"), 5).err().unwrap();
    assert_eq!(message(err), "api keys must resolve to service actors");
    let key = auth.create_api_key_at(input("key-1", "svc-1"), 5).ok().unwrap();
    assert!(key.key_hash.starts_with("$argon2id$"));

    let resolved = auth
        .resolve_api_key_at("key-secret-1", "org-1", "trace-1", "replay-1", 100, 101)
        .ok()
        .unwrap();
    assert_eq!(resolved.actor.id, "svc-1");
    assert_eq!(resolved.api_key.last_used_ms, Some(100));
    assert_eq!(resolved.trace.api_key_id, "key-1");
    assert_eq!(resolved.trace.auth_method, "api_key");

    let wrong = auth
        .resolve_api_key_at("wrong-secret", "org-1", "trace-2", "replay-2", 100, 102)
        .err()
        .unwrap();
    assert_eq!(message(wrong), "api key resolve denied: key not found");
    let expired = auth
        .resolve_api_key_at("key-secret-1", "org-1", "trace-3", "replay-3", 10_000, 103)
        .err()
        .unwrap();
    assert_eq!(message(expired), "api key resolve denied: key expired");
    auth.revoke_api_key("key-1", 200).ok().unwrap();
    let revoked = auth
        .resolve_api_key_at("key-secret-1", "org-1", "trace-4", "replay-4", 300, 104)
        .err()
        .unwrap();
    assert_eq!(message(revoked), "api key resolve denied: key not found");
}

#[test]
fn unknown_session_token_is_denied_and_audited() {
    let mut auth = SessionAuthRuntime::new();
    auth.upsert_actor_at(actor("user-1", "org-1", "user"), 1).ok().unwrap();
    let unknown = auth
        .resolve_session_at("nope", "org-1", "trace-unknown", "replay", 1_700, 13)
        .err()
        .unwrap();
    assert_eq!(message(unknown), "session resolve denied: token not found");
    let audit = auth.audit_events();
    assert_eq!(audit.len(), 1);
    assert_eq!(audit[0].status, "denied");
}
