//! Records of the authentication store.

use vstd::prelude::*;

verus! {

#[derive(Debug, Clone, PartialEq, Eq)]
pub struct AuthActor {
    pub id: String,
    pub tenant_id: String,
    pub display_name: String,
    pub actor_kind: String,
    pub auth_method: String,
    pub assurance_level: String,
    pub role_fingerprint: String,
    pub permission_fingerprint: String,
    pub created_ms: u64,
    pub updated_ms: u64,
}

#[derive(Debug, Clone, PartialEq, Eq)]
pub struct SessionRecord {
    pub id: String,
    pub actor_id: String,
    pub tenant_id: String,
    pub token_hash: String,
    pub issued_ms: u64,
    pub expires_ms: u64,
    pub rotation_counter: u64,
    pub csrf_binding_id: String,
    pub revoked_ms: Option<u64>,
    pub created_ms: u64,
    pub updated_ms: u64,
}

#[derive(Debug, Clone, PartialEq, Eq)]
pub struct SessionCreate {
    pub id: String,
    pub actor_id: String,
    pub tenant_id: String,
    pub raw_token: String,
    pub issued_ms: u64,
    pub expires_ms: u64,
    pub csrf_binding_id: String,
}

#[derive(Debug, Clone, PartialEq, Eq)]
pub struct ApiKeyRecord {
    pub id: String,
    pub service_actor_id: String,
    pub tenant_id: String,
    pub key_hash: String,
    pub scope_fingerprint: String,
    pub expires_ms: u64,
    pub last_used_ms: Option<u64>,
    pub revoked_ms: Option<u64>,
    pub created_ms: u64,
    pub updated_ms: u64,
}

#[derive(Debug, Clone, PartialEq, Eq)]
pub struct ApiKeyCreate {
    pub id: String,
    pub service_actor_id: String,
    pub tenant_id: String,
    pub raw_key: String,
    pub scope_fingerprint: String,
    pub expires_ms: u64,
}

#[derive(Debug, Clone, PartialEq, Eq)]
pub struct AuthTraceContext {
    pub trace_id: String,
    pub tenant_id: String,
    pub actor_id: String,
    pub auth_method: String,
    pub session_id: String,
    pub api_key_id: String,
    pub permission_fingerprint: String,
    pub replay_key: String,
}

#[derive(Debug, Clone, PartialEq, Eq)]
pub struct SessionResolution {
    pub actor: AuthActor,
    pub session: SessionRecord,
    pub trace: AuthTraceContext,
}

#[derive(Debug, Clone, PartialEq, Eq)]
pub struct ApiKeyResolution {
    pub actor: AuthActor,
    pub api_key: ApiKeyRecord,
    pub trace: AuthTraceContext,
}

#[derive(Debug, Clone, PartialEq, Eq)]
pub struct JwtVerificationContract {
    pub issuer: String,
    pub audience: String,
    pub jwks_url: String,
    pub algorithm: String,
    pub required_tenant_claim: String,
    pub required_subject_claim: String,
    pub clock_skew_ms: u64,
}

#[derive(Debug, Clone, PartialEq, Eq)]
pub struct JwtContractDiagnostic {
    pub valid: bool,
    pub failure_kind: Option<String>,
    pub redacted: bool,
}

#[derive(Debug, Clone, PartialEq, Eq)]
pub struct OAuthStateCreate {
    pub id: String,
    pub provider: String,
    pub tenant_id: String,
    pub actor_id: String,
    pub raw_state: String,
    pub pkce_verifier_ref: String,
    pub nonce_fingerprint: String,
    pub expires_ms: u64,
    pub replay_key: String,
}

#[derive(Debug, Clone, PartialEq, Eq)]
pub struct OAuthStateRecord {
    pub id: String,
    pub provider: String,
    pub tenant_id: String,
    pub actor_id: String,
    pub state_hash: String,
    pub pkce_verifier_ref: String,
    pub nonce_fingerprint: String,
    pub expires_ms: u64,
    pub replay_key: String,
    pub used_ms: Option<u64>,
    pub created_ms: u64,
    pub updated_ms: u64,
}

#[derive(Debug, Clone, PartialEq, Eq)]
pub struct OAuthCallbackResolution {
    pub actor: AuthActor,
    pub state: OAuthStateRecord,
    pub trace: AuthTraceContext,
}

#[derive(Debug, Clone, PartialEq, Eq)]
pub struct PermissionRequirement {
    pub tenant_id: String,
    pub permission: String,
    pub permission_fingerprint: String,
    pub surface_kind: String,
    pub surface_id: String,
    pub trace_id: String,
}

#[derive(Debug, Clone, PartialEq, Eq)]
pub struct AuthorizationDecision {
    pub allowed: bool,
    pub actor_id: String,
    pub tenant_id: String,
    pub permission: String,
    pub surface_kind: String,
    pub surface_id: String,
    pub trace_id: String,
    pub reason: String,
    pub redacted: bool,
}

#[derive(Debug, Clone, PartialEq, Eq)]
pub struct AuthAuditEvent {
    pub id: String,
    pub event_kind: String,
    pub actor_id: Option<String>,
    pub tenant_id: Option<String>,
    pub session_id: Option<String>,
    pub api_key_id: Option<String>,
    pub trace_id: Option<String>,
    pub status: String,
    pub reason: String,
    pub created_ms: u64,
}

impl AuthActor {
    /// A copy of the record.
    pub fn duplicate(&self) -> (r: AuthActor)
        ensures
            r == *self,
    {
        AuthActor {
            id: self.id.clone(),
            tenant_id: self.tenant_id.clone(),
            display_name: self.display_name.clone(),
            actor_kind: self.actor_kind.clone(),
            auth_method: self.auth_method.clone(),
            assurance_level: self.assurance_level.clone(),
            role_fingerprint: self.role_fingerprint.clone(),
            permission_fingerprint: self.permission_fingerprint.clone(),
            created_ms: self.created_ms,
            updated_ms: self.updated_ms,
        }
    }
}

impl SessionRecord {
    /// A copy of the record.
    pub fn duplicate(&self) -> (r: SessionRecord)
        ensures
            r == *self,
    {
        SessionRecord {
            id: self.id.clone(),
            actor_id: self.actor_id.clone(),
            tenant_id: self.tenant_id.clone(),
            token_hash: self.token_hash.clone(),
            issued_ms: self.issued_ms,
            expires_ms: self.expires_ms,
            rotation_counter: self.rotation_counter,
            csrf_binding_id: self.csrf_binding_id.clone(),
            revoked_ms: self.revoked_ms,
            created_ms: self.created_ms,
            updated_ms: self.updated_ms,
        }
    }
}

impl ApiKeyRecord {
    /// A copy of the record.
    pub fn duplicate(&self) -> (r: ApiKeyRecord)
        ensures
            r == *self,
    {
        ApiKeyRecord {
            id: self.id.clone(),
            service_actor_id: self.service_actor_id.clone(),
            tenant_id: self.tenant_id.clone(),
            key_hash: self.key_hash.clone(),
            scope_fingerprint: self.scope_fingerprint.clone(),
            expires_ms: self.expires_ms,
            last_used_ms: self.last_used_ms,
            revoked_ms: self.revoked_ms,
            created_ms: self.created_ms,
            updated_ms: self.updated_ms,
        }
    }
}

impl OAuthStateRecord {
    /// A copy of the record.
    pub fn duplicate(&self) -> (r: OAuthStateRecord)
        ensures
            r == *self,
    {
        OAuthStateRecord {
            id: self.id.clone(),
            provider: self.provider.clone(),
            tenant_id: self.tenant_id.clone(),
            actor_id: self.actor_id.clone(),
            state_hash: self.state_hash.clone(),
            pkce_verifier_ref: self.pkce_verifier_ref.clone(),
            nonce_fingerprint: self.nonce_fingerprint.clone(),
            expires_ms: self.expires_ms,
            replay_key: self.replay_key.clone(),
            used_ms: self.used_ms,
            created_ms: self.created_ms,
            updated_ms: self.updated_ms,
        }
    }
}

impl AuthAuditEvent {
    /// A copy of the record.
    pub fn duplicate(&self) -> (r: AuthAuditEvent)
        ensures
            r == *self,
    {
        AuthAuditEvent {
            id: self.id.clone(),
            event_kind: self.event_kind.clone(),
            actor_id: crate::approval_records::copy_opt(&self.actor_id),
            tenant_id: crate::approval_records::copy_opt(&self.tenant_id),
            session_id: crate::approval_records::copy_opt(&self.session_id),
            api_key_id: crate::approval_records::copy_opt(&self.api_key_id),
            trace_id: crate::approval_records::copy_opt(&self.trace_id),
            status: self.status.clone(),
            reason: self.reason.clone(),
            created_ms: self.created_ms,
        }
    }
}

} // verus!
