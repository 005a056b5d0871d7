//! The authentication store: actors, sessions, OAuth states and API keys,
//! with an audit row for every resolution attempt.
//!
//! Secrets are never stored: session tokens and OAuth states are kept as
//! SHA-256 digests, API keys as Argon2id hashes. Failed operations leave
//! the store as it was, except that a denied resolution is audited.
//! Times are passed in by the caller.

use vstd::prelude::*;
use vstd::utf8::encode_utf8;
use crate::approval_queue::{must_not_be_empty, opt_view};
use crate::auth_records::{ApiKeyCreate, ApiKeyRecord, ApiKeyResolution, AuthActor, AuthAuditEvent, AuthTraceContext, OAuthCallbackResolution, OAuthStateCreate, OAuthStateRecord, SessionCreate, SessionRecord, SessionResolution};

use crate::digest::{encode_hex, hex_prefix, hex_text, lemma_hex_text_len, sha256_digest, sha256_of_text};
use crate::errors::{is_other_err, other, refused_as, RuntimeError};
use crate::text::{blank, cat, cat3, dec, is_blank, lex_lt, owned, push_str, str_eq, string_lt, u64_to_decimal};
use argon2::password_hash::{PasswordHash, PasswordHasher, PasswordVerifier, SaltString};
use argon2::Argon2;
use rand_core::OsRng;

verus! {

pub struct SessionAuthRuntime {
    actors: Vec<AuthActor>,
    sessions: Vec<SessionRecord>,
    api_keys: Vec<ApiKeyRecord>,
    oauth_states: Vec<OAuthStateRecord>,
    audit: Vec<AuthAuditEvent>,
}

/// The store's tables, each in insertion order: actors, sessions, API
/// keys, OAuth states, audit events.
pub type AuthState = (
    Seq<AuthActor>,
    Seq<SessionRecord>,
    Seq<ApiKeyRecord>,
    Seq<OAuthStateRecord>,
    Seq<AuthAuditEvent>,
);

impl View for SessionAuthRuntime {
    type V = AuthState;

    closed spec fn view(&self) -> AuthState {
        (self.actors@, self.sessions@, self.api_keys@, self.oauth_states@, self.audit@)
    }
}

// ---------------------------------------------------------------------
// Digests

/// The stored form of a session token.
pub open spec fn session_hash(raw: Seq<char>) -> Seq<char> {
    "sha256:"@ + hex_text(sha256_digest(encode_utf8("corvid-auth-session-v1:"@ + raw)))
}

/// The stored form of an OAuth state.
pub open spec fn oauth_hash(raw: Seq<char>) -> Seq<char> {
    "sha256:"@ + hex_text(sha256_digest(encode_utf8("corvid-auth-oauth-state-v1:"@ + raw)))
}

/// `sha256:` and the hex SHA-256 digest of the session-token domain tag
/// and the token: what a session stores instead of its token.
pub fn hash_session_secret(raw_token: &str) -> (r: String)
    ensures
        r@ == session_hash(raw_token@),
        r@.len() == 71,
{
    let text = cat("corvid-auth-session-v1:", raw_token);
    let d = sha256_of_text(text.as_str());
    let hex = encode_hex(d.as_slice());
    proof {
        lemma_hex_text_len(d@);
        reveal_strlit("sha256:");
    }
    cat("sha256:", hex.as_str())
}

/// `sha256:` and the hex SHA-256 digest of the OAuth-state domain tag
/// and the state: what an OAuth state record stores instead of it.
pub fn hash_oauth_state(raw_state: &str) -> (r: String)
    ensures
        r@ == oauth_hash(raw_state@),
        r@.len() == 71,
{
    let text = cat("corvid-auth-oauth-state-v1:", raw_state);
    let d = sha256_of_text(text.as_str());
    let hex = encode_hex(d.as_slice());
    proof {
        lemma_hex_text_len(d@);
        reveal_strlit("sha256:");
    }
    cat("sha256:", hex.as_str())
}

pub open spec fn or_empty(o: Option<Seq<char>>) -> Seq<char> {
    match o {
        Some(s) => s,
        None => Seq::empty(),
    }
}

/// 16 hex digits derived from an audit event's kind, session and trace.
pub open spec fn stable_suffix(kind: Seq<char>, session: Option<Seq<char>>, trace: Option<Seq<char>>) -> Seq<char> {
    hex_text(sha256_digest(encode_utf8(kind + ":"@ + or_empty(session) + ":"@ + or_empty(trace)))).take(16)
}

/// The id of an audit event written at `now`.
pub open spec fn auth_audit_id(now: u64, kind: Seq<char>, session: Option<Seq<char>>, trace: Option<Seq<char>>) -> Seq<char> {
    "auth_audit_"@ + dec(now as nat) + "_"@ + stable_suffix(kind, session, trace)
}

fn audit_event_id(now: u64, kind: &str, session: &Option<String>, trace: &Option<String>) -> (r: String)
    ensures
        r@ == auth_audit_id(now, kind@, opt_view(*session), opt_view(*trace)),
{
    let mut text = owned(kind);
    push_str(&mut text, ":");
    match session {
        Some(s) => push_str(&mut text, s.as_str()),
        None => {},
    }
    push_str(&mut text, ":");
    match trace {
        Some(t) => push_str(&mut text, t.as_str()),
        None => {},
    }
    assert(text@ =~= kind@ + ":"@ + or_empty(opt_view(*session)) + ":"@ + or_empty(opt_view(*trace)));
    let d = sha256_of_text(text.as_str());
    proof {
        lemma_hex_text_len(d@);
    }
    let suffix = hex_prefix(d.as_slice(), 16);
    let mut id = owned("auth_audit_");
    let ms = u64_to_decimal(now);
    push_str(&mut id, ms.as_str());
    push_str(&mut id, "_");
    push_str(&mut id, suffix.as_str());
    id
}

// ---------------------------------------------------------------------
// API-key secrets

pub open spec fn result_view(r: Result<String, String>) -> Result<Seq<char>, Seq<char>> {
    match r {
        Ok(s) => Ok(s@),
        Err(e) => Err(e@),
    }
}

pub open spec fn verdict_view(r: Result<bool, String>) -> Result<bool, Seq<char>> {
    match r {
        Ok(b) => Ok(b),
        Err(e) => Err(e@),
    }
}

/// What Argon2id (default parameters) gives for a secret and a B64 salt:
/// the PHC string of the hash, or the error's text.
pub uninterp spec fn argon2_hash_of(raw: Seq<char>, salt: Seq<char>) -> Result<Seq<char>, Seq<char>>;

/// What checking a secret against a stored PHC string gives: the parse
/// error's text when the string does not parse, otherwise whether the
/// secret matches.
pub uninterp spec fn argon2_verify_of(raw: Seq<char>, encoded: Seq<char>) -> Result<bool, Seq<char>>;

/// A PHC string that Argon2id made of this secret under some salt.
pub open spec fn made_from(raw: Seq<char>, encoded: Seq<char>) -> bool {
    exists|salt: Seq<char>| argon2_hash_of(raw, salt) == Ok::<Seq<char>, Seq<char>>(encoded)
}

/// `SaltString::generate(&mut OsRng)`: a fresh salt from the operating
/// system's random generator, in B64. Nothing is stated of its value.
#[verifier::external_body]
fn random_salt() -> (r: String) {
    SaltString::generate(&mut OsRng).as_str().to_owned()
}

/// `Argon2::default().hash_password` of `raw` with the salt parsed by
/// `SaltString::from_b64`: the PHC string, or the error's text; named by
/// [`argon2_hash_of`].
#[verifier::external_body]
fn argon2_hash(raw: &str, salt: &str) -> (r: Result<String, String>)
    ensures
        result_view(r) == argon2_hash_of(raw@, salt@),
{
    let salt = match SaltString::from_b64(salt) {
        Ok(s) => s,
        Err(e) => return Err(e.to_string()),
    };
    match Argon2::default().hash_password(raw.as_bytes(), &salt) {
        Ok(h) => Ok(h.to_string()),
        Err(e) => Err(e.to_string()),
    }
}

/// `PasswordHash::new(encoded)` and, when it parses,
/// `Argon2::default().verify_password(raw, ..)`: the parse error's text,
/// or whether the secret matches; named by [`argon2_verify_of`]. A string
/// that `hash_password` made from the same secret (under any salt) parses
/// and verifies: `verify_password` hashes the secret again with the salt
/// and parameters read from the string and compares the outputs.
#[verifier::external_body]
fn argon2_verify(raw: &str, encoded: &str) -> (r: Result<bool, String>)
    ensures
        verdict_view(r) == argon2_verify_of(raw@, encoded@),
        made_from(raw@, encoded@) ==> r matches Ok(true),
{
    let parsed = match PasswordHash::new(encoded) {
        Ok(p) => p,
        Err(e) => return Err(e.to_string()),
    };
    Ok(Argon2::default().verify_password(raw.as_bytes(), &parsed).is_ok())
}

/// Hashes an API-key secret with Argon2id under a fresh random salt: a
/// blank secret is refused; otherwise the result is the hash for some
/// salt, or the hashing error.
pub fn hash_api_key_secret(raw_key: &str) -> (r: Result<String, RuntimeError>)
    ensures
        blank(raw_key@) ==> is_other_err(r, must_not_be_empty("api key secret"@)),
        !blank(raw_key@) ==> (r matches Ok(h) ==> made_from(raw_key@, h@)),
        !blank(raw_key@) ==> (r is Err ==> exists|salt: Seq<char>, m: Seq<char>|
            argon2_hash_of(raw_key@, salt) == Err::<Seq<char>, Seq<char>>(m) && is_other_err(
                r,
                "failed to hash api key: "@ + m,
            )),
{
    validate_non_empty("api key secret", raw_key)?;
    let salt = random_salt();
    match argon2_hash(raw_key, salt.as_str()) {
        Ok(h) => Ok(h),
        Err(e) => Err(other(cat("failed to hash api key: ", e.as_str()))),
    }
}

/// Checks an API-key secret against a stored hash (see
/// [`argon2_verify_of`]); a blank secret is refused, and a secret always
/// verifies against a hash that [`hash_api_key_secret`] made of it.
pub fn verify_api_key_secret(raw_key: &str, encoded_hash: &str) -> (r: Result<bool, RuntimeError>)
    ensures
        blank(raw_key@) ==> is_other_err(r, must_not_be_empty("api key secret"@)),
        !blank(raw_key@) && made_from(raw_key@, encoded_hash@) ==> r == Ok::<bool, RuntimeError>(true),
        !blank(raw_key@) ==> match argon2_verify_of(raw_key@, encoded_hash@) {
            Ok(b) => r == Ok::<bool, RuntimeError>(b),
            Err(m) => is_other_err(r, "invalid stored api key hash: "@ + m),
        },
{
    validate_non_empty("api key secret", raw_key)?;
    match argon2_verify(raw_key, encoded_hash) {
        Ok(b) => Ok(b),
        Err(e) => Err(other(cat("invalid stored api key hash: ", e.as_str()))),
    }
}

/// The current time in milliseconds since the Unix epoch, read from the
/// system clock (`SystemTime::now`; zero if the clock is before the
/// epoch). Nothing is stated of its value.
#[verifier::external_body]
pub(crate) fn now_ms() -> (r: u64) {
    match std::time::SystemTime::now().duration_since(std::time::UNIX_EPOCH) {
        Ok(d) => d.as_millis() as u64,
        Err(_) => 0,
    }
}

// ---------------------------------------------------------------------
// Lookups

/// Index of the last actor with this id, or -1.
pub open spec fn actor_index(s: Seq<AuthActor>, key: Seq<char>) -> int
    decreases s.len(),
{
    if s.len() == 0 {
        -1
    } else if s.last().id@ == key {
        s.len() - 1
    } else {
        actor_index(s.drop_last(), key)
    }
}

/// Index of the last session with this id, or -1.
pub open spec fn session_index(s: Seq<SessionRecord>, key: Seq<char>) -> int
    decreases s.len(),
{
    if s.len() == 0 {
        -1
    } else if s.last().id@ == key {
        s.len() - 1
    } else {
        session_index(s.drop_last(), key)
    }
}

/// Index of the last session with this token hash, or -1.
pub open spec fn session_hash_index(s: Seq<SessionRecord>, key: Seq<char>) -> int
    decreases s.len(),
{
    if s.len() == 0 {
        -1
    } else if s.last().token_hash@ == key {
        s.len() - 1
    } else {
        session_hash_index(s.drop_last(), key)
    }
}

/// Index of the last API key with this id, or -1.
pub open spec fn key_index(s: Seq<ApiKeyRecord>, key: Seq<char>) -> int
    decreases s.len(),
{
    if s.len() == 0 {
        -1
    } else if s.last().id@ == key {
        s.len() - 1
    } else {
        key_index(s.drop_last(), key)
    }
}

/// Index of the last OAuth state with this id, or -1.
pub open spec fn state_index(s: Seq<OAuthStateRecord>, key: Seq<char>) -> int
    decreases s.len(),
{
    if s.len() == 0 {
        -1
    } else if s.last().id@ == key {
        s.len() - 1
    } else {
        state_index(s.drop_last(), key)
    }
}

/// Index of the last OAuth state with this state hash, or -1.
pub open spec fn state_hash_index(s: Seq<OAuthStateRecord>, key: Seq<char>) -> int
    decreases s.len(),
{
    if s.len() == 0 {
        -1
    } else if s.last().state_hash@ == key {
        s.len() - 1
    } else {
        state_hash_index(s.drop_last(), key)
    }
}

pub open spec fn find_actor(st: AuthState, id: Seq<char>) -> int {
    actor_index(st.0, id)
}

pub open spec fn find_session(st: AuthState, id: Seq<char>) -> int {
    session_index(st.1, id)
}

pub open spec fn find_session_hash(st: AuthState, hash: Seq<char>) -> int {
    session_hash_index(st.1, hash)
}

pub open spec fn find_key(st: AuthState, id: Seq<char>) -> int {
    key_index(st.2, id)
}

pub open spec fn find_state(st: AuthState, id: Seq<char>) -> int {
    state_index(st.3, id)
}

pub open spec fn find_state_hash(st: AuthState, hash: Seq<char>) -> int {
    state_hash_index(st.3, hash)
}

proof fn lemma_actor_index(s: Seq<AuthActor>, key: Seq<char>)
    ensures
        -1 <= actor_index(s, key) < s.len(),
        actor_index(s, key) >= 0 ==> s[actor_index(s, key)].id@ == key,
        actor_index(s, key) < 0 ==> forall|i: int| 0 <= i < s.len() ==> (#[trigger] s[i]).id@ != key,
    decreases s.len(),
{
    if s.len() > 0 {
        lemma_actor_index(s.drop_last(), key);
        if s.last().id@ != key {
            assert forall|i: int| 0 <= i < s.len() - 1 implies s[i] == s.drop_last()[i] by {}
        }
    }
}

proof fn lemma_session_hash_index(s: Seq<SessionRecord>, key: Seq<char>)
    ensures
        -1 <= session_hash_index(s, key) < s.len(),
        session_hash_index(s, key) >= 0 ==> s[session_hash_index(s, key)].token_hash@ == key,
        session_hash_index(s, key) < 0 ==> forall|i: int| 0 <= i < s.len() ==> (#[trigger] s[i]).token_hash@ != key,
    decreases s.len(),
{
    if s.len() > 0 {
        lemma_session_hash_index(s.drop_last(), key);
        if s.last().token_hash@ != key {
            assert forall|i: int| 0 <= i < s.len() - 1 implies s[i] == s.drop_last()[i] by {}
        }
    }
}

proof fn lemma_session_index(s: Seq<SessionRecord>, key: Seq<char>)
    ensures
        -1 <= session_index(s, key) < s.len(),
    decreases s.len(),
{
    if s.len() > 0 {
        lemma_session_index(s.drop_last(), key);
    }
}

proof fn lemma_state_hash_index(s: Seq<OAuthStateRecord>, key: Seq<char>)
    ensures
        -1 <= state_hash_index(s, key) < s.len(),
        state_hash_index(s, key) >= 0 ==> s[state_hash_index(s, key)].state_hash@ == key,
        state_hash_index(s, key) < 0 ==> forall|i: int| 0 <= i < s.len() ==> (#[trigger] s[i]).state_hash@ != key,
    decreases s.len(),
{
    if s.len() > 0 {
        lemma_state_hash_index(s.drop_last(), key);
        if s.last().state_hash@ != key {
            assert forall|i: int| 0 <= i < s.len() - 1 implies s[i] == s.drop_last()[i] by {}
        }
    }
}

/// Whether some audit event has id `id`.
pub open spec fn audit_taken(st: AuthState, id: Seq<char>) -> bool {
    exists|i: int| 0 <= i < st.4.len() && (#[trigger] st.4[i]).id@ == id
}

// ---------------------------------------------------------------------
// Audit

/// What an audit row records.
pub struct AuditEntry {
    pub kind: Seq<char>,
    pub actor: Option<Seq<char>>,
    pub tenant: Option<Seq<char>>,
    pub session: Option<Seq<char>>,
    pub api_key: Option<Seq<char>>,
    pub trace: Option<Seq<char>>,
    pub status: Seq<char>,
    pub reason: Seq<char>,
}

pub open spec fn entry_id(x: AuditEntry, now: u64) -> Seq<char> {
    auth_audit_id(now, x.kind, x.session, x.trace)
}

/// `e` is the row for `x` written at `now`.
pub open spec fn is_entry(e: AuthAuditEvent, x: AuditEntry, now: u64) -> bool {
    &&& e.id@ == entry_id(x, now)
    &&& e.event_kind@ == x.kind
    &&& opt_view(e.actor_id) == x.actor
    &&& opt_view(e.tenant_id) == x.tenant
    &&& opt_view(e.session_id) == x.session
    &&& opt_view(e.api_key_id) == x.api_key
    &&& opt_view(e.trace_id) == x.trace
    &&& e.status@ == x.status
    &&& e.reason@ == x.reason
    &&& e.created_ms == now
}

pub open spec fn audit_insert_failure() -> Seq<char> {
    "failed to insert auth audit event: UNIQUE constraint failed: auth_audit_events.id"@
}

/// `new` is `old` with one more audit row, for `x` at `now`.
pub open spec fn audited(old: AuthState, new: AuthState, x: AuditEntry, now: u64) -> bool {
    &&& new.0 == old.0
    &&& new.1 == old.1
    &&& new.2 == old.2
    &&& new.3 == old.3
    &&& new.4.len() == old.4.len() + 1
    &&& new.4.drop_last() == old.4
    &&& is_entry(new.4.last(), x, now)
}

/// A denial that is audited: when the row's id is free the row is added
/// and `r` fails with `msg`; otherwise nothing changes and `r` reports
/// the failed insert.
pub open spec fn audited_denial<T>(
    old: AuthState,
    new: AuthState,
    r: Result<T, RuntimeError>,
    x: AuditEntry,
    msg: Seq<char>,
    now: u64,
) -> bool {
    if audit_taken(old, entry_id(x, now)) {
        is_other_err(r, audit_insert_failure()) && new == old
    } else {
        is_other_err(r, msg) && audited(old, new, x, now)
    }
}

pub open spec fn not_empty_refusal(label: Seq<char>, value: Seq<char>) -> Option<Seq<char>> {
    if blank(value) {
        Some(must_not_be_empty(label))
    } else {
        None
    }
}

fn validate_non_empty(label: &str, value: &str) -> (r: Result<(), RuntimeError>)
    ensures
        refused_as(r, not_empty_refusal(label@, value@)),
{
    if is_blank(value) {
        Err(other(cat(label, " must not be empty")))
    } else {
        Ok(())
    }
}

// ---------------------------------------------------------------------
// Actors and sessions: what each operation decides

/// Why an actor cannot be stored, if it cannot.
pub open spec fn actor_refusal(a: AuthActor) -> Option<Seq<char>> {
    if blank(a.id@) {
        Some(must_not_be_empty("actor id"@))
    } else if blank(a.tenant_id@) {
        Some(must_not_be_empty("tenant id"@))
    } else if blank(a.actor_kind@) {
        Some(must_not_be_empty("actor kind"@))
    } else if blank(a.auth_method@) {
        Some(must_not_be_empty("auth method"@))
    } else {
        None
    }
}

/// A timestamp, or `now` when it is unset (zero).
pub open spec fn stamp(ms: u64, now: u64) -> u64 {
    if ms == 0 {
        now
    } else {
        ms
    }
}

/// The actor as stored by an upsert: the given fields, timestamps
/// defaulted to `now`, and an existing actor's creation time kept.
pub open spec fn upserted(st: AuthState, a: AuthActor, now: u64) -> AuthActor {
    let i = find_actor(st, a.id@);
    AuthActor {
        created_ms: if i >= 0 {
            st.0[i].created_ms
        } else {
            stamp(a.created_ms, now)
        },
        updated_ms: stamp(a.updated_ms, now),
        ..a
    }
}

pub open spec fn actor_not_found(id: Seq<char>) -> Seq<char> {
    "auth actor `"@ + id + "` not found"@
}

pub open spec fn session_not_found(id: Seq<char>) -> Seq<char> {
    "auth session `"@ + id + "` not found"@
}

/// Why a session cannot be created, if it cannot.
pub open spec fn session_create_refusal(st: AuthState, input: SessionCreate) -> Option<Seq<char>> {
    if blank(input.id@) {
        Some(must_not_be_empty("session id"@))
    } else if blank(input.actor_id@) {
        Some(must_not_be_empty("actor id"@))
    } else if blank(input.tenant_id@) {
        Some(must_not_be_empty("tenant id"@))
    } else if blank(input.raw_token@) {
        Some(must_not_be_empty("session token"@))
    } else if input.expires_ms <= input.issued_ms {
        Some("session expiry must be after issue time"@)
    } else if find_actor(st, input.actor_id@) < 0 {
        Some(actor_not_found(input.actor_id@))
    } else if st.0[find_actor(st, input.actor_id@)].tenant_id@ != input.tenant_id@ {
        Some("session actor tenant mismatch"@)
    } else if find_session(st, input.id@) >= 0 {
        Some("failed to create session: UNIQUE constraint failed: auth_sessions.id"@)
    } else if find_session_hash(st, session_hash(input.raw_token@)) >= 0 {
        Some("failed to create session: UNIQUE constraint failed: auth_sessions.token_hash"@)
    } else {
        None
    }
}

/// The session a create stores: the token kept only as its digest, not
/// rotated, not revoked, stamped `now`.
pub open spec fn is_new_session(r: SessionRecord, input: SessionCreate, now: u64) -> bool {
    &&& r.id@ == input.id@
    &&& r.actor_id@ == input.actor_id@
    &&& r.tenant_id@ == input.tenant_id@
    &&& r.token_hash@ == session_hash(input.raw_token@)
    &&& r.issued_ms == input.issued_ms
    &&& r.expires_ms == input.expires_ms
    &&& r.rotation_counter == 0
    &&& r.csrf_binding_id@ == input.csrf_binding_id@
    &&& r.revoked_ms is None
    &&& r.created_ms == now
    &&& r.updated_ms == now
}

/// No two sessions share a token digest, so a token names at most one
/// session.
pub open spec fn distinct_token_hashes(st: AuthState) -> bool {
    forall|i: int, j: int|
        0 <= i < st.1.len() && 0 <= j < st.1.len() && i != j ==> (#[trigger] st.1[i]).token_hash@
            != (#[trigger] st.1[j]).token_hash@
}

/// The first problem with the three values a resolution needs.
pub open spec fn three_refusal(
    l1: Seq<char>,
    v1: Seq<char>,
    l2: Seq<char>,
    v2: Seq<char>,
    l3: Seq<char>,
    v3: Seq<char>,
) -> Option<Seq<char>> {
    if blank(v1) {
        Some(must_not_be_empty(l1))
    } else if blank(v2) {
        Some(must_not_be_empty(l2))
    } else if blank(v3) {
        Some(must_not_be_empty(l3))
    } else {
        None
    }
}

/// Why a found session is refused: revoked, expired at `at_ms`, or of
/// another tenant; the audit reason and the error message.
pub open spec fn session_denial(s: SessionRecord, tenant: Seq<char>, at_ms: u64) -> Option<(Seq<char>, Seq<char>)> {
    if s.revoked_ms is Some {
        Some(("session revoked"@, "session resolve denied: session revoked"@))
    } else if at_ms >= s.expires_ms {
        Some(("session expired"@, "session resolve denied: session expired"@))
    } else if s.tenant_id@ != tenant {
        Some(("tenant mismatch"@, "session resolve denied: tenant mismatch"@))
    } else {
        None
    }
}

pub open spec fn session_entry(s: SessionRecord, trace: Seq<char>, status: Seq<char>, reason: Seq<char>) -> AuditEntry {
    AuditEntry {
        kind: "session.resolve"@,
        actor: Some(s.actor_id@),
        tenant: Some(s.tenant_id@),
        session: Some(s.id@),
        api_key: None,
        trace: Some(trace),
        status,
        reason,
    }
}

/// The audit row of a session resolution that is granted.
pub open spec fn session_grant(actor: AuthActor, s: SessionRecord, trace: Seq<char>) -> AuditEntry {
    AuditEntry {
        kind: "session.resolve"@,
        actor: Some(actor.id@),
        tenant: Some(s.tenant_id@),
        session: Some(s.id@),
        api_key: None,
        trace: Some(trace),
        status: "allowed"@,
        reason: "session resolved"@,
    }
}

/// The trace context a resolution binds.
pub open spec fn is_trace(
    t: AuthTraceContext,
    trace: Seq<char>,
    tenant: Seq<char>,
    actor: AuthActor,
    method: Seq<char>,
    session: Seq<char>,
    api_key: Seq<char>,
    replay: Seq<char>,
) -> bool {
    &&& t.trace_id@ == trace
    &&& t.tenant_id@ == tenant
    &&& t.actor_id@ == actor.id@
    &&& t.auth_method@ == method
    &&& t.session_id@ == session
    &&& t.api_key_id@ == api_key
    &&& t.permission_fingerprint@ == actor.permission_fingerprint@
    &&& t.replay_key@ == replay
}

/// What resolving a session token does, once the inputs are present: an
/// unknown token, a revoked, expired or foreign session, or an actor of
/// another tenant is denied and audited; a missing actor is an error;
/// otherwise the session resolves to its actor and the grant is audited.
pub open spec fn session_resolve_outcome(
    old: AuthState,
    new: AuthState,
    raw: Seq<char>,
    tenant: Seq<char>,
    trace: Seq<char>,
    replay: Seq<char>,
    at_ms: u64,
    now: u64,
    r: Result<SessionResolution, RuntimeError>,
) -> bool {
    let i = find_session_hash(old, session_hash(raw));
    if i < 0 {
        audited_denial(
            old,
            new,
            r,
            AuditEntry {
                kind: "session.resolve"@,
                actor: None,
                tenant: Some(tenant),
                session: None,
                api_key: None,
                trace: Some(trace),
                status: "denied"@,
                reason: "session token not found"@,
            },
            "session resolve denied: token not found"@,
            now,
        )
    } else {
        let s = old.1[i];
        match session_denial(s, tenant, at_ms) {
            Some((why, msg)) => audited_denial(old, new, r, session_entry(s, trace, "denied"@, why), msg, now),
            None => {
                let a = find_actor(old, s.actor_id@);
                if a < 0 {
                    is_other_err(r, "session actor not found"@) && new == old
                } else if old.0[a].tenant_id@ != s.tenant_id@ {
                    audited_denial(
                        old,
                        new,
                        r,
                        session_entry(s, trace, "denied"@, "actor tenant mismatch"@),
                        "session resolve denied: actor tenant mismatch"@,
                        now,
                    )
                } else {
                    let x = session_grant(old.0[a], s, trace);
                    if audit_taken(old, entry_id(x, now)) {
                        is_other_err(r, audit_insert_failure()) && new == old
                    } else {
                        &&& audited(old, new, x, now)
                        &&& r matches Ok(res)
                        &&& res.actor == old.0[a]
                        &&& res.session == s
                        &&& is_trace(res.trace, trace, s.tenant_id@, old.0[a], old.0[a].auth_method@, s.id@, Seq::empty(), replay)
                    }
                }
            },
        }
    }
}

/// Why a rotation is refused, if it is.
pub open spec fn rotate_refusal(st: AuthState, id: Seq<char>, raw: Seq<char>, expires: u64) -> Option<Seq<char>> {
    if blank(id) {
        Some(must_not_be_empty("session id"@))
    } else if blank(raw) {
        Some(must_not_be_empty("session token"@))
    } else if find_session(st, id) < 0 {
        Some(session_not_found(id))
    } else if expires <= st.1[find_session(st, id)].issued_ms {
        Some("rotated session expiry must be after issue time"@)
    } else if exists|j: int| 0 <= j < st.1.len() && j != find_session(st, id) && (#[trigger] st.1[j]).token_hash@ == session_hash(raw) {
        Some("failed to rotate session: UNIQUE constraint failed: auth_sessions.token_hash"@)
    } else {
        None
    }
}

/// A rotation of session `id` to token `raw` and expiry `expires` at
/// `now`, taking the store from `old` to `new`: the session keeps its
/// identity, gets the new token's digest, its counter goes up (saturating)
/// and any revocation is lifted; nothing else changes.
pub open spec fn rotated(
    old: AuthState,
    new: AuthState,
    id: Seq<char>,
    raw: Seq<char>,
    expires: u64,
    now: u64,
    rec: SessionRecord,
) -> bool {
    let i = find_session(old, id);
    let s = old.1[i];
    &&& rec == (SessionRecord {
        token_hash: rec.token_hash,
        expires_ms: expires,
        rotation_counter: bump(s.rotation_counter),
        revoked_ms: None,
        updated_ms: now,
        ..s
    })
    &&& rec.token_hash@ == session_hash(raw)
    &&& new.1 == old.1.update(i, rec)
    &&& new.0 == old.0
    &&& new.2 == old.2
    &&& new.3 == old.3
    &&& new.4 == old.4
}

pub open spec fn bump(n: u64) -> u64 {
    if n == u64::MAX {
        n
    } else {
        (n + 1) as u64
    }
}

// ---------------------------------------------------------------------
// OAuth states and API keys: what each operation decides

/// Why an OAuth state cannot be created at `now`, if it cannot.
pub open spec fn oauth_create_refusal(st: AuthState, input: OAuthStateCreate, now: u64) -> Option<Seq<char>> {
    if blank(input.id@) {
        Some(must_not_be_empty("oauth state id"@))
    } else if blank(input.provider@) {
        Some(must_not_be_empty("oauth provider"@))
    } else if blank(input.tenant_id@) {
        Some(must_not_be_empty("tenant id"@))
    } else if blank(input.actor_id@) {
        Some(must_not_be_empty("actor id"@))
    } else if blank(input.raw_state@) {
        Some(must_not_be_empty("oauth state"@))
    } else if blank(input.pkce_verifier_ref@) {
        Some(must_not_be_empty("pkce verifier reference"@))
    } else if blank(input.nonce_fingerprint@) {
        Some(must_not_be_empty("nonce fingerprint"@))
    } else if blank(input.replay_key@) {
        Some(must_not_be_empty("replay key"@))
    } else if input.expires_ms <= now {
        Some("oauth state expiry must be in the future"@)
    } else if find_actor(st, input.actor_id@) < 0 {
        Some(actor_not_found(input.actor_id@))
    } else if st.0[find_actor(st, input.actor_id@)].tenant_id@ != input.tenant_id@ {
        Some("oauth actor tenant mismatch"@)
    } else if find_state(st, input.id@) >= 0 {
        Some("failed to create oauth state: UNIQUE constraint failed: auth_oauth_states.id"@)
    } else if find_state_hash(st, oauth_hash(input.raw_state@)) >= 0 {
        Some("failed to create oauth state: UNIQUE constraint failed: auth_oauth_states.state_hash"@)
    } else {
        None
    }
}

/// The OAuth state a create stores: the state kept only as its digest,
/// unused, stamped `now`.
pub open spec fn is_new_state(r: OAuthStateRecord, input: OAuthStateCreate, now: u64) -> bool {
    &&& r.id@ == input.id@
    &&& r.provider@ == input.provider@
    &&& r.tenant_id@ == input.tenant_id@
    &&& r.actor_id@ == input.actor_id@
    &&& r.state_hash@ == oauth_hash(input.raw_state@)
    &&& r.pkce_verifier_ref@ == input.pkce_verifier_ref@
    &&& r.nonce_fingerprint@ == input.nonce_fingerprint@
    &&& r.expires_ms == input.expires_ms
    &&& r.replay_key@ == input.replay_key@
    &&& r.used_ms is None
    &&& r.created_ms == now
    &&& r.updated_ms == now
}

/// Why a found OAuth state is refused: already used, expired at
/// `at_ms`, or of another tenant.
pub open spec fn state_denial(s: OAuthStateRecord, tenant: Seq<char>, at_ms: u64) -> Option<(Seq<char>, Seq<char>)> {
    if s.used_ms is Some {
        Some(("oauth state already used"@, "oauth callback denied: state already used"@))
    } else if at_ms >= s.expires_ms {
        Some(("oauth state expired"@, "oauth callback denied: state expired"@))
    } else if s.tenant_id@ != tenant {
        Some(("tenant mismatch"@, "oauth callback denied: tenant mismatch"@))
    } else {
        None
    }
}

pub open spec fn state_entry(s: OAuthStateRecord, trace: Seq<char>, status: Seq<char>, reason: Seq<char>) -> AuditEntry {
    AuditEntry {
        kind: "oauth.callback"@,
        actor: Some(s.actor_id@),
        tenant: Some(s.tenant_id@),
        session: None,
        api_key: None,
        trace: Some(trace),
        status,
        reason,
    }
}

/// What an OAuth callback does, once the inputs are present: an unknown,
/// used, expired or foreign state, or an actor of another tenant, is
/// denied and audited; a missing actor is an error; otherwise the state
/// is marked used at `at_ms` (single use) and the grant is audited.
pub open spec fn oauth_resolve_outcome(
    old: AuthState,
    new: AuthState,
    raw: Seq<char>,
    tenant: Seq<char>,
    trace: Seq<char>,
    at_ms: u64,
    now: u64,
    r: Result<OAuthCallbackResolution, RuntimeError>,
) -> bool {
    let i = find_state_hash(old, oauth_hash(raw));
    if i < 0 {
        audited_denial(
            old,
            new,
            r,
            AuditEntry {
                kind: "oauth.callback"@,
                actor: None,
                tenant: Some(tenant),
                session: None,
                api_key: None,
                trace: Some(trace),
                status: "denied"@,
                reason: "oauth state not found"@,
            },
            "oauth callback denied: state not found"@,
            now,
        )
    } else {
        let s = old.3[i];
        match state_denial(s, tenant, at_ms) {
            Some((why, msg)) => audited_denial(old, new, r, state_entry(s, trace, "denied"@, why), msg, now),
            None => {
                let a = find_actor(old, s.actor_id@);
                if a < 0 {
                    is_other_err(r, "oauth actor not found"@) && new == old
                } else if old.0[a].tenant_id@ != s.tenant_id@ {
                    audited_denial(
                        old,
                        new,
                        r,
                        state_entry(s, trace, "denied"@, "actor tenant mismatch"@),
                        "oauth callback denied: actor tenant mismatch"@,
                        now,
                    )
                } else {
                    let used = OAuthStateRecord { used_ms: Some(at_ms), updated_ms: at_ms, ..s };
                    let mid = (old.0, old.1, old.2, old.3.update(i, used), old.4);
                    let x = AuditEntry {
                        kind: "oauth.callback"@,
                        actor: Some(old.0[a].id@),
                        tenant: Some(s.tenant_id@),
                        session: None,
                        api_key: None,
                        trace: Some(trace),
                        status: "allowed"@,
                        reason: "oauth state resolved"@,
                    };
                    if audit_taken(mid, entry_id(x, now)) {
                        is_other_err(r, audit_insert_failure()) && new == mid
                    } else {
                        &&& audited(mid, new, x, now)
                        &&& r matches Ok(res)
                        &&& res.actor == old.0[a]
                        &&& res.state == used
                        &&& is_trace(res.trace, trace, s.tenant_id@, old.0[a], "oauth"@, Seq::empty(), Seq::empty(), s.replay_key@)
                    }
                }
            },
        }
    }
}

/// Why an API key cannot be created at `now` before its secret is
/// hashed, if it cannot.
pub open spec fn key_create_refusal(st: AuthState, input: ApiKeyCreate, now: u64) -> Option<Seq<char>> {
    if blank(input.id@) {
        Some(must_not_be_empty("api key id"@))
    } else if blank(input.service_actor_id@) {
        Some(must_not_be_empty("service actor id"@))
    } else if blank(input.tenant_id@) {
        Some(must_not_be_empty("tenant id"@))
    } else if blank(input.raw_key@) {
        Some(must_not_be_empty("api key secret"@))
    } else if blank(input.scope_fingerprint@) {
        Some(must_not_be_empty("scope fingerprint"@))
    } else if input.expires_ms <= now {
        Some("api key expiry must be in the future"@)
    } else if find_actor(st, input.service_actor_id@) < 0 {
        Some(actor_not_found(input.service_actor_id@))
    } else if st.0[find_actor(st, input.service_actor_id@)].tenant_id@ != input.tenant_id@ {
        Some("api key actor tenant mismatch"@)
    } else if st.0[find_actor(st, input.service_actor_id@)].actor_kind@ != "service"@ {
        Some("api keys must resolve to service actors"@)
    } else {
        None
    }
}

/// Hashing the secret failed: with some salt the hasher refused it with
/// `m`, and the error says so.
pub open spec fn key_hash_failed(r: Result<ApiKeyRecord, RuntimeError>, raw: Seq<char>) -> bool {
    exists|salt: Seq<char>, m: Seq<char>|
        argon2_hash_of(raw, salt) == Err::<Seq<char>, Seq<char>>(m) && is_other_err(
            r,
            "failed to hash api key: "@ + m,
        )
}

/// What creating an API key at time `now` comes to: the refusal and an
/// unchanged store; otherwise the secret is hashed (with a fresh salt), and
/// the key is stored unless its id is taken. A hashing failure or a taken id
/// leaves the store unchanged; nothing else fails.
pub open spec fn key_create_outcome(
    pre: AuthState,
    post: AuthState,
    input: ApiKeyCreate,
    now: u64,
    r: Result<ApiKeyRecord, RuntimeError>,
) -> bool {
    &&& (key_create_refusal(pre, input, now) is Some ==> is_other_err(r, key_create_refusal(pre, input, now)->Some_0))
    &&& (key_create_refusal(pre, input, now) is None && r is Err ==> key_hash_failed(r, input.raw_key@) || (
        find_key(pre, input.id@) >= 0 && is_other_err(
            r,
            "failed to create api key: UNIQUE constraint failed: auth_api_keys.id"@,
        )))
    &&& (key_create_refusal(pre, input, now) is None && find_key(pre, input.id@) >= 0 ==> r is Err)
    &&& (r is Err ==> post == pre)
    &&& (r matches Ok(rec) ==> {
        &&& key_create_refusal(pre, input, now) is None
        &&& find_key(pre, input.id@) < 0
        &&& rec.id@ == input.id@
        &&& rec.service_actor_id@ == input.service_actor_id@
        &&& rec.tenant_id@ == input.tenant_id@
        &&& (exists|salt: Seq<char>| argon2_hash_of(input.raw_key@, salt) == Ok::<Seq<char>, Seq<char>>(rec.key_hash@))
        &&& rec.scope_fingerprint@ == input.scope_fingerprint@
        &&& rec.expires_ms == input.expires_ms
        &&& rec.last_used_ms is None
        &&& rec.revoked_ms is None
        &&& rec.created_ms == now
        &&& rec.updated_ms == now
        &&& post.2 == pre.2.push(rec)
        &&& post.0 == pre.0
        &&& post.1 == pre.1
        &&& post.3 == pre.3
        &&& post.4 == pre.4
    })
}

/// A key a tenant's secret may be checked against: the tenant's and not
/// revoked.
pub open spec fn is_candidate(k: ApiKeyRecord, tenant: Seq<char>) -> bool {
    k.tenant_id@ == tenant && k.revoked_ms is None
}

/// Outcome of checking a secret against a tenant's keys in order.
pub enum KeyScan {
    NoMatch,
    Broken(Seq<char>),
    Match(int),
}

/// Checks the secret against the candidates from index `i` on: the
/// first stored hash that does not parse stops the scan, the first
/// match is taken.
pub open spec fn scan_keys(keys: Seq<ApiKeyRecord>, tenant: Seq<char>, raw: Seq<char>, i: int) -> KeyScan
    decreases keys.len() - i,
{
    if i < 0 || i >= keys.len() {
        KeyScan::NoMatch
    } else if is_candidate(keys[i], tenant) {
        match argon2_verify_of(raw, keys[i].key_hash@) {
            Err(e) => KeyScan::Broken(e),
            Ok(true) => KeyScan::Match(i),
            Ok(false) => scan_keys(keys, tenant, raw, i + 1),
        }
    } else {
        scan_keys(keys, tenant, raw, i + 1)
    }
}

/// Why a matched key is refused: revoked, expired at `at_ms`, or of
/// another tenant.
pub open spec fn key_denial(k: ApiKeyRecord, tenant: Seq<char>, at_ms: u64) -> Option<(Seq<char>, Seq<char>)> {
    if k.revoked_ms is Some {
        Some(("api key revoked"@, "api key resolve denied: key revoked"@))
    } else if at_ms >= k.expires_ms {
        Some(("api key expired"@, "api key resolve denied: key expired"@))
    } else if k.tenant_id@ != tenant {
        Some(("tenant mismatch"@, "api key resolve denied: tenant mismatch"@))
    } else {
        None
    }
}

pub open spec fn key_entry(k: ApiKeyRecord, trace: Seq<char>, status: Seq<char>, reason: Seq<char>) -> AuditEntry {
    AuditEntry {
        kind: "api_key.resolve"@,
        actor: Some(k.service_actor_id@),
        tenant: Some(k.tenant_id@),
        session: None,
        api_key: Some(k.id@),
        trace: Some(trace),
        status,
        reason,
    }
}

/// What resolving an API-key secret does, once the inputs are present:
/// no matching key, an expired key, or an actor of another tenant or not
/// a service is denied and audited; an unparsable stored hash or a
/// missing actor is an error; otherwise the key's last use is stamped
/// `at_ms` and the grant is audited.
pub open spec fn key_resolve_outcome(
    old: AuthState,
    new: AuthState,
    raw: Seq<char>,
    tenant: Seq<char>,
    trace: Seq<char>,
    replay: Seq<char>,
    at_ms: u64,
    now: u64,
    r: Result<ApiKeyResolution, RuntimeError>,
) -> bool {
    match scan_keys(old.2, tenant, raw, 0) {
        KeyScan::NoMatch => audited_denial(
            old,
            new,
            r,
            AuditEntry {
                kind: "api_key.resolve"@,
                actor: None,
                tenant: Some(tenant),
                session: None,
                api_key: None,
                trace: Some(trace),
                status: "denied"@,
                reason: "api key not found"@,
            },
            "api key resolve denied: key not found"@,
            now,
        ),
        KeyScan::Broken(e) => is_other_err(r, "invalid stored api key hash: "@ + e) && new == old,
        KeyScan::Match(i) => {
            let k = old.2[i];
            match key_denial(k, tenant, at_ms) {
                Some((why, msg)) => audited_denial(old, new, r, key_entry(k, trace, "denied"@, why), msg, now),
                None => {
                    let a = find_actor(old, k.service_actor_id@);
                    if a < 0 {
                        is_other_err(r, "api key actor not found"@) && new == old
                    } else if old.0[a].tenant_id@ != k.tenant_id@ {
                        audited_denial(
                            old,
                            new,
                            r,
                            key_entry(k, trace, "denied"@, "actor tenant mismatch"@),
                            "api key resolve denied: actor tenant mismatch"@,
                            now,
                        )
                    } else if old.0[a].actor_kind@ != "service"@ {
                        audited_denial(
                            old,
                            new,
                            r,
                            key_entry(k, trace, "denied"@, "actor is not service"@),
                            "api key resolve denied: actor is not service"@,
                            now,
                        )
                    } else {
                        let used = ApiKeyRecord { last_used_ms: Some(at_ms), updated_ms: at_ms, ..k };
                        let mid = (old.0, old.1, old.2.update(i, used), old.3, old.4);
                        let x = AuditEntry {
                            kind: "api_key.resolve"@,
                            actor: Some(old.0[a].id@),
                            tenant: Some(k.tenant_id@),
                            session: None,
                            api_key: Some(k.id@),
                            trace: Some(trace),
                            status: "allowed"@,
                            reason: "api key resolved"@,
                        };
                        if audit_taken(mid, entry_id(x, now)) {
                            is_other_err(r, audit_insert_failure()) && new == mid
                        } else {
                            &&& audited(mid, new, x, now)
                            &&& r matches Ok(res)
                            &&& res.actor == old.0[a]
                            &&& res.api_key == used
                            &&& is_trace(res.trace, trace, k.tenant_id@, old.0[a], "api_key"@, Seq::empty(), k.id@, replay)
                        }
                    }
                },
            }
        },
    }
}

pub open spec fn key_not_found(id: Seq<char>) -> Seq<char> {
    "auth api key `"@ + id + "` not found"@
}

// ---------------------------------------------------------------------
// Audit order

/// Audit rows are listed by creation time, then by id.
pub open spec fn audit_before(a: AuthAuditEvent, b: AuthAuditEvent) -> bool {
    a.created_ms < b.created_ms || (a.created_ms == b.created_ms && lex_lt(a.id@, b.id@))
}

/// Inserts `x` after every row it does not sort strictly before.
pub open spec fn insert_audit_sorted(s: Seq<AuthAuditEvent>, x: AuthAuditEvent) -> Seq<AuthAuditEvent>
    decreases s.len(),
{
    if s.len() == 0 {
        seq![x]
    } else if audit_before(x, s.last()) {
        insert_audit_sorted(s.drop_last(), x).push(s.last())
    } else {
        s.push(x)
    }
}

/// The rows in listing order (a stable sort of their insertion order).
pub open spec fn sorted_audit(s: Seq<AuthAuditEvent>) -> Seq<AuthAuditEvent>
    decreases s.len(),
{
    if s.len() == 0 {
        Seq::empty()
    } else {
        insert_audit_sorted(sorted_audit(s.drop_last()), s.last())
    }
}

fn audit_precedes(a: &AuthAuditEvent, b: &AuthAuditEvent) -> (r: bool)
    ensures
        r == audit_before(*a, *b),
{
    if a.created_ms != b.created_ms {
        return a.created_ms < b.created_ms;
    }
    string_lt(&a.id, &b.id)
}

fn insert_event(out: &mut Vec<AuthAuditEvent>, x: AuthAuditEvent)
    ensures
        final(out)@ == insert_audit_sorted(old(out)@, x),
{
    let ghost target = insert_audit_sorted(old(out)@, x);
    let mut moved: Vec<AuthAuditEvent> = Vec::new();
    while out.len() > 0 && audit_precedes(&x, &out[out.len() - 1])
        invariant
            target == insert_audit_sorted(out@, x) + moved@.reverse(),
        decreases out.len(),
    {
        let ghost before = out@;
        let last = out.pop().unwrap();
        proof {
            assert(before.drop_last() =~= out@);
            assert(moved@.push(last).reverse() =~= seq![last] + moved@.reverse());
            assert(target =~= insert_audit_sorted(out@, x) + moved@.push(last).reverse());
        }
        moved.push(last);
    }
    let ghost base = out@;
    out.push(x);
    assert(insert_audit_sorted(base, x) =~= base.push(x));
    while moved.len() > 0
        invariant
            target == out@ + moved@.reverse(),
        decreases moved.len(),
    {
        let ghost mv = moved@;
        let m = moved.pop().unwrap();
        proof {
            assert(mv.reverse() =~= seq![m] + moved@.reverse());
        }
        out.push(m);
        assert(target =~= out@ + moved@.reverse());
    }
    assert(moved@.reverse() =~= Seq::<AuthAuditEvent>::empty());
    assert(target =~= out@);
}

impl SessionAuthRuntime {
    /// An empty store.
    pub fn new() -> (r: SessionAuthRuntime)
        ensures
            r@.0.len() == 0,
            r@.1.len() == 0,
            r@.2.len() == 0,
            r@.3.len() == 0,
            r@.4.len() == 0,
    {
        SessionAuthRuntime {
            actors: Vec::new(),
            sessions: Vec::new(),
            api_keys: Vec::new(),
            oauth_states: Vec::new(),
            audit: Vec::new(),
        }
    }

    /// Opens the store: an empty one. Opening never fails.
    pub fn open_in_memory() -> (r: Result<SessionAuthRuntime, RuntimeError>)
        ensures
            r matches Ok(a) && a@.0.len() == 0 && a@.1.len() == 0 && a@.2.len() == 0 && a@.3.len() == 0
                && a@.4.len() == 0,
    {
        Ok(Self::new())
    }

    fn find_actor_index(&self, id: &str) -> (r: Option<usize>)
        ensures
            match r {
                Some(i) => i as int == actor_index(self@.0, id@) && i < self@.0.len(),
                None => actor_index(self@.0, id@) < 0,
            },
    {
        let mut i = self.actors.len();
        assert(self.actors@.take(i as int) =~= self.actors@);
        while i > 0
            invariant
                i <= self.actors@.len(),
                actor_index(self.actors@, id@) == actor_index(self.actors@.take(i as int), id@),
            decreases i,
        {
            assert(self.actors@.take(i as int).drop_last() =~= self.actors@.take(i - 1));
            if str_eq(self.actors[i - 1].id.as_str(), id) {
                return Some(i - 1);
            }
            i = i - 1;
        }
        None
    }

    fn find_session_index(&self, id: &str) -> (r: Option<usize>)
        ensures
            match r {
                Some(i) => i as int == session_index(self@.1, id@) && i < self@.1.len(),
                None => session_index(self@.1, id@) < 0,
            },
    {
        let mut i = self.sessions.len();
        assert(self.sessions@.take(i as int) =~= self.sessions@);
        while i > 0
            invariant
                i <= self.sessions@.len(),
                session_index(self.sessions@, id@) == session_index(self.sessions@.take(i as int), id@),
            decreases i,
        {
            assert(self.sessions@.take(i as int).drop_last() =~= self.sessions@.take(i - 1));
            if str_eq(self.sessions[i - 1].id.as_str(), id) {
                return Some(i - 1);
            }
            i = i - 1;
        }
        None
    }

    fn find_session_by_hash(&self, hash: &str) -> (r: Option<usize>)
        ensures
            match r {
                Some(i) => i as int == session_hash_index(self@.1, hash@) && i < self@.1.len(),
                None => session_hash_index(self@.1, hash@) < 0,
            },
    {
        let mut i = self.sessions.len();
        assert(self.sessions@.take(i as int) =~= self.sessions@);
        while i > 0
            invariant
                i <= self.sessions@.len(),
                session_hash_index(self.sessions@, hash@) == session_hash_index(self.sessions@.take(i as int), hash@),
            decreases i,
        {
            assert(self.sessions@.take(i as int).drop_last() =~= self.sessions@.take(i - 1));
            if str_eq(self.sessions[i - 1].token_hash.as_str(), hash) {
                return Some(i - 1);
            }
            i = i - 1;
        }
        None
    }

    fn audit_id_taken(&self, id: &String) -> (r: bool)
        ensures
            r == audit_taken(self@, id@),
    {
        let mut i: usize = 0;
        while i < self.audit.len()
            invariant
                i <= self.audit@.len(),
                forall|k: int| 0 <= k < i ==> (#[trigger] self.audit@[k]).id@ != id@,
            decreases self.audit.len() - i,
        {
            if self.audit[i].id == *id {
                return true;
            }
            i = i + 1;
        }
        false
    }

    /// Writes an audit row for `x` at `now`, unless its id is taken.
    fn insert_audit(
        &mut self,
        kind: &str,
        actor: Option<String>,
        tenant: Option<String>,
        session: Option<String>,
        api_key: Option<String>,
        trace: Option<String>,
        status: &str,
        reason: &str,
        now: u64,
    ) -> (r: Result<(), RuntimeError>)
        ensures
            ({
                let x = AuditEntry {
                    kind: kind@,
                    actor: opt_view(actor),
                    tenant: opt_view(tenant),
                    session: opt_view(session),
                    api_key: opt_view(api_key),
                    trace: opt_view(trace),
                    status: status@,
                    reason: reason@,
                };
                if audit_taken(old(self)@, entry_id(x, now)) {
                    is_other_err(r, audit_insert_failure()) && final(self)@ == old(self)@
                } else {
                    r is Ok && audited(old(self)@, final(self)@, x, now)
                }
            }),
    {
        let id = audit_event_id(now, kind, &session, &trace);
        if self.audit_id_taken(&id) {
            return Err(other(owned("failed to insert auth audit event: UNIQUE constraint failed: auth_audit_events.id")));
        }
        let e = AuthAuditEvent {
            id,
            event_kind: owned(kind),
            actor_id: actor,
            tenant_id: tenant,
            session_id: session,
            api_key_id: api_key,
            trace_id: trace,
            status: owned(status),
            reason: owned(reason),
            created_ms: now,
        };
        let ghost before = self.audit@;
        self.audit.push(e);
        assert(self.audit@.drop_last() =~= before);
        Ok(())
    }

    /// Stores an actor, or updates the one with its id (keeping that one's
    /// creation time); unset timestamps become `now`.
    pub fn upsert_actor_at(&mut self, actor: AuthActor, now: u64) -> (r: Result<AuthActor, RuntimeError>)
        ensures
            refused_as(r, actor_refusal(actor)),
            r is Err ==> final(self)@ == old(self)@,
            r matches Ok(a) ==> {
                &&& a == upserted(old(self)@, actor, now)
                &&& final(self)@.0 == if find_actor(old(self)@, actor.id@) >= 0 {
                    old(self)@.0.update(find_actor(old(self)@, actor.id@), a)
                } else {
                    old(self)@.0.push(a)
                }
                &&& final(self)@.1 == old(self)@.1
                &&& final(self)@.2 == old(self)@.2
                &&& final(self)@.3 == old(self)@.3
                &&& final(self)@.4 == old(self)@.4
            },
    {
        validate_non_empty("actor id", actor.id.as_str())?;
        validate_non_empty("tenant id", actor.tenant_id.as_str())?;
        validate_non_empty("actor kind", actor.actor_kind.as_str())?;
        validate_non_empty("auth method", actor.auth_method.as_str())?;
        let created = if actor.created_ms == 0 { now } else { actor.created_ms };
        let updated = if actor.updated_ms == 0 { now } else { actor.updated_ms };
        match self.find_actor_index(actor.id.as_str()) {
            Some(i) => {
                let kept = self.actors[i].created_ms;
                let stored = AuthActor { created_ms: kept, updated_ms: updated, ..actor };
                let out = stored.duplicate();
                self.actors.set(i, stored);
                Ok(out)
            },
            None => {
                let stored = AuthActor { created_ms: created, updated_ms: updated, ..actor };
                let out = stored.duplicate();
                self.actors.push(stored);
                Ok(out)
            },
        }
    }

    /// Creates a session for an actor of the same tenant, storing only the
    /// digest of its token.
    pub fn create_session_at(&mut self, input: SessionCreate, now: u64) -> (r: Result<SessionRecord, RuntimeError>)
        ensures
            distinct_token_hashes(old(self)@) ==> distinct_token_hashes(final(self)@),
            refused_as(r, session_create_refusal(old(self)@, input)),
            r is Err ==> final(self)@ == old(self)@,
            r matches Ok(rec) ==> {
                &&& is_new_session(rec, input, now)
                &&& final(self)@.1 == old(self)@.1.push(rec)
                &&& final(self)@.0 == old(self)@.0
                &&& final(self)@.2 == old(self)@.2
                &&& final(self)@.3 == old(self)@.3
                &&& final(self)@.4 == old(self)@.4
            },
    {
        validate_non_empty("session id", input.id.as_str())?;
        validate_non_empty("actor id", input.actor_id.as_str())?;
        validate_non_empty("tenant id", input.tenant_id.as_str())?;
        validate_non_empty("session token", input.raw_token.as_str())?;
        if input.expires_ms <= input.issued_ms {
            return Err(other(owned("session expiry must be after issue time")));
        }
        let a = match self.find_actor_index(input.actor_id.as_str()) {
            Some(a) => a,
            None => {
                return Err(other(cat3("auth actor `", input.actor_id.as_str(), "` not found")));
            },
        };
        if self.actors[a].tenant_id != input.tenant_id {
            return Err(other(owned("session actor tenant mismatch")));
        }
        if self.find_session_index(input.id.as_str()).is_some() {
            return Err(other(owned("failed to create session: UNIQUE constraint failed: auth_sessions.id")));
        }
        let token_hash = hash_session_secret(input.raw_token.as_str());
        if self.find_session_by_hash(token_hash.as_str()).is_some() {
            return Err(other(owned("failed to create session: UNIQUE constraint failed: auth_sessions.token_hash")));
        }
        let rec = SessionRecord {
            id: input.id.clone(),
            actor_id: input.actor_id.clone(),
            tenant_id: input.tenant_id.clone(),
            token_hash,
            issued_ms: input.issued_ms,
            expires_ms: input.expires_ms,
            rotation_counter: 0,
            csrf_binding_id: input.csrf_binding_id.clone(),
            revoked_ms: None,
            created_ms: now,
            updated_ms: now,
        };
        let out = rec.duplicate();
        proof {
            lemma_session_hash_index(self.sessions@, rec.token_hash@);
        }
        let ghost before = self.sessions@;
        self.sessions.push(rec);
        proof {
            assert forall|a: int, b: int|
                0 <= a < self.sessions@.len() && 0 <= b < self.sessions@.len() && a != b
                    && distinct_token_hashes(old(self)@) implies (#[trigger] self.sessions@[a]).token_hash@
                != (#[trigger] self.sessions@[b]).token_hash@ by {
                if a < before.len() && b < before.len() {
                    assert(self.sessions@[a] == before[a] && self.sessions@[b] == before[b]);
                } else if a < before.len() {
                    assert(self.sessions@[a] == before[a]);
                } else {
                    assert(self.sessions@[b] == before[b]);
                }
            }
        }
        Ok(out)
    }

    /// Resolves a session token to its actor for `expected_tenant_id`
    /// at `at_ms`, auditing the outcome at `now` (see
    /// [`session_resolve_outcome`]).
    pub fn resolve_session_at(
        &mut self,
        raw_token: &str,
        expected_tenant_id: &str,
        trace_id: &str,
        replay_key: &str,
        at_ms: u64,
        now: u64,
    ) -> (r: Result<SessionResolution, RuntimeError>)
        ensures
            three_refusal("session token"@, raw_token@, "tenant id"@, expected_tenant_id@, "trace id"@, trace_id@) is Some
                ==> is_other_err(r, three_refusal("session token"@, raw_token@, "tenant id"@, expected_tenant_id@, "trace id"@, trace_id@)->Some_0)
                && final(self)@ == old(self)@,
            three_refusal("session token"@, raw_token@, "tenant id"@, expected_tenant_id@, "trace id"@, trace_id@) is None
                ==> session_resolve_outcome(old(self)@, final(self)@, raw_token@, expected_tenant_id@, trace_id@, replay_key@, at_ms, now, r),
    {
        validate_non_empty("session token", raw_token)?;
        validate_non_empty("tenant id", expected_tenant_id)?;
        validate_non_empty("trace id", trace_id)?;
        let token_hash = hash_session_secret(raw_token);
        let i = match self.find_session_by_hash(token_hash.as_str()) {
            Some(i) => i,
            None => {
                self.insert_audit(
                    "session.resolve",
                    None,
                    Some(owned(expected_tenant_id)),
                    None,
                    None,
                    Some(owned(trace_id)),
                    "denied",
                    "session token not found",
                    now,
                )?;
                return Err(other(owned("session resolve denied: token not found")));
            },
        };
        let session = self.sessions[i].duplicate();
        let denial: Option<(&str, &str)> = if session.revoked_ms.is_some() {
            Some(("session revoked", "session resolve denied: session revoked"))
        } else if at_ms >= session.expires_ms {
            Some(("session expired", "session resolve denied: session expired"))
        } else if !str_eq(session.tenant_id.as_str(), expected_tenant_id) {
            Some(("tenant mismatch", "session resolve denied: tenant mismatch"))
        } else {
            None
        };
        match denial {
            Some((why, msg)) => {
                self.insert_audit(
                    "session.resolve",
                    Some(session.actor_id.clone()),
                    Some(session.tenant_id.clone()),
                    Some(session.id.clone()),
                    None,
                    Some(owned(trace_id)),
                    "denied",
                    why,
                    now,
                )?;
                return Err(other(owned(msg)));
            },
            None => {},
        }
        let a = match self.find_actor_index(session.actor_id.as_str()) {
            Some(a) => a,
            None => {
                return Err(other(owned("session actor not found")));
            },
        };
        let actor = self.actors[a].duplicate();
        if actor.tenant_id != session.tenant_id {
            self.insert_audit(
                "session.resolve",
                Some(session.actor_id.clone()),
                Some(session.tenant_id.clone()),
                Some(session.id.clone()),
                None,
                Some(owned(trace_id)),
                "denied",
                "actor tenant mismatch",
                now,
            )?;
            return Err(other(owned("session resolve denied: actor tenant mismatch")));
        }
        let trace = AuthTraceContext {
            trace_id: owned(trace_id),
            tenant_id: session.tenant_id.clone(),
            actor_id: actor.id.clone(),
            auth_method: actor.auth_method.clone(),
            session_id: session.id.clone(),
            api_key_id: String::new(),
            permission_fingerprint: actor.permission_fingerprint.clone(),
            replay_key: owned(replay_key),
        };
        self.insert_audit(
            "session.resolve",
            Some(actor.id.clone()),
            Some(session.tenant_id.clone()),
            Some(session.id.clone()),
            None,
            Some(owned(trace_id)),
            "allowed",
            "session resolved",
            now,
        )?;
        Ok(SessionResolution { actor, session, trace })
    }

    /// Replaces a session's token and expiry: the rotation counter goes
    /// up, any revocation is lifted, and the old token stops resolving.
    pub fn rotate_session_at(
        &mut self,
        session_id: &str,
        new_raw_token: &str,
        new_expires_ms: u64,
        now: u64,
    ) -> (r: Result<SessionRecord, RuntimeError>)
        ensures
            distinct_token_hashes(old(self)@) ==> distinct_token_hashes(final(self)@),
            refused_as(r, rotate_refusal(old(self)@, session_id@, new_raw_token@, new_expires_ms)),
            r is Err ==> final(self)@ == old(self)@,
            r matches Ok(rec) ==> rotated(old(self)@, final(self)@, session_id@, new_raw_token@, new_expires_ms, now, rec),
    {
        validate_non_empty("session id", session_id)?;
        validate_non_empty("session token", new_raw_token)?;
        let i = match self.find_session_index(session_id) {
            Some(i) => i,
            None => {
                return Err(other(cat3("auth session `", session_id, "` not found")));
            },
        };
        if new_expires_ms <= self.sessions[i].issued_ms {
            return Err(other(owned("rotated session expiry must be after issue time")));
        }
        let token_hash = hash_session_secret(new_raw_token);
        let mut j: usize = 0;
        while j < self.sessions.len()
            invariant
                j <= self.sessions@.len(),
                i < self.sessions@.len(),
                i as int == find_session(self@, session_id@),
                !blank(session_id@),
                !blank(new_raw_token@),
                new_expires_ms > self.sessions@[i as int].issued_ms,
                token_hash@ == session_hash(new_raw_token@),
                forall|k: int| 0 <= k < j && k != i ==> (#[trigger] self.sessions@[k]).token_hash@ != token_hash@,
            decreases self.sessions.len() - j,
        {
            if j != i && self.sessions[j].token_hash == token_hash {
                assert(self.sessions@[j as int].token_hash@ == session_hash(new_raw_token@));
                return Err(other(owned("failed to rotate session: UNIQUE constraint failed: auth_sessions.token_hash")));
            }
            j = j + 1;
        }
        let s = self.sessions[i].duplicate();
        let rec = SessionRecord {
            token_hash,
            expires_ms: new_expires_ms,
            rotation_counter: s.rotation_counter.saturating_add(1),
            revoked_ms: None,
            updated_ms: now,
            ..s
        };
        let out = rec.duplicate();
        self.sessions.set(i, rec);
        Ok(out)
    }

    /// Marks a session revoked at `at_ms`.
    pub fn revoke_session(&mut self, session_id: &str, at_ms: u64) -> (r: Result<SessionRecord, RuntimeError>)
        ensures
            distinct_token_hashes(old(self)@) ==> distinct_token_hashes(final(self)@),
            refused_as(
                r,
                if blank(session_id@) {
                    Some(must_not_be_empty("session id"@))
                } else if find_session(old(self)@, session_id@) < 0 {
                    Some(session_not_found(session_id@))
                } else {
                    None
                },
            ),
            r is Err ==> final(self)@ == old(self)@,
            r matches Ok(rec) ==> {
                let i = find_session(old(self)@, session_id@);
                &&& rec == (SessionRecord { revoked_ms: Some(at_ms), updated_ms: at_ms, ..old(self)@.1[i] })
                &&& final(self)@.1 == old(self)@.1.update(i, rec)
                &&& final(self)@.0 == old(self)@.0
                &&& final(self)@.2 == old(self)@.2
                &&& final(self)@.3 == old(self)@.3
                &&& final(self)@.4 == old(self)@.4
            },
    {
        validate_non_empty("session id", session_id)?;
        let i = match self.find_session_index(session_id) {
            Some(i) => i,
            None => {
                return Err(other(cat3("auth session `", session_id, "` not found")));
            },
        };
        let s = self.sessions[i].duplicate();
        let rec = SessionRecord { revoked_ms: Some(at_ms), updated_ms: at_ms, ..s };
        let out = rec.duplicate();
        self.sessions.set(i, rec);
        Ok(out)
    }

    fn find_key_index(&self, id: &str) -> (r: Option<usize>)
        ensures
            match r {
                Some(i) => i as int == key_index(self@.2, id@) && i < self@.2.len(),
                None => key_index(self@.2, id@) < 0,
            },
    {
        let mut i = self.api_keys.len();
        assert(self.api_keys@.take(i as int) =~= self.api_keys@);
        while i > 0
            invariant
                i <= self.api_keys@.len(),
                key_index(self.api_keys@, id@) == key_index(self.api_keys@.take(i as int), id@),
            decreases i,
        {
            assert(self.api_keys@.take(i as int).drop_last() =~= self.api_keys@.take(i - 1));
            if str_eq(self.api_keys[i - 1].id.as_str(), id) {
                return Some(i - 1);
            }
            i = i - 1;
        }
        None
    }

    fn find_state_index(&self, id: &str) -> (r: Option<usize>)
        ensures
            match r {
                Some(i) => i as int == state_index(self@.3, id@) && i < self@.3.len(),
                None => state_index(self@.3, id@) < 0,
            },
    {
        let mut i = self.oauth_states.len();
        assert(self.oauth_states@.take(i as int) =~= self.oauth_states@);
        while i > 0
            invariant
                i <= self.oauth_states@.len(),
                state_index(self.oauth_states@, id@) == state_index(self.oauth_states@.take(i as int), id@),
            decreases i,
        {
            assert(self.oauth_states@.take(i as int).drop_last() =~= self.oauth_states@.take(i - 1));
            if str_eq(self.oauth_states[i - 1].id.as_str(), id) {
                return Some(i - 1);
            }
            i = i - 1;
        }
        None
    }

    fn find_state_by_hash(&self, hash: &str) -> (r: Option<usize>)
        ensures
            match r {
                Some(i) => i as int == state_hash_index(self@.3, hash@) && i < self@.3.len(),
                None => state_hash_index(self@.3, hash@) < 0,
            },
    {
        let mut i = self.oauth_states.len();
        assert(self.oauth_states@.take(i as int) =~= self.oauth_states@);
        while i > 0
            invariant
                i <= self.oauth_states@.len(),
                state_hash_index(self.oauth_states@, hash@) == state_hash_index(self.oauth_states@.take(i as int), hash@),
            decreases i,
        {
            assert(self.oauth_states@.take(i as int).drop_last() =~= self.oauth_states@.take(i - 1));
            if str_eq(self.oauth_states[i - 1].state_hash.as_str(), hash) {
                return Some(i - 1);
            }
            i = i - 1;
        }
        None
    }

    /// Creates an OAuth state for an actor of the same tenant, storing
    /// only the digest of the state.
    pub fn create_oauth_state_at(&mut self, input: OAuthStateCreate, now: u64) -> (r: Result<OAuthStateRecord, RuntimeError>)
        ensures
            refused_as(r, oauth_create_refusal(old(self)@, input, now)),
            r is Err ==> final(self)@ == old(self)@,
            r matches Ok(rec) ==> {
                &&& is_new_state(rec, input, now)
                &&& final(self)@.3 == old(self)@.3.push(rec)
                &&& final(self)@.0 == old(self)@.0
                &&& final(self)@.1 == old(self)@.1
                &&& final(self)@.2 == old(self)@.2
                &&& final(self)@.4 == old(self)@.4
            },
    {
        validate_non_empty("oauth state id", input.id.as_str())?;
        validate_non_empty("oauth provider", input.provider.as_str())?;
        validate_non_empty("tenant id", input.tenant_id.as_str())?;
        validate_non_empty("actor id", input.actor_id.as_str())?;
        validate_non_empty("oauth state", input.raw_state.as_str())?;
        validate_non_empty("pkce verifier reference", input.pkce_verifier_ref.as_str())?;
        validate_non_empty("nonce fingerprint", input.nonce_fingerprint.as_str())?;
        validate_non_empty("replay key", input.replay_key.as_str())?;
        if input.expires_ms <= now {
            return Err(other(owned("oauth state expiry must be in the future")));
        }
        let a = match self.find_actor_index(input.actor_id.as_str()) {
            Some(a) => a,
            None => {
                return Err(other(cat3("auth actor `", input.actor_id.as_str(), "` not found")));
            },
        };
        if self.actors[a].tenant_id != input.tenant_id {
            return Err(other(owned("oauth actor tenant mismatch")));
        }
        if self.find_state_index(input.id.as_str()).is_some() {
            return Err(other(owned("failed to create oauth state: UNIQUE constraint failed: auth_oauth_states.id")));
        }
        let state_hash = hash_oauth_state(input.raw_state.as_str());
        if self.find_state_by_hash(state_hash.as_str()).is_some() {
            return Err(other(owned("failed to create oauth state: UNIQUE constraint failed: auth_oauth_states.state_hash")));
        }
        let rec = OAuthStateRecord {
            id: input.id.clone(),
            provider: input.provider.clone(),
            tenant_id: input.tenant_id.clone(),
            actor_id: input.actor_id.clone(),
            state_hash,
            pkce_verifier_ref: input.pkce_verifier_ref.clone(),
            nonce_fingerprint: input.nonce_fingerprint.clone(),
            expires_ms: input.expires_ms,
            replay_key: input.replay_key.clone(),
            used_ms: None,
            created_ms: now,
            updated_ms: now,
        };
        let out = rec.duplicate();
        self.oauth_states.push(rec);
        Ok(out)
    }

    /// The OAuth state with id `id`.
    pub fn get_oauth_state(&self, id: &str) -> (r: Option<OAuthStateRecord>)
        ensures
            find_state(self@, id@) < 0 ==> r is None,
            find_state(self@, id@) >= 0 ==> r == Some(self@.3[find_state(self@, id@)]),
    {
        match self.find_state_index(id) {
            Some(i) => Some(self.oauth_states[i].duplicate()),
            None => None,
        }
    }

    /// Resolves an OAuth callback's state for `expected_tenant_id` at
    /// `at_ms`, auditing the outcome at `now` (see
    /// [`oauth_resolve_outcome`]).
    pub fn resolve_oauth_callback_at(
        &mut self,
        raw_state: &str,
        expected_tenant_id: &str,
        trace_id: &str,
        at_ms: u64,
        now: u64,
    ) -> (r: Result<OAuthCallbackResolution, RuntimeError>)
        ensures
            three_refusal("oauth state"@, raw_state@, "tenant id"@, expected_tenant_id@, "trace id"@, trace_id@) is Some
                ==> is_other_err(r, three_refusal("oauth state"@, raw_state@, "tenant id"@, expected_tenant_id@, "trace id"@, trace_id@)->Some_0)
                && final(self)@ == old(self)@,
            three_refusal("oauth state"@, raw_state@, "tenant id"@, expected_tenant_id@, "trace id"@, trace_id@) is None
                ==> oauth_resolve_outcome(old(self)@, final(self)@, raw_state@, expected_tenant_id@, trace_id@, at_ms, now, r),
    {
        validate_non_empty("oauth state", raw_state)?;
        validate_non_empty("tenant id", expected_tenant_id)?;
        validate_non_empty("trace id", trace_id)?;
        let state_hash = hash_oauth_state(raw_state);
        let i = match self.find_state_by_hash(state_hash.as_str()) {
            Some(i) => i,
            None => {
                self.insert_audit(
                    "oauth.callback",
                    None,
                    Some(owned(expected_tenant_id)),
                    None,
                    None,
                    Some(owned(trace_id)),
                    "denied",
                    "oauth state not found",
                    now,
                )?;
                return Err(other(owned("oauth callback denied: state not found")));
            },
        };
        let state = self.oauth_states[i].duplicate();
        let denial: Option<(&str, &str)> = if state.used_ms.is_some() {
            Some(("oauth state already used", "oauth callback denied: state already used"))
        } else if at_ms >= state.expires_ms {
            Some(("oauth state expired", "oauth callback denied: state expired"))
        } else if !str_eq(state.tenant_id.as_str(), expected_tenant_id) {
            Some(("tenant mismatch", "oauth callback denied: tenant mismatch"))
        } else {
            None
        };
        match denial {
            Some((why, msg)) => {
                self.insert_audit(
                    "oauth.callback",
                    Some(state.actor_id.clone()),
                    Some(state.tenant_id.clone()),
                    None,
                    None,
                    Some(owned(trace_id)),
                    "denied",
                    why,
                    now,
                )?;
                return Err(other(owned(msg)));
            },
            None => {},
        }
        let a = match self.find_actor_index(state.actor_id.as_str()) {
            Some(a) => a,
            None => {
                return Err(other(owned("oauth actor not found")));
            },
        };
        let actor = self.actors[a].duplicate();
        if actor.tenant_id != state.tenant_id {
            self.insert_audit(
                "oauth.callback",
                Some(state.actor_id.clone()),
                Some(state.tenant_id.clone()),
                None,
                None,
                Some(owned(trace_id)),
                "denied",
                "actor tenant mismatch",
                now,
            )?;
            return Err(other(owned("oauth callback denied: actor tenant mismatch")));
        }
        let used = OAuthStateRecord { used_ms: Some(at_ms), updated_ms: at_ms, ..state };
        let stored = used.duplicate();
        self.oauth_states.set(i, stored);
        let trace = AuthTraceContext {
            trace_id: owned(trace_id),
            tenant_id: used.tenant_id.clone(),
            actor_id: actor.id.clone(),
            auth_method: owned("oauth"),
            session_id: String::new(),
            api_key_id: String::new(),
            permission_fingerprint: actor.permission_fingerprint.clone(),
            replay_key: used.replay_key.clone(),
        };
        self.insert_audit(
            "oauth.callback",
            Some(actor.id.clone()),
            Some(used.tenant_id.clone()),
            None,
            None,
            Some(owned(trace_id)),
            "allowed",
            "oauth state resolved",
            now,
        )?;
        Ok(OAuthCallbackResolution { actor, state: used, trace })
    }

    /// Creates an API key for a service actor of the same tenant, storing
    /// only an Argon2id hash of the secret.
    pub fn create_api_key_at(&mut self, input: ApiKeyCreate, now: u64) -> (r: Result<ApiKeyRecord, RuntimeError>)
        ensures
            key_create_outcome(old(self)@, final(self)@, input, now, r),
    {
        validate_non_empty("api key id", input.id.as_str())?;
        validate_non_empty("service actor id", input.service_actor_id.as_str())?;
        validate_non_empty("tenant id", input.tenant_id.as_str())?;
        validate_non_empty("api key secret", input.raw_key.as_str())?;
        validate_non_empty("scope fingerprint", input.scope_fingerprint.as_str())?;
        if input.expires_ms <= now {
            return Err(other(owned("api key expiry must be in the future")));
        }
        let a = match self.find_actor_index(input.service_actor_id.as_str()) {
            Some(a) => a,
            None => {
                return Err(other(cat3("auth actor `", input.service_actor_id.as_str(), "` not found")));
            },
        };
        if self.actors[a].tenant_id != input.tenant_id {
            return Err(other(owned("api key actor tenant mismatch")));
        }
        if !str_eq(self.actors[a].actor_kind.as_str(), "service") {
            return Err(other(owned("api keys must resolve to service actors")));
        }
        let key_hash = match hash_api_key_secret(input.raw_key.as_str()) {
            Ok(h) => h,
            Err(e) => {
                let r: Result<ApiKeyRecord, RuntimeError> = Err(e);
                proof {
                    let ghost hr = Err::<String, RuntimeError>(e);
                    let (salt, m) = choose|salt: Seq<char>, m: Seq<char>|
                        argon2_hash_of(input.raw_key@, salt) == Err::<Seq<char>, Seq<char>>(m)
                            && is_other_err(hr, "failed to hash api key: "@ + m);
                    assert(argon2_hash_of(input.raw_key@, salt) == Err::<Seq<char>, Seq<char>>(m)
                        && is_other_err(r, "failed to hash api key: "@ + m));
                }
                return r;
            },
        };
        if self.find_key_index(input.id.as_str()).is_some() {
            return Err(other(owned("failed to create api key: UNIQUE constraint failed: auth_api_keys.id")));
        }
        let rec = ApiKeyRecord {
            id: input.id.clone(),
            service_actor_id: input.service_actor_id.clone(),
            tenant_id: input.tenant_id.clone(),
            key_hash,
            scope_fingerprint: input.scope_fingerprint.clone(),
            expires_ms: input.expires_ms,
            last_used_ms: None,
            revoked_ms: None,
            created_ms: now,
            updated_ms: now,
        };
        let out = rec.duplicate();
        self.api_keys.push(rec);
        Ok(out)
    }

    /// The API key with id `id`.
    pub fn get_api_key(&self, id: &str) -> (r: Option<ApiKeyRecord>)
        ensures
            find_key(self@, id@) < 0 ==> r is None,
            find_key(self@, id@) >= 0 ==> r == Some(self@.2[find_key(self@, id@)]),
    {
        match self.find_key_index(id) {
            Some(i) => Some(self.api_keys[i].duplicate()),
            None => None,
        }
    }

    /// Finds the first key of the tenant, not revoked, whose hash the
    /// secret matches (see [`scan_keys`]).
    fn scan_candidates(&self, raw_key: &str, tenant_id: &str) -> (r: Result<Option<usize>, RuntimeError>)
        requires
            !blank(raw_key@),
        ensures
            match scan_keys(self@.2, tenant_id@, raw_key@, 0) {
                KeyScan::NoMatch => r == Ok::<Option<usize>, RuntimeError>(None),
                KeyScan::Broken(e) => is_other_err(r, "invalid stored api key hash: "@ + e),
                KeyScan::Match(i) => (r matches Ok(Some(k)) && k as int == i) && 0 <= i < self@.2.len(),
            },
    {
        let mut i: usize = 0;
        while i < self.api_keys.len()
            invariant
                i <= self.api_keys@.len(),
                !blank(raw_key@),
                scan_keys(self.api_keys@, tenant_id@, raw_key@, 0) == scan_keys(self.api_keys@, tenant_id@, raw_key@, i as int),
            decreases self.api_keys.len() - i,
        {
            let k = &self.api_keys[i];
            if str_eq(k.tenant_id.as_str(), tenant_id) && k.revoked_ms.is_none() {
                match verify_api_key_secret(raw_key, k.key_hash.as_str()) {
                    Err(e) => {
                        return Err(e);
                    },
                    Ok(true) => {
                        return Ok(Some(i));
                    },
                    Ok(false) => {},
                }
            }
            i = i + 1;
        }
        Ok(None)
    }

    /// Resolves an API-key secret for `expected_tenant_id` at `at_ms`,
    /// auditing the outcome at `now` (see [`key_resolve_outcome`]).
    #[verifier::rlimit(50)]
    pub fn resolve_api_key_at(
        &mut self,
        raw_key: &str,
        expected_tenant_id: &str,
        trace_id: &str,
        replay_key: &str,
        at_ms: u64,
        now: u64,
    ) -> (r: Result<ApiKeyResolution, RuntimeError>)
        ensures
            three_refusal("api key secret"@, raw_key@, "tenant id"@, expected_tenant_id@, "trace id"@, trace_id@) is Some
                ==> is_other_err(r, three_refusal("api key secret"@, raw_key@, "tenant id"@, expected_tenant_id@, "trace id"@, trace_id@)->Some_0)
                && final(self)@ == old(self)@,
            three_refusal("api key secret"@, raw_key@, "tenant id"@, expected_tenant_id@, "trace id"@, trace_id@) is None
                ==> key_resolve_outcome(old(self)@, final(self)@, raw_key@, expected_tenant_id@, trace_id@, replay_key@, at_ms, now, r),
    {
        validate_non_empty("api key secret", raw_key)?;
        validate_non_empty("tenant id", expected_tenant_id)?;
        validate_non_empty("trace id", trace_id)?;
        let found = self.scan_candidates(raw_key, expected_tenant_id);
        let found = match found {
            Ok(f) => f,
            Err(e) => {
                return Err(e);
            },
        };
        proof {
            match scan_keys(old(self)@.2, expected_tenant_id@, raw_key@, 0) {
                KeyScan::Match(j) => {
                    assert(found matches Some(k) && k as int == j);
                },
                KeyScan::NoMatch => {
                    assert(found is None);
                },
                KeyScan::Broken(e) => {},
            }
        }
        let i = match found {
            Some(i) => i,
            None => {
                self.insert_audit(
                    "api_key.resolve",
                    None,
                    Some(owned(expected_tenant_id)),
                    None,
                    None,
                    Some(owned(trace_id)),
                    "denied",
                    "api key not found",
                    now,
                )?;
                return Err(other(owned("api key resolve denied: key not found")));
            },
        };
        let key = self.api_keys[i].duplicate();
        assert(scan_keys(old(self)@.2, expected_tenant_id@, raw_key@, 0) == KeyScan::Match(i as int));
        assert(key == old(self)@.2[i as int]);
        let denial: Option<(&str, &str)> = if key.revoked_ms.is_some() {
            Some(("api key revoked", "api key resolve denied: key revoked"))
        } else if at_ms >= key.expires_ms {
            Some(("api key expired", "api key resolve denied: key expired"))
        } else if !str_eq(key.tenant_id.as_str(), expected_tenant_id) {
            Some(("tenant mismatch", "api key resolve denied: tenant mismatch"))
        } else {
            None
        };
        match denial {
            Some((why, msg)) => {
                self.insert_audit(
                    "api_key.resolve",
                    Some(key.service_actor_id.clone()),
                    Some(key.tenant_id.clone()),
                    None,
                    Some(key.id.clone()),
                    Some(owned(trace_id)),
                    "denied",
                    why,
                    now,
                )?;
                return Err(other(owned(msg)));
            },
            None => {},
        }
        let a = match self.find_actor_index(key.service_actor_id.as_str()) {
            Some(a) => a,
            None => {
                return Err(other(owned("api key actor not found")));
            },
        };
        let actor = self.actors[a].duplicate();
        let actor_denial: Option<(&str, &str)> = if actor.tenant_id != key.tenant_id {
            Some(("actor tenant mismatch", "api key resolve denied: actor tenant mismatch"))
        } else if !str_eq(actor.actor_kind.as_str(), "service") {
            Some(("actor is not service", "api key resolve denied: actor is not service"))
        } else {
            None
        };
        match actor_denial {
            Some((why, msg)) => {
                self.insert_audit(
                    "api_key.resolve",
                    Some(key.service_actor_id.clone()),
                    Some(key.tenant_id.clone()),
                    None,
                    Some(key.id.clone()),
                    Some(owned(trace_id)),
                    "denied",
                    why,
                    now,
                )?;
                return Err(other(owned(msg)));
            },
            None => {},
        }
        let used = ApiKeyRecord { last_used_ms: Some(at_ms), updated_ms: at_ms, ..key };
        let stored = used.duplicate();
        self.api_keys.set(i, stored);
        let trace = AuthTraceContext {
            trace_id: owned(trace_id),
            tenant_id: used.tenant_id.clone(),
            actor_id: actor.id.clone(),
            auth_method: owned("api_key"),
            session_id: String::new(),
            api_key_id: used.id.clone(),
            permission_fingerprint: actor.permission_fingerprint.clone(),
            replay_key: owned(replay_key),
        };
        self.insert_audit(
            "api_key.resolve",
            Some(actor.id.clone()),
            Some(used.tenant_id.clone()),
            None,
            Some(used.id.clone()),
            Some(owned(trace_id)),
            "allowed",
            "api key resolved",
            now,
        )?;
        Ok(ApiKeyResolution { actor, api_key: used, trace })
    }

    /// Marks an API key revoked at `at_ms`.
    pub fn revoke_api_key(&mut self, key_id: &str, at_ms: u64) -> (r: Result<ApiKeyRecord, RuntimeError>)
        ensures
            refused_as(
                r,
                if blank(key_id@) {
                    Some(must_not_be_empty("api key id"@))
                } else if find_key(old(self)@, key_id@) < 0 {
                    Some(key_not_found(key_id@))
                } else {
                    None
                },
            ),
            r is Err ==> final(self)@ == old(self)@,
            r matches Ok(rec) ==> {
                let i = find_key(old(self)@, key_id@);
                &&& rec == (ApiKeyRecord { revoked_ms: Some(at_ms), updated_ms: at_ms, ..old(self)@.2[i] })
                &&& final(self)@.2 == old(self)@.2.update(i, rec)
                &&& final(self)@.0 == old(self)@.0
                &&& final(self)@.1 == old(self)@.1
                &&& final(self)@.3 == old(self)@.3
                &&& final(self)@.4 == old(self)@.4
            },
    {
        validate_non_empty("api key id", key_id)?;
        let i = match self.find_key_index(key_id) {
            Some(i) => i,
            None => {
                return Err(other(cat3("auth api key `", key_id, "` not found")));
            },
        };
        let k = self.api_keys[i].duplicate();
        let rec = ApiKeyRecord { revoked_ms: Some(at_ms), updated_ms: at_ms, ..k };
        let out = rec.duplicate();
        self.api_keys.set(i, rec);
        Ok(out)
    }

    /// [`Self::upsert_actor_at`] at the current time.
    pub fn upsert_actor(&mut self, actor: AuthActor) -> (r: Result<AuthActor, RuntimeError>)
        ensures
            refused_as(r, actor_refusal(actor)),
            r is Err ==> final(self)@ == old(self)@,
            r matches Ok(a) ==> exists|now: u64| a == upserted(old(self)@, actor, now),
    {
        let now = now_ms();
        self.upsert_actor_at(actor, now)
    }

    /// [`Self::create_session_at`] at the current time.
    pub fn create_session(&mut self, input: SessionCreate) -> (r: Result<SessionRecord, RuntimeError>)
        ensures
            refused_as(r, session_create_refusal(old(self)@, input)),
            r is Err ==> final(self)@ == old(self)@,
            r matches Ok(rec) ==> is_new_session(rec, input, rec.created_ms) && final(self)@.1 == old(self)@.1.push(rec),
    {
        let now = now_ms();
        self.create_session_at(input, now)
    }

    /// [`Self::resolve_session_at`], audited at the current time.
    pub fn resolve_session(
        &mut self,
        raw_token: &str,
        expected_tenant_id: &str,
        trace_id: &str,
        replay_key: &str,
        at_ms: u64,
    ) -> (r: Result<SessionResolution, RuntimeError>)
        ensures
            three_refusal("session token"@, raw_token@, "tenant id"@, expected_tenant_id@, "trace id"@, trace_id@) is Some
                ==> final(self)@ == old(self)@ && r is Err,
            three_refusal("session token"@, raw_token@, "tenant id"@, expected_tenant_id@, "trace id"@, trace_id@) is None
                ==> exists|now: u64| session_resolve_outcome(old(self)@, final(self)@, raw_token@, expected_tenant_id@, trace_id@, replay_key@, at_ms, now, r),
    {
        let now = now_ms();
        self.resolve_session_at(raw_token, expected_tenant_id, trace_id, replay_key, at_ms, now)
    }

    /// [`Self::rotate_session_at`] at the current time.
    pub fn rotate_session(&mut self, session_id: &str, new_raw_token: &str, new_expires_ms: u64) -> (r: Result<SessionRecord, RuntimeError>)
        ensures
            refused_as(r, rotate_refusal(old(self)@, session_id@, new_raw_token@, new_expires_ms)),
            r is Err ==> final(self)@ == old(self)@,
            distinct_token_hashes(old(self)@) ==> distinct_token_hashes(final(self)@),
            r matches Ok(rec) ==> rotated(old(self)@, final(self)@, session_id@, new_raw_token@, new_expires_ms, rec.updated_ms, rec),
    {
        let now = now_ms();
        self.rotate_session_at(session_id, new_raw_token, new_expires_ms, now)
    }

    /// [`Self::create_oauth_state_at`] at the current time.
    pub fn create_oauth_state(&mut self, input: OAuthStateCreate) -> (r: Result<OAuthStateRecord, RuntimeError>)
        ensures
            exists|now: u64| refused_as(r, #[trigger] oauth_create_refusal(old(self)@, input, now)),
            r is Err ==> final(self)@ == old(self)@,
            r matches Ok(rec) ==> is_new_state(rec, input, rec.created_ms) && final(self)@.3 == old(self)@.3.push(rec),
    {
        let now = now_ms();
        self.create_oauth_state_at(input, now)
    }

    /// [`Self::resolve_oauth_callback_at`], audited at the current time.
    pub fn resolve_oauth_callback(
        &mut self,
        raw_state: &str,
        expected_tenant_id: &str,
        trace_id: &str,
        at_ms: u64,
    ) -> (r: Result<OAuthCallbackResolution, RuntimeError>)
        ensures
            three_refusal("oauth state"@, raw_state@, "tenant id"@, expected_tenant_id@, "trace id"@, trace_id@) is Some
                ==> final(self)@ == old(self)@ && r is Err,
            three_refusal("oauth state"@, raw_state@, "tenant id"@, expected_tenant_id@, "trace id"@, trace_id@) is None
                ==> exists|now: u64| oauth_resolve_outcome(old(self)@, final(self)@, raw_state@, expected_tenant_id@, trace_id@, at_ms, now, r),
    {
        let now = now_ms();
        self.resolve_oauth_callback_at(raw_state, expected_tenant_id, trace_id, at_ms, now)
    }

    /// [`Self::create_api_key_at`] at the current time.
    pub fn create_api_key(&mut self, input: ApiKeyCreate) -> (r: Result<ApiKeyRecord, RuntimeError>)
        ensures
            exists|now: u64| #[trigger] key_create_outcome(old(self)@, final(self)@, input, now, r),
    {
        let now = now_ms();
        self.create_api_key_at(input, now)
    }

    /// [`Self::resolve_api_key_at`], audited at the current time.
    pub fn resolve_api_key(
        &mut self,
        raw_key: &str,
        expected_tenant_id: &str,
        trace_id: &str,
        replay_key: &str,
        at_ms: u64,
    ) -> (r: Result<ApiKeyResolution, RuntimeError>)
        ensures
            three_refusal("api key secret"@, raw_key@, "tenant id"@, expected_tenant_id@, "trace id"@, trace_id@) is Some
                ==> final(self)@ == old(self)@ && r is Err,
            three_refusal("api key secret"@, raw_key@, "tenant id"@, expected_tenant_id@, "trace id"@, trace_id@) is None
                ==> exists|now: u64| key_resolve_outcome(old(self)@, final(self)@, raw_key@, expected_tenant_id@, trace_id@, replay_key@, at_ms, now, r),
    {
        let now = now_ms();
        self.resolve_api_key_at(raw_key, expected_tenant_id, trace_id, replay_key, at_ms, now)
    }

    /// The audit trail, oldest first (by time, then id).
    pub fn audit_events(&self) -> (r: Vec<AuthAuditEvent>)
        ensures
            r@ == sorted_audit(self@.4),
    {
        let mut out: Vec<AuthAuditEvent> = Vec::new();
        let mut i: usize = 0;
        while i < self.audit.len()
            invariant
                i <= self.audit@.len(),
                out@ == sorted_audit(self.audit@.take(i as int)),
            decreases self.audit.len() - i,
        {
            let e = self.audit[i].duplicate();
            proof {
                assert(self.audit@.take(i + 1).drop_last() =~= self.audit@.take(i as int));
            }
            insert_event(&mut out, e);
            i = i + 1;
        }
        assert(self.audit@.take(self.audit@.len() as int) =~= self.audit@);
        out
    }

    /// The actor with id `id`.
    pub fn get_actor(&self, id: &str) -> (r: Option<AuthActor>)
        ensures
            find_actor(self@, id@) < 0 ==> r is None,
            find_actor(self@, id@) >= 0 ==> r == Some(self@.0[find_actor(self@, id@)]),
    {
        match self.find_actor_index(id) {
            Some(i) => Some(self.actors[i].duplicate()),
            None => None,
        }
    }

    /// The session with id `id`.
    pub fn get_session(&self, id: &str) -> (r: Option<SessionRecord>)
        ensures
            find_session(self@, id@) < 0 ==> r is None,
            find_session(self@, id@) >= 0 ==> r == Some(self@.1[find_session(self@, id@)]),
    {
        match self.find_session_index(id) {
            Some(i) => Some(self.sessions[i].duplicate()),
            None => None,
        }
    }
}

// ---------------------------------------------------------------------
// Laws

/// A revoked session never resolves.
pub proof fn revoked_session_never_resolves(
    old: AuthState,
    new: AuthState,
    raw: Seq<char>,
    tenant: Seq<char>,
    trace: Seq<char>,
    replay: Seq<char>,
    at_ms: u64,
    now: u64,
    r: Result<SessionResolution, RuntimeError>,
)
    requires
        session_resolve_outcome(old, new, raw, tenant, trace, replay, at_ms, now, r),
        find_session_hash(old, session_hash(raw)) >= 0,
        old.1[find_session_hash(old, session_hash(raw))].revoked_ms is Some,
    ensures
        r is Err,
{
}

/// An expired session never resolves: at or after its expiry the token
/// is refused.
pub proof fn expired_session_never_resolves(
    old: AuthState,
    new: AuthState,
    raw: Seq<char>,
    tenant: Seq<char>,
    trace: Seq<char>,
    replay: Seq<char>,
    at_ms: u64,
    now: u64,
    r: Result<SessionResolution, RuntimeError>,
)
    requires
        session_resolve_outcome(old, new, raw, tenant, trace, replay, at_ms, now, r),
        find_session_hash(old, session_hash(raw)) >= 0,
        at_ms >= old.1[find_session_hash(old, session_hash(raw))].expires_ms,
    ensures
        r is Err,
{
}

/// A resolved session is the live session of the presented token, in the
/// expected tenant, bound to an actor of that tenant, and its grant is
/// the last audit row.
pub proof fn resolved_session_is_bound_to_tenant(
    old: AuthState,
    new: AuthState,
    raw: Seq<char>,
    tenant: Seq<char>,
    trace: Seq<char>,
    replay: Seq<char>,
    at_ms: u64,
    now: u64,
    r: Result<SessionResolution, RuntimeError>,
)
    requires
        session_resolve_outcome(old, new, raw, tenant, trace, replay, at_ms, now, r),
        r is Ok,
    ensures
        r->Ok_0.session.token_hash@ == session_hash(raw),
        r->Ok_0.session.revoked_ms is None,
        at_ms < r->Ok_0.session.expires_ms,
        r->Ok_0.session.tenant_id@ == tenant,
        r->Ok_0.actor.tenant_id@ == tenant,
        r->Ok_0.actor.id@ == r->Ok_0.session.actor_id@,
        r->Ok_0.trace.tenant_id@ == tenant,
        new.4.len() == old.4.len() + 1,
        new.4.last().status@ == "allowed"@,
{
    let i = find_session_hash(old, session_hash(raw));
    lemma_session_hash_index(old.1, session_hash(raw));
    if i >= 0 {
        let s = old.1[i];
        let a = find_actor(old, s.actor_id@);
        lemma_actor_index(old.0, s.actor_id@);
    }
}

/// A denied or failed resolution changes nothing but, at most, one audit
/// row recording the denial.
pub proof fn refused_session_changes_only_the_audit(
    old: AuthState,
    new: AuthState,
    raw: Seq<char>,
    tenant: Seq<char>,
    trace: Seq<char>,
    replay: Seq<char>,
    at_ms: u64,
    now: u64,
    r: Result<SessionResolution, RuntimeError>,
)
    requires
        session_resolve_outcome(old, new, raw, tenant, trace, replay, at_ms, now, r),
        r is Err,
    ensures
        new == old || (new.0 == old.0 && new.1 == old.1 && new.2 == old.2 && new.3 == old.3
            && new.4.drop_last() == old.4 && new.4.len() == old.4.len() + 1 && new.4.last().status@
            == "denied"@),
{
}

/// After a rotation to a token with another digest, the old token no
/// longer names any session (token digests being distinct), so it is
/// refused as unknown.
pub proof fn rotation_retires_the_old_token(
    old: AuthState,
    mid: AuthState,
    i: int,
    rec: SessionRecord,
    old_raw: Seq<char>,
    new_raw: Seq<char>,
    new: AuthState,
    tenant: Seq<char>,
    trace: Seq<char>,
    replay: Seq<char>,
    at_ms: u64,
    now: u64,
    r: Result<SessionResolution, RuntimeError>,
)
    requires
        distinct_token_hashes(old),
        0 <= i < old.1.len(),
        old.1[i].token_hash@ == session_hash(old_raw),
        rec.token_hash@ == session_hash(new_raw),
        session_hash(old_raw) != session_hash(new_raw),
        mid.1 == old.1.update(i, rec),
        session_resolve_outcome(mid, new, old_raw, tenant, trace, replay, at_ms, now, r),
    ensures
        find_session_hash(mid, session_hash(old_raw)) < 0,
        r is Err,
{
    let h = session_hash(old_raw);
    lemma_session_hash_index(mid.1, h);
    if find_session_hash(mid, h) >= 0 {
        let j = find_session_hash(mid, h);
        if j != i {
            assert(mid.1[j] == old.1[j]);
            assert(old.1[j].token_hash@ != old.1[i].token_hash@);
        }
    }
}

/// After a rotation, the new token resolves: for the session's tenant,
/// before the new expiry, with the session's actor present in that tenant
/// (and the audit row's id free), the resolution grants the rotated
/// session, whose counter went up by one (saturating).
pub proof fn rotated_token_resolves(
    old: AuthState,
    mid: AuthState,
    id: Seq<char>,
    new_raw: Seq<char>,
    expires: u64,
    rotated_at: u64,
    rec: SessionRecord,
    new: AuthState,
    trace: Seq<char>,
    replay: Seq<char>,
    at_ms: u64,
    now: u64,
    r: Result<SessionResolution, RuntimeError>,
)
    requires
        distinct_token_hashes(old),
        rotate_refusal(old, id, new_raw, expires) is None,
        rotated(old, mid, id, new_raw, expires, rotated_at, rec),
        at_ms < expires,
        find_actor(mid, rec.actor_id@) >= 0,
        mid.0[find_actor(mid, rec.actor_id@)].tenant_id@ == rec.tenant_id@,
        !audit_taken(mid, entry_id(session_grant(mid.0[find_actor(mid, rec.actor_id@)], rec, trace), now)),
        session_resolve_outcome(mid, new, new_raw, rec.tenant_id@, trace, replay, at_ms, now, r),
    ensures
        find_session_hash(mid, session_hash(new_raw)) == find_session(old, id),
        r matches Ok(res) && res.session == rec && res.actor == mid.0[find_actor(mid, rec.actor_id@)],
        rec.rotation_counter == bump(old.1[find_session(old, id)].rotation_counter),
        rec.expires_ms == expires,
        rec.revoked_ms is None,
{
    let i = find_session(old, id);
    let h = session_hash(new_raw);
    lemma_session_index(old.1, id);
    lemma_session_hash_index(mid.1, h);
    assert(mid.1[i].token_hash@ == h);
    let j = find_session_hash(mid, h);
    if j != i {
        assert(mid.1[j] == old.1[j]);
        assert(old.1[j].token_hash@ == session_hash(new_raw));
        assert(false);
    }
}

proof fn lemma_state_hash_update(s: Seq<OAuthStateRecord>, i: int, used: OAuthStateRecord)
    requires
        0 <= i < s.len(),
        state_hash_index(s, s[i].state_hash@) == i,
        used.state_hash@ == s[i].state_hash@,
    ensures
        state_hash_index(s.update(i, used), used.state_hash@) == i,
    decreases s.len(),
{
    let t = s.update(i, used);
    if i < s.len() - 1 {
        lemma_state_hash_index(s, s[i].state_hash@);
        assert(s.last().state_hash@ != s[i].state_hash@);
        assert(t.last() == s.last());
        assert(t.drop_last() =~= s.drop_last().update(i, used));
        lemma_state_hash_update(s.drop_last(), i, used);
    }
}

/// An OAuth state is single use: once a callback has resolved it (marking
/// it used at that time), a second callback with the same state, for any
/// tenant, trace and time, is refused as already used and audited so (or
/// reports the failed audit insert), and the state keeps its first use.
pub proof fn oauth_state_is_single_use(
    s0: AuthState,
    s1: AuthState,
    s2: AuthState,
    raw: Seq<char>,
    tenant: Seq<char>,
    trace: Seq<char>,
    at_ms: u64,
    now: u64,
    r1: Result<OAuthCallbackResolution, RuntimeError>,
    tenant2: Seq<char>,
    trace2: Seq<char>,
    at_ms2: u64,
    now2: u64,
    r2: Result<OAuthCallbackResolution, RuntimeError>,
)
    requires
        oauth_resolve_outcome(s0, s1, raw, tenant, trace, at_ms, now, r1),
        r1 is Ok,
        oauth_resolve_outcome(s1, s2, raw, tenant2, trace2, at_ms2, now2, r2),
    ensures
        find_state_hash(s1, oauth_hash(raw)) >= 0,
        s1.3[find_state_hash(s1, oauth_hash(raw))].used_ms == Some(at_ms),
        s2.3 == s1.3,
        audited_denial(
            s1,
            s2,
            r2,
            state_entry(s1.3[find_state_hash(s1, oauth_hash(raw))], trace2, "denied"@, "oauth state already used"@),
            "oauth callback denied: state already used"@,
            now2,
        ),
        r2 is Err,
{
    let h = oauth_hash(raw);
    let i = find_state_hash(s0, h);
    lemma_state_hash_index(s0.3, h);
    if i >= 0 {
        let st = s0.3[i];
        let used = OAuthStateRecord { used_ms: Some(at_ms), updated_ms: at_ms, ..st };
        lemma_state_hash_update(s0.3, i, used);
        assert(s1.3 == s0.3.update(i, used));
        assert(find_state_hash(s1, h) == i);
        assert(s1.3[i].used_ms is Some);
    }
}

/// An API key only ever resolves to a service actor of the expected
/// tenant, for a key of that tenant that is neither revoked nor expired
/// and whose stored hash the secret matches.
pub proof fn api_key_resolves_only_to_live_service_actors(
    old: AuthState,
    new: AuthState,
    raw: Seq<char>,
    tenant: Seq<char>,
    trace: Seq<char>,
    replay: Seq<char>,
    at_ms: u64,
    now: u64,
    r: Result<ApiKeyResolution, RuntimeError>,
)
    requires
        key_resolve_outcome(old, new, raw, tenant, trace, replay, at_ms, now, r),
        r is Ok,
    ensures
        r->Ok_0.actor.actor_kind@ == "service"@,
        r->Ok_0.actor.tenant_id@ == tenant,
        r->Ok_0.api_key.tenant_id@ == tenant,
        r->Ok_0.api_key.revoked_ms is None,
        at_ms < r->Ok_0.api_key.expires_ms,
        argon2_verify_of(raw, r->Ok_0.api_key.key_hash@) == Ok::<bool, Seq<char>>(true),
        r->Ok_0.trace.api_key_id@ == r->Ok_0.api_key.id@,
{
    lemma_scan_match(old.2, tenant, raw, 0);
}

proof fn lemma_scan_match(keys: Seq<ApiKeyRecord>, tenant: Seq<char>, raw: Seq<char>, i: int)
    ensures
        scan_keys(keys, tenant, raw, i) matches KeyScan::Match(j) ==> 0 <= j < keys.len()
            && is_candidate(keys[j], tenant) && argon2_verify_of(raw, keys[j].key_hash@) == Ok::<
            bool,
            Seq<char>,
        >(true),
    decreases keys.len() - i,
{
    if 0 <= i < keys.len() {
        lemma_scan_match(keys, tenant, raw, i + 1);
    }
}

} // verus!
