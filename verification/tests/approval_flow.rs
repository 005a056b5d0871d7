use corvid_runtime::approval_authorization::ApprovalActorContext;
use corvid_runtime::approval_policy::validate_approval_contract_policy_at;
use corvid_runtime::approval_queue::ApprovalQueueRuntime;
use corvid_runtime::approval_records::{ApprovalContractRecord, ApprovalCreate, ApprovalQueueRecord};
use corvid_runtime::approval_ui::approval_ui_payload;

const NOW: u64 = 1_700_000_000_000;

fn policy_contract(now: u64) -> ApprovalContractRecord {
    ApprovalContractRecord {
        id: "contract-1".to_string(),
        version: "v1".to_string(),
        action: "IssueRefund".to_string(),
        target_kind: "order".to_string(),
        target_id: "order-1".to_string(),
        tenant_id: "org-1".to_string(),
        required_role: "Approver".to_string(),
        max_cost_usd_bits: 10.0f64.to_bits(),
        data_class: "financial".to_string(),
        irreversible: true,
        expires_ms: now + 60_000,
        replay_key: "replay-1".to_string(),
        created_ms: now,
    }
}

fn contract(expires_ms: u64) -> ApprovalContractRecord {
    ApprovalContractRecord {
        id: "contract-1".to_string(),
        version: "v1".to_string(),
        action: "SendExecutiveFollowUp".to_string(),
        target_kind: "email_thread".to_string(),
        target_id: "thread-1".to_string(),
        tenant_id: "org-1".to_string(),
        required_role: "Approver".to_string(),
        max_cost_usd_bits: 0.25f64.to_bits(),
        data_class: "private".to_string(),
        irreversible: true,
        expires_ms,
        replay_key: "replay-approval-1".to_string(),
        created_ms: 0,
    }
}

fn approver(id: &str) -> ApprovalActorContext {
    ApprovalActorContext {
        actor_id: id.to_string(),
        tenant_id: "org-1".to_string(),
        role: "Approver".to_string(),
    }
}

fn actor(id: &str, tenant_id: &str, role: &str) -> ApprovalActorContext {
    ApprovalActorContext {
        actor_id: id.to_string(),
        tenant_id: tenant_id.to_string(),
        role: role.to_string(),
    }
}

fn create(id: &str, contract: ApprovalContractRecord, risk: &str, trace: &str) -> ApprovalCreate {
    ApprovalCreate {
        id: id.to_string(),
        tenant_id: "org-1".to_string(),
        requester_actor_id: "user-1".to_string(),
        contract,
        risk_level: risk.to_string(),
        trace_id: trace.to_string(),
    }
}

fn queued_approval(queue: &mut ApprovalQueueRuntime, id: &str) -> ApprovalQueueRecord {
    let trace = format!("trace-{id}");
    queue
        .create_at(create(id, contract(NOW + 60_000), "external_side_effect", &trace), NOW)
        .ok()
        .unwrap()
}

fn status_of(queue: &ApprovalQueueRuntime, id: &str) -> String {
    queue.get(id).unwrap().status
}

#[test]
fn approval_policy_accepts_bounded_irreversible_contract() {
    let report = validate_approval_contract_policy_at(&policy_contract(1_000), 1_000);
    assert!(report.valid);
    assert!(report.violations.is_empty());
}

#[test]
fn approval_policy_rejects_weak_irreversible_contracts() {
    let now = 1_000;
    let mut bad = policy_contract(now);
    bad.required_role = "Member".to_string();
    bad.data_class = "unknown".to_string();
    bad.expires_ms = now + 172_800_000;
    let report = validate_approval_contract_policy_at(&bad, now);
    assert!(!report.valid);
    assert!(report.violations.contains(&"irreversible_requires_elevated_role".to_string()));
    assert!(report.violations.contains(&"irreversible_requires_known_data_class".to_string()));
    assert!(report.violations.contains(&"irreversible_expiry_too_long".to_string()));
}

#[test]
fn approval_store_persists_contract_queue_item_and_create_audit() {
    let mut queue = ApprovalQueueRuntime::new();
    let approval = queue
        .create_at(create("approval-1", contract(NOW + 60_000), "external_side_effect", "trace-1"), NOW)
        .ok()
        .unwrap();
    assert_eq!(approval.status, "pending");
    assert_eq!(approval.required_role, "Approver");
    assert!(approval.irreversible);
    let approval_id = approval.id;

    let approval = queue.get(&approval_id).expect("approval");
    assert_eq!(approval.action, "SendExecutiveFollowUp");
    assert_eq!(approval.tenant_id, "org-1");
    let approvals = queue.list_by_tenant("org-1");
    assert_eq!(approvals.len(), 1);
    let audit = queue.audit_events(&approval_id);
    assert_eq!(audit.len(), 1);
    assert_eq!(audit[0].event_kind, "created");
    assert_eq!(audit[0].status_after, "pending");
    assert_eq!(audit[0].trace_id, "trace-1");
}

#[test]
fn approval_store_rejects_cross_tenant_or_expired_contracts() {
    let mut queue = ApprovalQueueRuntime::new();
    let mut cross = contract(NOW + 60_000);
    cross.tenant_id = "org-2".to_string();
    let err = queue.create_at(create("approval-cross", cross, "high", "trace-1"), NOW).err().unwrap();
    assert!(err.message().contains("tenant"));

    let err = queue.create_at(create("approval-expired", contract(1), "high", "trace-1"), NOW).err().unwrap();
    assert!(err.message().contains("expired_contract"));
}

#[test]
fn approval_store_enforces_contract_policy_before_queueing() {
    let mut queue = ApprovalQueueRuntime::new();
    let mut weak = contract(NOW + 60_000);
    weak.required_role = "Member".to_string();
    weak.data_class = "unknown".to_string();
    let err = queue
        .create_at(create("approval-weak", weak, "external_side_effect", "trace-weak"), NOW)
        .err()
        .unwrap();
    let message = err.message();
    assert!(message.contains("irreversible_requires_elevated_role"));
    assert!(message.contains("irreversible_requires_known_data_class"));
    assert_eq!(queue.list_by_tenant("org-1").len(), 0);
}

#[test]
fn approval_api_transitions_comment_and_delegate_work_transactionally() {
    let mut queue = ApprovalQueueRuntime::new();
    let approval = queue
        .create_at(create("approval-1", contract(NOW + 60_000), "external_side_effect", "trace-1"), NOW)
        .ok()
        .unwrap();

    let comment = queue
        .comment_at(&approval.id, "org-1", "approver-1", "looks safe after redaction", NOW + 1)
        .ok()
        .unwrap();
    assert_eq!(comment.event_kind, "commented");
    assert_eq!(comment.status_before, "pending");
    assert_eq!(comment.status_after, "pending");

    let delegated = queue
        .delegate_at(&approval.id, "org-1", &approver("approver-1"), "approver-2", Some("handoff to owner"), NOW + 2)
        .ok()
        .unwrap();
    assert_eq!(delegated.status, "pending");
    assert_eq!(delegated.delegated_to_actor_id.as_deref(), Some("approver-2"));

    let approved = queue
        .approve_at(&approval.id, "org-1", &approver("approver-2"), Some("approved"), NOW + 3)
        .ok()
        .unwrap();
    assert_eq!(approved.status, "approved");
    assert_eq!(approved.approver_actor_id.as_deref(), Some("approver-2"));
    assert!(queue
        .deny_at(&approval.id, "org-1", &approver("approver-3"), Some("too late"), NOW + 4)
        .err()
        .unwrap()
        .message()
        .contains("not pending"));

    let audit = queue.audit_events(&approval.id);
    assert_eq!(
        audit.iter().map(|event| event.event_kind.as_str()).collect::<Vec<_>>(),
        vec!["created", "commented", "delegated", "approved"]
    );
}

#[test]
fn approval_api_denies_and_expires_fail_closed() {
    let mut queue = ApprovalQueueRuntime::new();
    let denial = queue
        .create_at(create("approval-deny", contract(NOW + 60_000), "external_side_effect", "trace-deny"), NOW)
        .ok()
        .unwrap();
    let denied = queue
        .deny_at(&denial.id, "org-1", &approver("approver-1"), Some("insufficient context"), NOW + 1)
        .ok()
        .unwrap();
    assert_eq!(denied.status, "denied");

    let expires_ms = NOW + 1_000;
    let expiring = queue
        .create_at(create("approval-expire", contract(expires_ms), "external_side_effect", "trace-expire"), NOW + 2)
        .ok()
        .unwrap();
    assert!(queue
        .expire(&expiring.id, "org-1", "system", Some("too early"), expires_ms - 1)
        .err()
        .unwrap()
        .message()
        .contains("before contract expiry"));
    let expired = queue
        .expire(&expiring.id, "org-1", "system", Some("deadline passed"), expires_ms)
        .ok()
        .unwrap();
    assert_eq!(expired.status, "expired");

    assert!(queue
        .approve_at(&expiring.id, "org-2", &approver("approver-1"), None, expires_ms + 1)
        .err()
        .unwrap()
        .message()
        .contains("tenant"));
}

#[test]
fn approval_audit_coverage_proves_trace_linked_transition_evidence() {
    let mut queue = ApprovalQueueRuntime::new();
    let approval = queue
        .create_at(create("approval-audit", contract(NOW + 60_000), "external_side_effect", "trace-audit"), NOW)
        .ok()
        .unwrap();
    let pending = queue.audit_coverage(&approval.id).ok().unwrap();
    assert!(pending.complete);
    assert_eq!(pending.current_status, "pending");
    assert_eq!(pending.event_count, 1);

    queue.comment_at(&approval.id, "org-1", "approver-1", "needs owner review", NOW + 1).ok().unwrap();
    queue
        .delegate_at(&approval.id, "org-1", &approver("approver-1"), "approver-2", Some("owner review"), NOW + 2)
        .ok()
        .unwrap();
    queue
        .deny_at(&approval.id, "org-1", &approver("approver-2"), Some("unsafe target"), NOW + 3)
        .ok()
        .unwrap();

    let coverage = queue.audit_coverage(&approval.id).ok().unwrap();
    assert!(coverage.complete);
    assert!(coverage.has_create);
    assert!(coverage.has_terminal_transition);
    assert_eq!(coverage.current_status, "denied");
    assert_eq!(coverage.trace_id, "trace-audit");
    assert_eq!(coverage.event_count, 4);
    let events = queue.audit_events(&approval.id);
    assert!(events.iter().all(|event| event.trace_id == "trace-audit"));
    assert!(events.iter().all(|event| event.tenant_id == "org-1"));
    assert!(events.iter().all(|event| event.approval_id == approval.id));
}

#[test]
fn approval_bypass_rejects_confused_deputy_self_approval() {
    let mut queue = ApprovalQueueRuntime::new();
    let approval = queued_approval(&mut queue, "approval-self");
    let requester_with_role = actor("user-1", "org-1", "Approver");
    let err = queue
        .approve_at(&approval.id, "org-1", &requester_with_role, Some("self approve"), NOW + 1)
        .err()
        .unwrap();
    assert!(err.message().contains("requester"));
    assert_eq!(status_of(&queue, &approval.id), "pending");
}

#[test]
fn approval_bypass_rejects_tenant_crossing_actor() {
    let mut queue = ApprovalQueueRuntime::new();
    let approval = queued_approval(&mut queue, "approval-tenant");
    let cross_tenant_approver = actor("approver-1", "org-2", "Approver");
    let err = queue
        .approve_at(&approval.id, "org-1", &cross_tenant_approver, Some("wrong tenant"), NOW + 1)
        .err()
        .unwrap();
    assert!(err.message().contains("tenant mismatch"));
    assert_eq!(status_of(&queue, &approval.id), "pending");
}

#[test]
fn approval_bypass_rejects_stale_approval_replay() {
    let mut queue = ApprovalQueueRuntime::new();
    let expires_ms = NOW + 60_000;
    let approval = queue
        .create_at(create("approval-stale", contract(expires_ms), "external_side_effect", "trace-stale"), NOW)
        .ok()
        .unwrap();
    let err = queue
        .approve_at(&approval.id, "org-1", &approver("approver-1"), Some("replayed approval"), expires_ms)
        .err()
        .unwrap();
    assert!(err.message().contains("expired"));
    assert_eq!(status_of(&queue, &approval.id), "pending");
}

#[test]
fn approval_bypass_rejects_privilege_escalation() {
    let mut queue = ApprovalQueueRuntime::new();
    let approval = queued_approval(&mut queue, "approval-role");
    let member = actor("member-1", "org-1", "Member");
    let err = queue
        .approve_at(&approval.id, "org-1", &member, Some("role escalation"), NOW + 1)
        .err()
        .unwrap();
    assert!(err.message().contains("required role"));
    assert_eq!(status_of(&queue, &approval.id), "pending");
}

#[test]
fn approval_ui_payload_is_stable_and_frontend_agnostic() {
    let mut queue = ApprovalQueueRuntime::new();
    let approval = queue
        .create_at(create("approval-1", contract(NOW + 60_000), "external_side_effect", "trace-1"), NOW)
        .ok()
        .unwrap();
    queue.comment_at(&approval.id, "org-1", "approver-1", "reviewing", NOW + 1).ok().unwrap();
    let audit = queue.audit_events(&approval.id);
    let payload = approval_ui_payload(&approval, &audit, "approver-1", "Approver");

    assert_eq!(payload.schema_version, "corvid.approval.ui.v1");
    assert_eq!(payload.title, "Send Executive Follow Up");
    assert_eq!(payload.target.kind, "email_thread");
    assert_eq!(
        payload.allowed_transitions,
        vec!["approve".to_string(), "deny".to_string(), "comment".to_string(), "delegate".to_string()]
    );
    assert_eq!(payload.audit.len(), 2);
    assert!(payload.redacted);
    assert_eq!(payload.target.id, "thread-1");
    assert_eq!(payload.trace_id, "trace-1");
    assert_eq!(payload.allowed_transitions[0], "approve");
}

#[test]
fn approval_ui_payload_limits_transitions_for_wrong_role_or_delegate() {
    let mut queue = ApprovalQueueRuntime::new();
    let approval = queue
        .create_at(create("approval-1", contract(NOW + 60_000), "external_side_effect", "trace-1"), NOW)
        .ok()
        .unwrap();
    let delegated = queue
        .delegate_at(&approval.id, "org-1", &approver("approver-1"), "approver-2", None, NOW + 1)
        .ok()
        .unwrap();
    let audit = queue.audit_events(&approval.id);

    let wrong_role = approval_ui_payload(&delegated, &audit, "approver-2", "Member");
    assert_eq!(wrong_role.allowed_transitions, vec!["comment".to_string()]);
    let wrong_delegate = approval_ui_payload(&delegated, &audit, "approver-3", "Approver");
    assert_eq!(wrong_delegate.allowed_transitions, vec!["comment".to_string()]);
}

#[test]
fn list_by_tenant_orders_by_creation_time() {
    let mut queue = ApprovalQueueRuntime::new();
    queue
        .create_at(create("b-later", contract(NOW + 60_000), "high", "trace-b"), NOW + 5)
        .ok()
        .unwrap();
    queue
        .create_at(create("a-earlier", contract(NOW + 60_000), "high", "trace-a"), NOW)
        .ok()
        .unwrap();
    let listed = queue.list_by_tenant("org-1");
    let ids: Vec<&str> = listed.iter().map(|r| r.id.as_str()).collect();
    assert_eq!(ids, vec!["a-earlier", "b-later"]);
    assert!(queue.list_by_tenant("org-2").is_empty());
}
