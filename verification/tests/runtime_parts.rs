use corvid_runtime::approval_records::ApprovalQueueRecord;
use corvid_runtime::approval_ui::{allowed_transitions, approval_ui_payload, human_title};
use corvid_runtime::approvals::{
    decision_from_answer, humanize_label, infer_risk, is_sensitive_value, json_type_name,
    risk_preview_label, ApprovalDecision, ApprovalRisk, JsonKind,
};
use corvid_runtime::cache::{build_cache_key, cache_entry_metadata, canonical_key_text, CacheKeyInput};
use corvid_runtime::catalog::{
    decode_hex_hash, decode_hex_nibble, introspection_kind, is_introspection_agent,
    CatalogDescriptor, CorvidApprovalDecision, CorvidCallStatus, CorvidTrustTier,
    IntrospectionKind,
};
use corvid_runtime::digest::{encode_hex, hex_prefix, sha256_of_text};
use corvid_runtime::effect_filter::{
    compare_ordinals, parse_op, trust_tier_rank, trust_tier_to_handle_value,
    CorvidFindAgentsStatus, FilterOp,
};
use corvid_runtime::errors::RuntimeError;
use corvid_runtime::http::{decide_after_attempt, HttpNextStep, HttpRequest, HttpRetryPolicy};
use corvid_runtime::human::{checked_choice, parse_human_bool, parse_human_int};
use corvid_runtime::io::IoRuntime;

fn message(err: RuntimeError) -> String {
    err.message()
}

#[test]
fn http_request_builders() {
    let get = HttpRequest::get("https://example.test/a".to_string());
    assert_eq!(get.method, "GET");
    assert_eq!(get.timeout_ms, 30_000);
    assert_eq!(get.retry, HttpRetryPolicy { max_retries: 0, retry_on_5xx: true });
    assert!(get.headers.is_empty() && get.body.is_none());
    let post = HttpRequest::post_json("u".to_string(), "{}".to_string())
        .timeout_ms(5)
        .retry(HttpRetryPolicy { max_retries: 2, retry_on_5xx: false })
        .header("x-a".to_string(), "1".to_string());
    assert_eq!(post.method, "POST");
    assert_eq!(post.headers.len(), 2);
    assert_eq!(post.headers[0].name, "content-type");
    assert_eq!(post.headers[0].value, "application/json");
    assert_eq!(post.headers[1].name, "x-a");
    assert_eq!(post.body.as_deref(), Some("{}"));
    assert_eq!(post.timeout_ms, 5);
    assert_eq!(post.retry.max_retries, 2);
}

#[test]
fn http_retry_rule() {
    let p = HttpRetryPolicy { max_retries: 1, retry_on_5xx: true };
    assert_eq!(decide_after_attempt(&p, 1, Some(500)), HttpNextStep::Retry);
    assert_eq!(decide_after_attempt(&p, 2, Some(500)), HttpNextStep::Respond);
    assert_eq!(decide_after_attempt(&p, 1, Some(404)), HttpNextStep::Respond);
    assert_eq!(decide_after_attempt(&p, 1, None), HttpNextStep::Retry);
    assert_eq!(decide_after_attempt(&p, 2, None), HttpNextStep::Fail);
    let no5xx = HttpRetryPolicy { max_retries: 3, retry_on_5xx: false };
    assert_eq!(decide_after_attempt(&no5xx, 1, Some(503)), HttpNextStep::Respond);
    let max = HttpRetryPolicy { max_retries: u32::MAX, retry_on_5xx: true };
    assert_eq!(decide_after_attempt(&max, u32::MAX, None), HttpNextStep::Fail);
}

#[test]
fn io_runtime_manipulates_paths() {
    let io = IoRuntime::new();
    let joined = io.join_path("alpha", "beta/note.txt");
    assert_eq!(joined, "alpha/beta/note.txt");
    assert_eq!(io.join_path("alpha/", "b"), "alpha/b");
    assert_eq!(io.join_path("", "b"), "b");
    assert_eq!(io.join_path("alpha", "/abs"), "/abs");
    assert_eq!(io.parent_path(&joined).as_deref(), Some("alpha/beta"));
    assert_eq!(io.file_name(&joined).as_deref(), Some("note.txt"));
    assert_eq!(io.extension(&joined).as_deref(), Some("txt"));
    assert_eq!(io.with_extension(&joined, "md"), "alpha/beta/note.md");
    assert_eq!(io.normalize_path("alpha/./beta/../note.txt"), "alpha/note.txt");
    assert_eq!(io.normalize_path(""), ".");
    assert_eq!(io.normalize_path("/../a//b/"), "/a/b");
    assert_eq!(io.normalize_path("../x"), "../x");
    assert_eq!(io.normalize_path("../../a"), "a");
    assert_eq!(io.normalize_path("/"), "/");
}

#[test]
fn cache_key_is_stable_and_effect_aware() {
    let input = || CacheKeyInput {
        namespace: "prompt".to_string(),
        subject: "answer".to_string(),
        model: Some("gpt".to_string()),
        effect_key: Some("llm:hosted".to_string()),
        provenance_key: Some("doc:abc".to_string()),
        version: Some("v1".to_string()),
        args_json: "{\"q\":\"hello\"}".to_string(),
    };
    let text = canonical_key_text(&input());
    assert_eq!(
        text,
        "{\"args\":{\"q\":\"hello\"},\"effect_key\":\"llm:hosted\",\"model\":\"gpt\",\"namespace\":\"prompt\",\"provenance_key\":\"doc:abc\",\"subject\":\"answer\",\"version\":\"v1\"}"
    );
    let first = build_cache_key(input()).ok().unwrap();
    let second = build_cache_key(input()).ok().unwrap();
    assert_eq!(first.fingerprint, second.fingerprint);
    assert_eq!(first.fingerprint.len(), 64);
    assert_eq!(first.fingerprint, encode_hex(&sha256_of_text(&text)));
    assert_eq!(first.effect_key.as_deref(), Some("llm:hosted"));
    assert_eq!(first.provenance_key.as_deref(), Some("doc:abc"));
    let meta = cache_entry_metadata(first, true, Some("inv".to_string()));
    assert!(meta.replay_safe);

    let mut empty = input();
    empty.namespace = "  ".to_string();
    let err = build_cache_key(empty).err().unwrap();
    assert!(message(err).contains("namespace"));
    let mut quoted = input();
    quoted.subject = "a\"b\\c\n\u{1}".to_string();
    quoted.model = None;
    let text = canonical_key_text(&quoted);
    assert!(text.contains("\"model\":null"));
    assert!(text.contains("\"subject\":\"a\\\"b\\\\c\\n\\u0001\""));
}

#[test]
fn hex_helpers() {
    assert_eq!(encode_hex(&[0x00, 0xab, 0x10]), "00ab10");
    assert_eq!(hex_prefix(&[0xab, 0xcd, 0xef], 3), "abc");
    assert_eq!(hex_prefix(&[0xab], 10), "ab");
    assert_eq!(
        encode_hex(&sha256_of_text("abc")),
        "ba7816bf8f01cfea414140de5dae2223b00361a396177a9cb410ff61f20015ad"
    );
}

#[test]
fn catalog_hash_decoding_and_verification() {
    let hex = "  ba7816bf8f01cfea414140de5dae2223b00361a396177a9cb410ff61f20015AD\n";
    let bytes = decode_hex_hash(hex).ok().unwrap();
    assert_eq!(bytes.len(), 32);
    assert_eq!(bytes[0], 0xba);
    assert_eq!(bytes[31], 0xad);
    let err = decode_hex_hash("abcd").err().unwrap();
    assert_eq!(message(err), "value marshalling failed: expected 64 hex chars for SHA-256, got 4");
    let bad = "zz7816bf8f01cfea414140de5dae2223b00361a396177a9cb410ff61f20015ad";
    assert_eq!(message(decode_hex_hash(bad).err().unwrap()), "value marshalling failed: invalid hex hash");
    assert_eq!(decode_hex_nibble(b'F').ok(), Some(15));
    assert!(decode_hex_nibble(b'g').is_err());

    let descriptor = CatalogDescriptor { json: "{\"a\":1}".to_string(), hash: bytes.clone() };
    assert_eq!(descriptor.descriptor_json(), ("{\"a\":1}", 7));
    assert!(descriptor.verify_hash(&bytes));
    let mut other = bytes.clone();
    other[5] ^= 1;
    assert!(!descriptor.verify_hash(&other));
    assert_eq!(descriptor.descriptor_hash(), bytes);
}

#[test]
fn catalog_names_and_codes() {
    assert!(is_introspection_agent("__corvid_list_agents"));
    assert!(!is_introspection_agent("refund"));
    assert_eq!(introspection_kind("__corvid_pre_flight"), Some(IntrospectionKind::PreFlight));
    assert_eq!(introspection_kind("__corvid_other"), None);
    assert_eq!(CorvidTrustTier::SecurityReview.code(), 2);
    assert_eq!(CorvidCallStatus::BudgetExceeded.code(), 5);
    assert_eq!(CorvidApprovalDecision::from_code(0), CorvidApprovalDecision::Accept);
    assert_eq!(CorvidApprovalDecision::from_code(7), CorvidApprovalDecision::Reject);
    assert_eq!(CorvidFindAgentsStatus::OpMismatch.code(), 3);
}

#[test]
fn filter_operators_and_tiers() {
    assert!(matches!(parse_op("le"), Ok(FilterOp::Le)));
    let err = parse_op("between").err().unwrap();
    assert_eq!(err.status, CorvidFindAgentsStatus::BadJson);
    assert_eq!(
        err.message,
        "unsupported operator `between`; expected one of eq/ne/lt/le/gt/ge"
    );
    assert!(compare_ordinals(FilterOp::Lt, 0, 2));
    assert!(!compare_ordinals(FilterOp::Gt, 0, 2));
    assert!(compare_ordinals(FilterOp::Ne, 1, 2));
    assert_eq!(trust_tier_rank("supervisor_required"), Some(1));
    assert_eq!(trust_tier_rank("security_review"), None);
    assert_eq!(trust_tier_to_handle_value(None), 0);
    assert_eq!(trust_tier_to_handle_value(Some("security_review")), 2);
    assert_eq!(trust_tier_to_handle_value(Some("weird")), 3);
}

#[test]
fn approval_card_wording() {
    assert_eq!(humanize_label("ChargeCard"), "Charge Card");
    assert_eq!(humanize_label("issue_refund-now"), "Issue refund now");
    assert_eq!(humanize_label(""), "");
    assert_eq!(infer_risk("ChargeCard", &[None, Some(125.0f64.to_bits())]), ApprovalRisk::MoneyMovement);
    assert_eq!(infer_risk("IssueRefund", &[None, Some(99.99f64.to_bits())]), ApprovalRisk::MoneyMovement);
    assert_eq!(infer_risk("Lookup", &[Some((-100.0f64).to_bits())]), ApprovalRisk::MoneyMovement);
    assert_eq!(infer_risk("Lookup", &[Some(99.0f64.to_bits())]), ApprovalRisk::Review);
    assert_eq!(infer_risk("DeleteUser", &[]), ApprovalRisk::Irreversible);
    assert_eq!(infer_risk("SendEmail", &[]), ApprovalRisk::ExternalSideEffect);
    assert_eq!(risk_preview_label(ApprovalRisk::MoneyMovement), "a money-moving operation");
    assert!(is_sensitive_value("4242424242424242"));
    assert!(is_sensitive_value("my API Token"));
    assert!(!is_sensitive_value("ord_1"));
    assert_eq!(json_type_name(JsonKind::String), "string");
    assert_eq!(decision_from_answer("  YES \n"), ApprovalDecision::Approve);
    assert_eq!(decision_from_answer("y"), ApprovalDecision::Approve);
    assert_eq!(decision_from_answer("no"), ApprovalDecision::Deny);
}

fn record(status: &str, delegated: Option<&str>) -> ApprovalQueueRecord {
    ApprovalQueueRecord {
        id: "approval-1".to_string(),
        tenant_id: "org-1".to_string(),
        requester_actor_id: "user-1".to_string(),
        approver_actor_id: None,
        delegated_to_actor_id: delegated.map(|d| d.to_string()),
        contract_id: "contract-1".to_string(),
        contract_version: "v1".to_string(),
        action: "send_executive_follow_up".to_string(),
        target_kind: "email_thread".to_string(),
        target_id: "thread-1".to_string(),
        status: status.to_string(),
        required_role: "Approver".to_string(),
        risk_level: "external_side_effect".to_string(),
        data_class: "private".to_string(),
        irreversible: true,
        max_cost_usd_bits: 0.25f64.to_bits(),
        expires_ms: 60_000,
        trace_id: "trace-1".to_string(),
        replay_key: "replay-approval-1".to_string(),
        created_ms: 0,
        updated_ms: 0,
    }
}

#[test]
fn approval_ui_titles_and_transitions() {
    assert_eq!(human_title("send_executive_follow_up"), "Send Executive Follow Up");
    assert_eq!(human_title("a--b"), "A B");
    assert_eq!(human_title("__"), "Approval");
    let pending = record("pending", None);
    assert_eq!(
        allowed_transitions(&pending, "approver-1", "Approver"),
        vec!["approve".to_string(), "deny".to_string(), "comment".to_string(), "delegate".to_string()]
    );
    assert_eq!(allowed_transitions(&pending, "approver-1", "Member"), vec!["comment".to_string()]);
    let delegated = record("pending", Some("approver-2"));
    assert_eq!(allowed_transitions(&delegated, "approver-3", "Approver"), vec!["comment".to_string()]);
    assert!(allowed_transitions(&record("approved", None), "approver-1", "Approver").is_empty());
    let payload = approval_ui_payload(&pending, &[], "approver-1", "Approver");
    assert_eq!(payload.schema_version, "corvid.approval.ui.v1");
    assert_eq!(payload.title, "Send Executive Follow Up");
    assert_eq!(payload.summary, "Send Executive Follow Up on email_thread `thread-1`");
    assert_eq!(payload.target.kind, "email_thread");
    assert!(payload.redacted);
}

#[test]
fn human_answers() {
    assert_eq!(checked_choice(1, 2).ok(), Some(1));
    let err = checked_choice(3, 2).err().unwrap();
    assert_eq!(message(err), "choice index 3 out of range for 2 options");
    assert_eq!(parse_human_bool("YES").ok(), Some(true));
    assert_eq!(parse_human_bool("n").ok(), Some(false));
    assert_eq!(message(parse_human_bool("maybe").err().unwrap()), "invalid Bool input");
}

#[test]
fn hex_hash_round_trips_through_decode() {
    let bytes = sha256_of_text("descriptor");
    let hex = encode_hex(&bytes);
    for text in [hex.clone(), hex.to_uppercase(), format!(" \t{hex}\n"), format!("\n{}  ", hex.to_uppercase())] {
        assert_eq!(decode_hex_hash(&text).ok(), Some(bytes.clone()), "{text:?}");
    }
}

#[test]
fn normalizing_twice_changes_nothing() {
    let io = IoRuntime::new();
    for p in ["alpha/./beta/../note.txt", "", "/../a//b/", "../x", "../../a", "/", "./", "a/..", "../../..", "x/../../y/./z/"] {
        let once = io.normalize_path(p);
        assert_eq!(io.normalize_path(&once), once, "{p}");
        assert!(!once.split('/').any(|c| c == "." ) || once == ".", "{p}");
    }
}

#[test]
fn human_int_answers() {
    assert_eq!(parse_human_int("42").ok(), Some(42));
    assert_eq!(parse_human_int("-7").ok(), Some(-7));
    assert_eq!(parse_human_int("+3").ok(), Some(3));
    for bad in ["", "4x", "99999999999999999999", "-"] {
        match parse_human_int(bad) {
            Err(RuntimeError::Other(m)) => {
                let expected = bad.parse::<i64>().unwrap_err().to_string();
                assert_eq!(m, format!("invalid Int input: {expected}"));
            }
            other => panic!("{bad}: {other:?}"),
        }
    }
}
