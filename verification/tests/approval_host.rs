use corvid_runtime::approval_card::ApprovalRequest;
use corvid_runtime::approval_host::{
    approval_from_host, approval_predicate_json, evaluate_approval_predicate, host_approval_after_callback,
    host_approval_after_registered, rejected_approval_detail, ApprovalRequestOutcome, ApprovalSiteEntry,
    HostApprovalStep, PreapprovedRequests, RegisteredApprovalStep,
};
use corvid_runtime::approvals::ApprovalDecision;
use corvid_runtime::approver_bridge::{ApprovalDecisionInfo, CorvidPredicateStatus};
use corvid_runtime::catalog::OwnedApprovalRequired;
use corvid_runtime::errors::RuntimeError;
use corvid_runtime::json::{json_eq, json_list_eq, JsonMember, JsonNumber, JsonValue};
use std::cell::Cell;

fn to_json(value: &serde_json::Value) -> JsonValue {
    match value {
        serde_json::Value::Null => JsonValue::Null,
        serde_json::Value::Bool(b) => JsonValue::Bool(*b),
        serde_json::Value::Number(n) => JsonValue::Number(JsonNumber {
            bits: n.as_f64().unwrap().to_bits(),
            text: n.to_string(),
        }),
        serde_json::Value::String(s) => JsonValue::String(s.clone()),
        serde_json::Value::Array(items) => JsonValue::Array(items.iter().map(to_json).collect()),
        serde_json::Value::Object(map) => JsonValue::Object(
            map.iter()
                .map(|(k, v)| JsonMember { key: k.clone(), value: to_json(v) })
                .collect(),
        ),
    }
}

fn parse(text: &str) -> Result<JsonValue, String> {
    serde_json::from_str::<serde_json::Value>(text)
        .map(|v| to_json(&v))
        .map_err(|e| e.to_string())
}

fn value(text: &str) -> JsonValue {
    parse(text).unwrap()
}

fn items(text: &str) -> Vec<JsonValue> {
    match value(text) {
        JsonValue::Array(items) => items,
        _ => panic!("not an array"),
    }
}

fn detail(accepted: bool, decider: &str) -> ApprovalDecisionInfo {
    ApprovalDecisionInfo { accepted, decider: decider.to_string(), rationale: None }
}

/// The host side of a host approval: the registered approver answered
/// `registered`; the callback, if there is one, is called only when asked.
fn request_host_approval(
    registered: Result<Option<ApprovalDecisionInfo>, String>,
    callback: Option<&dyn Fn(&OwnedApprovalRequired) -> i32>,
    request: &OwnedApprovalRequired,
) -> ApprovalRequestOutcome {
    match host_approval_after_registered(registered) {
        HostApprovalStep::Decided(approval) => approval.outcome,
        HostApprovalStep::AskHostCallback => {
            host_approval_after_callback(callback.map(|cb| cb(request))).outcome
        }
    }
}

#[test]
fn request_host_approval_callback_can_run_nontrivial_host_code() {
    let calls = Cell::new(0usize);
    let counting_approver = |_request: &OwnedApprovalRequired| -> i32 {
        calls.set(calls.get() + 1);
        0
    };
    let request = OwnedApprovalRequired {
        site_name: "EchoString".to_string(),
        predicate_json: "{\"kind\":\"approval_contract\"}".to_string(),
        args_json: "[\"vip\"]".to_string(),
        rationale_prompt: "Approval required".to_string(),
    };
    let outcome = request_host_approval(Ok(None), Some(&counting_approver), &request);
    match outcome {
        ApprovalRequestOutcome::Accepted(_) => {}
        ApprovalRequestOutcome::MissingOrRejected => {
            panic!("host callback unexpectedly rejected request")
        }
    }
    assert_eq!(calls.get(), 1);
}

#[test]
fn registered_approver_decides_before_the_callback() {
    let calls = Cell::new(0usize);
    let approver = |_request: &OwnedApprovalRequired| -> i32 {
        calls.set(calls.get() + 1);
        0
    };
    let request = OwnedApprovalRequired {
        site_name: "Pay".to_string(),
        predicate_json: "{}".to_string(),
        args_json: "[]".to_string(),
        rationale_prompt: "r".to_string(),
    };
    match host_approval_after_registered(Ok(Some(detail(false, "corvid-agent:approver.cor")))) {
        HostApprovalStep::Decided(approval) => {
            assert!(matches!(approval.outcome, ApprovalRequestOutcome::MissingOrRejected));
            let last = approval.last_detail.unwrap();
            assert!(!last.accepted);
            assert_eq!(last.decider, "corvid-agent:approver.cor");
        }
        HostApprovalStep::AskHostCallback => panic!("registered approver was ignored"),
    }
    let outcome = request_host_approval(Ok(Some(detail(true, "corvid-agent:a"))), Some(&approver), &request);
    assert!(matches!(outcome, ApprovalRequestOutcome::Accepted(ref d) if d.decider == "corvid-agent:a"));
    assert_eq!(calls.get(), 0);
    let outcome = request_host_approval(Err("program failed".to_string()), Some(&approver), &request);
    assert!(matches!(outcome, ApprovalRequestOutcome::Accepted(ref d) if d.decider == "c-callback"));
    assert_eq!(calls.get(), 1);
}

#[test]
fn host_approval_fails_closed_without_a_callback() {
    let approval = host_approval_after_callback(None);
    assert!(matches!(approval.outcome, ApprovalRequestOutcome::MissingOrRejected));
    let last = approval.last_detail.unwrap();
    assert!(!last.accepted);
    assert_eq!(last.decider, "fail-closed-default");
    assert!(last.rationale.is_none());

    let rejected = host_approval_after_callback(Some(1));
    assert!(matches!(rejected.outcome, ApprovalRequestOutcome::MissingOrRejected));
    assert_eq!(rejected.last_detail.unwrap().decider, "c-callback");

    let accepted = host_approval_after_callback(Some(0));
    assert!(accepted.last_detail.is_none());
    assert!(matches!(accepted.outcome, ApprovalRequestOutcome::Accepted(ref d) if d.accepted && d.decider == "c-callback"));
}

#[test]
fn rejected_approval_detail_defaults_to_fail_closed() {
    let d = rejected_approval_detail(None);
    assert!(!d.accepted);
    assert_eq!(d.decider, "fail-closed-default");
    let kept = rejected_approval_detail(Some(detail(false, "c-callback")));
    assert_eq!(kept.decider, "c-callback");
}

fn sites() -> Result<Vec<ApprovalSiteEntry>, RuntimeError> {
    Ok(vec![
        ApprovalSiteEntry { label: "Refund".to_string(), predicate: None },
        ApprovalSiteEntry {
            label: "SendEmail".to_string(),
            predicate: Some(value(r#"{"arity":2,"kind":"approval_site"}"#)),
        },
        ApprovalSiteEntry { label: "SendEmail".to_string(), predicate: Some(value(r#"{"arity":9}"#)) },
    ])
}

#[test]
fn approval_predicate_json_reads_the_first_site_with_the_label() {
    assert_eq!(
        approval_predicate_json(&sites(), "SendEmail").as_deref(),
        Some(r#"{"arity":2,"kind":"approval_site"}"#)
    );
    assert_eq!(approval_predicate_json(&sites(), "Refund"), None);
    assert_eq!(approval_predicate_json(&sites(), "Missing"), None);
    assert_eq!(approval_predicate_json(&Err(RuntimeError::Other("no catalog".to_string())), "SendEmail"), None);
}

fn predicate_for(site: &str, args_json: &str) -> (CorvidPredicateStatus, u8, Option<String>) {
    let predicate = approval_predicate_json(&sites(), site).map(|text| parse(&text));
    let r = evaluate_approval_predicate(site, &predicate, &parse(args_json));
    (r.status, r.requires_approval, r.bad_args_message)
}

#[test]
fn approval_predicate_requires_approval_when_arity_matches() {
    assert_eq!(predicate_for("SendEmail", r#"["a@example.com", "hi"]"#), (CorvidPredicateStatus::Evaluated, 1, None));
}

#[test]
fn approval_predicate_reports_each_failure() {
    assert_eq!(predicate_for("Missing", "[]"), (CorvidPredicateStatus::SiteNotFound, 0, None));
    assert_eq!(predicate_for("Refund", "[]"), (CorvidPredicateStatus::SiteNotFound, 0, None));
    assert_eq!(
        predicate_for("SendEmail", r#"{"to":"a"}"#),
        (CorvidPredicateStatus::BadArgs, 0, Some("args_json must be a JSON array".to_string()))
    );
    let (status, required, message) = predicate_for("SendEmail", "[1,");
    assert_eq!((status, required), (CorvidPredicateStatus::BadArgs, 0));
    assert!(message.unwrap().starts_with("args_json must be a JSON array: "));
    assert_eq!(
        predicate_for("SendEmail", "[1]"),
        (
            CorvidPredicateStatus::BadArgs,
            0,
            Some("arity mismatch for approval site `SendEmail`: expected 2, got 1".to_string())
        )
    );
    let unparsable = evaluate_approval_predicate("SendEmail", &Some(Err("bad".to_string())), &parse("[]"));
    assert_eq!(unparsable.status, CorvidPredicateStatus::Unevaluable);
    for predicate in [r#"{"kind":"approval_site"}"#, r#"{"arity":-1}"#, r#"{"arity":2.0}"#, r#"[2]"#] {
        let r = evaluate_approval_predicate("S", &Some(parse(predicate)), &parse("[1,2]"));
        assert_eq!(r.status, CorvidPredicateStatus::Unevaluable, "{predicate}");
        assert_eq!(r.requires_approval, 0);
    }
}

#[test]
fn preapproved_request_is_answered_once_and_in_order() {
    let mut pre = PreapprovedRequests::new();
    pre.mark_preapproved_request("SendEmail".to_string(), items(r#"["vip", 3]"#), detail(true, "corvid-agent:a"));
    pre.mark_preapproved_request("Refund".to_string(), items("[]"), detail(false, "corvid-agent:b"));

    let refund = ApprovalRequest { label: "Refund".to_string(), args: vec![] };
    match pre.decide_registered_approval(&refund) {
        RegisteredApprovalStep::AskHost(q) => assert_eq!(q.site_name, "Refund"),
        RegisteredApprovalStep::Preapproved { .. } => panic!("a later entry answered first"),
    }
    let send = ApprovalRequest { label: "SendEmail".to_string(), args: items(r#"["vip",3]"#) };
    match pre.decide_registered_approval(&send) {
        RegisteredApprovalStep::Preapproved { decision, detail } => {
            assert_eq!(decision, ApprovalDecision::Approve);
            assert_eq!(detail.decider, "corvid-agent:a");
        }
        RegisteredApprovalStep::AskHost(_) => panic!("preapproval not used"),
    }
    match pre.decide_registered_approval(&refund) {
        RegisteredApprovalStep::Preapproved { decision, detail } => {
            assert_eq!(decision, ApprovalDecision::Deny);
            assert_eq!(detail.decider, "corvid-agent:b");
        }
        RegisteredApprovalStep::AskHost(_) => panic!("preapproval not used"),
    }
    assert!(matches!(pre.decide_registered_approval(&send), RegisteredApprovalStep::AskHost(_)));
}

#[test]
fn unanswered_request_asks_the_host_with_its_arguments() {
    let mut pre = PreapprovedRequests::new();
    pre.mark_preapproved_request("Send \"it\"".to_string(), items("[1]"), detail(true, "x"));
    let req = ApprovalRequest { label: "Send \"it\"".to_string(), args: items(r#"["vip",3,{"b":true,"a":null}]"#) };
    match pre.decide_registered_approval(&req) {
        RegisteredApprovalStep::AskHost(q) => {
            assert_eq!(q.site_name, "Send \"it\"");
            assert_eq!(q.predicate_json, r#"{"kind":"approval_request","label":"Send \"it\""}"#);
            assert_eq!(q.args_json, r#"["vip",3,{"a":null,"b":true}]"#);
            assert_eq!(q.rationale_prompt, "Approval required for `Send \"it\"`.");
        }
        RegisteredApprovalStep::Preapproved { .. } => panic!("different arguments matched"),
    }
}

#[test]
fn host_outcome_becomes_a_decision() {
    let (decision, last) = approval_from_host(ApprovalRequestOutcome::Accepted(detail(true, "c-callback")));
    assert_eq!(decision, ApprovalDecision::Approve);
    assert_eq!(last.unwrap().decider, "c-callback");
    let (decision, last) = approval_from_host(ApprovalRequestOutcome::MissingOrRejected);
    assert_eq!(decision, ApprovalDecision::Deny);
    assert!(last.is_none());
}

#[test]
fn json_equality_follows_serde_json() {
    let cases = [
        ("0.0", "-0.0", true),
        ("0", "0.0", false),
        ("1", "1", true),
        ("1.5", "1.5", true),
        ("-3", "-3", true),
        (r#"{"a":[1,"x"],"b":null}"#, r#"{"b":null,"a":[1,"x"]}"#, true),
        (r#"{"a":1}"#, r#"{"a":1,"b":2}"#, false),
        (r#"[true]"#, r#"[false]"#, false),
        (r#""s""#, r#""s""#, true),
    ];
    for (a, b, same) in cases {
        let (x, y) = (value(a), value(b));
        let expected = serde_json::from_str::<serde_json::Value>(a).unwrap()
            == serde_json::from_str::<serde_json::Value>(b).unwrap();
        assert_eq!(expected, same, "{a} vs {b}");
        assert_eq!(json_eq(&x, &y), same, "{a} vs {b}");
    }
    assert!(json_list_eq(&items("[1,[2]]"), &items("[1,[2]]")));
    assert!(!json_list_eq(&items("[1]"), &items("[1,1]")));
}

use corvid_runtime::approver_bridge::{
    display_budget_bits, find_approver_agent, registered_decision_info, validate_approver_safety,
    verify_approver_signature, ApprovalSiteInput, ApproverAbi, ApproverRegistrationError, ApproverRegistry,
    ApproverSafetyRefusal,
    CorvidApproverLoadStatus, SignatureType,
};

fn struct_type(name: &str) -> SignatureType {
    SignatureType { struct_name: Some(name.to_string()), debug: format!("Struct {{ name: {name:?} }}") }
}

fn approver_abi() -> ApproverAbi {
    ApproverAbi {
        name: "approve_site".to_string(),
        symbol: "approve_site".to_string(),
        source_line: 12,
        params: vec![struct_type("ApprovalSite"), struct_type("ApprovalArgs"), struct_type("ApprovalContext")],
        return_type: struct_type("ApprovalDecision"),
        dangerous: false,
        pub_extern_c: true,
        replayable: true,
        deterministic: false,
        approval_required: true,
        approval_labels: vec!["ApproveSite".to_string()],
        trust_tier: Some("autonomous".to_string()),
        reversibility: Some("reversible".to_string()),
        latency_p99_ms_bits: Some(0.5f64.to_bits()),
        budget_usd_per_call_bits: None,
        projected_cost_usd_bits: None,
        custom_effects: vec![JsonMember { key: "pii".to_string(), value: JsonValue::Bool(false) }],
    }
}

#[test]
fn approver_signature_must_match_the_host_call() {
    assert!(verify_approver_signature(&approver_abi()).is_ok());
    let mut two = approver_abi();
    two.params.pop();
    let err = verify_approver_signature(&two).err().unwrap();
    assert_eq!(err.status, CorvidApproverLoadStatus::BadSignature);
    assert_eq!(err.message, "`approve_site` must take exactly 3 params, got 2");
    let mut wrong = approver_abi();
    wrong.params[1] = SignatureType { struct_name: None, debug: "String".to_string() };
    wrong.return_type = SignatureType { struct_name: None, debug: "Bool".to_string() };
    let err = verify_approver_signature(&wrong).err().unwrap();
    assert_eq!(err.message, "`approve_site` parameter 2 `args` must be `ApprovalArgs`, got `String`");
    let mut ret = approver_abi();
    ret.return_type = struct_type("Decision");
    let err = verify_approver_signature(&ret).err().unwrap();
    assert_eq!(err.message, "`approve_site` return type must be `ApprovalDecision`, got `Struct { name: \"Decision\" }`");
}

#[test]
fn approver_agent_is_found_by_name() {
    let mut other = approver_abi();
    other.name = "helper".to_string();
    assert_eq!(find_approver_agent(&vec![other, approver_abi(), approver_abi()]).ok(), Some(1));
    let mut lone = approver_abi();
    lone.name = "approve".to_string();
    let err = find_approver_agent(&vec![lone]).err().unwrap();
    assert_eq!(err.status, CorvidApproverLoadStatus::MissingAgent);
    assert_eq!(err.message, "no `approve_site` agent found in approver source");
}

#[test]
fn approver_safety_refuses_dangerous_untrusted_and_over_budget_programs() {
    assert!(validate_approver_safety(&approver_abi(), 0.0f64.to_bits()).is_ok());
    let mut dangerous = approver_abi();
    dangerous.dangerous = true;
    let refusal = validate_approver_safety(&dangerous, 0.0f64.to_bits()).err().unwrap();
    assert_eq!(refusal.status(), CorvidApproverLoadStatus::Unsafe);
    assert_eq!(refusal.plain_message().as_deref(), Some("approver may not be `@dangerous`"));
    let mut tier = approver_abi();
    tier.trust_tier = Some("human_required".to_string());
    let refusal = validate_approver_safety(&tier, 0.0f64.to_bits()).err().unwrap();
    assert_eq!(refusal.plain_message().as_deref(), Some("approver trust tier must be `autonomous`"));
    let mut untiered = approver_abi();
    untiered.trust_tier = None;
    assert!(validate_approver_safety(&untiered, 0.0f64.to_bits()).is_ok());

    let mut costly = approver_abi();
    costly.projected_cost_usd_bits = Some(0.5f64.to_bits());
    match validate_approver_safety(&costly, 0.25f64.to_bits()) {
        Err(ApproverSafetyRefusal::OverBudget { budget_bits, ceiling_bits }) => {
            assert_eq!(f64::from_bits(budget_bits), 0.5);
            assert_eq!(f64::from_bits(ceiling_bits), 0.25);
        }
        _ => panic!("over-budget approver accepted"),
    }
    assert_eq!(
        validate_approver_safety(&costly, 0.25f64.to_bits()).err().unwrap().status(),
        CorvidApproverLoadStatus::OverBudget
    );
    costly.budget_usd_per_call_bits = Some(0.1f64.to_bits());
    assert!(validate_approver_safety(&costly, 0.25f64.to_bits()).is_ok());
    assert!(validate_approver_safety(&costly, 0.0f64.to_bits()).is_ok());
    assert!(validate_approver_safety(&costly, f64::NAN.to_bits()).is_ok());
}

#[test]
fn approver_display_budget_prefers_its_own_budget() {
    let mut abi = approver_abi();
    assert!(f64::from_bits(display_budget_bits(&abi, 0.0f64.to_bits())).is_nan());
    assert_eq!(f64::from_bits(display_budget_bits(&abi, 2.5f64.to_bits())), 2.5);
    abi.budget_usd_per_call_bits = Some(0.75f64.to_bits());
    assert_eq!(f64::from_bits(display_budget_bits(&abi, 2.5f64.to_bits())), 0.75);
}

#[test]
fn registered_decision_names_the_program_file() {
    let info = registered_decision_info(true, Some("ok".to_string()), "C:\\approvers\\policy.cor");
    assert!(info.accepted);
    assert_eq!(info.decider, "corvid-agent:C:/approvers/policy.cor");
    assert_eq!(info.rationale.as_deref(), Some("ok"));
    let site = ApprovalSiteInput::fallback("SendEmail");
    assert_eq!(site.site_name, "SendEmail");
    assert_eq!(site.declared_at_line, 0);
    assert!(site.agent_context.is_empty() && site.declared_at_file.is_empty() && site.trace_run_id.is_empty());
    assert!(f64::from_bits(site.budget_remaining_usd_bits).is_nan());
}

#[test]
fn host_binding_preapproval_takes_a_json_array_only() {
    let mut pre = PreapprovedRequests::new();
    assert!(!pre.mark_host_preapproved("SendEmail".to_string(), parse(r#"{"to":"a"}"#)));
    assert!(!pre.mark_host_preapproved("SendEmail".to_string(), parse("[1,")));
    assert!(pre.mark_host_preapproved("SendEmail".to_string(), parse(r#"["vip"]"#)));
    let req = ApprovalRequest { label: "SendEmail".to_string(), args: items(r#"["vip"]"#) };
    match pre.decide_registered_approval(&req) {
        RegisteredApprovalStep::Preapproved { decision, detail } => {
            assert_eq!(decision, ApprovalDecision::Approve);
            assert_eq!(detail.decider, "host-binding-local-approver");
            assert!(detail.accepted && detail.rationale.is_none());
        }
        RegisteredApprovalStep::AskHost(_) => panic!("host preapproval not recorded"),
    }
    assert!(matches!(pre.decide_registered_approval(&req), RegisteredApprovalStep::AskHost(_)));
}

use corvid_runtime::catalog::CorvidCallStatus;
use corvid_runtime::catalog_invoke::{after_approval, call_succeeded, ApprovalGate};

fn needed_approval() -> OwnedApprovalRequired {
    OwnedApprovalRequired {
        site_name: "Refund".to_string(),
        predicate_json: "{\"kind\":\"approval_contract\"}".to_string(),
        args_json: "[5]".to_string(),
        rationale_prompt: "Agent `refund` requires approval before executing dangerous effects.".to_string(),
    }
}

#[test]
fn refused_approval_stops_the_call_and_accepted_one_is_recorded() {
    match after_approval(needed_approval(), ApprovalRequestOutcome::MissingOrRejected, 0) {
        ApprovalGate::Refused(outcome) => {
            assert_eq!(outcome.status, CorvidCallStatus::ApprovalRequired);
            assert!(outcome.result_json.is_none());
            assert_eq!(outcome.approval.unwrap().site_name, "Refund");
            assert_eq!(outcome.observation_handle, 0);
        }
        ApprovalGate::Approved { .. } => panic!("rejected approval let the call through"),
    }
    match after_approval(needed_approval(), ApprovalRequestOutcome::Accepted(detail(true, "c-callback")), 0) {
        ApprovalGate::Approved { site_name, detail } => {
            assert_eq!(site_name, "Refund");
            assert_eq!(detail.decider, "c-callback");
        }
        ApprovalGate::Refused(_) => panic!("accepted approval refused"),
    }
    let done = call_succeeded("42".to_string(), 9);
    assert_eq!(done.status, CorvidCallStatus::Success);
    assert_eq!(done.result_json.as_deref(), Some("42"));
    assert!(done.approval.is_none());
    assert_eq!(done.observation_handle, 9);
}

#[test]
fn approver_registration_checks_then_replaces_and_clears() {
    let mut registry = ApproverRegistry::new();
    assert!(registry.registered().is_none());
    let mut helper = approver_abi();
    helper.name = "helper".to_string();
    match registry.register_compiled_approver("a.cor".to_string(), vec![helper], 0.0f64.to_bits()) {
        Err(ApproverRegistrationError::Load(e)) => assert_eq!(e.status, CorvidApproverLoadStatus::MissingAgent),
        _ => panic!("an approver without approve_site was registered"),
    }
    let mut dangerous = approver_abi();
    dangerous.dangerous = true;
    assert!(matches!(
        registry.register_compiled_approver("b.cor".to_string(), vec![dangerous], 0.0f64.to_bits()),
        Err(ApproverRegistrationError::Unsafe(ApproverSafetyRefusal::Dangerous))
    ));
    let mut two = approver_abi();
    two.params.pop();
    assert!(matches!(
        registry.register_compiled_approver("c.cor".to_string(), vec![two], 0.0f64.to_bits()),
        Err(ApproverRegistrationError::Load(ref e)) if e.status == CorvidApproverLoadStatus::BadSignature
    ));
    assert!(registry.registered().is_none());
    assert!(registry.register_compiled_approver("dir\\policy.cor".to_string(), vec![approver_abi()], 2.0f64.to_bits()).is_ok());
    let r = registry.registered().unwrap();
    assert_eq!(r.source_path, "dir\\policy.cor");
    assert_eq!(f64::from_bits(r.display_budget_bits), 2.0);
    assert_eq!((r.abi.name.as_str(), r.abi.symbol.as_str()), ("__corvid_approver", "__corvid_approver"));
    assert!(!r.abi.dangerous && !r.abi.pub_extern_c && !r.abi.approval_required && r.abi.approval_labels.is_empty());
    assert!(r.abi.replayable && r.abi.source_line == 12);
    let (info, budget) = registry.overlay_listing().unwrap();
    assert_eq!(info.name, "__corvid_approver");
    assert_eq!(info.source_file, "dir/policy.cor");
    assert_eq!((info.param_count, info.grounded_source_count), (3, 0));
    assert_eq!(f64::from_bits(budget), 2.0);
    let filter = registry.overlay_filter_agent().unwrap();
    assert_eq!(filter.cost_bound_bits, Some(2.0f64.to_bits()));
    assert!(!filter.dangerous && filter.replayable);
    assert_eq!(filter.custom.len(), 1);
    assert_eq!(filter.custom[0].key, "pii");
    let mut dangerous = approver_abi();
    dangerous.dangerous = true;
    assert!(registry.register_compiled_approver("d.cor".to_string(), vec![dangerous], 0.0f64.to_bits()).is_err());
    assert_eq!(registry.registered().unwrap().source_path, "dir\\policy.cor");
    registry.clear_registered_approver();
    assert!(registry.registered().is_none());
    assert!(registry.overlay_listing().is_none() && registry.overlay_filter_agent().is_none());
}
