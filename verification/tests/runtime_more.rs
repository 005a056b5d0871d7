use corvid_runtime::calibration::{clamp_confidence_bits, is_miscalibrated, CalibrationStore};
use corvid_runtime::db::{decode_i64, decode_string, DbCell, DbColumn, DbValue};
use corvid_runtime::approval_card::{ApprovalCard, ApprovalRequest};
use corvid_runtime::approval_token::{ApprovalArg, ApprovalToken, ApprovalTokenScope, TokenRefusal};
use corvid_runtime::approvals::ApprovalRisk;
use corvid_runtime::cache::{build_cache_key, json_error_object, CacheKeyInput};
use corvid_runtime::catalog::{
    host_event_status, introspection_arguments, introspection_plan, list_agents_order, CorvidCallStatus,
    CorvidHostEventStatus, CorvidPreFlightStatus, IntrospectionCall, IntrospectionKind, ListedAgent,
};
use corvid_runtime::catalog_invoke::{
    approval_required_for, call_failed, call_gate, plan_call, plan_invoker, pre_flight,
    validate_args_for_entry, ArgsJson, CallGate, CallStep, CatalogEntry, CatalogParam, InvokerPlan, JsonArg, ParamType, ReturnType,
    ScalarAbiType, ScalarReturnType, NAN_BITS,
};
use corvid_runtime::dotenv::dotenv_candidates;
use corvid_runtime::ensemble::majority_vote;
use corvid_runtime::json::{JsonNumber, JsonValue};
use corvid_runtime::errors::RuntimeError;
use corvid_runtime::grounded_handles::{
    canonicalize_confidence, make_attestation, set_last_scalar_attestation, GroundedAttestation,
    GroundedHandleStore, ProvenanceEntry, NULL_GROUNDED_HANDLE,
};
use corvid_runtime::jwks::{jwks_status_error, JsonWebKeySet, JwksCache, DEFAULT_JWKS_TTL_MS};
use corvid_runtime::prompt_bridge::{
    build_system_prompt, format_instruction_int, next_prompt_step, parse_bool, parse_int,
    strip_response, PromptAttempt, PromptStep,
};

fn with_retrieval(name: &str, confidence: f64) -> GroundedAttestation {
    make_attestation(
        vec![ProvenanceEntry { retrieval: true, name: name.to_string() }],
        confidence.to_bits(),
    )
}

fn confidence(store: &GroundedHandleStore, handle: u64) -> f64 {
    f64::from_bits(store.confidence_for_handle(handle).unwrap())
}

#[test]
fn release_zero_is_noop() {
    let mut store = GroundedHandleStore::new();
    assert!(store.release_handle(NULL_GROUNDED_HANDLE));
}

#[test]
fn string_attestation_roundtrips_through_handle() {
    let mut store = GroundedHandleStore::new();
    let attestation = with_retrieval("lookup", 0.75);
    store.attach_string_attestation(42, attestation);
    let handle = store.register_handle_for_string_ptr(42);
    assert_ne!(handle, NULL_GROUNDED_HANDLE);
    assert_eq!(store.sources_for_handle(handle).unwrap(), vec!["lookup".to_string()]);
    assert!((confidence(&store, handle) - 0.75).abs() < 1e-9);
    assert!(store.release_handle(handle));
}

#[test]
fn stale_handle_fails_after_release() {
    let mut store = GroundedHandleStore::new();
    let attestation = with_retrieval("lookup", 1.0);
    store.attach_string_attestation(7, attestation);
    let handle = store.register_handle_for_string_ptr(7);
    assert!(store.release_handle(handle));
    assert!(!store.release_handle(handle));
}

#[test]
fn scalar_attestation_roundtrips() {
    let mut store = GroundedHandleStore::new();
    let mut last = None;
    set_last_scalar_attestation(&mut last, with_retrieval("classify", 0.5));
    let handle = store.register_handle_for_last_scalar(&mut last);
    assert_ne!(handle, NULL_GROUNDED_HANDLE);
    assert!(last.is_none());
    assert_eq!(store.sources_for_handle(handle).unwrap(), vec!["classify".to_string()]);
    assert!((confidence(&store, handle) - 0.5).abs() < 1e-9);
    assert!(store.release_handle(handle));
}

#[test]
fn string_attestation_is_claimed_once_and_null_address_is_ignored() {
    let mut store = GroundedHandleStore::new();
    store.attach_string_attestation(0, with_retrieval("ignored", 0.5));
    assert_eq!(store.register_handle_for_string_ptr(0), NULL_GROUNDED_HANDLE);
    store.attach_string_attestation(9, with_retrieval("doc", 0.5));
    let first = store.register_handle_for_string_ptr(9);
    assert_ne!(first, NULL_GROUNDED_HANDLE);
    assert_eq!(store.register_handle_for_string_ptr(9), NULL_GROUNDED_HANDLE);
    let mut empty = None;
    assert_eq!(store.register_handle_for_last_scalar(&mut empty), NULL_GROUNDED_HANDLE);
    assert_eq!(store.unreleased_handle_count(), 1);
    assert!(store.sources_for_handle(NULL_GROUNDED_HANDLE).is_none());
    assert!(store.confidence_for_handle(NULL_GROUNDED_HANDLE).is_none());
}

#[test]
fn handles_are_distinct_and_release_only_their_own_attestation() {
    let mut store = GroundedHandleStore::new();
    store.attach_string_attestation(1, with_retrieval("a", 0.1));
    store.attach_string_attestation(2, with_retrieval("b", 0.2));
    let ha = store.register_handle_for_string_ptr(1);
    let hb = store.register_handle_for_string_ptr(2);
    assert_ne!(ha, hb);
    assert_ne!(ha & 0x1_0000_0000, 0);
    assert!(store.release_handle(ha));
    assert!(store.sources_for_handle(ha).is_none());
    assert_eq!(store.sources_for_handle(hb).unwrap(), vec!["b".to_string()]);
    assert_eq!(store.unreleased_handle_count(), 1);
    store.attach_string_attestation(3, with_retrieval("c", 0.3));
    let hc = store.register_handle_for_string_ptr(3);
    assert_ne!(hc, ha);
    assert!(store.sources_for_handle(ha).is_none());
}

#[test]
fn source_names_keep_first_retrievals_once() {
    let a = make_attestation(
        vec![
            ProvenanceEntry { retrieval: true, name: "docs".to_string() },
            ProvenanceEntry { retrieval: false, name: "model".to_string() },
            ProvenanceEntry { retrieval: true, name: "wiki".to_string() },
            ProvenanceEntry { retrieval: true, name: "docs".to_string() },
        ],
        0.5f64.to_bits(),
    );
    assert_eq!(a.source_names(), vec!["docs".to_string(), "wiki".to_string()]);
}

#[test]
fn confidence_is_clamped_to_the_unit_interval() {
    assert_eq!(f64::from_bits(canonicalize_confidence(1.7f64.to_bits())), 1.0);
    assert_eq!(f64::from_bits(canonicalize_confidence((-0.3f64).to_bits())), 0.0);
    assert_eq!(f64::from_bits(canonicalize_confidence(f64::NAN.to_bits())), 1.0);
    assert_eq!(f64::from_bits(canonicalize_confidence(f64::INFINITY.to_bits())), 1.0);
    assert_eq!(f64::from_bits(canonicalize_confidence(0.25f64.to_bits())), 0.25);
    assert_eq!(canonicalize_confidence((-0.0f64).to_bits()), (-0.0f64).to_bits());
}

#[test]
fn dotenv_candidates_walk_up_to_the_root() {
    assert_eq!(
        dotenv_candidates("/a/b"),
        vec!["/a/b/.env".to_string(), "/a/.env".to_string(), "/.env".to_string()]
    );
    assert_eq!(dotenv_candidates("proj"), vec!["proj/.env".to_string(), ".env".to_string()]);
}

#[test]
fn host_event_status_checks_in_order() {
    assert_eq!(host_event_status(false, false, false, false), CorvidHostEventStatus::RuntimeError);
    assert_eq!(host_event_status(true, false, false, false), CorvidHostEventStatus::TraceDisabled);
    assert_eq!(host_event_status(true, true, false, true), CorvidHostEventStatus::BadJson);
    assert_eq!(host_event_status(true, true, true, false), CorvidHostEventStatus::BadJson);
    assert_eq!(host_event_status(true, true, true, true), CorvidHostEventStatus::Success);
    assert_eq!(CorvidHostEventStatus::TraceDisabled.code(), 2);
}

fn text(s: &str) -> JsonValue {
    JsonValue::String(s.to_string())
}

#[test]
fn introspection_arguments_report_the_first_missing_one() {
    let ok = introspection_arguments(
        IntrospectionKind::PreFlight,
        &vec![text("agent"), text("[]"), JsonValue::Null],
    )
    .ok()
    .unwrap();
    assert_eq!(ok, vec!["agent".to_string(), "[]".to_string()]);
    match introspection_arguments(IntrospectionKind::CallAgent, &vec![text("agent"), JsonValue::Bool(true)]) {
        Err(RuntimeError::Marshal(m)) => assert_eq!(m, "`__corvid_call_agent` expects args JSON"),
        _ => panic!("expected a marshalling error"),
    }
    match introspection_arguments(IntrospectionKind::Verify, &vec![]) {
        Err(RuntimeError::Marshal(m)) => {
            assert_eq!(m, "`__corvid_abi_verify` expects one String hash argument")
        }
        _ => panic!("expected a marshalling error"),
    }
    assert!(introspection_arguments(IntrospectionKind::ListAgents, &vec![]).ok().unwrap().is_empty());
}

#[test]
fn introspection_plan_reads_each_kind() {
    match introspection_plan(IntrospectionKind::PreFlight, &vec![text("triage"), text("[1]")]) {
        Ok(IntrospectionCall::PreFlight { agent, args_json }) => {
            assert_eq!(agent, "triage");
            assert_eq!(args_json, "[1]");
        }
        _ => panic!("expected a pre-flight call"),
    }
    match introspection_plan(IntrospectionKind::FindAgentsWhere, &vec![text("{}")]) {
        Ok(IntrospectionCall::FindAgentsWhere(f)) => assert_eq!(f, "{}"),
        _ => panic!("expected a filter call"),
    }
    assert!(matches!(
        introspection_plan(IntrospectionKind::ListAgents, &vec![]),
        Ok(IntrospectionCall::ListAgents)
    ));
    let hex = format!(" {} ", "0f".repeat(32));
    match introspection_plan(IntrospectionKind::Verify, &vec![text(&hex)]) {
        Ok(IntrospectionCall::Verify(bytes)) => assert_eq!(bytes, vec![15u8; 32]),
        _ => panic!("expected a verify call"),
    }
    match introspection_plan(IntrospectionKind::Verify, &vec![text("abc")]) {
        Err(RuntimeError::Marshal(m)) => assert_eq!(m, "expected 64 hex chars for SHA-256, got 3"),
        _ => panic!("expected a marshalling error"),
    }
    match introspection_plan(IntrospectionKind::AgentSignatureJson, &vec![JsonValue::Null]) {
        Err(RuntimeError::Marshal(m)) => assert_eq!(m, "`__corvid_agent_signature_json` expects one String argument"),
        _ => panic!("expected a marshalling error"),
    }
}

#[test]
fn agent_listing_puts_builtins_then_approver_then_user_agents() {
    let names = vec![
        "triage".to_string(),
        "__corvid_list_agents".to_string(),
        "refund".to_string(),
        "__corvid_abi_verify".to_string(),
    ];
    assert_eq!(
        list_agents_order(&names, true),
        vec![
            ListedAgent::Catalog(1),
            ListedAgent::Catalog(3),
            ListedAgent::Approver,
            ListedAgent::Catalog(0),
            ListedAgent::Catalog(2),
        ]
    );
    assert_eq!(
        list_agents_order(&names, false),
        vec![ListedAgent::Catalog(1), ListedAgent::Catalog(3), ListedAgent::Catalog(0), ListedAgent::Catalog(2)]
    );
}

fn key_set(kid: &str) -> JsonWebKeySet {
    JsonWebKeySet {
        keys: vec![corvid_runtime::jwks::JsonWebKey {
            kty: "RSA".to_string(),
            alg: Some("RS256".to_string()),
            kid: Some(kid.to_string()),
            n: Some("n".to_string()),
            e: Some("AQAB".to_string()),
            crv: None,
            x: None,
            y: None,
            key_use: Some("sig".to_string()),
        }],
    }
}

#[test]
fn jwks_cache_serves_fresh_sets_and_replaces_per_url() {
    let mut cache = JwksCache::new();
    assert!(cache.lookup("https://idp/jwks", 0, DEFAULT_JWKS_TTL_MS).is_none());
    cache.store("https://idp/jwks", key_set("k1"), 1_000);
    let hit = cache.lookup("https://idp/jwks", 1_000 + DEFAULT_JWKS_TTL_MS - 1, DEFAULT_JWKS_TTL_MS);
    assert_eq!(hit.unwrap().keys[0].kid.as_deref(), Some("k1"));
    assert!(cache.lookup("https://idp/jwks", 1_000 + DEFAULT_JWKS_TTL_MS, DEFAULT_JWKS_TTL_MS).is_none());
    assert!(cache.lookup("https://other/jwks", 1_000, DEFAULT_JWKS_TTL_MS).is_none());
    cache.store("https://idp/jwks", key_set("k2"), 5_000);
    let hit = cache.lookup("https://idp/jwks", 5_001, DEFAULT_JWKS_TTL_MS);
    assert_eq!(hit.unwrap().keys[0].kid.as_deref(), Some("k2"));
    assert!(cache.lookup("https://idp/jwks", 4_000, 10).is_some());
}

#[test]
fn jwks_status_error_names_failing_statuses() {
    assert!(jwks_status_error(200).is_none());
    assert!(jwks_status_error(204).is_none());
    assert_eq!(jwks_status_error(404).unwrap(), "JWKS endpoint returned HTTP 404");
    assert_eq!(jwks_status_error(302).unwrap(), "JWKS endpoint returned HTTP 302");
}

fn param(name: &str, ty: ScalarAbiType) -> CatalogParam {
    CatalogParam { name: name.to_string(), ty: ParamType::Scalar(ty) }
}

fn entry(invoker: InvokerPlan) -> CatalogEntry {
    CatalogEntry {
        name: "refund".to_string(),
        params: vec![param("amount", ScalarAbiType::Float), param("note", ScalarAbiType::String)],
        requires_approval: true,
        cost_bound_bits: 0.5f64.to_bits(),
        effect_row_json: "{\"money\":true}".to_string(),
        grounded_source_set_json: "[]".to_string(),
        invoker,
    }
}

fn scalar_invoker() -> InvokerPlan {
    InvokerPlan::Scalar {
        params: vec![ScalarAbiType::Float, ScalarAbiType::String],
        ret: ScalarReturnType::Bool,
    }
}

#[test]
fn invoker_plan_follows_export_and_types() {
    let params = vec![ParamType::Scalar(ScalarAbiType::Int)];
    match plan_invoker("__corvid_list_agents", false, &params, &ReturnType::Other("X".to_string())) {
        InvokerPlan::Introspection(k) => assert_eq!(k, IntrospectionKind::ListAgents),
        _ => panic!("expected the runtime's own agent"),
    }
    match plan_invoker("greet", false, &params, &ReturnType::Scalar(ScalarReturnType::Int)) {
        InvokerPlan::Unsupported(m) => assert_eq!(
            m,
            "agent `greet` is not `pub extern \"c\"`; generic host dispatch is limited to exported scalar agents in Phase 22-C"
        ),
        _ => panic!("expected unsupported"),
    }
    let mixed = vec![
        ParamType::Scalar(ScalarAbiType::Int),
        ParamType::Other("List(Int)".to_string()),
        ParamType::Other("Map".to_string()),
    ];
    match plan_invoker("greet", true, &mixed, &ReturnType::GroundedScalar) {
        InvokerPlan::Unsupported(m) => assert_eq!(
            m,
            "non-scalar parameter type `List(Int)` is deferred to Phase 22-F grounded/structured returns"
        ),
        _ => panic!("expected unsupported"),
    }
    match plan_invoker("greet", true, &params, &ReturnType::Other("Struct".to_string())) {
        InvokerPlan::Unsupported(m) => {
            assert_eq!(m, "non-scalar return type `Struct` is not supported by generic host dispatch")
        }
        _ => panic!("expected unsupported"),
    }
    match plan_invoker("greet", true, &params, &ReturnType::Scalar(ScalarReturnType::Nothing)) {
        InvokerPlan::Scalar { params, ret } => {
            assert_eq!(params, vec![ScalarAbiType::Int]);
            assert_eq!(ret, ScalarReturnType::Nothing);
        }
        _ => panic!("expected a scalar invoker"),
    }
}

#[test]
fn argument_validation_reports_the_first_problem() {
    let params = vec![param("amount", ScalarAbiType::Int), param("note", ScalarAbiType::String)];
    assert_eq!(
        validate_args_for_entry("refund", &params, &ArgsJson::Invalid("EOF while parsing".to_string())),
        Err("args_json must be a JSON array: EOF while parsing".to_string())
    );
    assert_eq!(
        validate_args_for_entry("refund", &params, &ArgsJson::NotArray),
        Err("args_json must be a JSON array".to_string())
    );
    assert_eq!(
        validate_args_for_entry("refund", &params, &ArgsJson::Array(vec![JsonArg::Integer])),
        Err("arity mismatch for `refund`: expected 2, got 1".to_string())
    );
    assert_eq!(
        validate_args_for_entry("refund", &params, &ArgsJson::Array(vec![JsonArg::Number, JsonArg::Bool])),
        Err("argument 1 (`amount`) for `refund` is invalid: expected Int".to_string())
    );
    assert_eq!(
        validate_args_for_entry("refund", &params, &ArgsJson::Array(vec![JsonArg::Integer, JsonArg::Bool])),
        Err("argument 2 (`note`) for `refund` is invalid: expected String".to_string())
    );
    assert_eq!(
        validate_args_for_entry("refund", &params, &ArgsJson::Array(vec![JsonArg::Integer, JsonArg::Text])),
        Ok(())
    );
}

#[test]
fn preflight_answers_in_the_order_calls_are_checked() {
    let args = ArgsJson::Array(vec![JsonArg::Integer, JsonArg::Text]);
    let approver = pre_flight("__corvid_approver", &Ok(None), &args);
    assert_eq!(approver.status, CorvidPreFlightStatus::UnsupportedSig);
    assert_eq!(
        approver.bad_args_message.as_deref(),
        Some("`__corvid_approver` is a governance capability and is not directly callable")
    );
    let broken = pre_flight("refund", &Err(RuntimeError::Marshal("no catalog".to_string())), &args);
    assert_eq!(broken.status, CorvidPreFlightStatus::BadArgs);
    assert_eq!(broken.bad_args_message.as_deref(), Some("value marshalling failed: no catalog"));
    let missing = pre_flight("refund", &Ok(None), &args);
    assert_eq!(missing.status, CorvidPreFlightStatus::AgentNotFound);
    assert!(f64::from_bits(missing.cost_bound_usd_bits).is_nan());
    let unsupported = pre_flight("refund", &Ok(Some(entry(InvokerPlan::Unsupported("nope".to_string())))), &args);
    assert_eq!(unsupported.status, CorvidPreFlightStatus::UnsupportedSig);
    assert_eq!(unsupported.effect_row_json, "{\"money\":true}");
    assert_eq!(unsupported.bad_args_message.as_deref(), Some("nope"));
    let bad = pre_flight("refund", &Ok(Some(entry(scalar_invoker()))), &ArgsJson::NotArray);
    assert_eq!(bad.status, CorvidPreFlightStatus::BadArgs);
    assert_eq!(bad.effect_row_json, "");
    let ok = pre_flight("refund", &Ok(Some(entry(scalar_invoker()))), &args);
    assert_eq!(ok.status, CorvidPreFlightStatus::Success);
    assert_eq!(f64::from_bits(ok.cost_bound_usd_bits), 0.5);
    assert!(ok.requires_approval);
    assert_eq!(ok.grounded_source_set_json, "[]");
    assert!(ok.bad_args_message.is_none());
    assert_eq!(NAN_BITS, f64::NAN.to_bits());
}

#[test]
fn call_gate_refuses_with_json_errors() {
    let args = ArgsJson::Array(vec![JsonArg::Number, JsonArg::Text]);
    match call_gate("__corvid_approver", &Ok(None), &args) {
        CallGate::Refuse(r) => {
            assert_eq!(r.status, CorvidCallStatus::UnsupportedSig);
            assert_eq!(
                r.result_json.unwrap(),
                "{\"error\":\"`__corvid_approver` is a governance capability and is not directly callable\"}"
            );
        }
        CallGate::Proceed => panic!("the approver is never called"),
    }
    match call_gate("refund", &Ok(Some(entry(scalar_invoker()))), &ArgsJson::Invalid("bad \"x\"".to_string())) {
        CallGate::Refuse(r) => {
            assert_eq!(r.status, CorvidCallStatus::BadArgs);
            assert_eq!(
                r.result_json.unwrap(),
                "{\"error\":\"args_json must be a JSON array: bad \\\"x\\\"\"}"
            );
        }
        CallGate::Proceed => panic!("bad arguments are refused"),
    }
    match call_gate("refund", &Ok(None), &args) {
        CallGate::Refuse(r) => {
            assert_eq!(r.status, CorvidCallStatus::AgentNotFound);
            assert!(r.result_json.is_none());
        }
        CallGate::Proceed => panic!("unknown agents are refused"),
    }
    assert!(matches!(call_gate("refund", &Ok(Some(entry(scalar_invoker()))), &args), CallGate::Proceed));
    let failed = call_failed(&RuntimeError::Other("boom\n".to_string()), 0);
    assert_eq!(failed.status, CorvidCallStatus::RuntimeError);
    assert_eq!(failed.result_json.unwrap(), "{\"error\":\"boom\\n\"}");
    assert_eq!(json_error_object("tab\there"), "{\"error\":\"tab\\there\"}");
}

#[test]
fn approval_request_defaults_to_the_agent_name() {
    let a = approval_required_for("refund", None, "{}".to_string(), "[1]");
    assert_eq!(a.site_name, "refund");
    assert_eq!(a.rationale_prompt, "Agent `refund` requires approval before executing dangerous effects.");
    let b = approval_required_for("refund", Some("IssueRefund"), "{}".to_string(), "[1]");
    assert_eq!(b.site_name, "IssueRefund");
    assert_eq!(b.args_json, "[1]");
}

#[test]
fn approval_card_humanizes_risk_and_redacts_sensitive_values() {
    let req = ApprovalRequest {
        label: "ChargeCard".to_string(),
        args: vec![
            text("4242424242424242"),
            JsonValue::Number(JsonNumber { bits: 125.0f64.to_bits(), text: "125.0".to_string() }),
        ],
    };

    let card = ApprovalCard::from_request(&req);

    assert_eq!(card.title, "Charge Card");
    assert_eq!(card.risk, ApprovalRisk::MoneyMovement);
    assert_eq!(card.arguments[0].value, "\"<redacted>\"");
    assert!(card.arguments[0].redacted);
    let rendered = card.render_text();
    assert!(rendered.contains("corvid approval card"));
    assert!(rendered.contains("why: program requested approval"));
    assert!(rendered.contains("preview:"));
    assert!(rendered.contains("money-moving operation"));
    assert!(rendered.contains("arg 0 [string] (redacted) = \"<redacted>\""));
}

#[test]
fn approval_card_renders_every_part() {
    let req = ApprovalRequest {
        label: "send_email".to_string(),
        args: vec![text("hi")],
    };
    let card = ApprovalCard::from_request(&req);
    assert_eq!(card.risk, ApprovalRisk::ExternalSideEffect);
    assert_eq!(
        card.context,
        vec![
            "why: program requested approval `send_email` before a protected action".to_string(),
            "scope: one decision covers this label and exact argument payload".to_string(),
            "argument inspection: 1 argument (arg0:string)".to_string(),
        ]
    );
    assert_eq!(
        card.render_text(),
        format!(
            "corvid approval card\n  action: {}\n  label: send_email\n  risk: ExternalSideEffect\n  arg 0 [string]: \"hi\"\n  context: why: program requested approval `send_email` before a protected action\n  context: scope: one decision covers this label and exact argument payload\n  context: argument inspection: 1 argument (arg0:string)\n  preview:\n    before: protected action is blocked\n    after: `{}` may proceed as an external side effect\n    arguments:\n      - arg 0 [string] = \"hi\"\n",
            card.title, card.title
        )
    );
    let empty = ApprovalCard::from_request(&ApprovalRequest { label: "Ping".to_string(), args: vec![] });
    assert_eq!(empty.context[2], "argument inspection: 0 arguments");
    assert!(empty.diff_preview.unwrap().ends_with("    arguments: <none>"));
}

#[test]
fn cache_key_rejects_empty_namespace() {
    let err = build_cache_key(CacheKeyInput {
        namespace: "".to_string(),
        subject: "answer".to_string(),
        model: None,
        effect_key: None,
        provenance_key: None,
        version: None,
        args_json: "null".to_string(),
    })
    .err()
    .unwrap();
    assert!(err.message().contains("namespace"));
}

#[test]
fn majority_vote_picks_plurality() {
    let outcome = majority_vote(&["alpha".to_string(), "beta".to_string(), "alpha".to_string()]);
    assert_eq!(outcome.winner, "alpha");
    assert_eq!(outcome.winner_votes as f64 / outcome.total as f64, 2.0 / 3.0);
}

#[test]
fn majority_vote_breaks_ties_alphabetically() {
    let outcome = majority_vote(&["zulu".to_string(), "alpha".to_string()]);
    assert_eq!(outcome.winner, "alpha");
    assert_eq!(outcome.winner_votes as f64 / outcome.total as f64, 0.5);
}

#[test]
fn prompt_replies_parse_after_stripping_fences_and_quotes() {
    assert_eq!(strip_response("  ```rust\n42\n```  "), "42");
    assert_eq!(strip_response(" plain "), "plain");
    assert_eq!(parse_int("\"-7\""), Some(-7));
    assert_eq!(parse_int("```\n 12 \n```"), Some(12));
    assert_eq!(parse_int("twelve"), None);
    assert_eq!(parse_int("9223372036854775808"), None);
    assert_eq!(parse_bool("'Yes'"), Some(true));
    assert_eq!(parse_bool(" 0 "), Some(false));
    assert_eq!(parse_bool("maybe"), None);
}

#[test]
fn prompt_retries_stop_after_the_last_attempt() {
    assert_eq!(next_prompt_step(0, 2, PromptAttempt::Unparsed), PromptStep::Retry);
    assert_eq!(next_prompt_step(2, 2, PromptAttempt::Unparsed), PromptStep::ParseExhausted);
    assert_eq!(next_prompt_step(2, 2, PromptAttempt::AdapterFailed), PromptStep::AdapterExhausted);
    assert_eq!(next_prompt_step(1, 2, PromptAttempt::Parsed), PromptStep::Finish);
    let first = build_system_prompt("f(x) -> Int", format_instruction_int(), 0, None);
    assert!(first.starts_with("You are a function with signature `f(x) -> Int`."));
    assert!(!first.contains("IMPORTANT"));
    let last = build_system_prompt("f(x) -> Int", format_instruction_int(), 2, Some("forty"));
    assert!(last.contains("Your previous response `forty` could not be parsed."));
    assert!(last.ends_with("This is your last attempt. The format requirements are absolute."));
}

fn arg(json: &str, number: Option<f64>) -> ApprovalArg {
    ApprovalArg { json: json.to_string(), number_bits: number.map(f64::to_bits) }
}

fn token(scope: ApprovalTokenScope, uses: u32) -> ApprovalToken {
    ApprovalToken {
        token_id: "tok-1".to_string(),
        label: "IssueRefund".to_string(),
        args: vec!["50".to_string()],
        scope,
        issued_at_ms: 0,
        expires_at_ms: 1_000,
        uses_remaining: uses,
    }
}

#[test]
fn approval_token_is_spent_once_and_checks_its_scope() {
    let mut t = token(ApprovalTokenScope::OneTime, 1);
    assert!(t.validate("IssueRefund", &[arg("50", Some(50.0))], 10, None).is_ok());
    assert_eq!(t.uses_remaining, 0);
    assert!(matches!(
        t.validate("IssueRefund", &[arg("50", Some(50.0))], 10, None),
        Err(TokenRefusal::NoUsesLeft)
    ));

    let mut wrong = token(ApprovalTokenScope::OneTime, 1);
    let refusal = wrong.validate("DeleteUser", &[arg("50", Some(50.0))], 10, None).err().unwrap();
    assert_eq!(
        refusal.message().unwrap(),
        "token label `IssueRefund` does not match requested label `DeleteUser`"
    );
    assert_eq!(wrong.uses_remaining, 1);

    let mut late = token(ApprovalTokenScope::OneTime, 1);
    assert!(matches!(late.validate("IssueRefund", &[arg("50", Some(50.0))], 1_001, None), Err(TokenRefusal::Expired)));

    let mut limited = token(ApprovalTokenScope::AmountLimited { max_amount_bits: 40.0f64.to_bits() }, 1);
    match limited.validate("IssueRefund", &[arg("50", Some(50.0))], 10, None) {
        Err(TokenRefusal::AmountExceeded { requested_bits, max_amount_bits }) => {
            assert_eq!(f64::from_bits(requested_bits), 50.0);
            assert_eq!(f64::from_bits(max_amount_bits), 40.0);
        }
        _ => panic!("expected the amount to be refused"),
    }

    let mut session = token(ApprovalTokenScope::Session { session_id: "s-1".to_string() }, 2);
    assert!(matches!(
        session.validate("IssueRefund", &[arg("50", Some(50.0))], 10, Some("s-2")),
        Err(TokenRefusal::SessionMismatch)
    ));
    assert!(session.validate("IssueRefund", &[arg("50", Some(50.0))], 10, Some("s-1")).is_ok());
    assert!(matches!(
        session.validate("IssueRefund", &[arg("51", Some(51.0))], 10, Some("s-1")),
        Err(TokenRefusal::IssuedArgumentsMismatch)
    ));
}

#[test]
fn sqlite_decode_reports_missing_and_wrong_kind() {
    let row = vec![DbColumn {
        name: "id".to_string(),
        cell: DbCell { kind: "Int".to_string(), value: DbValue::Integer(1), redacted: false },
    }];

    let missing = decode_string(&row, "email").err().expect("missing");
    assert_eq!(missing.received_kind, "missing");
    let wrong = decode_string(&row, "id").err().expect("wrong kind");
    assert_eq!(wrong.received_kind, "Int");
    assert_eq!(decode_i64(&row, "id").ok(), Some(1));
    assert_eq!(decode_i64(&row, "email").err().unwrap().message, "missing column");
}

#[test]
fn calibration_tallies_each_prompt_and_model() {
    let mut store = CalibrationStore::new();
    assert!(store.tally("classify", "m1").is_none());
    store.record("classify", "m1", 0.9f64.to_bits(), true);
    store.record("classify", "m1", 1.7f64.to_bits(), false);
    store.record("classify", "m2", (-0.5f64).to_bits(), true);
    store.record("classify", "m1", f64::NAN.to_bits(), false);
    let t = store.tally("classify", "m1").unwrap();
    assert_eq!((t.samples, t.correct), (3, 1));
    assert_eq!(t.confidence_bits[0], 0.9f64.to_bits());
    assert_eq!(t.confidence_bits[1], 1.0f64.to_bits());
    assert!(f64::from_bits(t.confidence_bits[2]).is_nan());
    let t2 = store.tally("classify", "m2").unwrap();
    assert_eq!((t2.samples, t2.correct), (1, 1));
    assert_eq!(t2.confidence_bits, vec![0.0f64.to_bits()]);
    assert!(store.tally("other", "m1").is_none());

    for x in [-3.0f64, 0.0, 0.4, 1.0, 2.0, f64::INFINITY, f64::NEG_INFINITY] {
        assert_eq!(clamp_confidence_bits(x.to_bits()), x.clamp(0.0, 1.0).to_bits());
    }
    assert!(!is_miscalibrated(2, 0.9f64.to_bits()));
    assert!(is_miscalibrated(3, 0.26f64.to_bits()));
    assert!(!is_miscalibrated(3, 0.25f64.to_bits()));
    assert!(!is_miscalibrated(10, f64::NAN.to_bits()));
}

#[test]
fn dangerous_agent_goes_to_approval_before_it_is_invoked() {
    let args = ArgsJson::Array(vec![JsonArg::Number, JsonArg::Text]);
    let predicate = "{\"kind\":\"approval_contract\"}".to_string();
    match plan_call("refund", &Ok(Some(entry(scalar_invoker()))), &args, Some("IssueRefund"), predicate.clone(), "[12.5,\"x\"]") {
        CallStep::NeedsApproval(q) => {
            assert_eq!(q.site_name, "IssueRefund");
            assert_eq!(q.predicate_json, predicate);
            assert_eq!(q.args_json, "[12.5,\"x\"]");
            assert_eq!(q.rationale_prompt, "Agent `refund` requires approval before executing dangerous effects.");
        }
        _ => panic!("an agent with an approval contract must ask first"),
    }
    match plan_call("refund", &Ok(Some(entry(scalar_invoker()))), &args, None, predicate.clone(), "[]") {
        CallStep::NeedsApproval(q) => assert_eq!(q.site_name, "refund"),
        _ => panic!("an agent with an approval contract must ask first"),
    }
    let mut safe = entry(scalar_invoker());
    safe.requires_approval = false;
    assert!(matches!(plan_call("refund", &Ok(Some(safe)), &args, None, predicate.clone(), "[]"), CallStep::Invoke));
    match plan_call("refund", &Ok(None), &args, None, predicate.clone(), "[]") {
        CallStep::Refused(o) => {
            assert_eq!(o.status, CorvidCallStatus::AgentNotFound);
            assert!(o.result_json.is_none() && o.approval.is_none());
            assert_eq!(o.observation_handle, 0);
        }
        _ => panic!("unknown agents are refused"),
    }
    match plan_call("refund", &Ok(Some(entry(scalar_invoker()))), &ArgsJson::NotArray, None, predicate, "{}") {
        CallStep::Refused(o) => {
            assert_eq!(o.status, CorvidCallStatus::BadArgs);
            assert_eq!(o.result_json.unwrap(), "{\"error\":\"args_json must be a JSON array\"}");
        }
        _ => panic!("bad arguments are refused before approval"),
    }
}
