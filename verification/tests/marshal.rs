use corvid_runtime::catalog_invoke::ScalarAbiType;
use corvid_runtime::errors::RuntimeError;
use corvid_runtime::json::{JsonMember, JsonNumber, JsonValue};
use corvid_runtime::scalar_marshal::{
    check_call_arity, check_dispatch_arity, check_float_result, marshal_scalar_arg, ScalarArg,
};

fn to_json(value: &serde_json::Value) -> JsonValue {
    match value {
        serde_json::Value::Null => JsonValue::Null,
        serde_json::Value::Bool(b) => JsonValue::Bool(*b),
        serde_json::Value::Number(n) => JsonValue::Number(JsonNumber {
            bits: n.as_f64().unwrap().to_bits(),
            text: n.to_string(),
        }),
        serde_json::Value::String(s) => JsonValue::String(s.clone()),
        serde_json::Value::Array(items) => JsonValue::Array(items.iter().map(to_json).collect()),
        serde_json::Value::Object(map) => JsonValue::Object(
            map.iter()
                .map(|(k, v)| JsonMember { key: k.clone(), value: to_json(v) })
                .collect(),
        ),
    }
}

fn value(text: &str) -> JsonValue {
    to_json(&serde_json::from_str::<serde_json::Value>(text).unwrap())
}

fn marshal_message(r: Result<ScalarArg, RuntimeError>) -> String {
    match r {
        Err(RuntimeError::Marshal(m)) => m,
        other => panic!("expected a marshalling error, got {other:?}"),
    }
}

#[test]
fn int_arguments_follow_serde_as_i64() {
    for (text, expected) in [("5", 5i64), ("-7", -7), ("9223372036854775807", i64::MAX), ("-9223372036854775808", i64::MIN)] {
        let parsed = serde_json::from_str::<serde_json::Value>(text).unwrap();
        assert_eq!(parsed.as_i64(), Some(expected));
        assert_eq!(marshal_scalar_arg(&value(text), "f", 0, ScalarAbiType::Int).ok(), Some(ScalarArg::Int(expected)));
    }
    for text in ["9223372036854775808", "1.5", "1e3", "\"5\"", "true", "null"] {
        let parsed = serde_json::from_str::<serde_json::Value>(text).unwrap();
        assert_eq!(parsed.as_i64(), None, "{text}");
        assert_eq!(
            marshal_message(marshal_scalar_arg(&value(text), "score", 1, ScalarAbiType::Int)),
            "agent `score` argument 2 expected Int"
        );
    }
}

#[test]
fn float_bool_and_string_arguments() {
    assert_eq!(marshal_scalar_arg(&value("2"), "f", 0, ScalarAbiType::Float).ok(), Some(ScalarArg::Float(2.0f64.to_bits())));
    assert_eq!(marshal_scalar_arg(&value("-0.25"), "f", 0, ScalarAbiType::Float).ok(), Some(ScalarArg::Float((-0.25f64).to_bits())));
    assert_eq!(marshal_message(marshal_scalar_arg(&value("\"x\""), "f", 0, ScalarAbiType::Float)), "agent `f` argument 1 expected Float");
    assert_eq!(marshal_scalar_arg(&value("false"), "f", 0, ScalarAbiType::Bool).ok(), Some(ScalarArg::Bool(false)));
    assert_eq!(marshal_message(marshal_scalar_arg(&value("0"), "f", 2, ScalarAbiType::Bool)), "agent `f` argument 3 expected Bool");
    assert_eq!(marshal_scalar_arg(&value("\"vip\""), "f", 0, ScalarAbiType::String).ok(), Some(ScalarArg::String("vip".to_string())));
    assert_eq!(marshal_message(marshal_scalar_arg(&value("[]"), "f", 0, ScalarAbiType::String)), "agent `f` argument 1 expected String");
}

#[test]
fn dispatch_and_call_arity() {
    for n in 0..=2 {
        assert!(check_dispatch_arity("agent_fn", n).is_ok());
    }
    match check_dispatch_arity("agent_fn", 3) {
        Err(RuntimeError::Other(m)) => assert_eq!(
            m,
            "catalog host dispatch currently supports up to two scalar parameters; `agent_fn` has 3"
        ),
        other => panic!("{other:?}"),
    }
    assert!(check_call_arity("g", 2, 2).is_ok());
    let message = |expected, got| match check_call_arity("g", expected, got) {
        Err(RuntimeError::Marshal(m)) => m,
        other => panic!("{other:?}"),
    };
    assert_eq!(message(0, 1), "agent `g` expected 0 args, got 1");
    assert_eq!(message(1, 0), "agent `g` expected 1 arg, got 0");
    assert_eq!(message(2, 3), "agent `g` expected 2 args, got 3");
}

#[test]
fn only_finite_float_results_come_back() {
    assert_eq!(check_float_result("h", 1.25f64.to_bits()).ok(), Some(1.25f64.to_bits()));
    for x in [f64::NAN, f64::INFINITY, f64::NEG_INFINITY] {
        match check_float_result("h", x.to_bits()) {
            Err(RuntimeError::Marshal(m)) => assert_eq!(m, format!("agent `h` returned non-finite Float {x}")),
            other => panic!("{other:?}"),
        }
    }
}

use corvid_runtime::agent_handles::{
    cost_bound_for, finite_option, handle_from_entry, list_agent_handles_owned, CatalogAgentInfo,
};

fn agent_info(name: &str) -> CatalogAgentInfo {
    CatalogAgentInfo {
        name: name.to_string(),
        symbol: format!("sym_{name}"),
        source_file: "agents.cor".to_string(),
        source_line: 7,
        trust_tier: None,
        budget_usd_per_call_bits: None,
        projected_cost_usd_bits: None,
        reversibility: None,
        latency_p99_ms_bits: None,
        replayable: false,
        deterministic: false,
        dangerous: false,
        pub_extern_c: false,
        requires_approval: false,
        grounded_source_count: 0,
        param_count: 0,
    }
}

#[test]
fn handle_reports_effects_and_attributes() {
    let mut a = agent_info("refund");
    a.trust_tier = Some("human_required".to_string());
    a.projected_cost_usd_bits = Some(0.02f64.to_bits());
    a.reversibility = Some("reversible".to_string());
    a.latency_p99_ms_bits = Some(1.0f64.to_bits());
    a.dangerous = true;
    a.pub_extern_c = true;
    a.requires_approval = true;
    a.grounded_source_count = 2;
    a.param_count = 3;
    let h = handle_from_entry(&a);
    assert_eq!((h.name.as_str(), h.symbol.as_str(), h.source_file.as_str(), h.source_line), ("refund", "sym_refund", "agents.cor", 7));
    assert_eq!(h.trust_tier, 1);
    assert_eq!(f64::from_bits(h.cost_bound_usd_bits), 0.02);
    assert_eq!((h.reversible, h.latency_instant, h.replayable, h.deterministic), (1, 1, 0, 0));
    assert_eq!((h.dangerous, h.pub_extern_c, h.requires_approval), (1, 1, 1));
    assert_eq!((h.grounded_source_count, h.param_count), (2, 3));

    a.budget_usd_per_call_bits = Some(0.5f64.to_bits());
    a.latency_p99_ms_bits = Some(1.5f64.to_bits());
    a.reversibility = Some("irreversible".to_string());
    a.trust_tier = Some("whatever".to_string());
    let h = handle_from_entry(&a);
    assert_eq!(f64::from_bits(h.cost_bound_usd_bits), 0.5);
    assert_eq!((h.reversible, h.latency_instant, h.trust_tier), (0, 0, 3));
    assert!(f64::from_bits(cost_bound_for(&agent_info("x"))).is_nan());
    assert_eq!(finite_option(2.0f64.to_bits()), Some(2.0f64.to_bits()));
    assert_eq!(finite_option(f64::NAN.to_bits()), None);
    assert_eq!(finite_option(f64::INFINITY.to_bits()), None);
}

#[test]
fn listing_puts_runtime_agents_then_approver_then_user_agents() {
    let entries = vec![agent_info("send_email"), agent_info("__corvid_pre_flight"), agent_info("refund"), agent_info("__corvid_list_agents")];
    let mut approver = agent_info("__corvid_approver");
    approver.dangerous = true;
    approver.requires_approval = true;
    let handles = list_agent_handles_owned(Ok(entries), Some((approver, 0.25f64.to_bits()))).ok().unwrap();
    let names: Vec<&str> = handles.iter().map(|h| h.name.as_str()).collect();
    assert_eq!(names, vec!["__corvid_pre_flight", "__corvid_list_agents", "__corvid_approver", "send_email", "refund"]);
    let overlay = &handles[2];
    assert_eq!((overlay.trust_tier, overlay.reversible, overlay.dangerous, overlay.requires_approval), (0, 1, 0, 0));
    assert_eq!(f64::from_bits(overlay.cost_bound_usd_bits), 0.25);

    let plain = list_agent_handles_owned(Ok(vec![agent_info("a")]), None).ok().unwrap();
    assert_eq!(plain.len(), 1);
    assert!(matches!(
        list_agent_handles_owned(Err(RuntimeError::Other("no descriptor".to_string())), None),
        Err(RuntimeError::Other(m)) if m == "no descriptor"
    ));
}
