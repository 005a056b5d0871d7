use corvid_runtime::adversarial::{contradiction_flag, trace_text};
use corvid_runtime::effect_filter::CorvidFindAgentsStatus;
use corvid_runtime::errors::RuntimeError;
use corvid_runtime::filter_eval::{find_agents_where, find_matching_indices, CatalogFilterEntry, FilterAgent};
use corvid_runtime::json::{json_text, JsonMember, JsonNumber, JsonValue};

fn to_json(value: &serde_json::Value) -> JsonValue {
    match value {
        serde_json::Value::Null => JsonValue::Null,
        serde_json::Value::Bool(b) => JsonValue::Bool(*b),
        serde_json::Value::Number(n) => JsonValue::Number(JsonNumber {
            bits: n.as_f64().unwrap().to_bits(),
            text: n.to_string(),
        }),
        serde_json::Value::String(s) => JsonValue::String(s.clone()),
        serde_json::Value::Array(items) => JsonValue::Array(items.iter().map(to_json).collect()),
        serde_json::Value::Object(map) => JsonValue::Object(
            map.iter()
                .map(|(k, v)| JsonMember { key: k.clone(), value: to_json(v) })
                .collect(),
        ),
    }
}

fn parse(text: &str) -> Result<JsonValue, String> {
    serde_json::from_str::<serde_json::Value>(text)
        .map(|v| to_json(&v))
        .map_err(|e| e.to_string())
}

fn number(x: f64) -> JsonValue {
    JsonValue::Number(JsonNumber { bits: x.to_bits(), text: x.to_string() })
}

fn value(text: &str) -> JsonValue {
    parse(text).unwrap()
}

fn agent() -> FilterAgent {
    FilterAgent {
        trust_tier: None,
        cost_bound_bits: None,
        latency_p99_bits: None,
        dangerous: false,
        replayable: false,
        deterministic: false,
        reversibility: None,
        custom: Vec::new(),
    }
}

#[test]
fn unspecified_ordered_field_is_omitted_from_matches() {
    let mut with_trust = agent();
    with_trust.trust_tier = Some("autonomous".into());
    let missing_trust = agent();
    let result = find_matching_indices(
        &vec![with_trust, missing_trust],
        &parse(r#"{"dim":"trust_tier","op":"le","value":"autonomous"}"#),
    );
    assert_eq!(result.status, CorvidFindAgentsStatus::Success);
    assert_eq!(result.matched_indices, vec![0]);
}

#[test]
fn all_any_and_not_compose_with_tristate_semantics() {
    let mut a = agent();
    a.trust_tier = Some("autonomous".into());
    a.cost_bound_bits = Some(0.05f64.to_bits());
    let mut b = agent();
    b.trust_tier = Some("human_required".into());
    b.cost_bound_bits = Some(0.05f64.to_bits());
    let c = agent();
    let result = find_matching_indices(
        &vec![a, b, c],
        &parse(
            r#"{"all":[{"dim":"cost_bound_usd","op":"le","value":0.10},{"not":{"dim":"trust_tier","op":"gt","value":"autonomous"}}]}"#,
        ),
    );
    assert_eq!(result.status, CorvidFindAgentsStatus::Success);
    assert_eq!(result.matched_indices, vec![0]);
}

#[test]
fn unknown_dimension_is_typed_error() {
    let result = find_matching_indices(&vec![agent()], &parse(r#"{"dim":"made_up","op":"eq","value":true}"#));
    assert_eq!(result.status, CorvidFindAgentsStatus::UnknownDimension);
    assert!(result.error_message.unwrap().contains("unknown effect dimension"));
}

#[test]
fn op_mismatch_is_typed_error_for_bool_dimension() {
    let mut dangerous = agent();
    dangerous.dangerous = true;
    let result = find_matching_indices(&vec![dangerous], &parse(r#"{"dim":"dangerous","op":"le","value":true}"#));
    assert_eq!(result.status, CorvidFindAgentsStatus::OpMismatch);
    assert!(result.error_message.unwrap().contains("only supports `eq` and `ne`"));
}

#[test]
fn custom_dimensions_filter_when_declared() {
    let mut a = agent();
    a.custom.push(JsonMember { key: "risk_score".into(), value: number(0.2) });
    let mut b = agent();
    b.custom.push(JsonMember { key: "risk_score".into(), value: number(0.8) });
    let result = find_matching_indices(&vec![a, b], &parse(r#"{"dim":"risk_score","op":"le","value":0.5}"#));
    assert_eq!(result.status, CorvidFindAgentsStatus::Success);
    assert_eq!(result.matched_indices, vec![0]);
}

#[test]
fn malformed_filters_are_bad_json_before_any_agent() {
    let cases = [
        ("not json", None),
        ("[1]", Some("filter expression must be a JSON object")),
        (r#"{"all":[],"x":1}"#, Some("`all` expression may not carry sibling keys")),
        (r#"{"any":[]}"#, Some("`any` expects at least one child expression")),
        (r#"{"all":{}}"#, Some("`all` expects a JSON array of expressions")),
        (r#"{"op":"eq","value":1}"#, Some("leaf predicate must include string field `dim`")),
        (r#"{"dim":"dangerous","value":1}"#, Some("leaf predicate must include string field `op`")),
        (r#"{"dim":"dangerous","op":"eq"}"#, Some("leaf predicate must include field `value`")),
        (
            r#"{"dim":"dangerous","op":"eq","value":true,"extra":0}"#,
            Some("leaf predicate may only contain `dim`, `op`, and `value`"),
        ),
        (
            r#"{"dim":"dangerous","op":"approx","value":true}"#,
            Some("unsupported operator `approx`; expected one of eq/ne/lt/le/gt/ge"),
        ),
    ];
    for (text, message) in cases {
        let result = find_matching_indices(&vec![], &parse(text));
        assert_eq!(result.status, CorvidFindAgentsStatus::BadJson, "{text}");
        assert!(result.matched_indices.is_empty());
        match message {
            Some(m) => assert_eq!(result.error_message.unwrap(), m),
            None => assert!(result.error_message.unwrap().starts_with("filter JSON parse failed: ")),
        }
    }
}

#[test]
fn any_short_circuits_and_not_keeps_unspecified() {
    let mut a = agent();
    a.replayable = true;
    a.reversibility = Some("irreversible".into());
    let b = agent();
    let filter = parse(
        r#"{"any":[{"dim":"replayable","op":"eq","value":true},{"dim":"made_up","op":"eq","value":1}]}"#,
    );
    let result = find_matching_indices(&vec![a], &filter);
    assert_eq!(result.status, CorvidFindAgentsStatus::Success);
    assert_eq!(result.matched_indices, vec![0]);

    let mut a = agent();
    a.reversibility = Some("irreversible".into());
    let result = find_matching_indices(
        &vec![a, b],
        &parse(r#"{"not":{"dim":"reversible","op":"eq","value":true}}"#),
    );
    assert_eq!(result.matched_indices, vec![0]);

    let mut odd = agent();
    odd.reversibility = Some("sometimes".into());
    let result = find_matching_indices(&vec![odd], &parse(r#"{"dim":"reversible","op":"eq","value":true}"#));
    assert_eq!(result.status, CorvidFindAgentsStatus::OpMismatch);
    assert_eq!(
        result.error_message.unwrap(),
        "dimension `reversible` saw unsupported reversibility value `sometimes`"
    );
}

#[test]
fn trust_tiers_compare_on_their_scale() {
    let tiers = ["autonomous", "supervisor_required", "human_required", "unknown_tier"];
    let agents: Vec<FilterAgent> = tiers
        .iter()
        .take(3)
        .map(|t| {
            let mut a = agent();
            a.trust_tier = Some(t.to_string());
            a
        })
        .collect();
    let result = find_matching_indices(&agents, &parse(r#"{"dim":"trust_tier","op":"ge","value":"supervisor_required"}"#));
    assert_eq!(result.matched_indices, vec![1, 2]);
    let result = find_matching_indices(&agents, &parse(r#"{"dim":"trust_tier","op":"eq","value":"nope"}"#));
    assert_eq!(result.status, CorvidFindAgentsStatus::OpMismatch);
    assert_eq!(result.error_message.unwrap(), "dimension `trust_tier` does not recognize `nope`");
    let mut strange = agent();
    strange.trust_tier = Some(tiers[3].to_string());
    let result = find_matching_indices(&vec![strange], &parse(r#"{"dim":"trust_tier","op":"eq","value":"autonomous"}"#));
    assert_eq!(result.error_message.unwrap(), "dimension `trust_tier` saw unknown tier `unknown_tier`");
}

#[test]
fn contradiction_flag_reads_boolean_field() {
    let verdict = value(r#"{ "contradiction": true, "rationale": "bad" }"#);
    assert!(contradiction_flag("verify", &verdict).unwrap());
}

#[test]
fn contradiction_flag_rejects_missing_field() {
    let verdict = value(r#"{ "rationale": "bad" }"#);
    assert!(matches!(
        contradiction_flag("verify", &verdict),
        Err(RuntimeError::InvalidAdversarialVerdict { .. })
    ));
}

#[test]
fn trace_text_preserves_strings() {
    assert_eq!(trace_text(&value(r#""hello""#)), "hello");
    assert_eq!(trace_text(&value(r#"{"x": 1}"#)), "{\"x\":1}");
}

#[test]
fn contradiction_flag_explains_what_it_found() {
    match contradiction_flag("verify", &value("[1,true]")) {
        Err(RuntimeError::InvalidAdversarialVerdict { prompt, message }) => {
            assert_eq!(prompt, "verify");
            assert_eq!(message, "expected struct-like JSON object, got [1,true]");
        }
        _ => panic!("expected an invalid verdict"),
    }
    match contradiction_flag("verify", &value(r#"{"contradiction":"yes"}"#)) {
        Err(RuntimeError::InvalidAdversarialVerdict { message, .. }) => {
            assert_eq!(message, "`contradiction` must be Bool, got \"yes\"");
        }
        _ => panic!("expected an invalid verdict"),
    }
    assert!(!contradiction_flag("verify", &value(r#"{"contradiction":false}"#)).unwrap());
}

#[test]
fn json_text_matches_compact_serialization() {
    let text = r#"{"a":[1,2.5,null,"q\"uote\n"],"b":{"c":false}}"#;
    let parsed: serde_json::Value = serde_json::from_str(text).unwrap();
    assert_eq!(json_text(&value(text)), parsed.to_string());
    assert_eq!(json_text(&value("[]")), "[]");
    assert_eq!(json_text(&value("{}")), "{}");
}

#[test]
fn catalog_queries_see_own_agents_then_the_approver_then_the_rest() {
    let mut dangerous = agent();
    dangerous.dangerous = true;
    let entry = |name: &str, a: FilterAgent| CatalogFilterEntry { name: name.to_string(), agent: a };
    let mut approver = agent();
    approver.dangerous = true;
    let catalog = vec![
        entry("refund", {
            let mut a = agent();
            a.dangerous = true;
            a
        }),
        entry("__corvid_list_agents", agent()),
        entry("greet", agent()),
        entry("__corvid_pre_flight", dangerous),
    ];
    let filter = parse(r#"{"dim":"dangerous","op":"eq","value":true}"#);
    let outcome = find_agents_where(Ok(catalog), Some(approver), &filter);
    assert_eq!(outcome.status, CorvidFindAgentsStatus::Success);
    // order seen: __corvid_list_agents, __corvid_pre_flight, approver, refund, greet
    assert_eq!(outcome.matched_indices, vec![1, 2, 3]);

    let failed = find_agents_where(Err(RuntimeError::Other("catalog missing".to_string())), None, &filter);
    assert_eq!(failed.status, CorvidFindAgentsStatus::BadJson);
    assert_eq!(failed.error_message.as_deref(), Some("catalog missing"));
}
