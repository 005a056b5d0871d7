use corvid_runtime::runtime_config::{
    parse_mock_int_tools, prompt_max_retries, runtime_settings, tokio_workers, ReplaySelection,
    RuntimeEnv, DEFAULT_PROMPT_MAX_RETRIES,
};

fn env() -> RuntimeEnv {
    RuntimeEnv {
        approve_auto: None,
        model: None,
        rollout_seed: None,
        replay_trace_path: None,
        replay_mutate_step: None,
        replay_mutate_json: None,
        replay_model: None,
        test_mock_llm: None,
        anthropic_api_key: None,
        openai_api_key: None,
        google_api_key: None,
        gemini_api_key: None,
        openai_compat_api_key: None,
        test_mock_int_tools: None,
    }
}

fn some(s: &str) -> Option<String> {
    Some(s.to_string())
}

#[test]
fn mock_int_tools_parse_and_skip_malformed_entries() {
    let (tools, warnings) = parse_mock_int_tools(" lookup : 42 ;; bad ; neg:-7; x: 1.5 ;");
    let tools: Vec<(String, i64)> = tools.into_iter().map(|t| (t.name, t.value)).collect();
    assert_eq!(tools, vec![("lookup".to_string(), 42), ("neg".to_string(), -7)]);
    assert_eq!(
        warnings,
        vec![
            "corvid: malformed CORVID_TEST_MOCK_INT_TOOLS entry `bad` (expected `name:value`); skipping".to_string(),
            "corvid: CORVID_TEST_MOCK_INT_TOOLS value ` 1.5` for `x` isn't a valid i64; skipping".to_string(),
        ]
    );
    let (tools, warnings) = parse_mock_int_tools("");
    assert!(tools.is_empty() && warnings.is_empty());
}

#[test]
fn settings_follow_the_environment() {
    let plain = runtime_settings(&env());
    assert!(!plain.auto_approve);
    assert!(!plain.mock_llm);
    assert!(matches!(plain.replay, ReplaySelection::Live));
    assert_eq!(plain.rollout_seed, None);
    assert_eq!(plain.anthropic_key, "");
    assert_eq!(plain.gemini_key, "");

    let mut e = env();
    e.approve_auto = some("1");
    e.test_mock_llm = some("yes");
    e.model = some("model-a");
    e.rollout_seed = some("+18446744073709551615");
    e.gemini_api_key = some("gem");
    e.replay_trace_path = some("/t/trace.jsonl");
    e.replay_model = some("model-b");
    let s = runtime_settings(&e);
    assert!(s.auto_approve);
    assert!(!s.mock_llm);
    assert_eq!(s.default_model.as_deref(), Some("model-a"));
    assert_eq!(s.rollout_seed, Some(u64::MAX));
    assert_eq!(s.gemini_key, "gem");
    match s.replay {
        ReplaySelection::Differential { path, model } => {
            assert_eq!(path, "/t/trace.jsonl");
            assert_eq!(model, "model-b");
        }
        _ => panic!("expected a differential replay"),
    }

    e.google_api_key = some("goo");
    e.rollout_seed = some("18446744073709551616");
    e.replay_mutate_step = some("3");
    e.replay_mutate_json = some("{\"x\":1}");
    let s = runtime_settings(&e);
    assert_eq!(s.gemini_key, "goo");
    assert_eq!(s.rollout_seed, None);
    assert!(matches!(s.replay, ReplaySelection::Mutation { .. }));
}

#[test]
fn retry_and_worker_counts_fall_back_when_unset_or_invalid() {
    assert_eq!(prompt_max_retries(None), DEFAULT_PROMPT_MAX_RETRIES);
    assert_eq!(prompt_max_retries(Some("5")), 5);
    assert_eq!(prompt_max_retries(Some("-1")), DEFAULT_PROMPT_MAX_RETRIES);
    assert_eq!(prompt_max_retries(Some("4294967296")), DEFAULT_PROMPT_MAX_RETRIES);
    assert_eq!(tokio_workers(Some("0")), None);
    assert_eq!(tokio_workers(Some("8")), Some(8));
    assert_eq!(tokio_workers(Some(" 8")), None);
    assert_eq!(tokio_workers(None), None);
}
