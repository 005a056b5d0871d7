use corvid_runtime::lineage::{validate_lineage, LineageEvent, LineageKind, LineageStatus};
use corvid_runtime::lineage_drift::{compute_lineage_drift_report, summarize_lineage_drift_metrics, LineageDriftSummary};
use corvid_runtime::lineage_eval::{
    lineage_eval_fixture_hash, promote_lineage_events_to_eval, LineageEvalPromotionError,
    LINEAGE_EVAL_FIXTURE_SCHEMA,
};
use corvid_runtime::lineage_redact::{redact_lineage_events, LineageRedactionPolicy};
use corvid_runtime::lineage_render::render_lineage_tree;

#[test]
fn renderer_prints_tree_with_contract_context() {
    let mut route = LineageEvent::root("trace-1", LineageKind::Route, "POST /actions", 10)
        .finish(LineageStatus::Succeeded, 30);
    route.replay_key = "route:trace-1".to_string();
    let mut tool = LineageEvent::child(&route, LineageKind::Tool, "send_email", 0, 15)
        .finish(LineageStatus::Succeeded, 25);
    tool.cost_micro_usd = 20_000;
    tool.approval_id = "approval-1".to_string();
    tool.guarantee_id = "approval.reachable_entrypoints_require_contract".to_string();
    tool.data_classes = vec!["private".to_string()];
    let approval = LineageEvent::child(&tool, LineageKind::Approval, "SendEmail", 0, 16)
        .finish(LineageStatus::Succeeded, 20);

    let rendered = render_lineage_tree(&[route, tool, approval]);
    assert!(rendered.contains("- route POST /actions [ok] latency=20ms"));
    assert!(rendered.contains("  - tool send_email [ok] latency=10ms cost=$0.0200"));
    assert!(rendered.contains("guarantee=approval.reachable_entrypoints_require_contract"));
    assert!(rendered.contains("approval=approval-1"));
    assert!(rendered.contains("data=private"));
    assert!(rendered.contains("    - approval SendEmail [ok] latency=4ms"));
}

#[test]
fn renderer_surfaces_incomplete_lineage() {
    let route = LineageEvent::root("trace-1", LineageKind::Route, "GET /", 1);
    let second = LineageEvent::root("trace-1", LineageKind::Job, "daily", 2);
    let rendered = render_lineage_tree(&[route, second]);
    assert!(rendered.starts_with("lineage: incomplete"));
    assert!(rendered.contains("expected_one_root"));
}

#[test]
fn renderer_orders_siblings_by_start_kind_and_name() {
    let root = LineageEvent::root("t", LineageKind::Route, "r", 0).finish(LineageStatus::Succeeded, 0);
    let late = LineageEvent::child(&root, LineageKind::Tool, "late", 0, 9);
    let b = LineageEvent::child(&root, LineageKind::Tool, "b", 1, 5);
    let a = LineageEvent::child(&root, LineageKind::Tool, "a", 2, 5);
    let prompt = LineageEvent::child(&root, LineageKind::Prompt, "z", 3, 5);
    let rendered = render_lineage_tree(&[root, late, b, a, prompt]);
    assert_eq!(
        rendered,
        "- route r [ok]\n  - prompt z [ok]\n  - tool a [ok]\n  - tool b [ok]\n  - tool late [ok]\n"
    );
}

#[test]
fn renderer_rounds_cost_to_four_decimals() {
    let mut root = LineageEvent::root("t", LineageKind::Tool, "x", 0);
    root.cost_micro_usd = 1_234_567;
    let rendered = render_lineage_tree(&[root]);
    assert_eq!(rendered, "- tool x [ok] cost=$1.2346\n");
}

#[test]
fn validation_reports_mismatch_duplicate_and_missing_parent() {
    let root = LineageEvent::root("t", LineageKind::Route, "r", 0);
    let mut other = LineageEvent::child(&root, LineageKind::Tool, "x", 0, 1);
    other.trace_id = "u".to_string();
    let dup = LineageEvent::child(&root, LineageKind::Tool, "y", 0, 2);
    let mut orphan = LineageEvent::child(&root, LineageKind::Db, "z", 0, 3);
    orphan.parent_span_id = "nowhere".to_string();
    let v = validate_lineage(&[root, other, dup, orphan]);
    assert!(!v.complete);
    assert_eq!(
        v.violations,
        vec![
            "trace_mismatch:t/route/tool-0".to_string(),
            "duplicate_span:t/route/tool-0".to_string(),
            "missing_parent:t/route/db-0".to_string(),
        ]
    );
}

#[test]
fn finish_sets_latency_and_saturates() {
    let e = LineageEvent::root("t", LineageKind::Job, "j", 50).finish(LineageStatus::Failed, 40);
    assert_eq!(e.latency_ms, 0);
    assert_eq!(e.ended_ms, 40);
    assert_eq!(e.status, LineageStatus::Failed);
    assert_eq!(e.span_id, "t/job");
}

#[test]
fn promotion_rejects_incomplete_lineage() {
    let root = LineageEvent::root("trace-1", LineageKind::Route, "GET /", 1);
    let mut orphan = LineageEvent::child(&root, LineageKind::Tool, "send", 0, 2);
    orphan.parent_span_id = "missing".to_string();

    let err = promote_lineage_events_to_eval(&[root, orphan], &LineageRedactionPolicy::default())
        .err()
        .unwrap();
    assert!(matches!(err, LineageEvalPromotionError::InvalidLineage(_)));
}

#[test]
fn promotion_rejects_empty_trace() {
    let err = promote_lineage_events_to_eval(&[], &LineageRedactionPolicy::default())
        .err()
        .unwrap();
    assert!(matches!(err, LineageEvalPromotionError::EmptyTrace));
    assert_eq!(err.message(), "lineage trace is empty");
}

#[test]
fn promotion_builds_deterministic_redacted_fixture() {
    let mut route = LineageEvent::root("trace-1", LineageKind::Route, "POST /send", 10)
        .finish(LineageStatus::Succeeded, 100);
    route.replay_key = "replay-secret".to_string();
    let mut tool = LineageEvent::child(&route, LineageKind::Tool, "send alice@example.com", 0, 20)
        .finish(LineageStatus::Failed, 60);
    tool.guarantee_id = "approval.reachable_entrypoints_require_contract".to_string();
    tool.effect_ids = vec!["send_email".to_string(), "send_email".to_string()];
    tool.approval_id = "approval-secret".to_string();
    tool.model_fingerprint = "model-secret".to_string();
    tool.prompt_hash = "prompt-secret".to_string();

    let policy = LineageRedactionPolicy::production_default();
    let a = promote_lineage_events_to_eval(&[route.clone(), tool.clone()], &policy).ok().unwrap();
    let b = promote_lineage_events_to_eval(&[route, tool], &policy).ok().unwrap();

    assert_eq!(a.fixture_hash, b.fixture_hash);
    assert!(a.fixture_hash.starts_with("sha256:"));
    assert_eq!(a.fixture_hash.len(), "sha256:".len() + 16);
    assert_eq!(a.schema, LINEAGE_EVAL_FIXTURE_SCHEMA);
    assert_eq!(a.source_event_count, 2);
    assert_eq!(
        a.expected_guarantee_ids,
        vec!["approval.reachable_entrypoints_require_contract".to_string()]
    );
    assert_eq!(a.expected_effect_ids, vec!["send_email".to_string()]);
    assert_eq!(a.fixture_hash, lineage_eval_fixture_hash(&a));
    assert_eq!(a.selected_span_ids, vec!["trace-1/route".to_string(), "trace-1/route/tool-0".to_string()]);
    for e in &a.events {
        assert!(!e.name.contains("alice@example.com"));
        assert!(!e.approval_id.contains("approval-secret"));
        assert!(!e.model_fingerprint.contains("model-secret"));
        assert!(!e.prompt_hash.contains("prompt-secret"));
        assert_eq!(e.redaction_policy_hash, policy.policy_hash());
    }
    assert!(a.events[1].name.starts_with("redacted:"));
    assert_eq!(a.model_fingerprints.len(), 1);
}

#[test]
fn keep_all_policy_keeps_values() {
    let mut root = LineageEvent::root("t", LineageKind::Route, "GET /a", 1);
    root.prompt_hash = "p2".to_string();
    let mut child = LineageEvent::child(&root, LineageKind::Prompt, "ask", 0, 2);
    child.prompt_hash = "p1".to_string();
    let f = promote_lineage_events_to_eval(&[root, child], &LineageRedactionPolicy::keep_all())
        .ok()
        .unwrap();
    assert_eq!(f.events[0].name, "GET /a");
    assert_eq!(f.prompt_hashes, vec!["p1".to_string(), "p2".to_string()]);
    assert!(f.replay_keys.is_empty());
}

fn average_confidence(summary: &LineageDriftSummary) -> f64 {
    if summary.confidence_sample_count == 0 {
        0.0
    } else {
        let sum: f64 = summary.confidence_sample_bits.iter().map(|b| f64::from_bits(*b)).sum();
        sum / summary.confidence_sample_count as f64
    }
}

#[test]
fn drift_metrics_cover_schema_confidence_cost_latency_denials_and_tool_errors() {
    let mut baseline_route = LineageEvent::root("trace-a", LineageKind::Route, "POST /send", 1)
        .finish(LineageStatus::Succeeded, 11);
    baseline_route.cost_micro_usd = 10_000;
    baseline_route.confidence_bits = 0.90f64.to_bits();
    let mut baseline_tool = LineageEvent::child(&baseline_route, LineageKind::Tool, "send_email", 0, 2)
        .finish(LineageStatus::Succeeded, 7);
    baseline_tool.confidence_bits = 0.80f64.to_bits();

    let mut candidate_route = LineageEvent::root("trace-b", LineageKind::Route, "POST /send", 1)
        .finish(LineageStatus::Denied, 21);
    candidate_route.cost_micro_usd = 50_000;
    candidate_route.confidence_bits = 0.50f64.to_bits();
    let mut candidate_tool = LineageEvent::child(&candidate_route, LineageKind::Tool, "send_email", 0, 2)
        .finish(LineageStatus::Failed, 19);
    candidate_tool.schema = "bad.schema".to_string();
    candidate_tool.confidence_bits = 0.40f64.to_bits();

    let report = compute_lineage_drift_report(
        &vec![baseline_route, baseline_tool],
        &vec![candidate_route, candidate_tool],
    );

    assert_eq!(report.cost_delta_micro_usd, 40_000);
    assert_eq!(report.latency_delta_ms, 22);
    assert_eq!(report.denial_delta, 1);
    assert_eq!(report.tool_error_delta, 1);
    assert_eq!(report.schema_violation_delta, 1);
    let confidence_delta = average_confidence(&report.candidate) - average_confidence(&report.baseline);
    assert!(confidence_delta < 0.0);
}

#[test]
fn drift_summary_counts_distinct_traces_and_skips_unusable_confidences() {
    let mut a = LineageEvent::root("trace-a", LineageKind::Route, "GET /", 0).finish(LineageStatus::Succeeded, 4);
    a.confidence_bits = f64::NAN.to_bits();
    let mut b = LineageEvent::child(&a, LineageKind::Tool, "t", 0, 1).finish(LineageStatus::Failed, 3);
    b.confidence_bits = (-0.5f64).to_bits();
    b.cost_micro_usd = 7;
    let mut c = LineageEvent::root("trace-b", LineageKind::Tool, "t", 2).finish(LineageStatus::Denied, 2);
    c.confidence_bits = 0.25f64.to_bits();
    let mut d = LineageEvent::root("trace-a", LineageKind::Agent, "again", 5).finish(LineageStatus::Succeeded, 9);
    d.confidence_bits = f64::INFINITY.to_bits();
    let summary = summarize_lineage_drift_metrics(&vec![a, b, c, d]);
    assert_eq!(summary.trace_count, 2);
    assert_eq!(summary.event_count, 4);
    assert_eq!(summary.schema_violation_count, 0);
    assert_eq!(summary.total_cost_micro_usd, 7);
    assert_eq!(summary.total_latency_ms, 4 + 2 + 0 + 4);
    assert_eq!(summary.denial_count, 1);
    assert_eq!(summary.tool_error_count, 1);
    assert_eq!(summary.confidence_sample_count, 1);
    assert_eq!(summary.confidence_sample_bits, vec![0.25f64.to_bits()]);
    assert_eq!(average_confidence(&summary), 0.25);

    let empty = summarize_lineage_drift_metrics(&vec![]);
    assert_eq!(empty.trace_count, 0);
    assert_eq!(average_confidence(&empty), 0.0);
    let same = compute_lineage_drift_report(&vec![], &vec![]);
    assert_eq!((same.cost_delta_micro_usd, same.latency_delta_ms, same.denial_delta), (0, 0, 0));
}

#[test]
fn redaction_keeps_a_trace_complete_or_incomplete() {
    let route = LineageEvent::root("trace-1", LineageKind::Route, "POST /send alice@example.com", 1)
        .finish(LineageStatus::Succeeded, 9);
    let mut tool = LineageEvent::child(&route, LineageKind::Tool, "send", 0, 2).finish(LineageStatus::Failed, 5);
    tool.approval_id = "approval-secret".to_string();
    let mut orphan = LineageEvent::child(&route, LineageKind::Tool, "retry", 1, 3);
    orphan.parent_span_id = "missing".to_string();
    let policy = LineageRedactionPolicy::production_default();
    for events in [vec![route.clone(), tool.clone()], vec![route, tool, orphan]] {
        let before = validate_lineage(&events);
        let after = validate_lineage(&redact_lineage_events(&events, &policy));
        assert_eq!(after.complete, before.complete);
        assert_eq!(after.violations, before.violations);
    }
}
