use forge_agents::agents::doc_verifier_agent::{
    concerns_kind, count_relevant_successes, count_successes, overall_quality, percent,
    quality_score, summary_line, CheckKind, DocVerifierAgent, DocVerifierError,
};
use forge_agents::events::doc_sync_events::{
    DocSyncEvent, DocSyncPayload, DocumentationMap, ExecutionLogEntry, StartPayload,
    VerificationParams, VerifyPayload,
};
use forge_agents::state::doc_sync_state::{DocSyncState, StateError};
use forge_agents::str_map::StrMap;

fn entry(kind: &str, status: &str) -> ExecutionLogEntry {
    ExecutionLogEntry {
        operation_type: kind.to_string(),
        status: status.to_string(),
        target_path: "site/x".to_string(),
        error_message: None,
        metadata: StrMap::new(),
        timestamp: 0,
    }
}

fn params() -> VerificationParams {
    VerificationParams {
        verify_content: true,
        verify_structure: true,
        verify_ui: true,
        verify_css: true,
        metadata: StrMap::new(),
    }
}

fn verify_event(log: Vec<ExecutionLogEntry>) -> DocSyncEvent {
    DocSyncEvent::at(
        "docs-verify",
        DocSyncPayload::Verify(VerifyPayload {
            doc_map: DocumentationMap::default(),
            execution_log: log,
            verification_params: params(),
        }),
        "doc-coordinator",
        "doc-verifier",
        "wf-9",
        1,
    )
}

fn state_with_paths() -> DocSyncState {
    let mut state = DocSyncState::fresh(0);
    state.metadata.set("source_path", "docs");
    state.metadata.set("target_path", "site");
    state
}

#[test]
fn overall_quality_is_the_weighted_mean() {
    assert_eq!(overall_quality(1000, 1000, 1000, 1000, 1000), 1000);
    assert_eq!(overall_quality(0, 0, 0, 0, 0), 0);
    assert_eq!(overall_quality(1000, 0, 0, 0, 0), 400);
    assert_eq!(overall_quality(0, 1000, 0, 0, 0), 200);
    assert_eq!(overall_quality(0, 0, 1000, 0, 0), 150);
    assert_eq!(overall_quality(0, 0, 0, 1000, 0), 100);
    assert_eq!(overall_quality(0, 0, 0, 0, 1000), 150);
    assert_eq!(overall_quality(1000, 800, 800, 800, 1000), 910);
    assert_eq!(overall_quality(800, 800, 800, 800, 800), 800);
    assert_eq!(overall_quality(500, 250, 100, 900, 700), 460);
    assert_eq!(overall_quality(1, 1, 1, 1, 1), 1);
    assert_eq!(overall_quality(1, 0, 0, 0, 0), 0);
    assert_eq!(overall_quality(3, 0, 0, 0, 0), 1);
}

#[test]
fn overall_quality_agrees_with_the_floating_point_formula() {
    let samples: [(u32, u32, u32, u32, u32); 5] = [
        (1000, 800, 800, 800, 1000),
        (0, 800, 1000, 800, 0),
        (640, 20, 980, 400, 60),
        (777, 333, 111, 999, 555),
        (1, 2, 3, 4, 5),
    ];
    for (c, s, u, k, t) in samples {
        let exact = 0.4 * (c as f64 / 1000.0)
            + 0.2 * (s as f64 / 1000.0)
            + 0.15 * (u as f64 / 1000.0)
            + 0.1 * (k as f64 / 1000.0)
            + 0.15 * (t as f64 / 1000.0);
        let fixed = overall_quality(c, s, u, k, t) as f64 / 1000.0;
        assert!(fixed <= exact + 1e-9, "{} > {}", fixed, exact);
        assert!(exact - fixed < 0.001 + 1e-9, "{} too far below {}", fixed, exact);
    }
}

#[test]
fn category_scores_follow_the_counts() {
    assert_eq!(quality_score(1, 0, 0), 1000);
    assert_eq!(quality_score(3, 0, 2), 1000);
    assert_eq!(quality_score(1, 1, 0), 500);
    assert_eq!(quality_score(2, 1, 0), 666);
    assert_eq!(quality_score(9, 1, 0), 900);
    assert_eq!(quality_score(0, 0, 1), 800);
    assert_eq!(quality_score(0, 1, 1), 0);
    assert_eq!(quality_score(0, 1, 0), 0);
    assert_eq!(quality_score(0, 0, 0), 0);
    assert_eq!(quality_score(u32::MAX, u32::MAX, 0), 500);
}

#[test]
fn operations_are_sorted_into_categories_by_their_words() {
    assert!(concerns_kind(CheckKind::Content, "create"));
    assert!(concerns_kind(CheckKind::Content, "update_sidebar"));
    assert!(!concerns_kind(CheckKind::Content, "delete"));
    assert!(!concerns_kind(CheckKind::Content, "recreate"));
    assert!(concerns_kind(CheckKind::Structure, "update_sidebar"));
    assert!(concerns_kind(CheckKind::Structure, "update_navigation"));
    assert!(!concerns_kind(CheckKind::Structure, "update"));
    assert!(concerns_kind(CheckKind::Ui, "add_component"));
    assert!(!concerns_kind(CheckKind::Ui, "add_style"));
    assert!(concerns_kind(CheckKind::Css, "update_style"));
    assert!(!concerns_kind(CheckKind::Css, "styl"));
    let log = vec![
        entry("create", "success"),
        entry("update", "failure"),
        entry("update_sidebar", "success"),
        entry("add_component", "success"),
        entry("update_style", "skipped"),
        entry("delete", "success"),
    ];
    assert_eq!(count_relevant_successes(CheckKind::Content, &log), 2);
    assert_eq!(count_relevant_successes(CheckKind::Structure, &log), 1);
    assert_eq!(count_relevant_successes(CheckKind::Ui, &log), 1);
    assert_eq!(count_relevant_successes(CheckKind::Css, &log), 0);
    assert_eq!(count_successes(&log), 4);
    assert_eq!(count_successes(&Vec::new()), 0);
}

#[test]
fn category_check_passes_with_a_success_and_is_skipped_without() {
    let agent = DocVerifierAgent::new();
    let log = vec![entry("create", "success"), entry("update", "success"), entry("create", "failure")];
    let (ok, failed, skipped, score, lines) = agent
        .verify_content("docs", "site", &DocumentationMap::default(), &log, &params(), 4)
        .unwrap();
    assert_eq!((ok, failed, skipped, score), (1, 0, 0, 1000));
    assert_eq!(lines.len(), 1);
    assert_eq!(lines[0].check_type, "content");
    assert_eq!(lines[0].status, "success");
    assert_eq!(lines[0].message, "2 content operations executed successfully");
    assert_eq!(lines[0].target_path, Some("site".to_string()));
    assert_eq!(lines[0].timestamp, 4);

    let (ok, failed, skipped, score, lines) = agent
        .verify_structure("docs", "site", &DocumentationMap::default(), &log, &params(), 4)
        .unwrap();
    assert_eq!((ok, failed, skipped, score), (0, 0, 1, 800));
    assert_eq!(lines[0].check_type, "structure");
    assert_eq!(lines[0].status, "skipped");
    assert_eq!(lines[0].message, "No structure operations were executed");

    let (_, _, skipped, score, lines) = agent
        .verify_ui("docs", "site", &DocumentationMap::default(), &log, &params(), 4)
        .unwrap();
    assert_eq!((skipped, score), (1, 800));
    assert_eq!(lines[0].message, "No UI operations were executed");

    let styled = vec![entry("add_style", "success")];
    let (ok, _, _, score, lines) = agent
        .verify_css("docs", "site", &DocumentationMap::default(), &styled, &params(), 4)
        .unwrap();
    assert_eq!((ok, score), (1, 1000));
    assert_eq!(lines[0].check_type, "css");
    assert_eq!(lines[0].message, "1 CSS operations executed successfully");

    let (_, _, skipped, score, lines) = agent
        .verify_content("docs", "site", &DocumentationMap::default(), &styled, &params(), 4)
        .unwrap();
    assert_eq!((skipped, score), (1, 800));
    assert_eq!(lines[0].message, "No content operations were executed");
}

#[test]
fn content_check_fails_where_content_operations_all_went_wrong() {
    let agent = DocVerifierAgent::new();
    let map = DocumentationMap::default();
    let log = vec![entry("create", "failure"), entry("update", "skipped"), entry("add_style", "success")];
    let (ok, failed, skipped, score, lines) =
        agent.verify_content("docs", "site", &map, &log, &params(), 4).unwrap();
    assert_eq!((ok, failed, skipped, score), (0, 1, 0, 0));
    assert_eq!(lines[0].check_type, "content");
    assert_eq!(lines[0].status, "failure");
    assert_eq!(lines[0].message, "No content operations were executed successfully");
    let sidebar = vec![entry("sidebar", "failure")];
    let (ok, failed, skipped, score, _) =
        agent.verify_structure("docs", "site", &map, &sidebar, &params(), 4).unwrap();
    assert_eq!((ok, failed, skipped, score), (0, 0, 1, 800));
    let request = agent.verify_all("docs", "site", map, &log, &params(), 1).unwrap();
    assert_eq!(request.quality_scores.content_quality, 0);
    assert_eq!(request.quality_scores.css_quality, 1000);
    assert_eq!(request.quality_scores.technical_quality, 0);
    assert_eq!(request.quality_scores.overall_quality, 380);
    assert_eq!(request.verification_results.failed_checks, 2);
}

#[test]
fn technical_check_needs_nine_successes_in_ten() {
    let agent = DocVerifierAgent::new();
    let map = DocumentationMap::default();
    let mut log = Vec::new();
    for _ in 0..9 {
        log.push(entry("create", "success"));
    }
    log.push(entry("create", "failure"));
    let (ok, failed, skipped, score, lines) =
        agent.verify_technical("docs", "site", &map, &log, &params(), 2).unwrap();
    assert_eq!((ok, failed, skipped, score), (1, 0, 0, 1000));
    assert_eq!(lines[0].check_type, "technical");
    assert_eq!(lines[0].status, "success");
    assert_eq!(lines[0].message, "Execution success rate: 90.0%");

    log.push(entry("create", "failure"));
    let (ok, failed, skipped, score, lines) =
        agent.verify_technical("docs", "site", &map, &log, &params(), 2).unwrap();
    assert_eq!((ok, failed, skipped, score), (0, 1, 0, 0));
    assert_eq!(lines[0].status, "failure");
    assert_eq!(lines[0].message, "Execution success rate too low: 81.8%");

    let (ok, failed, skipped, score, lines) =
        agent.verify_technical("docs", "site", &map, &Vec::new(), &params(), 2).unwrap();
    assert_eq!((ok, failed, skipped, score), (0, 0, 1, 800));
    assert_eq!(lines[0].status, "skipped");
    assert_eq!(lines[0].message, "No operations were executed");

    let all_good = vec![entry("delete", "success")];
    let (_, _, _, _, lines) =
        agent.verify_technical("docs", "site", &map, &all_good, &params(), 2).unwrap();
    assert_eq!(lines[0].message, "Execution success rate: 100.0%");
}

#[test]
fn percentages_and_summaries_are_written_out() {
    assert_eq!(percent(0), "0.0%");
    assert_eq!(percent(5), "0.5%");
    assert_eq!(percent(667), "66.7%");
    assert_eq!(percent(1000), "100.0%");
    assert_eq!(summary_line(2, 0, 3, 910), "2 successful, 0 failed, 3 skipped, overall quality: 0.91");
    assert_eq!(summary_line(5, 0, 0, 1000), "5 successful, 0 failed, 0 skipped, overall quality: 1.00");
    assert_eq!(summary_line(0, 1, 4, 45), "0 successful, 1 failed, 4 skipped, overall quality: 0.05");
    assert_eq!(summary_line(0, 1, 4, 44), "0 successful, 1 failed, 4 skipped, overall quality: 0.04");
    assert_eq!(summary_line(10, 20, 30, 0), "10 successful, 20 failed, 30 skipped, overall quality: 0.00");
}

#[test]
fn verification_of_a_log_reports_all_five_checks() {
    let agent = DocVerifierAgent::new();
    let mut state = state_with_paths();
    let log = vec![
        entry("create", "success"),
        entry("update_sidebar", "success"),
        entry("add_style", "success"),
    ];
    let sent = agent.handle_verify_event(verify_event(log), &mut state, 50).unwrap();
    assert_eq!(sent.event_type, "docs-verification-complete");
    assert_eq!(sent.source_agent, "doc-verifier");
    assert_eq!(sent.target_agent, "doc-coordinator");
    assert_eq!(sent.correlation_id, "wf-9");
    assert_eq!(sent.timestamp, 50);
    match sent.payload {
        DocSyncPayload::VerificationComplete(p) => {
            assert_eq!(p.quality_scores.content_quality, 1000);
            assert_eq!(p.quality_scores.structure_quality, 1000);
            assert_eq!(p.quality_scores.ui_quality, 800);
            assert_eq!(p.quality_scores.css_quality, 1000);
            assert_eq!(p.quality_scores.technical_quality, 1000);
            assert_eq!(p.quality_scores.overall_quality, 970);
            assert_eq!(p.verification_results.quality_metrics.overall_quality, 970);
            assert_eq!(p.verification_results.successful_checks, 4);
            assert_eq!(p.verification_results.failed_checks, 0);
            assert_eq!(p.verification_results.skipped_checks, 1);
            assert_eq!(p.verification_results.content_verification.status, "pending");
            let checks: Vec<&str> = p.verification_log.iter().map(|e| e.check_type.as_str()).collect();
            assert_eq!(checks, vec!["content", "structure", "ui", "css", "technical"]);
            let statuses: Vec<&str> = p.verification_log.iter().map(|e| e.status.as_str()).collect();
            assert_eq!(statuses, vec!["success", "success", "skipped", "success", "success"]);
            for line in &p.verification_log {
                assert_eq!(line.target_path, Some("site".to_string()));
                assert_eq!(line.timestamp, 50);
            }
            assert_eq!(p.check_status.get("content"), Some(&false));
            assert_eq!(p.check_status.get("structure"), Some(&false));
            assert_eq!(p.check_status.get("ui"), Some(&false));
            assert_eq!(p.check_status.get("css"), Some(&false));
            assert_eq!(p.check_status.len(), 4);
            assert_eq!(
                p.improvement_recommendations,
                vec![
                    "Ensure all links are valid".to_string(),
                    "Check image references".to_string(),
                    "Validate code samples".to_string(),
                ]
            );
            assert!(p.verification_report.issues.is_empty());
            assert!(p.verification_report.positives.is_empty());
            assert!(p.verification_report.recommendations.is_empty());
        }
        other => panic!("expected a verification-complete payload, got {:?}", other),
    }
    assert_eq!(state.metadata.get("status"), Some(&"verification_complete".to_string()));
    assert_eq!(
        state.metadata.get("verification_summary"),
        Some(&"4 successful, 0 failed, 1 skipped, overall quality: 0.97".to_string())
    );
}

#[test]
fn verification_of_an_empty_log_skips_everything() {
    let agent = DocVerifierAgent::new();
    let request = agent
        .verify_all("docs", "site", DocumentationMap::default(), &Vec::new(), &params(), 1)
        .unwrap();
    assert_eq!(request.quality_scores.overall_quality, 800);
    assert_eq!(request.verification_results.skipped_checks, 5);
    assert_eq!(request.verification_results.successful_checks, 0);
    assert_eq!(request.verification_results.failed_checks, 0);
}

#[test]
fn verification_needs_both_paths_in_the_state() {
    let agent = DocVerifierAgent::new();
    let mut state = DocSyncState::fresh(0);
    match agent.handle_verify_event(verify_event(Vec::new()), &mut state, 1) {
        Err(DocVerifierError::VerificationError(detail)) => {
            assert_eq!(detail, "Source path not found in state")
        }
        other => panic!("expected a verification error, got {:?}", other),
    }
    assert_eq!(state.metadata.get("status"), Some(&"verifying".to_string()));
    state.metadata.set("source_path", "docs");
    match agent.handle_verify_event(verify_event(Vec::new()), &mut state, 1) {
        Err(DocVerifierError::VerificationError(detail)) => {
            assert_eq!(detail, "Target path not found in state")
        }
        other => panic!("expected a verification error, got {:?}", other),
    }
}

#[test]
fn event_with_another_payload_is_refused_by_the_verifier() {
    let agent = DocVerifierAgent::new();
    let mut state = state_with_paths();
    let event = DocSyncEvent::at(
        "docs-verify",
        DocSyncPayload::Start(StartPayload {
            source_path: String::new(),
            target_path: String::new(),
            scope: String::new(),
            options: StrMap::new(),
        }),
        "a",
        "b",
        "wf",
        0,
    );
    match agent.handle_verify_event(event, &mut state, 1) {
        Err(DocVerifierError::InvalidPayload(detail)) => assert_eq!(detail, "Expected Verify payload"),
        other => panic!("expected an invalid payload error, got {:?}", other),
    }
    assert_eq!(state.metadata.get("status"), None);
}

#[test]
fn verifier_errors_read_as_one_line() {
    assert_eq!(
        DocVerifierError::StateError(StateError::LockError("held".to_string())).message(),
        "State error: State lock error: held"
    );
    assert_eq!(DocVerifierError::EventSystemError("x".to_string()).message(), "Event system error: x");
    assert_eq!(DocVerifierError::InvalidPayload("x".to_string()).message(), "Invalid event payload: x");
    assert_eq!(DocVerifierError::VerificationError("x".to_string()).message(), "Verification error: x");
    assert_eq!(DocVerifierError::IoError("x".to_string()).message(), "IO error: x");
    assert_eq!(DocVerifierAgent::subscribed_events(), vec!["doc_sync.docs-verify"]);
}
