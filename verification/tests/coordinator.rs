use forge_agents::agents::doc_coordinator_agent::{
    all_flags_set, plan_all, CoordinatorStep, DocCoordinatorAgent, DocCoordinatorError,
    WorkflowPhase,
};
use forge_agents::events::doc_sync_events::{
    AnalysisReport, ContentAnalyzedPayload, ContentOperation, CssAnalyzedPayload, CssOperation,
    DocSourceFile, DocSyncEvent, DocSyncPayload, DocumentationMap, DocusaurusAnalyzedPayload,
    ExecutionCompletePayload, ExecutionLogEntry, ExecutionResults, QualityMetrics, StartPayload,
    StructureOperation, SyncOperation, UiAnalyzedPayload, UiOperation,
    VerificationCompletePayload, VerificationReport, VerificationResult, VerificationResults,
};
use forge_agents::events::{Event, EventError, EventPayload, EventSystem};
use forge_agents::state::doc_sync_state::{DocSyncState, StateError, SyncTask};
use forge_agents::str_map::StrMap;

fn report() -> AnalysisReport {
    AnalysisReport {
        total_items: 0,
        findings: Vec::new(),
        operations: Vec::new(),
        summary: String::new(),
    }
}

fn doc_map(note: &str) -> DocumentationMap {
    let mut map = DocumentationMap::default();
    map.metadata.set("note", note);
    map.source_files.insert(
        "intro.md".to_string(),
        DocSourceFile {
            path: "intro.md".to_string(),
            content_hash: "abc".to_string(),
            metadata: StrMap::new(),
            last_updated: 1,
        },
    );
    map
}

fn event(event_type: &str, payload: DocSyncPayload) -> DocSyncEvent {
    DocSyncEvent::at(event_type, payload, "someone", "doc-coordinator", "wf-1", 1)
}

fn content_op(path: &str) -> ContentOperation {
    ContentOperation {
        operation_type: "create".to_string(),
        source_path: "src".to_string(),
        target_path: path.to_string(),
        content: Some("text".to_string()),
        metadata: StrMap::new(),
    }
}

fn scores(overall: u32) -> QualityMetrics {
    QualityMetrics {
        content_quality: 1000,
        structure_quality: 800,
        ui_quality: 800,
        css_quality: 800,
        technical_quality: 1000,
        overall_quality: overall,
        metadata: StrMap::new(),
    }
}

fn pending() -> VerificationResult {
    VerificationResult {
        status: "pending".to_string(),
        issues_found: 0,
        critical_issues: 0,
        metadata: StrMap::new(),
    }
}

fn verified(overall: u32) -> DocSyncPayload {
    let mut check_status = StrMap::new();
    check_status.insert("content".to_string(), true);
    DocSyncPayload::VerificationComplete(VerificationCompletePayload {
        doc_map: doc_map("verified"),
        verification_results: VerificationResults {
            content_verification: pending(),
            structure_verification: pending(),
            ui_verification: pending(),
            css_verification: pending(),
            successful_checks: 2,
            failed_checks: 0,
            skipped_checks: 3,
            quality_metrics: scores(overall),
            metadata: StrMap::new(),
        },
        quality_scores: scores(overall),
        verification_report: VerificationReport {
            issues: Vec::new(),
            positives: Vec::new(),
            recommendations: Vec::new(),
            metadata: StrMap::new(),
        },
        verification_log: Vec::new(),
        check_status,
        improvement_recommendations: Vec::new(),
    })
}

fn task(id: &str, task_type: &str) -> SyncTask {
    SyncTask {
        task_id: id.to_string(),
        task_type: task_type.to_string(),
        status: "pending".to_string(),
        assigned_to: "x".to_string(),
        parameters: StrMap::new(),
        created_at: 1,
        updated_at: 1,
    }
}

fn started_state() -> DocSyncState {
    let agent = DocCoordinatorAgent::new();
    let (state, _) =
        agent.start_synchronization_at("wf-1", "docs", "site", "full", StrMap::new(), 10);
    state
}

#[test]
fn synchronization_begins_with_a_noted_state_and_a_start_event() {
    let agent = DocCoordinatorAgent::new();
    let mut options = StrMap::new();
    options.set("force", "yes");
    let (state, start) = agent.start_synchronization_at("wf-1", "docs", "site", "full", options, 10);
    assert_eq!(state.metadata.get("source_path"), Some(&"docs".to_string()));
    assert_eq!(state.metadata.get("target_path"), Some(&"site".to_string()));
    assert_eq!(state.metadata.get("scope"), Some(&"full".to_string()));
    assert_eq!(state.metadata.get("status"), Some(&"initializing".to_string()));
    assert_eq!(state.metadata.len(), 4);
    assert_eq!(state.last_updated, 10);
    assert_eq!(state.current_iteration, 1);
    assert_eq!(state.max_iterations, 5);
    assert_eq!(start.event_type, "docs-start");
    assert_eq!(start.source_agent, "user");
    assert_eq!(start.target_agent, "doc-coordinator");
    assert_eq!(start.correlation_id, "wf-1");
    assert_eq!(start.timestamp, 10);
    match start.payload {
        DocSyncPayload::Start(p) => {
            assert_eq!(p.source_path, "docs");
            assert_eq!(p.target_path, "site");
            assert_eq!(p.scope, "full");
            assert_eq!(p.options.get("force"), Some(&"yes".to_string()));
        }
        other => panic!("expected a start payload, got {:?}", other),
    }
    assert_eq!(agent.get_sync_status(&state).unwrap(), "initializing");
    assert_eq!(agent.get_sync_status(&DocSyncState::fresh(0)).unwrap(), "unknown");
}

#[test]
fn synchronization_with_a_fresh_id() {
    let agent = DocCoordinatorAgent::new();
    let (id, state, start) =
        agent.start_synchronization("docs", "site", "incremental", StrMap::new()).unwrap();
    assert_eq!(id.len(), 36);
    assert_eq!(start.correlation_id, id);
    assert_eq!(state.metadata.get("scope"), Some(&"incremental".to_string()));
    let (other, _, _) =
        agent.start_synchronization("docs", "site", "incremental", StrMap::new()).unwrap();
    assert_ne!(id, other);
    assert_eq!(DocCoordinatorAgent::fresh_task_suffix().len(), 36);
}

#[test]
fn start_enters_the_content_analysis() {
    let mut agent = DocCoordinatorAgent::new();
    let mut state = started_state();
    let start = event(
        "docs-start",
        DocSyncPayload::Start(StartPayload {
            source_path: "docs".to_string(),
            target_path: "site".to_string(),
            scope: "full".to_string(),
            options: StrMap::new(),
        }),
    );
    let sent = agent.handle_start_event(start, &mut state, "t1", 20).unwrap();
    assert_eq!(state.metadata.get("status"), Some(&"analyzing_content".to_string()));
    assert_eq!(state.pending_tasks.len(), 1);
    assert_eq!(state.pending_tasks[0].task_id, "content-analysis-t1");
    assert_eq!(state.pending_tasks[0].task_type, "content_analysis");
    assert_eq!(state.pending_tasks[0].status, "pending");
    assert_eq!(state.pending_tasks[0].assigned_to, "doc-content-syncer");
    assert_eq!(state.pending_tasks[0].created_at, 20);
    assert_eq!(state.pending_tasks[0].updated_at, 20);
    assert!(state.completed_tasks.is_empty());
    assert_eq!(sent.event_type, "docs-analyze-content");
    assert_eq!(sent.source_agent, "doc-coordinator");
    assert_eq!(sent.target_agent, "doc-content-syncer");
    assert_eq!(sent.correlation_id, "wf-1");
    assert_eq!(sent.timestamp, 20);
    match sent.payload {
        DocSyncPayload::AnalyzeContent(p) => {
            assert_eq!(p.source_path, "docs");
            let map = p.doc_map.unwrap();
            assert!(map.source_files.is_empty());
            assert!(map.metadata.is_empty());
        }
        other => panic!("expected an analyze-content payload, got {:?}", other),
    }
}

#[test]
fn finished_task_moves_from_pending_to_completed() {
    let mut state = DocSyncState::fresh(0);
    state.pending_tasks.push(task("a", "content_analysis"));
    state.pending_tasks.push(task("b", "other"));
    state.pending_tasks.push(task("c", "content_analysis"));
    state.completed_tasks.push(task("z", "earlier"));
    DocCoordinatorAgent::enter_phase(
        &mut state,
        WorkflowPhase::AnalyzingContent,
        WorkflowPhase::AnalyzingDocusaurus,
        "s",
        30,
    );
    let pending: Vec<&str> = state.pending_tasks.iter().map(|t| t.task_id.as_str()).collect();
    assert_eq!(pending, vec!["b", "docusaurus-analysis-s"]);
    let completed: Vec<&str> = state.completed_tasks.iter().map(|t| t.task_id.as_str()).collect();
    assert_eq!(completed, vec!["z", "a", "c"]);
    assert_eq!(state.completed_tasks[0].status, "pending");
    assert_eq!(state.completed_tasks[1].status, "completed");
    assert_eq!(state.completed_tasks[1].updated_at, 30);
    assert_eq!(state.completed_tasks[1].created_at, 1);
    assert_eq!(state.completed_tasks[2].status, "completed");
    assert_eq!(state.pending_tasks[1].assigned_to, "docusaurus-expert");
    assert_eq!(state.metadata.get("status"), Some(&"analyzing_docusaurus".to_string()));
    for pending in &state.pending_tasks {
        assert!(state.completed_tasks.iter().all(|done| done.task_id != pending.task_id));
    }
}

#[test]
fn last_phase_opens_no_task() {
    let mut state = DocSyncState::fresh(0);
    state.pending_tasks.push(task("v", "verification"));
    DocCoordinatorAgent::enter_phase(
        &mut state,
        WorkflowPhase::Verifying,
        WorkflowPhase::Complete,
        "s",
        30,
    );
    assert!(state.pending_tasks.is_empty());
    assert_eq!(state.completed_tasks.len(), 1);
    assert_eq!(state.metadata.get("status"), Some(&"complete".to_string()));
    assert_eq!(WorkflowPhase::Idle.status_word(), "initializing");
    assert_eq!(WorkflowPhase::Implementing.task_type_word(), "implementation");
    assert_eq!(WorkflowPhase::PlanningChanges.id_prefix_word(), "planning-");
    assert_eq!(WorkflowPhase::Executing.assignee_word(), "doc-runner");
    assert!(!WorkflowPhase::Complete.needs_task());
    assert!(WorkflowPhase::Verifying.needs_task());
}

#[test]
fn workflow_walks_from_start_to_completion() {
    let mut agent = DocCoordinatorAgent::new();
    let mut state = started_state();
    state.requirements_satisfied.insert("overall_quality".to_string(), true);
    let start = event(
        "docs-start",
        DocSyncPayload::Start(StartPayload {
            source_path: "docs".to_string(),
            target_path: "site".to_string(),
            scope: "full".to_string(),
            options: StrMap::new(),
        }),
    );
    agent.handle_event(Event::DocSync(start), &mut state, "1", 100).unwrap().unwrap();

    let analyzed = event(
        "docs-content-analyzed",
        DocSyncPayload::ContentAnalyzed(ContentAnalyzedPayload {
            doc_map: doc_map("content"),
            content_operations: vec![content_op("a.md"), content_op("b.md")],
            analysis_report: report(),
        }),
    );
    let sent = agent.handle_event(Event::DocSync(analyzed), &mut state, "2", 101).unwrap().unwrap();
    assert_eq!(sent.event_type, "docs-analyze-docusaurus");
    assert_eq!(sent.target_agent, "docusaurus-expert");
    match sent.payload {
        DocSyncPayload::AnalyzeDocusaurus(p) => {
            assert_eq!(p.target_path, "site");
            assert_eq!(p.doc_map.unwrap().metadata.get("note"), Some(&"content".to_string()));
        }
        other => panic!("expected an analyze-docusaurus payload, got {:?}", other),
    }
    assert_eq!(state.master_doc_map.metadata.get("note"), Some(&"content".to_string()));
    assert_eq!(
        state.master_doc_map.source_files.get("intro.md").map(|f| f.content_hash.as_str()),
        Some("abc")
    );
    assert_eq!(agent.planned_count(), 2);
    assert_eq!(state.metadata.get("status"), Some(&"analyzing_docusaurus".to_string()));

    let analyzed = event(
        "docs-docusaurus-analyzed",
        DocSyncPayload::DocusaurusAnalyzed(DocusaurusAnalyzedPayload {
            doc_map: doc_map("structure"),
            structure_operations: vec![StructureOperation {
                operation_type: "update_sidebar".to_string(),
                target_path: "sidebars.js".to_string(),
                content: Some("s".to_string()),
                metadata: StrMap::new(),
            }],
            analysis_report: report(),
        }),
    );
    let sent = agent.handle_event(Event::DocSync(analyzed), &mut state, "3", 102).unwrap().unwrap();
    assert_eq!(sent.event_type, "docs-analyze-ui");
    assert_eq!(sent.target_agent, "ui-design-expert");

    let analyzed = event(
        "docs-ui-analyzed",
        DocSyncPayload::UiAnalyzed(UiAnalyzedPayload {
            doc_map: doc_map("ui"),
            ui_operations: vec![UiOperation {
                operation_type: "add_component".to_string(),
                target_path: "c.jsx".to_string(),
                content: Some("c".to_string()),
                metadata: StrMap::new(),
            }],
            analysis_report: report(),
        }),
    );
    let sent = agent.handle_event(Event::DocSync(analyzed), &mut state, "4", 103).unwrap().unwrap();
    assert_eq!(sent.event_type, "docs-analyze-css");
    assert_eq!(sent.target_agent, "css-expert");
    assert_eq!(agent.planned_count(), 4);

    let analyzed = event(
        "docs-css-analyzed",
        DocSyncPayload::CssAnalyzed(CssAnalyzedPayload {
            doc_map: doc_map("css"),
            css_operations: vec![CssOperation {
                operation_type: "update_style".to_string(),
                target_path: "x.css".to_string(),
                content: Some("x".to_string()),
                metadata: StrMap::new(),
            }],
            analysis_report: report(),
        }),
    );
    let sent = agent.handle_event(Event::DocSync(analyzed), &mut state, "5", 104).unwrap().unwrap();
    assert_eq!(sent.event_type, "docs-execute");
    assert_eq!(sent.target_agent, "doc-runner");
    assert_eq!(agent.planned_count(), 0);
    assert_eq!(state.metadata.get("status"), Some(&"executing".to_string()));
    match sent.payload {
        DocSyncPayload::Execute(p) => {
            let paths: Vec<String> =
                p.operations.iter().map(|o| o.target_path().clone()).collect();
            assert_eq!(paths, vec!["a.md", "b.md", "sidebars.js", "c.jsx", "x.css"]);
            assert!(matches!(p.operations[0], SyncOperation::ContentOperation(_)));
            assert!(matches!(p.operations[2], SyncOperation::StructureOperation(_)));
            assert!(matches!(p.operations[3], SyncOperation::UiOperation(_)));
            assert!(matches!(p.operations[4], SyncOperation::CssOperation(_)));
            assert!(!p.execution_params.dry_run);
            assert!(!p.execution_params.backup);
            assert_eq!(p.execution_params.max_parallel_operations, 1);
            assert_eq!(p.doc_map.metadata.get("note"), Some(&"css".to_string()));
        }
        other => panic!("expected an execute payload, got {:?}", other),
    }

    let executed = event(
        "docs-execution-complete",
        DocSyncPayload::ExecutionComplete(ExecutionCompletePayload {
            doc_map: doc_map("executed"),
            execution_results: ExecutionResults {
                successful_operations: 5,
                failed_operations: 0,
                skipped_operations: 0,
                metadata: StrMap::new(),
            },
            execution_log: vec![ExecutionLogEntry {
                operation_type: "create".to_string(),
                status: "success".to_string(),
                target_path: "a.md".to_string(),
                error_message: None,
                metadata: StrMap::new(),
                timestamp: 104,
            }],
        }),
    );
    let sent = agent.handle_event(Event::DocSync(executed), &mut state, "6", 105).unwrap().unwrap();
    assert_eq!(sent.event_type, "docs-verify");
    assert_eq!(sent.target_agent, "doc-verifier");
    match sent.payload {
        DocSyncPayload::Verify(p) => {
            assert_eq!(p.execution_log.len(), 1);
            assert!(p.verification_params.verify_content);
            assert!(p.verification_params.verify_structure);
            assert!(p.verification_params.verify_ui);
            assert!(p.verification_params.verify_css);
        }
        other => panic!("expected a verify payload, got {:?}", other),
    }
    assert_eq!(state.metadata.get("status"), Some(&"verifying".to_string()));

    let sent = agent
        .handle_event(
            Event::DocSync(event("docs-verification-complete", verified(910))),
            &mut state,
            "7",
            106,
        )
        .unwrap()
        .unwrap();
    assert_eq!(sent.event_type, "docs-complete");
    assert_eq!(sent.timestamp, 106);
    match sent.payload {
        DocSyncPayload::Complete(p) => {
            assert_eq!(p.quality_scores.overall_quality, 910);
            assert_eq!(p.summary_report.overall_status, "success");
        }
        other => panic!("expected a complete payload, got {:?}", other),
    }
    assert_eq!(state.metadata.get("status"), Some(&"complete".to_string()));
    assert!(state.pending_tasks.is_empty());
    let done: Vec<&str> = state.completed_tasks.iter().map(|t| t.task_type.as_str()).collect();
    assert_eq!(
        done,
        vec![
            "content_analysis",
            "docusaurus_analysis",
            "ui_analysis",
            "css_analysis",
            "execution",
            "verification"
        ]
    );
    assert!(state.completed_tasks.iter().all(|t| t.status == "completed"));
    assert_eq!(state.current_iteration, 1);
    assert_eq!(state.iteration_history.len(), 1);
    assert_eq!(state.iteration_history[0].tasks_completed, 5);
    assert_eq!(state.iteration_history[0].tasks_pending, 1);
    assert_eq!(
        state.iteration_history[0].quality_scores.as_ref().map(|q| q.overall_quality),
        Some(910)
    );
    assert_eq!(state.quality_scores.as_ref().map(|q| q.overall_quality), Some(910));
    assert_eq!(state.requirements_satisfied.get("overall_quality"), Some(&true));
}

#[test]
fn unmet_requirement_asks_for_a_plan_until_the_cap() {
    let mut agent = DocCoordinatorAgent::new();
    let mut state = started_state();
    state.max_iterations = 2;
    state.requirements_satisfied.insert("overall_quality".to_string(), true);
    let sent = agent
        .handle_verification_complete_event(
            event("docs-verification-complete", verified(500)),
            &mut state,
            "first",
            50,
        )
        .unwrap();
    assert_eq!(sent.event_type, "docs-plan-changes");
    assert_eq!(sent.target_agent, "doc-coordinator");
    match sent.payload {
        DocSyncPayload::PlanChanges(p) => {
            assert_eq!(p.iteration_number, 2);
            assert_eq!(p.requirements.get("overall_quality"), Some(&false));
        }
        other => panic!("expected a plan-changes payload, got {:?}", other),
    }
    assert_eq!(state.current_iteration, 2);
    assert_eq!(state.metadata.get("status"), Some(&"planning_changes".to_string()));
    assert_eq!(state.pending_tasks.len(), 1);
    assert_eq!(state.pending_tasks[0].task_id, "planning-first");

    state.requirements_satisfied.insert("overall_quality".to_string(), true);
    let sent = agent
        .handle_verification_complete_event(
            event("docs-verification-complete", verified(500)),
            &mut state,
            "second",
            60,
        )
        .unwrap();
    assert_eq!(sent.event_type, "docs-complete");
    match sent.payload {
        DocSyncPayload::Complete(p) => assert_eq!(p.summary_report.overall_status, "partial"),
        other => panic!("expected a complete payload, got {:?}", other),
    }
    assert_eq!(state.current_iteration, 2);
    assert_eq!(state.iteration_history.len(), 2);
    assert_eq!(state.metadata.get("status"), Some(&"complete".to_string()));
}

#[test]
fn cap_of_one_stops_at_the_first_verification() {
    let mut agent = DocCoordinatorAgent::new();
    let mut state = started_state();
    state.max_iterations = 1;
    state.current_iteration = 1;
    state.requirements_satisfied.insert("ui".to_string(), true);
    let sent = agent
        .handle_verification_complete_event(
            event("docs-verification-complete", verified(1000)),
            &mut state,
            "x",
            5,
        )
        .unwrap();
    assert_eq!(sent.event_type, "docs-complete");
    assert_eq!(state.current_iteration, 1);
    assert_eq!(state.requirements_satisfied.get("ui"), Some(&false));
}

#[test]
fn analysis_without_a_target_path_stops_the_workflow() {
    let mut agent = DocCoordinatorAgent::new();
    let mut state = DocSyncState::fresh(0);
    let analyzed = event(
        "docs-content-analyzed",
        DocSyncPayload::ContentAnalyzed(ContentAnalyzedPayload {
            doc_map: doc_map("content"),
            content_operations: vec![content_op("a.md")],
            analysis_report: report(),
        }),
    );
    match agent.handle_content_analyzed_event(analyzed, &mut state, "s", 1) {
        Err(DocCoordinatorError::CoordinationError(detail)) => {
            assert_eq!(detail, "Target path not found in state")
        }
        other => panic!("expected a coordination error, got {:?}", other),
    }
    assert_eq!(state.metadata.get("status"), Some(&"analyzing_docusaurus".to_string()));
    assert_eq!(state.master_doc_map.metadata.get("note"), Some(&"content".to_string()));
}

#[test]
fn events_with_the_wrong_payload_are_refused_by_each_step() {
    let wrong = || {
        DocSyncPayload::Start(StartPayload {
            source_path: String::new(),
            target_path: String::new(),
            scope: String::new(),
            options: StrMap::new(),
        })
    };
    let cases = [
        ("docs-content-analyzed", "Expected ContentAnalyzed payload"),
        ("docs-docusaurus-analyzed", "Expected DocusaurusAnalyzed payload"),
        ("docs-ui-analyzed", "Expected UiAnalyzed payload"),
        ("docs-css-analyzed", "Expected CssAnalyzed payload"),
        ("docs-execution-complete", "Expected ExecutionComplete payload"),
        ("docs-verification-complete", "Expected VerificationComplete payload"),
    ];
    for (event_type, message) in cases {
        let mut agent = DocCoordinatorAgent::new();
        let mut state = started_state();
        match agent.handle_event(Event::DocSync(event(event_type, wrong())), &mut state, "s", 1) {
            Err(DocCoordinatorError::InvalidPayload(detail)) => assert_eq!(detail, message),
            other => panic!("expected an invalid payload error, got {:?}", other),
        }
        assert_eq!(state.metadata.get("status"), Some(&"initializing".to_string()));
        assert!(state.pending_tasks.is_empty());
    }
    let mut agent = DocCoordinatorAgent::new();
    let mut state = started_state();
    match agent.handle_start_event(event("docs-start", verified(1)), &mut state, "s", 1) {
        Err(DocCoordinatorError::InvalidPayload(detail)) => {
            assert_eq!(detail, "Expected Start payload")
        }
        other => panic!("expected an invalid payload error, got {:?}", other),
    }
}

#[test]
fn events_are_routed_by_their_type() {
    assert_eq!(DocCoordinatorAgent::route("docs-start"), Some(CoordinatorStep::Start));
    assert_eq!(
        DocCoordinatorAgent::route("docs-content-analyzed"),
        Some(CoordinatorStep::ContentAnalyzed)
    );
    assert_eq!(
        DocCoordinatorAgent::route("docs-docusaurus-analyzed"),
        Some(CoordinatorStep::DocusaurusAnalyzed)
    );
    assert_eq!(DocCoordinatorAgent::route("docs-ui-analyzed"), Some(CoordinatorStep::UiAnalyzed));
    assert_eq!(DocCoordinatorAgent::route("docs-css-analyzed"), Some(CoordinatorStep::CssAnalyzed));
    assert_eq!(
        DocCoordinatorAgent::route("docs-execution-complete"),
        Some(CoordinatorStep::ExecutionComplete)
    );
    assert_eq!(
        DocCoordinatorAgent::route("docs-verification-complete"),
        Some(CoordinatorStep::VerificationComplete)
    );
    assert_eq!(DocCoordinatorAgent::route("docs-execute"), None);
    assert_eq!(DocCoordinatorAgent::route("doc_sync.docs-start"), None);

    let mut agent = DocCoordinatorAgent::new();
    let mut state = started_state();
    let other = event("docs-execute", verified(1));
    assert!(agent.handle_event(Event::DocSync(other), &mut state, "s", 1).unwrap().is_none());
    let custom = Event::Custom { name: "docs-start".to_string(), payload: EventPayload::empty() };
    assert!(agent.handle_event(custom, &mut state, "s", 1).unwrap().is_none());
    assert_eq!(state.metadata.get("status"), Some(&"initializing".to_string()));
}

#[test]
fn coordinator_subscribes_to_its_seven_events() {
    type Handler = Box<dyn Fn(&Event) -> Result<(), EventError>>;
    let names = DocCoordinatorAgent::subscribed_events();
    assert_eq!(
        names,
        vec![
            "doc_sync.docs-start",
            "doc_sync.docs-content-analyzed",
            "doc_sync.docs-docusaurus-analyzed",
            "doc_sync.docs-ui-analyzed",
            "doc_sync.docs-css-analyzed",
            "doc_sync.docs-execution-complete",
            "doc_sync.docs-verification-complete"
        ]
    );
    let mut bus: EventSystem<Handler> = EventSystem::new();
    let make = |_: &str| -> Handler { Box::new(|_: &Event| Ok(())) };
    DocCoordinatorAgent::new().initialize(&mut bus, &make).unwrap();
    for name in names {
        assert_eq!(bus.handler_count(name), 1);
        let bare = name.strip_prefix("doc_sync.").unwrap();
        assert!(DocCoordinatorAgent::route(bare).is_some());
        let typed = event(bare, verified(1));
        assert_eq!(Event::DocSync(typed).name(), name);
    }
    assert_eq!(bus.handler_count("doc_sync.docs-execute"), 0);
    assert_eq!(bus.handler_count("docs-start"), 0);
}

#[test]
fn operations_are_planned_in_order() {
    let mut planned = vec![SyncOperation::ContentOperation(content_op("first.md"))];
    plan_all(&mut planned, vec![content_op("a.md"), content_op("b.md"), content_op("c.md")]);
    plan_all(&mut planned, Vec::<CssOperation>::new());
    let paths: Vec<String> = planned.iter().map(|o| o.target_path().clone()).collect();
    assert_eq!(paths, vec!["first.md", "a.md", "b.md", "c.md"]);
    assert_eq!(planned[1].operation_type(), "create");
    assert_eq!(planned[1].content(), &Some("text".to_string()));
}

#[test]
fn flags_are_all_set_only_without_a_false_one() {
    let mut flags = StrMap::new();
    assert!(all_flags_set(&flags));
    flags.insert("a".to_string(), true);
    assert!(all_flags_set(&flags));
    flags.insert("b".to_string(), false);
    assert!(!all_flags_set(&flags));
    flags.insert("b".to_string(), true);
    assert!(all_flags_set(&flags));
}

#[test]
fn coordinator_errors_read_as_one_line() {
    assert_eq!(
        DocCoordinatorError::StateError(StateError::FileIo("x".to_string())).message(),
        "State error: File IO error: x"
    );
    assert_eq!(
        DocCoordinatorError::EventSystemError("x".to_string()).message(),
        "Event system error: x"
    );
    assert_eq!(
        DocCoordinatorError::InvalidPayload("x".to_string()).message(),
        "Invalid event payload: x"
    );
    assert_eq!(
        DocCoordinatorError::CoordinationError("x".to_string()).message(),
        "Coordination error: x"
    );
}
