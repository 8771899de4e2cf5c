use forge_agents::agents::doc_runner_agent::{
    progress_due, progress_line, summary_line, DocRunnerAgent, DocRunnerError, FileAction,
};
use forge_agents::events::doc_sync_events::{
    ContentOperation, CssOperation, DocSyncEvent, DocSyncPayload, DocumentationMap,
    ExecutePayload, ExecutionParams, ExecutionResults, StartPayload, StructureOperation,
    SyncOperation, UiOperation,
};
use forge_agents::events::{Event, EventError, EventSystem};
use forge_agents::state::doc_sync_state::{DocSyncState, StateError};
use forge_agents::str_map::StrMap;
use std::cell::RefCell;

fn content(kind: &str, path: &str, text: Option<&str>) -> SyncOperation {
    SyncOperation::ContentOperation(ContentOperation {
        operation_type: kind.to_string(),
        source_path: "src.md".to_string(),
        target_path: path.to_string(),
        content: text.map(|t| t.to_string()),
        metadata: StrMap::new(),
    })
}

fn structure(kind: &str, path: &str, text: Option<&str>) -> SyncOperation {
    SyncOperation::StructureOperation(StructureOperation {
        operation_type: kind.to_string(),
        target_path: path.to_string(),
        content: text.map(|t| t.to_string()),
        metadata: StrMap::new(),
    })
}

fn ui(kind: &str, path: &str, text: Option<&str>) -> SyncOperation {
    SyncOperation::UiOperation(UiOperation {
        operation_type: kind.to_string(),
        target_path: path.to_string(),
        content: text.map(|t| t.to_string()),
        metadata: StrMap::new(),
    })
}

fn css(kind: &str, path: &str, text: Option<&str>) -> SyncOperation {
    SyncOperation::CssOperation(CssOperation {
        operation_type: kind.to_string(),
        target_path: path.to_string(),
        content: text.map(|t| t.to_string()),
        metadata: StrMap::new(),
    })
}

fn execute_event(operations: Vec<SyncOperation>, dry_run: bool) -> DocSyncEvent {
    DocSyncEvent::at(
        "docs-execute",
        DocSyncPayload::Execute(ExecutePayload {
            doc_map: DocumentationMap::default(),
            operations,
            execution_params: ExecutionParams {
                dry_run,
                max_parallel_operations: 1,
                backup: false,
                metadata: StrMap::new(),
            },
        }),
        "doc-coordinator",
        "doc-runner",
        "wf-1",
        1,
    )
}

fn describe(action: &FileAction) -> String {
    match action {
        FileAction::Write { path, content, create_parents } => {
            format!("write {} {:?} parents={}", path, content, create_parents)
        }
        FileAction::Remove { path } => format!("remove {}", path),
    }
}

fn validation_message(result: Result<(), DocRunnerError>) -> String {
    match result {
        Err(DocRunnerError::ValidationError(detail)) => detail,
        other => panic!("expected a validation error, got {:?}", other),
    }
}

#[test]
fn traversal_is_refused_for_every_variant() {
    let agent = DocRunnerAgent::new();
    let path = "docs/../secret.md";
    let wanted = "Path contains '..' which is not allowed: docs/../secret.md";
    for exists in [false, true] {
        for op in [
            content("create", path, Some("x")),
            content("update", path, Some("x")),
            content("delete", path, None),
            content("rename", path, None),
            structure("update_sidebar", path, Some("x")),
            ui("add_component", path, Some("x")),
            css("update_style", path, Some("x")),
        ] {
            assert_eq!(validation_message(agent.validate_operation(&op, exists)), wanted);
        }
    }
    assert!(agent.validate_operation(&content("create", "..", Some("x")), false).is_err());
    assert!(agent.validate_operation(&content("create", "a..b", Some("x")), false).is_err());
    assert!(agent.validate_operation(&content("create", "a.b/.c", Some("x")), false).is_ok());
}

#[test]
fn content_operations_are_checked_against_the_file_system() {
    let agent = DocRunnerAgent::new();
    assert!(agent.validate_operation(&content("create", "/tmp/x.md", Some("hi")), false).is_ok());
    assert_eq!(
        validation_message(agent.validate_operation(&content("create", "/tmp/x.md", Some("hi")), true)),
        "Cannot create file that already exists: /tmp/x.md"
    );
    assert!(agent.validate_operation(&content("update", "/tmp/x.md", Some("hi")), true).is_ok());
    assert_eq!(
        validation_message(agent.validate_operation(&content("update", "/tmp/missing.md", Some("x")), false)),
        "Cannot update non-existent file: /tmp/missing.md"
    );
    assert!(agent.validate_operation(&content("delete", "/tmp/x.md", None), true).is_ok());
    assert_eq!(
        validation_message(agent.validate_operation(&content("delete", "/tmp/x.md", None), false)),
        "Cannot delete non-existent file: /tmp/x.md"
    );
    assert_eq!(
        validation_message(agent.validate_operation(&content("create", "/tmp/x.md", None), false)),
        "Content is required for create operation on /tmp/x.md"
    );
    assert_eq!(
        validation_message(agent.validate_operation(&content("update", "/tmp/x.md", None), true)),
        "Content is required for update operation on /tmp/x.md"
    );
    assert!(agent.validate_operation(&content("archive", "/tmp/x.md", None), false).is_ok());
}

#[test]
fn other_variants_need_content_for_their_update_kinds() {
    let agent = DocRunnerAgent::new();
    assert_eq!(
        validation_message(agent.validate_operation(&structure("update_sidebar", "s.js", None), false)),
        "Content is required for update_sidebar operation on s.js"
    );
    assert_eq!(
        validation_message(agent.validate_operation(&structure("update_navigation", "n.js", None), true)),
        "Content is required for update_navigation operation on n.js"
    );
    assert!(agent.validate_operation(&structure("update_sidebar", "s.js", Some("x")), true).is_ok());
    assert_eq!(
        validation_message(agent.validate_operation(&ui("update_component", "c.jsx", None), false)),
        "Content is required for update_component operation on c.jsx"
    );
    assert!(agent.validate_operation(&ui("add_component", "c.jsx", None), false).is_ok());
    assert_eq!(
        validation_message(agent.validate_operation(&css("update_style", "a.css", None), false)),
        "Content is required for update_style operation on a.css"
    );
    assert!(agent.validate_operation(&css("add_style", "a.css", None), false).is_ok());
}

#[test]
fn batch_validation_reports_the_first_invalid_operation() {
    let agent = DocRunnerAgent::new();
    let operations = vec![
        content("create", "a.md", Some("a")),
        content("update", "b.md", Some("b")),
        content("delete", "../c.md", None),
    ];
    assert!(agent.validate_all(&operations, &vec![false, true, true]).is_err());
    assert_eq!(
        validation_message(agent.validate_all(&operations, &vec![false, false, true])),
        "Cannot update non-existent file: b.md"
    );
    assert_eq!(
        validation_message(agent.validate_all(&operations, &vec![false])),
        "Cannot update non-existent file: b.md"
    );
    assert!(agent.validate_all(&operations[..2].to_vec(), &vec![false, true]).is_ok());
    assert!(agent.validate_all(&Vec::new(), &Vec::new()).is_ok());
}

#[test]
fn plans_say_what_to_do_to_the_file_system() {
    let agent = DocRunnerAgent::new();
    let plan = |op: &SyncOperation| describe(&agent.plan_operation(op).unwrap());
    assert_eq!(plan(&content("create", "d/x.md", Some("hi"))), "write d/x.md \"hi\" parents=true");
    assert_eq!(plan(&content("update", "d/x.md", Some("ho"))), "write d/x.md \"ho\" parents=false");
    assert_eq!(plan(&content("delete", "d/x.md", None)), "remove d/x.md");
    assert_eq!(plan(&content("delete", "d/x.md", Some("ignored"))), "remove d/x.md");
    assert_eq!(plan(&structure("update_navigation", "n.js", Some("n"))), "write n.js \"n\" parents=true");
    assert_eq!(plan(&ui("add_component", "c.jsx", Some("c"))), "write c.jsx \"c\" parents=true");
    assert_eq!(plan(&css("add_style", "a.css", Some("a"))), "write a.css \"a\" parents=true");
    match agent.plan_operation(&content("move", "x.md", Some("x"))) {
        Err(DocRunnerError::ExecutionError(detail)) => {
            assert_eq!(detail, "Unsupported operation type: move")
        }
        other => panic!("expected an execution error, got {:?}", other),
    }
    match agent.plan_operation(&css("create", "x.css", Some("x"))) {
        Err(DocRunnerError::ExecutionError(detail)) => {
            assert_eq!(detail, "Unsupported operation type: create")
        }
        other => panic!("expected an execution error, got {:?}", other),
    }
    match agent.plan_operation(&ui("add_component", "c.jsx", None)) {
        Err(DocRunnerError::ExecutionError(detail)) => {
            assert_eq!(detail, "Content is required for add_component operation on c.jsx")
        }
        other => panic!("expected an execution error, got {:?}", other),
    }
}

#[test]
fn create_of_an_absent_file_is_executed_and_counted() {
    let agent = DocRunnerAgent::new();
    let done = RefCell::new(Vec::new());
    let perform = |action: &FileAction| -> Result<(), String> {
        done.borrow_mut().push(describe(action));
        Ok(())
    };
    let mut state = DocSyncState::fresh(0);
    let event = execute_event(vec![content("create", "/tmp/x.md", Some("hi"))], false);
    let (sent, progress) = agent
        .handle_execute_event(event, &mut state, &vec![false], &perform, 77)
        .unwrap();
    assert_eq!(*done.borrow(), vec!["write /tmp/x.md \"hi\" parents=true".to_string()]);
    assert!(progress.is_empty());
    assert_eq!(sent.event_type, "docs-execution-complete");
    assert_eq!(sent.source_agent, "doc-runner");
    assert_eq!(sent.target_agent, "doc-coordinator");
    assert_eq!(sent.correlation_id, "wf-1");
    assert_eq!(sent.timestamp, 77);
    match sent.payload {
        DocSyncPayload::ExecutionComplete(p) => {
            assert_eq!(p.execution_results.successful_operations, 1);
            assert_eq!(p.execution_results.failed_operations, 0);
            assert_eq!(p.execution_results.skipped_operations, 0);
            assert_eq!(p.execution_log.len(), 1);
            assert_eq!(p.execution_log[0].operation_type, "create");
            assert_eq!(p.execution_log[0].status, "success");
            assert_eq!(p.execution_log[0].target_path, "/tmp/x.md");
            assert_eq!(p.execution_log[0].error_message, None);
            assert_eq!(p.execution_log[0].timestamp, 77);
        }
        other => panic!("expected an execution-complete payload, got {:?}", other),
    }
    assert_eq!(state.metadata.get("status"), Some(&"execution_complete".to_string()));
    assert_eq!(
        state.metadata.get("execution_summary"),
        Some(&"1 succeeded, 0 failed, 0 skipped".to_string())
    );
}

#[test]
fn update_of_a_missing_file_refuses_the_whole_batch() {
    let agent = DocRunnerAgent::new();
    let done = RefCell::new(Vec::new());
    let perform = |action: &FileAction| -> Result<(), String> {
        done.borrow_mut().push(describe(action));
        Ok(())
    };
    let mut state = DocSyncState::fresh(0);
    let event = execute_event(
        vec![
            content("create", "/tmp/fine.md", Some("ok")),
            content("update", "/tmp/missing.md", Some("x")),
        ],
        false,
    );
    let outcome = agent.handle_execute_event(event, &mut state, &vec![false, false], &perform, 1);
    match outcome {
        Err(DocRunnerError::ValidationError(detail)) => {
            assert_eq!(detail, "Cannot update non-existent file: /tmp/missing.md")
        }
        other => panic!("expected a validation error, got {:?}", other),
    }
    assert!(done.borrow().is_empty());
    assert_eq!(state.metadata.get("status"), Some(&"executing".to_string()));
    assert_eq!(state.metadata.get("execution_summary"), None);
}

#[test]
fn dry_run_skips_everything_and_touches_nothing() {
    let agent = DocRunnerAgent::new();
    let done = RefCell::new(Vec::new());
    let perform = |action: &FileAction| -> Result<(), String> {
        done.borrow_mut().push(describe(action));
        Ok(())
    };
    let mut state = DocSyncState::fresh(0);
    let operations = vec![
        content("create", "a.md", Some("a")),
        content("delete", "b.md", None),
        structure("update_sidebar", "s.js", Some("s")),
        ui("add_component", "c.jsx", Some("c")),
        css("update_style", "x.css", Some("x")),
        content("update", "d.md", Some("d")),
    ];
    let exists = vec![false, true, false, false, false, true];
    let (sent, progress) = agent
        .handle_execute_event(execute_event(operations, true), &mut state, &exists, &perform, 5)
        .unwrap();
    assert!(done.borrow().is_empty());
    assert!(progress.is_empty());
    match sent.payload {
        DocSyncPayload::ExecutionComplete(p) => {
            assert_eq!(p.execution_results.successful_operations, 0);
            assert_eq!(p.execution_results.failed_operations, 0);
            assert_eq!(p.execution_results.skipped_operations, 6);
            assert_eq!(p.execution_log.len(), 6);
            for entry in &p.execution_log {
                assert_eq!(entry.status, "skipped");
                assert_eq!(entry.error_message, None);
                assert_eq!(entry.metadata.get("reason"), Some(&"dry_run".to_string()));
                assert_eq!(entry.timestamp, 5);
            }
            assert_eq!(p.execution_log[1].operation_type, "delete");
            assert_eq!(p.execution_log[1].target_path, "b.md");
            assert_eq!(p.execution_log[4].operation_type, "update_style");
        }
        other => panic!("expected an execution-complete payload, got {:?}", other),
    }
    assert_eq!(
        state.metadata.get("execution_summary"),
        Some(&"0 succeeded, 0 failed, 6 skipped".to_string())
    );
    let run = agent.dry_run(&vec![content("create", "a.md", Some("a"))], 9);
    assert_eq!(run.results.skipped_operations, 1);
    assert_eq!(run.log[0].status, "skipped");
}

#[test]
fn failed_operation_is_logged_and_the_rest_still_runs() {
    let agent = DocRunnerAgent::new();
    let done = RefCell::new(Vec::new());
    let perform = |action: &FileAction| -> Result<(), String> {
        done.borrow_mut().push(describe(action));
        match action {
            FileAction::Remove { .. } => Err("permission denied".to_string()),
            _ => Ok(()),
        }
    };
    let operations = vec![
        content("create", "a.md", Some("a")),
        content("delete", "b.md", None),
        content("publish", "c.md", Some("c")),
        css("add_style", "d.css", Some("d")),
    ];
    let run = agent.run_operations(&operations, &perform, 3);
    assert_eq!(
        *done.borrow(),
        vec![
            "write a.md \"a\" parents=true".to_string(),
            "remove b.md".to_string(),
            "write d.css \"d\" parents=true".to_string(),
        ]
    );
    assert_eq!(run.results.successful_operations, 2);
    assert_eq!(run.results.failed_operations, 2);
    assert_eq!(run.results.skipped_operations, 0);
    let statuses: Vec<&str> = run.log.iter().map(|e| e.status.as_str()).collect();
    assert_eq!(statuses, vec!["success", "failure", "failure", "success"]);
    assert_eq!(
        run.log[1].error_message,
        Some("Error executing operation: IO error: permission denied".to_string())
    );
    assert_eq!(
        run.log[2].error_message,
        Some("Error executing operation: Execution error: Unsupported operation type: publish".to_string())
    );
    assert_eq!(run.log[2].operation_type, "publish");
    assert_eq!(run.log[2].target_path, "c.md");
    assert!(run.progress.is_empty());
}

#[test]
fn progress_is_reported_after_every_fifth_operation() {
    let agent = DocRunnerAgent::new();
    let perform = |action: &FileAction| -> Result<(), String> {
        match action {
            FileAction::Write { path, .. } if path == "f3.md" => Err("full".to_string()),
            _ => Ok(()),
        }
    };
    let mut operations = Vec::new();
    for i in 0..11 {
        operations.push(content("create", &format!("f{}.md", i), Some("x")));
    }
    let run = agent.run_operations(&operations, &perform, 0);
    assert_eq!(
        run.progress,
        vec![
            "Progress: 5/11 operations completed (4 succeeded, 1 failed, 0 skipped)".to_string(),
            "Progress: 10/11 operations completed (9 succeeded, 1 failed, 0 skipped)".to_string(),
        ]
    );
    assert!(progress_due(0));
    assert!(!progress_due(4));
    assert!(progress_due(5));
    assert!(!progress_due(6));
    assert!(progress_due(10));
    let results = ExecutionResults {
        successful_operations: 12,
        failed_operations: 3,
        skipped_operations: 0,
        metadata: StrMap::new(),
    };
    assert_eq!(
        progress_line(20, &results),
        "Progress: 15/20 operations completed (12 succeeded, 3 failed, 0 skipped)"
    );
    assert_eq!(summary_line(&results), "12 succeeded, 3 failed, 0 skipped");
}

#[test]
fn execute_operation_reports_what_perform_gave() {
    let agent = DocRunnerAgent::new();
    let ok = |_: &FileAction| -> Result<(), String> { Ok(()) };
    let bad = |_: &FileAction| -> Result<(), String> { Err("nope".to_string()) };
    let op = content("update", "x.md", Some("x"));
    let result = agent.execute_operation(&op, &ok, 11).unwrap();
    assert_eq!(result.operation_type, "update");
    assert_eq!(result.status, "success");
    assert_eq!(result.target_path, "x.md");
    assert_eq!(result.timestamp, 11);
    match agent.execute_operation(&op, &bad, 11) {
        Err(DocRunnerError::IoError(detail)) => assert_eq!(detail, "nope"),
        other => panic!("expected an IO error, got {:?}", other),
    }
    let entry = agent.record_outcome(&op, Err(DocRunnerError::IoError("nope".to_string())), 12);
    assert_eq!(entry.status, "failure");
    assert_eq!(entry.timestamp, 12);
    assert_eq!(entry.error_message, Some("Error executing operation: IO error: nope".to_string()));
}

#[test]
fn event_with_another_payload_is_refused_by_the_runner() {
    let agent = DocRunnerAgent::new();
    let perform = |_: &FileAction| -> Result<(), String> { Ok(()) };
    let mut state = DocSyncState::fresh(0);
    let event = DocSyncEvent::at(
        "docs-execute",
        DocSyncPayload::Start(StartPayload {
            source_path: String::new(),
            target_path: String::new(),
            scope: String::new(),
            options: StrMap::new(),
        }),
        "a",
        "b",
        "wf",
        0,
    );
    match agent.handle_execute_event(event, &mut state, &Vec::new(), &perform, 0) {
        Err(DocRunnerError::InvalidPayload(detail)) => assert_eq!(detail, "Expected Execute payload"),
        other => panic!("expected an invalid payload error, got {:?}", other),
    }
    assert!(state.metadata.is_empty());
}

#[test]
fn runner_errors_read_as_one_line() {
    assert_eq!(
        DocRunnerError::StateError(StateError::NotFound("wf".to_string())).message(),
        "State error: State not found: wf"
    );
    assert_eq!(DocRunnerError::EventSystemError("x".to_string()).message(), "Event system error: x");
    assert_eq!(DocRunnerError::InvalidPayload("x".to_string()).message(), "Invalid event payload: x");
    assert_eq!(DocRunnerError::FileOperationError("x".to_string()).message(), "File operation error: x");
    assert_eq!(DocRunnerError::ValidationError("x".to_string()).message(), "File validation error: x");
    assert_eq!(DocRunnerError::IoError("x".to_string()).message(), "IO error: x");
    assert_eq!(DocRunnerError::ExecutionError("x".to_string()).message(), "Execution error: x");
}

#[test]
fn runner_subscribes_to_execute() {
    type Handler = Box<dyn Fn(&Event) -> Result<(), EventError>>;
    assert_eq!(DocRunnerAgent::subscribed_events(), vec!["doc_sync.docs-execute"]);
    let mut bus: EventSystem<Handler> = EventSystem::new();
    let make = |_: &str| -> Handler { Box::new(|_: &Event| Ok(())) };
    DocRunnerAgent::new().initialize(&mut bus, &make).unwrap();
    assert_eq!(bus.handler_count("doc_sync.docs-execute"), 1);
    assert_eq!(bus.handler_count("docs-execute"), 0);
    assert_eq!(execute_event(Vec::new(), true).event_type, "docs-execute");
    assert_eq!(Event::DocSync(execute_event(Vec::new(), true)).name(), "doc_sync.docs-execute");
}
