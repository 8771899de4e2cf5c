use forge_agents::agent_core::agent::{Agent, AgentContext, AgentError, ModuleKind, UnifiedAgent};
use forge_agents::agent_core::behavior::{
    AnalyzerModule, BaseBehaviorModule, BehaviorModule, BehaviorModuleError, CoordinatorModule,
    ExecutorModule, ImplementerModule, IterationDecisionModule,
};
use forge_agents::agent_core::prompt::PromptTemplateManager;
use forge_agents::agent_core::role::AgentRole;
use forge_agents::events::doc_sync_events::{
    DocSyncEvent, DocSyncPayload, DocumentationMap, QualityMetrics, StartPayload,
    VerificationCompletePayload, VerificationReport, VerificationResult, VerificationResults,
};
use forge_agents::events::{Event, EventError, EventPayload, EventSystem, Evidence};
use forge_agents::state::doc_sync_state::DocSyncState;
use forge_agents::str_map::StrMap;
use std::cell::RefCell;
use std::rc::Rc;

type Handler = Box<dyn Fn(&Event) -> Result<(), EventError>>;

fn custom(name: &str) -> Event {
    Event::Custom { name: name.to_string(), payload: EventPayload::empty() }
}

fn context(state: DocSyncState, now: u64) -> AgentContext {
    AgentContext {
        agent_id: "agent".to_string(),
        role: AgentRole::DocCoordinator,
        metadata: StrMap::new(),
        state,
        outbox: Vec::new(),
        now,
    }
}

fn evidence(pairs: &[(&str, Evidence)]) -> StrMap<Evidence> {
    let mut map = StrMap::new();
    for (key, value) in pairs {
        map.insert(key.to_string(), *value);
    }
    map
}

fn requirements(pairs: &[(&str, bool)]) -> StrMap<bool> {
    let mut map = StrMap::new();
    for (key, value) in pairs {
        map.insert(key.to_string(), *value);
    }
    map
}

fn scores() -> QualityMetrics {
    QualityMetrics {
        content_quality: 1000,
        structure_quality: 800,
        ui_quality: 800,
        css_quality: 800,
        technical_quality: 1000,
        overall_quality: 910,
        metadata: StrMap::new(),
    }
}

fn pending() -> VerificationResult {
    VerificationResult {
        status: "pending".to_string(),
        issues_found: 0,
        critical_issues: 0,
        metadata: StrMap::new(),
    }
}

fn verified_event(correlation_id: &str) -> Event {
    let mut check_status = StrMap::new();
    check_status.insert("content".to_string(), false);
    Event::DocSync(DocSyncEvent::at(
        "docs-verification-complete",
        DocSyncPayload::VerificationComplete(VerificationCompletePayload {
            doc_map: DocumentationMap::default(),
            verification_results: VerificationResults {
                content_verification: pending(),
                structure_verification: pending(),
                ui_verification: pending(),
                css_verification: pending(),
                successful_checks: 0,
                failed_checks: 0,
                skipped_checks: 0,
                quality_metrics: scores(),
                metadata: StrMap::new(),
            },
            quality_scores: scores(),
            verification_report: VerificationReport {
                issues: Vec::new(),
                positives: Vec::new(),
                recommendations: Vec::new(),
                metadata: StrMap::new(),
            },
            verification_log: Vec::new(),
            check_status,
            improvement_recommendations: Vec::new(),
        }),
        "doc-verifier",
        "doc-coordinator",
        correlation_id,
        3,
    ))
}

#[test]
fn wildcard_pattern_matches_by_prefix() {
    let mut module = BaseBehaviorModule::new("m");
    module.add_event_pattern("docs-analyze-*");
    assert!(module.matches_event_pattern("docs-analyze-content"));
    assert!(module.matches_event_pattern("docs-analyze-ui"));
    assert!(module.matches_event_pattern("docs-analyze-"));
    assert!(!module.matches_event_pattern("docs-execute"));
    assert!(!module.matches_event_pattern("docs-analyze"));
    assert!(!module.matches_event_pattern("xdocs-analyze-content"));
}

#[test]
fn literal_pattern_matches_only_itself() {
    let mut module = BaseBehaviorModule::new("m");
    assert!(!module.matches_event_pattern("docs-verify"));
    module.add_event_pattern("docs-verify");
    module.add_event_pattern("a*b");
    assert!(module.matches_event_pattern("docs-verify"));
    assert!(!module.matches_event_pattern("docs-verify-more"));
    assert!(!module.matches_event_pattern("docs-verif"));
    assert!(module.matches_event_pattern("a*b"));
    assert!(!module.matches_event_pattern("axb"));
    let mut all = BaseBehaviorModule::new("all");
    all.add_event_pattern("*");
    assert!(all.matches_event_pattern(""));
    assert!(all.matches_event_pattern("whatever"));
    assert!(forge_agents::text::pattern_matches("ab*", "ab"));
    assert!(!forge_agents::text::pattern_matches("", "x"));
    assert!(forge_agents::text::pattern_matches("", ""));
}

#[test]
fn base_module_keeps_its_settings() {
    let mut module = BaseBehaviorModule::new("base");
    assert_eq!(module.name(), "base");
    assert_eq!(module.get_config("depth"), None);
    module.set_config("depth", "deep");
    module.set_config("mode", "fast");
    module.set_config("depth", "shallow");
    assert_eq!(module.get_config("depth"), Some(&"shallow".to_string()));
    assert_eq!(module.get_config("mode"), Some(&"fast".to_string()));
    module.add_required_tool("t1");
    module.add_required_tool("t2");
    assert_eq!(module.required_tools(), vec!["t1".to_string(), "t2".to_string()]);
}

#[test]
fn modules_declare_their_fixed_tools() {
    assert_eq!(
        CoordinatorModule::new("c").get_required_tools(),
        vec![
            "tool_forge_fs_read",
            "tool_forge_fs_list",
            "tool_forge_fs_search",
            "tool_forge_event_dispatch"
        ]
    );
    assert_eq!(
        AnalyzerModule::new("a").get_required_tools(),
        vec!["tool_forge_fs_read", "tool_forge_fs_list", "tool_forge_fs_search"]
    );
    assert_eq!(
        ExecutorModule::new("e").get_required_tools(),
        vec![
            "tool_forge_fs_read",
            "tool_forge_fs_create",
            "tool_forge_fs_patch",
            "tool_forge_fs_remove",
            "tool_forge_event_dispatch"
        ]
    );
    assert_eq!(
        ExecutorModule::new("e").get_required_tools(),
        ImplementerModule::new("i").get_required_tools()
    );
    assert_eq!(
        ImplementerModule::new("i").get_required_tools(),
        vec![
            "tool_forge_fs_read",
            "tool_forge_fs_create",
            "tool_forge_fs_patch",
            "tool_forge_fs_remove",
            "tool_forge_event_dispatch"
        ]
    );
    assert_eq!(
        IterationDecisionModule::new("d").get_required_tools(),
        vec!["tool_forge_fs_read", "tool_forge_event_dispatch"]
    );
}

#[test]
fn modules_answer_to_their_patterns() {
    let implementer = ImplementerModule::new("i");
    assert!(implementer.can_handle_event(&custom("docs-implement-changes")));
    assert!(!implementer.can_handle_event(&custom("docs-verify")));
    let decision = IterationDecisionModule::new("d");
    assert!(decision.can_handle_event(&custom("docs-verification-complete")));
    assert!(decision.can_handle_event(&custom("docs-iteration-decision")));
    assert!(!decision.can_handle_event(&verified_event("wf")));
    let mut analyzer = AnalyzerModule::new("a");
    assert!(!analyzer.can_handle_event(&custom("docs-analyze-ui")));
    analyzer.add_event_pattern("docs-analyze-*");
    assert!(analyzer.can_handle_event(&custom("docs-analyze-ui")));
    assert_eq!(analyzer.get_analysis_depth(), "standard");
    analyzer.set_analysis_depth("deep");
    assert_eq!(analyzer.get_analysis_depth(), "deep");
    let executor = ExecutorModule::new("e");
    assert!(!executor.can_handle_event(&custom("docs-execute")));
}

#[test]
fn coordinator_maps_events_to_their_successors() {
    let mut module = CoordinatorModule::new("c");
    assert!(module.is_feedback_loop_enabled());
    assert_eq!(module.get_next_event("a"), None);
    module.add_coordination_mapping("a", "b");
    module.add_coordination_mapping("a", "c");
    assert_eq!(module.get_next_event("a"), Some(&"c".to_string()));
    module.setup_feedback_loop_mappings();
    assert_eq!(module.get_next_event("a"), Some(&"c".to_string()));
    assert_eq!(
        module.get_next_event("docs-verification-complete"),
        Some(&"docs-plan-changes".to_string())
    );
    assert_eq!(module.get_next_event("docs-plan-changes"), Some(&"docs-changes-planned".to_string()));
    assert_eq!(
        module.get_next_event("docs-changes-planned"),
        Some(&"docs-implement-changes".to_string())
    );
    assert_eq!(
        module.get_next_event("docs-implement-changes"),
        Some(&"docs-implementation-complete".to_string())
    );
    assert_eq!(
        module.get_next_event("docs-implementation-complete"),
        Some(&"docs-verify".to_string())
    );
    assert_eq!(
        module.get_next_event("docs-iteration-decision"),
        Some(&"docs-iteration-complete".to_string())
    );
    module.set_feedback_loop_enabled(false);
    assert!(!module.is_feedback_loop_enabled());
    match module.next_event("a", EventPayload::empty()) {
        Some(Event::Custom { name, .. }) => assert_eq!(name, "c"),
        other => panic!("expected a custom event, got {:?}", other),
    }
    assert!(module.next_event("unmapped", EventPayload::empty()).is_none());
}

#[test]
fn dispatch_emits_the_mapped_event() {
    let seen = Rc::new(RefCell::new(Vec::new()));
    let mut bus: EventSystem<Handler> = EventSystem::new();
    let log = seen.clone();
    bus.register_handler(
        "next",
        Box::new(move |event: &Event| {
            log.borrow_mut().push(event.name());
            Ok(())
        }),
    )
    .unwrap();
    bus.register_handler("broken", Box::new(|_: &Event| Err(EventError::EmitError("x".to_string()))))
        .unwrap();
    let mut module = CoordinatorModule::new("c");
    module.add_coordination_mapping("now", "next");
    module.add_coordination_mapping("bad", "broken");
    assert!(module.dispatch_next_event(&bus, "now", EventPayload::empty()).is_ok());
    assert!(module.dispatch_next_event(&bus, "unmapped", EventPayload::empty()).is_ok());
    assert_eq!(*seen.borrow(), vec!["next".to_string()]);
    match module.dispatch_next_event(&bus, "bad", EventPayload::empty()) {
        Err(BehaviorModuleError::EventError(detail)) => assert_eq!(
            detail,
            "Event handler error: Handler error for event broken: Failed to emit event: x"
        ),
        other => panic!("expected an event error, got {:?}", other),
    }
}

#[test]
fn requirements_are_judged_by_flags_and_scores() {
    let module = IterationDecisionModule::new("d");
    let found = evidence(&[
        ("links_ok", Evidence::Flag(true)),
        ("no_errors", Evidence::Flag(false)),
        ("quality", Evidence::Score(701)),
        ("coverage", Evidence::Score(700)),
        ("notes", Evidence::Other),
    ]);
    let wanted = requirements(&[
        ("links_ok", true),
        ("no_errors", false),
        ("quality", true),
        ("coverage", true),
        ("notes", true),
        ("absent", true),
        ("links_ok_inverse", false),
    ]);
    let (go, met) = module.evaluate_requirements(&found, &wanted, 1, 5);
    assert!(go);
    assert_eq!(met.get("links_ok"), Some(&true));
    assert_eq!(met.get("no_errors"), Some(&true));
    assert_eq!(met.get("quality"), Some(&true));
    assert_eq!(met.get("coverage"), Some(&false));
    assert_eq!(met.get("notes"), Some(&false));
    assert_eq!(met.get("absent"), Some(&false));
    assert_eq!(met.get("links_ok_inverse"), Some(&false));
    assert_eq!(met.len(), 7);

    let mismatch = requirements(&[("links_ok", false)]);
    let (go, met) = module.evaluate_requirements(&found, &mismatch, 1, 5);
    assert!(go);
    assert_eq!(met.get("links_ok"), Some(&false));

    let score_wanted_false = requirements(&[("quality", false)]);
    let (go, met) = module.evaluate_requirements(&found, &score_wanted_false, 1, 5);
    assert!(!go);
    assert_eq!(met.get("quality"), Some(&true));
}

#[test]
fn all_requirements_met_ends_the_loop() {
    let module = IterationDecisionModule::new("d");
    let found = evidence(&[("a", Evidence::Flag(true)), ("b", Evidence::Score(999))]);
    let wanted = requirements(&[("a", true), ("b", true)]);
    let (go, met) = module.evaluate_requirements(&found, &wanted, 1, 5);
    assert!(!go);
    assert_eq!(met.get("a"), Some(&true));
    assert_eq!(met.get("b"), Some(&true));
    let (go, met) = module.evaluate_requirements(&found, &StrMap::new(), 1, 5);
    assert!(!go);
    assert!(met.is_empty());
}

#[test]
fn iteration_cap_ends_the_loop_whatever_is_unmet() {
    let module = IterationDecisionModule::new("d");
    let found = StrMap::new();
    let wanted = requirements(&[("never", true)]);
    assert!(!module.evaluate_requirements(&found, &wanted, 1, 1).0);
    assert!(!module.evaluate_requirements(&found, &wanted, 5, 5).0);
    assert!(!module.evaluate_requirements(&found, &wanted, 6, 5).0);
    assert!(!module.evaluate_requirements(&found, &wanted, 0, 0).0);
    assert!(!module.evaluate_requirements(&found, &wanted, u32::MAX, u32::MAX).0);
    assert!(module.evaluate_requirements(&found, &wanted, 4, 5).0);
    assert!(module.evaluate_requirements(&found, &wanted, 0, 1).0);
    let (_, met) = module.evaluate_requirements(&found, &wanted, 1, 1);
    assert_eq!(met.get("never"), Some(&false));
}

#[test]
fn decision_at_the_cap_stops_and_records_the_pass() {
    let mut module = CoordinatorModule::new("c");
    module.setup_feedback_loop_mappings();
    let mut state = DocSyncState::fresh(0);
    state.max_iterations = 1;
    state.current_iteration = 1;
    state.requirements_satisfied = requirements(&[("content", true)]);
    let mut payload = EventPayload::empty();
    payload.correlation_id = Some("wf".to_string());
    payload.verification_results = Some(evidence(&[("content", Evidence::Flag(false))]));
    let decision = module.apply_verification(payload, &mut state, 99).unwrap();
    assert!(!decision.continue_iteration);
    assert_eq!(state.current_iteration, 1);
    assert_eq!(state.requirements_satisfied.get("content"), Some(&false));
    assert_eq!(state.iteration_history.len(), 1);
    assert_eq!(state.iteration_history[0].iteration_number, 1);
    assert_eq!(state.iteration_history[0].timestamp, 99);
    assert_eq!(state.iteration_history[0].verification_results.get("content"), Some(&false));
    assert_eq!(state.iteration_history[0].issues_resolved, 0);
    match decision.next {
        Some(Event::Custom { name, payload }) => {
            assert_eq!(name, "docs-iteration-complete");
            assert_eq!(payload.continue_iteration, Some(false));
            assert_eq!(payload.iteration_number, Some(1));
            assert_eq!(payload.correlation_id, Some("wf".to_string()));
        }
        other => panic!("expected a custom event, got {:?}", other),
    }
}

#[test]
fn decision_below_the_cap_goes_on_and_counts_up() {
    let mut module = CoordinatorModule::new("c");
    module.setup_feedback_loop_mappings();
    let mut state = DocSyncState::fresh(0);
    state.requirements_satisfied = requirements(&[("content", true)]);
    for expected in 2..=5u32 {
        let mut payload = EventPayload::empty();
        payload.verification_results = Some(evidence(&[("content", Evidence::Score(300))]));
        let decision = module.apply_verification(payload, &mut state, 7).unwrap();
        assert!(decision.continue_iteration);
        assert_eq!(state.current_iteration, expected);
        match decision.next {
            Some(Event::Custom { name, payload }) => {
                assert_eq!(name, "docs-plan-changes");
                assert_eq!(payload.continue_iteration, Some(true));
                assert_eq!(payload.iteration_number, Some(expected));
            }
            other => panic!("expected a custom event, got {:?}", other),
        }
    }
    let mut payload = EventPayload::empty();
    payload.verification_results = Some(evidence(&[("content", Evidence::Score(300))]));
    let decision = module.apply_verification(payload, &mut state, 7).unwrap();
    assert!(!decision.continue_iteration);
    assert_eq!(state.current_iteration, 5);
    assert_eq!(state.iteration_history.len(), 5);
    let numbers: Vec<u32> = state.iteration_history.iter().map(|s| s.iteration_number).collect();
    assert_eq!(numbers, vec![1, 2, 3, 4, 5]);
}

#[test]
fn unmet_flag_is_recorded_as_the_new_wanted_value() {
    let module = CoordinatorModule::new("c");
    let mut state = DocSyncState::fresh(0);
    state.requirements_satisfied = requirements(&[("content", true)]);
    let mut payload = EventPayload::empty();
    payload.verification_results = Some(evidence(&[("content", Evidence::Flag(false))]));
    let first = module.apply_verification(payload, &mut state, 7).unwrap();
    assert!(first.continue_iteration);
    assert_eq!(state.requirements_satisfied.get("content"), Some(&false));
    let mut payload = EventPayload::empty();
    payload.verification_results = Some(evidence(&[("content", Evidence::Flag(false))]));
    let second = module.apply_verification(payload, &mut state, 8).unwrap();
    assert!(!second.continue_iteration);
    assert_eq!(state.requirements_satisfied.get("content"), Some(&true));
    assert_eq!(state.current_iteration, 2);
}

#[test]
fn decision_without_findings_changes_nothing() {
    let module = CoordinatorModule::new("c");
    let mut state = DocSyncState::fresh(0);
    assert!(module.apply_verification(EventPayload::empty(), &mut state, 1).is_none());
    assert_eq!(state.current_iteration, 1);
    assert!(state.iteration_history.is_empty());
    let mut payload = EventPayload::empty();
    payload.verification_results = Some(StrMap::new());
    let decision = module.apply_verification(payload, &mut state, 1).unwrap();
    assert!(!decision.continue_iteration);
    assert!(decision.next.is_none());
    assert_eq!(state.iteration_history.len(), 1);
}

#[test]
fn coordinator_module_decides_on_a_typed_verification() {
    let mut module = CoordinatorModule::new("c");
    module.setup_feedback_loop_mappings();
    let mut state = DocSyncState::fresh(0);
    state.requirements_satisfied = requirements(&[("content", true), ("overall_quality", true)]);
    let mut ctx = context(state, 40);
    module.process_event(&verified_event("wf-7"), &mut ctx).unwrap();
    assert_eq!(ctx.state.current_iteration, 2);
    assert_eq!(ctx.state.requirements_satisfied.get("content"), Some(&false));
    assert_eq!(ctx.state.requirements_satisfied.get("overall_quality"), Some(&true));
    assert_eq!(ctx.state.iteration_history.len(), 1);
    assert_eq!(ctx.state.iteration_history[0].timestamp, 40);
    assert_eq!(ctx.outbox.len(), 1);
    match &ctx.outbox[0] {
        Event::Custom { name, payload } => {
            assert_eq!(name, "docs-plan-changes");
            assert_eq!(payload.continue_iteration, Some(true));
            assert_eq!(payload.iteration_number, Some(2));
            assert_eq!(payload.correlation_id, Some("wf-7".to_string()));
        }
        other => panic!("expected a custom event, got {:?}", other),
    }
}

#[test]
fn coordinator_module_forwards_when_the_loop_is_off() {
    let mut module = CoordinatorModule::new("c");
    module.setup_feedback_loop_mappings();
    module.set_feedback_loop_enabled(false);
    let mut ctx = context(DocSyncState::fresh(0), 1);
    module.process_event(&verified_event("wf"), &mut ctx).unwrap();
    assert_eq!(ctx.state.current_iteration, 1);
    assert!(ctx.state.iteration_history.is_empty());
    assert_eq!(ctx.outbox.len(), 1);
    assert_eq!(ctx.outbox[0].name(), "docs-plan-changes");
}

#[test]
fn coordinator_module_forwards_other_events_by_their_full_name() {
    let mut module = CoordinatorModule::new("c");
    module.add_coordination_mapping("ping", "pong");
    module.add_coordination_mapping("doc_sync.docs-start", "started");
    let mut ctx = context(DocSyncState::fresh(0), 1);
    module.process_event(&custom("ping"), &mut ctx).unwrap();
    module.process_event(&custom("unmapped"), &mut ctx).unwrap();
    let start = Event::DocSync(DocSyncEvent::at(
        "docs-start",
        DocSyncPayload::Start(StartPayload {
            source_path: "s".to_string(),
            target_path: "t".to_string(),
            scope: "full".to_string(),
            options: StrMap::new(),
        }),
        "user",
        "doc-coordinator",
        "wf",
        1,
    ));
    module.process_event(&start, &mut ctx).unwrap();
    let names: Vec<String> = ctx.outbox.iter().map(|e| e.name()).collect();
    assert_eq!(names, vec!["pong".to_string(), "started".to_string()]);
    match &ctx.outbox[1] {
        Event::Custom { payload, .. } => {
            assert_eq!(payload.correlation_id, Some("wf".to_string()));
            assert_eq!(payload.fields.get("type"), Some(&"Start".to_string()));
        }
        other => panic!("expected a custom event, got {:?}", other),
    }
}

#[test]
fn verification_without_a_workflow_is_refused() {
    let module = CoordinatorModule::new("c");
    let mut ctx = context(DocSyncState::fresh(0), 1);
    let event = custom("doc_sync.docs-verification-complete");
    match module.process_event(&event, &mut ctx) {
        Err(BehaviorModuleError::InvalidPayload(detail)) => {
            assert_eq!(detail, "Missing correlation_id")
        }
        other => panic!("expected an invalid payload error, got {:?}", other),
    }
    assert!(ctx.outbox.is_empty());
    assert!(ctx.state.iteration_history.is_empty());
}

#[test]
fn agent_hands_the_event_to_the_first_module_that_answers() {
    let mut first = CoordinatorModule::new("first");
    first.add_event_pattern("docs-*");
    first.add_coordination_mapping("docs-a", "from-first");
    let mut second = CoordinatorModule::new("second");
    second.add_event_pattern("docs-a");
    second.add_event_pattern("other");
    second.add_coordination_mapping("docs-a", "from-second");
    second.add_coordination_mapping("other", "other-from-second");
    let mut agent = UnifiedAgent::new("agent-1".to_string(), AgentRole::DocCoordinator);
    let mut analyzer = AnalyzerModule::new("quiet");
    analyzer.add_event_pattern("silent");
    agent.add_behavior_module(ModuleKind::Analyzer(analyzer));
    agent.add_behavior_module(ModuleKind::Coordinator(first));
    agent.add_behavior_module(ModuleKind::Coordinator(second));
    assert_eq!(agent.module_count(), 3);
    assert_eq!(agent.select_module(&custom("docs-a")), Some(1));
    assert_eq!(agent.select_module(&custom("other")), Some(2));
    assert_eq!(agent.select_module(&custom("silent")), Some(0));
    assert_eq!(agent.select_module(&custom("nobody")), None);

    let mut ctx = agent.create_context(DocSyncState::fresh(0), 8);
    assert_eq!(ctx.agent_id, "agent-1");
    assert_eq!(ctx.role, AgentRole::DocCoordinator);
    assert_eq!(ctx.now, 8);
    agent.process_event(custom("docs-a"), &mut ctx).unwrap();
    agent.process_event(custom("other"), &mut ctx).unwrap();
    agent.process_event(custom("silent"), &mut ctx).unwrap();
    agent.process_event(custom("nobody"), &mut ctx).unwrap();
    let names: Vec<String> = ctx.outbox.iter().map(|e| e.name()).collect();
    assert_eq!(names, vec!["from-first".to_string(), "other-from-second".to_string()]);
}

#[test]
fn agent_wraps_the_failure_of_its_module() {
    let mut module = CoordinatorModule::new("c");
    module.add_event_pattern("doc_sync.*");
    let mut agent = UnifiedAgent::new("a".to_string(), AgentRole::Custom("x".to_string()));
    agent.add_behavior_module(ModuleKind::Coordinator(module));
    let mut ctx = agent.create_context(DocSyncState::fresh(0), 1);
    match agent.process_event(custom("doc_sync.docs-verification-complete"), &mut ctx) {
        Err(AgentError::BehaviorModuleError(BehaviorModuleError::InvalidPayload(detail))) => {
            assert_eq!(detail, "Missing correlation_id")
        }
        other => panic!("expected a behavior module error, got {:?}", other),
    }
}

#[test]
fn agent_keeps_identity_notes_and_subscriptions() {
    let mut agent = UnifiedAgent::new("agent-9".to_string(), AgentRole::from_str("Scout"));
    assert_eq!(agent.id(), "agent-9");
    assert_eq!(agent.role(), AgentRole::Custom("Scout".to_string()));
    agent.add_subscription("docs");
    agent.add_subscription("docs-verify");
    agent.set_metadata("team", "docs");
    agent.set_metadata("team", "platform");
    assert_eq!(agent.initialize().unwrap(), vec!["docs".to_string(), "docs-verify".to_string()]);
    assert_eq!(agent.metadata().get("team"), Some(&"platform".to_string()));
    let mut prompts = PromptTemplateManager::new();
    prompts.set_template("system", "be brief");
    agent.set_prompt_manager(prompts);
    assert_eq!(agent.prompt_manager().get_template("system").unwrap(), "be brief");
    let mut bus: EventSystem<Handler> = EventSystem::new();
    let make = |_: &str| -> Handler { Box::new(|_: &Event| Ok(())) };
    agent.register_event_handlers(&mut bus, &make).unwrap();
    assert_eq!(bus.handler_count("docs"), 1);
    assert_eq!(bus.handler_count("docs-verify"), 1);
    assert_eq!(bus.handler_count("docs-start"), 0);
}

#[test]
fn module_and_agent_errors_read_as_one_line() {
    assert_eq!(BehaviorModuleError::EventError("x".to_string()).message(), "Event error: x");
    assert_eq!(BehaviorModuleError::StateError("x".to_string()).message(), "State error: x");
    assert_eq!(BehaviorModuleError::InvalidPayload("x".to_string()).message(), "Invalid payload: x");
    assert_eq!(
        BehaviorModuleError::ConfigurationError("x".to_string()).message(),
        "Configuration error: x"
    );
    assert_eq!(
        BehaviorModuleError::ImplementationError("x".to_string()).message(),
        "Behavior implementation error: x"
    );
    assert_eq!(
        AgentError::EventSystemError(EventError::EmitError("x".to_string())).message(),
        "Event system error: Failed to emit event: x"
    );
    assert_eq!(
        AgentError::BehaviorModuleError(BehaviorModuleError::StateError("x".to_string())).message(),
        "Behavior module error: State error: x"
    );
    assert_eq!(AgentError::StateError("x".to_string()).message(), "State error: x");
    assert_eq!(AgentError::InvalidPayload("x".to_string()).message(), "Invalid event payload: x");
    assert_eq!(
        AgentError::ConfigurationError("x".to_string()).message(),
        "Agent configuration error: x"
    );
}
