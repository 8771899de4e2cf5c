use crate::agent_core::agent::AgentContext;
use crate::events::doc_sync_events::{clone_quality, quality_view};
use crate::events::{emitted, Event, EventError, EventPayload, EventSystem, Evidence};
use crate::state::doc_sync_state::{DocSyncState, IterationState};
use crate::str_map::StrMap;
use crate::text::{join2, matches_pattern, pattern_matches, str_eq};
use vstd::prelude::*;

verus! {

/// Why a behavior module could not do its work. Each variant carries the
/// detail as text.
#[derive(Debug, Clone)]
pub enum BehaviorModuleError {
    EventError(String),
    StateError(String),
    InvalidPayload(String),
    ConfigurationError(String),
    ImplementationError(String),
}

impl BehaviorModuleError {
    /// The error as one line of text: what kind it is, then the detail.
    pub open spec fn text(&self) -> Seq<char> {
        match self {
            BehaviorModuleError::EventError(d) => "Event error: "@ + d@,
            BehaviorModuleError::StateError(d) => "State error: "@ + d@,
            BehaviorModuleError::InvalidPayload(d) => "Invalid payload: "@ + d@,
            BehaviorModuleError::ConfigurationError(d) => "Configuration error: "@ + d@,
            BehaviorModuleError::ImplementationError(d) => "Behavior implementation error: "@ + d@,
        }
    }

    /// The error as one line of text.
    pub fn message(&self) -> (line: String)
        ensures
            line@ == self.text(),
    {
        match self {
            BehaviorModuleError::EventError(d) => join2("Event error: ", d.as_str()),
            BehaviorModuleError::StateError(d) => join2("State error: ", d.as_str()),
            BehaviorModuleError::InvalidPayload(d) => join2("Invalid payload: ", d.as_str()),
            BehaviorModuleError::ConfigurationError(d) => join2(
                "Configuration error: ",
                d.as_str(),
            ),
            BehaviorModuleError::ImplementationError(d) => join2(
                "Behavior implementation error: ",
                d.as_str(),
            ),
        }
    }
}

/// Does one of `patterns` match the event name `name`?
pub open spec fn any_matches(patterns: Seq<Seq<char>>, name: Seq<char>) -> bool {
    exists|i: int| 0 <= i < patterns.len() && matches_pattern(#[trigger] patterns[i], name)
}

/// The texts of a list of strings.
pub open spec fn texts_of(list: Seq<String>) -> Seq<Seq<char>> {
    list.map_values(|s: String| s@)
}

/// What every behavior module has: a name, the event patterns it answers
/// to, the tools it needs, and its settings.
#[derive(Debug, Clone)]
pub struct BaseBehaviorModule {
    name: String,
    event_patterns: Vec<String>,
    required_tools: Vec<String>,
    config: StrMap<String>,
}

impl BaseBehaviorModule {
    pub closed spec fn name_text(&self) -> Seq<char> {
        self.name@
    }

    /// The event patterns, in the order in which they were added.
    pub closed spec fn patterns(&self) -> Seq<Seq<char>> {
        texts_of(self.event_patterns@)
    }

    /// The tools, in the order in which they were added.
    pub closed spec fn tools(&self) -> Seq<Seq<char>> {
        texts_of(self.required_tools@)
    }

    /// The settings: each key with its value.
    pub closed spec fn settings(&self) -> Map<Seq<char>, Seq<char>> {
        self.config.texts()
    }

    /// A module of the given name that answers to no event, needs no tool
    /// and has no setting.
    pub fn new(name: &str) -> (module: Self)
        ensures
            module.name_text() == name@,
            module.patterns() == Seq::<Seq<char>>::empty(),
            module.tools() == Seq::<Seq<char>>::empty(),
            module.settings() == Map::<Seq<char>, Seq<char>>::empty(),
    {
        let module = BaseBehaviorModule {
            name: String::from_str(name),
            event_patterns: Vec::new(),
            required_tools: Vec::new(),
            config: StrMap::new(),
        };
        assert(module.patterns() =~= Seq::<Seq<char>>::empty());
        assert(module.tools() =~= Seq::<Seq<char>>::empty());
        assert(module.settings() =~= Map::<Seq<char>, Seq<char>>::empty());
        module
    }

    pub fn name(&self) -> (name: &String)
        ensures
            name@ == self.name_text(),
    {
        &self.name
    }

    pub fn add_event_pattern(&mut self, pattern: &str)
        ensures
            final(self).patterns() == old(self).patterns().push(pattern@),
            final(self).name_text() == old(self).name_text(),
            final(self).tools() == old(self).tools(),
            final(self).settings() == old(self).settings(),
    {
        self.event_patterns.push(String::from_str(pattern));
        assert(self.patterns() =~= old(self).patterns().push(pattern@));
    }

    pub fn add_required_tool(&mut self, tool: &str)
        ensures
            final(self).tools() == old(self).tools().push(tool@),
            final(self).name_text() == old(self).name_text(),
            final(self).patterns() == old(self).patterns(),
            final(self).settings() == old(self).settings(),
    {
        self.required_tools.push(String::from_str(tool));
        assert(self.tools() =~= old(self).tools().push(tool@));
    }

    pub fn set_config(&mut self, key: &str, value: &str)
        ensures
            final(self).settings() == old(self).settings().insert(key@, value@),
            final(self).name_text() == old(self).name_text(),
            final(self).patterns() == old(self).patterns(),
            final(self).tools() == old(self).tools(),
    {
        self.config.set(key, value);
    }

    pub fn get_config(&self, key: &str) -> (value: Option<&String>)
        ensures
            match value {
                Some(v) => self.settings().contains_key(key@) && v@ == self.settings()[key@],
                None => !self.settings().contains_key(key@),
            },
    {
        self.config.get(key)
    }

    /// Does one of the module's patterns match `event_name`?
    pub fn matches_event_pattern(&self, event_name: &str) -> (hit: bool)
        ensures
            hit == any_matches(self.patterns(), event_name@),
    {
        let n: usize = self.event_patterns.len();
        let mut i: usize = 0;
        while i < n
            invariant
                n == self.event_patterns@.len(),
                i <= n,
                forall|k: int|
                    0 <= k < i ==> !matches_pattern(#[trigger] self.patterns()[k], event_name@),
            decreases n - i,
        {
            assert(self.patterns()[i as int] == self.event_patterns@[i as int]@);
            if pattern_matches(self.event_patterns[i].as_str(), event_name) {
                return true;
            }
            i += 1;
        }
        false
    }

    /// The tools that the module declares, in the order in which they were
    /// added.
    pub fn required_tools(&self) -> (tools: Vec<String>)
        ensures
            texts_of(tools@) == self.tools(),
    {
        let tools = self.required_tools.clone();
        assert(tools@ =~= self.required_tools@);
        tools
    }
}

/// Does the evidence meet the requirement `key`, whose wanted value is
/// `required`? A flag must equal the wanted value; a score must lie above
/// 700 thousandths; anything else, or nothing, does not meet it.
pub open spec fn meets(evidence: Map<Seq<char>, Evidence>, key: Seq<char>, required: bool) -> bool {
    evidence.contains_key(key) && match evidence[key] {
        Evidence::Flag(b) => b == required,
        Evidence::Score(s) => s > 700,
        Evidence::Other => false,
    }
}

/// For each requirement, whether the evidence meets it.
pub open spec fn satisfaction(
    evidence: Map<Seq<char>, Evidence>,
    requirements: Map<Seq<char>, bool>,
) -> Map<Seq<char>, bool> {
    Map::new(
        |k: Seq<char>| requirements.contains_key(k),
        |k: Seq<char>| meets(evidence, k, requirements[k]),
    )
}

/// Does the evidence meet every requirement?
pub open spec fn all_met(evidence: Map<Seq<char>, Evidence>, requirements: Map<Seq<char>, bool>) -> bool {
    forall|k: Seq<char>| requirements.contains_key(k) ==> meets(evidence, k, requirements[k])
}

/// Is another pass of the refinement loop due? Only while a requirement is
/// unmet and the iteration cap is not reached.
pub open spec fn should_continue(
    evidence: Map<Seq<char>, Evidence>,
    requirements: Map<Seq<char>, bool>,
    current_iteration: u32,
    max_iterations: u32,
) -> bool {
    !all_met(evidence, requirements) && current_iteration < max_iterations
}

/// Termination: at the iteration cap no further pass is due, whatever the
/// evidence and the requirements.
pub proof fn law_iteration_cap(
    evidence: Map<Seq<char>, Evidence>,
    requirements: Map<Seq<char>, bool>,
    current_iteration: u32,
    max_iterations: u32,
)
    requires
        current_iteration >= max_iterations,
    ensures
        !should_continue(evidence, requirements, current_iteration, max_iterations),
{
}

/// The tools of a coordinator.
pub open spec fn coordinator_tools() -> Seq<Seq<char>> {
    seq![
        "tool_forge_fs_read"@,
        "tool_forge_fs_list"@,
        "tool_forge_fs_search"@,
        "tool_forge_event_dispatch"@,
    ]
}

/// The tools of an analyzer.
pub open spec fn analyzer_tools() -> Seq<Seq<char>> {
    seq!["tool_forge_fs_read"@, "tool_forge_fs_list"@, "tool_forge_fs_search"@]
}

/// The tools of an executor: to read, create, patch and remove files, and
/// to dispatch events.
pub open spec fn executor_tools() -> Seq<Seq<char>> {
    seq![
        "tool_forge_fs_read"@,
        "tool_forge_fs_create"@,
        "tool_forge_fs_patch"@,
        "tool_forge_fs_remove"@,
        "tool_forge_event_dispatch"@,
    ]
}

/// The tools of an implementer: those of an executor.
pub open spec fn implementer_tools() -> Seq<Seq<char>> {
    seq![
        "tool_forge_fs_read"@,
        "tool_forge_fs_create"@,
        "tool_forge_fs_patch"@,
        "tool_forge_fs_remove"@,
        "tool_forge_event_dispatch"@,
    ]
}

/// The tools of an iteration-decision module.
pub open spec fn decision_tools() -> Seq<Seq<char>> {
    seq!["tool_forge_fs_read"@, "tool_forge_event_dispatch"@]
}

/// The mappings of the refinement loop: which event follows which.
pub open spec fn feedback_loop_mappings() -> Map<Seq<char>, Seq<char>> {
    map![
        "docs-verification-complete"@ => "docs-plan-changes"@,
        "docs-plan-changes"@ => "docs-changes-planned"@,
        "docs-changes-planned"@ => "docs-implement-changes"@,
        "docs-implement-changes"@ => "docs-implementation-complete"@,
        "docs-implementation-complete"@ => "docs-verify"@,
        "docs-iteration-decision"@ => "docs-iteration-complete"@,
    ]
}

/// What a coordinator decided on a verification: whether another pass is
/// due, and the event to send on, if the next step has one.
#[derive(Debug, Clone)]
pub struct IterationDecision {
    pub continue_iteration: bool,
    pub next: Option<Event>,
}

/// A module that leads from each event to the next one.
#[derive(Debug, Clone)]
pub struct CoordinatorModule {
    base: BaseBehaviorModule,
    coordination_map: StrMap<String>,
    feedback_loop_enabled: bool,
}

impl CoordinatorModule {
    pub closed spec fn base(&self) -> BaseBehaviorModule {
        self.base
    }

    /// Which event follows which.
    pub closed spec fn mappings(&self) -> Map<Seq<char>, Seq<char>> {
        self.coordination_map.texts()
    }

    pub closed spec fn feedback_enabled(&self) -> bool {
        self.feedback_loop_enabled
    }

    /// A coordinator of the given name, with the tools of a coordinator,
    /// no mapping, and the refinement loop switched on.
    pub fn new(name: &str) -> (module: Self)
        ensures
            module.base().name_text() == name@,
            module.base().patterns() == Seq::<Seq<char>>::empty(),
            module.base().tools() == coordinator_tools(),
            module.base().settings() == Map::<Seq<char>, Seq<char>>::empty(),
            module.mappings() == Map::<Seq<char>, Seq<char>>::empty(),
            module.feedback_enabled(),
    {
        let mut base = BaseBehaviorModule::new(name);
        base.add_required_tool("tool_forge_fs_read");
        base.add_required_tool("tool_forge_fs_list");
        base.add_required_tool("tool_forge_fs_search");
        base.add_required_tool("tool_forge_event_dispatch");
        assert(base.tools() =~= coordinator_tools());
        let module = CoordinatorModule {
            base,
            coordination_map: StrMap::new(),
            feedback_loop_enabled: true,
        };
        assert(module.mappings() =~= Map::<Seq<char>, Seq<char>>::empty());
        module
    }

    /// The common part of the module, to add event patterns and settings.
    pub fn add_event_pattern(&mut self, pattern: &str)
        ensures
            final(self).base().patterns() == old(self).base().patterns().push(pattern@),
            final(self).base().name_text() == old(self).base().name_text(),
            final(self).base().tools() == old(self).base().tools(),
            final(self).base().settings() == old(self).base().settings(),
            final(self).mappings() == old(self).mappings(),
            final(self).feedback_enabled() == old(self).feedback_enabled(),
    {
        self.base.add_event_pattern(pattern);
    }

    /// From now on `next_event` follows `event`.
    pub fn add_coordination_mapping(&mut self, event: &str, next_event: &str)
        ensures
            final(self).mappings() == old(self).mappings().insert(event@, next_event@),
            final(self).base() == old(self).base(),
            final(self).feedback_enabled() == old(self).feedback_enabled(),
    {
        self.coordination_map.set(event, next_event);
    }

    /// The event that follows `event`, if one is mapped.
    pub fn get_next_event(&self, event: &str) -> (next: Option<&String>)
        ensures
            match next {
                Some(n) => self.mappings().contains_key(event@) && n@ == self.mappings()[event@],
                None => !self.mappings().contains_key(event@),
            },
    {
        self.coordination_map.get(event)
    }

    pub fn set_feedback_loop_enabled(&mut self, enabled: bool)
        ensures
            final(self).feedback_enabled() == enabled,
            final(self).base() == old(self).base(),
            final(self).mappings() == old(self).mappings(),
    {
        self.feedback_loop_enabled = enabled;
    }

    pub fn is_feedback_loop_enabled(&self) -> (enabled: bool)
        ensures
            enabled == self.feedback_enabled(),
    {
        self.feedback_loop_enabled
    }

    /// Adds the mappings of the refinement loop, in place of earlier
    /// mappings of the same events.
    pub fn setup_feedback_loop_mappings(&mut self)
        ensures
            final(self).mappings() == old(self).mappings().union_prefer_right(
                feedback_loop_mappings(),
            ),
            final(self).base() == old(self).base(),
            final(self).feedback_enabled() == old(self).feedback_enabled(),
    {
        self.add_coordination_mapping("docs-verification-complete", "docs-plan-changes");
        self.add_coordination_mapping("docs-plan-changes", "docs-changes-planned");
        self.add_coordination_mapping("docs-changes-planned", "docs-implement-changes");
        self.add_coordination_mapping("docs-implement-changes", "docs-implementation-complete");
        self.add_coordination_mapping("docs-implementation-complete", "docs-verify");
        self.add_coordination_mapping("docs-iteration-decision", "docs-iteration-complete");
        assert(self.mappings() =~= old(self).mappings().union_prefer_right(
            feedback_loop_mappings(),
        ));
    }

    /// The event that carries `payload` on from `current_event`: a
    /// free-form event under the name mapped to `current_event`, or none
    /// where nothing is mapped.
    pub fn next_event(&self, current_event: &str, payload: EventPayload) -> (next: Option<Event>)
        ensures
            match next {
                Some(event) => {
                    &&& self.mappings().contains_key(current_event@)
                    &&& event matches Event::Custom { name, payload: carried }
                    &&& name@ == self.mappings()[current_event@]
                    &&& carried == payload
                },
                None => !self.mappings().contains_key(current_event@),
            },
    {
        match self.get_next_event(current_event) {
            Some(next_event) => Some(Event::Custom { name: next_event.clone(), payload }),
            None => None,
        }
    }

    /// Sends `payload` on from `current_event`: emits a free-form event
    /// under the name mapped to `current_event`. Where nothing is mapped,
    /// nothing is sent. A handler's failure comes back as an event error
    /// with the failure's text.
    pub fn dispatch_next_event<H: Fn(&Event) -> Result<(), EventError>>(
        &self,
        event_system: &EventSystem<H>,
        current_event: &str,
        payload: EventPayload,
    ) -> (done: Result<(), BehaviorModuleError>)
        requires
            forall|name: Seq<char>, i: int, event: &Event|
                0 <= i < event_system.listeners(name).len() ==> #[trigger] call_requires(
                    event_system.listeners(name)[i],
                    (event,),
                ),
        ensures
            !self.mappings().contains_key(current_event@) ==> done is Ok,
            self.mappings().contains_key(current_event@) ==> exists|
                event: Event,
                inner: Result<(), EventError>,
            |
                {
                    &&& event matches Event::Custom { name, payload: carried }
                    &&& name@ == self.mappings()[current_event@]
                    &&& carried == payload
                    &&& #[trigger] emitted(event_system.listeners(event.name_text()), &event, inner)
                    &&& match inner {
                        Ok(_) => done is Ok,
                        Err(e) => done matches Err(BehaviorModuleError::EventError(d)) && d@
                            == e.text(),
                    }
                },
    {
        match self.next_event(current_event, payload) {
            None => Ok(()),
            Some(event) => {
                let inner = event_system.emit(&event);
                assert(emitted(event_system.listeners(event.name_text()), &event, inner));
                match inner {
                    Ok(_) => Ok(()),
                    Err(e) => Err(BehaviorModuleError::EventError(e.message())),
                }
            },
        }
    }

    /// Decides on a verification whose findings are in `payload`, for the
    /// workflow whose stored state is `state`, at time `now`.
    ///
    /// Without findings in the payload nothing changes and nothing is
    /// sent. With findings, each requirement of the state is judged by
    /// them; a snapshot of the pass is added to the history; another pass
    /// is due while a requirement is unmet and the iteration cap is not
    /// reached, and then the iteration counter goes up by one. The event to
    /// send on follows "docs-verification-complete" where another pass is
    /// due and "docs-iteration-decision" where not, and carries the payload
    /// with the decision and the iteration number added.
    pub fn apply_verification(&self, payload: EventPayload, state: &mut DocSyncState, now: u64) -> (
        decision: Option<IterationDecision>
    )
        ensures
            verification_applied(self.mappings(), payload, *old(state), *final(state), decision, now),
    {
        let evidence = match &payload.verification_results {
            None => {
                return None;
            },
            Some(e) => e,
        };
        let module = IterationDecisionModule::new("iteration_decision");
        let (continue_iteration, satisfied) = module.evaluate_requirements(
            evidence,
            &state.requirements_satisfied,
            state.current_iteration,
            state.max_iterations,
        );
        let snapshot = IterationState {
            iteration_number: state.current_iteration,
            timestamp: now,
            quality_scores: clone_quality(&state.quality_scores),
            verification_results: satisfied.duplicate(),
            tasks_completed: state.completed_tasks.len(),
            tasks_pending: state.pending_tasks.len(),
            issues_found: state.error_log.len(),
            issues_resolved: 0,
        };
        state.requirements_satisfied = satisfied;
        let ghost before = state.iteration_history@;
        state.iteration_history.push(snapshot);
        assert(state.iteration_history@.drop_last() =~= before);
        if continue_iteration {
            state.current_iteration += 1;
        }
        let mut carried = payload;
        carried.continue_iteration = Some(continue_iteration);
        carried.iteration_number = Some(state.current_iteration);
        let next = if continue_iteration {
            self.next_event("docs-verification-complete", carried)
        } else {
            self.next_event("docs-iteration-decision", carried)
        };
        Some(IterationDecision { continue_iteration, next })
    }
}

/// `after` and `decision` are what deciding on the findings in `payload`
/// at time `now` makes of the state `before`, for a coordinator with the
/// given mappings.
pub open spec fn verification_applied(
    mappings: Map<Seq<char>, Seq<char>>,
    payload: EventPayload,
    before: DocSyncState,
    after: DocSyncState,
    decision: Option<IterationDecision>,
    now: u64,
) -> bool {
    &&& after.master_doc_map == before.master_doc_map
    &&& after.pending_tasks == before.pending_tasks
    &&& after.completed_tasks == before.completed_tasks
    &&& after.error_log == before.error_log
    &&& after.quality_scores == before.quality_scores
    &&& after.metadata == before.metadata
    &&& after.last_updated == before.last_updated
    &&& after.max_iterations == before.max_iterations
    &&& after.current_iteration >= before.current_iteration
    &&& before.current_iteration <= before.max_iterations ==> after.current_iteration <= after.max_iterations
    &&& match payload.verification_results {
        None => {
            &&& decision.is_none()
            &&& after.current_iteration == before.current_iteration
            &&& after.iteration_history == before.iteration_history
            &&& after.requirements_satisfied == before.requirements_satisfied
        },
        Some(evidence) => {
            let go = should_continue(
                evidence@,
                before.requirements_satisfied@,
                before.current_iteration,
                before.max_iterations,
            );
            let met = satisfaction(evidence@, before.requirements_satisfied@);
            &&& decision matches Some(d)
            &&& d.continue_iteration == go
            &&& after.requirements_satisfied@ == met
            &&& after.current_iteration == before.current_iteration + if go {
                1int
            } else {
                0int
            }
            &&& after.iteration_history@.len() == before.iteration_history@.len()
                + 1
            &&& after.iteration_history@.drop_last() == before.iteration_history@
            &&& records_pass(after.iteration_history@.last(), before, met, now)
            &&& match d.next {
                Some(event) => {
                    &&& mappings.contains_key(follow_up(go))
                    &&& event matches Event::Custom { name, payload: carried }
                    &&& name@ == mappings[follow_up(go)]
                    &&& carried.continue_iteration == Some(go)
                    &&& carried.iteration_number == Some(after.current_iteration)
                    &&& carried.correlation_id == payload.correlation_id
                    &&& carried.verification_results == payload.verification_results
                    &&& carried.fields == payload.fields
                },
                None => !mappings.contains_key(follow_up(go)),
            }
        },
    }
}

/// The event whose mapping a decision follows: the end of a verification
/// where another pass is due, the decision itself where not.
pub open spec fn follow_up(go: bool) -> Seq<char> {
    if go {
        "docs-verification-complete"@
    } else {
        "docs-iteration-decision"@
    }
}

/// `snapshot` records the pass that ended at `now` in state `before`, with
/// `met` saying which requirements were met.
pub open spec fn records_pass(
    snapshot: IterationState,
    before: DocSyncState,
    met: Map<Seq<char>, bool>,
    now: u64,
) -> bool {
    &&& snapshot.iteration_number == before.current_iteration
    &&& snapshot.timestamp == now
    &&& quality_view(snapshot.quality_scores) == quality_view(before.quality_scores)
    &&& snapshot.verification_results@ == met
    &&& snapshot.tasks_completed == before.completed_tasks@.len()
    &&& snapshot.tasks_pending == before.pending_tasks@.len()
    &&& snapshot.issues_found == before.error_log@.len()
    &&& snapshot.issues_resolved == 0
}

/// A module that analyzes and reports. `depth` is a free word; it starts
/// as "standard".
#[derive(Debug, Clone)]
pub struct AnalyzerModule {
    base: BaseBehaviorModule,
    analysis_depth: String,
}

impl AnalyzerModule {
    pub closed spec fn base(&self) -> BaseBehaviorModule {
        self.base
    }

    pub closed spec fn depth(&self) -> Seq<char> {
        self.analysis_depth@
    }

    /// An analyzer of the given name, with the tools of an analyzer and
    /// the depth "standard".
    pub fn new(name: &str) -> (module: Self)
        ensures
            module.base().name_text() == name@,
            module.base().patterns() == Seq::<Seq<char>>::empty(),
            module.base().tools() == analyzer_tools(),
            module.base().settings() == Map::<Seq<char>, Seq<char>>::empty(),
            module.depth() == "standard"@,
    {
        let mut base = BaseBehaviorModule::new(name);
        base.add_required_tool("tool_forge_fs_read");
        base.add_required_tool("tool_forge_fs_list");
        base.add_required_tool("tool_forge_fs_search");
        assert(base.tools() =~= analyzer_tools());
        AnalyzerModule { base, analysis_depth: String::from_str("standard") }
    }

    pub fn add_event_pattern(&mut self, pattern: &str)
        ensures
            final(self).base().patterns() == old(self).base().patterns().push(pattern@),
            final(self).base().name_text() == old(self).base().name_text(),
            final(self).base().tools() == old(self).base().tools(),
            final(self).base().settings() == old(self).base().settings(),
            final(self).depth() == old(self).depth(),
    {
        self.base.add_event_pattern(pattern);
    }

    pub fn set_analysis_depth(&mut self, depth: &str)
        ensures
            final(self).depth() == depth@,
            final(self).base() == old(self).base(),
    {
        self.analysis_depth = String::from_str(depth);
    }

    pub fn get_analysis_depth(&self) -> (depth: &str)
        ensures
            depth@ == self.depth(),
    {
        self.analysis_depth.as_str()
    }
}

/// A module that executes operations.
#[derive(Debug, Clone)]
pub struct ExecutorModule {
    base: BaseBehaviorModule,
}

impl ExecutorModule {
    pub closed spec fn base(&self) -> BaseBehaviorModule {
        self.base
    }

    /// An executor of the given name, with the tools of an executor.
    pub fn new(name: &str) -> (module: Self)
        ensures
            module.base().name_text() == name@,
            module.base().patterns() == Seq::<Seq<char>>::empty(),
            module.base().tools() == executor_tools(),
            module.base().settings() == Map::<Seq<char>, Seq<char>>::empty(),
    {
        let mut base = BaseBehaviorModule::new(name);
        base.add_required_tool("tool_forge_fs_read");
        base.add_required_tool("tool_forge_fs_create");
        base.add_required_tool("tool_forge_fs_patch");
        base.add_required_tool("tool_forge_fs_remove");
        base.add_required_tool("tool_forge_event_dispatch");
        assert(base.tools() =~= executor_tools());
        ExecutorModule { base }
    }

    pub fn add_event_pattern(&mut self, pattern: &str)
        ensures
            final(self).base().patterns() == old(self).base().patterns().push(pattern@),
            final(self).base().name_text() == old(self).base().name_text(),
            final(self).base().tools() == old(self).base().tools(),
            final(self).base().settings() == old(self).base().settings(),
    {
        self.base.add_event_pattern(pattern);
    }
}

/// A module that carries out the changes planned in the refinement loop.
#[derive(Debug, Clone)]
pub struct ImplementerModule {
    base: BaseBehaviorModule,
}

impl ImplementerModule {
    pub closed spec fn base(&self) -> BaseBehaviorModule {
        self.base
    }

    /// An implementer of the given name, with the tools of an implementer,
    /// that answers to "docs-implement-changes".
    pub fn new(name: &str) -> (module: Self)
        ensures
            module.base().name_text() == name@,
            module.base().patterns() == seq!["docs-implement-changes"@],
            module.base().tools() == implementer_tools(),
            module.base().settings() == Map::<Seq<char>, Seq<char>>::empty(),
    {
        let mut base = BaseBehaviorModule::new(name);
        base.add_required_tool("tool_forge_fs_read");
        base.add_required_tool("tool_forge_fs_create");
        base.add_required_tool("tool_forge_fs_patch");
        base.add_required_tool("tool_forge_fs_remove");
        base.add_required_tool("tool_forge_event_dispatch");
        base.add_event_pattern("docs-implement-changes");
        assert(base.tools() =~= implementer_tools());
        assert(base.patterns() =~= seq!["docs-implement-changes"@]);
        ImplementerModule { base }
    }
}

/// A module that decides whether the refinement loop goes on.
#[derive(Debug, Clone)]
pub struct IterationDecisionModule {
    base: BaseBehaviorModule,
}

impl IterationDecisionModule {
    pub closed spec fn base(&self) -> BaseBehaviorModule {
        self.base
    }

    /// A decision module of the given name, with its tools, that answers
    /// to "docs-verification-complete" and "docs-iteration-decision".
    pub fn new(name: &str) -> (module: Self)
        ensures
            module.base().name_text() == name@,
            module.base().patterns() == seq![
                "docs-verification-complete"@,
                "docs-iteration-decision"@,
            ],
            module.base().tools() == decision_tools(),
            module.base().settings() == Map::<Seq<char>, Seq<char>>::empty(),
    {
        let mut base = BaseBehaviorModule::new(name);
        base.add_required_tool("tool_forge_fs_read");
        base.add_required_tool("tool_forge_event_dispatch");
        base.add_event_pattern("docs-verification-complete");
        base.add_event_pattern("docs-iteration-decision");
        assert(base.tools() =~= decision_tools());
        assert(base.patterns() =~= seq![
            "docs-verification-complete"@,
            "docs-iteration-decision"@,
        ]);
        IterationDecisionModule { base }
    }

    /// Judges each requirement by the findings of a verification and says
    /// whether another pass is due: only while a requirement is unmet and
    /// `current_iteration` is below `max_iterations`.
    pub fn evaluate_requirements(
        &self,
        verification_results: &StrMap<Evidence>,
        requirements: &StrMap<bool>,
        current_iteration: u32,
        max_iterations: u32,
    ) -> (verdict: (bool, StrMap<bool>))
        ensures
            verdict.0 == should_continue(
                verification_results@,
                requirements@,
                current_iteration,
                max_iterations,
            ),
            verdict.1@ == satisfaction(verification_results@, requirements@),
            current_iteration >= max_iterations ==> !verdict.0,
    {
        let mut satisfied: StrMap<bool> = StrMap::new();
        let mut all_satisfied = true;
        let n: usize = requirements.len();
        let ghost wanted = requirements@;
        let ghost order = requirements.keys();
        let ghost evidence = verification_results@;
        let mut i: usize = 0;
        while i < n
            invariant
                wanted == requirements@,
                order == requirements.keys(),
                evidence == verification_results@,
                n == order.len(),
                forall|k: Seq<char>| wanted.contains_key(k) <==> order.contains(k),
                i <= n,
                forall|k: Seq<char>|
                    satisfied@.contains_key(k) <==> (exists|j: int| 0 <= j < i && order[j] == k),
                forall|k: Seq<char>|
                    satisfied@.contains_key(k) ==> satisfied@[k] == meets(evidence, k, wanted[k]),
                all_satisfied <==> (forall|j: int|
                    0 <= j < i ==> meets(evidence, #[trigger] order[j], wanted[order[j]])),
            decreases n - i,
        {
            let req_key = requirements.key_at(i);
            let required_value = *requirements.value_at(i);
            let is_satisfied = match verification_results.get(req_key.as_str()) {
                Some(Evidence::Flag(b)) => *b == required_value,
                Some(Evidence::Score(s)) => *s > 700,
                Some(Evidence::Other) => false,
                None => false,
            };
            assert(is_satisfied == meets(evidence, order[i as int], wanted[order[i as int]]));
            satisfied.insert(req_key.clone(), is_satisfied);
            if !is_satisfied {
                all_satisfied = false;
            }
            proof {
                assert forall|k: Seq<char>|
                    satisfied@.contains_key(k) <==> (exists|j: int|
                        0 <= j < i + 1 && order[j] == k) by {
                    if k == order[i as int] {
                        assert(0 <= i < i + 1 && order[i as int] == k);
                    }
                }
            }
            i += 1;
        }
        proof {
            assert forall|k: Seq<char>| satisfied@.contains_key(k) <==> wanted.contains_key(k) by {
                if satisfied@.contains_key(k) {
                    let j = choose|j: int| 0 <= j < n && order[j] == k;
                    assert(order[j] == k);
                    assert(order.contains(k));
                }
                if wanted.contains_key(k) {
                    assert(order.contains(k));
                    let j = choose|j: int| 0 <= j < order.len() && order[j] == k;
                    assert(0 <= j < n && order[j] == k);
                }
            }
            assert(satisfied@ =~= satisfaction(evidence, wanted));
            if all_satisfied {
                assert forall|k: Seq<char>| wanted.contains_key(k) implies meets(
                    evidence,
                    k,
                    wanted[k],
                ) by {
                    assert(order.contains(k));
                    let j = choose|j: int| 0 <= j < order.len() && order[j] == k;
                    assert(meets(evidence, order[j], wanted[order[j]]));
                }
            } else {
                let j = choose|j: int|
                    0 <= j < n && !meets(evidence, #[trigger] order[j], wanted[order[j]]);
                assert(order.contains(order[j]));
                assert(wanted.contains_key(order[j]));
            }
        }
        let continue_iteration = !all_satisfied && current_iteration < max_iterations;
        (continue_iteration, satisfied)
    }
}

/// A unit of event handling that an agent can be given.
pub trait BehaviorModule {
    /// Handles `event`. What is to be sent on is put into the context's
    /// outbox; the workflow's state is changed in the context.
    fn process_event(&self, event: &Event, context: &mut AgentContext) -> Result<
        (),
        BehaviorModuleError,
    >;

    /// Does the module answer to `event`?
    fn can_handle_event(&self, event: &Event) -> bool;

    /// The tools that the module declares it needs.
    fn get_required_tools(&self) -> Vec<String>;
}

/// `after` is `before` with nothing changed but, perhaps, the workflow's
/// state and the outbox.
pub open spec fn same_identity(before: AgentContext, after: AgentContext) -> bool {
    &&& after.agent_id == before.agent_id
    &&& after.role == before.role
    &&& after.metadata == before.metadata
    &&& after.now == before.now
}

/// The outbox `after` is the outbox `before` with, where `key` is mapped,
/// one free-form event more: under the mapped name, carrying what `event`
/// carries.
pub open spec fn forwarded(
    mappings: Map<Seq<char>, Seq<char>>,
    key: Seq<char>,
    event: Event,
    before: Seq<Event>,
    after: Seq<Event>,
) -> bool {
    if mappings.contains_key(key) {
        &&& after.len() == before.len() + 1
        &&& after.drop_last() == before
        &&& after.last() matches Event::Custom { name, payload }
        &&& name@ == mappings[key]
        &&& event.carries(payload)
    } else {
        after == before
    }
}

/// The outbox `after` is the outbox `before` with the decision's event
/// behind it, if the decision has one.
pub open spec fn decision_sent(
    decision: Option<IterationDecision>,
    before: Seq<Event>,
    after: Seq<Event>,
) -> bool {
    match decision {
        Some(IterationDecision { next: Some(event), .. }) => after == before.push(event),
        _ => after == before,
    }
}

impl CoordinatorModule {
    /// What a coordinator makes of `event`. The end of a verification is
    /// decided on where the refinement loop is switched on (an event
    /// without a workflow is refused); every other event, and the end of a
    /// verification where the loop is switched off, is passed on to the
    /// event mapped to it.
    pub open spec fn handled(
        &self,
        event: Event,
        before: AgentContext,
        after: AgentContext,
        done: Result<(), BehaviorModuleError>,
    ) -> bool {
        &&& same_identity(before, after)
        &&& if event.name_text() == "doc_sync.docs-verification-complete"@
            && self.feedback_enabled() {
            exists|payload: EventPayload|
                {
                    &&& #[trigger] event.carries(payload)
                    &&& if payload.correlation_id.is_none() {
                        &&& done matches Err(BehaviorModuleError::InvalidPayload(d))
                        &&& d@ == "Missing correlation_id"@
                        &&& after.state == before.state
                        &&& after.outbox@ == before.outbox@
                    } else {
                        &&& done is Ok
                        &&& exists|decision: Option<IterationDecision>|
                            {
                                &&& #[trigger] verification_applied(
                                    self.mappings(),
                                    payload,
                                    before.state,
                                    after.state,
                                    decision,
                                    before.now,
                                )
                                &&& decision_sent(decision, before.outbox@, after.outbox@)
                            }
                    }
                }
        } else {
            &&& done is Ok
            &&& after.state == before.state
            &&& forwarded(
                self.mappings(),
                if event.name_text() == "doc_sync.docs-verification-complete"@ {
                    "docs-verification-complete"@
                } else {
                    event.name_text()
                },
                event,
                before.outbox@,
                after.outbox@,
            )
        }
    }

    /// Puts the event that follows `key` and carries `payload` into the
    /// outbox, if `key` is mapped.
    fn forward(&self, key: &str, payload: EventPayload, context: &mut AgentContext)
        ensures
            same_identity(*old(context), *final(context)),
            final(context).state == old(context).state,
            match self.mappings().contains_key(key@) {
                true => {
                    &&& final(context).outbox@.len() == old(context).outbox@.len() + 1
                    &&& final(context).outbox@.drop_last() == old(context).outbox@
                    &&& final(context).outbox@.last() matches Event::Custom { name, payload: carried }
                    &&& name@ == self.mappings()[key@]
                    &&& carried == payload
                },
                false => final(context).outbox@ == old(context).outbox@,
            },
    {
        match self.next_event(key, payload) {
            Some(next) => {
                let ghost before = context.outbox@;
                context.outbox.push(next);
                assert(context.outbox@.drop_last() =~= before);
            },
            None => {},
        }
    }
}

impl BehaviorModule for CoordinatorModule {
    fn process_event(&self, event: &Event, context: &mut AgentContext) -> (done: Result<
        (),
        BehaviorModuleError,
    >)
        ensures
            self.handled(*event, *old(context), *final(context), done),
    {
        let event_name = event.name();
        let payload = event.payload();
        if str_eq(event_name.as_str(), "doc_sync.docs-verification-complete") {
            if !self.is_feedback_loop_enabled() {
                self.forward("docs-verification-complete", payload, context);
                return Ok(());
            }
            if payload.correlation_id.is_none() {
                assert(event.carries(payload));
                return Err(
                    BehaviorModuleError::InvalidPayload(String::from_str("Missing correlation_id")),
                );
            }
            let ghost carried = payload;
            let now = context.now;
            let decision = self.apply_verification(payload, &mut context.state, now);
            let ghost decided = decision;
            match decision {
                Some(IterationDecision { next: Some(next), .. }) => {
                    context.outbox.push(next);
                },
                _ => {},
            }
            proof {
                assert(event.carries(carried));
                assert(verification_applied(
                    self.mappings(),
                    carried,
                    old(context).state,
                    context.state,
                    decided,
                    old(context).now,
                ));
                assert(decision_sent(decided, old(context).outbox@, context.outbox@));
            }
            Ok(())
        } else {
            self.forward(event_name.as_str(), payload, context);
            Ok(())
        }
    }

    fn can_handle_event(&self, event: &Event) -> (hit: bool)
        ensures
            hit == any_matches(self.base().patterns(), event.name_text()),
    {
        let name = event.name();
        self.base.matches_event_pattern(name.as_str())
    }

    fn get_required_tools(&self) -> (tools: Vec<String>)
        ensures
            texts_of(tools@) == self.base().tools(),
    {
        self.base.required_tools()
    }
}

impl BehaviorModule for AnalyzerModule {
    /// An analyzer as such does nothing with an event.
    fn process_event(&self, event: &Event, context: &mut AgentContext) -> (done: Result<
        (),
        BehaviorModuleError,
    >)
        ensures
            done is Ok,
            *final(context) == *old(context),
    {
        Ok(())
    }

    fn can_handle_event(&self, event: &Event) -> (hit: bool)
        ensures
            hit == any_matches(self.base().patterns(), event.name_text()),
    {
        let name = event.name();
        self.base.matches_event_pattern(name.as_str())
    }

    fn get_required_tools(&self) -> (tools: Vec<String>)
        ensures
            texts_of(tools@) == self.base().tools(),
    {
        self.base.required_tools()
    }
}

impl BehaviorModule for ExecutorModule {
    /// An executor as such does nothing with an event.
    fn process_event(&self, event: &Event, context: &mut AgentContext) -> (done: Result<
        (),
        BehaviorModuleError,
    >)
        ensures
            done is Ok,
            *final(context) == *old(context),
    {
        Ok(())
    }

    fn can_handle_event(&self, event: &Event) -> (hit: bool)
        ensures
            hit == any_matches(self.base().patterns(), event.name_text()),
    {
        let name = event.name();
        self.base.matches_event_pattern(name.as_str())
    }

    fn get_required_tools(&self) -> (tools: Vec<String>)
        ensures
            texts_of(tools@) == self.base().tools(),
    {
        self.base.required_tools()
    }
}

impl BehaviorModule for ImplementerModule {
    /// An implementer as such does nothing with an event.
    fn process_event(&self, event: &Event, context: &mut AgentContext) -> (done: Result<
        (),
        BehaviorModuleError,
    >)
        ensures
            done is Ok,
            *final(context) == *old(context),
    {
        Ok(())
    }

    fn can_handle_event(&self, event: &Event) -> (hit: bool)
        ensures
            hit == any_matches(self.base().patterns(), event.name_text()),
    {
        let name = event.name();
        self.base.matches_event_pattern(name.as_str())
    }

    fn get_required_tools(&self) -> (tools: Vec<String>)
        ensures
            texts_of(tools@) == self.base().tools(),
    {
        self.base.required_tools()
    }
}

impl BehaviorModule for IterationDecisionModule {
    /// A decision module as such does nothing with an event.
    fn process_event(&self, event: &Event, context: &mut AgentContext) -> (done: Result<
        (),
        BehaviorModuleError,
    >)
        ensures
            done is Ok,
            *final(context) == *old(context),
    {
        Ok(())
    }

    fn can_handle_event(&self, event: &Event) -> (hit: bool)
        ensures
            hit == any_matches(self.base().patterns(), event.name_text()),
    {
        let name = event.name();
        self.base.matches_event_pattern(name.as_str())
    }

    fn get_required_tools(&self) -> (tools: Vec<String>)
        ensures
            texts_of(tools@) == self.base().tools(),
    {
        self.base.required_tools()
    }
}

} // verus!
