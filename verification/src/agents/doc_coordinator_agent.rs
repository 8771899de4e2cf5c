use crate::agent_core::behavior::{satisfaction, should_continue, IterationDecisionModule};
use crate::events::doc_sync_events::{
    empty_doc_map, quality_view, random_uuid_text, unix_seconds,
    AnalyzeContentPayload, AnalyzeCssPayload, AnalyzeDocusaurusPayload, AnalyzeUiPayload,
    CompletePayload, ContentOperation, CssOperation, DocSyncEvent, DocSyncPayload,
    DocumentationMap, ExecutePayload, ExecutionParams, PlanChangesPayload, StartPayload,
    StructureOperation, SyncOperation, SyncSummaryReport, UiOperation, VerificationParams,
    VerifyPayload,
};
use crate::events::{evidence_in, evidence_of, handlers_added, occurrences, Event, EventSystem};
use crate::state::doc_sync_state::{DocSyncState, IterationState, StateError, SyncTask};
use crate::str_map::StrMap;
use crate::text::{join2, str_eq};
use vstd::multiset::Multiset;
use vstd::prelude::*;

verus! {

/// Why the coordinator could not do its work. Each variant but the first
/// carries the detail as text.
#[derive(Debug, Clone)]
pub enum DocCoordinatorError {
    StateError(StateError),
    EventSystemError(String),
    InvalidPayload(String),
    CoordinationError(String),
}

impl DocCoordinatorError {
    /// The error as one line of text: what kind it is, then the detail.
    pub open spec fn text(&self) -> Seq<char> {
        match self {
            DocCoordinatorError::StateError(e) => "State error: "@ + e.text(),
            DocCoordinatorError::EventSystemError(d) => "Event system error: "@ + d@,
            DocCoordinatorError::InvalidPayload(d) => "Invalid event payload: "@ + d@,
            DocCoordinatorError::CoordinationError(d) => "Coordination error: "@ + d@,
        }
    }

    /// The error as one line of text.
    pub fn message(&self) -> (line: String)
        ensures
            line@ == self.text(),
    {
        match self {
            DocCoordinatorError::StateError(e) => {
                let inner = e.message();
                join2("State error: ", inner.as_str())
            },
            DocCoordinatorError::EventSystemError(d) => join2("Event system error: ", d.as_str()),
            DocCoordinatorError::InvalidPayload(d) => join2("Invalid event payload: ", d.as_str()),
            DocCoordinatorError::CoordinationError(d) => join2("Coordination error: ", d.as_str()),
        }
    }
}

/// The phases that a workflow goes through, in order; planning and
/// implementing repeat with verifying while the refinement loop goes on.
#[derive(Debug, Clone, Copy, PartialEq, Eq)]
pub enum WorkflowPhase {
    Idle,
    AnalyzingContent,
    AnalyzingDocusaurus,
    AnalyzingUi,
    AnalyzingCss,
    Executing,
    Verifying,
    PlanningChanges,
    Implementing,
    Complete,
}

impl WorkflowPhase {
    /// The word that the state's "status" note holds in this phase.
    pub open spec fn status(self) -> Seq<char> {
        match self {
            WorkflowPhase::Idle => "initializing"@,
            WorkflowPhase::AnalyzingContent => "analyzing_content"@,
            WorkflowPhase::AnalyzingDocusaurus => "analyzing_docusaurus"@,
            WorkflowPhase::AnalyzingUi => "analyzing_ui"@,
            WorkflowPhase::AnalyzingCss => "analyzing_css"@,
            WorkflowPhase::Executing => "executing"@,
            WorkflowPhase::Verifying => "verifying"@,
            WorkflowPhase::PlanningChanges => "planning_changes"@,
            WorkflowPhase::Implementing => "implementing"@,
            WorkflowPhase::Complete => "complete"@,
        }
    }

    /// The type of the task that stands for this phase. The first and the
    /// last phase have no task; their word matches no task.
    pub open spec fn task_type(self) -> Seq<char> {
        match self {
            WorkflowPhase::Idle => ""@,
            WorkflowPhase::AnalyzingContent => "content_analysis"@,
            WorkflowPhase::AnalyzingDocusaurus => "docusaurus_analysis"@,
            WorkflowPhase::AnalyzingUi => "ui_analysis"@,
            WorkflowPhase::AnalyzingCss => "css_analysis"@,
            WorkflowPhase::Executing => "execution"@,
            WorkflowPhase::Verifying => "verification"@,
            WorkflowPhase::PlanningChanges => "planning"@,
            WorkflowPhase::Implementing => "implementation"@,
            WorkflowPhase::Complete => ""@,
        }
    }

    /// What the id of this phase's task begins with.
    pub open spec fn id_prefix(self) -> Seq<char> {
        match self {
            WorkflowPhase::Idle => ""@,
            WorkflowPhase::AnalyzingContent => "content-analysis-"@,
            WorkflowPhase::AnalyzingDocusaurus => "docusaurus-analysis-"@,
            WorkflowPhase::AnalyzingUi => "ui-analysis-"@,
            WorkflowPhase::AnalyzingCss => "css-analysis-"@,
            WorkflowPhase::Executing => "execution-"@,
            WorkflowPhase::Verifying => "verification-"@,
            WorkflowPhase::PlanningChanges => "planning-"@,
            WorkflowPhase::Implementing => "implementation-"@,
            WorkflowPhase::Complete => ""@,
        }
    }

    /// The agent that this phase's task is given to.
    pub open spec fn assignee(self) -> Seq<char> {
        match self {
            WorkflowPhase::Idle => ""@,
            WorkflowPhase::AnalyzingContent => "doc-content-syncer"@,
            WorkflowPhase::AnalyzingDocusaurus => "docusaurus-expert"@,
            WorkflowPhase::AnalyzingUi => "ui-design-expert"@,
            WorkflowPhase::AnalyzingCss => "css-expert"@,
            WorkflowPhase::Executing => "doc-runner"@,
            WorkflowPhase::Verifying => "doc-verifier"@,
            WorkflowPhase::PlanningChanges => "doc-coordinator"@,
            WorkflowPhase::Implementing => "doc-runner"@,
            WorkflowPhase::Complete => ""@,
        }
    }

    /// Does a task stand for this phase?
    pub open spec fn has_task(self) -> bool {
        !(self is Idle) && !(self is Complete)
    }

    pub fn status_word(self) -> (word: &'static str)
        ensures
            word@ == self.status(),
    {
        match self {
            WorkflowPhase::Idle => "initializing",
            WorkflowPhase::AnalyzingContent => "analyzing_content",
            WorkflowPhase::AnalyzingDocusaurus => "analyzing_docusaurus",
            WorkflowPhase::AnalyzingUi => "analyzing_ui",
            WorkflowPhase::AnalyzingCss => "analyzing_css",
            WorkflowPhase::Executing => "executing",
            WorkflowPhase::Verifying => "verifying",
            WorkflowPhase::PlanningChanges => "planning_changes",
            WorkflowPhase::Implementing => "implementing",
            WorkflowPhase::Complete => "complete",
        }
    }

    pub fn task_type_word(self) -> (word: &'static str)
        ensures
            word@ == self.task_type(),
    {
        match self {
            WorkflowPhase::Idle => "",
            WorkflowPhase::AnalyzingContent => "content_analysis",
            WorkflowPhase::AnalyzingDocusaurus => "docusaurus_analysis",
            WorkflowPhase::AnalyzingUi => "ui_analysis",
            WorkflowPhase::AnalyzingCss => "css_analysis",
            WorkflowPhase::Executing => "execution",
            WorkflowPhase::Verifying => "verification",
            WorkflowPhase::PlanningChanges => "planning",
            WorkflowPhase::Implementing => "implementation",
            WorkflowPhase::Complete => "",
        }
    }

    pub fn id_prefix_word(self) -> (word: &'static str)
        ensures
            word@ == self.id_prefix(),
    {
        match self {
            WorkflowPhase::Idle => "",
            WorkflowPhase::AnalyzingContent => "content-analysis-",
            WorkflowPhase::AnalyzingDocusaurus => "docusaurus-analysis-",
            WorkflowPhase::AnalyzingUi => "ui-analysis-",
            WorkflowPhase::AnalyzingCss => "css-analysis-",
            WorkflowPhase::Executing => "execution-",
            WorkflowPhase::Verifying => "verification-",
            WorkflowPhase::PlanningChanges => "planning-",
            WorkflowPhase::Implementing => "implementation-",
            WorkflowPhase::Complete => "",
        }
    }

    pub fn assignee_word(self) -> (word: &'static str)
        ensures
            word@ == self.assignee(),
    {
        match self {
            WorkflowPhase::Idle => "",
            WorkflowPhase::AnalyzingContent => "doc-content-syncer",
            WorkflowPhase::AnalyzingDocusaurus => "docusaurus-expert",
            WorkflowPhase::AnalyzingUi => "ui-design-expert",
            WorkflowPhase::AnalyzingCss => "css-expert",
            WorkflowPhase::Executing => "doc-runner",
            WorkflowPhase::Verifying => "doc-verifier",
            WorkflowPhase::PlanningChanges => "doc-coordinator",
            WorkflowPhase::Implementing => "doc-runner",
            WorkflowPhase::Complete => "",
        }
    }

    pub fn needs_task(self) -> (needed: bool)
        ensures
            needed == self.has_task(),
    {
        match self {
            WorkflowPhase::Idle => false,
            WorkflowPhase::Complete => false,
            _ => true,
        }
    }
}

/// The tasks of `tasks` whose type is `task_type`, in order.
pub open spec fn of_type(tasks: Seq<SyncTask>, task_type: Seq<char>) -> Seq<SyncTask>
    decreases tasks.len(),
{
    if tasks.len() == 0 {
        Seq::empty()
    } else if tasks.last().task_type@ == task_type {
        of_type(tasks.drop_last(), task_type).push(tasks.last())
    } else {
        of_type(tasks.drop_last(), task_type)
    }
}

/// The tasks of `tasks` whose type is not `task_type`, in order.
pub open spec fn not_of_type(tasks: Seq<SyncTask>, task_type: Seq<char>) -> Seq<SyncTask>
    decreases tasks.len(),
{
    if tasks.len() == 0 {
        Seq::empty()
    } else if tasks.last().task_type@ == task_type {
        not_of_type(tasks.drop_last(), task_type)
    } else {
        not_of_type(tasks.drop_last(), task_type).push(tasks.last())
    }
}

/// `after` is the task `before`, completed at `now`.
pub open spec fn completes(before: SyncTask, after: SyncTask, now: u64) -> bool {
    &&& after.task_id == before.task_id
    &&& after.task_type == before.task_type
    &&& after.assigned_to == before.assigned_to
    &&& after.parameters == before.parameters
    &&& after.created_at == before.created_at
    &&& after.status@ == "completed"@
    &&& after.updated_at == now
}

/// `task` is the pending task that stands for `phase`, made at `now`, with
/// `suffix` closing its id.
pub open spec fn opens(task: SyncTask, phase: WorkflowPhase, suffix: Seq<char>, now: u64) -> bool {
    &&& task.task_id@ == phase.id_prefix() + suffix
    &&& task.task_type@ == phase.task_type()
    &&& task.status@ == "pending"@
    &&& task.assigned_to@ == phase.assignee()
    &&& task.parameters@ == Map::<Seq<char>, String>::empty()
    &&& task.created_at == now
    &&& task.updated_at == now
}

/// The task lists `after` are the task lists `before` with the tasks of the
/// phase `finished` moved from pending to completed, each completed at
/// `now`, and with a new pending task for `phase` where it has one.
pub open spec fn tasks_advanced(
    before: DocSyncState,
    after: DocSyncState,
    finished: WorkflowPhase,
    phase: WorkflowPhase,
    suffix: Seq<char>,
    now: u64,
) -> bool {
    let moved = of_type(before.pending_tasks@, finished.task_type());
    let kept = not_of_type(before.pending_tasks@, finished.task_type());
    let done = before.completed_tasks@.len() as int;
    &&& after.completed_tasks@.len() == done + moved.len()
    &&& after.completed_tasks@.subrange(0, done) == before.completed_tasks@
    &&& forall|j: int|
        0 <= j < moved.len() ==> completes(moved[j], #[trigger] after.completed_tasks@[done + j], now)
    &&& if phase.has_task() {
        &&& after.pending_tasks@.len() == kept.len() + 1
        &&& after.pending_tasks@.drop_last() == kept
        &&& opens(after.pending_tasks@.last(), phase, suffix, now)
    } else {
        after.pending_tasks@ == kept
    }
}

/// `after` is `before` moved on from the phase `finished` into `phase`:
/// the status says so and the tasks are advanced. The blackboard, the
/// scores and the iteration record are not touched.
pub open spec fn phase_entered(
    before: DocSyncState,
    after: DocSyncState,
    finished: WorkflowPhase,
    phase: WorkflowPhase,
    suffix: Seq<char>,
    now: u64,
) -> bool {
    &&& after.metadata.texts() == before.metadata.texts().insert("status"@, phase.status())
    &&& tasks_advanced(before, after, finished, phase, suffix, now)
    &&& after.error_log == before.error_log
    &&& after.last_updated == before.last_updated
    &&& after.max_iterations == before.max_iterations
}

/// `v` with its elements in the opposite order.
fn reversed<T>(v: Vec<T>) -> (r: Vec<T>)
    ensures
        r@.len() == v@.len(),
        forall|i: int| 0 <= i < v@.len() ==> #[trigger] r@[i] == v@[v@.len() - 1 - i],
{
    let mut source = v;
    let mut r: Vec<T> = Vec::new();
    let ghost all = source@;
    let n: usize = source.len();
    while source.len() > 0
        invariant
            n == all.len(),
            source@.len() + r@.len() == n,
            source@ == all.subrange(0, source@.len() as int),
            forall|i: int| 0 <= i < r@.len() ==> #[trigger] r@[i] == all[n - 1 - i],
        decreases source@.len(),
    {
        let ghost k = source@.len();
        let item = source.pop().unwrap();
        assert(item == all[k - 1]);
        r.push(item);
        assert(source@ =~= all.subrange(0, source@.len() as int));
    }
    r
}

/// Something that can be handed to the runner as a file operation.
pub trait Runnable: Sized {
    /// The operation as the runner takes it.
    spec fn as_sync(self) -> SyncOperation;

    /// The operation as the runner takes it.
    fn into_sync(self) -> (op: SyncOperation)
        ensures
            op == self.as_sync(),
    ;
}

impl Runnable for ContentOperation {
    open spec fn as_sync(self) -> SyncOperation {
        SyncOperation::ContentOperation(self)
    }

    fn into_sync(self) -> (op: SyncOperation) {
        SyncOperation::ContentOperation(self)
    }
}

impl Runnable for StructureOperation {
    open spec fn as_sync(self) -> SyncOperation {
        SyncOperation::StructureOperation(self)
    }

    fn into_sync(self) -> (op: SyncOperation) {
        SyncOperation::StructureOperation(self)
    }
}

impl Runnable for UiOperation {
    open spec fn as_sync(self) -> SyncOperation {
        SyncOperation::UiOperation(self)
    }

    fn into_sync(self) -> (op: SyncOperation) {
        SyncOperation::UiOperation(self)
    }
}

impl Runnable for CssOperation {
    open spec fn as_sync(self) -> SyncOperation {
        SyncOperation::CssOperation(self)
    }

    fn into_sync(self) -> (op: SyncOperation) {
        SyncOperation::CssOperation(self)
    }
}

/// `found`, each as the runner takes it.
pub open spec fn as_sync_all<T: Runnable>(found: Seq<T>) -> Seq<SyncOperation> {
    found.map_values(|o: T| o.as_sync())
}

/// Puts the operations `found`, each as the runner takes it, behind the
/// operations already in `planned`.
pub fn plan_all<T: Runnable>(planned: &mut Vec<SyncOperation>, found: Vec<T>)
    ensures
        final(planned)@ == old(planned)@ + as_sync_all(found@),
{
    let ghost all = found@;
    let ghost start = planned@;
    let n: usize = found.len();
    let mut rest = reversed(found);
    let mut i: usize = 0;
    while i < n
        invariant
            n == all.len(),
            i <= n,
            rest@.len() == n - i,
            forall|j: int| 0 <= j < n - i ==> #[trigger] rest@[j] == all[n - 1 - j],
            planned@ == start + as_sync_all(all.subrange(0, i as int)),
        decreases n - i,
    {
        let item = rest.pop().unwrap();
        assert(item == all[i as int]);
        planned.push(item.into_sync());
        assert(planned@ =~= start + as_sync_all(all.subrange(0, i + 1)));
        i += 1;
    }
    assert(all.subrange(0, n as int) =~= all);
}

/// The summary that closes a workflow: nothing counted, and the overall
/// status "success" where every requirement is met and "partial" where not.
pub open spec fn closing_summary(summary: SyncSummaryReport, all_met: bool) -> bool {
    &&& summary.files_analyzed == 0
    &&& summary.files_created == 0
    &&& summary.files_updated == 0
    &&& summary.files_deleted == 0
    &&& summary.operations_executed == 0
    &&& summary.operations_failed == 0
    &&& summary.critical_issues == 0
    &&& summary.major_issues == 0
    &&& summary.minor_issues == 0
    &&& summary.overall_status@ == if all_met {
        "success"@
    } else {
        "partial"@
    }
    &&& summary.metadata@ == Map::<Seq<char>, String>::empty()
}

/// `event` goes from the coordinator to `target` for the workflow
/// `correlation_id` at time `now` under the name `event_type`.
pub open spec fn sent_by_coordinator(
    event: DocSyncEvent,
    event_type: Seq<char>,
    target: Seq<char>,
    correlation_id: Seq<char>,
    now: u64,
) -> bool {
    &&& event.event_type@ == event_type
    &&& event.source_agent@ == "doc-coordinator"@
    &&& event.target_agent@ == target
    &&& event.correlation_id@ == correlation_id
    &&& event.timestamp == now
}

/// `state` and `start` are the state in which the workflow
/// `correlation_id` begins at `now` and the event that starts it: nothing
/// recorded but the two paths, the scope and the status "initializing";
/// first iteration, at most five.
pub open spec fn synchronization_begun(
    state: DocSyncState,
    start: DocSyncEvent,
    correlation_id: Seq<char>,
    source_path: Seq<char>,
    target_path: Seq<char>,
    scope: Seq<char>,
    options: StrMap<String>,
    now: u64,
) -> bool {
    &&& state.metadata.texts() == map![
        "source_path"@ => source_path,
        "target_path"@ => target_path,
        "scope"@ => scope,
        "status"@ => "initializing"@,
    ]
    &&& state.master_doc_map@ == empty_doc_map()
    &&& state.pending_tasks@.len() == 0
    &&& state.completed_tasks@.len() == 0
    &&& state.error_log@.len() == 0
    &&& state.quality_scores.is_none()
    &&& state.last_updated == now
    &&& state.current_iteration == 1
    &&& state.max_iterations == 5
    &&& state.iteration_history@.len() == 0
    &&& state.requirements_satisfied@ == Map::<Seq<char>, bool>::empty()
    &&& start.event_type@ == "docs-start"@
    &&& start.source_agent@ == "user"@
    &&& start.target_agent@ == "doc-coordinator"@
    &&& start.correlation_id@ == correlation_id
    &&& start.timestamp == now
    &&& start.payload matches DocSyncPayload::Start(p)
    &&& p.source_path@ == source_path
    &&& p.target_path@ == target_path
    &&& p.scope@ == scope
    &&& p.options == options
}

/// Leads a workflow through its phases: on each event it advances the
/// state and says which event goes out next.
#[derive(Debug, Clone)]
pub struct DocCoordinatorAgent {
    planned: Vec<SyncOperation>,
}

impl DocCoordinatorAgent {
    /// The operations that the analyses have found so far and that the
    /// runner has not yet been given.
    pub closed spec fn planned(&self) -> Seq<SyncOperation> {
        self.planned@
    }

    /// A coordinator with no operation planned.
    pub fn new() -> (agent: Self)
        ensures
            agent.planned() == Seq::<SyncOperation>::empty(),
    {
        DocCoordinatorAgent { planned: Vec::new() }
    }

    /// How many operations are planned.
    pub fn planned_count(&self) -> (count: usize)
        ensures
            count == self.planned().len(),
    {
        self.planned.len()
    }

    /// The state in which a workflow begins, stamped `now`, and the event
    /// that starts it.
    pub fn start_synchronization_at(
        &self,
        correlation_id: &str,
        source_path: &str,
        target_path: &str,
        scope: &str,
        options: StrMap<String>,
        now: u64,
    ) -> (begun: (DocSyncState, DocSyncEvent))
        ensures
            synchronization_begun(
                begun.0,
                begun.1,
                correlation_id@,
                source_path@,
                target_path@,
                scope@,
                options,
                now,
            ),
    {
        let mut initial_state = DocSyncState::fresh(now);
        initial_state.metadata.set("source_path", source_path);
        initial_state.metadata.set("target_path", target_path);
        initial_state.metadata.set("scope", scope);
        initial_state.metadata.set("status", "initializing");
        assert(initial_state.metadata.texts() =~= map![
            "source_path"@ => source_path@,
            "target_path"@ => target_path@,
            "scope"@ => scope@,
            "status"@ => "initializing"@,
        ]);
        let start_payload = StartPayload {
            source_path: String::from_str(source_path),
            target_path: String::from_str(target_path),
            scope: String::from_str(scope),
            options,
        };
        let start_event = DocSyncEvent::at(
            "docs-start",
            DocSyncPayload::Start(start_payload),
            "user",
            "doc-coordinator",
            correlation_id,
            now,
        );
        (initial_state, start_event)
    }

    /// Begins a workflow under a fresh random id, at the current time: the
    /// id, the state in which the workflow begins, and the event that
    /// starts it.
    pub fn start_synchronization(
        &self,
        source_path: &str,
        target_path: &str,
        scope: &str,
        options: StrMap<String>,
    ) -> (begun: Result<(String, DocSyncState, DocSyncEvent), DocCoordinatorError>)
        ensures
            begun matches Ok(b) && b.0@.len() == 36 && synchronization_begun(
                b.1,
                b.2,
                b.0@,
                source_path@,
                target_path@,
                scope@,
                options,
                b.1.last_updated,
            ),
    {
        let correlation_id = DocSyncEvent::generate_correlation_id();
        let now = unix_seconds();
        let (state, event) = self.start_synchronization_at(
            correlation_id.as_str(),
            source_path,
            target_path,
            scope,
            options,
            now,
        );
        Ok((correlation_id, state, event))
    }

    /// A fresh random ending for a task id.
    pub fn fresh_task_suffix() -> (suffix: String)
        ensures
            suffix@.len() == 36,
    {
        random_uuid_text()
    }

    /// Moves `state` on from the phase `finished` into `phase`.
    pub fn enter_phase(
        state: &mut DocSyncState,
        finished: WorkflowPhase,
        phase: WorkflowPhase,
        task_suffix: &str,
        now: u64,
    )
        ensures
            phase_entered(*old(state), *final(state), finished, phase, task_suffix@, now),
            final(state).master_doc_map == old(state).master_doc_map,
            final(state).quality_scores == old(state).quality_scores,
            final(state).current_iteration == old(state).current_iteration,
            final(state).iteration_history == old(state).iteration_history,
            final(state).requirements_satisfied == old(state).requirements_satisfied,
    {
        let ghost pending = state.pending_tasks@;
        let ghost completed = state.completed_tasks@;
        let ghost ty = finished.task_type();
        let mut taken: Vec<SyncTask> = Vec::new();
        core::mem::swap(&mut state.pending_tasks, &mut taken);
        let n: usize = taken.len();
        let mut rest = reversed(taken);
        let mut kept: Vec<SyncTask> = Vec::new();
        let mut i: usize = 0;
        while i < n
            invariant
                n == pending.len(),
                ty == finished.task_type(),
                i <= n,
                rest@.len() == n - i,
                forall|j: int| 0 <= j < n - i ==> #[trigger] rest@[j] == pending[n - 1 - j],
                kept@ == not_of_type(pending.subrange(0, i as int), ty),
                state.completed_tasks@.len() == completed.len() + of_type(
                    pending.subrange(0, i as int),
                    ty,
                ).len(),
                state.completed_tasks@.subrange(0, completed.len() as int) == completed,
                forall|j: int|
                    0 <= j < of_type(pending.subrange(0, i as int), ty).len() ==> completes(
                        of_type(pending.subrange(0, i as int), ty)[j],
                        #[trigger] state.completed_tasks@[completed.len() + j],
                        now,
                    ),
                state.master_doc_map == old(state).master_doc_map,
                state.error_log == old(state).error_log,
                state.quality_scores == old(state).quality_scores,
                state.metadata == old(state).metadata,
                state.last_updated == old(state).last_updated,
                state.current_iteration == old(state).current_iteration,
                state.max_iterations == old(state).max_iterations,
                state.iteration_history == old(state).iteration_history,
                state.requirements_satisfied == old(state).requirements_satisfied,
            decreases n - i,
        {
            let ghost seen = pending.subrange(0, i as int);
            let ghost next = pending.subrange(0, i + 1);
            let ghost done_before = state.completed_tasks@;
            let mut task = rest.pop().unwrap();
            proof {
                assert(task == pending[i as int]);
                assert(next.drop_last() =~= seen);
                assert(next.last() == pending[i as int]);
            }
            if str_eq(task.task_type.as_str(), finished.task_type_word()) {
                let ghost as_pending = task;
                task.status = String::from_str("completed");
                task.updated_at = now;
                assert(completes(as_pending, task, now));
                state.completed_tasks.push(task);
                proof {
                    assert(of_type(next, ty) == of_type(seen, ty).push(as_pending));
                    assert(state.completed_tasks@.subrange(0, completed.len() as int)
                        =~= done_before.subrange(0, completed.len() as int));
                    assert forall|j: int| 0 <= j < of_type(next, ty).len() implies completes(
                        of_type(next, ty)[j],
                        #[trigger] state.completed_tasks@[completed.len() + j],
                        now,
                    ) by {
                        if j < of_type(seen, ty).len() {
                            assert(state.completed_tasks@[completed.len() + j]
                                == done_before[completed.len() + j]);
                        }
                    }
                }
            } else {
                kept.push(task);
            }
            i += 1;
        }
        proof {
            assert(pending.subrange(0, n as int) =~= pending);
        }
        if phase.needs_task() {
            let task = SyncTask {
                task_id: join2(phase.id_prefix_word(), task_suffix),
                task_type: String::from_str(phase.task_type_word()),
                status: String::from_str("pending"),
                assigned_to: String::from_str(phase.assignee_word()),
                parameters: StrMap::new(),
                created_at: now,
                updated_at: now,
            };
            let ghost before_push = kept@;
            kept.push(task);
            assert(kept@.drop_last() =~= before_push);
        }
        state.pending_tasks = kept;
        state.metadata.set("status", phase.status_word());
    }

    /// The workflow's status as its state notes it, or "unknown".
    pub fn get_sync_status(&self, state: &DocSyncState) -> (status: Result<
        String,
        DocCoordinatorError,
    >)
        ensures
            status matches Ok(word) && word@ == if state.metadata.texts().contains_key("status"@) {
                state.metadata.texts()["status"@]
            } else {
                "unknown"@
            },
    {
        match state.metadata.get("status") {
            Some(word) => Ok(word.clone()),
            None => Ok(String::from_str("unknown")),
        }
    }

    /// The target path that the state notes.
    fn target_path_of(state: &DocSyncState) -> (path: Result<String, DocCoordinatorError>)
        ensures
            match path {
                Ok(p) => state.metadata.texts().contains_key("target_path"@) && p@
                    == state.metadata.texts()["target_path"@],
                Err(e) => {
                    &&& !state.metadata.texts().contains_key("target_path"@)
                    &&& e matches DocCoordinatorError::CoordinationError(d)
                    &&& d@ == "Target path not found in state"@
                },
            },
    {
        match state.metadata.get("target_path") {
            Some(p) => Ok(p.clone()),
            None => Err(
                DocCoordinatorError::CoordinationError(
                    String::from_str("Target path not found in state"),
                ),
            ),
        }
    }

    /// Handles the start of a workflow: the state enters the content
    /// analysis, and the content analyzer is asked to analyze the source
    /// path with an empty blackboard. An event that carries anything but a
    /// start payload is refused and changes nothing.
    pub fn handle_start_event(
        &mut self,
        event: DocSyncEvent,
        state: &mut DocSyncState,
        task_suffix: &str,
        now: u64,
    ) -> (outcome: Result<DocSyncEvent, DocCoordinatorError>)
        ensures
            start_handled(
                event,
                *old(self),
                *final(self),
                *old(state),
                *final(state),
                task_suffix@,
                now,
                outcome,
            ),
    {
        let DocSyncEvent { event_type: _, payload, source_agent: _, target_agent: _, timestamp: _, correlation_id } =
            event;
        let start = match payload {
            DocSyncPayload::Start(p) => p,
            _ => {
                return Err(
                    DocCoordinatorError::InvalidPayload(String::from_str("Expected Start payload")),
                );
            },
        };
        DocCoordinatorAgent::enter_phase(
            state,
            WorkflowPhase::Idle,
            WorkflowPhase::AnalyzingContent,
            task_suffix,
            now,
        );
        let request = AnalyzeContentPayload {
            source_path: start.source_path,
            doc_map: Some(DocumentationMap::default()),
        };
        Ok(
            DocSyncEvent::at(
                "docs-analyze-content",
                DocSyncPayload::AnalyzeContent(request),
                "doc-coordinator",
                "doc-content-syncer",
                correlation_id.as_str(),
                now,
            ),
        )
    }

    /// What every analysis result does to the state and the plan: the
    /// blackboard is replaced by `doc_map`, the operations found are
    /// planned, and the state moves on from `finished` into `phase`. The
    /// target path noted in the state comes back, or the failure to find
    /// it.
    fn absorb_analysis<T: Runnable>(
        &mut self,
        state: &mut DocSyncState,
        doc_map: &DocumentationMap,
        found: Vec<T>,
        finished: WorkflowPhase,
        phase: WorkflowPhase,
        task_suffix: &str,
        now: u64,
    ) -> (target: Result<String, DocCoordinatorError>)
        ensures
            analysis_absorbed(
                *old(self),
                *final(self),
                *old(state),
                *final(state),
                *doc_map,
                as_sync_all(found@),
                finished,
                phase,
                task_suffix@,
                now,
            ),
            match target {
                Ok(p) => final(state).metadata.texts().contains_key("target_path"@) && p@ == final(state).metadata.texts()["target_path"@],
                Err(e) => {
                    &&& !final(state).metadata.texts().contains_key("target_path"@)
                    &&& e matches DocCoordinatorError::CoordinationError(d)
                    &&& d@ == "Target path not found in state"@
                },
            },
    {
        state.master_doc_map = doc_map.clone();
        plan_all(&mut self.planned, found);
        DocCoordinatorAgent::enter_phase(state, finished, phase, task_suffix, now);
        DocCoordinatorAgent::target_path_of(state)
    }

    /// Handles the result of the content analysis: the blackboard is
    /// replaced, the content operations are planned, the state enters the
    /// site analysis, and the site expert is asked to analyze the target
    /// path with the new blackboard. Without a target path in the state
    /// the workflow stops there.
    pub fn handle_content_analyzed_event(
        &mut self,
        event: DocSyncEvent,
        state: &mut DocSyncState,
        task_suffix: &str,
        now: u64,
    ) -> (outcome: Result<DocSyncEvent, DocCoordinatorError>)
        ensures
            content_analyzed_handled(
                event,
                *old(self),
                *final(self),
                *old(state),
                *final(state),
                task_suffix@,
                now,
                outcome,
            ),
    {
        let DocSyncEvent { event_type: _, payload, source_agent: _, target_agent: _, timestamp: _, correlation_id } =
            event;
        let found = match payload {
            DocSyncPayload::ContentAnalyzed(p) => p,
            _ => {
                return Err(
                    DocCoordinatorError::InvalidPayload(
                        String::from_str("Expected ContentAnalyzed payload"),
                    ),
                );
            },
        };
        let target_path = match self.absorb_analysis(
            state,
            &found.doc_map,
            found.content_operations,
            WorkflowPhase::AnalyzingContent,
            WorkflowPhase::AnalyzingDocusaurus,
            task_suffix,
            now,
        ) {
            Ok(p) => p,
            Err(e) => {
                return Err(e);
            },
        };
        let request = AnalyzeDocusaurusPayload { target_path, doc_map: Some(found.doc_map) };
        Ok(
            DocSyncEvent::at(
                "docs-analyze-docusaurus",
                DocSyncPayload::AnalyzeDocusaurus(request),
                "doc-coordinator",
                "docusaurus-expert",
                correlation_id.as_str(),
                now,
            ),
        )
    }

    /// Handles the result of the site analysis: as for the content
    /// analysis, with the structure operations, and on into the UI
    /// analysis.
    pub fn handle_docusaurus_analyzed_event(
        &mut self,
        event: DocSyncEvent,
        state: &mut DocSyncState,
        task_suffix: &str,
        now: u64,
    ) -> (outcome: Result<DocSyncEvent, DocCoordinatorError>)
        ensures
            docusaurus_analyzed_handled(
                event,
                *old(self),
                *final(self),
                *old(state),
                *final(state),
                task_suffix@,
                now,
                outcome,
            ),
    {
        let DocSyncEvent { event_type: _, payload, source_agent: _, target_agent: _, timestamp: _, correlation_id } =
            event;
        let found = match payload {
            DocSyncPayload::DocusaurusAnalyzed(p) => p,
            _ => {
                return Err(
                    DocCoordinatorError::InvalidPayload(
                        String::from_str("Expected DocusaurusAnalyzed payload"),
                    ),
                );
            },
        };
        let target_path = match self.absorb_analysis(
            state,
            &found.doc_map,
            found.structure_operations,
            WorkflowPhase::AnalyzingDocusaurus,
            WorkflowPhase::AnalyzingUi,
            task_suffix,
            now,
        ) {
            Ok(p) => p,
            Err(e) => {
                return Err(e);
            },
        };
        let request = AnalyzeUiPayload { target_path, doc_map: Some(found.doc_map) };
        Ok(
            DocSyncEvent::at(
                "docs-analyze-ui",
                DocSyncPayload::AnalyzeUi(request),
                "doc-coordinator",
                "ui-design-expert",
                correlation_id.as_str(),
                now,
            ),
        )
    }

    /// Handles the result of the UI analysis: as for the content analysis,
    /// with the UI operations, and on into the CSS analysis.
    pub fn handle_ui_analyzed_event(
        &mut self,
        event: DocSyncEvent,
        state: &mut DocSyncState,
        task_suffix: &str,
        now: u64,
    ) -> (outcome: Result<DocSyncEvent, DocCoordinatorError>)
        ensures
            ui_analyzed_handled(
                event,
                *old(self),
                *final(self),
                *old(state),
                *final(state),
                task_suffix@,
                now,
                outcome,
            ),
    {
        let DocSyncEvent { event_type: _, payload, source_agent: _, target_agent: _, timestamp: _, correlation_id } =
            event;
        let found = match payload {
            DocSyncPayload::UiAnalyzed(p) => p,
            _ => {
                return Err(
                    DocCoordinatorError::InvalidPayload(
                        String::from_str("Expected UiAnalyzed payload"),
                    ),
                );
            },
        };
        let target_path = match self.absorb_analysis(
            state,
            &found.doc_map,
            found.ui_operations,
            WorkflowPhase::AnalyzingUi,
            WorkflowPhase::AnalyzingCss,
            task_suffix,
            now,
        ) {
            Ok(p) => p,
            Err(e) => {
                return Err(e);
            },
        };
        let request = AnalyzeCssPayload { target_path, doc_map: Some(found.doc_map) };
        Ok(
            DocSyncEvent::at(
                "docs-analyze-css",
                DocSyncPayload::AnalyzeCss(request),
                "doc-coordinator",
                "css-expert",
                correlation_id.as_str(),
                now,
            ),
        )
    }

    /// Handles the result of the CSS analysis, the last one: the
    /// blackboard is replaced, the state enters the execution, and the
    /// runner is given every operation planned so far, the CSS operations
    /// last, for a real run. The plan is empty afterwards.
    pub fn handle_css_analyzed_event(
        &mut self,
        event: DocSyncEvent,
        state: &mut DocSyncState,
        task_suffix: &str,
        now: u64,
    ) -> (outcome: Result<DocSyncEvent, DocCoordinatorError>)
        ensures
            css_analyzed_handled(
                event,
                *old(self),
                *final(self),
                *old(state),
                *final(state),
                task_suffix@,
                now,
                outcome,
            ),
    {
        let DocSyncEvent { event_type: _, payload, source_agent: _, target_agent: _, timestamp: _, correlation_id } =
            event;
        let found = match payload {
            DocSyncPayload::CssAnalyzed(p) => p,
            _ => {
                return Err(
                    DocCoordinatorError::InvalidPayload(
                        String::from_str("Expected CssAnalyzed payload"),
                    ),
                );
            },
        };
        state.master_doc_map = found.doc_map.clone();
        plan_all(&mut self.planned, found.css_operations);
        DocCoordinatorAgent::enter_phase(
            state,
            WorkflowPhase::AnalyzingCss,
            WorkflowPhase::Executing,
            task_suffix,
            now,
        );
        let mut operations: Vec<SyncOperation> = Vec::new();
        core::mem::swap(&mut self.planned, &mut operations);
        let request = ExecutePayload {
            doc_map: found.doc_map,
            operations,
            execution_params: ExecutionParams {
                dry_run: false,
                max_parallel_operations: 1,
                backup: false,
                metadata: StrMap::new(),
            },
        };
        Ok(
            DocSyncEvent::at(
                "docs-execute",
                DocSyncPayload::Execute(request),
                "doc-coordinator",
                "doc-runner",
                correlation_id.as_str(),
                now,
            ),
        )
    }

    /// Handles the end of the execution: the state enters the
    /// verification, and the verifier is given the blackboard and the
    /// execution log, with every category to be checked.
    pub fn handle_execution_complete_event(
        &mut self,
        event: DocSyncEvent,
        state: &mut DocSyncState,
        task_suffix: &str,
        now: u64,
    ) -> (outcome: Result<DocSyncEvent, DocCoordinatorError>)
        ensures
            execution_complete_handled(
                event,
                *old(self),
                *final(self),
                *old(state),
                *final(state),
                task_suffix@,
                now,
                outcome,
            ),
    {
        let DocSyncEvent { event_type: _, payload, source_agent: _, target_agent: _, timestamp: _, correlation_id } =
            event;
        let done = match payload {
            DocSyncPayload::ExecutionComplete(p) => p,
            _ => {
                return Err(
                    DocCoordinatorError::InvalidPayload(
                        String::from_str("Expected ExecutionComplete payload"),
                    ),
                );
            },
        };
        DocCoordinatorAgent::enter_phase(
            state,
            WorkflowPhase::Executing,
            WorkflowPhase::Verifying,
            task_suffix,
            now,
        );
        let request = VerifyPayload {
            doc_map: done.doc_map,
            execution_log: done.execution_log,
            verification_params: VerificationParams {
                verify_content: true,
                verify_structure: true,
                verify_ui: true,
                verify_css: true,
                metadata: StrMap::new(),
            },
        };
        Ok(
            DocSyncEvent::at(
                "docs-verify",
                DocSyncPayload::Verify(request),
                "doc-coordinator",
                "doc-verifier",
                correlation_id.as_str(),
                now,
            ),
        )
    }

    /// Handles the end of a verification, where the refinement loop turns
    /// or ends. The scores are kept; each requirement of the state is
    /// judged by the findings; a snapshot of the pass is added to the
    /// history. While a requirement is unmet and the iteration cap is not
    /// reached, the iteration counter goes up by one, the state enters the
    /// planning, and a plan is asked for. Otherwise the state is complete
    /// and the completion goes out.
    pub fn handle_verification_complete_event(
        &mut self,
        event: DocSyncEvent,
        state: &mut DocSyncState,
        task_suffix: &str,
        now: u64,
    ) -> (outcome: Result<DocSyncEvent, DocCoordinatorError>)
        ensures
            verification_complete_handled(
                event,
                *old(self),
                *final(self),
                *old(state),
                *final(state),
                task_suffix@,
                now,
                outcome,
            ),
    {
        let DocSyncEvent { event_type: _, payload, source_agent: _, target_agent: _, timestamp: _, correlation_id } =
            event;
        let verified = match payload {
            DocSyncPayload::VerificationComplete(p) => p,
            _ => {
                return Err(
                    DocCoordinatorError::InvalidPayload(
                        String::from_str("Expected VerificationComplete payload"),
                    ),
                );
            },
        };
        let evidence = evidence_of(&verified);
        let module = IterationDecisionModule::new("iteration_decision");
        let (continue_iteration, satisfied) = module.evaluate_requirements(
            &evidence,
            &state.requirements_satisfied,
            state.current_iteration,
            state.max_iterations,
        );
        let all_met = all_flags_set(&satisfied);
        let scores = verified.quality_scores.clone();
        let snapshot = IterationState {
            iteration_number: state.current_iteration,
            timestamp: now,
            quality_scores: Some(scores.clone()),
            verification_results: satisfied.duplicate(),
            tasks_completed: state.completed_tasks.len(),
            tasks_pending: state.pending_tasks.len(),
            issues_found: state.error_log.len(),
            issues_resolved: 0,
        };
        let requirements = satisfied.duplicate();
        state.quality_scores = Some(scores);
        state.requirements_satisfied = satisfied;
        let ghost history = state.iteration_history@;
        state.iteration_history.push(snapshot);
        assert(state.iteration_history@.drop_last() =~= history);
        if continue_iteration {
            state.current_iteration += 1;
            let ghost marked = *state;
            DocCoordinatorAgent::enter_phase(
                state,
                WorkflowPhase::Verifying,
                WorkflowPhase::PlanningChanges,
                task_suffix,
                now,
            );
            let request = PlanChangesPayload {
                doc_map: verified.doc_map,
                verification_results: verified.verification_results,
                verification_report: verified.verification_report,
                iteration_number: state.current_iteration,
                requirements,
            };
            Ok(
                DocSyncEvent::at(
                    "docs-plan-changes",
                    DocSyncPayload::PlanChanges(request),
                    "doc-coordinator",
                    "doc-coordinator",
                    correlation_id.as_str(),
                    now,
                ),
            )
        } else {
            DocCoordinatorAgent::enter_phase(
                state,
                WorkflowPhase::Verifying,
                WorkflowPhase::Complete,
                task_suffix,
                now,
            );
            let summary_report = SyncSummaryReport {
                files_analyzed: 0,
                files_created: 0,
                files_updated: 0,
                files_deleted: 0,
                operations_executed: 0,
                operations_failed: 0,
                critical_issues: 0,
                major_issues: 0,
                minor_issues: 0,
                overall_status: if all_met {
                    String::from_str("success")
                } else {
                    String::from_str("partial")
                },
                metadata: StrMap::new(),
            };
            let done = CompletePayload {
                doc_map: verified.doc_map,
                quality_scores: verified.quality_scores,
                summary_report,
            };
            Ok(
                DocSyncEvent::at(
                    "docs-complete",
                    DocSyncPayload::Complete(done),
                    "doc-coordinator",
                    "doc-coordinator",
                    correlation_id.as_str(),
                    now,
                ),
            )
        }
    }
}

/// What `handle_start_event` makes of `event`.
pub open spec fn start_handled(
    event: DocSyncEvent,
    agent_before: DocCoordinatorAgent,
    agent_after: DocCoordinatorAgent,
    before: DocSyncState,
    after: DocSyncState,
    suffix: Seq<char>,
    now: u64,
    outcome: Result<DocSyncEvent, DocCoordinatorError>,
) -> bool {
    &&& agent_after.planned() == agent_before.planned()
    &&& match event.payload {
        DocSyncPayload::Start(start) => {
            &&& phase_entered(
                before,
                after,
                WorkflowPhase::Idle,
                WorkflowPhase::AnalyzingContent,
                suffix,
                now,
            )
            &&& after.master_doc_map == before.master_doc_map
            &&& outcome matches Ok(sent)
            &&& sent_by_coordinator(
                sent,
                "docs-analyze-content"@,
                "doc-content-syncer"@,
                event.correlation_id@,
                now,
            )
            &&& sent.payload matches DocSyncPayload::AnalyzeContent(p)
            &&& p.source_path == start.source_path
            &&& p.doc_map matches Some(m) && m@ == empty_doc_map()
        },
        _ => {
            &&& outcome matches Err(DocCoordinatorError::InvalidPayload(d))
            &&& d@ == "Expected Start payload"@
            &&& after == before
        },
    }
}

/// What `handle_content_analyzed_event` makes of `event`.
pub open spec fn content_analyzed_handled(
    event: DocSyncEvent,
    agent_before: DocCoordinatorAgent,
    agent_after: DocCoordinatorAgent,
    before: DocSyncState,
    after: DocSyncState,
    suffix: Seq<char>,
    now: u64,
    outcome: Result<DocSyncEvent, DocCoordinatorError>,
) -> bool {
    &&& match event.payload {
        DocSyncPayload::ContentAnalyzed(found) => {
            &&& analysis_absorbed(
                agent_before,
                agent_after,
                before,
                after,
                found.doc_map,
                as_sync_all(found.content_operations@),
                WorkflowPhase::AnalyzingContent,
                WorkflowPhase::AnalyzingDocusaurus,
                suffix,
                now,
            )
            &&& request_sent(
                outcome,
                after,
                "docs-analyze-docusaurus"@,
                "docusaurus-expert"@,
                event.correlation_id@,
                now,
            )
            &&& outcome matches Ok(sent) ==> sent.payload matches DocSyncPayload::AnalyzeDocusaurus(
                p,
            ) && p.target_path@ == after.metadata.texts()["target_path"@]
                && p.doc_map == Some(found.doc_map)
        },
        _ => refused(
            outcome,
            "Expected ContentAnalyzed payload"@,
            agent_before,
            agent_after,
            before,
            after,
        ),
    }
}

/// What `handle_docusaurus_analyzed_event` makes of `event`.
pub open spec fn docusaurus_analyzed_handled(
    event: DocSyncEvent,
    agent_before: DocCoordinatorAgent,
    agent_after: DocCoordinatorAgent,
    before: DocSyncState,
    after: DocSyncState,
    suffix: Seq<char>,
    now: u64,
    outcome: Result<DocSyncEvent, DocCoordinatorError>,
) -> bool {
    &&& match event.payload {
        DocSyncPayload::DocusaurusAnalyzed(found) => {
            &&& analysis_absorbed(
                agent_before,
                agent_after,
                before,
                after,
                found.doc_map,
                as_sync_all(found.structure_operations@),
                WorkflowPhase::AnalyzingDocusaurus,
                WorkflowPhase::AnalyzingUi,
                suffix,
                now,
            )
            &&& request_sent(
                outcome,
                after,
                "docs-analyze-ui"@,
                "ui-design-expert"@,
                event.correlation_id@,
                now,
            )
            &&& outcome matches Ok(sent) ==> sent.payload matches DocSyncPayload::AnalyzeUi(
                p,
            ) && p.target_path@ == after.metadata.texts()["target_path"@]
                && p.doc_map == Some(found.doc_map)
        },
        _ => refused(
            outcome,
            "Expected DocusaurusAnalyzed payload"@,
            agent_before,
            agent_after,
            before,
            after,
        ),
    }
}

/// What `handle_ui_analyzed_event` makes of `event`.
pub open spec fn ui_analyzed_handled(
    event: DocSyncEvent,
    agent_before: DocCoordinatorAgent,
    agent_after: DocCoordinatorAgent,
    before: DocSyncState,
    after: DocSyncState,
    suffix: Seq<char>,
    now: u64,
    outcome: Result<DocSyncEvent, DocCoordinatorError>,
) -> bool {
    &&& match event.payload {
        DocSyncPayload::UiAnalyzed(found) => {
            &&& analysis_absorbed(
                agent_before,
                agent_after,
                before,
                after,
                found.doc_map,
                as_sync_all(found.ui_operations@),
                WorkflowPhase::AnalyzingUi,
                WorkflowPhase::AnalyzingCss,
                suffix,
                now,
            )
            &&& request_sent(
                outcome,
                after,
                "docs-analyze-css"@,
                "css-expert"@,
                event.correlation_id@,
                now,
            )
            &&& outcome matches Ok(sent) ==> sent.payload matches DocSyncPayload::AnalyzeCss(
                p,
            ) && p.target_path@ == after.metadata.texts()["target_path"@]
                && p.doc_map == Some(found.doc_map)
        },
        _ => refused(
            outcome,
            "Expected UiAnalyzed payload"@,
            agent_before,
            agent_after,
            before,
            after,
        ),
    }
}

/// What `handle_css_analyzed_event` makes of `event`.
pub open spec fn css_analyzed_handled(
    event: DocSyncEvent,
    agent_before: DocCoordinatorAgent,
    agent_after: DocCoordinatorAgent,
    before: DocSyncState,
    after: DocSyncState,
    suffix: Seq<char>,
    now: u64,
    outcome: Result<DocSyncEvent, DocCoordinatorError>,
) -> bool {
    &&& match event.payload {
        DocSyncPayload::CssAnalyzed(found) => {
            &&& agent_after.planned() == Seq::<SyncOperation>::empty()
            &&& after.master_doc_map@ == found.doc_map@
            &&& phase_entered(
                DocSyncState { master_doc_map: after.master_doc_map, ..before },
                after,
                WorkflowPhase::AnalyzingCss,
                WorkflowPhase::Executing,
                suffix,
                now,
            )
            &&& outcome matches Ok(sent)
            &&& sent_by_coordinator(
                sent,
                "docs-execute"@,
                "doc-runner"@,
                event.correlation_id@,
                now,
            )
            &&& sent.payload matches DocSyncPayload::Execute(p)
            &&& p.doc_map == found.doc_map
            &&& p.operations@ == agent_before.planned() + as_sync_all(found.css_operations@)
            &&& !p.execution_params.dry_run
            &&& p.execution_params.max_parallel_operations == 1
            &&& !p.execution_params.backup
            &&& p.execution_params.metadata@ == Map::<Seq<char>, String>::empty()
        },
        _ => refused(
            outcome,
            "Expected CssAnalyzed payload"@,
            agent_before,
            agent_after,
            before,
            after,
        ),
    }
}

/// What `handle_execution_complete_event` makes of `event`.
pub open spec fn execution_complete_handled(
    event: DocSyncEvent,
    agent_before: DocCoordinatorAgent,
    agent_after: DocCoordinatorAgent,
    before: DocSyncState,
    after: DocSyncState,
    suffix: Seq<char>,
    now: u64,
    outcome: Result<DocSyncEvent, DocCoordinatorError>,
) -> bool {
    &&& agent_after.planned() == agent_before.planned()
    &&& match event.payload {
        DocSyncPayload::ExecutionComplete(done) => {
            &&& phase_entered(
                before,
                after,
                WorkflowPhase::Executing,
                WorkflowPhase::Verifying,
                suffix,
                now,
            )
            &&& after.master_doc_map == before.master_doc_map
            &&& outcome matches Ok(sent)
            &&& sent_by_coordinator(
                sent,
                "docs-verify"@,
                "doc-verifier"@,
                event.correlation_id@,
                now,
            )
            &&& sent.payload matches DocSyncPayload::Verify(p)
            &&& p.doc_map == done.doc_map
            &&& p.execution_log == done.execution_log
            &&& p.verification_params.verify_content
            &&& p.verification_params.verify_structure
            &&& p.verification_params.verify_ui
            &&& p.verification_params.verify_css
            &&& p.verification_params.metadata@ == Map::<Seq<char>, String>::empty()
        },
        _ => refused(
            outcome,
            "Expected ExecutionComplete payload"@,
            agent_before,
            agent_after,
            before,
            after,
        ),
    }
}

/// What `handle_verification_complete_event` makes of `event`.
pub open spec fn verification_complete_handled(
    event: DocSyncEvent,
    agent_before: DocCoordinatorAgent,
    agent_after: DocCoordinatorAgent,
    before: DocSyncState,
    after: DocSyncState,
    suffix: Seq<char>,
    now: u64,
    outcome: Result<DocSyncEvent, DocCoordinatorError>,
) -> bool {
    &&& agent_after.planned() == agent_before.planned()
    &&& match event.payload {
        DocSyncPayload::VerificationComplete(verified) => {
            let go = should_continue(
                evidence_in(verified),
                before.requirements_satisfied@,
                before.current_iteration,
                before.max_iterations,
            );
            let met = satisfaction(evidence_in(verified), before.requirements_satisfied@);
            let phase = if go {
                WorkflowPhase::PlanningChanges
            } else {
                WorkflowPhase::Complete
            };
            &&& before.current_iteration >= before.max_iterations ==> !go
            &&& phase_entered(
                before,
                after,
                WorkflowPhase::Verifying,
                phase,
                suffix,
                now,
            )
            &&& after.master_doc_map == before.master_doc_map
            &&& quality_view(after.quality_scores) == Some(verified.quality_scores@)
            &&& after.requirements_satisfied@ == met
            &&& after.current_iteration == before.current_iteration + if go {
                1int
            } else {
                0int
            }
            &&& before.current_iteration <= before.max_iterations ==> after.current_iteration <= after.max_iterations
            &&& after.iteration_history@.len() == before.iteration_history@.len()
                + 1
            &&& after.iteration_history@.drop_last() == before.iteration_history@
            &&& pass_recorded(
                after.iteration_history@.last(),
                before,
                verified.quality_scores@,
                met,
                now,
            )
            &&& outcome matches Ok(sent)
            &&& sent_by_coordinator(
                sent,
                if go {
                    "docs-plan-changes"@
                } else {
                    "docs-complete"@
                },
                "doc-coordinator"@,
                event.correlation_id@,
                now,
            )
            &&& match sent.payload {
                DocSyncPayload::PlanChanges(p) => {
                    &&& go
                    &&& p.doc_map == verified.doc_map
                    &&& p.verification_results == verified.verification_results
                    &&& p.verification_report == verified.verification_report
                    &&& p.iteration_number == after.current_iteration
                    &&& p.requirements@ == met
                },
                DocSyncPayload::Complete(p) => {
                    &&& !go
                    &&& p.doc_map == verified.doc_map
                    &&& p.quality_scores == verified.quality_scores
                    &&& closing_summary(
                        p.summary_report,
                        forall|k: Seq<char>| met.contains_key(k) ==> met[k],
                    )
                },
                _ => false,
            }
        },
        _ => refused(
            outcome,
            "Expected VerificationComplete payload"@,
            agent_before,
            agent_after,
            before,
            after,
        ),
    }
}

/// Is every flag of `flags` set?
pub fn all_flags_set(flags: &StrMap<bool>) -> (all: bool)
    ensures
        all == (forall|k: Seq<char>| flags@.contains_key(k) ==> flags@[k]),
{
    let n: usize = flags.len();
    let ghost order = flags.keys();
    let mut i: usize = 0;
    while i < n
        invariant
            order == flags.keys(),
            n == order.len(),
            forall|k: Seq<char>| flags@.contains_key(k) <==> order.contains(k),
            i <= n,
            forall|j: int| 0 <= j < i ==> flags@[#[trigger] order[j]],
        decreases n - i,
    {
        if !*flags.value_at(i) {
            assert(order.contains(order[i as int]));
            return false;
        }
        i += 1;
    }
    proof {
        assert forall|k: Seq<char>| flags@.contains_key(k) implies flags@[k] by {
            assert(order.contains(k));
            let j = choose|j: int| 0 <= j < order.len() && order[j] == k;
            assert(flags@[order[j]]);
        }
    }
    true
}

/// `snapshot` records the pass that ended at `now` in state `before`, with
/// the scores `scores` and with `met` saying which requirements were met.
pub open spec fn pass_recorded(
    snapshot: IterationState,
    before: DocSyncState,
    scores: crate::events::doc_sync_events::QualityMetricsView,
    met: Map<Seq<char>, bool>,
    now: u64,
) -> bool {
    &&& snapshot.iteration_number == before.current_iteration
    &&& snapshot.timestamp == now
    &&& quality_view(snapshot.quality_scores) == Some(scores)
    &&& snapshot.verification_results@ == met
    &&& snapshot.tasks_completed == before.completed_tasks@.len()
    &&& snapshot.tasks_pending == before.pending_tasks@.len()
    &&& snapshot.issues_found == before.error_log@.len()
    &&& snapshot.issues_resolved == 0
}

/// The coordinator and the state took in an analysis result: the
/// blackboard is `doc_map`, the operations `found` stand behind those
/// planned before, and the state moved on from `finished` into `phase`.
pub open spec fn analysis_absorbed(
    agent_before: DocCoordinatorAgent,
    agent_after: DocCoordinatorAgent,
    before: DocSyncState,
    after: DocSyncState,
    doc_map: DocumentationMap,
    found: Seq<SyncOperation>,
    finished: WorkflowPhase,
    phase: WorkflowPhase,
    suffix: Seq<char>,
    now: u64,
) -> bool {
    &&& agent_after.planned() == agent_before.planned() + found
    &&& after.master_doc_map@ == doc_map@
    &&& phase_entered(
        DocSyncState { master_doc_map: after.master_doc_map, ..before },
        after,
        finished,
        phase,
        suffix,
        now,
    )
    &&& after.quality_scores == before.quality_scores
    &&& after.current_iteration == before.current_iteration
    &&& after.iteration_history == before.iteration_history
    &&& after.requirements_satisfied == before.requirements_satisfied
}

/// `outcome` is the request sent on after an analysis, or the failure to
/// find the target path in the state.
pub open spec fn request_sent(
    outcome: Result<DocSyncEvent, DocCoordinatorError>,
    state: DocSyncState,
    event_type: Seq<char>,
    target: Seq<char>,
    correlation_id: Seq<char>,
    now: u64,
) -> bool {
    if state.metadata.texts().contains_key("target_path"@) {
        outcome matches Ok(sent) && sent_by_coordinator(sent, event_type, target, correlation_id, now)
    } else {
        outcome matches Err(DocCoordinatorError::CoordinationError(d)) && d@
            == "Target path not found in state"@
    }
}

/// `outcome` refuses an event with the wrong kind of payload, and nothing
/// has changed.
pub open spec fn refused(
    outcome: Result<DocSyncEvent, DocCoordinatorError>,
    reason: Seq<char>,
    agent_before: DocCoordinatorAgent,
    agent_after: DocCoordinatorAgent,
    before: DocSyncState,
    after: DocSyncState,
) -> bool {
    &&& outcome matches Err(DocCoordinatorError::InvalidPayload(d))
    &&& d@ == reason
    &&& agent_after == agent_before
    &&& after == before
}

/// The steps of the coordinator, one for each event that it answers to.
#[derive(Debug, Clone, Copy, PartialEq, Eq)]
pub enum CoordinatorStep {
    Start,
    ContentAnalyzed,
    DocusaurusAnalyzed,
    UiAnalyzed,
    CssAnalyzed,
    ExecutionComplete,
    VerificationComplete,
}

/// The step that answers to events of the given type, if one does.
pub open spec fn step_for(event_type: Seq<char>) -> Option<CoordinatorStep> {
    if event_type == "docs-start"@ {
        Some(CoordinatorStep::Start)
    } else if event_type == "docs-content-analyzed"@ {
        Some(CoordinatorStep::ContentAnalyzed)
    } else if event_type == "docs-docusaurus-analyzed"@ {
        Some(CoordinatorStep::DocusaurusAnalyzed)
    } else if event_type == "docs-ui-analyzed"@ {
        Some(CoordinatorStep::UiAnalyzed)
    } else if event_type == "docs-css-analyzed"@ {
        Some(CoordinatorStep::CssAnalyzed)
    } else if event_type == "docs-execution-complete"@ {
        Some(CoordinatorStep::ExecutionComplete)
    } else if event_type == "docs-verification-complete"@ {
        Some(CoordinatorStep::VerificationComplete)
    } else {
        None
    }
}

/// The names under which the bus delivers the events that the coordinator
/// answers to, in the order in which it subscribes to them.
pub open spec fn coordinator_subscriptions() -> Seq<Seq<char>> {
    seq![
        "doc_sync.docs-start"@,
        "doc_sync.docs-content-analyzed"@,
        "doc_sync.docs-docusaurus-analyzed"@,
        "doc_sync.docs-ui-analyzed"@,
        "doc_sync.docs-css-analyzed"@,
        "doc_sync.docs-execution-complete"@,
        "doc_sync.docs-verification-complete"@,
    ]
}

/// What the handler of `step` makes of `event`.
pub open spec fn step_handled(
    step: CoordinatorStep,
    event: DocSyncEvent,
    agent_before: DocCoordinatorAgent,
    agent_after: DocCoordinatorAgent,
    before: DocSyncState,
    after: DocSyncState,
    suffix: Seq<char>,
    now: u64,
    outcome: Result<DocSyncEvent, DocCoordinatorError>,
) -> bool {
    match step {
        CoordinatorStep::Start => start_handled(
            event,
            agent_before,
            agent_after,
            before,
            after,
            suffix,
            now,
            outcome,
        ),
        CoordinatorStep::ContentAnalyzed => content_analyzed_handled(
            event,
            agent_before,
            agent_after,
            before,
            after,
            suffix,
            now,
            outcome,
        ),
        CoordinatorStep::DocusaurusAnalyzed => docusaurus_analyzed_handled(
            event,
            agent_before,
            agent_after,
            before,
            after,
            suffix,
            now,
            outcome,
        ),
        CoordinatorStep::UiAnalyzed => ui_analyzed_handled(
            event,
            agent_before,
            agent_after,
            before,
            after,
            suffix,
            now,
            outcome,
        ),
        CoordinatorStep::CssAnalyzed => css_analyzed_handled(
            event,
            agent_before,
            agent_after,
            before,
            after,
            suffix,
            now,
            outcome,
        ),
        CoordinatorStep::ExecutionComplete => execution_complete_handled(
            event,
            agent_before,
            agent_after,
            before,
            after,
            suffix,
            now,
            outcome,
        ),
        CoordinatorStep::VerificationComplete => verification_complete_handled(
            event,
            agent_before,
            agent_after,
            before,
            after,
            suffix,
            now,
            outcome,
        ),
    }
}

impl DocCoordinatorAgent {
    /// The step that answers to events of the given type.
    pub fn route(event_type: &str) -> (step: Option<CoordinatorStep>)
        ensures
            step == step_for(event_type@),
    {
        if str_eq(event_type, "docs-start") {
            Some(CoordinatorStep::Start)
        } else if str_eq(event_type, "docs-content-analyzed") {
            Some(CoordinatorStep::ContentAnalyzed)
        } else if str_eq(event_type, "docs-docusaurus-analyzed") {
            Some(CoordinatorStep::DocusaurusAnalyzed)
        } else if str_eq(event_type, "docs-ui-analyzed") {
            Some(CoordinatorStep::UiAnalyzed)
        } else if str_eq(event_type, "docs-css-analyzed") {
            Some(CoordinatorStep::CssAnalyzed)
        } else if str_eq(event_type, "docs-execution-complete") {
            Some(CoordinatorStep::ExecutionComplete)
        } else if str_eq(event_type, "docs-verification-complete") {
            Some(CoordinatorStep::VerificationComplete)
        } else {
            None
        }
    }

    /// The names under which the bus delivers the events that the
    /// coordinator answers to, in the order in which it subscribes to them.
    pub fn subscribed_events() -> (names: Vec<&'static str>)
        ensures
            names@.map_values(|n: &str| n@) == coordinator_subscriptions(),
    {
        let mut names: Vec<&'static str> = Vec::new();
        names.push("doc_sync.docs-start");
        names.push("doc_sync.docs-content-analyzed");
        names.push("doc_sync.docs-docusaurus-analyzed");
        names.push("doc_sync.docs-ui-analyzed");
        names.push("doc_sync.docs-css-analyzed");
        names.push("doc_sync.docs-execution-complete");
        names.push("doc_sync.docs-verification-complete");
        assert(names@.map_values(|n: &str| n@) =~= coordinator_subscriptions());
        names
    }

    /// Hands `event` to the step that answers to its type. A free-form
    /// event, and a typed event of a type that no step answers to, changes
    /// nothing and sends nothing.
    pub fn handle_event(
        &mut self,
        event: Event,
        state: &mut DocSyncState,
        task_suffix: &str,
        now: u64,
    ) -> (outcome: Result<Option<DocSyncEvent>, DocCoordinatorError>)
        ensures
            match event {
                Event::DocSync(typed) => match step_for(typed.event_type@) {
                    Some(step) => exists|inner: Result<DocSyncEvent, DocCoordinatorError>|
                        {
                            &&& #[trigger] step_handled(
                                step,
                                typed,
                                *old(self),
                                *final(self),
                                *old(state),
                                *final(state),
                                task_suffix@,
                                now,
                                inner,
                            )
                            &&& outcome == match inner {
                                Ok(sent) => Ok::<Option<DocSyncEvent>, DocCoordinatorError>(
                                    Some(sent),
                                ),
                                Err(e) => Err::<Option<DocSyncEvent>, DocCoordinatorError>(e),
                            }
                        },
                    None => outcome == Ok::<Option<DocSyncEvent>, DocCoordinatorError>(None)
                        && *final(self) == *old(self) && *final(state) == *old(state),
                },
                Event::Custom { .. } => outcome == Ok::<Option<DocSyncEvent>, DocCoordinatorError>(
                    None,
                ) && *final(self) == *old(self) && *final(state) == *old(state),
            },
    {
        let typed = match event {
            Event::DocSync(typed) => typed,
            Event::Custom { .. } => {
                return Ok(None);
            },
        };
        let step = match DocCoordinatorAgent::route(typed.event_type.as_str()) {
            Some(step) => step,
            None => {
                return Ok(None);
            },
        };
        let inner = match step {
            CoordinatorStep::Start => self.handle_start_event(typed, state, task_suffix, now),
            CoordinatorStep::ContentAnalyzed => self.handle_content_analyzed_event(
                typed,
                state,
                task_suffix,
                now,
            ),
            CoordinatorStep::DocusaurusAnalyzed => self.handle_docusaurus_analyzed_event(
                typed,
                state,
                task_suffix,
                now,
            ),
            CoordinatorStep::UiAnalyzed => self.handle_ui_analyzed_event(
                typed,
                state,
                task_suffix,
                now,
            ),
            CoordinatorStep::CssAnalyzed => self.handle_css_analyzed_event(
                typed,
                state,
                task_suffix,
                now,
            ),
            CoordinatorStep::ExecutionComplete => self.handle_execution_complete_event(
                typed,
                state,
                task_suffix,
                now,
            ),
            CoordinatorStep::VerificationComplete => self.handle_verification_complete_event(
                typed,
                state,
                task_suffix,
                now,
            ),
        };
        assert(step_handled(
            step,
            typed,
            *old(self),
            *self,
            *old(state),
            *state,
            task_suffix@,
            now,
            inner,
        ));
        match inner {
            Ok(sent) => Ok(Some(sent)),
            Err(e) => Err(e),
        }
    }
}

impl DocCoordinatorAgent {
    /// Registers on `event_system`, for each name under which the bus
    /// delivers an event that the coordinator answers to and in the order
    /// of `subscribed_events`, a handler that `make` gives for that name.
    pub fn register_event_handlers<H, M: Fn(&str) -> H>(
        &self,
        event_system: &mut EventSystem<H>,
        make: &M,
    ) -> (done: Result<(), DocCoordinatorError>)
        requires
            forall|n: &str| call_requires(make, (n,)),
        ensures
            done is Ok,
            forall|name: Seq<char>|
                handlers_added(
                    old(event_system).handlers_of(name),
                    #[trigger] final(event_system).handlers_of(name),
                    occurrences(coordinator_subscriptions(), name),
                    make,
                    name,
                ),
    {
        let names = DocCoordinatorAgent::subscribed_events();
        match event_system.register_all(&names, make) {
            Ok(_) => Ok(()),
            Err(e) => Err(DocCoordinatorError::EventSystemError(e.message())),
        }
    }

    /// Makes the coordinator ready: registers its handlers.
    pub fn initialize<H, M: Fn(&str) -> H>(&self, event_system: &mut EventSystem<H>, make: &M) -> (done:
        Result<(), DocCoordinatorError>)
        requires
            forall|n: &str| call_requires(make, (n,)),
        ensures
            done is Ok,
            forall|name: Seq<char>|
                handlers_added(
                    old(event_system).handlers_of(name),
                    #[trigger] final(event_system).handlers_of(name),
                    occurrences(coordinator_subscriptions(), name),
                    make,
                    name,
                ),
    {
        self.register_event_handlers(event_system, make)
    }
}

/// The ids of `tasks`, each as often as it occurs.
pub open spec fn task_ids(tasks: Seq<SyncTask>) -> Multiset<Seq<char>>
    decreases tasks.len(),
{
    if tasks.len() == 0 {
        Multiset::empty()
    } else {
        task_ids(tasks.drop_last()).insert(tasks.last().task_id@)
    }
}

/// The ids of all tasks of `state`, pending and completed.
pub open spec fn all_task_ids(state: DocSyncState) -> Multiset<Seq<char>> {
    task_ids(state.pending_tasks@).add(task_ids(state.completed_tasks@))
}

/// Does every task of `state` stand in exactly one of the two lists, and
/// there once? Tasks are told apart by their ids.
pub open spec fn tasks_apart(state: DocSyncState) -> bool {
    forall|id: Seq<char>| all_task_ids(state).count(id) <= 1
}

/// Sorting tasks by type loses none and doubles none.
proof fn lemma_split_by_type(tasks: Seq<SyncTask>, task_type: Seq<char>)
    ensures
        task_ids(of_type(tasks, task_type)).add(task_ids(not_of_type(tasks, task_type))) == task_ids(
            tasks,
        ),
    decreases tasks.len(),
{
    if tasks.len() > 0 {
        lemma_split_by_type(tasks.drop_last(), task_type);
        let rest = tasks.drop_last();
        let id = tasks.last().task_id@;
        if tasks.last().task_type@ == task_type {
            assert(of_type(tasks, task_type).drop_last() =~= of_type(rest, task_type));
            assert(task_ids(of_type(tasks, task_type)) == task_ids(of_type(rest, task_type)).insert(
                id,
            ));
            assert(task_ids(of_type(rest, task_type)).insert(id).add(
                task_ids(not_of_type(rest, task_type)),
            ) =~= task_ids(of_type(rest, task_type)).add(
                task_ids(not_of_type(rest, task_type)),
            ).insert(id));
        } else {
            assert(not_of_type(tasks, task_type).drop_last() =~= not_of_type(rest, task_type));
            assert(task_ids(not_of_type(tasks, task_type)) == task_ids(
                not_of_type(rest, task_type),
            ).insert(id));
            assert(task_ids(of_type(rest, task_type)).add(
                task_ids(not_of_type(rest, task_type)).insert(id),
            ) =~= task_ids(of_type(rest, task_type)).add(
                task_ids(not_of_type(rest, task_type)),
            ).insert(id));
        }
    } else {
        assert(task_ids(of_type(tasks, task_type)).add(task_ids(not_of_type(tasks, task_type)))
            =~= task_ids(tasks));
    }
}

/// Tasks put behind a list add their ids to those of the list, whatever
/// else of them has changed.
proof fn lemma_ids_of_extension(
    before: Seq<SyncTask>,
    after: Seq<SyncTask>,
    moved: Seq<SyncTask>,
)
    requires
        after.len() == before.len() + moved.len(),
        after.subrange(0, before.len() as int) == before,
        forall|j: int|
            0 <= j < moved.len() ==> (#[trigger] after[before.len() + j]).task_id == moved[j].task_id,
    ensures
        task_ids(after) == task_ids(before).add(task_ids(moved)),
    decreases moved.len(),
{
    if moved.len() == 0 {
        assert(after =~= before);
        assert(task_ids(before).add(task_ids(moved)) =~= task_ids(before));
    } else {
        let shorter = after.drop_last();
        let fewer = moved.drop_last();
        assert(shorter.subrange(0, before.len() as int) =~= before);
        assert forall|j: int| 0 <= j < fewer.len() implies (#[trigger] shorter[before.len()
            + j]).task_id == fewer[j].task_id by {
            assert(shorter[before.len() + j] == after[before.len() + j]);
        }
        lemma_ids_of_extension(before, shorter, fewer);
        assert(after.last() == after[before.len() + (moved.len() - 1)]);
        assert(after.last().task_id == moved.last().task_id);
        assert(task_ids(before).add(task_ids(fewer)).insert(moved.last().task_id@) =~= task_ids(
            before,
        ).add(task_ids(fewer).insert(moved.last().task_id@)));
    }
}

/// A task is moved, never doubled and never lost: after a state has moved
/// on into another phase, its tasks are those it had before and, where the
/// phase has a task, the new one. So where every task stood in exactly one
/// list before and the new task's id is fresh, every task stands in exactly
/// one list afterwards.
pub proof fn law_tasks_stay_apart(
    before: DocSyncState,
    after: DocSyncState,
    finished: WorkflowPhase,
    phase: WorkflowPhase,
    suffix: Seq<char>,
    now: u64,
)
    requires
        tasks_advanced(before, after, finished, phase, suffix, now),
    ensures
        phase.has_task() ==> all_task_ids(after) == all_task_ids(before).insert(
            phase.id_prefix() + suffix,
        ),
        !phase.has_task() ==> all_task_ids(after) == all_task_ids(before),
        tasks_apart(before) && (phase.has_task() ==> all_task_ids(before).count(
            phase.id_prefix() + suffix,
        ) == 0) ==> tasks_apart(after),
{
    let ty = finished.task_type();
    let moved = of_type(before.pending_tasks@, ty);
    let kept = not_of_type(before.pending_tasks@, ty);
    let done = before.completed_tasks@.len() as int;
    lemma_split_by_type(before.pending_tasks@, ty);
    assert forall|j: int| 0 <= j < moved.len() implies (#[trigger] after.completed_tasks@[done
        + j]).task_id == moved[j].task_id by {
        assert(completes(moved[j], after.completed_tasks@[done + j], now));
    }
    lemma_ids_of_extension(before.completed_tasks@, after.completed_tasks@, moved);
    let new_id = phase.id_prefix() + suffix;
    if phase.has_task() {
        assert(task_ids(after.pending_tasks@) == task_ids(kept).insert(new_id));
        assert(all_task_ids(after) =~= all_task_ids(before).insert(new_id));
    } else {
        assert(all_task_ids(after) =~= all_task_ids(before));
    }
}

/// Texts that begin alike are equal exactly where they end alike.
proof fn lemma_same_beginning(head: Seq<char>, a: Seq<char>, b: Seq<char>)
    ensures
        (head + a == head + b) <==> a == b,
{
    if head + a == head + b {
        assert((head + a).subrange(head.len() as int, (head + a).len() as int) =~= a);
        assert((head + b).subrange(head.len() as int, (head + b).len() as int) =~= b);
    }
}

/// The bus name of a typed event of type `event_type` is `bus_name`.
proof fn lemma_bus_name(event_type: Seq<char>, bus_name: Seq<char>)
    requires
        bus_name.len() == 9 + event_type.len(),
        bus_name.subrange(0, 9) == "doc_sync."@,
        bus_name.subrange(9, bus_name.len() as int) == event_type,
    ensures
        "doc_sync."@ + event_type == bus_name,
{
    reveal_strlit("doc_sync.");
    assert("doc_sync."@ + event_type =~= bus_name);
}

/// The coordinator subscribes to exactly the events that its steps answer
/// to: the bus name of a typed event is among its subscriptions exactly
/// where a step answers to the event's type.
pub proof fn law_subscriptions_match_steps(event_type: Seq<char>)
    ensures
        coordinator_subscriptions().contains("doc_sync."@ + event_type) <==> step_for(
            event_type,
        ) is Some,
{
    let subs = coordinator_subscriptions();
    let types = seq![
        "docs-start"@,
        "docs-content-analyzed"@,
        "docs-docusaurus-analyzed"@,
        "docs-ui-analyzed"@,
        "docs-css-analyzed"@,
        "docs-execution-complete"@,
        "docs-verification-complete"@,
    ];
    reveal_strlit("doc_sync.");
    reveal_strlit("docs-start");
    reveal_strlit("docs-content-analyzed");
    reveal_strlit("docs-docusaurus-analyzed");
    reveal_strlit("docs-ui-analyzed");
    reveal_strlit("docs-css-analyzed");
    reveal_strlit("docs-execution-complete");
    reveal_strlit("docs-verification-complete");
    reveal_strlit("doc_sync.docs-start");
    reveal_strlit("doc_sync.docs-content-analyzed");
    reveal_strlit("doc_sync.docs-docusaurus-analyzed");
    reveal_strlit("doc_sync.docs-ui-analyzed");
    reveal_strlit("doc_sync.docs-css-analyzed");
    reveal_strlit("doc_sync.docs-execution-complete");
    reveal_strlit("doc_sync.docs-verification-complete");
    assert forall|i: int| 0 <= i < 7 implies "doc_sync."@ + #[trigger] types[i] == subs[i] by {
        assert(subs[i].subrange(0, 9) =~= "doc_sync."@);
        assert(subs[i].subrange(9, subs[i].len() as int) =~= types[i]);
        lemma_bus_name(types[i], subs[i]);
    }
    assert forall|i: int| 0 <= i < 7 implies (("doc_sync."@ + event_type == #[trigger] subs[i])
        <==> event_type == types[i]) by {
        assert("doc_sync."@ + types[i] == subs[i]);
        lemma_same_beginning("doc_sync."@, event_type, types[i]);
    }
    if step_for(event_type) is Some {
        let i = choose|i: int| 0 <= i < 7 && event_type == types[i];
        assert(subs[i] == "doc_sync."@ + event_type);
    }
    if subs.contains("doc_sync."@ + event_type) {
        let i = choose|i: int| 0 <= i < subs.len() && subs[i] == "doc_sync."@ + event_type;
        assert(event_type == types[i]);
    }
}

} // verus!
