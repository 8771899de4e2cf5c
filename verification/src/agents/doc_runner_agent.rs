use crate::events::doc_sync_events::{
    ContentOperation, CssOperation, DocSyncEvent, DocSyncPayload, ExecutionCompletePayload, ExecutionLogEntry, ExecutionResults, StructureOperation,
    SyncOperation, UiOperation,
};
use crate::events::{handlers_added, occurrences, EventSystem};
use crate::state::doc_sync_state::{DocSyncState, StateError};
use crate::str_map::StrMap;
use crate::text::{contains, decimal, decimal_text, join2, occurs_in, str_eq};
use vstd::prelude::*;

verus! {

/// Why the runner could not do its work. Each variant but the first
/// carries the detail as text.
#[derive(Debug, Clone)]
pub enum DocRunnerError {
    StateError(StateError),
    EventSystemError(String),
    InvalidPayload(String),
    FileOperationError(String),
    ValidationError(String),
    IoError(String),
    ExecutionError(String),
}

impl DocRunnerError {
    /// The error as one line of text: what kind it is, then the detail.
    pub open spec fn text(&self) -> Seq<char> {
        match self {
            DocRunnerError::StateError(e) => "State error: "@ + e.text(),
            DocRunnerError::EventSystemError(d) => "Event system error: "@ + d@,
            DocRunnerError::InvalidPayload(d) => "Invalid event payload: "@ + d@,
            DocRunnerError::FileOperationError(d) => "File operation error: "@ + d@,
            DocRunnerError::ValidationError(d) => "File validation error: "@ + d@,
            DocRunnerError::IoError(d) => "IO error: "@ + d@,
            DocRunnerError::ExecutionError(d) => "Execution error: "@ + d@,
        }
    }

    /// The error as one line of text.
    pub fn message(&self) -> (line: String)
        ensures
            line@ == self.text(),
    {
        match self {
            DocRunnerError::StateError(e) => {
                let inner = e.message();
                join2("State error: ", inner.as_str())
            },
            DocRunnerError::EventSystemError(d) => join2("Event system error: ", d.as_str()),
            DocRunnerError::InvalidPayload(d) => join2("Invalid event payload: ", d.as_str()),
            DocRunnerError::FileOperationError(d) => join2("File operation error: ", d.as_str()),
            DocRunnerError::ValidationError(d) => join2("File validation error: ", d.as_str()),
            DocRunnerError::IoError(d) => join2("IO error: ", d.as_str()),
            DocRunnerError::ExecutionError(d) => join2("Execution error: ", d.as_str()),
        }
    }
}

/// What became of one file operation. `status` is "success", "failure" or
/// "skipped".
#[derive(Debug, Clone)]
pub struct OperationResult {
    pub operation_type: String,
    pub status: String,
    pub target_path: String,
    pub error_message: Option<String>,
    pub metadata: StrMap<String>,
    pub timestamp: u64,
}

/// What a `FileAction` asks for, as plain values.
pub enum FileActionView {
    Write { path: Seq<char>, content: Seq<char>, create_parents: bool },
    Remove { path: Seq<char> },
}

/// What has to be done to the file system to carry out one operation.
#[derive(Debug, Clone)]
pub enum FileAction {
    /// Put `content` into the file at `path`, replacing what is there;
    /// with `create_parents`, make the directories above it first.
    Write { path: String, content: String, create_parents: bool },
    /// Delete the file at `path`.
    Remove { path: String },
}

impl View for FileAction {
    type V = FileActionView;

    open spec fn view(&self) -> FileActionView {
        match self {
            FileAction::Write { path, content, create_parents } => FileActionView::Write {
                path: path@,
                content: content@,
                create_parents: *create_parents,
            },
            FileAction::Remove { path } => FileActionView::Remove { path: path@ },
        }
    }
}

/// Does the path step out of its directory?
pub open spec fn has_traversal(path: Seq<char>) -> bool {
    occurs_in(".."@, path)
}

/// The message that refuses a path with a parent-directory step.
pub open spec fn traversal_text(path: Seq<char>) -> Seq<char> {
    "Path contains '..' which is not allowed: "@ + path
}

/// The message that refuses an operation for want of content.
pub open spec fn content_required_text(kind: Seq<char>, path: Seq<char>) -> Seq<char> {
    "Content is required for "@ + kind + " operation on "@ + path
}

/// The message that refuses an operation of an unknown kind.
pub open spec fn unsupported_text(kind: Seq<char>) -> Seq<char> {
    "Unsupported operation type: "@ + kind
}

/// Does an operation of this variant and kind need content to be valid?
pub open spec fn needs_content(op: SyncOperation) -> bool {
    match op {
        SyncOperation::ContentOperation(o) => o.operation_type@ == "create"@ || o.operation_type@
            == "update"@,
        SyncOperation::StructureOperation(o) => o.operation_type@ == "update_sidebar"@
            || o.operation_type@ == "update_navigation"@,
        SyncOperation::UiOperation(o) => o.operation_type@ == "update_component"@,
        SyncOperation::CssOperation(o) => o.operation_type@ == "update_style"@,
    }
}

/// Why `op` may not be executed, given whether its target exists; `None`
/// where it may. The first reason that applies is given: a parent-directory
/// step in the path; for content operations, a delete or update of a file
/// that is not there, or a create of one that is; content missing where the
/// kind needs it.
pub open spec fn validation_failure(op: SyncOperation, target_exists: bool) -> Option<Seq<char>> {
    if has_traversal(op.path()) {
        Some(traversal_text(op.path()))
    } else if op is ContentOperation && op.kind() == "delete"@ && !target_exists {
        Some("Cannot delete non-existent file: "@ + op.path())
    } else if op is ContentOperation && op.kind() == "update"@ && !target_exists {
        Some("Cannot update non-existent file: "@ + op.path())
    } else if op is ContentOperation && op.kind() == "create"@ && target_exists {
        Some("Cannot create file that already exists: "@ + op.path())
    } else if needs_content(op) && op.text().is_none() {
        Some(content_required_text(op.kind(), op.path()))
    } else {
        None
    }
}

/// The answer for the operation at `i`: does its target exist? A missing
/// answer counts as "no".
pub open spec fn answer_at(target_exists: Seq<bool>, i: int) -> bool {
    0 <= i < target_exists.len() && target_exists[i]
}

/// Is every operation before `end` valid?
pub open spec fn all_valid_before(ops: Seq<SyncOperation>, target_exists: Seq<bool>, end: int) -> bool {
    forall|i: int|
        0 <= i < end ==> (#[trigger] validation_failure(ops[i], answer_at(target_exists, i))).is_none()
}

/// The path guard: a target path with a parent-directory step is refused,
/// whatever the variant and kind of the operation and whether or not the
/// target exists.
pub proof fn law_traversal_is_refused(op: SyncOperation, target_exists: bool)
    requires
        has_traversal(op.path()),
    ensures
        validation_failure(op, target_exists) == Some(traversal_text(op.path())),
{
}

/// Does this variant know this kind of operation?
pub open spec fn supported(op: SyncOperation) -> bool {
    match op {
        SyncOperation::ContentOperation(o) => o.operation_type@ == "create"@ || o.operation_type@
            == "update"@ || o.operation_type@ == "delete"@,
        SyncOperation::StructureOperation(o) => o.operation_type@ == "update_sidebar"@
            || o.operation_type@ == "update_navigation"@,
        SyncOperation::UiOperation(o) => o.operation_type@ == "update_component"@
            || o.operation_type@ == "add_component"@,
        SyncOperation::CssOperation(o) => o.operation_type@ == "update_style"@ || o.operation_type@
            == "add_style"@,
    }
}

/// What has to be done to the file system for `op`, or why nothing can be
/// done: the kind is unknown, or a write has no content. A content delete
/// removes the file; a content update writes into the file in place; every
/// other write makes the directories above the file first.
pub open spec fn planned_action(op: SyncOperation) -> Result<FileActionView, Seq<char>> {
    if !supported(op) {
        Err(unsupported_text(op.kind()))
    } else if op is ContentOperation && op.kind() == "delete"@ {
        Ok(FileActionView::Remove { path: op.path() })
    } else {
        match op.text() {
            None => Err(content_required_text(op.kind(), op.path())),
            Some(content) => Ok(
                FileActionView::Write {
                    path: op.path(),
                    content,
                    create_parents: !(op is ContentOperation && op.kind() == "update"@),
                },
            ),
        }
    }
}

/// `entry` records `op` with the given status at time `now`.
pub open spec fn logs_operation(
    entry: ExecutionLogEntry,
    op: SyncOperation,
    status: Seq<char>,
    now: u64,
) -> bool {
    &&& entry.operation_type@ == op.kind()
    &&& entry.target_path@ == op.path()
    &&& entry.status@ == status
    &&& entry.timestamp == now
}

/// `entry` records that `op` was skipped in a dry run.
pub open spec fn logs_skip(entry: ExecutionLogEntry, op: SyncOperation, now: u64) -> bool {
    &&& logs_operation(entry, op, "skipped"@, now)
    &&& entry.error_message.is_none()
    &&& entry.metadata.texts() == map!["reason"@ => "dry_run"@]
}

/// `entry` records that `op` succeeded.
pub open spec fn logs_success(entry: ExecutionLogEntry, op: SyncOperation, now: u64) -> bool {
    &&& logs_operation(entry, op, "success"@, now)
    &&& entry.error_message.is_none()
    &&& entry.metadata@ == Map::<Seq<char>, String>::empty()
}

/// The message of the log entry for an operation that failed with an error
/// whose text is `error`.
pub open spec fn failure_text(error: Seq<char>) -> Seq<char> {
    "Error executing operation: "@ + error
}

/// `entry` records that `op` failed with an error whose text is `error`.
pub open spec fn logs_failure(
    entry: ExecutionLogEntry,
    op: SyncOperation,
    error: Seq<char>,
    now: u64,
) -> bool {
    &&& logs_operation(entry, op, "failure"@, now)
    &&& entry.error_message matches Some(m) && m@ == failure_text(error)
    &&& entry.metadata@ == Map::<Seq<char>, String>::empty()
}

/// How many entries of `log` have the given status.
pub open spec fn entries_with_status(log: Seq<ExecutionLogEntry>, status: Seq<char>) -> nat
    decreases log.len(),
{
    if log.len() == 0 {
        0
    } else {
        entries_with_status(log.drop_last(), status) + if log.last().status@ == status {
            1nat
        } else {
            0nat
        }
    }
}

/// The one-line summary of a batch.
pub open spec fn execution_summary(successful: nat, failed: nat, skipped: nat) -> Seq<char> {
    decimal(successful) + " succeeded, "@ + decimal(failed) + " failed, "@ + decimal(skipped)
        + " skipped"@
}

/// The progress line after `completed` of `total` operations.
pub open spec fn progress_text(
    completed: nat,
    total: nat,
    successful: nat,
    failed: nat,
    skipped: nat,
) -> Seq<char> {
    "Progress: "@ + decimal(completed) + "/"@ + decimal(total) + " operations completed ("@
        + decimal(successful) + " succeeded, "@ + decimal(failed) + " failed, "@ + decimal(
        skipped,
    ) + " skipped)"@
}

/// Is a progress line due after `completed` operations? One is due after
/// every fifth.
pub open spec fn progress_is_due(completed: nat) -> bool {
    completed % 5 == 0
}

/// The counts, the log and the progress lines are those of a dry run of
/// `ops` at time `now`: everything skipped, no progress line.
pub open spec fn skipped_run(
    ops: Seq<SyncOperation>,
    results: ExecutionResults,
    log: Seq<ExecutionLogEntry>,
    progress: Seq<String>,
    now: u64,
) -> bool {
    &&& results.successful_operations == 0
    &&& results.failed_operations == 0
    &&& results.skipped_operations == ops.len()
    &&& results.metadata@ == Map::<Seq<char>, String>::empty()
    &&& log.len() == ops.len()
    &&& forall|i: int| 0 <= i < ops.len() ==> logs_skip(#[trigger] log[i], ops[i], now)
    &&& progress.len() == 0
}

/// The counts, the log and the progress lines are those of a real run of
/// `ops` at time `now`: one log entry per operation, in order; an
/// operation that cannot be planned is a failure that quotes the reason;
/// every other one is a success, or a failure that quotes an IO error; the
/// counts are those of the log; and after every fifth operation stands a
/// progress line with the counts up to there.
pub open spec fn real_run(
    ops: Seq<SyncOperation>,
    results: ExecutionResults,
    log: Seq<ExecutionLogEntry>,
    progress: Seq<String>,
    now: u64,
) -> bool {
    &&& log.len() == ops.len()
    &&& results.successful_operations == entries_with_status(log, "success"@)
    &&& results.failed_operations == entries_with_status(log, "failure"@)
    &&& results.skipped_operations == 0
    &&& results.successful_operations + results.failed_operations == ops.len()
    &&& results.metadata@ == Map::<Seq<char>, String>::empty()
    &&& forall|i: int|
        0 <= i < ops.len() ==> match planned_action(ops[i]) {
            Err(reason) => logs_failure(#[trigger] log[i], ops[i], "Execution error: "@ + reason, now),
            Ok(_) => logs_success(log[i], ops[i], now) || exists|detail: Seq<char>|
                logs_failure(log[i], ops[i], "IO error: "@ + detail, now),
        }
    &&& progress.len() == ops.len() / 5
    &&& forall|k: int|
        0 <= k < progress.len() ==> (#[trigger] progress[k])@ == progress_text(
            (5 * (k + 1)) as nat,
            ops.len(),
            entries_with_status(log.subrange(0, 5 * (k + 1)), "success"@),
            entries_with_status(log.subrange(0, 5 * (k + 1)), "failure"@),
            0,
        )
}

/// Is `action` what one of `ops` asks of the file system?
pub open spec fn may_be_asked(ops: Seq<SyncOperation>, action: FileActionView) -> bool {
    exists|i: int|
        0 <= i < ops.len() && #[trigger] planned_action(ops[i]) == Ok::<
            FileActionView,
            Seq<char>,
        >(action)
}

/// Can `perform` carry out what `action` asks for and come back without a
/// failure?
pub open spec fn performs<F: Fn(&FileAction) -> Result<(), String>>(
    perform: &F,
    action: FileActionView,
) -> bool {
    exists|a: FileAction, done: Result<(), String>|
        a@ == action && done is Ok && #[trigger] call_ensures(perform, (&a,), done)
}

/// Can `perform` fail at what `action` asks for, with the failure `detail`?
pub open spec fn fails_to_perform<F: Fn(&FileAction) -> Result<(), String>>(
    perform: &F,
    action: FileActionView,
    detail: Seq<char>,
) -> bool {
    exists|a: FileAction, d: String|
        a@ == action && d@ == detail && #[trigger] call_ensures(
            perform,
            (&a,),
            Err::<(), String>(d),
        )
}

/// `entry` records what `perform` made of `op`: a success only where
/// `perform` carried out the action planned for `op`; a failure that quotes
/// an IO error only where `perform` failed at that action with that error;
/// and for an operation that cannot be planned, a failure that quotes the
/// reason.
pub open spec fn logs_performance<F: Fn(&FileAction) -> Result<(), String>>(
    entry: ExecutionLogEntry,
    op: SyncOperation,
    perform: &F,
    now: u64,
) -> bool {
    match planned_action(op) {
        Err(reason) => logs_failure(entry, op, "Execution error: "@ + reason, now),
        Ok(action) => (logs_success(entry, op, now) && performs(perform, action)) || exists|
            detail: Seq<char>,
        |
            #[trigger] fails_to_perform(perform, action, detail) && logs_failure(
                entry,
                op,
                "IO error: "@ + detail,
                now,
            ),
    }
}

/// Each entry of `log` records what `perform` made of the operation of
/// `ops` at its place.
pub open spec fn performed_by<F: Fn(&FileAction) -> Result<(), String>>(
    ops: Seq<SyncOperation>,
    log: Seq<ExecutionLogEntry>,
    perform: &F,
    now: u64,
) -> bool {
    &&& log.len() == ops.len()
    &&& forall|i: int|
        0 <= i < ops.len() ==> logs_performance(#[trigger] log[i], ops[i], perform, now)
}

/// Is the operation at `i` the first of `ops` that is not valid?
pub open spec fn first_invalid_at(ops: Seq<SyncOperation>, target_exists: Seq<bool>, i: int) -> bool {
    &&& 0 <= i < ops.len()
    &&& all_valid_before(ops, target_exists, i)
    &&& validation_failure(ops[i], answer_at(target_exists, i)).is_some()
}

/// Writes the one-line summary of a batch.
pub fn summary_line(results: &ExecutionResults) -> (line: String)
    ensures
        line@ == execution_summary(
            results.successful_operations as nat,
            results.failed_operations as nat,
            results.skipped_operations as nat,
        ),
{
    let mut line = decimal_text(results.successful_operations as u64);
    line.append(" succeeded, ");
    let f = decimal_text(results.failed_operations as u64);
    line.append(f.as_str());
    line.append(" failed, ");
    let k = decimal_text(results.skipped_operations as u64);
    line.append(k.as_str());
    line.append(" skipped");
    assert(line@ =~= execution_summary(
        results.successful_operations as nat,
        results.failed_operations as nat,
        results.skipped_operations as nat,
    ));
    line
}

/// Is a progress line due after `completed` operations?
pub fn progress_due(completed: usize) -> (due: bool)
    ensures
        due == progress_is_due(completed as nat),
{
    completed % 5 == 0
}

/// Writes the progress line.
pub fn progress_line(total: usize, results: &ExecutionResults) -> (line: String)
    requires
        results.successful_operations + results.failed_operations + results.skipped_operations
            <= usize::MAX,
    ensures
        line@ == progress_text(
            (results.successful_operations + results.failed_operations
                + results.skipped_operations) as nat,
            total as nat,
            results.successful_operations as nat,
            results.failed_operations as nat,
            results.skipped_operations as nat,
        ),
{
    let completed: usize = results.successful_operations + results.failed_operations
        + results.skipped_operations;
    let mut line = String::from_str("Progress: ");
    let c = decimal_text(completed as u64);
    line.append(c.as_str());
    line.append("/");
    let t = decimal_text(total as u64);
    line.append(t.as_str());
    line.append(" operations completed (");
    let s = decimal_text(results.successful_operations as u64);
    line.append(s.as_str());
    line.append(" succeeded, ");
    let f = decimal_text(results.failed_operations as u64);
    line.append(f.as_str());
    line.append(" failed, ");
    let k = decimal_text(results.skipped_operations as u64);
    line.append(k.as_str());
    line.append(" skipped)");
    assert(line@ =~= progress_text(
        completed as nat,
        total as nat,
        results.successful_operations as nat,
        results.failed_operations as nat,
        results.skipped_operations as nat,
    ));
    line
}

/// The message that refuses a path with a parent-directory step.
fn traversal_error(path: &str) -> (error: DocRunnerError)
    ensures
        error matches DocRunnerError::ValidationError(d) && d@ == traversal_text(path@),
{
    DocRunnerError::ValidationError(join2("Path contains '..' which is not allowed: ", path))
}

/// The message that refuses an operation for want of content.
fn content_required(kind: &str, path: &str) -> (line: String)
    ensures
        line@ == content_required_text(kind@, path@),
{
    let mut line = String::from_str("Content is required for ");
    line.append(kind);
    line.append(" operation on ");
    line.append(path);
    assert(line@ =~= content_required_text(kind@, path@));
    line
}

/// What one run of a batch leaves behind: the counts, the log with one
/// entry per operation, and the progress lines.
#[derive(Debug, Clone)]
pub struct BatchRun {
    pub results: ExecutionResults,
    pub log: Vec<ExecutionLogEntry>,
    pub progress: Vec<String>,
}

/// Executes file operations for the synchronization.
#[derive(Debug, Clone)]
pub struct DocRunnerAgent {}

impl DocRunnerAgent {
    /// The agent. It keeps nothing of its own.
    pub fn new() -> (agent: Self)
        ensures
            agent == (DocRunnerAgent {  }),
    {
        DocRunnerAgent {  }
    }

    /// Checks that `operation` is safe to execute. `target_exists` says
    /// whether there is a file at its target path.
    pub fn validate_operation(&self, operation: &SyncOperation, target_exists: bool) -> (checked:
        Result<(), DocRunnerError>)
        ensures
            match validation_failure(*operation, target_exists) {
                Some(reason) => checked matches Err(DocRunnerError::ValidationError(d)) && d@
                    == reason,
                None => checked is Ok,
            },
    {
        match operation {
            SyncOperation::ContentOperation(op) => self.validate_content_operation(
                op,
                target_exists,
            ),
            SyncOperation::StructureOperation(op) => self.validate_structure_operation(op),
            SyncOperation::UiOperation(op) => self.validate_ui_operation(op),
            SyncOperation::CssOperation(op) => self.validate_css_operation(op),
        }
    }

    pub fn validate_content_operation(&self, operation: &ContentOperation, target_exists: bool) -> (
        checked: Result<(), DocRunnerError>
    )
        ensures
            match validation_failure(SyncOperation::ContentOperation(*operation), target_exists) {
                Some(reason) => checked matches Err(DocRunnerError::ValidationError(d)) && d@
                    == reason,
                None => checked is Ok,
            },
    {
        let path = operation.target_path.as_str();
        let kind = operation.operation_type.as_str();
        if contains(path, "..") {
            return Err(traversal_error(path));
        }
        if str_eq(kind, "delete") && !target_exists {
            return Err(
                DocRunnerError::ValidationError(join2("Cannot delete non-existent file: ", path)),
            );
        }
        if str_eq(kind, "update") && !target_exists {
            return Err(
                DocRunnerError::ValidationError(join2("Cannot update non-existent file: ", path)),
            );
        }
        if str_eq(kind, "create") && target_exists {
            return Err(
                DocRunnerError::ValidationError(
                    join2("Cannot create file that already exists: ", path),
                ),
            );
        }
        if (str_eq(kind, "create") || str_eq(kind, "update")) && operation.content.is_none() {
            return Err(DocRunnerError::ValidationError(content_required(kind, path)));
        }
        Ok(())
    }

    pub fn validate_structure_operation(&self, operation: &StructureOperation) -> (checked: Result<
        (),
        DocRunnerError,
    >)
        ensures
            forall|target_exists: bool|
                match #[trigger] validation_failure(
                    SyncOperation::StructureOperation(*operation),
                    target_exists,
                ) {
                    Some(reason) => checked matches Err(DocRunnerError::ValidationError(d)) && d@
                        == reason,
                    None => checked is Ok,
                },
    {
        let path = operation.target_path.as_str();
        let kind = operation.operation_type.as_str();
        if contains(path, "..") {
            return Err(traversal_error(path));
        }
        if (str_eq(kind, "update_sidebar") || str_eq(kind, "update_navigation"))
            && operation.content.is_none() {
            return Err(DocRunnerError::ValidationError(content_required(kind, path)));
        }
        Ok(())
    }

    pub fn validate_ui_operation(&self, operation: &UiOperation) -> (checked: Result<
        (),
        DocRunnerError,
    >)
        ensures
            forall|target_exists: bool|
                match #[trigger] validation_failure(
                    SyncOperation::UiOperation(*operation),
                    target_exists,
                ) {
                    Some(reason) => checked matches Err(DocRunnerError::ValidationError(d)) && d@
                        == reason,
                    None => checked is Ok,
                },
    {
        let path = operation.target_path.as_str();
        let kind = operation.operation_type.as_str();
        if contains(path, "..") {
            return Err(traversal_error(path));
        }
        if str_eq(kind, "update_component") && operation.content.is_none() {
            return Err(DocRunnerError::ValidationError(content_required(kind, path)));
        }
        Ok(())
    }

    pub fn validate_css_operation(&self, operation: &CssOperation) -> (checked: Result<
        (),
        DocRunnerError,
    >)
        ensures
            forall|target_exists: bool|
                match #[trigger] validation_failure(
                    SyncOperation::CssOperation(*operation),
                    target_exists,
                ) {
                    Some(reason) => checked matches Err(DocRunnerError::ValidationError(d)) && d@
                        == reason,
                    None => checked is Ok,
                },
    {
        let path = operation.target_path.as_str();
        let kind = operation.operation_type.as_str();
        if contains(path, "..") {
            return Err(traversal_error(path));
        }
        if str_eq(kind, "update_style") && operation.content.is_none() {
            return Err(DocRunnerError::ValidationError(content_required(kind, path)));
        }
        Ok(())
    }

    /// Checks a whole batch before any of it runs: the first operation
    /// that is not valid refuses the batch. `target_exists` answers, for
    /// each operation in turn, whether its target is there.
    pub fn validate_all(&self, operations: &Vec<SyncOperation>, target_exists: &Vec<bool>) -> (
        checked: Result<(), DocRunnerError>
    )
        ensures
            checked is Ok <==> all_valid_before(
                operations@,
                target_exists@,
                operations@.len() as int,
            ),
            checked matches Err(e) ==> e matches DocRunnerError::ValidationError(d) && exists|
                i: int,
            |
                #[trigger] first_invalid_at(operations@, target_exists@, i) && validation_failure(
                    operations@[i],
                    answer_at(target_exists@, i),
                ) == Some(d@),
    {
        let n: usize = operations.len();
        let mut i: usize = 0;
        while i < n
            invariant
                n == operations@.len(),
                i <= n,
                all_valid_before(operations@, target_exists@, i as int),
            decreases n - i,
        {
            let there = i < target_exists.len() && target_exists[i];
            match self.validate_operation(&operations[i], there) {
                Ok(_) => {},
                Err(e) => {
                    assert(first_invalid_at(operations@, target_exists@, i as int));
                    return Err(e);
                },
            }
            i += 1;
        }
        Ok(())
    }

    /// What has to be done to the file system for `operation`.
    pub fn plan_operation(&self, operation: &SyncOperation) -> (plan: Result<
        FileAction,
        DocRunnerError,
    >)
        ensures
            match planned_action(*operation) {
                Ok(action) => plan matches Ok(a) && a@ == action,
                Err(reason) => plan matches Err(DocRunnerError::ExecutionError(d)) && d@ == reason,
            },
    {
        let kind = operation.operation_type().as_str();
        let path = operation.target_path().as_str();
        let (known, removes, in_place) = match operation {
            SyncOperation::ContentOperation(_) => (
                str_eq(kind, "create") || str_eq(kind, "update") || str_eq(kind, "delete"),
                str_eq(kind, "delete"),
                str_eq(kind, "update"),
            ),
            SyncOperation::StructureOperation(_) => (
                str_eq(kind, "update_sidebar") || str_eq(kind, "update_navigation"),
                false,
                false,
            ),
            SyncOperation::UiOperation(_) => (
                str_eq(kind, "update_component") || str_eq(kind, "add_component"),
                false,
                false,
            ),
            SyncOperation::CssOperation(_) => (
                str_eq(kind, "update_style") || str_eq(kind, "add_style"),
                false,
                false,
            ),
        };
        if !known {
            return Err(DocRunnerError::ExecutionError(join2("Unsupported operation type: ", kind)));
        }
        if removes {
            return Ok(FileAction::Remove { path: String::from_str(path) });
        }
        match operation.content() {
            None => Err(DocRunnerError::ExecutionError(content_required(kind, path))),
            Some(content) => Ok(
                FileAction::Write {
                    path: String::from_str(path),
                    content: content.clone(),
                    create_parents: !in_place,
                },
            ),
        }
    }

    /// The result of an operation whose action succeeded at time `now`.
    pub fn operation_succeeded(&self, operation: &SyncOperation, now: u64) -> (result:
        OperationResult)
        ensures
            result.operation_type@ == operation.kind(),
            result.status@ == "success"@,
            result.target_path@ == operation.path(),
            result.error_message.is_none(),
            result.metadata@ == Map::<Seq<char>, String>::empty(),
            result.timestamp == now,
    {
        OperationResult {
            operation_type: operation.operation_type().clone(),
            status: String::from_str("success"),
            target_path: operation.target_path().clone(),
            error_message: None,
            metadata: StrMap::new(),
            timestamp: now,
        }
    }

    /// Carries out one operation: plans its action, has `perform` do it,
    /// and says what became of it. An operation that cannot be planned
    /// fails without `perform` being called. `perform` need only take the
    /// action planned for the operation: it is called on nothing else.
    pub fn execute_operation<F: Fn(&FileAction) -> Result<(), String>>(
        &self,
        operation: &SyncOperation,
        perform: &F,
        now: u64,
    ) -> (outcome: Result<OperationResult, DocRunnerError>)
        requires
            forall|action: &FileAction|
                planned_action(*operation) == Ok::<FileActionView, Seq<char>>(action@)
                    ==> call_requires(perform, (action,)),
        ensures
            match planned_action(*operation) {
                Err(reason) => outcome matches Err(DocRunnerError::ExecutionError(d)) && d@
                    == reason,
                Ok(action) => match outcome {
                    Ok(result) => {
                        &&& result.operation_type@ == operation.kind()
                        &&& result.status@ == "success"@
                        &&& result.target_path@ == operation.path()
                        &&& result.error_message.is_none()
                        &&& result.metadata@ == Map::<Seq<char>, String>::empty()
                        &&& result.timestamp == now
                        &&& performs(perform, action)
                    },
                    Err(e) => e matches DocRunnerError::IoError(d) && fails_to_perform(
                        perform,
                        action,
                        d@,
                    ),
                },
            },
    {
        let action = match self.plan_operation(operation) {
            Ok(a) => a,
            Err(e) => {
                return Err(e);
            },
        };
        let done = perform(&action);
        assert(call_ensures(perform, (&action,), done));
        match done {
            Ok(_) => {
                assert(action@ == planned_action(*operation)->Ok_0 && done is Ok && call_ensures(
                    perform,
                    (&action,),
                    done,
                ));
                Ok(self.operation_succeeded(operation, now))
            },
            Err(detail) => {
                assert(action@ == planned_action(*operation)->Ok_0 && detail@ == detail@
                    && call_ensures(perform, (&action,), Err::<(), String>(detail)));
                Err(DocRunnerError::IoError(detail))
            },
        }
    }

    /// The log entry for an operation skipped in a dry run.
    pub fn skipped_entry(&self, operation: &SyncOperation, now: u64) -> (entry:
        ExecutionLogEntry)
        ensures
            logs_skip(entry, *operation, now),
    {
        let mut metadata: StrMap<String> = StrMap::new();
        metadata.set("reason", "dry_run");
        assert(metadata.texts() =~= map!["reason"@ => "dry_run"@]);
        ExecutionLogEntry {
            operation_type: operation.operation_type().clone(),
            status: String::from_str("skipped"),
            target_path: operation.target_path().clone(),
            error_message: None,
            metadata,
            timestamp: now,
        }
    }

    /// The log entry for what became of `operation`: the result as it
    /// stands, or a failure that quotes the error.
    pub fn record_outcome(
        &self,
        operation: &SyncOperation,
        outcome: Result<OperationResult, DocRunnerError>,
        now: u64,
    ) -> (entry: ExecutionLogEntry)
        ensures
            match outcome {
                Ok(result) => {
                    &&& entry.operation_type == result.operation_type
                    &&& entry.status == result.status
                    &&& entry.target_path == result.target_path
                    &&& entry.error_message == result.error_message
                    &&& entry.metadata == result.metadata
                    &&& entry.timestamp == result.timestamp
                },
                Err(e) => logs_failure(entry, *operation, e.text(), now),
            },
    {
        match outcome {
            Ok(result) => ExecutionLogEntry {
                operation_type: result.operation_type,
                status: result.status,
                target_path: result.target_path,
                error_message: result.error_message,
                metadata: result.metadata,
                timestamp: result.timestamp,
            },
            Err(e) => {
                let detail = e.message();
                ExecutionLogEntry {
                    operation_type: operation.operation_type().clone(),
                    status: String::from_str("failure"),
                    target_path: operation.target_path().clone(),
                    error_message: Some(join2("Error executing operation: ", detail.as_str())),
                    metadata: StrMap::new(),
                    timestamp: now,
                }
            },
        }
    }

    /// A dry run: every operation is logged as skipped and nothing is
    /// done to any file.
    pub fn dry_run(&self, operations: &Vec<SyncOperation>, now: u64) -> (run: BatchRun)
        ensures
            skipped_run(operations@, run.results, run.log@, run.progress@, now),
    {
        let n: usize = operations.len();
        let mut log: Vec<ExecutionLogEntry> = Vec::new();
        let mut i: usize = 0;
        while i < n
            invariant
                n == operations@.len(),
                i <= n,
                log@.len() == i,
                forall|k: int| 0 <= k < i ==> logs_skip(#[trigger] log@[k], operations@[k], now),
            decreases n - i,
        {
            log.push(self.skipped_entry(&operations[i], now));
            i += 1;
        }
        BatchRun {
            results: ExecutionResults {
                successful_operations: 0,
                failed_operations: 0,
                skipped_operations: n,
                metadata: StrMap::new(),
            },
            log,
            progress: Vec::new(),
        }
    }

    /// A real run: each operation is carried out on its own, in order; one
    /// that fails is logged as a failure and the rest still run. `perform`
    /// need only take the actions planned for the operations: it is called
    /// on nothing else.
    pub fn run_operations<F: Fn(&FileAction) -> Result<(), String>>(
        &self,
        operations: &Vec<SyncOperation>,
        perform: &F,
        now: u64,
    ) -> (run: BatchRun)
        requires
            forall|action: &FileAction|
                may_be_asked(operations@, action@) ==> call_requires(perform, (action,)),
        ensures
            real_run(operations@, run.results, run.log@, run.progress@, now),
            performed_by(operations@, run.log@, perform, now),
    {
        let n: usize = operations.len();
        let mut results = ExecutionResults {
            successful_operations: 0,
            failed_operations: 0,
            skipped_operations: 0,
            metadata: StrMap::new(),
        };
        let mut log: Vec<ExecutionLogEntry> = Vec::new();
        let mut progress: Vec<String> = Vec::new();
        let mut i: usize = 0;
        proof {
            reveal_strlit("success");
            reveal_strlit("failure");
            assert("success"@ != "failure"@) by {
                assert("success"@[0] == 's');
                assert("failure"@[0] == 'f');
            }
        }
        while i < n
            invariant
                n == operations@.len(),
                i <= n,
                "success"@ != "failure"@,
                forall|action: &FileAction|
                    may_be_asked(operations@, action@) ==> call_requires(perform, (action,)),
                log@.len() == i,
                results.successful_operations == entries_with_status(log@, "success"@),
                results.failed_operations == entries_with_status(log@, "failure"@),
                results.skipped_operations == 0,
                results.successful_operations + results.failed_operations == i,
                results.metadata@ == Map::<Seq<char>, String>::empty(),
                forall|j: int|
                    0 <= j < i ==> match planned_action(operations@[j]) {
                        Err(reason) => logs_failure(
                            #[trigger] log@[j],
                            operations@[j],
                            "Execution error: "@ + reason,
                            now,
                        ),
                        Ok(_) => logs_success(log@[j], operations@[j], now) || exists|
                            detail: Seq<char>,
                        |
                            logs_failure(log@[j], operations@[j], "IO error: "@ + detail, now),
                    },
                forall|j: int|
                    0 <= j < i ==> logs_performance(
                        #[trigger] log@[j],
                        operations@[j],
                        perform,
                        now,
                    ),
                progress@.len() == i / 5,
                forall|k: int|
                    0 <= k < progress@.len() ==> (#[trigger] progress@[k])@ == progress_text(
                        (5 * (k + 1)) as nat,
                        n as nat,
                        entries_with_status(log@.subrange(0, 5 * (k + 1)), "success"@),
                        entries_with_status(log@.subrange(0, 5 * (k + 1)), "failure"@),
                        0,
                    ),
            decreases n - i,
        {
            let ghost before = log@;
            assert forall|action: &FileAction|
                planned_action(operations@[i as int]) == Ok::<FileActionView, Seq<char>>(
                    action@,
                ) implies call_requires(perform, (action,)) by {
                assert(may_be_asked(operations@, action@));
            }
            let outcome = self.execute_operation(&operations[i], perform, now);
            let ok = outcome.is_ok();
            let ghost result = outcome;
            let ghost error = if outcome is Err {
                outcome->Err_0.text()
            } else {
                Seq::<char>::empty()
            };
            let entry = self.record_outcome(&operations[i], outcome, now);
            proof {
                if ok {
                    assert(logs_success(entry, operations@[i as int], now));
                } else {
                    assert(logs_failure(entry, operations@[i as int], error, now));
                    match planned_action(operations@[i as int]) {
                        Err(reason) => {
                            assert(error == "Execution error: "@ + reason);
                        },
                        Ok(action) => {
                            let detail = result->Err_0->IoError_0@;
                            assert(error == "IO error: "@ + detail);
                            assert(fails_to_perform(perform, action, detail));
                        },
                    }
                }
                assert(logs_performance(entry, operations@[i as int], perform, now));
            }
            log.push(entry);
            proof {
                assert(log@.drop_last() =~= before);
                assert forall|j: int| 0 <= j < i + 1 implies logs_performance(
                    #[trigger] log@[j],
                    operations@[j],
                    perform,
                    now,
                ) by {
                    if j < i {
                        assert(log@[j] == before[j]);
                    }
                }
                assert forall|k: int| 0 <= k < progress@.len() implies (
                #[trigger] progress@[k])@ == progress_text(
                    (5 * (k + 1)) as nat,
                    n as nat,
                    entries_with_status(log@.subrange(0, 5 * (k + 1)), "success"@),
                    entries_with_status(log@.subrange(0, 5 * (k + 1)), "failure"@),
                    0,
                ) by {
                    assert(log@.subrange(0, 5 * (k + 1)) =~= before.subrange(0, 5 * (k + 1)));
                }
            }
            if ok {
                results.successful_operations += 1;
            } else {
                results.failed_operations += 1;
            }
            if progress_due(
                results.successful_operations + results.failed_operations
                    + results.skipped_operations,
            ) {
                progress.push(progress_line(n, &results));
                proof {
                    assert(log@.subrange(0, i + 1) =~= log@);
                }
            }
            i += 1;
        }
        BatchRun { results, log, progress }
    }

    /// Handles a request to execute a batch. `state` is the workflow's
    /// stored state, `target_exists` answers for each operation whether its
    /// target is there, and `perform` does what is asked of the file
    /// system. The event that comes back is the one to send on.
    ///
    /// `perform` need only take the actions planned for the operations of
    /// a valid batch that is no dry run. So it is not called where the
    /// payload is of another kind, where the batch is refused, or in a dry
    /// run.
    ///
    /// An event that carries anything but an execute payload is refused
    /// and `state` stays as it was. Otherwise the workflow is marked
    /// "executing" and the whole batch is validated; one operation that is
    /// not valid refuses the batch before anything runs. A valid batch is
    /// run, or in a dry run only logged; the state is marked
    /// "execution_complete" with a one-line summary, and the counts and
    /// the log go to the coordinator.
    pub fn handle_execute_event<F: Fn(&FileAction) -> Result<(), String>>(
        &self,
        event: DocSyncEvent,
        state: &mut DocSyncState,
        target_exists: &Vec<bool>,
        perform: &F,
        now: u64,
    ) -> (outcome: Result<(DocSyncEvent, Vec<String>), DocRunnerError>)
        requires
            forall|action: &FileAction|
                event.payload matches DocSyncPayload::Execute(request)
                    && !request.execution_params.dry_run && all_valid_before(
                    request.operations@,
                    target_exists@,
                    request.operations@.len() as int,
                ) && may_be_asked(request.operations@, action@) ==> call_requires(
                    perform,
                    (action,),
                ),
        ensures
            final(state).master_doc_map == old(state).master_doc_map,
            final(state).pending_tasks == old(state).pending_tasks,
            final(state).completed_tasks == old(state).completed_tasks,
            final(state).error_log == old(state).error_log,
            final(state).quality_scores == old(state).quality_scores,
            final(state).last_updated == old(state).last_updated,
            final(state).current_iteration == old(state).current_iteration,
            final(state).max_iterations == old(state).max_iterations,
            final(state).iteration_history == old(state).iteration_history,
            final(state).requirements_satisfied == old(state).requirements_satisfied,
            match event.payload {
                DocSyncPayload::Execute(request) => {
                    let ops = request.operations@;
                    let marked = old(state).metadata.texts().insert("status"@, "executing"@);
                    if !all_valid_before(ops, target_exists@, ops.len() as int) {
                        &&& outcome matches Err(DocRunnerError::ValidationError(d))
                        &&& exists|i: int|
                            #[trigger] first_invalid_at(ops, target_exists@, i)
                                && validation_failure(ops[i], answer_at(target_exists@, i))
                                == Some(d@)
                        &&& final(state).metadata.texts() == marked
                    } else {
                        &&& outcome matches Ok(sent)
                        &&& sent.0.event_type@ == "docs-execution-complete"@
                        &&& sent.0.source_agent@ == "doc-runner"@
                        &&& sent.0.target_agent@ == "doc-coordinator"@
                        &&& sent.0.correlation_id@ == event.correlation_id@
                        &&& sent.0.timestamp == now
                        &&& sent.0.payload matches DocSyncPayload::ExecutionComplete(done)
                        &&& done.doc_map == request.doc_map
                        &&& if request.execution_params.dry_run {
                            skipped_run(ops, done.execution_results, done.execution_log@, sent.1@, now)
                        } else {
                            &&& real_run(
                                ops,
                                done.execution_results,
                                done.execution_log@,
                                sent.1@,
                                now,
                            )
                            &&& performed_by(ops, done.execution_log@, perform, now)
                        }
                        &&& final(state).metadata.texts() == marked.insert(
                            "status"@,
                            "execution_complete"@,
                        ).insert(
                            "execution_summary"@,
                            execution_summary(
                                done.execution_results.successful_operations as nat,
                                done.execution_results.failed_operations as nat,
                                done.execution_results.skipped_operations as nat,
                            ),
                        )
                    }
                },
                _ => {
                    &&& outcome matches Err(DocRunnerError::InvalidPayload(d))
                    &&& d@ == "Expected Execute payload"@
                    &&& final(state).metadata == old(state).metadata
                },
            },
    {
        let DocSyncEvent { event_type: _, payload, source_agent: _, target_agent: _, timestamp: _, correlation_id } =
            event;
        let request = match payload {
            DocSyncPayload::Execute(p) => p,
            _ => {
                return Err(
                    DocRunnerError::InvalidPayload(String::from_str("Expected Execute payload")),
                );
            },
        };
        state.metadata.set("status", "executing");
        match self.validate_all(&request.operations, target_exists) {
            Ok(_) => {},
            Err(e) => {
                return Err(e);
            },
        }
        let run = if request.execution_params.dry_run {
            self.dry_run(&request.operations, now)
        } else {
            let run = self.run_operations(&request.operations, perform, now);
            run
        };
        let BatchRun { results, log, progress } = run;
        let summary = summary_line(&results);
        state.metadata.set("status", "execution_complete");
        state.metadata.set("execution_summary", summary.as_str());
        let done = ExecutionCompletePayload {
            doc_map: request.doc_map,
            execution_results: results,
            execution_log: log,
        };
        Ok(
            (
                DocSyncEvent::at(
                    "docs-execution-complete",
                    DocSyncPayload::ExecutionComplete(done),
                    "doc-runner",
                    "doc-coordinator",
                    correlation_id.as_str(),
                    now,
                ),
                progress,
            ),
        )
    }
}

/// The name under which the bus delivers the event that the agent answers
/// to.
pub open spec fn runner_subscriptions() -> Seq<Seq<char>> {
    seq!["doc_sync.docs-execute"@]
}

impl DocRunnerAgent {
    /// The name under which the bus delivers the event that the agent
    /// answers to.
    pub fn subscribed_events() -> (names: Vec<&'static str>)
        ensures
            names@.map_values(|n: &str| n@) == runner_subscriptions(),
    {
        let mut names: Vec<&'static str> = Vec::new();
        names.push("doc_sync.docs-execute");
        assert(names@.map_values(|n: &str| n@) =~= runner_subscriptions());
        names
    }

    /// Registers on `event_system` a handler that `make` gives for the
    /// name under which the bus delivers the event that the agent answers
    /// to.
    pub fn register_event_handlers<H, M: Fn(&str) -> H>(
        &self,
        event_system: &mut EventSystem<H>,
        make: &M,
    ) -> (done: Result<(), DocRunnerError>)
        requires
            forall|n: &str| call_requires(make, (n,)),
        ensures
            done is Ok,
            forall|name: Seq<char>|
                handlers_added(
                    old(event_system).handlers_of(name),
                    #[trigger] final(event_system).handlers_of(name),
                    occurrences(runner_subscriptions(), name),
                    make,
                    name,
                ),
    {
        let names = DocRunnerAgent::subscribed_events();
        match event_system.register_all(&names, make) {
            Ok(_) => Ok(()),
            Err(e) => Err(DocRunnerError::EventSystemError(e.message())),
        }
    }

    /// Makes the agent ready: registers its handler.
    pub fn initialize<H, M: Fn(&str) -> H>(&self, event_system: &mut EventSystem<H>, make: &M) -> (done:
        Result<(), DocRunnerError>)
        requires
            forall|n: &str| call_requires(make, (n,)),
        ensures
            done is Ok,
            forall|name: Seq<char>|
                handlers_added(
                    old(event_system).handlers_of(name),
                    #[trigger] final(event_system).handlers_of(name),
                    occurrences(runner_subscriptions(), name),
                    make,
                    name,
                ),
    {
        self.register_event_handlers(event_system, make)
    }
}

/// Dry-run purity: the log of a dry run has one entry for each operation,
/// every entry says "skipped", and nothing is counted as done or failed.
pub proof fn law_dry_run_skips_all(
    ops: Seq<SyncOperation>,
    results: ExecutionResults,
    log: Seq<ExecutionLogEntry>,
    progress: Seq<String>,
    now: u64,
)
    requires
        skipped_run(ops, results, log, progress, now),
    ensures
        log.len() == ops.len(),
        forall|i: int| 0 <= i < log.len() ==> (#[trigger] log[i]).status@ == "skipped"@,
        entries_with_status(log, "skipped"@) == ops.len(),
        results.successful_operations + results.failed_operations == 0,
    decreases ops.len(),
{
    if ops.len() > 0 {
        let fewer = ops.drop_last();
        let shorter = log.drop_last();
        let counted = ExecutionResults {
            successful_operations: 0,
            failed_operations: 0,
            skipped_operations: fewer.len() as usize,
            metadata: results.metadata,
        };
        assert forall|i: int| 0 <= i < fewer.len() implies logs_skip(
            #[trigger] shorter[i],
            fewer[i],
            now,
        ) by {
            assert(logs_skip(log[i], ops[i], now));
        }
        law_dry_run_skips_all(fewer, counted, shorter, progress, now);
        assert(logs_skip(log[ops.len() - 1], ops[ops.len() - 1], now));
    }
}

} // verus!
