use crate::events::doc_sync_events::{
    DocSyncEvent, DocSyncPayload, DocumentationMap, ExecutionLogEntry, QualityMetrics,
    VerificationCompletePayload, VerificationLogEntry, VerificationParams, VerificationReport,
    VerifyPayload,
    VerificationResult, VerificationResults,
};
use crate::events::{handlers_added, occurrences, EventSystem};
use crate::state::doc_sync_state::{DocSyncState, StateError};
use crate::str_map::StrMap;
use crate::text::{
    contains, decimal, decimal_text, is_prefix, join2, occurs_in, starts_with, str_eq,
};
use vstd::prelude::*;

verus! {

/// Why the verifier could not do its work. Each variant but the first
/// carries the detail as text.
#[derive(Debug, Clone)]
pub enum DocVerifierError {
    StateError(StateError),
    EventSystemError(String),
    InvalidPayload(String),
    VerificationError(String),
    IoError(String),
}

impl DocVerifierError {
    /// The error as one line of text: what kind it is, then the detail.
    pub open spec fn text(&self) -> Seq<char> {
        match self {
            DocVerifierError::StateError(e) => "State error: "@ + e.text(),
            DocVerifierError::EventSystemError(d) => "Event system error: "@ + d@,
            DocVerifierError::InvalidPayload(d) => "Invalid event payload: "@ + d@,
            DocVerifierError::VerificationError(d) => "Verification error: "@ + d@,
            DocVerifierError::IoError(d) => "IO error: "@ + d@,
        }
    }

    /// The error as one line of text.
    pub fn message(&self) -> (line: String)
        ensures
            line@ == self.text(),
    {
        match self {
            DocVerifierError::StateError(e) => {
                let inner = e.message();
                join2("State error: ", inner.as_str())
            },
            DocVerifierError::EventSystemError(d) => join2("Event system error: ", d.as_str()),
            DocVerifierError::InvalidPayload(d) => join2("Invalid event payload: ", d.as_str()),
            DocVerifierError::VerificationError(d) => join2("Verification error: ", d.as_str()),
            DocVerifierError::IoError(d) => join2("IO error: ", d.as_str()),
        }
    }
}

/// The four categories of file operations that are checked one by one.
#[derive(Debug, Clone, Copy, PartialEq, Eq)]
pub enum CheckKind {
    Content,
    Structure,
    Ui,
    Css,
}

/// Does an operation with the word `op` belong to category `kind`?
pub open spec fn concerns(kind: CheckKind, op: Seq<char>) -> bool {
    match kind {
        CheckKind::Content => is_prefix("create"@, op) || is_prefix("update"@, op),
        CheckKind::Structure => occurs_in("sidebar"@, op) || occurs_in("navigation"@, op),
        CheckKind::Ui => occurs_in("component"@, op),
        CheckKind::Css => occurs_in("style"@, op),
    }
}

/// Did the logged operation succeed?
pub open spec fn succeeded(entry: ExecutionLogEntry) -> bool {
    entry.status@ == "success"@
}

/// How many entries of `log` belong to `kind` and succeeded.
pub open spec fn relevant_successes(kind: CheckKind, log: Seq<ExecutionLogEntry>) -> nat
    decreases log.len(),
{
    if log.len() == 0 {
        0
    } else {
        relevant_successes(kind, log.drop_last()) + if concerns(kind, log.last().operation_type@)
            && succeeded(log.last()) {
            1nat
        } else {
            0nat
        }
    }
}

/// How many entries of `log` succeeded.
pub open spec fn successes(log: Seq<ExecutionLogEntry>) -> nat
    decreases log.len(),
{
    if log.len() == 0 {
        0
    } else {
        successes(log.drop_last()) + if succeeded(log.last()) {
            1nat
        } else {
            0nat
        }
    }
}

/// The score, in thousandths, of a category in which `successful` checks
/// passed, `failed` failed and `skipped` were skipped: full marks where
/// something passed and nothing failed; the passed share where something
/// failed; 800 where everything was skipped; else nothing.
pub open spec fn score_of(successful: nat, failed: nat, skipped: nat) -> nat {
    if successful > 0 && failed == 0 {
        1000
    } else if successful > 0 {
        successful * 1000 / (successful + failed)
    } else if skipped > 0 && failed == 0 {
        800
    } else {
        0
    }
}

/// The weighted sum of the five scores, with the weights in hundredths:
/// content 40, structure 20, UI 15, CSS 10, technical 15.
pub open spec fn weighted_sum(content: nat, structure: nat, ui: nat, css: nat, technical: nat) -> nat {
    40 * content + 20 * structure + 15 * ui + 10 * css + 15 * technical
}

/// The overall score: the weighted sum brought back to thousandths, rounded
/// down.
pub open spec fn overall_of(content: nat, structure: nat, ui: nat, css: nat, technical: nat) -> nat {
    weighted_sum(content, structure, ui, css, technical) / 100
}

/// The overall score is the weighted mean of the five scores to within one
/// thousandth, never leaves their range, and is exact where every score is
/// a multiple of 20 thousandths.
pub proof fn law_overall_quality(content: nat, structure: nat, ui: nat, css: nat, technical: nat)
    ensures
        100 * overall_of(content, structure, ui, css, technical) <= weighted_sum(
            content,
            structure,
            ui,
            css,
            technical,
        ) < 100 * overall_of(content, structure, ui, css, technical) + 100,
        content <= 1000 && structure <= 1000 && ui <= 1000 && css <= 1000 && technical <= 1000
            ==> overall_of(content, structure, ui, css, technical) <= 1000,
        content % 20 == 0 && structure % 20 == 0 && ui % 20 == 0 && css % 20 == 0 && technical % 20
            == 0 ==> 100 * overall_of(content, structure, ui, css, technical) == weighted_sum(
            content,
            structure,
            ui,
            css,
            technical,
        ),
{
    let w = weighted_sum(content, structure, ui, css, technical);
    let q = w / 100;
    assert(100 * q <= w < 100 * q + 100);
    if content % 20 == 0 && structure % 20 == 0 && ui % 20 == 0 && css % 20 == 0 && technical % 20
        == 0 {
        let a = content / 20;
        let b = structure / 20;
        let c = ui / 20;
        let d = css / 20;
        let e = technical / 20;
        assert(content == 20 * a && structure == 20 * b && ui == 20 * c && css == 20 * d
            && technical == 20 * e);
        let k = 8 * a + 4 * b + 3 * c + 2 * d + 3 * e;
        assert(w == 100 * k);
        assert(q == k);
    }
}

/// The word that names a category in logs.
pub open spec fn kind_word(kind: CheckKind) -> Seq<char> {
    match kind {
        CheckKind::Content => "content"@,
        CheckKind::Structure => "structure"@,
        CheckKind::Ui => "ui"@,
        CheckKind::Css => "css"@,
    }
}

/// What follows the count in the message of a category that passed.
pub open spec fn passed_suffix(kind: CheckKind) -> Seq<char> {
    match kind {
        CheckKind::Content => " content operations executed successfully"@,
        CheckKind::Structure => " structure operations executed successfully"@,
        CheckKind::Ui => " UI operations executed successfully"@,
        CheckKind::Css => " CSS operations executed successfully"@,
    }
}

/// The message of a category that had nothing to check.
pub open spec fn skipped_message(kind: CheckKind) -> Seq<char> {
    match kind {
        CheckKind::Content => "No content operations were executed"@,
        CheckKind::Structure => "No structure operations were executed"@,
        CheckKind::Ui => "No UI operations were executed"@,
        CheckKind::Css => "No CSS operations were executed"@,
    }
}

/// What one check found: how many checks passed, failed and were skipped,
/// the score in thousandths, and the one line it logs.
pub struct CheckFinding {
    pub successful: nat,
    pub failed: nat,
    pub skipped: nat,
    pub score: nat,
    pub status: Seq<char>,
    pub message: Seq<char>,
}

/// How many entries of `log` belong to `kind`, whatever became of them.
pub open spec fn relevant_entries(kind: CheckKind, log: Seq<ExecutionLogEntry>) -> nat
    decreases log.len(),
{
    if log.len() == 0 {
        0
    } else {
        relevant_entries(kind, log.drop_last()) + if concerns(kind, log.last().operation_type@) {
            1nat
        } else {
            0nat
        }
    }
}

/// What the check of category `kind` finds in `log`. It passes where an
/// operation of the category succeeded. Where none did, the content check
/// fails if the log holds content operations at all; every other check, and
/// the content check of a log without content operations, is skipped.
pub open spec fn category_finding(kind: CheckKind, log: Seq<ExecutionLogEntry>) -> CheckFinding {
    let n = relevant_successes(kind, log);
    if n > 0 {
        CheckFinding {
            successful: 1,
            failed: 0,
            skipped: 0,
            score: score_of(1, 0, 0),
            status: "success"@,
            message: decimal(n) + passed_suffix(kind),
        }
    } else if kind is Content && relevant_entries(kind, log) > 0 {
        CheckFinding {
            successful: 0,
            failed: 1,
            skipped: 0,
            score: score_of(0, 1, 0),
            status: "failure"@,
            message: "No content operations were executed successfully"@,
        }
    } else {
        CheckFinding {
            successful: 0,
            failed: 0,
            skipped: 1,
            score: score_of(0, 0, 1),
            status: "skipped"@,
            message: skipped_message(kind),
        }
    }
}

/// The share of `part` in `whole`, in tenths of a percent, rounded to the
/// nearest.
pub open spec fn per_mille(part: nat, whole: nat) -> nat {
    (2000 * part + whole) / (2 * whole)
}

/// A number of tenths of a percent written as a percentage with one
/// decimal place.
pub open spec fn percent_text(tenths: nat) -> Seq<char> {
    decimal(tenths / 10) + "."@ + decimal(tenths % 10) + "%"@
}

/// What the technical check finds in `log`: it passes where at least nine
/// operations in ten succeeded, fails where fewer did, and is skipped
/// where nothing was executed.
pub open spec fn technical_finding(log: Seq<ExecutionLogEntry>) -> CheckFinding {
    let total = log.len();
    let good = successes(log);
    if total == 0 {
        CheckFinding {
            successful: 0,
            failed: 0,
            skipped: 1,
            score: score_of(0, 0, 1),
            status: "skipped"@,
            message: "No operations were executed"@,
        }
    } else if 10 * good >= 9 * total {
        CheckFinding {
            successful: 1,
            failed: 0,
            skipped: 0,
            score: score_of(1, 0, 0),
            status: "success"@,
            message: "Execution success rate: "@ + percent_text(per_mille(good, total)),
        }
    } else {
        CheckFinding {
            successful: 0,
            failed: 1,
            skipped: 0,
            score: score_of(0, 1, 0),
            status: "failure"@,
            message: "Execution success rate too low: "@ + percent_text(per_mille(good, total)),
        }
    }
}

/// `entry` is the line that a check of `check` writes for `finding` about
/// `target` at time `now`.
pub open spec fn logs_finding(
    entry: VerificationLogEntry,
    check: Seq<char>,
    finding: CheckFinding,
    target: Seq<char>,
    now: u64,
) -> bool {
    &&& entry.check_type@ == check
    &&& entry.status@ == finding.status
    &&& entry.message@ == finding.message
    &&& entry.target_path matches Some(p) && p@ == target
    &&& entry.metadata@ == Map::<Seq<char>, String>::empty()
    &&& entry.timestamp == now
}

/// `outcome` is what a check hands back for `finding`.
pub open spec fn reports_finding(
    outcome: (u32, u32, u32, u32, Vec<VerificationLogEntry>),
    check: Seq<char>,
    finding: CheckFinding,
    target: Seq<char>,
    now: u64,
) -> bool {
    &&& outcome.0 == finding.successful
    &&& outcome.1 == finding.failed
    &&& outcome.2 == finding.skipped
    &&& outcome.3 == finding.score
    &&& outcome.4@.len() == 1
    &&& logs_finding(outcome.4@[0], check, finding, target, now)
}

/// The score of a category, in thousandths, from its counts of checks.
pub fn quality_score(successful: u32, failed: u32, skipped: u32) -> (score: u32)
    ensures
        score == score_of(successful as nat, failed as nat, skipped as nat),
        score <= 1000,
{
    if successful > 0 && failed == 0 {
        1000
    } else if successful > 0 {
        let s: u64 = successful as u64;
        let f: u64 = failed as u64;
        let q: u64 = s * 1000 / (s + f);
        assert(q <= 1000) by (nonlinear_arith)
            requires
                q == s * 1000 / (s + f),
                s > 0,
                f > 0,
        ;
        q as u32
    } else if skipped > 0 && failed == 0 {
        800
    } else {
        0
    }
}

/// The overall score, in thousandths, from the five category scores.
pub fn overall_quality(content: u32, structure: u32, ui: u32, css: u32, technical: u32) -> (overall:
    u32)
    ensures
        overall == overall_of(
            content as nat,
            structure as nat,
            ui as nat,
            css as nat,
            technical as nat,
        ),
        content <= 1000 && structure <= 1000 && ui <= 1000 && css <= 1000 && technical <= 1000
            ==> overall <= 1000,
{
    let sum: u64 = 40 * (content as u64) + 20 * (structure as u64) + 15 * (ui as u64) + 10 * (
    css as u64) + 15 * (technical as u64);
    let overall: u64 = sum / 100;
    overall as u32
}

/// Does an operation with the word `op` belong to category `kind`?
pub fn concerns_kind(kind: CheckKind, op: &str) -> (hit: bool)
    ensures
        hit == concerns(kind, op@),
{
    match kind {
        CheckKind::Content => starts_with(op, "create") || starts_with(op, "update"),
        CheckKind::Structure => contains(op, "sidebar") || contains(op, "navigation"),
        CheckKind::Ui => contains(op, "component"),
        CheckKind::Css => contains(op, "style"),
    }
}

/// Counts the entries of `log` that belong to `kind` and succeeded.
pub fn count_relevant_successes(kind: CheckKind, log: &Vec<ExecutionLogEntry>) -> (count: usize)
    ensures
        count == relevant_successes(kind, log@),
{
    let n: usize = log.len();
    let mut count: usize = 0;
    let mut i: usize = 0;
    while i < n
        invariant
            n == log@.len(),
            i <= n,
            count <= i,
            count == relevant_successes(kind, log@.subrange(0, i as int)),
        decreases n - i,
    {
        proof {
            assert(log@.subrange(0, i + 1).drop_last() =~= log@.subrange(0, i as int));
        }
        if concerns_kind(kind, log[i].operation_type.as_str()) && str_eq(
            log[i].status.as_str(),
            "success",
        ) {
            count += 1;
        }
        i += 1;
    }
    proof {
        assert(log@.subrange(0, n as int) =~= log@);
    }
    count
}

/// Counts the entries of `log` that belong to `kind`.
pub fn count_relevant(kind: CheckKind, log: &Vec<ExecutionLogEntry>) -> (count: usize)
    ensures
        count == relevant_entries(kind, log@),
{
    let n: usize = log.len();
    let mut count: usize = 0;
    let mut i: usize = 0;
    while i < n
        invariant
            n == log@.len(),
            i <= n,
            count <= i,
            count == relevant_entries(kind, log@.subrange(0, i as int)),
        decreases n - i,
    {
        proof {
            assert(log@.subrange(0, i + 1).drop_last() =~= log@.subrange(0, i as int));
        }
        if concerns_kind(kind, log[i].operation_type.as_str()) {
            count += 1;
        }
        i += 1;
    }
    proof {
        assert(log@.subrange(0, n as int) =~= log@);
    }
    count
}

/// Counts the entries of `log` that succeeded.
pub fn count_successes(log: &Vec<ExecutionLogEntry>) -> (count: usize)
    ensures
        count == successes(log@),
        count <= log@.len(),
{
    let n: usize = log.len();
    let mut count: usize = 0;
    let mut i: usize = 0;
    while i < n
        invariant
            n == log@.len(),
            i <= n,
            count <= i,
            count == successes(log@.subrange(0, i as int)),
        decreases n - i,
    {
        proof {
            assert(log@.subrange(0, i + 1).drop_last() =~= log@.subrange(0, i as int));
        }
        if str_eq(log[i].status.as_str(), "success") {
            count += 1;
        }
        i += 1;
    }
    proof {
        assert(log@.subrange(0, n as int) =~= log@);
    }
    count
}

/// Writes a number of tenths of a percent as a percentage with one decimal
/// place.
pub fn percent(tenths: u64) -> (line: String)
    ensures
        line@ == percent_text(tenths as nat),
{
    let mut line = decimal_text(tenths / 10);
    line.append(".");
    let last = decimal_text(tenths % 10);
    line.append(last.as_str());
    line.append("%");
    line
}

fn kind_text(kind: CheckKind) -> (word: &'static str)
    ensures
        word@ == kind_word(kind),
{
    match kind {
        CheckKind::Content => "content",
        CheckKind::Structure => "structure",
        CheckKind::Ui => "ui",
        CheckKind::Css => "css",
    }
}

fn passed_suffix_text(kind: CheckKind) -> (word: &'static str)
    ensures
        word@ == passed_suffix(kind),
{
    match kind {
        CheckKind::Content => " content operations executed successfully",
        CheckKind::Structure => " structure operations executed successfully",
        CheckKind::Ui => " UI operations executed successfully",
        CheckKind::Css => " CSS operations executed successfully",
    }
}

fn skipped_text(kind: CheckKind) -> (word: &'static str)
    ensures
        word@ == skipped_message(kind),
{
    match kind {
        CheckKind::Content => "No content operations were executed",
        CheckKind::Structure => "No structure operations were executed",
        CheckKind::Ui => "No UI operations were executed",
        CheckKind::Css => "No CSS operations were executed",
    }
}

/// The line that a check writes into the verification log.
fn log_line(check: &str, status: &str, message: String, target_path: &str, now: u64) -> (entry:
    VerificationLogEntry)
    ensures
        entry.check_type@ == check@,
        entry.status@ == status@,
        entry.message@ == message@,
        entry.target_path matches Some(p) && p@ == target_path@,
        entry.metadata@ == Map::<Seq<char>, String>::empty(),
        entry.timestamp == now,
{
    VerificationLogEntry {
        check_type: String::from_str(check),
        status: String::from_str(status),
        message,
        target_path: Some(String::from_str(target_path)),
        metadata: StrMap::new(),
        timestamp: now,
    }
}

/// A result that still waits for its check.
fn pending_result() -> (result: VerificationResult)
    ensures
        result.status@ == "pending"@,
        result.issues_found == 0,
        result.critical_issues == 0,
        result.metadata@ == Map::<Seq<char>, String>::empty(),
{
    VerificationResult {
        status: String::from_str("pending"),
        issues_found: 0,
        critical_issues: 0,
        metadata: StrMap::new(),
    }
}

/// The three standing recommendations that every verification hands on.
pub open spec fn standing_recommendations() -> Seq<Seq<char>> {
    seq!["Ensure all links are valid"@, "Check image references"@, "Validate code samples"@]
}

/// A score in thousandths written with two decimal places, rounded to the
/// nearest hundredth.
pub open spec fn score_text(thousandths: nat) -> Seq<char> {
    let hundredths = (thousandths + 5) / 10;
    decimal(hundredths / 100) + "."@ + decimal(hundredths % 100 / 10) + decimal(hundredths % 10)
}

/// The one-line summary of a verification.
pub open spec fn verification_summary(successful: nat, failed: nat, skipped: nat, overall: nat) -> Seq<
    char,
> {
    decimal(successful) + " successful, "@ + decimal(failed) + " failed, "@ + decimal(skipped)
        + " skipped, overall quality: "@ + score_text(overall)
}

/// Writes the one-line summary of a verification.
pub fn summary_line(successful: u32, failed: u32, skipped: u32, overall: u32) -> (line: String)
    ensures
        line@ == verification_summary(
            successful as nat,
            failed as nat,
            skipped as nat,
            overall as nat,
        ),
{
    let hundredths: u64 = (overall as u64 + 5) / 10;
    let mut line = decimal_text(successful as u64);
    line.append(" successful, ");
    let f = decimal_text(failed as u64);
    line.append(f.as_str());
    line.append(" failed, ");
    let k = decimal_text(skipped as u64);
    line.append(k.as_str());
    line.append(" skipped, overall quality: ");
    let whole = decimal_text(hundredths / 100);
    line.append(whole.as_str());
    line.append(".");
    let tenth = decimal_text(hundredths % 100 / 10);
    line.append(tenth.as_str());
    let hundredth = decimal_text(hundredths % 10);
    line.append(hundredth.as_str());
    assert(line@ =~= verification_summary(
        successful as nat,
        failed as nat,
        skipped as nat,
        overall as nat,
    ));
    line
}

/// Everything that one verification finds in `log`.
pub struct Verdict {
    pub content: CheckFinding,
    pub structure: CheckFinding,
    pub ui: CheckFinding,
    pub css: CheckFinding,
    pub technical: CheckFinding,
}

impl Verdict {
    pub open spec fn successful(self) -> nat {
        self.content.successful + self.structure.successful + self.ui.successful
            + self.css.successful + self.technical.successful
    }

    pub open spec fn failed(self) -> nat {
        self.content.failed + self.structure.failed + self.ui.failed + self.css.failed
            + self.technical.failed
    }

    pub open spec fn skipped(self) -> nat {
        self.content.skipped + self.structure.skipped + self.ui.skipped + self.css.skipped
            + self.technical.skipped
    }

    pub open spec fn overall(self) -> nat {
        overall_of(
            self.content.score,
            self.structure.score,
            self.ui.score,
            self.css.score,
            self.technical.score,
        )
    }

    pub open spec fn summary(self) -> Seq<char> {
        verification_summary(self.successful(), self.failed(), self.skipped(), self.overall())
    }
}

/// What the five checks find in `log`.
pub open spec fn verdict_of(log: Seq<ExecutionLogEntry>) -> Verdict {
    Verdict {
        content: category_finding(CheckKind::Content, log),
        structure: category_finding(CheckKind::Structure, log),
        ui: category_finding(CheckKind::Ui, log),
        css: category_finding(CheckKind::Css, log),
        technical: technical_finding(log),
    }
}

/// `payload` is what a verification of `log` for the map `doc_map`, about
/// `target` at time `now`, hands to the coordinator.
pub open spec fn carries_verdict(
    payload: VerificationCompletePayload,
    doc_map: DocumentationMap,
    log: Seq<ExecutionLogEntry>,
    target: Seq<char>,
    now: u64,
) -> bool {
    let v = verdict_of(log);
    let r = payload.verification_results;
    &&& payload.doc_map@ == doc_map@
    &&& r.successful_checks == v.successful()
    &&& r.failed_checks == v.failed()
    &&& r.skipped_checks == v.skipped()
    &&& r.content_verification.status@ == "pending"@
    &&& r.structure_verification.status@ == "pending"@
    &&& r.ui_verification.status@ == "pending"@
    &&& r.css_verification.status@ == "pending"@
    &&& r.quality_metrics@ == payload.quality_scores@
    &&& payload.quality_scores.content_quality == v.content.score
    &&& payload.quality_scores.structure_quality == v.structure.score
    &&& payload.quality_scores.ui_quality == v.ui.score
    &&& payload.quality_scores.css_quality == v.css.score
    &&& payload.quality_scores.technical_quality == v.technical.score
    &&& payload.quality_scores.overall_quality == v.overall()
    &&& payload.quality_scores.metadata@ == Map::<Seq<char>, String>::empty()
    &&& payload.verification_report.issues@.len() == 0
    &&& payload.verification_report.positives@.len() == 0
    &&& payload.verification_report.recommendations@.len() == 0
    &&& payload.verification_log@.len() == 5
    &&& logs_finding(payload.verification_log@[0], "content"@, v.content, target, now)
    &&& logs_finding(payload.verification_log@[1], "structure"@, v.structure, target, now)
    &&& logs_finding(payload.verification_log@[2], "ui"@, v.ui, target, now)
    &&& logs_finding(payload.verification_log@[3], "css"@, v.css, target, now)
    &&& logs_finding(payload.verification_log@[4], "technical"@, v.technical, target, now)
    &&& payload.check_status@ == map![
        "content"@ => false,
        "structure"@ => false,
        "ui"@ => false,
        "css"@ => false,
    ]
    &&& payload.improvement_recommendations@.len() == 3
    &&& forall|i: int|
        0 <= i < 3 ==> (#[trigger] payload.improvement_recommendations@[i])@
            == standing_recommendations()[i]
}

/// Checks the quality of a synchronization from the log of what was
/// executed.
#[derive(Debug, Clone)]
pub struct DocVerifierAgent {}

impl DocVerifierAgent {
    /// The agent. It keeps nothing of its own.
    pub fn new() -> (agent: Self)
        ensures
            agent == (DocVerifierAgent {  }),
    {
        DocVerifierAgent {  }
    }

    /// The check of one category. It passes where `execution_log` holds an
    /// operation of the category that succeeded. Where it holds none, the
    /// content check fails if the log holds content operations at all;
    /// every other check, and the content check of a log without content
    /// operations, is skipped.
    pub fn verify_category(
        &self,
        kind: CheckKind,
        target_path: &str,
        execution_log: &Vec<ExecutionLogEntry>,
        now: u64,
    ) -> (outcome: Result<(u32, u32, u32, u32, Vec<VerificationLogEntry>), DocVerifierError>)
        ensures
            outcome matches Ok(o) && reports_finding(
                o,
                kind_word(kind),
                category_finding(kind, execution_log@),
                target_path@,
                now,
            ),
    {
        let mut successful: u32 = 0;
        let mut failed: u32 = 0;
        let mut skipped: u32 = 0;
        let mut log_entries: Vec<VerificationLogEntry> = Vec::new();
        let operations = count_relevant_successes(kind, execution_log);
        let is_content = match kind {
            CheckKind::Content => true,
            _ => false,
        };
        if operations > 0 {
            successful += 1;
            let count = decimal_text(operations as u64);
            let message = join2(count.as_str(), passed_suffix_text(kind));
            log_entries.push(log_line(kind_text(kind), "success", message, target_path, now));
        } else if is_content && count_relevant(kind, execution_log) > 0 {
            failed += 1;
            let message = String::from_str("No content operations were executed successfully");
            log_entries.push(log_line(kind_text(kind), "failure", message, target_path, now));
        } else {
            skipped += 1;
            let message = String::from_str(skipped_text(kind));
            log_entries.push(log_line(kind_text(kind), "skipped", message, target_path, now));
        }
        let quality = quality_score(successful, failed, skipped);
        Ok((successful, failed, skipped, quality, log_entries))
    }

    /// Checks the content files.
    pub fn verify_content(
        &self,
        source_path: &str,
        target_path: &str,
        doc_map: &DocumentationMap,
        execution_log: &Vec<ExecutionLogEntry>,
        params: &VerificationParams,
        now: u64,
    ) -> (outcome: Result<(u32, u32, u32, u32, Vec<VerificationLogEntry>), DocVerifierError>)
        ensures
            outcome matches Ok(o) && reports_finding(
                o,
                "content"@,
                category_finding(CheckKind::Content, execution_log@),
                target_path@,
                now,
            ),
    {
        self.verify_category(CheckKind::Content, target_path, execution_log, now)
    }

    /// Checks the site structure: side bar and navigation.
    pub fn verify_structure(
        &self,
        source_path: &str,
        target_path: &str,
        doc_map: &DocumentationMap,
        execution_log: &Vec<ExecutionLogEntry>,
        params: &VerificationParams,
        now: u64,
    ) -> (outcome: Result<(u32, u32, u32, u32, Vec<VerificationLogEntry>), DocVerifierError>)
        ensures
            outcome matches Ok(o) && reports_finding(
                o,
                "structure"@,
                category_finding(CheckKind::Structure, execution_log@),
                target_path@,
                now,
            ),
    {
        self.verify_category(CheckKind::Structure, target_path, execution_log, now)
    }

    /// Checks the UI components.
    pub fn verify_ui(
        &self,
        source_path: &str,
        target_path: &str,
        doc_map: &DocumentationMap,
        execution_log: &Vec<ExecutionLogEntry>,
        params: &VerificationParams,
        now: u64,
    ) -> (outcome: Result<(u32, u32, u32, u32, Vec<VerificationLogEntry>), DocVerifierError>)
        ensures
            outcome matches Ok(o) && reports_finding(
                o,
                "ui"@,
                category_finding(CheckKind::Ui, execution_log@),
                target_path@,
                now,
            ),
    {
        self.verify_category(CheckKind::Ui, target_path, execution_log, now)
    }

    /// Checks the style sheets.
    pub fn verify_css(
        &self,
        source_path: &str,
        target_path: &str,
        doc_map: &DocumentationMap,
        execution_log: &Vec<ExecutionLogEntry>,
        params: &VerificationParams,
        now: u64,
    ) -> (outcome: Result<(u32, u32, u32, u32, Vec<VerificationLogEntry>), DocVerifierError>)
        ensures
            outcome matches Ok(o) && reports_finding(
                o,
                "css"@,
                category_finding(CheckKind::Css, execution_log@),
                target_path@,
                now,
            ),
    {
        self.verify_category(CheckKind::Css, target_path, execution_log, now)
    }

    /// The technical check: the share of all executed operations that
    /// succeeded must reach nine in ten.
    pub fn verify_technical(
        &self,
        source_path: &str,
        target_path: &str,
        doc_map: &DocumentationMap,
        execution_log: &Vec<ExecutionLogEntry>,
        params: &VerificationParams,
        now: u64,
    ) -> (outcome: Result<(u32, u32, u32, u32, Vec<VerificationLogEntry>), DocVerifierError>)
        ensures
            outcome matches Ok(o) && reports_finding(
                o,
                "technical"@,
                technical_finding(execution_log@),
                target_path@,
                now,
            ),
    {
        let mut successful: u32 = 0;
        let mut failed: u32 = 0;
        let mut skipped: u32 = 0;
        let mut log_entries: Vec<VerificationLogEntry> = Vec::new();
        let total_operations: usize = execution_log.len();
        let successful_operations: usize = count_successes(execution_log);
        if total_operations > 0 {
            let good: u128 = successful_operations as u128;
            let total: u128 = total_operations as u128;
            let tenths: u128 = (2000 * good + total) / (2 * total);
            assert(tenths <= 1000) by (nonlinear_arith)
                requires
                    tenths == (2000 * good + total) / (2 * total),
                    good <= total,
                    total > 0,
            ;
            let rate = percent(tenths as u64);
            if 10 * good >= 9 * total {
                successful += 1;
                let message = join2("Execution success rate: ", rate.as_str());
                log_entries.push(log_line("technical", "success", message, target_path, now));
            } else {
                failed += 1;
                let message = join2("Execution success rate too low: ", rate.as_str());
                log_entries.push(log_line("technical", "failure", message, target_path, now));
            }
        } else {
            skipped += 1;
            let message = String::from_str("No operations were executed");
            log_entries.push(log_line("technical", "skipped", message, target_path, now));
        }
        let quality = quality_score(successful, failed, skipped);
        Ok((successful, failed, skipped, quality, log_entries))
    }

    /// Runs the five checks on `execution_log` and puts together what the
    /// coordinator is told.
    pub fn verify_all(
        &self,
        source_path: &str,
        target_path: &str,
        doc_map: DocumentationMap,
        execution_log: &Vec<ExecutionLogEntry>,
        params: &VerificationParams,
        now: u64,
    ) -> (outcome: Result<VerificationCompletePayload, DocVerifierError>)
        ensures
            outcome matches Ok(p) && carries_verdict(p, doc_map, execution_log@, target_path@, now),
    {
        let mut verification_log: Vec<VerificationLogEntry> = Vec::new();
        let content = match self.verify_content(
            source_path,
            target_path,
            &doc_map,
            execution_log,
            params,
            now,
        ) {
            Ok(m) => m,
            Err(e) => {
                return Err(e);
            },
        };
        let structure = match self.verify_structure(
            source_path,
            target_path,
            &doc_map,
            execution_log,
            params,
            now,
        ) {
            Ok(m) => m,
            Err(e) => {
                return Err(e);
            },
        };
        let ui = match self.verify_ui(
            source_path,
            target_path,
            &doc_map,
            execution_log,
            params,
            now,
        ) {
            Ok(m) => m,
            Err(e) => {
                return Err(e);
            },
        };
        let css = match self.verify_css(
            source_path,
            target_path,
            &doc_map,
            execution_log,
            params,
            now,
        ) {
            Ok(m) => m,
            Err(e) => {
                return Err(e);
            },
        };
        let technical = match self.verify_technical(
            source_path,
            target_path,
            &doc_map,
            execution_log,
            params,
            now,
        ) {
            Ok(m) => m,
            Err(e) => {
                return Err(e);
            },
        };
        let successful_checks: u32 = content.0 + structure.0 + ui.0 + css.0 + technical.0;
        let failed_checks: u32 = content.1 + structure.1 + ui.1 + css.1 + technical.1;
        let skipped_checks: u32 = content.2 + structure.2 + ui.2 + css.2 + technical.2;
        let overall = overall_quality(content.3, structure.3, ui.3, css.3, technical.3);
        let (_, _, _, content_quality, mut content_lines) = content;
        let (_, _, _, structure_quality, mut structure_lines) = structure;
        let (_, _, _, ui_quality, mut ui_lines) = ui;
        let (_, _, _, css_quality, mut css_lines) = css;
        let (_, _, _, technical_quality, mut technical_lines) = technical;
        verification_log.append(&mut content_lines);
        verification_log.append(&mut structure_lines);
        verification_log.append(&mut ui_lines);
        verification_log.append(&mut css_lines);
        verification_log.append(&mut technical_lines);
        let quality_scores = QualityMetrics {
            content_quality,
            structure_quality,
            ui_quality,
            css_quality,
            technical_quality,
            overall_quality: overall,
            metadata: StrMap::new(),
        };
        let quality_metrics = quality_scores.clone();
        let verification_results = VerificationResults {
            content_verification: pending_result(),
            structure_verification: pending_result(),
            ui_verification: pending_result(),
            css_verification: pending_result(),
            successful_checks,
            failed_checks,
            skipped_checks,
            quality_metrics,
            metadata: StrMap::new(),
        };
        let verification_report = VerificationReport {
            issues: Vec::new(),
            positives: Vec::new(),
            recommendations: Vec::new(),
            metadata: StrMap::new(),
        };
        let mut check_status: StrMap<bool> = StrMap::new();
        check_status.insert(
            String::from_str("content"),
            str_eq(verification_results.content_verification.status.as_str(), "success"),
        );
        check_status.insert(
            String::from_str("structure"),
            str_eq(verification_results.structure_verification.status.as_str(), "success"),
        );
        check_status.insert(
            String::from_str("ui"),
            str_eq(verification_results.ui_verification.status.as_str(), "success"),
        );
        check_status.insert(
            String::from_str("css"),
            str_eq(verification_results.css_verification.status.as_str(), "success"),
        );
        let mut improvement_recommendations: Vec<String> = Vec::new();
        improvement_recommendations.push(String::from_str("Ensure all links are valid"));
        improvement_recommendations.push(String::from_str("Check image references"));
        improvement_recommendations.push(String::from_str("Validate code samples"));
        proof {
            reveal_strlit("pending");
            reveal_strlit("success");
            assert("pending"@ != "success"@) by {
                assert("pending"@[0] == 'p');
                assert("success"@[0] == 's');
            }
            assert(check_status@ =~= map![
                "content"@ => false,
                "structure"@ => false,
                "ui"@ => false,
                "css"@ => false,
            ]);
        }
        Ok(
            VerificationCompletePayload {
                doc_map,
                verification_results,
                quality_scores,
                verification_report,
                verification_log,
                check_status,
                improvement_recommendations,
            },
        )
    }

    /// Handles a request to verify. `state` is the workflow's stored state;
    /// the event that comes back is the one to send on.
    ///
    /// An event that carries anything but a verify payload is refused and
    /// `state` stays as it was. Otherwise the workflow is marked
    /// "verifying"; where its state names no source or no target path the
    /// verification stops there; else the five checks run, the state is
    /// marked "verification_complete" with a one-line summary, and the
    /// findings go to the coordinator.
    pub fn handle_verify_event(&self, event: DocSyncEvent, state: &mut DocSyncState, now: u64) -> (
        outcome: Result<DocSyncEvent, DocVerifierError>
    )
        ensures
            final(state).master_doc_map == old(state).master_doc_map,
            final(state).pending_tasks == old(state).pending_tasks,
            final(state).completed_tasks == old(state).completed_tasks,
            final(state).error_log == old(state).error_log,
            final(state).quality_scores == old(state).quality_scores,
            final(state).last_updated == old(state).last_updated,
            final(state).current_iteration == old(state).current_iteration,
            final(state).max_iterations == old(state).max_iterations,
            final(state).iteration_history == old(state).iteration_history,
            final(state).requirements_satisfied == old(state).requirements_satisfied,
            match event.payload {
                DocSyncPayload::Verify(request) => {
                    let marked = old(state).metadata.texts().insert("status"@, "verifying"@);
                    if !marked.contains_key("source_path"@) {
                        &&& outcome matches Err(DocVerifierError::VerificationError(d))
                        &&& d@ == "Source path not found in state"@
                        &&& final(state).metadata.texts() == marked
                    } else if !marked.contains_key("target_path"@) {
                        &&& outcome matches Err(DocVerifierError::VerificationError(d))
                        &&& d@ == "Target path not found in state"@
                        &&& final(state).metadata.texts() == marked
                    } else {
                        &&& outcome matches Ok(sent)
                        &&& sent.event_type@ == "docs-verification-complete"@
                        &&& sent.source_agent@ == "doc-verifier"@
                        &&& sent.target_agent@ == "doc-coordinator"@
                        &&& sent.correlation_id@ == event.correlation_id@
                        &&& sent.timestamp == now
                        &&& sent.payload matches DocSyncPayload::VerificationComplete(p)
                        &&& carries_verdict(
                            p,
                            request.doc_map,
                            request.execution_log@,
                            marked["target_path"@],
                            now,
                        )
                        &&& final(state).metadata.texts() == marked.insert(
                            "status"@,
                            "verification_complete"@,
                        ).insert(
                            "verification_summary"@,
                            verdict_of(request.execution_log@).summary(),
                        )
                    }
                },
                _ => {
                    &&& outcome matches Err(DocVerifierError::InvalidPayload(d))
                    &&& d@ == "Expected Verify payload"@
                    &&& final(state).metadata == old(state).metadata
                },
            },
    {
        let DocSyncEvent { event_type: _, payload, source_agent: _, target_agent: _, timestamp: _, correlation_id } =
            event;
        let verify_payload = match payload {
            DocSyncPayload::Verify(p) => p,
            _ => {
                return Err(
                    DocVerifierError::InvalidPayload(String::from_str("Expected Verify payload")),
                );
            },
        };
        state.metadata.set("status", "verifying");
        let source_path = match state.metadata.get("source_path") {
            Some(p) => p.clone(),
            None => {
                return Err(
                    DocVerifierError::VerificationError(
                        String::from_str("Source path not found in state"),
                    ),
                );
            },
        };
        let target_path = match state.metadata.get("target_path") {
            Some(p) => p.clone(),
            None => {
                return Err(
                    DocVerifierError::VerificationError(
                        String::from_str("Target path not found in state"),
                    ),
                );
            },
        };
        let VerifyPayload { doc_map, execution_log, verification_params } = verify_payload;
        let report = match self.verify_all(
            source_path.as_str(),
            target_path.as_str(),
            doc_map,
            &execution_log,
            &verification_params,
            now,
        ) {
            Ok(r) => r,
            Err(e) => {
                return Err(e);
            },
        };
        let summary = summary_line(
            report.verification_results.successful_checks,
            report.verification_results.failed_checks,
            report.verification_results.skipped_checks,
            report.quality_scores.overall_quality,
        );
        state.metadata.set("status", "verification_complete");
        state.metadata.set("verification_summary", summary.as_str());
        Ok(
            DocSyncEvent::at(
                "docs-verification-complete",
                DocSyncPayload::VerificationComplete(report),
                "doc-verifier",
                "doc-coordinator",
                correlation_id.as_str(),
                now,
            ),
        )
    }
}

/// The name under which the bus delivers the event that the agent answers
/// to.
pub open spec fn verifier_subscriptions() -> Seq<Seq<char>> {
    seq!["doc_sync.docs-verify"@]
}

impl DocVerifierAgent {
    /// The name under which the bus delivers the event that the agent
    /// answers to.
    pub fn subscribed_events() -> (names: Vec<&'static str>)
        ensures
            names@.map_values(|n: &str| n@) == verifier_subscriptions(),
    {
        let mut names: Vec<&'static str> = Vec::new();
        names.push("doc_sync.docs-verify");
        assert(names@.map_values(|n: &str| n@) =~= verifier_subscriptions());
        names
    }

    /// Registers on `event_system` a handler that `make` gives for the
    /// name under which the bus delivers the event that the agent answers
    /// to.
    pub fn register_event_handlers<H, M: Fn(&str) -> H>(
        &self,
        event_system: &mut EventSystem<H>,
        make: &M,
    ) -> (done: Result<(), DocVerifierError>)
        requires
            forall|n: &str| call_requires(make, (n,)),
        ensures
            done is Ok,
            forall|name: Seq<char>|
                handlers_added(
                    old(event_system).handlers_of(name),
                    #[trigger] final(event_system).handlers_of(name),
                    occurrences(verifier_subscriptions(), name),
                    make,
                    name,
                ),
    {
        let names = DocVerifierAgent::subscribed_events();
        match event_system.register_all(&names, make) {
            Ok(_) => Ok(()),
            Err(e) => Err(DocVerifierError::EventSystemError(e.message())),
        }
    }

    /// Makes the agent ready: registers its handler.
    pub fn initialize<H, M: Fn(&str) -> H>(&self, event_system: &mut EventSystem<H>, make: &M) -> (done:
        Result<(), DocVerifierError>)
        requires
            forall|n: &str| call_requires(make, (n,)),
        ensures
            done is Ok,
            forall|name: Seq<char>|
                handlers_added(
                    old(event_system).handlers_of(name),
                    #[trigger] final(event_system).handlers_of(name),
                    occurrences(verifier_subscriptions(), name),
                    make,
                    name,
                ),
    {
        self.register_event_handlers(event_system, make)
    }
}

} // verus!
