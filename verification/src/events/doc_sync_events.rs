use crate::str_map::{map_views, seq_views, StrMap};
use vstd::prelude::*;

pub mod agents;
pub mod events;

verus! {

/// What a `DocSourceFile` holds, as plain values.
pub struct DocSourceFileView {
    pub path: Seq<char>,
    pub content_hash: Seq<char>,
    pub metadata: Map<Seq<char>, Seq<char>>,
    pub last_updated: u64,
}

/// A source documentation file.
#[derive(Debug)]
pub struct DocSourceFile {
    pub path: String,
    pub content_hash: String,
    pub metadata: StrMap<String>,
    pub last_updated: u64,
}

impl View for DocSourceFile {
    type V = DocSourceFileView;

    open spec fn view(&self) -> DocSourceFileView {
        DocSourceFileView {
            path: self.path@,
            content_hash: self.content_hash@,
            metadata: self.metadata.texts(),
            last_updated: self.last_updated,
        }
    }
}

impl Clone for DocSourceFile {
    fn clone(&self) -> (copy: Self)
        ensures
            copy@ == self@,
    {
        DocSourceFile {
            path: self.path.clone(),
            content_hash: self.content_hash.clone(),
            metadata: self.metadata.duplicate(),
            last_updated: self.last_updated,
        }
    }
}

/// What a `DocTargetFile` holds, as plain values.
pub struct DocTargetFileView {
    pub path: Seq<char>,
    pub content_hash: Seq<char>,
    pub file_type: Seq<char>,
    pub metadata: Map<Seq<char>, Seq<char>>,
    pub last_updated: u64,
}

/// A target file of the documentation website. `file_type` is a free word
/// such as "markdown", "config" or "component".
#[derive(Debug)]
pub struct DocTargetFile {
    pub path: String,
    pub content_hash: String,
    pub file_type: String,
    pub metadata: StrMap<String>,
    pub last_updated: u64,
}

impl View for DocTargetFile {
    type V = DocTargetFileView;

    open spec fn view(&self) -> DocTargetFileView {
        DocTargetFileView {
            path: self.path@,
            content_hash: self.content_hash@,
            file_type: self.file_type@,
            metadata: self.metadata.texts(),
            last_updated: self.last_updated,
        }
    }
}

impl Clone for DocTargetFile {
    fn clone(&self) -> (copy: Self)
        ensures
            copy@ == self@,
    {
        DocTargetFile {
            path: self.path.clone(),
            content_hash: self.content_hash.clone(),
            file_type: self.file_type.clone(),
            metadata: self.metadata.duplicate(),
            last_updated: self.last_updated,
        }
    }
}

/// What a `DocRelationship` holds, as plain values.
pub struct DocRelationshipView {
    pub source_path: Seq<char>,
    pub target_path: Seq<char>,
    pub relationship_type: Seq<char>,
    pub metadata: Map<Seq<char>, Seq<char>>,
}

/// A link between a source file and a target file. `relationship_type` is
/// a free word such as "primary", "derived" or "related".
#[derive(Debug)]
pub struct DocRelationship {
    pub source_path: String,
    pub target_path: String,
    pub relationship_type: String,
    pub metadata: StrMap<String>,
}

impl View for DocRelationship {
    type V = DocRelationshipView;

    open spec fn view(&self) -> DocRelationshipView {
        DocRelationshipView {
            source_path: self.source_path@,
            target_path: self.target_path@,
            relationship_type: self.relationship_type@,
            metadata: self.metadata.texts(),
        }
    }
}

impl Clone for DocRelationship {
    fn clone(&self) -> (copy: Self)
        ensures
            copy@ == self@,
    {
        DocRelationship {
            source_path: self.source_path.clone(),
            target_path: self.target_path.clone(),
            relationship_type: self.relationship_type.clone(),
            metadata: self.metadata.duplicate(),
        }
    }
}

/// What a `DocumentationMap` holds, as plain values.
pub struct DocumentationMapView {
    pub source_files: Map<Seq<char>, DocSourceFileView>,
    pub target_files: Map<Seq<char>, DocTargetFileView>,
    pub relationships: Seq<DocRelationshipView>,
    pub metadata: Map<Seq<char>, Seq<char>>,
}

/// The blackboard that the phases hand to one another: every known source
/// and target file, the links between them, and free-form notes.
#[derive(Debug)]
pub struct DocumentationMap {
    pub source_files: StrMap<DocSourceFile>,
    pub target_files: StrMap<DocTargetFile>,
    pub relationships: Vec<DocRelationship>,
    pub metadata: StrMap<String>,
}

impl View for DocumentationMap {
    type V = DocumentationMapView;

    open spec fn view(&self) -> DocumentationMapView {
        DocumentationMapView {
            source_files: map_views(self.source_files@),
            target_files: map_views(self.target_files@),
            relationships: seq_views(self.relationships@),
            metadata: self.metadata.texts(),
        }
    }
}

/// The view of the map that holds nothing.
pub open spec fn empty_doc_map() -> DocumentationMapView {
    DocumentationMapView {
        source_files: Map::empty(),
        target_files: Map::empty(),
        relationships: Seq::empty(),
        metadata: Map::empty(),
    }
}

impl Default for DocumentationMap {
    fn default() -> (map: Self)
        ensures
            map@ == empty_doc_map(),
    {
        let map = DocumentationMap {
            source_files: StrMap::new(),
            target_files: StrMap::new(),
            relationships: Vec::new(),
            metadata: StrMap::new(),
        };
        assert(map@.source_files =~= Map::empty());
        assert(map@.target_files =~= Map::empty());
        assert(map@.relationships =~= Seq::empty());
        assert(map@.metadata =~= Map::empty());
        map
    }
}

impl Clone for DocumentationMap {
    fn clone(&self) -> (copy: Self)
        ensures
            copy@ == self@,
    {
        let copy = DocumentationMap {
            source_files: self.source_files.clone(),
            target_files: self.target_files.clone(),
            relationships: self.relationships.clone(),
            metadata: self.metadata.duplicate(),
        };
        assert(copy@.source_files =~= self@.source_files);
        assert(copy@.target_files =~= self@.target_files);
        assert(copy@.relationships =~= self@.relationships);
        copy
    }
}

/// What a `QualityMetrics` holds, as plain values.
pub struct QualityMetricsView {
    pub content_quality: u32,
    pub structure_quality: u32,
    pub ui_quality: u32,
    pub css_quality: u32,
    pub technical_quality: u32,
    pub overall_quality: u32,
    pub metadata: Map<Seq<char>, Seq<char>>,
}

/// Quality scores, each in thousandths: 0 is the worst score and 1000 the
/// best.
#[derive(Debug)]
pub struct QualityMetrics {
    pub content_quality: u32,
    pub structure_quality: u32,
    pub ui_quality: u32,
    pub css_quality: u32,
    pub technical_quality: u32,
    pub overall_quality: u32,
    pub metadata: StrMap<String>,
}

impl View for QualityMetrics {
    type V = QualityMetricsView;

    open spec fn view(&self) -> QualityMetricsView {
        QualityMetricsView {
            content_quality: self.content_quality,
            structure_quality: self.structure_quality,
            ui_quality: self.ui_quality,
            css_quality: self.css_quality,
            technical_quality: self.technical_quality,
            overall_quality: self.overall_quality,
            metadata: self.metadata.texts(),
        }
    }
}

impl Clone for QualityMetrics {
    fn clone(&self) -> (copy: Self)
        ensures
            copy@ == self@,
    {
        QualityMetrics {
            content_quality: self.content_quality,
            structure_quality: self.structure_quality,
            ui_quality: self.ui_quality,
            css_quality: self.css_quality,
            technical_quality: self.technical_quality,
            overall_quality: self.overall_quality,
            metadata: self.metadata.duplicate(),
        }
    }
}

/// The view of an optional score card.
pub open spec fn quality_view(scores: Option<QualityMetrics>) -> Option<QualityMetricsView> {
    match scores {
        Some(q) => Some(q@),
        None => None,
    }
}

/// A copy of an optional score card.
pub fn clone_quality(scores: &Option<QualityMetrics>) -> (copy: Option<QualityMetrics>)
    ensures
        quality_view(copy) == quality_view(*scores),
{
    match scores {
        Some(q) => Some(q.clone()),
        None => None,
    }
}

/// Parameters that start a synchronization. `scope` is "full",
/// "incremental" or "specific".
#[derive(Debug, Clone)]
pub struct StartPayload {
    pub source_path: String,
    pub target_path: String,
    pub scope: String,
    pub options: StrMap<String>,
}

#[derive(Debug, Clone)]
pub struct AnalyzeContentPayload {
    pub source_path: String,
    pub doc_map: Option<DocumentationMap>,
}

#[derive(Debug, Clone)]
pub struct ContentAnalyzedPayload {
    pub doc_map: DocumentationMap,
    pub content_operations: Vec<ContentOperation>,
    pub analysis_report: AnalysisReport,
}

#[derive(Debug, Clone)]
pub struct AnalyzeDocusaurusPayload {
    pub target_path: String,
    pub doc_map: Option<DocumentationMap>,
}

#[derive(Debug, Clone)]
pub struct DocusaurusAnalyzedPayload {
    pub doc_map: DocumentationMap,
    pub structure_operations: Vec<StructureOperation>,
    pub analysis_report: AnalysisReport,
}

#[derive(Debug, Clone)]
pub struct AnalyzeUiPayload {
    pub target_path: String,
    pub doc_map: Option<DocumentationMap>,
}

#[derive(Debug, Clone)]
pub struct UiAnalyzedPayload {
    pub doc_map: DocumentationMap,
    pub ui_operations: Vec<UiOperation>,
    pub analysis_report: AnalysisReport,
}

#[derive(Debug, Clone)]
pub struct AnalyzeCssPayload {
    pub target_path: String,
    pub doc_map: Option<DocumentationMap>,
}

#[derive(Debug, Clone)]
pub struct CssAnalyzedPayload {
    pub doc_map: DocumentationMap,
    pub css_operations: Vec<CssOperation>,
    pub analysis_report: AnalysisReport,
}

#[derive(Debug, Clone)]
pub struct ExecutePayload {
    pub doc_map: DocumentationMap,
    pub operations: Vec<SyncOperation>,
    pub execution_params: ExecutionParams,
}

#[derive(Debug, Clone)]
pub struct ExecutionCompletePayload {
    pub doc_map: DocumentationMap,
    pub execution_results: ExecutionResults,
    pub execution_log: Vec<ExecutionLogEntry>,
}

#[derive(Debug, Clone)]
pub struct VerifyPayload {
    pub doc_map: DocumentationMap,
    pub execution_log: Vec<ExecutionLogEntry>,
    pub verification_params: VerificationParams,
}

#[derive(Debug, Clone)]
pub struct VerificationCompletePayload {
    pub doc_map: DocumentationMap,
    pub verification_results: VerificationResults,
    pub quality_scores: QualityMetrics,
    pub verification_report: VerificationReport,
    pub verification_log: Vec<VerificationLogEntry>,
    pub check_status: StrMap<bool>,
    pub improvement_recommendations: Vec<String>,
}

#[derive(Debug, Clone)]
pub struct CompletePayload {
    pub doc_map: DocumentationMap,
    pub quality_scores: QualityMetrics,
    pub summary_report: SyncSummaryReport,
}

#[derive(Debug, Clone)]
pub struct PlanChangesPayload {
    pub doc_map: DocumentationMap,
    pub verification_results: VerificationResults,
    pub verification_report: VerificationReport,
    pub iteration_number: u32,
    pub requirements: StrMap<bool>,
}

#[derive(Debug, Clone)]
pub struct ChangesPlannedPayload {
    pub doc_map: DocumentationMap,
    pub planned_operations: Vec<SyncOperation>,
    pub planning_report: PlanningReport,
    pub iteration_number: u32,
}

#[derive(Debug, Clone)]
pub struct ImplementChangesPayload {
    pub doc_map: DocumentationMap,
    pub planned_operations: Vec<SyncOperation>,
    pub execution_params: ExecutionParams,
    pub iteration_number: u32,
}

#[derive(Debug, Clone)]
pub struct ImplementationCompletePayload {
    pub doc_map: DocumentationMap,
    pub implementation_results: ImplementationResults,
    pub implementation_log: Vec<ImplementationLogEntry>,
    pub iteration_number: u32,
}

#[derive(Debug, Clone)]
pub struct IterationDecisionPayload {
    pub doc_map: DocumentationMap,
    pub verification_results: VerificationResults,
    pub iteration_number: u32,
    pub requirements_satisfied: StrMap<bool>,
    pub continue_iteration: bool,
}

#[derive(Debug, Clone)]
pub struct IterationCompletePayload {
    pub doc_map: DocumentationMap,
    pub final_verification_results: VerificationResults,
    pub iteration_count: u32,
    pub quality_scores: QualityMetrics,
    pub summary_report: SyncSummaryReport,
}

/// What a planning pass reports. `estimated_impact` is in thousandths.
#[derive(Debug, Clone)]
pub struct PlanningReport {
    pub issues_addressed: Vec<String>,
    pub planned_operations_count: usize,
    pub improvement_focus_areas: Vec<String>,
    pub estimated_impact: StrMap<u32>,
    pub metadata: StrMap<String>,
}

#[derive(Debug, Clone)]
pub struct ImplementationResults {
    pub successful_operations: usize,
    pub failed_operations: usize,
    pub skipped_operations: usize,
    pub modified_files: Vec<String>,
    pub metadata: StrMap<String>,
}

/// One line of an implementation log. `status` is "success", "failure" or
/// "skipped".
#[derive(Debug, Clone)]
pub struct ImplementationLogEntry {
    pub operation_type: String,
    pub status: String,
    pub target_path: String,
    pub error_message: Option<String>,
    pub metadata: StrMap<String>,
    pub timestamp: u64,
}

/// A change to a content file. `operation_type` is "create", "update" or
/// "delete".
#[derive(Debug, Clone)]
pub struct ContentOperation {
    pub operation_type: String,
    pub source_path: String,
    pub target_path: String,
    pub content: Option<String>,
    pub metadata: StrMap<String>,
}

/// A change to the site structure. `operation_type` is "update_sidebar" or
/// "update_navigation".
#[derive(Debug, Clone)]
pub struct StructureOperation {
    pub operation_type: String,
    pub target_path: String,
    pub content: Option<String>,
    pub metadata: StrMap<String>,
}

/// A change to a UI component. `operation_type` is "update_component" or
/// "add_component".
#[derive(Debug, Clone)]
pub struct UiOperation {
    pub operation_type: String,
    pub target_path: String,
    pub content: Option<String>,
    pub metadata: StrMap<String>,
}

/// A change to a style sheet. `operation_type` is "update_style" or
/// "add_style".
#[derive(Debug, Clone)]
pub struct CssOperation {
    pub operation_type: String,
    pub target_path: String,
    pub content: Option<String>,
    pub metadata: StrMap<String>,
}

/// A file change that the runner is asked to carry out.
#[derive(Debug, Clone)]
pub enum SyncOperation {
    ContentOperation(ContentOperation),
    StructureOperation(StructureOperation),
    UiOperation(UiOperation),
    CssOperation(CssOperation),
}

impl SyncOperation {
    /// The operation's word for what it does.
    pub open spec fn kind(&self) -> Seq<char> {
        match self {
            SyncOperation::ContentOperation(op) => op.operation_type@,
            SyncOperation::StructureOperation(op) => op.operation_type@,
            SyncOperation::UiOperation(op) => op.operation_type@,
            SyncOperation::CssOperation(op) => op.operation_type@,
        }
    }

    /// The path that the operation writes to or removes.
    pub open spec fn path(&self) -> Seq<char> {
        match self {
            SyncOperation::ContentOperation(op) => op.target_path@,
            SyncOperation::StructureOperation(op) => op.target_path@,
            SyncOperation::UiOperation(op) => op.target_path@,
            SyncOperation::CssOperation(op) => op.target_path@,
        }
    }

    /// The text that the operation carries, if any.
    pub open spec fn text(&self) -> Option<Seq<char>> {
        let content = match self {
            SyncOperation::ContentOperation(op) => op.content,
            SyncOperation::StructureOperation(op) => op.content,
            SyncOperation::UiOperation(op) => op.content,
            SyncOperation::CssOperation(op) => op.content,
        };
        match content {
            Some(c) => Some(c@),
            None => None,
        }
    }

    pub fn operation_type(&self) -> (word: &String)
        ensures
            word@ == self.kind(),
    {
        match self {
            SyncOperation::ContentOperation(op) => &op.operation_type,
            SyncOperation::StructureOperation(op) => &op.operation_type,
            SyncOperation::UiOperation(op) => &op.operation_type,
            SyncOperation::CssOperation(op) => &op.operation_type,
        }
    }

    pub fn target_path(&self) -> (path: &String)
        ensures
            path@ == self.path(),
    {
        match self {
            SyncOperation::ContentOperation(op) => &op.target_path,
            SyncOperation::StructureOperation(op) => &op.target_path,
            SyncOperation::UiOperation(op) => &op.target_path,
            SyncOperation::CssOperation(op) => &op.target_path,
        }
    }

    pub fn content(&self) -> (content: &Option<String>)
        ensures
            match *content {
                Some(c) => self.text() == Some(c@),
                None => self.text().is_none(),
            },
    {
        match self {
            SyncOperation::ContentOperation(op) => &op.content,
            SyncOperation::StructureOperation(op) => &op.content,
            SyncOperation::UiOperation(op) => &op.content,
            SyncOperation::CssOperation(op) => &op.content,
        }
    }
}

#[derive(Debug, Clone)]
pub struct AnalysisReport {
    pub total_items: usize,
    pub findings: Vec<Finding>,
    pub operations: Vec<Operation>,
    pub summary: String,
}

#[derive(Debug, Clone)]
pub struct Finding {
    pub category: String,
    pub severity: Severity,
    pub message: String,
    pub file_path: Option<String>,
    pub line_number: Option<u32>,
    pub recommendation: Option<String>,
}

#[derive(Debug, Clone, Copy, PartialEq, Eq)]
pub enum Severity {
    Critical,
    High,
    Medium,
    Low,
    Info,
}

/// A change that an analysis proposes.
#[derive(Debug, Clone)]
pub struct Operation {
    pub op_type: OperationType,
    pub path: String,
    pub content: Option<String>,
    pub metadata: Option<StrMap<String>>,
}

#[derive(Debug, Clone, Copy, PartialEq, Eq)]
pub enum OperationType {
    Create,
    Update,
    Delete,
    Move,
    Copy,
}

#[derive(Debug, Clone)]
pub struct ExecutionParams {
    pub dry_run: bool,
    pub max_parallel_operations: usize,
    pub backup: bool,
    pub metadata: StrMap<String>,
}

/// How many operations of a batch succeeded, failed and were skipped.
#[derive(Debug, Clone)]
pub struct ExecutionResults {
    pub successful_operations: usize,
    pub failed_operations: usize,
    pub skipped_operations: usize,
    pub metadata: StrMap<String>,
}

/// One line of an execution log. `status` is "success", "failure" or
/// "skipped".
#[derive(Debug, Clone)]
pub struct ExecutionLogEntry {
    pub operation_type: String,
    pub status: String,
    pub target_path: String,
    pub error_message: Option<String>,
    pub metadata: StrMap<String>,
    pub timestamp: u64,
}

#[derive(Debug, Clone)]
pub struct VerificationParams {
    pub verify_content: bool,
    pub verify_structure: bool,
    pub verify_ui: bool,
    pub verify_css: bool,
    pub metadata: StrMap<String>,
}

#[derive(Debug, Clone)]
pub struct VerificationResults {
    pub content_verification: VerificationResult,
    pub structure_verification: VerificationResult,
    pub ui_verification: VerificationResult,
    pub css_verification: VerificationResult,
    pub successful_checks: u32,
    pub failed_checks: u32,
    pub skipped_checks: u32,
    pub quality_metrics: QualityMetrics,
    pub metadata: StrMap<String>,
}

/// The outcome of one category of checks. `status` is "pending", "success",
/// "failure" or "partial".
#[derive(Debug, Clone)]
pub struct VerificationResult {
    pub status: String,
    pub issues_found: usize,
    pub critical_issues: usize,
    pub metadata: StrMap<String>,
}

#[derive(Debug, Clone)]
pub struct VerificationReport {
    pub issues: Vec<VerificationIssue>,
    pub positives: Vec<VerificationPositive>,
    pub recommendations: Vec<VerificationRecommendation>,
    pub metadata: StrMap<String>,
}

#[derive(Debug, Clone)]
pub struct VerificationIssue {
    pub issue_type: String,
    pub severity: String,
    pub description: String,
    pub related_paths: Vec<String>,
    pub metadata: StrMap<String>,
}

#[derive(Debug, Clone)]
pub struct VerificationPositive {
    pub positive_type: String,
    pub description: String,
    pub related_paths: Vec<String>,
    pub metadata: StrMap<String>,
}

#[derive(Debug, Clone)]
pub struct VerificationRecommendation {
    pub recommendation_type: String,
    pub priority: String,
    pub description: String,
    pub related_paths: Vec<String>,
    pub metadata: StrMap<String>,
}

#[derive(Debug, Clone)]
pub struct SyncSummaryReport {
    pub files_analyzed: usize,
    pub files_created: usize,
    pub files_updated: usize,
    pub files_deleted: usize,
    pub operations_executed: usize,
    pub operations_failed: usize,
    pub critical_issues: usize,
    pub major_issues: usize,
    pub minor_issues: usize,
    pub overall_status: String,
    pub metadata: StrMap<String>,
}

/// One line of a verification log. `status` is "success", "failure" or
/// "skipped".
#[derive(Debug, Clone)]
pub struct VerificationLogEntry {
    pub check_type: String,
    pub status: String,
    pub message: String,
    pub target_path: Option<String>,
    pub metadata: StrMap<String>,
    pub timestamp: u64,
}

/// What an event carries, by kind.
#[derive(Debug, Clone)]
pub enum DocSyncPayload {
    Start(StartPayload),
    AnalyzeContent(AnalyzeContentPayload),
    ContentAnalyzed(ContentAnalyzedPayload),
    AnalyzeDocusaurus(AnalyzeDocusaurusPayload),
    DocusaurusAnalyzed(DocusaurusAnalyzedPayload),
    AnalyzeUi(AnalyzeUiPayload),
    UiAnalyzed(UiAnalyzedPayload),
    AnalyzeCss(AnalyzeCssPayload),
    CssAnalyzed(CssAnalyzedPayload),
    Execute(ExecutePayload),
    ExecutionComplete(ExecutionCompletePayload),
    Verify(VerifyPayload),
    VerificationComplete(VerificationCompletePayload),
    Complete(CompletePayload),
    PlanChanges(PlanChangesPayload),
    ChangesPlanned(ChangesPlannedPayload),
    ImplementChanges(ImplementChangesPayload),
    ImplementationComplete(ImplementationCompletePayload),
    IterationDecision(IterationDecisionPayload),
    IterationComplete(IterationCompletePayload),
}

impl DocSyncPayload {
    /// The word that names the payload's kind on the wire.
    pub open spec fn kind_name(&self) -> Seq<char> {
        match self {
            DocSyncPayload::Start(_) => "Start"@,
            DocSyncPayload::AnalyzeContent(_) => "AnalyzeContent"@,
            DocSyncPayload::ContentAnalyzed(_) => "ContentAnalyzed"@,
            DocSyncPayload::AnalyzeDocusaurus(_) => "AnalyzeDocusaurus"@,
            DocSyncPayload::DocusaurusAnalyzed(_) => "DocusaurusAnalyzed"@,
            DocSyncPayload::AnalyzeUi(_) => "AnalyzeUi"@,
            DocSyncPayload::UiAnalyzed(_) => "UiAnalyzed"@,
            DocSyncPayload::AnalyzeCss(_) => "AnalyzeCss"@,
            DocSyncPayload::CssAnalyzed(_) => "CssAnalyzed"@,
            DocSyncPayload::Execute(_) => "Execute"@,
            DocSyncPayload::ExecutionComplete(_) => "ExecutionComplete"@,
            DocSyncPayload::Verify(_) => "Verify"@,
            DocSyncPayload::VerificationComplete(_) => "VerificationComplete"@,
            DocSyncPayload::Complete(_) => "Complete"@,
            DocSyncPayload::PlanChanges(_) => "PlanChanges"@,
            DocSyncPayload::ChangesPlanned(_) => "ChangesPlanned"@,
            DocSyncPayload::ImplementChanges(_) => "ImplementChanges"@,
            DocSyncPayload::ImplementationComplete(_) => "ImplementationComplete"@,
            DocSyncPayload::IterationDecision(_) => "IterationDecision"@,
            DocSyncPayload::IterationComplete(_) => "IterationComplete"@,
        }
    }

    /// The word that names the payload's kind on the wire.
    pub fn wire_name(&self) -> (name: &'static str)
        ensures
            name@ == self.kind_name(),
    {
        match self {
            DocSyncPayload::Start(_) => "Start",
            DocSyncPayload::AnalyzeContent(_) => "AnalyzeContent",
            DocSyncPayload::ContentAnalyzed(_) => "ContentAnalyzed",
            DocSyncPayload::AnalyzeDocusaurus(_) => "AnalyzeDocusaurus",
            DocSyncPayload::DocusaurusAnalyzed(_) => "DocusaurusAnalyzed",
            DocSyncPayload::AnalyzeUi(_) => "AnalyzeUi",
            DocSyncPayload::UiAnalyzed(_) => "UiAnalyzed",
            DocSyncPayload::AnalyzeCss(_) => "AnalyzeCss",
            DocSyncPayload::CssAnalyzed(_) => "CssAnalyzed",
            DocSyncPayload::Execute(_) => "Execute",
            DocSyncPayload::ExecutionComplete(_) => "ExecutionComplete",
            DocSyncPayload::Verify(_) => "Verify",
            DocSyncPayload::VerificationComplete(_) => "VerificationComplete",
            DocSyncPayload::Complete(_) => "Complete",
            DocSyncPayload::PlanChanges(_) => "PlanChanges",
            DocSyncPayload::ChangesPlanned(_) => "ChangesPlanned",
            DocSyncPayload::ImplementChanges(_) => "ImplementChanges",
            DocSyncPayload::ImplementationComplete(_) => "ImplementationComplete",
            DocSyncPayload::IterationDecision(_) => "IterationDecision",
            DocSyncPayload::IterationComplete(_) => "IterationComplete",
        }
    }
}

/// Reads the system clock with `std::time::SystemTime::now`. What follows
/// the call turns the instant into whole nanoseconds since the start of
/// 1970; a clock set before 1970 reads as 0. Nothing is claimed of the
/// number that comes back.
#[verifier::external_body]
pub(crate) fn unix_nanos() -> (now: u128) {
    match std::time::SystemTime::now().duration_since(std::time::UNIX_EPOCH) {
        Ok(elapsed) => elapsed.as_nanos(),
        Err(_) => 0,
    }
}

/// The whole seconds in a number of nanoseconds, at most the largest number
/// of seconds that can be kept.
pub open spec fn seconds_of(nanos: u128) -> u64 {
    if nanos / 1_000_000_000 > u64::MAX {
        u64::MAX
    } else {
        (nanos / 1_000_000_000) as u64
    }
}

/// The whole seconds in a number of nanoseconds.
pub fn whole_seconds(nanos: u128) -> (seconds: u64)
    ensures
        seconds == seconds_of(nanos),
{
    let seconds: u128 = nanos / 1_000_000_000;
    if seconds > u64::MAX as u128 {
        u64::MAX
    } else {
        seconds as u64
    }
}

/// The time of the system clock in whole seconds since the start of 1970.
pub(crate) fn unix_seconds() -> (now: u64) {
    whole_seconds(unix_nanos())
}

/// Draws a random version-4 identifier with `uuid::Uuid::new_v4` and writes
/// it out with its `Display`, which is the hyphenated lower-case form of 36
/// characters. Only that length is claimed. `new_v4` gives up where the
/// operating system hands out no random bytes.
#[verifier::external_body]
pub(crate) fn random_uuid_text() -> (id: String)
    ensures
        id@.len() == 36,
{
    uuid::Uuid::new_v4().to_string()
}

/// A message on the bus: what happened, who said it to whom, when, and for
/// which workflow.
#[derive(Debug, Clone)]
pub struct DocSyncEvent {
    pub event_type: String,
    pub payload: DocSyncPayload,
    pub source_agent: String,
    pub target_agent: String,
    pub timestamp: u64,
    pub correlation_id: String,
}

impl DocSyncEvent {
    /// The event with the given parts, stamped with `timestamp`.
    pub fn at(
        event_type: &str,
        payload: DocSyncPayload,
        source_agent: &str,
        target_agent: &str,
        correlation_id: &str,
        timestamp: u64,
    ) -> (event: Self)
        ensures
            event.event_type@ == event_type@,
            event.payload == payload,
            event.source_agent@ == source_agent@,
            event.target_agent@ == target_agent@,
            event.timestamp == timestamp,
            event.correlation_id@ == correlation_id@,
    {
        DocSyncEvent {
            event_type: String::from_str(event_type),
            payload,
            source_agent: String::from_str(source_agent),
            target_agent: String::from_str(target_agent),
            timestamp,
            correlation_id: String::from_str(correlation_id),
        }
    }

    /// The event with the given parts, stamped with the current time.
    pub fn new(
        event_type: &str,
        payload: DocSyncPayload,
        source_agent: &str,
        target_agent: &str,
        correlation_id: &str,
    ) -> (event: Self)
        ensures
            event.event_type@ == event_type@,
            event.payload == payload,
            event.source_agent@ == source_agent@,
            event.target_agent@ == target_agent@,
            event.correlation_id@ == correlation_id@,
    {
        let now = unix_seconds();
        DocSyncEvent::at(event_type, payload, source_agent, target_agent, correlation_id, now)
    }

    /// A fresh identifier for a workflow: 36 characters, drawn at random.
    pub fn generate_correlation_id() -> (id: String)
        ensures
            id@.len() == 36,
    {
        random_uuid_text()
    }
}

} // verus!
