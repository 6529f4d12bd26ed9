//! Memory records, rule packs and consolidation requests as exchanged with the server.
use vstd::prelude::*;

verus! {

#[derive(Debug, Clone, PartialEq, Eq)]
pub enum MemoryKind {
    Preference,
    EnvironmentFact,
    WorkspaceConvention,
    Lesson,
    Pattern,
    MethodologyCandidate,
}

#[derive(Debug, Clone, PartialEq, Eq)]
pub enum MemoryScope {
    GlobalUser,
    GlobalWorkspace,
    WorkspaceShared,
    WorkspaceSandbox,
    SessionEphemeral,
}

#[derive(Debug, Clone, PartialEq, Eq, Default)]
pub enum MemoryStatus {
    #[default]
    Candidate,
    Validated,
    Consolidated,
    Archived,
    Rejected,
}

#[derive(Debug, Clone, PartialEq, Eq, Default)]
pub enum MemoryValidationStatus {
    #[default]
    Pending,
    Passed,
    Warning,
    Failed,
}

#[derive(Debug, Clone, PartialEq, Eq, Hash)]
pub struct MemoryRecordId(pub String);

#[derive(Debug, Clone, PartialEq, Eq, Default)]
pub struct MemoryEvidenceRef {
    pub session_id: Option<String>,
    pub message_id: Option<String>,
    pub tool_call_id: Option<String>,
    pub stage_id: Option<String>,
    pub note: Option<String>,
}

#[derive(Debug, Clone, PartialEq, Default)]
pub struct MemoryRetrievalQuery {
    pub query: Option<String>,
    pub stage: Option<String>,
    pub limit: Option<u32>,
    pub kinds: Vec<MemoryKind>,
    pub scopes: Vec<MemoryScope>,
    pub session_id: Option<String>,
}

#[derive(Debug, Clone, PartialEq, Default)]
pub struct MemoryListQuery {
    pub kinds: Vec<MemoryKind>,
    pub scopes: Vec<MemoryScope>,
    pub statuses: Vec<MemoryStatus>,
    pub search: Option<String>,
    pub limit: Option<u32>,
    pub source_session_id: Option<String>,
}

#[derive(Debug, Clone, PartialEq)]
pub struct MemoryValidationReport {
    pub record_id: Option<MemoryRecordId>,
    pub status: MemoryValidationStatus,
    pub issues: Vec<String>,
    pub checked_at: i64,
}

#[derive(Debug, Clone, PartialEq)]
pub struct MemoryValidationReportResponse {
    pub record_id: MemoryRecordId,
    pub latest: Option<MemoryValidationReport>,
}

#[derive(Debug, Clone, PartialEq, Eq)]
pub struct MemoryConflictView {
    pub id: String,
    pub record_id: MemoryRecordId,
    pub other_record_id: MemoryRecordId,
    pub conflict_kind: String,
    pub detail: String,
    pub detected_at: i64,
}

#[derive(Debug, Clone, PartialEq)]
pub struct MemoryConflictResponse {
    pub record_id: MemoryRecordId,
    pub conflicts: Vec<MemoryConflictView>,
}

#[derive(Debug, Clone, PartialEq, Eq)]
pub struct MemoryConsolidationRun {
    pub run_id: String,
    pub started_at: i64,
    pub finished_at: Option<i64>,
    pub merged_count: u32,
    pub promoted_count: u32,
    pub conflict_count: u32,
}

#[derive(Debug, Clone, PartialEq, Eq)]
pub enum MemoryRulePackKind {
    Validation,
    Consolidation,
    Reflection,
}

#[derive(Debug, Clone, PartialEq, Eq)]
pub struct MemoryRuleDefinition {
    pub id: String,
    pub description: String,
    pub tags: Vec<String>,
    pub promotion_target: Option<MemoryKind>,
}

#[derive(Debug, Clone, PartialEq, Eq)]
pub struct MemoryRulePack {
    pub id: String,
    pub rule_pack_kind: MemoryRulePackKind,
    pub version: String,
    pub rules: Vec<MemoryRuleDefinition>,
    pub created_at: i64,
    pub updated_at: i64,
}

#[derive(Debug, Clone, PartialEq, Eq)]
pub struct MemoryRuleHit {
    pub id: String,
    pub rule_pack_id: Option<String>,
    pub memory_id: Option<MemoryRecordId>,
    pub run_id: Option<String>,
    pub hit_kind: String,
    pub detail: Option<String>,
    pub created_at: i64,
}

#[derive(Debug, Clone, PartialEq, Eq, Default)]
pub struct MemoryConsolidationRequest {
    pub limit: Option<u32>,
    pub include_candidates: bool,
}

#[derive(Debug, Clone, PartialEq, Eq, Default)]
pub struct MemoryConsolidationRunQuery {
    pub limit: Option<u32>,
}

#[derive(Debug, Clone, PartialEq, Eq, Default)]
pub struct MemoryRuleHitQuery {
    pub run_id: Option<String>,
    pub memory_id: Option<MemoryRecordId>,
    pub limit: Option<u32>,
}

#[derive(Debug, Clone, PartialEq)]
pub struct MemoryConsolidationResponse {
    pub run: MemoryConsolidationRun,
    pub merged_record_ids: Vec<MemoryRecordId>,
    pub promoted_record_ids: Vec<MemoryRecordId>,
    pub archived_record_ids: Vec<MemoryRecordId>,
    pub reflection_notes: Vec<String>,
    pub rule_hits: Vec<MemoryRuleHit>,
}

#[derive(Debug, Clone, PartialEq, Eq)]
pub struct MemoryConsolidationRunListResponse {
    pub items: Vec<MemoryConsolidationRun>,
}

#[derive(Debug, Clone, PartialEq, Eq)]
pub struct MemoryRulePackListResponse {
    pub items: Vec<MemoryRulePack>,
}

#[derive(Debug, Clone, PartialEq, Eq)]
pub struct MemoryRuleHitListResponse {
    pub items: Vec<MemoryRuleHit>,
}

#[derive(Debug, Clone, PartialEq, Eq)]
pub struct MemoryContract {
    pub filter_query_parameters: Vec<String>,
    pub search_fields: Vec<String>,
    pub non_search_fields: Vec<String>,
    pub note: String,
}

#[derive(Debug, Clone, PartialEq, Eq)]
pub struct SessionMemoryTelemetrySummary {
    pub workspace_key: String,
    pub workspace_mode: String,
    pub allowed_scopes: Vec<MemoryScope>,
    pub frozen_snapshot_generated_at: Option<i64>,
    pub frozen_snapshot_items: u32,
    pub last_prefetch_generated_at: Option<i64>,
    pub last_prefetch_items: u32,
    pub last_prefetch_query: Option<String>,
    pub candidate_count: u32,
    pub validated_count: u32,
    pub rejected_count: u32,
    pub linked_skill_count: u32,
    pub skill_feedback_lesson_count: u32,
    pub retrieval_run_count: u32,
    pub retrieval_hit_count: u32,
    pub retrieval_use_count: u32,
    pub latest_consolidation_run: Option<MemoryConsolidationRun>,
    pub recent_rule_hits: Vec<MemoryRuleHit>,
}

} // verus!
