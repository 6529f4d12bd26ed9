//! Skill sources, distributions, lifecycle records and governance reports as exchanged with the server.
use vstd::prelude::*;

verus! {

#[derive(Debug, Clone, PartialEq, Eq)]
pub enum SkillSourceKind {
    Bundled,
    LocalPath,
    Git,
    Archive,
    Registry,
}

#[derive(Debug, Clone, PartialEq, Eq)]
pub struct SkillSourceRef {
    pub source_id: String,
    pub source_kind: SkillSourceKind,
    pub locator: String,
    pub revision: Option<String>,
}

#[derive(Debug, Clone, PartialEq, Eq)]
pub struct SkillSourceIndexEntry {
    pub skill_name: String,
    pub description: Option<String>,
    pub category: Option<String>,
    pub version: Option<String>,
    pub revision: Option<String>,
    pub manifest_path: Option<String>,
    pub checksum: Option<String>,
}

#[derive(Debug, Clone, PartialEq, Eq)]
pub struct SkillSourceIndexSnapshot {
    pub source: SkillSourceRef,
    pub updated_at: i64,
    pub entries: Vec<SkillSourceIndexEntry>,
}

#[derive(Debug, Clone, PartialEq, Eq)]
pub enum SkillDistributionResolverKind {
    Bundled,
    LocalPath,
    RegistryIndex,
    RegistryManifest,
    ArchiveManifest,
    GitCheckout,
}

#[derive(Debug, Clone, PartialEq, Eq)]
pub enum SkillArtifactKind {
    RegistryPackage,
    GitCheckout,
    Archive,
    LocalSnapshot,
}

#[derive(Debug, Clone, PartialEq, Eq)]
pub struct SkillArtifactRef {
    pub artifact_id: String,
    pub kind: SkillArtifactKind,
    pub locator: String,
    pub checksum: Option<String>,
    pub size_bytes: Option<u64>,
}

#[derive(Debug, Clone, PartialEq, Eq)]
pub struct SkillDistributionRelease {
    pub version: Option<String>,
    pub revision: Option<String>,
    pub checksum: Option<String>,
    pub manifest_path: Option<String>,
    pub published_at: Option<i64>,
}

#[derive(Debug, Clone, PartialEq, Eq)]
pub struct SkillDistributionResolution {
    pub resolved_at: i64,
    pub resolver_kind: SkillDistributionResolverKind,
    pub artifact: SkillArtifactRef,
}

#[derive(Debug, Clone, PartialEq, Eq)]
pub struct SkillInstalledDistribution {
    pub installed_at: i64,
    pub workspace_skill_path: String,
    pub installed_revision: Option<String>,
    pub local_hash: Option<String>,
}

#[derive(Debug, Clone, PartialEq, Eq)]
pub enum SkillManagedLifecycleState {
    Indexed,
    Resolved,
    Fetched,
    PlannedInstall,
    Installed,
    UpdateAvailable,
    Diverged,
    Detached,
    RemovePending,
    Removed,
    ResolutionFailed,
    FetchFailed,
    ApplyFailed,
}

#[derive(Debug, Clone, PartialEq, Eq)]
pub struct SkillDistributionRecord {
    pub distribution_id: String,
    pub source: SkillSourceRef,
    pub skill_name: String,
    pub release: SkillDistributionRelease,
    pub resolution: SkillDistributionResolution,
    pub installed: Option<SkillInstalledDistribution>,
    pub lifecycle: SkillManagedLifecycleState,
}

#[derive(Debug, Clone, PartialEq, Eq)]
pub enum SkillArtifactCacheStatus {
    Fetched,
    Extracted,
    Failed,
    Evicted,
}

#[derive(Debug, Clone, PartialEq, Eq)]
pub struct SkillArtifactCacheEntry {
    pub artifact: SkillArtifactRef,
    pub cached_at: i64,
    pub local_path: String,
    pub extracted_path: Option<String>,
    pub status: SkillArtifactCacheStatus,
    pub error: Option<String>,
}

#[derive(Debug, Clone, PartialEq, Eq)]
pub struct SkillManagedLifecycleRecord {
    pub distribution_id: String,
    pub source_id: String,
    pub skill_name: String,
    pub state: SkillManagedLifecycleState,
    pub updated_at: i64,
    pub error: Option<String>,
}

#[derive(Debug, Clone, PartialEq, Eq)]
pub struct BundledSkillManifestEntry {
    pub skill_name: String,
    pub relative_path: String,
    pub content_hash: String,
}

#[derive(Debug, Clone, PartialEq, Eq)]
pub struct BundledSkillManifest {
    pub bundle_id: String,
    pub entries: Vec<BundledSkillManifestEntry>,
}

#[derive(Debug, Clone, PartialEq, Eq)]
pub struct ManagedSkillRecord {
    pub skill_name: String,
    pub source: Option<SkillSourceRef>,
    pub installed_revision: Option<String>,
    pub local_hash: Option<String>,
    pub last_synced_at: Option<i64>,
    pub locally_modified: bool,
    pub deleted_locally: bool,
}

#[derive(Debug, Clone, PartialEq, Eq)]
pub enum SkillSyncAction {
    Install,
    Update,
    SkipLocalModification,
    SkipDeletedLocally,
    RemoveManaged,
    Noop,
}

#[derive(Debug, Clone, PartialEq, Eq)]
pub struct SkillSyncEntry {
    pub skill_name: String,
    pub action: SkillSyncAction,
    pub reason: String,
}

#[derive(Debug, Clone, PartialEq, Eq)]
pub struct SkillSyncPlan {
    pub source_id: String,
    pub entries: Vec<SkillSyncEntry>,
}

#[derive(Debug, Clone, PartialEq, Eq)]
pub struct SkillHubManagedResponse {
    pub managed_skills: Vec<ManagedSkillRecord>,
}

#[derive(Debug, Clone, PartialEq, Eq)]
pub struct SkillHubDistributionResponse {
    pub distributions: Vec<SkillDistributionRecord>,
}

#[derive(Debug, Clone, PartialEq, Eq)]
pub struct SkillHubArtifactCacheResponse {
    pub artifact_cache: Vec<SkillArtifactCacheEntry>,
}

#[derive(Debug, Clone, PartialEq, Eq)]
pub struct SkillHubPolicy {
    pub artifact_cache_retention_seconds: u64,
    pub fetch_timeout_ms: u64,
    pub max_download_bytes: u64,
    pub max_extract_bytes: u64,
}

#[derive(Debug, Clone, PartialEq, Eq)]
pub struct SkillHubPolicyResponse {
    pub policy: SkillHubPolicy,
}

#[derive(Debug, Clone, PartialEq, Eq)]
pub struct SkillHubLifecycleResponse {
    pub lifecycle: Vec<SkillManagedLifecycleRecord>,
}

#[derive(Debug, Clone, PartialEq, Eq)]
pub enum SkillRemoteInstallAction {
    Install,
    Update,
}

#[derive(Debug, Clone, PartialEq, Eq)]
pub struct SkillRemoteInstallEntry {
    pub distribution_id: String,
    pub source_id: String,
    pub skill_name: String,
    pub action: SkillRemoteInstallAction,
    pub reason: String,
}

#[derive(Debug, Clone, PartialEq, Eq)]
pub struct SkillRemoteInstallPlan {
    pub source_id: String,
    pub distribution: SkillDistributionRecord,
    pub entry: SkillRemoteInstallEntry,
}

#[derive(Debug, Clone, PartialEq, Eq)]
pub struct SkillRemoteInstallResponse {
    pub plan: SkillRemoteInstallPlan,
    pub artifact_cache: SkillArtifactCacheEntry,
    pub guard_report: Option<SkillGuardReport>,
    pub result: SkillGovernanceWriteResult,
}

#[derive(Debug, Clone, PartialEq, Eq)]
pub struct SkillHubRemoteInstallPlanRequest {
    pub source: SkillSourceRef,
    pub skill_name: String,
}

#[derive(Debug, Clone, PartialEq, Eq)]
pub struct SkillHubRemoteInstallApplyRequest {
    pub session_id: String,
    pub source: SkillSourceRef,
    pub skill_name: String,
}

#[derive(Debug, Clone, PartialEq, Eq)]
pub struct SkillHubRemoteUpdatePlanRequest {
    pub source: SkillSourceRef,
    pub skill_name: String,
}

#[derive(Debug, Clone, PartialEq, Eq)]
pub struct SkillHubRemoteUpdateApplyRequest {
    pub session_id: String,
    pub source: SkillSourceRef,
    pub skill_name: String,
}

#[derive(Debug, Clone, PartialEq, Eq)]
pub struct SkillGovernanceWriteResult {
    pub action: String,
    pub skill_name: String,
    pub location: String,
    pub supporting_file: Option<String>,
}

#[derive(Debug, Clone, PartialEq, Eq)]
pub struct SkillHubIndexResponse {
    pub source_indices: Vec<SkillSourceIndexSnapshot>,
}

#[derive(Debug, Clone, PartialEq, Eq)]
pub struct SkillHubIndexRefreshRequest {
    pub source: SkillSourceRef,
}

#[derive(Debug, Clone, PartialEq, Eq)]
pub struct SkillHubIndexRefreshResponse {
    pub snapshot: SkillSourceIndexSnapshot,
}

#[derive(Debug, Clone, PartialEq, Eq)]
pub struct SkillHubManagedDetachRequest {
    pub session_id: String,
    pub source: SkillSourceRef,
    pub skill_name: String,
}

#[derive(Debug, Clone, PartialEq, Eq)]
pub struct SkillHubManagedDetachResponse {
    pub lifecycle: SkillManagedLifecycleRecord,
}

#[derive(Debug, Clone, PartialEq, Eq)]
pub struct SkillHubManagedRemoveRequest {
    pub session_id: String,
    pub source: SkillSourceRef,
    pub skill_name: String,
}

#[derive(Debug, Clone, PartialEq, Eq)]
pub struct SkillHubManagedRemoveResponse {
    pub lifecycle: SkillManagedLifecycleRecord,
    pub deleted_from_workspace: bool,
    pub result: Option<SkillGovernanceWriteResult>,
}

#[derive(Debug, Clone, PartialEq, Eq, Default)]
pub struct SkillHubTimelineQuery {
    pub skill_name: Option<String>,
    pub source_id: Option<String>,
    pub limit: Option<usize>,
}

#[derive(Debug, Clone, PartialEq, Eq)]
pub struct SkillHubSyncPlanRequest {
    pub source: SkillSourceRef,
}

#[derive(Debug, Clone, PartialEq, Eq)]
pub struct SkillHubSyncApplyRequest {
    pub session_id: String,
    pub source: SkillSourceRef,
}

#[derive(Debug, Clone, PartialEq, Eq)]
pub struct SkillHubSyncPlanResponse {
    pub plan: SkillSyncPlan,
    pub guard_reports: Vec<SkillGuardReport>,
}

#[derive(Debug, Clone, PartialEq, Eq)]
pub struct SkillHubGuardRunRequest {
    pub skill_name: Option<String>,
    pub source: Option<SkillSourceRef>,
}

#[derive(Debug, Clone, PartialEq, Eq)]
pub struct SkillHubGuardRunResponse {
    pub reports: Vec<SkillGuardReport>,
}

#[derive(Debug, Clone, PartialEq, Eq)]
pub enum SkillGovernanceTimelineKind {
    ManagedSnapshot,
    SourceIndexRefreshed,
    SourceResolved,
    ArtifactFetched,
    ArtifactEvicted,
    ArtifactFetchFailed,
    RemoteInstallPlanned,
    RemoteUpdatePlanned,
    LifecycleTransitioned,
    Create,
    Patch,
    Edit,
    Delete,
    WriteFile,
    RemoveFile,
    HubInstall,
    HubUpdate,
    HubDetach,
    HubRemove,
    SyncPlanCreated,
    SyncApplyCompleted,
    GuardBlocked,
    GuardWarned,
}

#[derive(Debug, Clone, PartialEq, Eq)]
pub enum SkillGovernanceTimelineStatus {
    Info,
    Success,
    Warn,
    Error,
}

#[derive(Debug, Clone, PartialEq, Eq)]
pub enum SkillGuardSeverity {
    Info,
    Warn,
    Error,
}

#[derive(Debug, Clone, PartialEq, Eq)]
pub enum SkillGuardStatus {
    Passed,
    Warn,
    Blocked,
}

#[derive(Debug, Clone, PartialEq, Eq)]
pub struct SkillGuardViolation {
    pub rule_id: String,
    pub severity: SkillGuardSeverity,
    pub message: String,
    pub file_path: Option<String>,
}

#[derive(Debug, Clone, PartialEq, Eq)]
pub struct SkillGuardReport {
    pub skill_name: String,
    pub status: SkillGuardStatus,
    pub violations: Vec<SkillGuardViolation>,
    pub scanned_at: i64,
}

/// An entry of the governance timeline of skills.
#[derive(Debug, Clone)]
pub struct SkillGovernanceTimelineEntry {
    pub entry_id: String,
    pub kind: SkillGovernanceTimelineKind,
    pub created_at: i64,
    pub skill_name: Option<String>,
    pub source_id: Option<String>,
    pub actor: Option<String>,
    pub title: String,
    pub summary: String,
    pub status: SkillGovernanceTimelineStatus,
    pub managed_record: Option<ManagedSkillRecord>,
    pub guard_report: Option<SkillGuardReport>,
    pub payload: serde_json::Value,
}

#[derive(Debug, Clone, PartialEq, Eq)]
pub enum SkillAuditKind {
    SourceIndexRefreshed,
    SourceResolved,
    ArtifactFetched,
    ArtifactEvicted,
    ArtifactFetchFailed,
    RemoteInstallPlanned,
    RemoteUpdatePlanned,
    LifecycleTransitioned,
    Create,
    Patch,
    Edit,
    Delete,
    WriteFile,
    RemoveFile,
    HubInstall,
    HubUpdate,
    HubDetach,
    HubRemove,
    SyncPlanCreated,
    SyncApplyCompleted,
    GuardBlocked,
    GuardWarned,
}

#[derive(Debug, Clone)]
pub struct SkillAuditEvent {
    pub event_id: String,
    pub kind: SkillAuditKind,
    pub skill_name: Option<String>,
    pub source_id: Option<String>,
    pub actor: String,
    pub created_at: i64,
    pub payload: serde_json::Value,
}

#[derive(Debug, Clone)]
pub struct SkillHubAuditResponse {
    pub audit_events: Vec<SkillAuditEvent>,
}

#[derive(Debug, Clone)]
pub struct SkillHubTimelineResponse {
    pub entries: Vec<SkillGovernanceTimelineEntry>,
}

} // verus!
