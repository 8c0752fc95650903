//! Persistence of Daruma in SQLite: the logic of it, without the database.
//!
//! Each repository is a type whose functions hand out statements ([`query::Query`]) and take
//! back what the database answered: rows ([`rows::Column`]), numbers of changed rows, or
//! nothing. What takes several statements is a sequence of steps, each of which says what to
//! execute next. The caller owns the connection, the clock and the source of fresh
//! identifiers.
//!
//! - [`text`], [`order`], [`json`], [`time`], [`ids`], [`error`]: plain values;
//! - [`query`], [`rows`], [`scope`]: how they become statements, and how rows become records;
//! - [`domain`], [`events`]: the records and the events that change them;
//! - the other modules: one repository each.

pub mod activity_repo;
pub mod agent_inbox_repo;
pub mod artifact_repo;
pub mod audit_finding_repo;
pub mod capability_profile_repo;
pub mod claim_repo;
pub mod comment_repo;
pub mod device_repo;
pub mod document_repo;
pub mod domain;
pub mod entity_version;
pub mod error;
pub mod event_store;
pub mod events;
pub mod evidence_repo;
pub mod external_ref_repo;
pub mod handoff_repo;
pub mod idempotency_repo;
pub mod ids;
pub mod json;
pub mod order;
pub mod plan_repo;
pub mod project_repo;
pub mod project_settings_repo;
pub mod query;
pub mod relation_repo;
pub mod repo_scope_repo;
pub mod rows;
pub mod rule_repo;
pub mod run_note_repo;
pub mod run_repo;
pub mod scope;
pub mod session_repo;
pub mod snapshot_repo;
pub mod task_complexity_repo;
pub mod task_repo;
pub mod tenant_quota_repo;
pub mod text;
pub mod time;

pub use activity_repo::ActivityRepo;
pub use agent_inbox_repo::AgentInboxRepo;
pub use artifact_repo::ArtifactRepo;
pub use audit_finding_repo::{AuditFindingRepo, FindingFilter};
pub use capability_profile_repo::CapabilityProfileRepo;
pub use claim_repo::{ActiveClaim, AgentClaimRepo, ClaimOutcome};
pub use comment_repo::CommentRepo;
pub use device_repo::{Device, DeviceRepo};
pub use document_repo::DocumentRepo;
pub use entity_version::{EntityVersion, EntityVersionRepo};
pub use event_store::SqliteEventStore;
pub use evidence_repo::EvidenceRepo;
pub use external_ref_repo::ExternalRefRepo;
pub use handoff_repo::HandoffRepo;
pub use idempotency_repo::IdempotencyRepo;
pub use plan_repo::PlanRepo;
pub use project_repo::ProjectRepo;
pub use project_settings_repo::ProjectSettingsRepo;
pub use relation_repo::RelationRepo;
pub use repo_scope_repo::RepoScopeRepo;
pub use rule_repo::RuleRepo;
pub use run_note_repo::RunNoteRepo;
pub use run_repo::RunRepo;
pub use session_repo::SessionRepo;
pub use snapshot_repo::{ProjectionSnapshot, Snapshot, SnapshotRepo};
pub use task_complexity_repo::TaskComplexityRepo;
pub use task_repo::TaskRepo;
pub use tenant_quota_repo::TenantQuotaRepo;
