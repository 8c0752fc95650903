//! The events of the log, and the envelope that each one travels in.
use vstd::prelude::*;

use crate::domain::{
    Actor, AgentSession, AgentSessionPlanStep, Artifact, ArtifactRelation, ArtifactRelationKind,
    ArtifactStatus, AutoAppendSettings, Comment, CommentPatch, Document, DocumentStatus, Evidence,
    HandoffContract, IntakeSourcePolicy, NewTask, ObsolescenceKind, Plan, PlanPatch, PlanStatus,
    Priority, Project, RelationKind, Rule, Run, SessionArtifact, Status, TaskPatch, WorkUnit,
};
use crate::ids::{
    AgentId, AgentSessionId, ArtifactId, ArtifactRelationId, ClaimId, CommentId, DeviceId,
    DocumentId, EventId, EvidenceId, HandoffId, PlanId, ProjectId, RelationId, RuleId, RunId,
    RunNoteId, TaskId, WorkUnitId,
};
use crate::time::Timestamp;

verus! {

/// Something that happened. Where an event says more than is read here, `rest` holds the
/// other fields, as the text of a JSON object.
#[allow(inconsistent_fields)]
#[derive(Clone, Debug, PartialEq, Eq)]
pub enum Event {
    TaskCreated { task: NewTask },
    TaskUpdated { task_id: TaskId, patch: TaskPatch },
    TaskStatusChanged { task_id: TaskId, from: Status, to: Status },
    TaskPriorityChanged { task_id: TaskId, from: Priority, to: Priority },
    TaskCompleted { task_id: TaskId, completed_at: Timestamp },
    TaskDeleted { task_id: TaskId },
    TaskSplitGenerated { parent: TaskId, subtasks: Vec<NewTask>, rest: String },
    TaskClosed { task_id: TaskId, by: Actor, at: Timestamp },
    TaskReopened { task_id: TaskId, by: Actor, at: Timestamp },
    TaskCommented { task_id: TaskId, comment_id: CommentId, author: Actor, preview: String },
    TaskDueElapsed { task_id: TaskId, due_at: Timestamp, at: Timestamp },
    TaskLinked { relation_id: RelationId, from: TaskId, to: TaskId, kind: RelationKind, actor: Actor, occurred_at: Timestamp },
    TaskUnlinked { relation_id: RelationId, from: TaskId, to: TaskId, kind: RelationKind, occurred_at: Timestamp },
    TaskUnblocked { task_id: TaskId, unblocked_by: TaskId, occurred_at: Timestamp },
    TaskRelationKindChanged { relation_id: RelationId, from: TaskId, to: TaskId, from_kind: RelationKind, to_kind: RelationKind, rest: String },
    TaskContested { rest: String },
    ProjectCreated { project: Project },
    ProjectUpdated { project_id: ProjectId, title: Option<String>, description: Option<Option<String>> },
    ProjectDeleted { project_id: ProjectId },
    ProjectSettingsChanged { project_id: ProjectId, auto_append: AutoAppendSettings, at: Timestamp, intake_source: Option<Option<IntakeSourcePolicy>> },
    CommentAdded { comment: Comment },
    CommentEdited { comment_id: CommentId, task_id: TaskId, patch: CommentPatch, edited_at: Timestamp },
    CommentDeleted { comment_id: CommentId, task_id: TaskId, deleted_at: Timestamp },
    AgentActionRecorded { rest: String },
    PlanCreated { plan: Plan },
    PlanUpdated { plan_id: PlanId, patch: PlanPatch },
    PlanStatusChanged { plan_id: PlanId, from: PlanStatus, to: PlanStatus },
    PlanGoalChanged { plan_id: PlanId, from: String, to: String },
    PlanTaskAdded { plan_id: PlanId, task_id: TaskId, position: u32, depends_on: Vec<TaskId> },
    PlanTaskRemoved { plan_id: PlanId, task_id: TaskId },
    PlanReordered { plan_id: PlanId, order: Vec<TaskId> },
    PlanArchived { plan_id: PlanId, at: Timestamp },
    PlanDeleted { plan_id: PlanId, at: Timestamp },
    PlanModifiedByHuman { plan_id: PlanId, during_run_id: Option<RunId> },
    RunStarted { run: Run },
    RunStepStarted { run_id: RunId, at: Timestamp, rest: String },
    RunStepFinished { run_id: RunId, at: Timestamp, rest: String },
    RunCompleted { run_id: RunId, at: Timestamp },
    RunFailed { run_id: RunId, reason: String, at: Timestamp },
    RunAborted { run_id: RunId, reason: String, at: Timestamp },
    RunUnresponsive { run_id: RunId, at: Timestamp },
    RunStale { run_id: RunId, at: Timestamp },
    RunObsolescedByPlanEdit { run_id: RunId, plan_id: PlanId, kind: ObsolescenceKind },
    RunStopRequested { rest: String },
    RunElicitationRequested { rest: String },
    RunAuthRequired { rest: String },
    RunInterventionAccepted { rest: String },
    RunNoteAppended { run_id: RunId, note_id: RunNoteId, body: String, by_actor: Actor, at: Timestamp },
    AgentClaimed { agent_id: AgentId, task_id: TaskId, claim_id: Option<ClaimId>, expires_at: Timestamp },
    AgentReleased { agent_id: AgentId, task_id: TaskId, claim_id: Option<ClaimId> },
    FilesReserved { rest: String },
    FilesReleased { rest: String },
    AgentSessionStarted { session: AgentSession },
    AgentSessionEnded { session_id: AgentSessionId, at: Timestamp },
    AgentSessionPlanUpdated { session_id: AgentSessionId, steps: Vec<AgentSessionPlanStep> },
    SessionArtifactAttached { artifact: SessionArtifact },
    ConflictResolved { rest: String },
    DocumentCreated { document: Document },
    DocumentContentReplaced { document_id: DocumentId, content: String, at: Timestamp },
    DocumentContentAppended { document_id: DocumentId, append: String, at: Timestamp },
    DocumentRenamed { document_id: DocumentId, title: String, at: Timestamp },
    DocumentArchived { document_id: DocumentId, at: Timestamp },
    DocumentStatusChanged { document_id: DocumentId, to: DocumentStatus, at: Timestamp, rest: String },
    DocumentTaskLinkChanged { document_id: DocumentId, task_id: Option<TaskId>, at: Timestamp },
    ArtifactRegistered { artifact: Artifact },
    ArtifactOwnerAssigned { artifact_id: ArtifactId, owner_agent_id: AgentId, at: Timestamp },
    ArtifactStatusChanged { artifact_id: ArtifactId, from: ArtifactStatus, to: ArtifactStatus, at: Timestamp },
    ArtifactChanged { artifact_id: ArtifactId, title: Option<String>, description: Option<String>, rest: String },
    ArtifactWriteCommitted { artifact_id: ArtifactId, agent_id: AgentId, fencing_token: i64, version: Option<String>, at: Timestamp },
    ArtifactDeprecated { artifact_id: ArtifactId, reason: Option<String>, at: Timestamp },
    ArtifactRelationAdded { relation: ArtifactRelation },
    ArtifactRelationRemoved { relation_id: ArtifactRelationId, from_id: ArtifactId, to_id: ArtifactId, kind: ArtifactRelationKind, at: Timestamp },
    EvidenceRecorded { evidence: Evidence },
    EvidenceSuperseded { evidence_id: EvidenceId, superseded_by: EvidenceId, at: Timestamp },
    RuleCreated { rule: Rule },
    RuleUpdated { rule: Rule },
    RuleDisabled { rule_id: RuleId, at: Timestamp },
    HandoffRequested { handoff: HandoffContract },
    HandoffAccepted { handoff_id: HandoffId, by: Option<AgentId>, notes: Option<String>, at: Timestamp },
    HandoffRejected { handoff_id: HandoffId, reason: String, required_changes: Vec<String>, at: Timestamp },
    WorkUnitCreated { work_unit: WorkUnit },
    WorkUnitCompleted { work_unit_id: WorkUnitId, outcome: String, at: Timestamp, rest: String },
    WorkUnitReleased { work_unit_id: WorkUnitId, rest: String },
    WorkUnitBlocked { work_unit_id: WorkUnitId, reason: String, at: Timestamp },
    /// An event of a kind that is not read here, with the text of its JSON.
    Other { kind: String, json: String },
}

/// An event with its place in the log, its time and its author.
#[derive(Clone, Debug, PartialEq, Eq)]
pub struct EventEnvelope {
    pub id: EventId,
    pub seq: u64,
    pub occurred_at: Timestamp,
    pub actor: Actor,
    pub origin_device_id: Option<DeviceId>,
    pub origin_seq: u64,
    pub payload: Event,
}

impl Event {
    /// The name of the kind of event.
    pub open spec fn kind_text(self) -> Seq<char> {
        match self {
            Event::TaskCreated { .. } => "task_created"@,
            Event::TaskUpdated { .. } => "task_updated"@,
            Event::TaskStatusChanged { .. } => "task_status_changed"@,
            Event::TaskPriorityChanged { .. } => "task_priority_changed"@,
            Event::TaskCompleted { .. } => "task_completed"@,
            Event::TaskDeleted { .. } => "task_deleted"@,
            Event::TaskSplitGenerated { .. } => "task_split_generated"@,
            Event::TaskClosed { .. } => "task_closed"@,
            Event::TaskReopened { .. } => "task_reopened"@,
            Event::TaskCommented { .. } => "task_commented"@,
            Event::TaskDueElapsed { .. } => "task_due_elapsed"@,
            Event::TaskLinked { .. } => "task_linked"@,
            Event::TaskUnlinked { .. } => "task_unlinked"@,
            Event::TaskUnblocked { .. } => "task_unblocked"@,
            Event::TaskRelationKindChanged { .. } => "task_relation_kind_changed"@,
            Event::TaskContested { .. } => "task_contested"@,
            Event::ProjectCreated { .. } => "project_created"@,
            Event::ProjectUpdated { .. } => "project_updated"@,
            Event::ProjectDeleted { .. } => "project_deleted"@,
            Event::ProjectSettingsChanged { .. } => "project_settings_changed"@,
            Event::CommentAdded { .. } => "comment_added"@,
            Event::CommentEdited { .. } => "comment_edited"@,
            Event::CommentDeleted { .. } => "comment_deleted"@,
            Event::AgentActionRecorded { .. } => "agent_action_recorded"@,
            Event::PlanCreated { .. } => "plan_created"@,
            Event::PlanUpdated { .. } => "plan_updated"@,
            Event::PlanStatusChanged { .. } => "plan_status_changed"@,
            Event::PlanGoalChanged { .. } => "plan_goal_changed"@,
            Event::PlanTaskAdded { .. } => "plan_task_added"@,
            Event::PlanTaskRemoved { .. } => "plan_task_removed"@,
            Event::PlanReordered { .. } => "plan_reordered"@,
            Event::PlanArchived { .. } => "plan_archived"@,
            Event::PlanDeleted { .. } => "plan_deleted"@,
            Event::PlanModifiedByHuman { .. } => "plan_modified_by_human"@,
            Event::RunStarted { .. } => "run_started"@,
            Event::RunStepStarted { .. } => "run_step_started"@,
            Event::RunStepFinished { .. } => "run_step_finished"@,
            Event::RunCompleted { .. } => "run_completed"@,
            Event::RunFailed { .. } => "run_failed"@,
            Event::RunAborted { .. } => "run_aborted"@,
            Event::RunUnresponsive { .. } => "run_unresponsive"@,
            Event::RunStale { .. } => "run_stale"@,
            Event::RunObsolescedByPlanEdit { .. } => "run_obsolesced_by_plan_edit"@,
            Event::RunStopRequested { .. } => "run_stop_requested"@,
            Event::RunElicitationRequested { .. } => "run_elicitation_requested"@,
            Event::RunAuthRequired { .. } => "run_auth_required"@,
            Event::RunInterventionAccepted { .. } => "run_intervention_accepted"@,
            Event::RunNoteAppended { .. } => "run_note_appended"@,
            Event::AgentClaimed { .. } => "agent_claimed"@,
            Event::AgentReleased { .. } => "agent_released"@,
            Event::FilesReserved { .. } => "files_reserved"@,
            Event::FilesReleased { .. } => "files_released"@,
            Event::AgentSessionStarted { .. } => "agent_session_started"@,
            Event::AgentSessionEnded { .. } => "agent_session_ended"@,
            Event::AgentSessionPlanUpdated { .. } => "agent_session_plan_updated"@,
            Event::SessionArtifactAttached { .. } => "session_artifact_attached"@,
            Event::ConflictResolved { .. } => "conflict_resolved"@,
            Event::DocumentCreated { .. } => "document_created"@,
            Event::DocumentContentReplaced { .. } => "document_content_replaced"@,
            Event::DocumentContentAppended { .. } => "document_content_appended"@,
            Event::DocumentRenamed { .. } => "document_renamed"@,
            Event::DocumentArchived { .. } => "document_archived"@,
            Event::DocumentStatusChanged { .. } => "document_status_changed"@,
            Event::DocumentTaskLinkChanged { .. } => "document_task_link_changed"@,
            Event::ArtifactRegistered { .. } => "artifact_registered"@,
            Event::ArtifactOwnerAssigned { .. } => "artifact_owner_assigned"@,
            Event::ArtifactStatusChanged { .. } => "artifact_status_changed"@,
            Event::ArtifactChanged { .. } => "artifact_changed"@,
            Event::ArtifactWriteCommitted { .. } => "artifact_write_committed"@,
            Event::ArtifactDeprecated { .. } => "artifact_deprecated"@,
            Event::ArtifactRelationAdded { .. } => "artifact_relation_added"@,
            Event::ArtifactRelationRemoved { .. } => "artifact_relation_removed"@,
            Event::EvidenceRecorded { .. } => "evidence_recorded"@,
            Event::EvidenceSuperseded { .. } => "evidence_superseded"@,
            Event::RuleCreated { .. } => "rule_created"@,
            Event::RuleUpdated { .. } => "rule_updated"@,
            Event::RuleDisabled { .. } => "rule_disabled"@,
            Event::HandoffRequested { .. } => "handoff_requested"@,
            Event::HandoffAccepted { .. } => "handoff_accepted"@,
            Event::HandoffRejected { .. } => "handoff_rejected"@,
            Event::WorkUnitCreated { .. } => "work_unit_created"@,
            Event::WorkUnitCompleted { .. } => "work_unit_completed"@,
            Event::WorkUnitReleased { .. } => "work_unit_released"@,
            Event::WorkUnitBlocked { .. } => "work_unit_blocked"@,
            Event::Other { kind, .. } => kind@,
        }
    }

    /// The name of the kind of event.
    pub fn kind(&self) -> (r: &str)
        ensures
            r@ == self.kind_text(),
    {
        match self {
            Event::TaskCreated { .. } => "task_created",
            Event::TaskUpdated { .. } => "task_updated",
            Event::TaskStatusChanged { .. } => "task_status_changed",
            Event::TaskPriorityChanged { .. } => "task_priority_changed",
            Event::TaskCompleted { .. } => "task_completed",
            Event::TaskDeleted { .. } => "task_deleted",
            Event::TaskSplitGenerated { .. } => "task_split_generated",
            Event::TaskClosed { .. } => "task_closed",
            Event::TaskReopened { .. } => "task_reopened",
            Event::TaskCommented { .. } => "task_commented",
            Event::TaskDueElapsed { .. } => "task_due_elapsed",
            Event::TaskLinked { .. } => "task_linked",
            Event::TaskUnlinked { .. } => "task_unlinked",
            Event::TaskUnblocked { .. } => "task_unblocked",
            Event::TaskRelationKindChanged { .. } => "task_relation_kind_changed",
            Event::TaskContested { .. } => "task_contested",
            Event::ProjectCreated { .. } => "project_created",
            Event::ProjectUpdated { .. } => "project_updated",
            Event::ProjectDeleted { .. } => "project_deleted",
            Event::ProjectSettingsChanged { .. } => "project_settings_changed",
            Event::CommentAdded { .. } => "comment_added",
            Event::CommentEdited { .. } => "comment_edited",
            Event::CommentDeleted { .. } => "comment_deleted",
            Event::AgentActionRecorded { .. } => "agent_action_recorded",
            Event::PlanCreated { .. } => "plan_created",
            Event::PlanUpdated { .. } => "plan_updated",
            Event::PlanStatusChanged { .. } => "plan_status_changed",
            Event::PlanGoalChanged { .. } => "plan_goal_changed",
            Event::PlanTaskAdded { .. } => "plan_task_added",
            Event::PlanTaskRemoved { .. } => "plan_task_removed",
            Event::PlanReordered { .. } => "plan_reordered",
            Event::PlanArchived { .. } => "plan_archived",
            Event::PlanDeleted { .. } => "plan_deleted",
            Event::PlanModifiedByHuman { .. } => "plan_modified_by_human",
            Event::RunStarted { .. } => "run_started",
            Event::RunStepStarted { .. } => "run_step_started",
            Event::RunStepFinished { .. } => "run_step_finished",
            Event::RunCompleted { .. } => "run_completed",
            Event::RunFailed { .. } => "run_failed",
            Event::RunAborted { .. } => "run_aborted",
            Event::RunUnresponsive { .. } => "run_unresponsive",
            Event::RunStale { .. } => "run_stale",
            Event::RunObsolescedByPlanEdit { .. } => "run_obsolesced_by_plan_edit",
            Event::RunStopRequested { .. } => "run_stop_requested",
            Event::RunElicitationRequested { .. } => "run_elicitation_requested",
            Event::RunAuthRequired { .. } => "run_auth_required",
            Event::RunInterventionAccepted { .. } => "run_intervention_accepted",
            Event::RunNoteAppended { .. } => "run_note_appended",
            Event::AgentClaimed { .. } => "agent_claimed",
            Event::AgentReleased { .. } => "agent_released",
            Event::FilesReserved { .. } => "files_reserved",
            Event::FilesReleased { .. } => "files_released",
            Event::AgentSessionStarted { .. } => "agent_session_started",
            Event::AgentSessionEnded { .. } => "agent_session_ended",
            Event::AgentSessionPlanUpdated { .. } => "agent_session_plan_updated",
            Event::SessionArtifactAttached { .. } => "session_artifact_attached",
            Event::ConflictResolved { .. } => "conflict_resolved",
            Event::DocumentCreated { .. } => "document_created",
            Event::DocumentContentReplaced { .. } => "document_content_replaced",
            Event::DocumentContentAppended { .. } => "document_content_appended",
            Event::DocumentRenamed { .. } => "document_renamed",
            Event::DocumentArchived { .. } => "document_archived",
            Event::DocumentStatusChanged { .. } => "document_status_changed",
            Event::DocumentTaskLinkChanged { .. } => "document_task_link_changed",
            Event::ArtifactRegistered { .. } => "artifact_registered",
            Event::ArtifactOwnerAssigned { .. } => "artifact_owner_assigned",
            Event::ArtifactStatusChanged { .. } => "artifact_status_changed",
            Event::ArtifactChanged { .. } => "artifact_changed",
            Event::ArtifactWriteCommitted { .. } => "artifact_write_committed",
            Event::ArtifactDeprecated { .. } => "artifact_deprecated",
            Event::ArtifactRelationAdded { .. } => "artifact_relation_added",
            Event::ArtifactRelationRemoved { .. } => "artifact_relation_removed",
            Event::EvidenceRecorded { .. } => "evidence_recorded",
            Event::EvidenceSuperseded { .. } => "evidence_superseded",
            Event::RuleCreated { .. } => "rule_created",
            Event::RuleUpdated { .. } => "rule_updated",
            Event::RuleDisabled { .. } => "rule_disabled",
            Event::HandoffRequested { .. } => "handoff_requested",
            Event::HandoffAccepted { .. } => "handoff_accepted",
            Event::HandoffRejected { .. } => "handoff_rejected",
            Event::WorkUnitCreated { .. } => "work_unit_created",
            Event::WorkUnitCompleted { .. } => "work_unit_completed",
            Event::WorkUnitReleased { .. } => "work_unit_released",
            Event::WorkUnitBlocked { .. } => "work_unit_blocked",
            Event::Other { kind, .. } => kind.as_str(),
        }
    }
}

impl EventEnvelope {
    /// An envelope for an event that has no place in the log yet.
    pub fn new(id: EventId, occurred_at: Timestamp, actor: Actor, payload: Event) -> (r: EventEnvelope)
        ensures
            r == (EventEnvelope {
                id,
                seq: 0,
                occurred_at,
                actor,
                origin_device_id: None,
                origin_seq: 0,
                payload,
            }),
    {
        EventEnvelope {
            id,
            seq: 0,
            occurred_at,
            actor,
            origin_device_id: None,
            origin_seq: 0,
            payload,
        }
    }

    /// The name of the kind of event.
    pub fn kind(&self) -> (r: &str)
        ensures
            r@ == self.payload.kind_text(),
    {
        self.payload.kind()
    }
}

// ── laws ────────────────────────────────────────────────────────────────────

/// Every event is stored under the name of its kind, whatever it tells.
pub proof fn lemma_events_are_stored_under_their_kind(event: Event)
    ensures
        event is TaskCreated ==> event.kind_text() == "task_created"@,
        event is TaskUpdated ==> event.kind_text() == "task_updated"@,
        event is TaskStatusChanged ==> event.kind_text() == "task_status_changed"@,
        event is TaskPriorityChanged ==> event.kind_text() == "task_priority_changed"@,
        event is TaskCompleted ==> event.kind_text() == "task_completed"@,
        event is TaskDeleted ==> event.kind_text() == "task_deleted"@,
        event is TaskSplitGenerated ==> event.kind_text() == "task_split_generated"@,
        event is TaskClosed ==> event.kind_text() == "task_closed"@,
        event is TaskReopened ==> event.kind_text() == "task_reopened"@,
        event is TaskCommented ==> event.kind_text() == "task_commented"@,
        event is TaskDueElapsed ==> event.kind_text() == "task_due_elapsed"@,
        event is TaskLinked ==> event.kind_text() == "task_linked"@,
        event is TaskUnlinked ==> event.kind_text() == "task_unlinked"@,
        event is TaskUnblocked ==> event.kind_text() == "task_unblocked"@,
        event is TaskRelationKindChanged ==> event.kind_text() == "task_relation_kind_changed"@,
        event is TaskContested ==> event.kind_text() == "task_contested"@,
        event is ProjectCreated ==> event.kind_text() == "project_created"@,
        event is ProjectUpdated ==> event.kind_text() == "project_updated"@,
        event is ProjectDeleted ==> event.kind_text() == "project_deleted"@,
        event is ProjectSettingsChanged ==> event.kind_text() == "project_settings_changed"@,
        event is CommentAdded ==> event.kind_text() == "comment_added"@,
        event is CommentEdited ==> event.kind_text() == "comment_edited"@,
        event is CommentDeleted ==> event.kind_text() == "comment_deleted"@,
        event is AgentActionRecorded ==> event.kind_text() == "agent_action_recorded"@,
        event is PlanCreated ==> event.kind_text() == "plan_created"@,
        event is PlanUpdated ==> event.kind_text() == "plan_updated"@,
        event is PlanStatusChanged ==> event.kind_text() == "plan_status_changed"@,
        event is PlanGoalChanged ==> event.kind_text() == "plan_goal_changed"@,
        event is PlanTaskAdded ==> event.kind_text() == "plan_task_added"@,
        event is PlanTaskRemoved ==> event.kind_text() == "plan_task_removed"@,
        event is PlanReordered ==> event.kind_text() == "plan_reordered"@,
        event is PlanArchived ==> event.kind_text() == "plan_archived"@,
        event is PlanDeleted ==> event.kind_text() == "plan_deleted"@,
        event is PlanModifiedByHuman ==> event.kind_text() == "plan_modified_by_human"@,
        event is RunStarted ==> event.kind_text() == "run_started"@,
        event is RunStepStarted ==> event.kind_text() == "run_step_started"@,
        event is RunStepFinished ==> event.kind_text() == "run_step_finished"@,
        event is RunCompleted ==> event.kind_text() == "run_completed"@,
        event is RunFailed ==> event.kind_text() == "run_failed"@,
        event is RunAborted ==> event.kind_text() == "run_aborted"@,
        event is RunUnresponsive ==> event.kind_text() == "run_unresponsive"@,
        event is RunStale ==> event.kind_text() == "run_stale"@,
        event is RunObsolescedByPlanEdit ==> event.kind_text() == "run_obsolesced_by_plan_edit"@,
        event is RunStopRequested ==> event.kind_text() == "run_stop_requested"@,
        event is RunElicitationRequested ==> event.kind_text() == "run_elicitation_requested"@,
        event is RunAuthRequired ==> event.kind_text() == "run_auth_required"@,
        event is RunInterventionAccepted ==> event.kind_text() == "run_intervention_accepted"@,
        event is RunNoteAppended ==> event.kind_text() == "run_note_appended"@,
        event is AgentClaimed ==> event.kind_text() == "agent_claimed"@,
        event is AgentReleased ==> event.kind_text() == "agent_released"@,
        event is FilesReserved ==> event.kind_text() == "files_reserved"@,
        event is FilesReleased ==> event.kind_text() == "files_released"@,
        event is AgentSessionStarted ==> event.kind_text() == "agent_session_started"@,
        event is AgentSessionEnded ==> event.kind_text() == "agent_session_ended"@,
        event is AgentSessionPlanUpdated ==> event.kind_text() == "agent_session_plan_updated"@,
        event is SessionArtifactAttached ==> event.kind_text() == "session_artifact_attached"@,
        event is ConflictResolved ==> event.kind_text() == "conflict_resolved"@,
        event is DocumentCreated ==> event.kind_text() == "document_created"@,
        event is DocumentContentReplaced ==> event.kind_text() == "document_content_replaced"@,
        event is DocumentContentAppended ==> event.kind_text() == "document_content_appended"@,
        event is DocumentRenamed ==> event.kind_text() == "document_renamed"@,
        event is DocumentArchived ==> event.kind_text() == "document_archived"@,
        event is DocumentStatusChanged ==> event.kind_text() == "document_status_changed"@,
        event is DocumentTaskLinkChanged ==> event.kind_text() == "document_task_link_changed"@,
        event is ArtifactRegistered ==> event.kind_text() == "artifact_registered"@,
        event is ArtifactOwnerAssigned ==> event.kind_text() == "artifact_owner_assigned"@,
        event is ArtifactStatusChanged ==> event.kind_text() == "artifact_status_changed"@,
        event is ArtifactChanged ==> event.kind_text() == "artifact_changed"@,
        event is ArtifactWriteCommitted ==> event.kind_text() == "artifact_write_committed"@,
        event is ArtifactDeprecated ==> event.kind_text() == "artifact_deprecated"@,
        event is ArtifactRelationAdded ==> event.kind_text() == "artifact_relation_added"@,
        event is ArtifactRelationRemoved ==> event.kind_text() == "artifact_relation_removed"@,
        event is EvidenceRecorded ==> event.kind_text() == "evidence_recorded"@,
        event is EvidenceSuperseded ==> event.kind_text() == "evidence_superseded"@,
        event is RuleCreated ==> event.kind_text() == "rule_created"@,
        event is RuleUpdated ==> event.kind_text() == "rule_updated"@,
        event is RuleDisabled ==> event.kind_text() == "rule_disabled"@,
        event is HandoffRequested ==> event.kind_text() == "handoff_requested"@,
        event is HandoffAccepted ==> event.kind_text() == "handoff_accepted"@,
        event is HandoffRejected ==> event.kind_text() == "handoff_rejected"@,
        event is WorkUnitCreated ==> event.kind_text() == "work_unit_created"@,
        event is WorkUnitCompleted ==> event.kind_text() == "work_unit_completed"@,
        event is WorkUnitReleased ==> event.kind_text() == "work_unit_released"@,
        event is WorkUnitBlocked ==> event.kind_text() == "work_unit_blocked"@,
{
}

} // verus!
