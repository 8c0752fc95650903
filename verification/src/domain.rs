//! The records that the repositories store, and what they are made of.
use vstd::prelude::*;

use crate::ids::{
    ActivityId, AgentId, AgentSessionId, ArtifactId, ArtifactRelationId, AuditFindingId, CommentId,
    DocumentId, EventId, EvidenceId, HandoffId, PlanId, ProjectId, RelationId, RuleId, RunId,
    RunNoteId, SessionArtifactId, TaskId, WorkUnitId,
};
use crate::json::Json;
use crate::text::text_eq;
use crate::time::Timestamp;

verus! {

/// The tenant of everything that names no other one.
pub const DEFAULT_TENANT_ID: &'static str = "default";

/// Who did something.
#[derive(Debug, PartialEq, Eq)]
pub enum Actor {
    User,
    Agent { id: AgentId, name: String },
}

/// The mathematical model of [`Actor`].
#[verifier::ext_equal]
pub ghost enum ActorView {
    User,
    Agent { id: AgentId, name: Seq<char> },
}

impl View for Actor {
    type V = ActorView;

    open spec fn view(&self) -> ActorView {
        match self {
            Actor::User => ActorView::User,
            Actor::Agent { id, name } => ActorView::Agent { id: *id, name: name@ },
        }
    }
}

impl Clone for Actor {
    fn clone(&self) -> (r: Self)
        ensures
            r == *self,
    {
        match self {
            Actor::User => Actor::User,
            Actor::Agent { id, name } => Actor::Agent { id: *id, name: name.clone() },
        }
    }
}

/// The model of an optional actor.
pub open spec fn opt_actor(a: Option<Actor>) -> Option<ActorView> {
    match a {
        Some(a) => Some(a@),
        None => None,
    }
}

/// A copy of an optional actor.
pub fn copy_opt_actor(a: &Option<Actor>) -> (r: Option<Actor>)
    ensures
        r == *a,
{
    match a {
        Some(a) => Some(a.clone()),
        None => None,
    }
}

/// An actor by kind, identifier and name, as far as they are known.
#[derive(Clone, Debug, PartialEq, Eq)]
pub struct ActorRef {
    pub kind: String,
    pub id: Option<AgentId>,
    pub name: Option<String>,
}

/// The state of a task.
#[derive(Clone, Copy, Debug, PartialEq, Eq, Structural)]
pub enum Status {
    Inbox,
    Todo,
    InProgress,
    InReview,
    Done,
    Cancelled,
}

impl Status {
    /// The text that stands for the value in the database.
    pub open spec fn text(self) -> Seq<char> {
        match self {
            Status::Inbox => "inbox"@,
            Status::Todo => "todo"@,
            Status::InProgress => "in_progress"@,
            Status::InReview => "in_review"@,
            Status::Done => "done"@,
            Status::Cancelled => "cancelled"@,
        }
    }

    /// The value that a text stands for.
    pub open spec fn named(s: Seq<char>) -> Option<Status> {
        if s == "inbox"@ {
            Some(Status::Inbox)
        } else if s == "todo"@ {
            Some(Status::Todo)
        } else if s == "in_progress"@ {
            Some(Status::InProgress)
        } else if s == "in_review"@ {
            Some(Status::InReview)
        } else if s == "done"@ {
            Some(Status::Done)
        } else if s == "cancelled"@ {
            Some(Status::Cancelled)
        } else {
            None
        }
    }

    /// Every value is found again by its text.
    pub proof fn lemma_text_names_value(self)
        ensures
            Status::named(self.text()) == Some(self),
    {
        reveal_strlit("inbox");
        reveal_strlit("todo");
        reveal_strlit("in_progress");
        reveal_strlit("in_review");
        reveal_strlit("done");
        reveal_strlit("cancelled");
        assert("inbox"@.len() == 5);
        assert("todo"@.len() == 4);
        assert("in_progress"@.len() == 11);
        assert("in_review"@.len() == 9);
        assert("done"@.len() == 4);
        assert("cancelled"@.len() == 9);
        assert("todo"@[0] != "done"@[0]);
        assert("in_review"@[0] != "cancelled"@[0]);
    }

    /// Each value is stored under its own name and under no other, and a text stands for
    /// nothing but the value that is stored under it.
    pub proof fn lemma_stored_names(self, s: Seq<char>)
        ensures
            self.text() == "inbox"@ <==> self is Inbox,
            self.text() == "todo"@ <==> self is Todo,
            self.text() == "in_progress"@ <==> self is InProgress,
            self.text() == "in_review"@ <==> self is InReview,
            self.text() == "done"@ <==> self is Done,
            self.text() == "cancelled"@ <==> self is Cancelled,
            Status::named(s) matches Some(v) ==> v.text() == s,
    {
        Status::Inbox.lemma_text_names_value();
        Status::Todo.lemma_text_names_value();
        Status::InProgress.lemma_text_names_value();
        Status::InReview.lemma_text_names_value();
        Status::Done.lemma_text_names_value();
        Status::Cancelled.lemma_text_names_value();
        self.lemma_text_names_value();
    }

    /// The text that stands for the value in the database.
    pub fn as_str(&self) -> (r: &'static str)
        ensures
            r@ == self.text(),
            Status::named(r@) == Some(*self),
    {
        proof {
            self.lemma_text_names_value();
        }
        match self {
            Status::Inbox => "inbox",
            Status::Todo => "todo",
            Status::InProgress => "in_progress",
            Status::InReview => "in_review",
            Status::Done => "done",
            Status::Cancelled => "cancelled",
        }
    }

    /// The value that a text stands for, where it stands for one.
    pub fn parse(s: &str) -> (r: Option<Status>)
        ensures
            r == Status::named(s@),
    {
        if text_eq(s, "inbox") {
            Some(Status::Inbox)
        } else if text_eq(s, "todo") {
            Some(Status::Todo)
        } else if text_eq(s, "in_progress") {
            Some(Status::InProgress)
        } else if text_eq(s, "in_review") {
            Some(Status::InReview)
        } else if text_eq(s, "done") {
            Some(Status::Done)
        } else if text_eq(s, "cancelled") {
            Some(Status::Cancelled)
        } else {
            None
        }
    }
}

/// How urgent a task is.
#[derive(Clone, Copy, Debug, PartialEq, Eq, Structural)]
pub enum Priority {
    P0,
    P1,
    P2,
    P3,
}

impl Priority {
    /// The text that stands for the value in the database.
    pub open spec fn text(self) -> Seq<char> {
        match self {
            Priority::P0 => "p0"@,
            Priority::P1 => "p1"@,
            Priority::P2 => "p2"@,
            Priority::P3 => "p3"@,
        }
    }

    /// The value that a text stands for.
    pub open spec fn named(s: Seq<char>) -> Option<Priority> {
        if s == "p0"@ {
            Some(Priority::P0)
        } else if s == "p1"@ {
            Some(Priority::P1)
        } else if s == "p2"@ {
            Some(Priority::P2)
        } else if s == "p3"@ {
            Some(Priority::P3)
        } else {
            None
        }
    }

    /// Every value is found again by its text.
    pub proof fn lemma_text_names_value(self)
        ensures
            Priority::named(self.text()) == Some(self),
    {
        reveal_strlit("p0");
        reveal_strlit("p1");
        reveal_strlit("p2");
        reveal_strlit("p3");
        assert("p0"@[1] != "p1"@[1]);
        assert("p0"@[1] != "p2"@[1]);
        assert("p0"@[1] != "p3"@[1]);
        assert("p1"@[1] != "p2"@[1]);
        assert("p1"@[1] != "p3"@[1]);
        assert("p2"@[1] != "p3"@[1]);
    }

    /// Each value is stored under its own name and under no other, and a text stands for
    /// nothing but the value that is stored under it.
    pub proof fn lemma_stored_names(self, s: Seq<char>)
        ensures
            self.text() == "p0"@ <==> self is P0,
            self.text() == "p1"@ <==> self is P1,
            self.text() == "p2"@ <==> self is P2,
            self.text() == "p3"@ <==> self is P3,
            Priority::named(s) matches Some(v) ==> v.text() == s,
    {
        Priority::P0.lemma_text_names_value();
        Priority::P1.lemma_text_names_value();
        Priority::P2.lemma_text_names_value();
        Priority::P3.lemma_text_names_value();
        self.lemma_text_names_value();
    }

    /// The text that stands for the value in the database.
    pub fn as_str(&self) -> (r: &'static str)
        ensures
            r@ == self.text(),
            Priority::named(r@) == Some(*self),
    {
        proof {
            self.lemma_text_names_value();
        }
        match self {
            Priority::P0 => "p0",
            Priority::P1 => "p1",
            Priority::P2 => "p2",
            Priority::P3 => "p3",
        }
    }

    /// The value that a text stands for, where it stands for one.
    pub fn parse(s: &str) -> (r: Option<Priority>)
        ensures
            r == Priority::named(s@),
    {
        if text_eq(s, "p0") {
            Some(Priority::P0)
        } else if text_eq(s, "p1") {
            Some(Priority::P1)
        } else if text_eq(s, "p2") {
            Some(Priority::P2)
        } else if text_eq(s, "p3") {
            Some(Priority::P3)
        } else {
            None
        }
    }
}

/// What triage made of a task.
#[derive(Clone, Copy, Debug, PartialEq, Eq, Structural)]
pub enum TriageState {
    Pending,
    Accepted,
    Rejected,
}

impl TriageState {
    /// The text that stands for the value in the database.
    pub open spec fn text(self) -> Seq<char> {
        match self {
            TriageState::Pending => "pending"@,
            TriageState::Accepted => "accepted"@,
            TriageState::Rejected => "rejected"@,
        }
    }

    /// The value that a text stands for.
    pub open spec fn named(s: Seq<char>) -> Option<TriageState> {
        if s == "pending"@ {
            Some(TriageState::Pending)
        } else if s == "accepted"@ {
            Some(TriageState::Accepted)
        } else if s == "rejected"@ {
            Some(TriageState::Rejected)
        } else {
            None
        }
    }

    /// Every value is found again by its text.
    pub proof fn lemma_text_names_value(self)
        ensures
            TriageState::named(self.text()) == Some(self),
    {
        reveal_strlit("pending");
        reveal_strlit("accepted");
        reveal_strlit("rejected");
        assert("pending"@.len() == 7);
        assert("accepted"@.len() == 8);
        assert("rejected"@.len() == 8);
        assert("accepted"@[0] != "rejected"@[0]);
    }

    /// Each value is stored under its own name and under no other, and a text stands for
    /// nothing but the value that is stored under it.
    pub proof fn lemma_stored_names(self, s: Seq<char>)
        ensures
            self.text() == "pending"@ <==> self is Pending,
            self.text() == "accepted"@ <==> self is Accepted,
            self.text() == "rejected"@ <==> self is Rejected,
            TriageState::named(s) matches Some(v) ==> v.text() == s,
    {
        TriageState::Pending.lemma_text_names_value();
        TriageState::Accepted.lemma_text_names_value();
        TriageState::Rejected.lemma_text_names_value();
        self.lemma_text_names_value();
    }

    /// The text that stands for the value in the database.
    pub fn as_str(&self) -> (r: &'static str)
        ensures
            r@ == self.text(),
            TriageState::named(r@) == Some(*self),
    {
        proof {
            self.lemma_text_names_value();
        }
        match self {
            TriageState::Pending => "pending",
            TriageState::Accepted => "accepted",
            TriageState::Rejected => "rejected",
        }
    }

    /// The value that a text stands for, where it stands for one.
    pub fn parse(s: &str) -> (r: Option<TriageState>)
        ensures
            r == TriageState::named(s@),
    {
        if text_eq(s, "pending") {
            Some(TriageState::Pending)
        } else if text_eq(s, "accepted") {
            Some(TriageState::Accepted)
        } else if text_eq(s, "rejected") {
            Some(TriageState::Rejected)
        } else {
            None
        }
    }
}

/// A task.
#[derive(Clone, Debug, PartialEq, Eq)]
pub struct Task {
    pub id: TaskId,
    pub project_id: Option<ProjectId>,
    pub title: String,
    pub description: String,
    pub status: Status,
    pub priority: Priority,
    pub triage_state: Option<TriageState>,
    pub due_at: Option<Timestamp>,
    pub created_at: Timestamp,
    pub updated_at: Timestamp,
    pub started_at: Option<Timestamp>,
    pub completed_at: Option<Timestamp>,
    pub created_by: Option<Actor>,
    pub completed_by: Option<Actor>,
    pub updated_by: Option<Actor>,
    pub updated_event_id: Option<EventId>,
    pub updated_event_seq: Option<u64>,
    pub source_event_id: Option<EventId>,
}

/// A task as its creator describes it. What is left out has a default.
#[derive(Clone, Debug, PartialEq, Eq)]
pub struct NewTask {
    pub id: Option<TaskId>,
    pub project_id: Option<ProjectId>,
    pub title: String,
    pub description: Option<String>,
    pub status: Option<Status>,
    pub priority: Option<Priority>,
    pub triage_state: Option<TriageState>,
    pub due_at: Option<Timestamp>,
}

/// A sparse change of a task, kept as its JSON text.
#[derive(Clone, Debug, PartialEq, Eq)]
pub struct TaskPatch {
    pub json: String,
}

/// A project.
#[derive(Clone, Debug, PartialEq, Eq)]
pub struct Project {
    pub id: ProjectId,
    pub tenant_id: Option<String>,
    pub slug: String,
    pub title: String,
    pub description: Option<String>,
    pub triage_enabled: bool,
    pub created_at: Timestamp,
    pub updated_at: Timestamp,
}

/// What a comment is for.
#[derive(Clone, Copy, Debug, PartialEq, Eq, Structural)]
pub enum CommentKind {
    Intent,
    Research,
}

impl CommentKind {
    /// The text that stands for the value in the database.
    pub open spec fn text(self) -> Seq<char> {
        match self {
            CommentKind::Intent => "intent"@,
            CommentKind::Research => "research"@,
        }
    }

    /// The value that a text stands for.
    pub open spec fn named(s: Seq<char>) -> Option<CommentKind> {
        if s == "intent"@ {
            Some(CommentKind::Intent)
        } else if s == "research"@ {
            Some(CommentKind::Research)
        } else {
            None
        }
    }

    /// Every value is found again by its text.
    pub proof fn lemma_text_names_value(self)
        ensures
            CommentKind::named(self.text()) == Some(self),
    {
        reveal_strlit("intent");
        reveal_strlit("research");
        assert("intent"@.len() == 6);
        assert("research"@.len() == 8);
    }

    /// Each value is stored under its own name and under no other, and a text stands for
    /// nothing but the value that is stored under it.
    pub proof fn lemma_stored_names(self, s: Seq<char>)
        ensures
            self.text() == "intent"@ <==> self is Intent,
            self.text() == "research"@ <==> self is Research,
            CommentKind::named(s) matches Some(v) ==> v.text() == s,
    {
        CommentKind::Intent.lemma_text_names_value();
        CommentKind::Research.lemma_text_names_value();
        self.lemma_text_names_value();
    }

    /// The text that stands for the value in the database.
    pub fn as_str(&self) -> (r: &'static str)
        ensures
            r@ == self.text(),
            CommentKind::named(r@) == Some(*self),
    {
        proof {
            self.lemma_text_names_value();
        }
        match self {
            CommentKind::Intent => "intent",
            CommentKind::Research => "research",
        }
    }

    /// The value that a text stands for, where it stands for one.
    pub fn parse(s: &str) -> (r: Option<CommentKind>)
        ensures
            r == CommentKind::named(s@),
    {
        if text_eq(s, "intent") {
            Some(CommentKind::Intent)
        } else if text_eq(s, "research") {
            Some(CommentKind::Research)
        } else {
            None
        }
    }
}

/// A comment on a task.
#[derive(Clone, Debug, PartialEq, Eq)]
pub struct Comment {
    pub id: CommentId,
    pub task_id: TaskId,
    pub author: Actor,
    pub body: String,
    pub parent_id: Option<CommentId>,
    pub kind: Option<CommentKind>,
    pub created_at: Timestamp,
    pub edited_at: Option<Timestamp>,
    pub deleted_at: Option<Timestamp>,
}

/// A change of a comment.
#[derive(Clone, Debug, PartialEq, Eq)]
pub struct CommentPatch {
    pub body: Option<String>,
}

/// The state of a plan.
#[derive(Clone, Copy, Debug, PartialEq, Eq, Structural)]
pub enum PlanStatus {
    Draft,
    Active,
    Completed,
    Abandoned,
}

impl PlanStatus {
    /// The text that stands for the value in the database.
    pub open spec fn text(self) -> Seq<char> {
        match self {
            PlanStatus::Draft => "draft"@,
            PlanStatus::Active => "active"@,
            PlanStatus::Completed => "completed"@,
            PlanStatus::Abandoned => "abandoned"@,
        }
    }

    /// The value that a text stands for.
    pub open spec fn named(s: Seq<char>) -> Option<PlanStatus> {
        if s == "draft"@ {
            Some(PlanStatus::Draft)
        } else if s == "active"@ {
            Some(PlanStatus::Active)
        } else if s == "completed"@ {
            Some(PlanStatus::Completed)
        } else if s == "abandoned"@ {
            Some(PlanStatus::Abandoned)
        } else {
            None
        }
    }

    /// Every value is found again by its text.
    pub proof fn lemma_text_names_value(self)
        ensures
            PlanStatus::named(self.text()) == Some(self),
    {
        reveal_strlit("draft");
        reveal_strlit("active");
        reveal_strlit("completed");
        reveal_strlit("abandoned");
        assert("draft"@.len() == 5);
        assert("active"@.len() == 6);
        assert("completed"@.len() == 9);
        assert("abandoned"@.len() == 9);
        assert("completed"@[0] != "abandoned"@[0]);
    }

    /// Each value is stored under its own name and under no other, and a text stands for
    /// nothing but the value that is stored under it.
    pub proof fn lemma_stored_names(self, s: Seq<char>)
        ensures
            self.text() == "draft"@ <==> self is Draft,
            self.text() == "active"@ <==> self is Active,
            self.text() == "completed"@ <==> self is Completed,
            self.text() == "abandoned"@ <==> self is Abandoned,
            PlanStatus::named(s) matches Some(v) ==> v.text() == s,
    {
        PlanStatus::Draft.lemma_text_names_value();
        PlanStatus::Active.lemma_text_names_value();
        PlanStatus::Completed.lemma_text_names_value();
        PlanStatus::Abandoned.lemma_text_names_value();
        self.lemma_text_names_value();
    }

    /// The text that stands for the value in the database.
    pub fn as_str(&self) -> (r: &'static str)
        ensures
            r@ == self.text(),
            PlanStatus::named(r@) == Some(*self),
    {
        proof {
            self.lemma_text_names_value();
        }
        match self {
            PlanStatus::Draft => "draft",
            PlanStatus::Active => "active",
            PlanStatus::Completed => "completed",
            PlanStatus::Abandoned => "abandoned",
        }
    }

    /// The value that a text stands for, where it stands for one.
    pub fn parse(s: &str) -> (r: Option<PlanStatus>)
        ensures
            r == PlanStatus::named(s@),
    {
        if text_eq(s, "draft") {
            Some(PlanStatus::Draft)
        } else if text_eq(s, "active") {
            Some(PlanStatus::Active)
        } else if text_eq(s, "completed") {
            Some(PlanStatus::Completed)
        } else if text_eq(s, "abandoned") {
            Some(PlanStatus::Abandoned)
        } else {
            None
        }
    }
}

/// A plan.
#[derive(Clone, Debug, PartialEq, Eq)]
pub struct Plan {
    pub id: PlanId,
    pub project_id: ProjectId,
    pub parent_plan_id: Option<PlanId>,
    pub title: String,
    pub description: String,
    pub goal: String,
    pub success_criteria: Vec<String>,
    pub status: PlanStatus,
    pub owner: Actor,
    pub created_at: Timestamp,
    pub updated_at: Timestamp,
    pub archived_at: Option<Timestamp>,
    pub source_brief: Option<String>,
}

/// A sparse change of a plan. `parent_plan_id` tells "leave it" from "no parent".
#[derive(Clone, Debug, PartialEq, Eq)]
pub struct PlanPatch {
    pub title: Option<String>,
    pub description: Option<String>,
    pub goal: Option<String>,
    pub success_criteria: Option<Vec<String>>,
    pub parent_plan_id: Option<Option<PlanId>>,
}

/// A task's place in a plan.
#[derive(Clone, Debug, PartialEq, Eq)]
pub struct PlanTask {
    pub plan_id: PlanId,
    pub task_id: TaskId,
    pub position: u32,
    pub depends_on: Vec<TaskId>,
}

/// How many of a plan's direct members are in which state.
#[derive(Clone, Debug, PartialEq, Eq)]
pub struct PlanProgressSummary {
    pub total: u32,
    pub done: u32,
    pub in_progress: u32,
    pub todo: u32,
    pub next_ready: Option<TaskId>,
}

/// The state of a run.
#[derive(Clone, Copy, Debug, PartialEq, Eq, Structural)]
pub enum RunStatus {
    Active,
    Completed,
    Failed,
    Aborted,
}

impl RunStatus {
    /// The text that stands for the value in the database.
    pub open spec fn text(self) -> Seq<char> {
        match self {
            RunStatus::Active => "active"@,
            RunStatus::Completed => "completed"@,
            RunStatus::Failed => "failed"@,
            RunStatus::Aborted => "aborted"@,
        }
    }

    /// The value that a text stands for.
    pub open spec fn named(s: Seq<char>) -> Option<RunStatus> {
        if s == "active"@ {
            Some(RunStatus::Active)
        } else if s == "completed"@ {
            Some(RunStatus::Completed)
        } else if s == "failed"@ {
            Some(RunStatus::Failed)
        } else if s == "aborted"@ {
            Some(RunStatus::Aborted)
        } else {
            None
        }
    }

    /// Every value is found again by its text.
    pub proof fn lemma_text_names_value(self)
        ensures
            RunStatus::named(self.text()) == Some(self),
    {
        reveal_strlit("active");
        reveal_strlit("completed");
        reveal_strlit("failed");
        reveal_strlit("aborted");
        assert("active"@.len() == 6);
        assert("completed"@.len() == 9);
        assert("failed"@.len() == 6);
        assert("aborted"@.len() == 7);
        assert("active"@[0] != "failed"@[0]);
    }

    /// Each value is stored under its own name and under no other, and a text stands for
    /// nothing but the value that is stored under it.
    pub proof fn lemma_stored_names(self, s: Seq<char>)
        ensures
            self.text() == "active"@ <==> self is Active,
            self.text() == "completed"@ <==> self is Completed,
            self.text() == "failed"@ <==> self is Failed,
            self.text() == "aborted"@ <==> self is Aborted,
            RunStatus::named(s) matches Some(v) ==> v.text() == s,
    {
        RunStatus::Active.lemma_text_names_value();
        RunStatus::Completed.lemma_text_names_value();
        RunStatus::Failed.lemma_text_names_value();
        RunStatus::Aborted.lemma_text_names_value();
        self.lemma_text_names_value();
    }

    /// The text that stands for the value in the database.
    pub fn as_str(&self) -> (r: &'static str)
        ensures
            r@ == self.text(),
            RunStatus::named(r@) == Some(*self),
    {
        proof {
            self.lemma_text_names_value();
        }
        match self {
            RunStatus::Active => "active",
            RunStatus::Completed => "completed",
            RunStatus::Failed => "failed",
            RunStatus::Aborted => "aborted",
        }
    }

    /// The value that a text stands for, where it stands for one.
    pub fn parse(s: &str) -> (r: Option<RunStatus>)
        ensures
            r == RunStatus::named(s@),
    {
        if text_eq(s, "active") {
            Some(RunStatus::Active)
        } else if text_eq(s, "completed") {
            Some(RunStatus::Completed)
        } else if text_eq(s, "failed") {
            Some(RunStatus::Failed)
        } else if text_eq(s, "aborted") {
            Some(RunStatus::Aborted)
        } else {
            None
        }
    }
}

/// An agent's run of a plan.
#[derive(Clone, Debug, PartialEq, Eq)]
pub struct Run {
    pub id: RunId,
    pub plan_id: PlanId,
    pub agent_id: AgentId,
    pub parent_run_id: Option<RunId>,
    pub started_at: Timestamp,
    pub ended_at: Option<Timestamp>,
    pub status: RunStatus,
    pub outcome: Option<String>,
    pub last_activity_at: Option<Timestamp>,
    pub unresponsive_at: Option<Timestamp>,
    pub stale_at: Option<Timestamp>,
}

/// How an edit of a plan made a run obsolete, kept as its JSON text.
#[derive(Clone, Debug, PartialEq, Eq)]
pub struct ObsolescenceKind {
    pub json: String,
}

/// A note on a run.
#[derive(Clone, Debug, PartialEq, Eq)]
pub struct RunNote {
    pub id: RunNoteId,
    pub run_id: RunId,
    pub body: String,
    pub author: Actor,
    pub created_at: Timestamp,
}

/// What a document is.
#[derive(Clone, Copy, Debug, PartialEq, Eq, Structural)]
pub enum DocumentKind {
    Interview,
    HumanLog,
}

impl DocumentKind {
    /// The text that stands for the value in the database.
    pub open spec fn text(self) -> Seq<char> {
        match self {
            DocumentKind::Interview => "interview"@,
            DocumentKind::HumanLog => "human_log"@,
        }
    }

    /// The value that a text stands for.
    pub open spec fn named(s: Seq<char>) -> Option<DocumentKind> {
        if s == "interview"@ {
            Some(DocumentKind::Interview)
        } else if s == "human_log"@ {
            Some(DocumentKind::HumanLog)
        } else {
            None
        }
    }

    /// Every value is found again by its text.
    pub proof fn lemma_text_names_value(self)
        ensures
            DocumentKind::named(self.text()) == Some(self),
    {
        reveal_strlit("interview");
        reveal_strlit("human_log");
        assert("interview"@[0] != "human_log"@[0]);
    }

    /// Each value is stored under its own name and under no other, and a text stands for
    /// nothing but the value that is stored under it.
    pub proof fn lemma_stored_names(self, s: Seq<char>)
        ensures
            self.text() == "interview"@ <==> self is Interview,
            self.text() == "human_log"@ <==> self is HumanLog,
            DocumentKind::named(s) matches Some(v) ==> v.text() == s,
    {
        DocumentKind::Interview.lemma_text_names_value();
        DocumentKind::HumanLog.lemma_text_names_value();
        self.lemma_text_names_value();
    }

    /// The text that stands for the value in the database.
    pub fn as_str(&self) -> (r: &'static str)
        ensures
            r@ == self.text(),
            DocumentKind::named(r@) == Some(*self),
    {
        proof {
            self.lemma_text_names_value();
        }
        match self {
            DocumentKind::Interview => "interview",
            DocumentKind::HumanLog => "human_log",
        }
    }

    /// The value that a text stands for, where it stands for one.
    pub fn parse(s: &str) -> (r: Option<DocumentKind>)
        ensures
            r == DocumentKind::named(s@),
    {
        if text_eq(s, "interview") {
            Some(DocumentKind::Interview)
        } else if text_eq(s, "human_log") {
            Some(DocumentKind::HumanLog)
        } else {
            None
        }
    }
}

/// The state of a document.
#[derive(Clone, Copy, Debug, PartialEq, Eq, Structural)]
pub enum DocumentStatus {
    Draft,
    Active,
    Outdated,
    Archived,
}

impl DocumentStatus {
    /// The text that stands for the value in the database.
    pub open spec fn text(self) -> Seq<char> {
        match self {
            DocumentStatus::Draft => "draft"@,
            DocumentStatus::Active => "active"@,
            DocumentStatus::Outdated => "outdated"@,
            DocumentStatus::Archived => "archived"@,
        }
    }

    /// The value that a text stands for.
    pub open spec fn named(s: Seq<char>) -> Option<DocumentStatus> {
        if s == "draft"@ {
            Some(DocumentStatus::Draft)
        } else if s == "active"@ {
            Some(DocumentStatus::Active)
        } else if s == "outdated"@ {
            Some(DocumentStatus::Outdated)
        } else if s == "archived"@ {
            Some(DocumentStatus::Archived)
        } else {
            None
        }
    }

    /// Every value is found again by its text.
    pub proof fn lemma_text_names_value(self)
        ensures
            DocumentStatus::named(self.text()) == Some(self),
    {
        reveal_strlit("draft");
        reveal_strlit("active");
        reveal_strlit("outdated");
        reveal_strlit("archived");
        assert("draft"@.len() == 5);
        assert("active"@.len() == 6);
        assert("outdated"@.len() == 8);
        assert("archived"@.len() == 8);
        assert("outdated"@[0] != "archived"@[0]);
    }

    /// Each value is stored under its own name and under no other, and a text stands for
    /// nothing but the value that is stored under it.
    pub proof fn lemma_stored_names(self, s: Seq<char>)
        ensures
            self.text() == "draft"@ <==> self is Draft,
            self.text() == "active"@ <==> self is Active,
            self.text() == "outdated"@ <==> self is Outdated,
            self.text() == "archived"@ <==> self is Archived,
            DocumentStatus::named(s) matches Some(v) ==> v.text() == s,
    {
        DocumentStatus::Draft.lemma_text_names_value();
        DocumentStatus::Active.lemma_text_names_value();
        DocumentStatus::Outdated.lemma_text_names_value();
        DocumentStatus::Archived.lemma_text_names_value();
        self.lemma_text_names_value();
    }

    /// The text that stands for the value in the database.
    pub fn as_str(&self) -> (r: &'static str)
        ensures
            r@ == self.text(),
            DocumentStatus::named(r@) == Some(*self),
    {
        proof {
            self.lemma_text_names_value();
        }
        match self {
            DocumentStatus::Draft => "draft",
            DocumentStatus::Active => "active",
            DocumentStatus::Outdated => "outdated",
            DocumentStatus::Archived => "archived",
        }
    }

    /// The value that a text stands for, where it stands for one.
    pub fn parse(s: &str) -> (r: Option<DocumentStatus>)
        ensures
            r == DocumentStatus::named(s@),
    {
        if text_eq(s, "draft") {
            Some(DocumentStatus::Draft)
        } else if text_eq(s, "active") {
            Some(DocumentStatus::Active)
        } else if text_eq(s, "outdated") {
            Some(DocumentStatus::Outdated)
        } else if text_eq(s, "archived") {
            Some(DocumentStatus::Archived)
        } else {
            None
        }
    }
}

/// A project's document.
#[derive(Clone, Debug, PartialEq, Eq)]
pub struct Document {
    pub id: DocumentId,
    pub project_id: ProjectId,
    pub kind: DocumentKind,
    pub title: String,
    pub content: String,
    pub status: DocumentStatus,
    pub task_id: Option<TaskId>,
    pub trigger_kind: Option<String>,
    pub consumer: Option<String>,
    pub created_at: Timestamp,
    pub updated_at: Timestamp,
    pub archived_at: Option<Timestamp>,
    pub last_read_at: Option<Timestamp>,
    pub last_read_by: Option<String>,
    pub read_count: u64,
}

/// How two tasks are related.
#[derive(Clone, Copy, Debug, PartialEq, Eq, Structural)]
pub enum RelationKind {
    Blocks,
    RelatesTo,
    Duplicates,
    WasBlocking,
}

impl RelationKind {
    /// The text that stands for the value in the database.
    pub open spec fn text(self) -> Seq<char> {
        match self {
            RelationKind::Blocks => "blocks"@,
            RelationKind::RelatesTo => "relates_to"@,
            RelationKind::Duplicates => "duplicates"@,
            RelationKind::WasBlocking => "was_blocking"@,
        }
    }

    /// The value that a text stands for.
    pub open spec fn named(s: Seq<char>) -> Option<RelationKind> {
        if s == "blocks"@ {
            Some(RelationKind::Blocks)
        } else if s == "relates_to"@ {
            Some(RelationKind::RelatesTo)
        } else if s == "duplicates"@ {
            Some(RelationKind::Duplicates)
        } else if s == "was_blocking"@ {
            Some(RelationKind::WasBlocking)
        } else {
            None
        }
    }

    /// Every value is found again by its text.
    pub proof fn lemma_text_names_value(self)
        ensures
            RelationKind::named(self.text()) == Some(self),
    {
        reveal_strlit("blocks");
        reveal_strlit("relates_to");
        reveal_strlit("duplicates");
        reveal_strlit("was_blocking");
        assert("blocks"@.len() == 6);
        assert("relates_to"@.len() == 10);
        assert("duplicates"@.len() == 10);
        assert("was_blocking"@.len() == 12);
        assert("relates_to"@[0] != "duplicates"@[0]);
    }

    /// Each value is stored under its own name and under no other, and a text stands for
    /// nothing but the value that is stored under it.
    pub proof fn lemma_stored_names(self, s: Seq<char>)
        ensures
            self.text() == "blocks"@ <==> self is Blocks,
            self.text() == "relates_to"@ <==> self is RelatesTo,
            self.text() == "duplicates"@ <==> self is Duplicates,
            self.text() == "was_blocking"@ <==> self is WasBlocking,
            RelationKind::named(s) matches Some(v) ==> v.text() == s,
    {
        RelationKind::Blocks.lemma_text_names_value();
        RelationKind::RelatesTo.lemma_text_names_value();
        RelationKind::Duplicates.lemma_text_names_value();
        RelationKind::WasBlocking.lemma_text_names_value();
        self.lemma_text_names_value();
    }

    /// The text that stands for the value in the database.
    pub fn as_str(&self) -> (r: &'static str)
        ensures
            r@ == self.text(),
            RelationKind::named(r@) == Some(*self),
    {
        proof {
            self.lemma_text_names_value();
        }
        match self {
            RelationKind::Blocks => "blocks",
            RelationKind::RelatesTo => "relates_to",
            RelationKind::Duplicates => "duplicates",
            RelationKind::WasBlocking => "was_blocking",
        }
    }

    /// The value that a text stands for, where it stands for one.
    pub fn parse(s: &str) -> (r: Option<RelationKind>)
        ensures
            r == RelationKind::named(s@),
    {
        if text_eq(s, "blocks") {
            Some(RelationKind::Blocks)
        } else if text_eq(s, "relates_to") {
            Some(RelationKind::RelatesTo)
        } else if text_eq(s, "duplicates") {
            Some(RelationKind::Duplicates)
        } else if text_eq(s, "was_blocking") {
            Some(RelationKind::WasBlocking)
        } else {
            None
        }
    }
}

/// A relation from one task to another.
#[derive(Clone, Debug, PartialEq, Eq)]
pub struct Relation {
    pub id: RelationId,
    pub from: TaskId,
    pub to: TaskId,
    pub kind: RelationKind,
    pub created_at: Timestamp,
    pub created_by: Actor,
}

/// What an activity row tells of.
#[derive(Clone, Copy, Debug, PartialEq, Eq, Structural)]
pub enum Verb {
    Created,
    Updated,
    StatusChanged,
    PriorityChanged,
    Completed,
    Deleted,
    SplitGenerated,
    Closed,
    Reopened,
    Commented,
    CommentEdited,
    CommentDeleted,
    ProjectCreated,
    ProjectUpdated,
    ProjectDeleted,
    AgentAction,
    PlanCreated,
    PlanModified,
    PlanReparented,
    PlanArchived,
    TaskAttached,
    TaskDetached,
    RunStarted,
    RunCompleted,
    RunFailed,
    RunAborted,
    TaskClaimed,
    TaskReleased,
    Linked,
    Unlinked,
    Unblocked,
    DueElapsed,
    RelationKindChanged,
}

impl Verb {
    /// The text that stands for the value in the database.
    pub open spec fn text(self) -> Seq<char> {
        match self {
            Verb::Created => "created"@,
            Verb::Updated => "updated"@,
            Verb::StatusChanged => "status_changed"@,
            Verb::PriorityChanged => "priority_changed"@,
            Verb::Completed => "completed"@,
            Verb::Deleted => "deleted"@,
            Verb::SplitGenerated => "split_generated"@,
            Verb::Closed => "closed"@,
            Verb::Reopened => "reopened"@,
            Verb::Commented => "commented"@,
            Verb::CommentEdited => "comment_edited"@,
            Verb::CommentDeleted => "comment_deleted"@,
            Verb::ProjectCreated => "project_created"@,
            Verb::ProjectUpdated => "project_updated"@,
            Verb::ProjectDeleted => "project_deleted"@,
            Verb::AgentAction => "agent_action"@,
            Verb::PlanCreated => "plan_created"@,
            Verb::PlanModified => "plan_modified"@,
            Verb::PlanReparented => "plan_reparented"@,
            Verb::PlanArchived => "plan_archived"@,
            Verb::TaskAttached => "task_attached"@,
            Verb::TaskDetached => "task_detached"@,
            Verb::RunStarted => "run_started"@,
            Verb::RunCompleted => "run_completed"@,
            Verb::RunFailed => "run_failed"@,
            Verb::RunAborted => "run_aborted"@,
            Verb::TaskClaimed => "task_claimed"@,
            Verb::TaskReleased => "task_released"@,
            Verb::Linked => "linked"@,
            Verb::Unlinked => "unlinked"@,
            Verb::Unblocked => "unblocked"@,
            Verb::DueElapsed => "due_elapsed"@,
            Verb::RelationKindChanged => "relation_kind_changed"@,
        }
    }

    /// The value that a text stands for.
    pub open spec fn named(s: Seq<char>) -> Option<Verb> {
        if s == "created"@ {
            Some(Verb::Created)
        } else if s == "updated"@ {
            Some(Verb::Updated)
        } else if s == "status_changed"@ {
            Some(Verb::StatusChanged)
        } else if s == "priority_changed"@ {
            Some(Verb::PriorityChanged)
        } else if s == "completed"@ {
            Some(Verb::Completed)
        } else if s == "deleted"@ {
            Some(Verb::Deleted)
        } else if s == "split_generated"@ {
            Some(Verb::SplitGenerated)
        } else if s == "closed"@ {
            Some(Verb::Closed)
        } else if s == "reopened"@ {
            Some(Verb::Reopened)
        } else if s == "commented"@ {
            Some(Verb::Commented)
        } else if s == "comment_edited"@ {
            Some(Verb::CommentEdited)
        } else if s == "comment_deleted"@ {
            Some(Verb::CommentDeleted)
        } else if s == "project_created"@ {
            Some(Verb::ProjectCreated)
        } else if s == "project_updated"@ {
            Some(Verb::ProjectUpdated)
        } else if s == "project_deleted"@ {
            Some(Verb::ProjectDeleted)
        } else if s == "agent_action"@ {
            Some(Verb::AgentAction)
        } else if s == "plan_created"@ {
            Some(Verb::PlanCreated)
        } else if s == "plan_modified"@ {
            Some(Verb::PlanModified)
        } else if s == "plan_reparented"@ {
            Some(Verb::PlanReparented)
        } else if s == "plan_archived"@ {
            Some(Verb::PlanArchived)
        } else if s == "task_attached"@ {
            Some(Verb::TaskAttached)
        } else if s == "task_detached"@ {
            Some(Verb::TaskDetached)
        } else if s == "run_started"@ {
            Some(Verb::RunStarted)
        } else if s == "run_completed"@ {
            Some(Verb::RunCompleted)
        } else if s == "run_failed"@ {
            Some(Verb::RunFailed)
        } else if s == "run_aborted"@ {
            Some(Verb::RunAborted)
        } else if s == "task_claimed"@ {
            Some(Verb::TaskClaimed)
        } else if s == "task_released"@ {
            Some(Verb::TaskReleased)
        } else if s == "linked"@ {
            Some(Verb::Linked)
        } else if s == "unlinked"@ {
            Some(Verb::Unlinked)
        } else if s == "unblocked"@ {
            Some(Verb::Unblocked)
        } else if s == "due_elapsed"@ {
            Some(Verb::DueElapsed)
        } else if s == "relation_kind_changed"@ {
            Some(Verb::RelationKindChanged)
        } else {
            None
        }
    }

    /// Every value is found again by its text.
    pub proof fn lemma_text_names_value(self)
        ensures
            Verb::named(self.text()) == Some(self),
    {
        reveal_strlit("created");
        reveal_strlit("updated");
        reveal_strlit("status_changed");
        reveal_strlit("priority_changed");
        reveal_strlit("completed");
        reveal_strlit("deleted");
        reveal_strlit("split_generated");
        reveal_strlit("closed");
        reveal_strlit("reopened");
        reveal_strlit("commented");
        reveal_strlit("comment_edited");
        reveal_strlit("comment_deleted");
        reveal_strlit("project_created");
        reveal_strlit("project_updated");
        reveal_strlit("project_deleted");
        reveal_strlit("agent_action");
        reveal_strlit("plan_created");
        reveal_strlit("plan_modified");
        reveal_strlit("plan_reparented");
        reveal_strlit("plan_archived");
        reveal_strlit("task_attached");
        reveal_strlit("task_detached");
        reveal_strlit("run_started");
        reveal_strlit("run_completed");
        reveal_strlit("run_failed");
        reveal_strlit("run_aborted");
        reveal_strlit("task_claimed");
        reveal_strlit("task_released");
        reveal_strlit("linked");
        reveal_strlit("unlinked");
        reveal_strlit("unblocked");
        reveal_strlit("due_elapsed");
        reveal_strlit("relation_kind_changed");
        assert("created"@.len() == 7);
        assert("updated"@.len() == 7);
        assert("status_changed"@.len() == 14);
        assert("priority_changed"@.len() == 16);
        assert("completed"@.len() == 9);
        assert("deleted"@.len() == 7);
        assert("split_generated"@.len() == 15);
        assert("closed"@.len() == 6);
        assert("reopened"@.len() == 8);
        assert("commented"@.len() == 9);
        assert("comment_edited"@.len() == 14);
        assert("comment_deleted"@.len() == 15);
        assert("project_created"@.len() == 15);
        assert("project_updated"@.len() == 15);
        assert("project_deleted"@.len() == 15);
        assert("agent_action"@.len() == 12);
        assert("plan_created"@.len() == 12);
        assert("plan_modified"@.len() == 13);
        assert("plan_reparented"@.len() == 15);
        assert("plan_archived"@.len() == 13);
        assert("task_attached"@.len() == 13);
        assert("task_detached"@.len() == 13);
        assert("run_started"@.len() == 11);
        assert("run_completed"@.len() == 13);
        assert("run_failed"@.len() == 10);
        assert("run_aborted"@.len() == 11);
        assert("task_claimed"@.len() == 12);
        assert("task_released"@.len() == 13);
        assert("linked"@.len() == 6);
        assert("unlinked"@.len() == 8);
        assert("unblocked"@.len() == 9);
        assert("due_elapsed"@.len() == 11);
        assert("relation_kind_changed"@.len() == 21);
        assert("created"@[0] != "updated"@[0]);
        assert("created"@[0] != "deleted"@[0]);
        assert("updated"@[0] != "deleted"@[0]);
        assert("status_changed"@[0] != "comment_edited"@[0]);
        assert("completed"@[3] != "commented"@[3]);
        assert("completed"@[0] != "unblocked"@[0]);
        assert("split_generated"@[0] != "comment_deleted"@[0]);
        assert("split_generated"@[0] != "project_created"@[0]);
        assert("split_generated"@[0] != "project_updated"@[0]);
        assert("split_generated"@[0] != "project_deleted"@[0]);
        assert("split_generated"@[0] != "plan_reparented"@[0]);
        assert("closed"@[0] != "linked"@[0]);
        assert("reopened"@[0] != "unlinked"@[0]);
        assert("commented"@[0] != "unblocked"@[0]);
        assert("comment_deleted"@[0] != "project_created"@[0]);
        assert("comment_deleted"@[0] != "project_updated"@[0]);
        assert("comment_deleted"@[0] != "project_deleted"@[0]);
        assert("comment_deleted"@[0] != "plan_reparented"@[0]);
        assert("project_created"@[8] != "project_updated"@[8]);
        assert("project_created"@[8] != "project_deleted"@[8]);
        assert("project_created"@[1] != "plan_reparented"@[1]);
        assert("project_updated"@[8] != "project_deleted"@[8]);
        assert("project_updated"@[1] != "plan_reparented"@[1]);
        assert("project_deleted"@[1] != "plan_reparented"@[1]);
        assert("agent_action"@[0] != "plan_created"@[0]);
        assert("agent_action"@[0] != "task_claimed"@[0]);
        assert("plan_created"@[0] != "task_claimed"@[0]);
        assert("plan_modified"@[5] != "plan_archived"@[5]);
        assert("plan_modified"@[0] != "task_attached"@[0]);
        assert("plan_modified"@[0] != "task_detached"@[0]);
        assert("plan_modified"@[0] != "run_completed"@[0]);
        assert("plan_modified"@[0] != "task_released"@[0]);
        assert("plan_archived"@[0] != "task_attached"@[0]);
        assert("plan_archived"@[0] != "task_detached"@[0]);
        assert("plan_archived"@[0] != "run_completed"@[0]);
        assert("plan_archived"@[0] != "task_released"@[0]);
        assert("task_attached"@[5] != "task_detached"@[5]);
        assert("task_attached"@[0] != "run_completed"@[0]);
        assert("task_attached"@[5] != "task_released"@[5]);
        assert("task_detached"@[0] != "run_completed"@[0]);
        assert("task_detached"@[5] != "task_released"@[5]);
        assert("run_started"@[4] != "run_aborted"@[4]);
        assert("run_started"@[0] != "due_elapsed"@[0]);
        assert("run_completed"@[0] != "task_released"@[0]);
        assert("run_aborted"@[0] != "due_elapsed"@[0]);
    }

    /// Each value is stored under its own name and under no other, and a text stands for
    /// nothing but the value that is stored under it.
    pub proof fn lemma_stored_names(self, s: Seq<char>)
        ensures
            self.text() == "created"@ <==> self is Created,
            self.text() == "updated"@ <==> self is Updated,
            self.text() == "status_changed"@ <==> self is StatusChanged,
            self.text() == "priority_changed"@ <==> self is PriorityChanged,
            self.text() == "completed"@ <==> self is Completed,
            self.text() == "deleted"@ <==> self is Deleted,
            self.text() == "split_generated"@ <==> self is SplitGenerated,
            self.text() == "closed"@ <==> self is Closed,
            self.text() == "reopened"@ <==> self is Reopened,
            self.text() == "commented"@ <==> self is Commented,
            self.text() == "comment_edited"@ <==> self is CommentEdited,
            self.text() == "comment_deleted"@ <==> self is CommentDeleted,
            self.text() == "project_created"@ <==> self is ProjectCreated,
            self.text() == "project_updated"@ <==> self is ProjectUpdated,
            self.text() == "project_deleted"@ <==> self is ProjectDeleted,
            self.text() == "agent_action"@ <==> self is AgentAction,
            self.text() == "plan_created"@ <==> self is PlanCreated,
            self.text() == "plan_modified"@ <==> self is PlanModified,
            self.text() == "plan_reparented"@ <==> self is PlanReparented,
            self.text() == "plan_archived"@ <==> self is PlanArchived,
            self.text() == "task_attached"@ <==> self is TaskAttached,
            self.text() == "task_detached"@ <==> self is TaskDetached,
            self.text() == "run_started"@ <==> self is RunStarted,
            self.text() == "run_completed"@ <==> self is RunCompleted,
            self.text() == "run_failed"@ <==> self is RunFailed,
            self.text() == "run_aborted"@ <==> self is RunAborted,
            self.text() == "task_claimed"@ <==> self is TaskClaimed,
            self.text() == "task_released"@ <==> self is TaskReleased,
            self.text() == "linked"@ <==> self is Linked,
            self.text() == "unlinked"@ <==> self is Unlinked,
            self.text() == "unblocked"@ <==> self is Unblocked,
            self.text() == "due_elapsed"@ <==> self is DueElapsed,
            self.text() == "relation_kind_changed"@ <==> self is RelationKindChanged,
            Verb::named(s) matches Some(v) ==> v.text() == s,
    {
        Verb::Created.lemma_text_names_value();
        Verb::Updated.lemma_text_names_value();
        Verb::StatusChanged.lemma_text_names_value();
        Verb::PriorityChanged.lemma_text_names_value();
        Verb::Completed.lemma_text_names_value();
        Verb::Deleted.lemma_text_names_value();
        Verb::SplitGenerated.lemma_text_names_value();
        Verb::Closed.lemma_text_names_value();
        Verb::Reopened.lemma_text_names_value();
        Verb::Commented.lemma_text_names_value();
        Verb::CommentEdited.lemma_text_names_value();
        Verb::CommentDeleted.lemma_text_names_value();
        Verb::ProjectCreated.lemma_text_names_value();
        Verb::ProjectUpdated.lemma_text_names_value();
        Verb::ProjectDeleted.lemma_text_names_value();
        Verb::AgentAction.lemma_text_names_value();
        Verb::PlanCreated.lemma_text_names_value();
        Verb::PlanModified.lemma_text_names_value();
        Verb::PlanReparented.lemma_text_names_value();
        Verb::PlanArchived.lemma_text_names_value();
        Verb::TaskAttached.lemma_text_names_value();
        Verb::TaskDetached.lemma_text_names_value();
        Verb::RunStarted.lemma_text_names_value();
        Verb::RunCompleted.lemma_text_names_value();
        Verb::RunFailed.lemma_text_names_value();
        Verb::RunAborted.lemma_text_names_value();
        Verb::TaskClaimed.lemma_text_names_value();
        Verb::TaskReleased.lemma_text_names_value();
        Verb::Linked.lemma_text_names_value();
        Verb::Unlinked.lemma_text_names_value();
        Verb::Unblocked.lemma_text_names_value();
        Verb::DueElapsed.lemma_text_names_value();
        Verb::RelationKindChanged.lemma_text_names_value();
        self.lemma_text_names_value();
    }

    /// The text that stands for the value in the database.
    pub fn as_str(&self) -> (r: &'static str)
        ensures
            r@ == self.text(),
            Verb::named(r@) == Some(*self),
    {
        proof {
            self.lemma_text_names_value();
        }
        match self {
            Verb::Created => "created",
            Verb::Updated => "updated",
            Verb::StatusChanged => "status_changed",
            Verb::PriorityChanged => "priority_changed",
            Verb::Completed => "completed",
            Verb::Deleted => "deleted",
            Verb::SplitGenerated => "split_generated",
            Verb::Closed => "closed",
            Verb::Reopened => "reopened",
            Verb::Commented => "commented",
            Verb::CommentEdited => "comment_edited",
            Verb::CommentDeleted => "comment_deleted",
            Verb::ProjectCreated => "project_created",
            Verb::ProjectUpdated => "project_updated",
            Verb::ProjectDeleted => "project_deleted",
            Verb::AgentAction => "agent_action",
            Verb::PlanCreated => "plan_created",
            Verb::PlanModified => "plan_modified",
            Verb::PlanReparented => "plan_reparented",
            Verb::PlanArchived => "plan_archived",
            Verb::TaskAttached => "task_attached",
            Verb::TaskDetached => "task_detached",
            Verb::RunStarted => "run_started",
            Verb::RunCompleted => "run_completed",
            Verb::RunFailed => "run_failed",
            Verb::RunAborted => "run_aborted",
            Verb::TaskClaimed => "task_claimed",
            Verb::TaskReleased => "task_released",
            Verb::Linked => "linked",
            Verb::Unlinked => "unlinked",
            Verb::Unblocked => "unblocked",
            Verb::DueElapsed => "due_elapsed",
            Verb::RelationKindChanged => "relation_kind_changed",
        }
    }

    /// The value that a text stands for, where it stands for one.
    pub fn parse(s: &str) -> (r: Option<Verb>)
        ensures
            r == Verb::named(s@),
    {
        if text_eq(s, "created") {
            Some(Verb::Created)
        } else if text_eq(s, "updated") {
            Some(Verb::Updated)
        } else if text_eq(s, "status_changed") {
            Some(Verb::StatusChanged)
        } else if text_eq(s, "priority_changed") {
            Some(Verb::PriorityChanged)
        } else if text_eq(s, "completed") {
            Some(Verb::Completed)
        } else if text_eq(s, "deleted") {
            Some(Verb::Deleted)
        } else if text_eq(s, "split_generated") {
            Some(Verb::SplitGenerated)
        } else if text_eq(s, "closed") {
            Some(Verb::Closed)
        } else if text_eq(s, "reopened") {
            Some(Verb::Reopened)
        } else if text_eq(s, "commented") {
            Some(Verb::Commented)
        } else if text_eq(s, "comment_edited") {
            Some(Verb::CommentEdited)
        } else if text_eq(s, "comment_deleted") {
            Some(Verb::CommentDeleted)
        } else if text_eq(s, "project_created") {
            Some(Verb::ProjectCreated)
        } else if text_eq(s, "project_updated") {
            Some(Verb::ProjectUpdated)
        } else if text_eq(s, "project_deleted") {
            Some(Verb::ProjectDeleted)
        } else if text_eq(s, "agent_action") {
            Some(Verb::AgentAction)
        } else if text_eq(s, "plan_created") {
            Some(Verb::PlanCreated)
        } else if text_eq(s, "plan_modified") {
            Some(Verb::PlanModified)
        } else if text_eq(s, "plan_reparented") {
            Some(Verb::PlanReparented)
        } else if text_eq(s, "plan_archived") {
            Some(Verb::PlanArchived)
        } else if text_eq(s, "task_attached") {
            Some(Verb::TaskAttached)
        } else if text_eq(s, "task_detached") {
            Some(Verb::TaskDetached)
        } else if text_eq(s, "run_started") {
            Some(Verb::RunStarted)
        } else if text_eq(s, "run_completed") {
            Some(Verb::RunCompleted)
        } else if text_eq(s, "run_failed") {
            Some(Verb::RunFailed)
        } else if text_eq(s, "run_aborted") {
            Some(Verb::RunAborted)
        } else if text_eq(s, "task_claimed") {
            Some(Verb::TaskClaimed)
        } else if text_eq(s, "task_released") {
            Some(Verb::TaskReleased)
        } else if text_eq(s, "linked") {
            Some(Verb::Linked)
        } else if text_eq(s, "unlinked") {
            Some(Verb::Unlinked)
        } else if text_eq(s, "unblocked") {
            Some(Verb::Unblocked)
        } else if text_eq(s, "due_elapsed") {
            Some(Verb::DueElapsed)
        } else if text_eq(s, "relation_kind_changed") {
            Some(Verb::RelationKindChanged)
        } else {
            None
        }
    }
}

/// A row of the activity feed.
#[derive(Clone, Debug, PartialEq, Eq)]
pub struct Activity {
    pub id: ActivityId,
    pub task_id: Option<TaskId>,
    pub project_id: Option<ProjectId>,
    pub actor: Actor,
    pub verb: Verb,
    pub field: Option<String>,
    pub old_value: Option<String>,
    pub new_value: Option<String>,
    pub occurred_at: Timestamp,
    pub event_id: EventId,
    pub seq: i64,
}

/// The state of an artifact.
#[derive(Clone, Copy, Debug, PartialEq, Eq, Structural)]
pub enum ArtifactStatus {
    Pending,
    Active,
    Committed,
    Deprecated,
}

impl ArtifactStatus {
    /// The text that stands for the value in the database.
    pub open spec fn text(self) -> Seq<char> {
        match self {
            ArtifactStatus::Pending => "pending"@,
            ArtifactStatus::Active => "active"@,
            ArtifactStatus::Committed => "committed"@,
            ArtifactStatus::Deprecated => "deprecated"@,
        }
    }

    /// The value that a text stands for.
    pub open spec fn named(s: Seq<char>) -> Option<ArtifactStatus> {
        if s == "pending"@ {
            Some(ArtifactStatus::Pending)
        } else if s == "active"@ {
            Some(ArtifactStatus::Active)
        } else if s == "committed"@ {
            Some(ArtifactStatus::Committed)
        } else if s == "deprecated"@ {
            Some(ArtifactStatus::Deprecated)
        } else {
            None
        }
    }

    /// Every value is found again by its text.
    pub proof fn lemma_text_names_value(self)
        ensures
            ArtifactStatus::named(self.text()) == Some(self),
    {
        reveal_strlit("pending");
        reveal_strlit("active");
        reveal_strlit("committed");
        reveal_strlit("deprecated");
        assert("pending"@.len() == 7);
        assert("active"@.len() == 6);
        assert("committed"@.len() == 9);
        assert("deprecated"@.len() == 10);
    }

    /// Each value is stored under its own name and under no other, and a text stands for
    /// nothing but the value that is stored under it.
    pub proof fn lemma_stored_names(self, s: Seq<char>)
        ensures
            self.text() == "pending"@ <==> self is Pending,
            self.text() == "active"@ <==> self is Active,
            self.text() == "committed"@ <==> self is Committed,
            self.text() == "deprecated"@ <==> self is Deprecated,
            ArtifactStatus::named(s) matches Some(v) ==> v.text() == s,
    {
        ArtifactStatus::Pending.lemma_text_names_value();
        ArtifactStatus::Active.lemma_text_names_value();
        ArtifactStatus::Committed.lemma_text_names_value();
        ArtifactStatus::Deprecated.lemma_text_names_value();
        self.lemma_text_names_value();
    }

    /// The text that stands for the value in the database.
    pub fn as_str(&self) -> (r: &'static str)
        ensures
            r@ == self.text(),
            ArtifactStatus::named(r@) == Some(*self),
    {
        proof {
            self.lemma_text_names_value();
        }
        match self {
            ArtifactStatus::Pending => "pending",
            ArtifactStatus::Active => "active",
            ArtifactStatus::Committed => "committed",
            ArtifactStatus::Deprecated => "deprecated",
        }
    }

    /// The value that a text stands for, where it stands for one.
    pub fn parse(s: &str) -> (r: Option<ArtifactStatus>)
        ensures
            r == ArtifactStatus::named(s@),
    {
        if text_eq(s, "pending") {
            Some(ArtifactStatus::Pending)
        } else if text_eq(s, "active") {
            Some(ArtifactStatus::Active)
        } else if text_eq(s, "committed") {
            Some(ArtifactStatus::Committed)
        } else if text_eq(s, "deprecated") {
            Some(ArtifactStatus::Deprecated)
        } else {
            None
        }
    }
}

/// How two artifacts are related.
#[derive(Clone, Copy, Debug, PartialEq, Eq, Structural)]
pub enum ArtifactRelationKind {
    Implements,
    DependsOn,
    DerivedFrom,
    Supersedes,
}

impl ArtifactRelationKind {
    /// The text that stands for the value in the database.
    pub open spec fn text(self) -> Seq<char> {
        match self {
            ArtifactRelationKind::Implements => "implements"@,
            ArtifactRelationKind::DependsOn => "depends_on"@,
            ArtifactRelationKind::DerivedFrom => "derived_from"@,
            ArtifactRelationKind::Supersedes => "supersedes"@,
        }
    }

    /// The value that a text stands for.
    pub open spec fn named(s: Seq<char>) -> Option<ArtifactRelationKind> {
        if s == "implements"@ {
            Some(ArtifactRelationKind::Implements)
        } else if s == "depends_on"@ {
            Some(ArtifactRelationKind::DependsOn)
        } else if s == "derived_from"@ {
            Some(ArtifactRelationKind::DerivedFrom)
        } else if s == "supersedes"@ {
            Some(ArtifactRelationKind::Supersedes)
        } else {
            None
        }
    }

    /// Every value is found again by its text.
    pub proof fn lemma_text_names_value(self)
        ensures
            ArtifactRelationKind::named(self.text()) == Some(self),
    {
        reveal_strlit("implements");
        reveal_strlit("depends_on");
        reveal_strlit("derived_from");
        reveal_strlit("supersedes");
        assert("implements"@.len() == 10);
        assert("depends_on"@.len() == 10);
        assert("derived_from"@.len() == 12);
        assert("supersedes"@.len() == 10);
        assert("implements"@[0] != "depends_on"@[0]);
        assert("implements"@[0] != "supersedes"@[0]);
        assert("depends_on"@[0] != "supersedes"@[0]);
    }

    /// Each value is stored under its own name and under no other, and a text stands for
    /// nothing but the value that is stored under it.
    pub proof fn lemma_stored_names(self, s: Seq<char>)
        ensures
            self.text() == "implements"@ <==> self is Implements,
            self.text() == "depends_on"@ <==> self is DependsOn,
            self.text() == "derived_from"@ <==> self is DerivedFrom,
            self.text() == "supersedes"@ <==> self is Supersedes,
            ArtifactRelationKind::named(s) matches Some(v) ==> v.text() == s,
    {
        ArtifactRelationKind::Implements.lemma_text_names_value();
        ArtifactRelationKind::DependsOn.lemma_text_names_value();
        ArtifactRelationKind::DerivedFrom.lemma_text_names_value();
        ArtifactRelationKind::Supersedes.lemma_text_names_value();
        self.lemma_text_names_value();
    }

    /// The text that stands for the value in the database.
    pub fn as_str(&self) -> (r: &'static str)
        ensures
            r@ == self.text(),
            ArtifactRelationKind::named(r@) == Some(*self),
    {
        proof {
            self.lemma_text_names_value();
        }
        match self {
            ArtifactRelationKind::Implements => "implements",
            ArtifactRelationKind::DependsOn => "depends_on",
            ArtifactRelationKind::DerivedFrom => "derived_from",
            ArtifactRelationKind::Supersedes => "supersedes",
        }
    }

    /// The value that a text stands for, where it stands for one.
    pub fn parse(s: &str) -> (r: Option<ArtifactRelationKind>)
        ensures
            r == ArtifactRelationKind::named(s@),
    {
        if text_eq(s, "implements") {
            Some(ArtifactRelationKind::Implements)
        } else if text_eq(s, "depends_on") {
            Some(ArtifactRelationKind::DependsOn)
        } else if text_eq(s, "derived_from") {
            Some(ArtifactRelationKind::DerivedFrom)
        } else if text_eq(s, "supersedes") {
            Some(ArtifactRelationKind::Supersedes)
        } else {
            None
        }
    }
}

/// An artifact.
#[derive(Clone, Debug, PartialEq, Eq)]
pub struct Artifact {
    pub id: ArtifactId,
    pub uri: String,
    pub title: String,
    pub description: String,
    pub status: ArtifactStatus,
    pub owner_agent_id: Option<AgentId>,
    pub task_id: Option<TaskId>,
    pub project_id: Option<ProjectId>,
    pub version: Option<String>,
    pub last_write_token: Option<i64>,
    pub created_at: Timestamp,
    pub updated_at: Timestamp,
}

/// A relation from one artifact to another.
#[derive(Clone, Debug, PartialEq, Eq)]
pub struct ArtifactRelation {
    pub id: ArtifactRelationId,
    pub from_id: ArtifactId,
    pub to_id: ArtifactId,
    pub kind: ArtifactRelationKind,
    pub created_at: Timestamp,
}

/// How bad an audit finding is.
#[derive(Clone, Copy, Debug, PartialEq, Eq, Structural)]
pub enum FindingSeverity {
    Info,
    Warn,
    Error,
}

impl FindingSeverity {
    /// The text that stands for the value in the database.
    pub open spec fn text(self) -> Seq<char> {
        match self {
            FindingSeverity::Info => "info"@,
            FindingSeverity::Warn => "warn"@,
            FindingSeverity::Error => "error"@,
        }
    }

    /// The value that a text stands for.
    pub open spec fn named(s: Seq<char>) -> Option<FindingSeverity> {
        if s == "info"@ {
            Some(FindingSeverity::Info)
        } else if s == "warn"@ {
            Some(FindingSeverity::Warn)
        } else if s == "error"@ {
            Some(FindingSeverity::Error)
        } else {
            None
        }
    }

    /// Every value is found again by its text.
    pub proof fn lemma_text_names_value(self)
        ensures
            FindingSeverity::named(self.text()) == Some(self),
    {
        reveal_strlit("info");
        reveal_strlit("warn");
        reveal_strlit("error");
        assert("info"@.len() == 4);
        assert("warn"@.len() == 4);
        assert("error"@.len() == 5);
        assert("info"@[0] != "warn"@[0]);
    }

    /// Each value is stored under its own name and under no other, and a text stands for
    /// nothing but the value that is stored under it.
    pub proof fn lemma_stored_names(self, s: Seq<char>)
        ensures
            self.text() == "info"@ <==> self is Info,
            self.text() == "warn"@ <==> self is Warn,
            self.text() == "error"@ <==> self is Error,
            FindingSeverity::named(s) matches Some(v) ==> v.text() == s,
    {
        FindingSeverity::Info.lemma_text_names_value();
        FindingSeverity::Warn.lemma_text_names_value();
        FindingSeverity::Error.lemma_text_names_value();
        self.lemma_text_names_value();
    }

    /// The text that stands for the value in the database.
    pub fn as_str(&self) -> (r: &'static str)
        ensures
            r@ == self.text(),
            FindingSeverity::named(r@) == Some(*self),
    {
        proof {
            self.lemma_text_names_value();
        }
        match self {
            FindingSeverity::Info => "info",
            FindingSeverity::Warn => "warn",
            FindingSeverity::Error => "error",
        }
    }

    /// The value that a text stands for, where it stands for one.
    pub fn parse_str(s: &str) -> (r: Option<FindingSeverity>)
        ensures
            r == FindingSeverity::named(s@),
    {
        if text_eq(s, "info") {
            Some(FindingSeverity::Info)
        } else if text_eq(s, "warn") {
            Some(FindingSeverity::Warn)
        } else if text_eq(s, "error") {
            Some(FindingSeverity::Error)
        } else {
            None
        }
    }
}

/// The state of an audit finding.
#[derive(Clone, Copy, Debug, PartialEq, Eq, Structural)]
pub enum FindingStatus {
    Open,
    Acknowledged,
    Muted,
    Resolved,
}

impl FindingStatus {
    /// The text that stands for the value in the database.
    pub open spec fn text(self) -> Seq<char> {
        match self {
            FindingStatus::Open => "open"@,
            FindingStatus::Acknowledged => "acknowledged"@,
            FindingStatus::Muted => "muted"@,
            FindingStatus::Resolved => "resolved"@,
        }
    }

    /// The value that a text stands for.
    pub open spec fn named(s: Seq<char>) -> Option<FindingStatus> {
        if s == "open"@ {
            Some(FindingStatus::Open)
        } else if s == "acknowledged"@ {
            Some(FindingStatus::Acknowledged)
        } else if s == "muted"@ {
            Some(FindingStatus::Muted)
        } else if s == "resolved"@ {
            Some(FindingStatus::Resolved)
        } else {
            None
        }
    }

    /// Every value is found again by its text.
    pub proof fn lemma_text_names_value(self)
        ensures
            FindingStatus::named(self.text()) == Some(self),
    {
        reveal_strlit("open");
        reveal_strlit("acknowledged");
        reveal_strlit("muted");
        reveal_strlit("resolved");
        assert("open"@.len() == 4);
        assert("acknowledged"@.len() == 12);
        assert("muted"@.len() == 5);
        assert("resolved"@.len() == 8);
    }

    /// Each value is stored under its own name and under no other, and a text stands for
    /// nothing but the value that is stored under it.
    pub proof fn lemma_stored_names(self, s: Seq<char>)
        ensures
            self.text() == "open"@ <==> self is Open,
            self.text() == "acknowledged"@ <==> self is Acknowledged,
            self.text() == "muted"@ <==> self is Muted,
            self.text() == "resolved"@ <==> self is Resolved,
            FindingStatus::named(s) matches Some(v) ==> v.text() == s,
    {
        FindingStatus::Open.lemma_text_names_value();
        FindingStatus::Acknowledged.lemma_text_names_value();
        FindingStatus::Muted.lemma_text_names_value();
        FindingStatus::Resolved.lemma_text_names_value();
        self.lemma_text_names_value();
    }

    /// The text that stands for the value in the database.
    pub fn as_str(&self) -> (r: &'static str)
        ensures
            r@ == self.text(),
            FindingStatus::named(r@) == Some(*self),
    {
        proof {
            self.lemma_text_names_value();
        }
        match self {
            FindingStatus::Open => "open",
            FindingStatus::Acknowledged => "acknowledged",
            FindingStatus::Muted => "muted",
            FindingStatus::Resolved => "resolved",
        }
    }

    /// The value that a text stands for, where it stands for one.
    pub fn parse_str(s: &str) -> (r: Option<FindingStatus>)
        ensures
            r == FindingStatus::named(s@),
    {
        if text_eq(s, "open") {
            Some(FindingStatus::Open)
        } else if text_eq(s, "acknowledged") {
            Some(FindingStatus::Acknowledged)
        } else if text_eq(s, "muted") {
            Some(FindingStatus::Muted)
        } else if text_eq(s, "resolved") {
            Some(FindingStatus::Resolved)
        } else {
            None
        }
    }
}

/// Where an audit finding comes from.
#[derive(Clone, Copy, Debug, PartialEq, Eq, Structural)]
pub enum FindingSource {
    Script,
    Agent,
}

impl FindingSource {
    /// The text that stands for the value in the database.
    pub open spec fn text(self) -> Seq<char> {
        match self {
            FindingSource::Script => "script"@,
            FindingSource::Agent => "agent"@,
        }
    }

    /// The value that a text stands for.
    pub open spec fn named(s: Seq<char>) -> Option<FindingSource> {
        if s == "script"@ {
            Some(FindingSource::Script)
        } else if s == "agent"@ {
            Some(FindingSource::Agent)
        } else {
            None
        }
    }

    /// Every value is found again by its text.
    pub proof fn lemma_text_names_value(self)
        ensures
            FindingSource::named(self.text()) == Some(self),
    {
        reveal_strlit("script");
        reveal_strlit("agent");
        assert("script"@.len() == 6);
        assert("agent"@.len() == 5);
    }

    /// Each value is stored under its own name and under no other, and a text stands for
    /// nothing but the value that is stored under it.
    pub proof fn lemma_stored_names(self, s: Seq<char>)
        ensures
            self.text() == "script"@ <==> self is Script,
            self.text() == "agent"@ <==> self is Agent,
            FindingSource::named(s) matches Some(v) ==> v.text() == s,
    {
        FindingSource::Script.lemma_text_names_value();
        FindingSource::Agent.lemma_text_names_value();
        self.lemma_text_names_value();
    }

    /// The text that stands for the value in the database.
    pub fn as_str(&self) -> (r: &'static str)
        ensures
            r@ == self.text(),
            FindingSource::named(r@) == Some(*self),
    {
        proof {
            self.lemma_text_names_value();
        }
        match self {
            FindingSource::Script => "script",
            FindingSource::Agent => "agent",
        }
    }

    /// The value that a text stands for, where it stands for one.
    pub fn parse_str(s: &str) -> (r: Option<FindingSource>)
        ensures
            r == FindingSource::named(s@),
    {
        if text_eq(s, "script") {
            Some(FindingSource::Script)
        } else if text_eq(s, "agent") {
            Some(FindingSource::Agent)
        } else {
            None
        }
    }
}

/// What an audit finding is about.
#[derive(Clone, Debug, PartialEq, Eq)]
pub struct FindingEntity {
    pub plan_id: Option<PlanId>,
    pub task_id: Option<TaskId>,
    pub document_id: Option<DocumentId>,
    pub artifact_id: Option<ArtifactId>,
}

/// One sighting of an audit finding.
#[derive(Clone, Debug, PartialEq, Eq)]
pub struct NewFinding {
    pub project_id: ProjectId,
    pub entity: FindingEntity,
    pub check_key: String,
    pub category: String,
    pub severity: FindingSeverity,
    pub title: String,
    pub detail: String,
    pub remediation: String,
    pub source: FindingSource,
}

/// An audit finding.
#[derive(Clone, Debug, PartialEq, Eq)]
pub struct AuditFinding {
    pub id: AuditFindingId,
    pub project_id: ProjectId,
    pub entity: FindingEntity,
    pub check_key: String,
    pub category: String,
    pub severity: FindingSeverity,
    pub title: String,
    pub detail: String,
    pub remediation: String,
    pub source: FindingSource,
    pub status: FindingStatus,
    pub first_seen_at: Timestamp,
    pub last_seen_at: Timestamp,
    pub resolved_by: Option<ActorRef>,
    pub resolved_at: Option<Timestamp>,
}

/// What a record of evidence shows.
#[derive(Clone, Copy, Debug, PartialEq, Eq, Structural)]
pub enum EvidenceKind {
    DocumentReadAck,
    ImpactAssessment,
    RiskCheckCompleted,
    CompletionNote,
}

impl EvidenceKind {
    /// The text that stands for the value in the database.
    pub open spec fn text(self) -> Seq<char> {
        match self {
            EvidenceKind::DocumentReadAck => "document_read_ack"@,
            EvidenceKind::ImpactAssessment => "impact_assessment"@,
            EvidenceKind::RiskCheckCompleted => "risk_check_completed"@,
            EvidenceKind::CompletionNote => "completion_note"@,
        }
    }

    /// The value that a text stands for.
    pub open spec fn named(s: Seq<char>) -> Option<EvidenceKind> {
        if s == "document_read_ack"@ {
            Some(EvidenceKind::DocumentReadAck)
        } else if s == "impact_assessment"@ {
            Some(EvidenceKind::ImpactAssessment)
        } else if s == "risk_check_completed"@ {
            Some(EvidenceKind::RiskCheckCompleted)
        } else if s == "completion_note"@ {
            Some(EvidenceKind::CompletionNote)
        } else {
            None
        }
    }

    /// Every value is found again by its text.
    pub proof fn lemma_text_names_value(self)
        ensures
            EvidenceKind::named(self.text()) == Some(self),
    {
        reveal_strlit("document_read_ack");
        reveal_strlit("impact_assessment");
        reveal_strlit("risk_check_completed");
        reveal_strlit("completion_note");
        assert("document_read_ack"@.len() == 17);
        assert("impact_assessment"@.len() == 17);
        assert("risk_check_completed"@.len() == 20);
        assert("completion_note"@.len() == 15);
        assert("document_read_ack"@[0] != "impact_assessment"@[0]);
    }

    /// Each value is stored under its own name and under no other, and a text stands for
    /// nothing but the value that is stored under it.
    pub proof fn lemma_stored_names(self, s: Seq<char>)
        ensures
            self.text() == "document_read_ack"@ <==> self is DocumentReadAck,
            self.text() == "impact_assessment"@ <==> self is ImpactAssessment,
            self.text() == "risk_check_completed"@ <==> self is RiskCheckCompleted,
            self.text() == "completion_note"@ <==> self is CompletionNote,
            EvidenceKind::named(s) matches Some(v) ==> v.text() == s,
    {
        EvidenceKind::DocumentReadAck.lemma_text_names_value();
        EvidenceKind::ImpactAssessment.lemma_text_names_value();
        EvidenceKind::RiskCheckCompleted.lemma_text_names_value();
        EvidenceKind::CompletionNote.lemma_text_names_value();
        self.lemma_text_names_value();
    }

    /// The text that stands for the value in the database.
    pub fn as_str(&self) -> (r: &'static str)
        ensures
            r@ == self.text(),
            EvidenceKind::named(r@) == Some(*self),
    {
        proof {
            self.lemma_text_names_value();
        }
        match self {
            EvidenceKind::DocumentReadAck => "document_read_ack",
            EvidenceKind::ImpactAssessment => "impact_assessment",
            EvidenceKind::RiskCheckCompleted => "risk_check_completed",
            EvidenceKind::CompletionNote => "completion_note",
        }
    }

    /// The value that a text stands for, where it stands for one.
    pub fn parse_str(s: &str) -> (r: Option<EvidenceKind>)
        ensures
            r == EvidenceKind::named(s@),
    {
        if text_eq(s, "document_read_ack") {
            Some(EvidenceKind::DocumentReadAck)
        } else if text_eq(s, "impact_assessment") {
            Some(EvidenceKind::ImpactAssessment)
        } else if text_eq(s, "risk_check_completed") {
            Some(EvidenceKind::RiskCheckCompleted)
        } else if text_eq(s, "completion_note") {
            Some(EvidenceKind::CompletionNote)
        } else {
            None
        }
    }
}

/// How far out of the scope chain a kind of evidence may be read from.
#[derive(Clone, Copy, Debug, PartialEq, Eq, Structural)]
pub enum EvidenceReach {
    Tenant,
    Project,
    Plan,
    SelfOnly,
}

impl EvidenceKind {
    /// How far out evidence of this kind counts: a document that was read is read for
    /// the whole tenant, an assessment covers a plan, and what was checked or noted on
    /// a unit of work stands for that unit alone.
    pub open spec fn reach_of(self) -> EvidenceReach {
        match self {
            EvidenceKind::DocumentReadAck => EvidenceReach::Tenant,
            EvidenceKind::ImpactAssessment => EvidenceReach::Plan,
            EvidenceKind::RiskCheckCompleted => EvidenceReach::SelfOnly,
            EvidenceKind::CompletionNote => EvidenceReach::SelfOnly,
        }
    }

    /// How far out evidence of this kind counts.
    pub fn reach(&self) -> (r: EvidenceReach)
        ensures
            r == self.reach_of(),
    {
        match self {
            EvidenceKind::DocumentReadAck => EvidenceReach::Tenant,
            EvidenceKind::ImpactAssessment => EvidenceReach::Plan,
            EvidenceKind::RiskCheckCompleted => EvidenceReach::SelfOnly,
            EvidenceKind::CompletionNote => EvidenceReach::SelfOnly,
        }
    }
}

/// What a rule or a record of evidence is attached to.
#[derive(Clone, Copy, Debug, PartialEq, Eq, Structural)]
#[allow(inconsistent_fields)]
pub enum RuleScope {
    Tenant,
    Project { id: ProjectId },
    Plan { id: PlanId },
    Task { id: TaskId },
}

impl RuleScope {
    /// The text that stands for the kind of scope.
    pub open spec fn kind_text(self) -> Seq<char> {
        match self {
            RuleScope::Tenant => "tenant"@,
            RuleScope::Project { .. } => "project"@,
            RuleScope::Plan { .. } => "plan"@,
            RuleScope::Task { .. } => "task"@,
        }
    }

    /// The text of the identifier of what the scope names.
    pub open spec fn id_text_of(self) -> Option<Seq<char>> {
        match self {
            RuleScope::Tenant => None,
            RuleScope::Project { id } => Some(crate::ids::id_text(id)),
            RuleScope::Plan { id } => Some(crate::ids::id_text(id)),
            RuleScope::Task { id } => Some(crate::ids::id_text(id)),
        }
    }

    /// The text that stands for the kind of scope.
    pub fn kind(&self) -> (r: &'static str)
        ensures
            r@ == self.kind_text(),
    {
        match self {
            RuleScope::Tenant => "tenant",
            RuleScope::Project { .. } => "project",
            RuleScope::Plan { .. } => "plan",
            RuleScope::Task { .. } => "task",
        }
    }

    /// The text of the identifier of what the scope names; none for the tenant.
    pub fn id_string(&self) -> (r: Option<String>)
        ensures
            crate::text::opt_text(r) == self.id_text_of(),
            *self matches RuleScope::Project { id } ==> crate::ids::id_parsed::<ProjectId>(
                r->Some_0@,
            ) == Ok::<ProjectId, Seq<char>>(id),
            *self matches RuleScope::Plan { id } ==> crate::ids::id_parsed::<PlanId>(r->Some_0@)
                == Ok::<PlanId, Seq<char>>(id),
            *self matches RuleScope::Task { id } ==> crate::ids::id_parsed::<TaskId>(r->Some_0@)
                == Ok::<TaskId, Seq<char>>(id),
    {
        match self {
            RuleScope::Tenant => None,
            RuleScope::Project { id } => Some(crate::ids::print_id(id)),
            RuleScope::Plan { id } => Some(crate::ids::print_id(id)),
            RuleScope::Task { id } => Some(crate::ids::print_id(id)),
        }
    }
}

/// A record of evidence.
#[derive(Clone, Debug, PartialEq, Eq)]
pub struct Evidence {
    pub id: EvidenceId,
    pub kind: EvidenceKind,
    pub scope: RuleScope,
    pub target: Option<String>,
    pub doc_version: Option<String>,
    pub actor: ActorRef,
    pub reason: String,
    pub payload: Json,
    pub project_id: Option<ProjectId>,
    pub plan_id: Option<PlanId>,
    pub task_id: Option<TaskId>,
    pub run_id: Option<RunId>,
    pub artifact_id: Option<ArtifactId>,
    pub rule_id: Option<RuleId>,
    pub recorded_at: Timestamp,
    pub superseded_by: Option<EvidenceId>,
}

/// How strictly a rule is enforced.
#[derive(Clone, Copy, Debug, PartialEq, Eq, Structural)]
pub enum RuleMode {
    Off,
    Recommendation,
    Required,
}

impl RuleMode {
    /// The text that stands for the value in the database.
    pub open spec fn text(self) -> Seq<char> {
        match self {
            RuleMode::Off => "off"@,
            RuleMode::Recommendation => "recommendation"@,
            RuleMode::Required => "required"@,
        }
    }

    /// The value that a text stands for.
    pub open spec fn named(s: Seq<char>) -> Option<RuleMode> {
        if s == "off"@ {
            Some(RuleMode::Off)
        } else if s == "recommendation"@ {
            Some(RuleMode::Recommendation)
        } else if s == "required"@ {
            Some(RuleMode::Required)
        } else {
            None
        }
    }

    /// Every value is found again by its text.
    pub proof fn lemma_text_names_value(self)
        ensures
            RuleMode::named(self.text()) == Some(self),
    {
        reveal_strlit("off");
        reveal_strlit("recommendation");
        reveal_strlit("required");
        assert("off"@.len() == 3);
        assert("recommendation"@.len() == 14);
        assert("required"@.len() == 8);
    }

    /// Each value is stored under its own name and under no other, and a text stands for
    /// nothing but the value that is stored under it.
    pub proof fn lemma_stored_names(self, s: Seq<char>)
        ensures
            self.text() == "off"@ <==> self is Off,
            self.text() == "recommendation"@ <==> self is Recommendation,
            self.text() == "required"@ <==> self is Required,
            RuleMode::named(s) matches Some(v) ==> v.text() == s,
    {
        RuleMode::Off.lemma_text_names_value();
        RuleMode::Recommendation.lemma_text_names_value();
        RuleMode::Required.lemma_text_names_value();
        self.lemma_text_names_value();
    }

    /// The text that stands for the value in the database.
    pub fn as_str(&self) -> (r: &'static str)
        ensures
            r@ == self.text(),
            RuleMode::named(r@) == Some(*self),
    {
        proof {
            self.lemma_text_names_value();
        }
        match self {
            RuleMode::Off => "off",
            RuleMode::Recommendation => "recommendation",
            RuleMode::Required => "required",
        }
    }

    /// The value that a text stands for, where it stands for one.
    pub fn parse(s: &str) -> (r: Option<RuleMode>)
        ensures
            r == RuleMode::named(s@),
    {
        if text_eq(s, "off") {
            Some(RuleMode::Off)
        } else if text_eq(s, "recommendation") {
            Some(RuleMode::Recommendation)
        } else if text_eq(s, "required") {
            Some(RuleMode::Required)
        } else {
            None
        }
    }
}

/// The moment at which a rule is evaluated.
#[derive(Clone, Copy, Debug, PartialEq, Eq, Structural)]
pub enum RuleTrigger {
    ProjectCreated,
    PlanCreated,
    PlanBeforeApprove,
    TaskCreated,
    TaskBeforeStart,
    TaskBeforeComplete,
    RunBeforeExecute,
    RunBeforeComplete,
}

impl RuleTrigger {
    /// The text that stands for the value in the database.
    pub open spec fn text(self) -> Seq<char> {
        match self {
            RuleTrigger::ProjectCreated => "project.created"@,
            RuleTrigger::PlanCreated => "plan.created"@,
            RuleTrigger::PlanBeforeApprove => "plan.before_approve"@,
            RuleTrigger::TaskCreated => "task.created"@,
            RuleTrigger::TaskBeforeStart => "task.before_start"@,
            RuleTrigger::TaskBeforeComplete => "task.before_complete"@,
            RuleTrigger::RunBeforeExecute => "run.before_execute"@,
            RuleTrigger::RunBeforeComplete => "run.before_complete"@,
        }
    }

    /// The value that a text stands for.
    pub open spec fn named(s: Seq<char>) -> Option<RuleTrigger> {
        if s == "project.created"@ {
            Some(RuleTrigger::ProjectCreated)
        } else if s == "plan.created"@ {
            Some(RuleTrigger::PlanCreated)
        } else if s == "plan.before_approve"@ {
            Some(RuleTrigger::PlanBeforeApprove)
        } else if s == "task.created"@ {
            Some(RuleTrigger::TaskCreated)
        } else if s == "task.before_start"@ {
            Some(RuleTrigger::TaskBeforeStart)
        } else if s == "task.before_complete"@ {
            Some(RuleTrigger::TaskBeforeComplete)
        } else if s == "run.before_execute"@ {
            Some(RuleTrigger::RunBeforeExecute)
        } else if s == "run.before_complete"@ {
            Some(RuleTrigger::RunBeforeComplete)
        } else {
            None
        }
    }

    /// Every value is found again by its text.
    pub proof fn lemma_text_names_value(self)
        ensures
            RuleTrigger::named(self.text()) == Some(self),
    {
        reveal_strlit("project.created");
        reveal_strlit("plan.created");
        reveal_strlit("plan.before_approve");
        reveal_strlit("task.created");
        reveal_strlit("task.before_start");
        reveal_strlit("task.before_complete");
        reveal_strlit("run.before_execute");
        reveal_strlit("run.before_complete");
        assert("project.created"@.len() == 15);
        assert("plan.created"@.len() == 12);
        assert("plan.before_approve"@.len() == 19);
        assert("task.created"@.len() == 12);
        assert("task.before_start"@.len() == 17);
        assert("task.before_complete"@.len() == 20);
        assert("run.before_execute"@.len() == 18);
        assert("run.before_complete"@.len() == 19);
        assert("plan.created"@[0] != "task.created"@[0]);
        assert("plan.before_approve"@[0] != "run.before_complete"@[0]);
    }

    /// Each value is stored under its own name and under no other, and a text stands for
    /// nothing but the value that is stored under it.
    pub proof fn lemma_stored_names(self, s: Seq<char>)
        ensures
            self.text() == "project.created"@ <==> self is ProjectCreated,
            self.text() == "plan.created"@ <==> self is PlanCreated,
            self.text() == "plan.before_approve"@ <==> self is PlanBeforeApprove,
            self.text() == "task.created"@ <==> self is TaskCreated,
            self.text() == "task.before_start"@ <==> self is TaskBeforeStart,
            self.text() == "task.before_complete"@ <==> self is TaskBeforeComplete,
            self.text() == "run.before_execute"@ <==> self is RunBeforeExecute,
            self.text() == "run.before_complete"@ <==> self is RunBeforeComplete,
            RuleTrigger::named(s) matches Some(v) ==> v.text() == s,
    {
        RuleTrigger::ProjectCreated.lemma_text_names_value();
        RuleTrigger::PlanCreated.lemma_text_names_value();
        RuleTrigger::PlanBeforeApprove.lemma_text_names_value();
        RuleTrigger::TaskCreated.lemma_text_names_value();
        RuleTrigger::TaskBeforeStart.lemma_text_names_value();
        RuleTrigger::TaskBeforeComplete.lemma_text_names_value();
        RuleTrigger::RunBeforeExecute.lemma_text_names_value();
        RuleTrigger::RunBeforeComplete.lemma_text_names_value();
        self.lemma_text_names_value();
    }

    /// The text that stands for the value in the database.
    pub fn as_str(&self) -> (r: &'static str)
        ensures
            r@ == self.text(),
            RuleTrigger::named(r@) == Some(*self),
    {
        proof {
            self.lemma_text_names_value();
        }
        match self {
            RuleTrigger::ProjectCreated => "project.created",
            RuleTrigger::PlanCreated => "plan.created",
            RuleTrigger::PlanBeforeApprove => "plan.before_approve",
            RuleTrigger::TaskCreated => "task.created",
            RuleTrigger::TaskBeforeStart => "task.before_start",
            RuleTrigger::TaskBeforeComplete => "task.before_complete",
            RuleTrigger::RunBeforeExecute => "run.before_execute",
            RuleTrigger::RunBeforeComplete => "run.before_complete",
        }
    }

    /// The value that a text stands for, where it stands for one.
    pub fn parse(s: &str) -> (r: Option<RuleTrigger>)
        ensures
            r == RuleTrigger::named(s@),
    {
        if text_eq(s, "project.created") {
            Some(RuleTrigger::ProjectCreated)
        } else if text_eq(s, "plan.created") {
            Some(RuleTrigger::PlanCreated)
        } else if text_eq(s, "plan.before_approve") {
            Some(RuleTrigger::PlanBeforeApprove)
        } else if text_eq(s, "task.created") {
            Some(RuleTrigger::TaskCreated)
        } else if text_eq(s, "task.before_start") {
            Some(RuleTrigger::TaskBeforeStart)
        } else if text_eq(s, "task.before_complete") {
            Some(RuleTrigger::TaskBeforeComplete)
        } else if text_eq(s, "run.before_execute") {
            Some(RuleTrigger::RunBeforeExecute)
        } else if text_eq(s, "run.before_complete") {
            Some(RuleTrigger::RunBeforeComplete)
        } else {
            None
        }
    }
}

impl RuleMode {
    /// The rank of the mode: a higher one is stricter.
    pub open spec fn strictness_of(self) -> int {
        match self {
            RuleMode::Off => 0,
            RuleMode::Recommendation => 1,
            RuleMode::Required => 2,
        }
    }

    /// The rank of the mode: a higher one is stricter.
    pub fn strictness(&self) -> (r: u8)
        ensures
            r == self.strictness_of(),
    {
        match self {
            RuleMode::Off => 0,
            RuleMode::Recommendation => 1,
            RuleMode::Required => 2,
        }
    }
}

/// When a rule applies, kept as its JSON text.
#[derive(Clone, Debug, PartialEq, Eq)]
pub struct Condition {
    pub json: String,
}

/// What a rule asks for, kept as its JSON text.
#[derive(Clone, Debug, PartialEq, Eq)]
pub struct Requirement {
    pub json: String,
}

/// A lifecycle rule.
#[derive(Clone, Debug, PartialEq, Eq)]
pub struct Rule {
    pub id: RuleId,
    pub rule_key: String,
    pub title: String,
    pub scope: RuleScope,
    pub trigger: RuleTrigger,
    pub condition: Option<Condition>,
    pub requirement: Requirement,
    pub mode: RuleMode,
    pub message: String,
    pub override_allowed: bool,
    pub enabled: bool,
    pub created_at: Timestamp,
    pub updated_at: Timestamp,
}

/// The state of a handoff contract.
#[derive(Clone, Copy, Debug, PartialEq, Eq, Structural)]
pub enum HandoffStatus {
    Open,
    Accepted,
    Rejected,
}

impl HandoffStatus {
    /// The text that stands for the value in the database.
    pub open spec fn text(self) -> Seq<char> {
        match self {
            HandoffStatus::Open => "open"@,
            HandoffStatus::Accepted => "accepted"@,
            HandoffStatus::Rejected => "rejected"@,
        }
    }

    /// The value that a text stands for.
    pub open spec fn named(s: Seq<char>) -> Option<HandoffStatus> {
        if s == "open"@ {
            Some(HandoffStatus::Open)
        } else if s == "accepted"@ {
            Some(HandoffStatus::Accepted)
        } else if s == "rejected"@ {
            Some(HandoffStatus::Rejected)
        } else {
            None
        }
    }

    /// Every value is found again by its text.
    pub proof fn lemma_text_names_value(self)
        ensures
            HandoffStatus::named(self.text()) == Some(self),
    {
        reveal_strlit("open");
        reveal_strlit("accepted");
        reveal_strlit("rejected");
        assert("open"@.len() == 4);
        assert("accepted"@.len() == 8);
        assert("rejected"@.len() == 8);
        assert("accepted"@[0] != "rejected"@[0]);
    }

    /// Each value is stored under its own name and under no other, and a text stands for
    /// nothing but the value that is stored under it.
    pub proof fn lemma_stored_names(self, s: Seq<char>)
        ensures
            self.text() == "open"@ <==> self is Open,
            self.text() == "accepted"@ <==> self is Accepted,
            self.text() == "rejected"@ <==> self is Rejected,
            HandoffStatus::named(s) matches Some(v) ==> v.text() == s,
    {
        HandoffStatus::Open.lemma_text_names_value();
        HandoffStatus::Accepted.lemma_text_names_value();
        HandoffStatus::Rejected.lemma_text_names_value();
        self.lemma_text_names_value();
    }

    /// The text that stands for the value in the database.
    pub fn as_str(&self) -> (r: &'static str)
        ensures
            r@ == self.text(),
            HandoffStatus::named(r@) == Some(*self),
    {
        proof {
            self.lemma_text_names_value();
        }
        match self {
            HandoffStatus::Open => "open",
            HandoffStatus::Accepted => "accepted",
            HandoffStatus::Rejected => "rejected",
        }
    }

    /// The value that a text stands for, where it stands for one.
    pub fn parse(s: &str) -> (r: Option<HandoffStatus>)
        ensures
            r == HandoffStatus::named(s@),
    {
        if text_eq(s, "open") {
            Some(HandoffStatus::Open)
        } else if text_eq(s, "accepted") {
            Some(HandoffStatus::Accepted)
        } else if text_eq(s, "rejected") {
            Some(HandoffStatus::Rejected)
        } else {
            None
        }
    }
}

/// What one work unit owes the next one.
#[derive(Clone, Debug, PartialEq, Eq)]
pub struct HandoffContract {
    pub id: HandoffId,
    pub from_work_unit_id: WorkUnitId,
    pub to_work_unit_id: WorkUnitId,
    pub required_artifact_ids: Vec<String>,
    pub required_state: Option<String>,
    pub checklist: Vec<String>,
    pub owner_agent_id: Option<AgentId>,
    pub accepted_by_agent_id: Option<AgentId>,
    pub status: HandoffStatus,
    pub notes: Option<String>,
    pub required_changes: Vec<String>,
    pub created_at: Timestamp,
    pub updated_at: Timestamp,
}

/// The state of a session's step.
#[derive(Clone, Copy, Debug, PartialEq, Eq, Structural)]
pub enum SessionStepStatus {
    Pending,
    InProgress,
    Completed,
}

impl SessionStepStatus {
    /// The text that stands for the value in the database.
    pub open spec fn text(self) -> Seq<char> {
        match self {
            SessionStepStatus::Pending => "pending"@,
            SessionStepStatus::InProgress => "in_progress"@,
            SessionStepStatus::Completed => "completed"@,
        }
    }

    /// The value that a text stands for.
    pub open spec fn named(s: Seq<char>) -> Option<SessionStepStatus> {
        if s == "pending"@ {
            Some(SessionStepStatus::Pending)
        } else if s == "in_progress"@ {
            Some(SessionStepStatus::InProgress)
        } else if s == "completed"@ {
            Some(SessionStepStatus::Completed)
        } else {
            None
        }
    }

    /// Every value is found again by its text.
    pub proof fn lemma_text_names_value(self)
        ensures
            SessionStepStatus::named(self.text()) == Some(self),
    {
        reveal_strlit("pending");
        reveal_strlit("in_progress");
        reveal_strlit("completed");
        assert("pending"@.len() == 7);
        assert("in_progress"@.len() == 11);
        assert("completed"@.len() == 9);
    }

    /// Each value is stored under its own name and under no other, and a text stands for
    /// nothing but the value that is stored under it.
    pub proof fn lemma_stored_names(self, s: Seq<char>)
        ensures
            self.text() == "pending"@ <==> self is Pending,
            self.text() == "in_progress"@ <==> self is InProgress,
            self.text() == "completed"@ <==> self is Completed,
            SessionStepStatus::named(s) matches Some(v) ==> v.text() == s,
    {
        SessionStepStatus::Pending.lemma_text_names_value();
        SessionStepStatus::InProgress.lemma_text_names_value();
        SessionStepStatus::Completed.lemma_text_names_value();
        self.lemma_text_names_value();
    }

    /// The text that stands for the value in the database.
    pub fn as_str(&self) -> (r: &'static str)
        ensures
            r@ == self.text(),
            SessionStepStatus::named(r@) == Some(*self),
    {
        proof {
            self.lemma_text_names_value();
        }
        match self {
            SessionStepStatus::Pending => "pending",
            SessionStepStatus::InProgress => "in_progress",
            SessionStepStatus::Completed => "completed",
        }
    }

    /// The value that a text stands for, where it stands for one.
    pub fn parse(s: &str) -> (r: Option<SessionStepStatus>)
        ensures
            r == SessionStepStatus::named(s@),
    {
        if text_eq(s, "pending") {
            Some(SessionStepStatus::Pending)
        } else if text_eq(s, "in_progress") {
            Some(SessionStepStatus::InProgress)
        } else if text_eq(s, "completed") {
            Some(SessionStepStatus::Completed)
        } else {
            None
        }
    }
}

/// A step of an agent session's plan.
#[derive(Clone, Debug, PartialEq, Eq)]
pub struct AgentSessionPlanStep {
    pub content: String,
    pub status: SessionStepStatus,
}

/// An agent session.
#[derive(Clone, Debug, PartialEq, Eq)]
pub struct AgentSession {
    pub id: AgentSessionId,
    pub agent_id: AgentId,
    pub parent_agent_id: Option<AgentId>,
    pub started_at: Timestamp,
    pub ended_at: Option<Timestamp>,
    pub plan_steps: Vec<AgentSessionPlanStep>,
    pub metadata: Json,
}

/// What a session artifact is.
#[derive(Clone, Copy, Debug, PartialEq, Eq, Structural)]
pub enum SessionArtifactKind {
    File,
    Url,
    Diff,
}

impl SessionArtifactKind {
    /// The text that stands for the value in the database.
    pub open spec fn text(self) -> Seq<char> {
        match self {
            SessionArtifactKind::File => "file"@,
            SessionArtifactKind::Url => "url"@,
            SessionArtifactKind::Diff => "diff"@,
        }
    }

    /// The value that a text stands for.
    pub open spec fn named(s: Seq<char>) -> Option<SessionArtifactKind> {
        if s == "file"@ {
            Some(SessionArtifactKind::File)
        } else if s == "url"@ {
            Some(SessionArtifactKind::Url)
        } else if s == "diff"@ {
            Some(SessionArtifactKind::Diff)
        } else {
            None
        }
    }

    /// Every value is found again by its text.
    pub proof fn lemma_text_names_value(self)
        ensures
            SessionArtifactKind::named(self.text()) == Some(self),
    {
        reveal_strlit("file");
        reveal_strlit("url");
        reveal_strlit("diff");
        assert("file"@.len() == 4);
        assert("url"@.len() == 3);
        assert("diff"@.len() == 4);
        assert("file"@[0] != "diff"@[0]);
    }

    /// Each value is stored under its own name and under no other, and a text stands for
    /// nothing but the value that is stored under it.
    pub proof fn lemma_stored_names(self, s: Seq<char>)
        ensures
            self.text() == "file"@ <==> self is File,
            self.text() == "url"@ <==> self is Url,
            self.text() == "diff"@ <==> self is Diff,
            SessionArtifactKind::named(s) matches Some(v) ==> v.text() == s,
    {
        SessionArtifactKind::File.lemma_text_names_value();
        SessionArtifactKind::Url.lemma_text_names_value();
        SessionArtifactKind::Diff.lemma_text_names_value();
        self.lemma_text_names_value();
    }

    /// The text that stands for the value in the database.
    pub fn as_str(&self) -> (r: &'static str)
        ensures
            r@ == self.text(),
            SessionArtifactKind::named(r@) == Some(*self),
    {
        proof {
            self.lemma_text_names_value();
        }
        match self {
            SessionArtifactKind::File => "file",
            SessionArtifactKind::Url => "url",
            SessionArtifactKind::Diff => "diff",
        }
    }

    /// The value that a text stands for, where it stands for one.
    pub fn parse(s: &str) -> (r: Option<SessionArtifactKind>)
        ensures
            r == SessionArtifactKind::named(s@),
    {
        if text_eq(s, "file") {
            Some(SessionArtifactKind::File)
        } else if text_eq(s, "url") {
            Some(SessionArtifactKind::Url)
        } else if text_eq(s, "diff") {
            Some(SessionArtifactKind::Diff)
        } else {
            None
        }
    }
}

/// Something that an agent session produced.
#[derive(Clone, Debug, PartialEq, Eq)]
pub struct SessionArtifact {
    pub id: SessionArtifactId,
    pub session_id: AgentSessionId,
    pub kind: SessionArtifactKind,
    pub reference: String,
    pub metadata: Json,
    pub created_at: Timestamp,
}

/// A unit of work, kept as its JSON text.
#[derive(Clone, Debug, PartialEq, Eq)]
pub struct WorkUnit {
    pub id: WorkUnitId,
    pub json: String,
}

/// Which logs a project appends to on its own.
#[derive(Clone, Copy, Debug, PartialEq, Eq, Structural)]
pub struct AutoAppendSettings {
    pub interview: bool,
    pub human_log: bool,
}

impl Default for AutoAppendSettings {
    fn default() -> (r: AutoAppendSettings)
        ensures
            r.interview,
            r.human_log,
    {
        AutoAppendSettings { interview: true, human_log: true }
    }
}

/// Where a project takes its plans from, kept as its JSON text.
#[derive(Clone, Debug, PartialEq, Eq)]
pub struct IntakeSourcePolicy {
    pub json: String,
}

/// How hard a task looks to a model, and what to do about it.
#[derive(Clone, Debug, PartialEq, Eq)]
pub struct ComplexityHint {
    pub task_id: TaskId,
    pub score: u8,
    pub recommended_subtasks: u8,
    pub expansion_hint: String,
    pub reasoning: String,
    pub generated_at: Timestamp,
    pub batch_id: String,
}

/// A record's identity in another system.
#[derive(Clone, Debug, PartialEq, Eq)]
pub struct ExternalRef {
    pub tenant: String,
    pub kind: String,
    pub external_id: String,
    pub internal_id: String,
    pub created_at: Timestamp,
}

// ── laws ────────────────────────────────────────────────────────────────────

/// Evidence that a document was read counts from the whole tenant, an assessment of impact
/// from the plan, and any other evidence for the thing itself alone.
pub proof fn lemma_reach_of_evidence(kind: EvidenceKind)
    ensures
        kind.reach_of() == EvidenceReach::Tenant <==> kind is DocumentReadAck,
        kind.reach_of() == EvidenceReach::Plan <==> kind is ImpactAssessment,
        kind.reach_of() == EvidenceReach::SelfOnly <==> kind is RiskCheckCompleted
            || kind is CompletionNote,
{
}

/// A required rule is stricter than a recommended one, which is stricter than one that is
/// off.
pub proof fn lemma_required_is_strictest(off: RuleMode, recommended: RuleMode, required: RuleMode)
    requires
        off is Off,
        recommended is Recommendation,
        required is Required,
    ensures
        off.strictness_of() < recommended.strictness_of() < required.strictness_of(),
{
}

/// The kind of a scope names what the scope is about, and its identifier is that of what it
/// names; the tenant has none.
pub proof fn lemma_scope_names_what_it_is_about(
    scope: RuleScope,
    project: ProjectId,
    plan: PlanId,
    task: TaskId,
)
    ensures
        scope.kind_text() == "tenant"@ <==> scope is Tenant,
        scope.kind_text() == "project"@ <==> scope is Project,
        scope.kind_text() == "plan"@ <==> scope is Plan,
        scope.kind_text() == "task"@ <==> scope is Task,
        scope.id_text_of() is None <==> scope is Tenant,
        scope == (RuleScope::Project { id: project }) ==> scope.id_text_of() == Some(
            crate::ids::id_text(project),
        ),
        scope == (RuleScope::Plan { id: plan }) ==> scope.id_text_of() == Some(
            crate::ids::id_text(plan),
        ),
        scope == (RuleScope::Task { id: task }) ==> scope.id_text_of() == Some(
            crate::ids::id_text(task),
        ),
{
    reveal_strlit("tenant");
    reveal_strlit("project");
    reveal_strlit("plan");
    reveal_strlit("task");
    assert("tenant"@.len() == 6 && "project"@.len() == 7 && "plan"@.len() == 4 && "task"@.len()
        == 4);
    assert("plan"@[0] != "task"@[0]);
}

} // verus!
