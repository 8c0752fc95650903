//! Tasks, in the `tasks` table.
use vstd::prelude::*;

use crate::domain::{
    copy_opt_actor, opt_actor, Actor, NewTask, Priority, Status, Task, TriageState,
};
use crate::entity_version::{summary_of, update_summary, VersionDraft};
use crate::error::{CoreError, ErrorView};
use crate::events::{Event, EventEnvelope};
use crate::ids::{
    id_fault, id_text, id_value, opt_id_fault, opt_id_value, parse_id, parse_opt_id, print_id,
    EventId, ProjectId, TaskId,
};
use crate::json::{opt_model, Json};
use crate::query::{
    bind_ids, id_binds, sql_id, sql_int, sql_opt_actor, sql_opt_id, sql_opt_int, sql_opt_text,
    sql_opt_time, sql_text, sql_time, statement, statements, BoundView, Query,
};
use crate::rows::{
    column, column_fault, has_opt_actor, has_opt_int, has_opt_text, has_text, opt_parsed,
    opt_parsed_fault, opt_parsed_value, opt_signed, opt_u64, opt_unsigned, signed_opt, Column,
    Decode, Faults, Parsed,
};
use crate::text::{concat2, concat3, opt_text, placeholder_list, placeholders};
use crate::time::{
    opt_is_plain, opt_ts_fault, opt_ts_value, parse_opt_ts, parse_ts, ts_fault, ts_value, Timestamp,
};

verus! {

/// The task projection.
#[derive(Clone, Copy, Debug)]
pub struct TaskRepo;

pub const SELECT_TASKS: &'static str = "SELECT id, project_id, title, description, status, priority, \
     due_at, created_at, updated_at, started_at, completed_at, \
     created_by_json, completed_by_json, updated_by_json, updated_event_id, \
     updated_event_seq, source_event_id, triage_state \
     FROM tasks";

pub const ORDERED: &'static str = " ORDER BY created_at ASC";

pub const TASKS_BY_STATUS: &'static str = "SELECT id, project_id, title, description, status, priority, \
     due_at, created_at, updated_at, started_at, completed_at, \
     created_by_json, completed_by_json, updated_by_json, updated_event_id, \
     updated_event_seq, source_event_id, triage_state \
     FROM tasks \
     WHERE status = ? ORDER BY created_at ASC";

pub const GET_TASK: &'static str = "SELECT id, project_id, title, description, status, priority, \
     due_at, created_at, updated_at, started_at, completed_at, \
     created_by_json, completed_by_json, updated_by_json, updated_event_id, \
     updated_event_seq, source_event_id, triage_state \
     FROM tasks WHERE id = ?";

pub const TRIAGE_QUEUE: &'static str = "SELECT id, project_id, title, description, status, priority, \
     due_at, created_at, updated_at, started_at, completed_at, \
     created_by_json, completed_by_json, updated_by_json, updated_event_id, \
     updated_event_seq, source_event_id, triage_state \
     FROM tasks \
     WHERE project_id = ? AND triage_state = 'pending' \
     ORDER BY created_at ASC";

pub const SET_TRIAGE_STATE: &'static str = "UPDATE tasks SET triage_state = ?, updated_at = ? WHERE id = ?";

pub const INSERT_DUE_NOTIFICATION: &'static str = "INSERT OR REPLACE INTO task_due_notifications \
     (task_id, due_at, notified_at) VALUES (?, ?, ?)";

pub const DELETE_TASK: &'static str = "DELETE FROM tasks WHERE id = ?";

pub const DELETE_DUE_NOTIFICATIONS: &'static str = "DELETE FROM task_due_notifications WHERE task_id = ?";

pub const DUE_UNNOTIFIED: &'static str = "SELECT t.id, t.due_at FROM tasks t \
     WHERE t.due_at IS NOT NULL \
     AND t.due_at < ? \
     AND t.status IN ('inbox', 'todo', 'in_progress', 'in_review') \
     AND NOT EXISTS (\
     SELECT 1 FROM task_due_notifications n \
     WHERE n.task_id = t.id AND n.due_at = t.due_at\
     ) \
     ORDER BY t.due_at ASC LIMIT ?";

pub const UPSERT_TASK: &'static str = "INSERT OR REPLACE INTO tasks \
     (id, project_id, title, description, status, priority, due_at, \
     created_at, updated_at, started_at, completed_at, \
     created_by_json, completed_by_json, updated_by_json, updated_event_id, \
     updated_event_seq, source_event_id, triage_state) \
     VALUES (?, ?, ?, ?, ?, ?, ?, ?, ?, ?, ?, ?, ?, ?, ?, ?, ?, ?)";

/// Why a text is no task status.
pub open spec fn status_fault(s: Seq<char>) -> Option<ErrorView> {
    if Status::named(s) is Some {
        None
    } else {
        Some(ErrorView::Serde("unknown status: "@ + s))
    }
}

/// Reads a task status.
pub fn parse_status(s: &str) -> (r: Result<Status, CoreError>)
    ensures
        match status_fault(s@) {
            Some(e) => r is Err && r->Err_0@ == e,
            None => r is Ok && Some(r->Ok_0) == Status::named(s@),
        },
{
    match Status::parse(s) {
        Some(v) => Ok(v),
        None => Err(CoreError::Serde(concat2("unknown status: ", s))),
    }
}

/// Why a text is no priority.
pub open spec fn priority_fault(s: Seq<char>) -> Option<ErrorView> {
    if Priority::named(s) is Some {
        None
    } else {
        Some(ErrorView::Serde("unknown priority: "@ + s))
    }
}

/// Reads a priority.
pub fn parse_priority(s: &str) -> (r: Result<Priority, CoreError>)
    ensures
        match priority_fault(s@) {
            Some(e) => r is Err && r->Err_0@ == e,
            None => r is Ok && Some(r->Ok_0) == Priority::named(s@),
        },
{
    match Priority::parse(s) {
        Some(v) => Ok(v),
        None => Err(CoreError::Serde(concat2("unknown priority: ", s))),
    }
}

/// Why a text is no triage state.
pub open spec fn triage_state_fault(s: Seq<char>) -> Option<ErrorView> {
    if TriageState::named(s) is Some {
        None
    } else {
        Some(ErrorView::Serde("unknown triage_state: "@ + s))
    }
}

/// Reads a triage state.
pub fn parse_triage_state(s: &str) -> (r: Result<TriageState, CoreError>)
    ensures
        match triage_state_fault(s@) {
            Some(e) => r is Err && r->Err_0@ == e,
            None => r is Ok && Some(r->Ok_0) == TriageState::named(s@),
        },
{
    match TriageState::parse(s) {
        Some(v) => Ok(v),
        None => Err(CoreError::Serde(concat2("unknown triage_state: ", s))),
    }
}

/// Why an optional text is no optional triage state.
pub open spec fn opt_triage_state_fault(s: Option<String>) -> Option<ErrorView> {
    match s {
        Some(s) => triage_state_fault(s@),
        None => None,
    }
}

/// The triage state that an optional text stands for.
pub open spec fn opt_triage_state(s: Option<String>) -> Option<TriageState> {
    match s {
        Some(s) => TriageState::named(s@),
        None => None,
    }
}

fn parse_opt_triage_state(s: &Option<String>) -> (r: Result<Option<TriageState>, CoreError>)
    ensures
        match opt_triage_state_fault(*s) {
            Some(e) => r is Err && r->Err_0@ == e,
            None => r is Ok && r->Ok_0 == opt_triage_state(*s),
        },
{
    match s {
        Some(s) => match parse_triage_state(s.as_str()) {
            Ok(v) => Ok(Some(v)),
            Err(e) => Err(e),
        },
        None => Ok(None),
    }
}

/// The text of an optional triage state.
pub open spec fn opt_triage_state_text(v: Option<TriageState>) -> Option<Seq<char>> {
    match v {
        Some(v) => Some(v.text()),
        None => None,
    }
}

fn triage_state_text(v: &Option<TriageState>) -> (r: Option<String>)
    ensures
        opt_text(r) == opt_triage_state_text(*v),
        *v matches Some(v) ==> TriageState::named(v.text()) == Some(v),
{
    match v {
        Some(v) => Some(v.as_str().to_owned()),
        None => None,
    }
}

/// A row of the `tasks` table.
#[derive(Debug, PartialEq, Eq)]
pub struct TaskRow {
    pub id: Column<String>,
    pub project_id: Column<Option<String>>,
    pub title: Column<String>,
    pub description: Column<String>,
    pub status: Column<String>,
    pub priority: Column<String>,
    pub due_at: Column<Option<String>>,
    pub created_at: Column<String>,
    pub updated_at: Column<String>,
    pub started_at: Column<Option<String>>,
    pub completed_at: Column<Option<String>>,
    pub created_by_json: Column<Option<Parsed<Actor>>>,
    pub completed_by_json: Column<Option<Parsed<Actor>>>,
    pub updated_by_json: Column<Option<Parsed<Actor>>>,
    pub updated_event_id: Column<Option<String>>,
    pub updated_event_seq: Column<Option<i64>>,
    pub source_event_id: Column<Option<String>>,
    pub triage_state: Column<Option<String>>,
}

/// What is wrong with a task row, where something is: the columns and their
/// values are looked at in this order.
pub open spec fn task_fault(row: TaskRow) -> Option<ErrorView> {
    column_fault(row.id).or_fault(
        column_fault(row.project_id),
    ).or_fault(
        column_fault(row.title),
    ).or_fault(
        column_fault(row.description),
    ).or_fault(
        column_fault(row.status),
    ).or_fault(
        column_fault(row.priority),
    ).or_fault(
        column_fault(row.due_at),
    ).or_fault(
        column_fault(row.created_at),
    ).or_fault(
        column_fault(row.updated_at),
    ).or_fault(
        column_fault(row.started_at),
    ).or_fault(
        column_fault(row.completed_at),
    ).or_fault(
        column_fault(row.created_by_json),
    ).or_fault(
        column_fault(row.completed_by_json),
    ).or_fault(
        column_fault(row.updated_by_json),
    ).or_fault(
        column_fault(row.updated_event_id),
    ).or_fault(
        column_fault(row.updated_event_seq),
    ).or_fault(
        column_fault(row.source_event_id),
    ).or_fault(
        column_fault(row.triage_state),
    ).or_fault(
        id_fault::<TaskId>(row.id->Ok_0@),
    ).or_fault(
        opt_id_fault::<ProjectId>(row.project_id->Ok_0),
    ).or_fault(
        status_fault(row.status->Ok_0@),
    ).or_fault(
        priority_fault(row.priority->Ok_0@),
    ).or_fault(
        opt_triage_state_fault(row.triage_state->Ok_0),
    ).or_fault(
        opt_ts_fault(row.due_at->Ok_0),
    ).or_fault(
        ts_fault(row.created_at->Ok_0@),
    ).or_fault(
        ts_fault(row.updated_at->Ok_0@),
    ).or_fault(
        opt_ts_fault(row.started_at->Ok_0),
    ).or_fault(
        opt_ts_fault(row.completed_at->Ok_0),
    ).or_fault(
        opt_parsed_fault(row.created_by_json->Ok_0),
    ).or_fault(
        opt_parsed_fault(row.completed_by_json->Ok_0),
    ).or_fault(
        opt_parsed_fault(row.updated_by_json->Ok_0),
    ).or_fault(
        opt_id_fault::<EventId>(row.updated_event_id->Ok_0),
    ).or_fault(
        opt_id_fault::<EventId>(row.source_event_id->Ok_0),
    )
}

/// The record is what a sound task row says.
pub open spec fn task_read(row: TaskRow, record: Task) -> bool {
    &&& record.id == id_value::<TaskId>(row.id->Ok_0@)
    &&& record.project_id == opt_id_value::<ProjectId>(row.project_id->Ok_0)
    &&& record.title == row.title->Ok_0
    &&& record.description == row.description->Ok_0
    &&& Some(record.status) == Status::named(row.status->Ok_0@)
    &&& Some(record.priority) == Priority::named(row.priority->Ok_0@)
    &&& record.due_at == opt_ts_value(row.due_at->Ok_0)
    &&& record.created_at == ts_value(row.created_at->Ok_0@)
    &&& record.updated_at == ts_value(row.updated_at->Ok_0@)
    &&& record.started_at == opt_ts_value(row.started_at->Ok_0)
    &&& record.completed_at == opt_ts_value(row.completed_at->Ok_0)
    &&& record.created_by == opt_parsed_value(row.created_by_json->Ok_0)
    &&& record.completed_by == opt_parsed_value(row.completed_by_json->Ok_0)
    &&& record.updated_by == opt_parsed_value(row.updated_by_json->Ok_0)
    &&& record.updated_event_id == opt_id_value::<EventId>(row.updated_event_id->Ok_0)
    &&& record.updated_event_seq == opt_unsigned(row.updated_event_seq->Ok_0)
    &&& record.source_event_id == opt_id_value::<EventId>(row.source_event_id->Ok_0)
    &&& record.triage_state == opt_triage_state(row.triage_state->Ok_0)
}

/// Reads a task from its row.
pub fn row_to_task(row: TaskRow) -> (r: Result<Task, CoreError>)
    ensures
        match task_fault(row) {
            Some(e) => r is Err && r->Err_0@ == e,
            None => r is Ok && task_read(row, r->Ok_0),
        },
{
    let id = column(row.id)?;
    let project_id = column(row.project_id)?;
    let title = column(row.title)?;
    let description = column(row.description)?;
    let status = column(row.status)?;
    let priority = column(row.priority)?;
    let due_at = column(row.due_at)?;
    let created_at = column(row.created_at)?;
    let updated_at = column(row.updated_at)?;
    let started_at = column(row.started_at)?;
    let completed_at = column(row.completed_at)?;
    let created_by_json = column(row.created_by_json)?;
    let completed_by_json = column(row.completed_by_json)?;
    let updated_by_json = column(row.updated_by_json)?;
    let updated_event_id = column(row.updated_event_id)?;
    let updated_event_seq = column(row.updated_event_seq)?;
    let source_event_id = column(row.source_event_id)?;
    let triage_state = column(row.triage_state)?;
    let id = parse_id::<TaskId>(id.as_str())?;
    let project_id = parse_opt_id::<ProjectId>(&project_id)?;
    let status = parse_status(status.as_str())?;
    let priority = parse_priority(priority.as_str())?;
    let triage_state = parse_opt_triage_state(&triage_state)?;
    let due_at = parse_opt_ts(&due_at)?;
    let created_at = parse_ts(created_at.as_str())?;
    let updated_at = parse_ts(updated_at.as_str())?;
    let started_at = parse_opt_ts(&started_at)?;
    let completed_at = parse_opt_ts(&completed_at)?;
    let created_by_json = opt_parsed(created_by_json)?;
    let completed_by_json = opt_parsed(completed_by_json)?;
    let updated_by_json = opt_parsed(updated_by_json)?;
    let updated_event_id = parse_opt_id::<EventId>(&updated_event_id)?;
    let source_event_id = parse_opt_id::<EventId>(&source_event_id)?;
    Ok(Task {
        id,
        project_id,
        title,
        description,
        status,
        priority,
        due_at,
        created_at,
        updated_at,
        started_at,
        completed_at,
        created_by: created_by_json,
        completed_by: completed_by_json,
        updated_by: updated_by_json,
        updated_event_id,
        updated_event_seq: opt_u64(updated_event_seq),
        source_event_id,
        triage_state,
    })
}

impl Decode for TaskRow {
    type Record = Task;

    open spec fn fault(&self) -> Option<ErrorView> {
        task_fault(*self)
    }

    open spec fn holds(&self, record: Task) -> bool {
        task_read(*self, record)
    }

    fn decode(self) -> (r: Result<Task, CoreError>) {
        row_to_task(self)
    }
}

/// The columns of a task, in the order in which they are written.
pub open spec fn task_columns(record: Task) -> Seq<BoundView> {
    seq![
        sql_id(record.id),
        sql_opt_id(record.project_id),
        sql_text(record.title@),
        sql_text(record.description@),
        sql_text(record.status.text()),
        sql_text(record.priority.text()),
        sql_opt_time(record.due_at),
        sql_time(record.created_at),
        sql_time(record.updated_at),
        sql_opt_time(record.started_at),
        sql_opt_time(record.completed_at),
        sql_opt_actor(record.created_by),
        sql_opt_actor(record.completed_by),
        sql_opt_actor(record.updated_by),
        sql_opt_id(record.updated_event_id),
        sql_opt_int(signed_opt(record.updated_event_seq)),
        sql_opt_id(record.source_event_id),
        sql_opt_text(opt_triage_state_text(record.triage_state)),
    ]
}

impl TaskRow {
    /// Each column of the row holds what is written for it of the record.
    pub open spec fn stores(self, record: Task) -> bool {
        &&& has_text(self.id, sql_id(record.id))
        &&& has_opt_text(self.project_id, sql_opt_id(record.project_id))
        &&& has_text(self.title, sql_text(record.title@))
        &&& has_text(self.description, sql_text(record.description@))
        &&& has_text(self.status, sql_text(record.status.text()))
        &&& has_text(self.priority, sql_text(record.priority.text()))
        &&& has_opt_text(self.due_at, sql_opt_time(record.due_at))
        &&& has_text(self.created_at, sql_time(record.created_at))
        &&& has_text(self.updated_at, sql_time(record.updated_at))
        &&& has_opt_text(self.started_at, sql_opt_time(record.started_at))
        &&& has_opt_text(self.completed_at, sql_opt_time(record.completed_at))
        &&& has_opt_actor(self.created_by_json, sql_opt_actor(record.created_by))
        &&& has_opt_actor(self.completed_by_json, sql_opt_actor(record.completed_by))
        &&& has_opt_actor(self.updated_by_json, sql_opt_actor(record.updated_by))
        &&& has_opt_text(self.updated_event_id, sql_opt_id(record.updated_event_id))
        &&& has_opt_int(self.updated_event_seq, sql_opt_int(signed_opt(record.updated_event_seq)))
        &&& has_opt_text(self.source_event_id, sql_opt_id(record.source_event_id))
        &&& has_opt_text(self.triage_state, sql_opt_text(opt_triage_state_text(record.triage_state)))
    }
}

impl Task {
    /// The two records agree in every field.
    pub open spec fn same(self, other: Task) -> bool {
        &&& self.id == other.id
        &&& self.project_id == other.project_id
        &&& self.title@ == other.title@
        &&& self.description@ == other.description@
        &&& self.status == other.status
        &&& self.priority == other.priority
        &&& self.due_at == other.due_at
        &&& self.created_at == other.created_at
        &&& self.updated_at == other.updated_at
        &&& self.started_at == other.started_at
        &&& self.completed_at == other.completed_at
        &&& opt_actor(self.created_by) == opt_actor(other.created_by)
        &&& opt_actor(self.completed_by) == opt_actor(other.completed_by)
        &&& opt_actor(self.updated_by) == opt_actor(other.updated_by)
        &&& self.updated_event_id == other.updated_event_id
        &&& self.updated_event_seq == other.updated_event_seq
        &&& self.source_event_id == other.source_event_id
        &&& self.triage_state == other.triage_state
    }

    /// Every point in time of the record has an RFC 3339 text that reads back.
    pub open spec fn is_plain(self) -> bool {
        &&& opt_is_plain(self.due_at)
        &&& self.created_at.is_plain()
        &&& self.updated_at.is_plain()
        &&& opt_is_plain(self.started_at)
        &&& opt_is_plain(self.completed_at)
    }
}


// ── what events make of tasks ───────────────────────────────────────────────

/// The task is the one that an envelope's event creates: what its creator left out has
/// its default, and the envelope's author, time and place are noted on it.
pub open spec fn is_created(
    task: Task,
    envelope: EventEnvelope,
    new: NewTask,
    fresh: TaskId,
    source_event_id: Option<EventId>,
) -> bool {
    &&& task.id == match new.id {
        Some(id) => id,
        None => fresh,
    }
    &&& task.project_id == new.project_id
    &&& task.title == new.title
    &&& task.description@ == match new.description {
        Some(text) => text@,
        None => Seq::<char>::empty(),
    }
    &&& task.status == match new.status {
        Some(status) => status,
        None => Status::Inbox,
    }
    &&& task.priority == match new.priority {
        Some(priority) => priority,
        None => Priority::P2,
    }
    &&& task.triage_state == new.triage_state
    &&& task.due_at == new.due_at
    &&& task.created_at == envelope.occurred_at
    &&& task.updated_at == envelope.occurred_at
    &&& task.started_at is None
    &&& task.completed_at is None
    &&& task.created_by == Some(envelope.actor)
    &&& task.completed_by is None
    &&& task.updated_by == Some(envelope.actor)
    &&& task.updated_event_id == Some(envelope.id)
    &&& task.updated_event_seq == Some(envelope.seq)
    &&& task.source_event_id == source_event_id
}

/// The time that work began: noted once, then kept.
pub open spec fn started(task: Task, at: Timestamp) -> Option<Timestamp> {
    match task.started_at {
        Some(earlier) => Some(earlier),
        None => Some(at),
    }
}

/// The task with the author, identifier and place of its last change.
pub open spec fn stamped(task: Task, envelope: EventEnvelope) -> Task {
    Task {
        updated_by: Some(envelope.actor),
        updated_event_id: Some(envelope.id),
        updated_event_seq: Some(envelope.seq),
        ..task
    }
}

/// What an envelope's event makes of a stored task. Of `TaskUpdated` the task is the one
/// that the patch has been applied to.
pub open spec fn task_after(envelope: EventEnvelope, task: Task) -> Task {
    let now = envelope.occurred_at;
    match envelope.payload {
        Event::TaskUpdated { .. } => stamped(Task { updated_at: now, ..task }, envelope),
        Event::TaskStatusChanged { to, .. } => stamped(
            Task {
                status: to,
                updated_at: now,
                started_at: if to == Status::InProgress || to == Status::Done {
                    started(task, now)
                } else {
                    task.started_at
                },
                completed_by: if to == Status::Done {
                    Some(envelope.actor)
                } else {
                    task.completed_by
                },
                ..task
            },
            envelope,
        ),
        Event::TaskPriorityChanged { to, .. } => stamped(
            Task { priority: to, updated_at: now, ..task },
            envelope,
        ),
        Event::TaskCompleted { completed_at, .. } => stamped(
            Task {
                status: Status::Done,
                updated_at: now,
                completed_at: Some(completed_at),
                started_at: started(task, completed_at),
                completed_by: Some(envelope.actor),
                ..task
            },
            envelope,
        ),
        Event::TaskReopened { at, .. } => stamped(
            Task { completed_at: None, updated_at: at, ..task },
            envelope,
        ),
        Event::TaskClosed { at, .. } => stamped(
            Task {
                completed_at: Some(at),
                updated_at: at,
                started_at: started(task, at),
                ..task
            },
            envelope,
        ),
        _ => task,
    }
}

/// The stored task that an event changes, where it changes one.
pub open spec fn changed_task_id(event: Event) -> Option<TaskId> {
    match event {
        Event::TaskUpdated { task_id, .. } => Some(task_id),
        Event::TaskStatusChanged { task_id, .. } => Some(task_id),
        Event::TaskPriorityChanged { task_id, .. } => Some(task_id),
        Event::TaskCompleted { task_id, .. } => Some(task_id),
        Event::TaskReopened { task_id, .. } => Some(task_id),
        Event::TaskClosed { task_id, .. } => Some(task_id),
        _ => None,
    }
}

/// The number of tasks that an event creates.
pub open spec fn created_count(event: Event) -> nat {
    match event {
        Event::TaskCreated { .. } => 1,
        Event::TaskSplitGenerated { subtasks, .. } => subtasks@.len(),
        _ => 0,
    }
}

/// How an event is applied to the tasks.
#[derive(Clone, Debug, PartialEq, Eq)]
pub enum TaskStep {
    /// The event is none about stored tasks.
    Ignore,
    /// Note that a deadline has passed.
    NotifyDue { insert: Query },
    /// Store these tasks with [`TaskRepo::write`], each with its first version.
    Create { tasks: Vec<Task> },
    /// Load the task, and store what [`TaskRepo::loaded`] makes of what was found, where that
    /// is something, with [`TaskRepo::write`].
    Change { load: Query },
    /// Load the task, run the deletions, and store the version that [`TaskRepo::removed`]
    /// gives, where it gives one.
    Delete { task_id: TaskId, load: Query, deletes: Vec<Query> },
}

/// What is written of a task in one transaction: the task, and the version that the event
/// makes of it.
#[derive(Clone, Debug, PartialEq, Eq)]
pub struct TaskWrite {
    pub upsert: Query,
    pub version: VersionDraft,
}

impl TaskStep {
    /// The step is the one for the event in the envelope.
    pub open spec fn applies(self, envelope: EventEnvelope, fresh_ids: Seq<TaskId>) -> bool {
        match envelope.payload {
            Event::TaskCreated { task } => self matches TaskStep::Create { tasks } && tasks@.len()
                == 1 && is_created(tasks@[0], envelope, task, fresh_ids[0], None),
            Event::TaskSplitGenerated { subtasks, .. } => self matches TaskStep::Create { tasks }
                && tasks@.len() == subtasks@.len() && forall|i: int|
                0 <= i < tasks@.len() ==> is_created(
                    #[trigger] tasks@[i],
                    envelope,
                    subtasks@[i],
                    fresh_ids[i],
                    Some(envelope.id),
                ),
            Event::TaskDueElapsed { task_id, due_at, at } => self matches TaskStep::NotifyDue {
                insert,
            } && insert@ == statement(
                INSERT_DUE_NOTIFICATION@,
                seq![sql_id(task_id), sql_time(due_at), sql_time(at)],
            ),
            Event::TaskDeleted { task_id } => self matches TaskStep::Delete {
                task_id: id,
                load,
                deletes,
            } && id == task_id && load@ == statement(GET_TASK@, seq![sql_id(task_id)]) && statements(deletes@)
                == seq![
                statement(DELETE_TASK@, seq![sql_id(task_id)]),
                statement(DELETE_DUE_NOTIFICATIONS@, seq![sql_id(task_id)]),
            ],
            event => match changed_task_id(event) {
                Some(task_id) => self matches TaskStep::Change { load } && load@ == statement(
                    GET_TASK@,
                    seq![sql_id(task_id)],
                ),
                None => self is Ignore,
            },
        }
    }
}

fn create(
    envelope: &EventEnvelope,
    new: &NewTask,
    fresh: &TaskId,
    source_event_id: Option<EventId>,
) -> (r: Task)
    ensures
        is_created(r, *envelope, *new, *fresh, source_event_id),
{
    Task {
        id: match &new.id {
            Some(id) => *id,
            None => *fresh,
        },
        project_id: new.project_id,
        title: new.title.clone(),
        description: match &new.description {
            Some(text) => text.clone(),
            None => String::new(),
        },
        status: match new.status {
            Some(status) => status,
            None => Status::Inbox,
        },
        priority: match new.priority {
            Some(priority) => priority,
            None => Priority::P2,
        },
        triage_state: new.triage_state,
        due_at: new.due_at,
        created_at: envelope.occurred_at,
        updated_at: envelope.occurred_at,
        started_at: None,
        completed_at: None,
        created_by: Some(envelope.actor.clone()),
        completed_by: None,
        updated_by: Some(envelope.actor.clone()),
        updated_event_id: Some(envelope.id),
        updated_event_seq: Some(envelope.seq),
        source_event_id,
    }
}

/// Notes the author, identifier and place of a task's last change.
pub fn stamp_last_change(task: Task, envelope: &EventEnvelope) -> (r: Task)
    ensures
        r == stamped(task, *envelope),
{
    Task {
        updated_by: Some(envelope.actor.clone()),
        updated_event_id: Some(envelope.id),
        updated_event_seq: Some(envelope.seq),
        ..task
    }
}

fn start_time(started_at: Option<Timestamp>, at: Timestamp) -> (r: Option<Timestamp>)
    ensures
        r == match started_at {
            Some(earlier) => Some(earlier),
            None => Some(at),
        },
{
    match started_at {
        Some(earlier) => Some(earlier),
        None => Some(at),
    }
}

impl TaskRepo {
    /// The number of fresh identifiers that [`TaskRepo::apply_event`] is given for an
    /// event: one for each task that it creates.
    pub fn ids_needed(event: &Event) -> (r: usize)
        ensures
            r == created_count(*event),
    {
        match event {
            Event::TaskCreated { .. } => 1,
            Event::TaskSplitGenerated { subtasks, .. } => subtasks.len(),
            _ => 0,
        }
    }

    /// How an event is applied to the tasks. A task that its creator gave no identifier
    /// gets the one of `fresh_ids` at its place.
    pub fn apply_event(envelope: &EventEnvelope, fresh_ids: &Vec<TaskId>) -> (r: TaskStep)
        requires
            fresh_ids@.len() >= created_count(envelope.payload),
        ensures
            r.applies(*envelope, fresh_ids@),
    {
        match &envelope.payload {
            Event::TaskCreated { task } => {
                let mut tasks: Vec<Task> = Vec::new();
                tasks.push(create(envelope, task, &fresh_ids[0], None));
                TaskStep::Create { tasks }
            },
            Event::TaskSplitGenerated { subtasks, .. } => {
                let mut tasks: Vec<Task> = Vec::new();
                let mut i: usize = 0;
                while i < subtasks.len()
                    invariant
                        i <= subtasks@.len(),
                        subtasks@.len() <= fresh_ids@.len(),
                        tasks@.len() == i,
                        forall|j: int|
                            0 <= j < i ==> is_created(
                                #[trigger] tasks@[j],
                                *envelope,
                                subtasks@[j],
                                fresh_ids@[j],
                                Some(envelope.id),
                            ),
                    decreases subtasks@.len() - i,
                {
                    tasks.push(create(envelope, &subtasks[i], &fresh_ids[i], Some(envelope.id)));
                    i = i + 1;
                }
                TaskStep::Create { tasks }
            },
            Event::TaskDueElapsed { task_id, due_at, at } => {
                let insert = Query::new(INSERT_DUE_NOTIFICATION).id(task_id).time(due_at).time(at);
                assert(insert@.binds =~= seq![sql_id(*task_id), sql_time(*due_at), sql_time(*at)]);
                TaskStep::NotifyDue { insert }
            },
            Event::TaskDeleted { task_id } => {
                let mut deletes: Vec<Query> = Vec::new();
                deletes.push(Query::new(DELETE_TASK).id(task_id));
                deletes.push(Query::new(DELETE_DUE_NOTIFICATIONS).id(task_id));
                assert(statements(deletes@) =~= seq![
                    statement(DELETE_TASK@, seq![sql_id(*task_id)]),
                    statement(DELETE_DUE_NOTIFICATIONS@, seq![sql_id(*task_id)]),
                ]);
                TaskStep::Delete { task_id: *task_id, load: TaskRepo::get(task_id), deletes }
            },
            Event::TaskUpdated { task_id, .. } => TaskStep::Change { load: TaskRepo::get(task_id) },
            Event::TaskStatusChanged { task_id, .. } => TaskStep::Change {
                load: TaskRepo::get(task_id),
            },
            Event::TaskPriorityChanged { task_id, .. } => TaskStep::Change {
                load: TaskRepo::get(task_id),
            },
            Event::TaskCompleted { task_id, .. } => TaskStep::Change {
                load: TaskRepo::get(task_id),
            },
            Event::TaskReopened { task_id, .. } => TaskStep::Change {
                load: TaskRepo::get(task_id),
            },
            Event::TaskClosed { task_id, .. } => TaskStep::Change { load: TaskRepo::get(task_id) },
            _ => TaskStep::Ignore,
        }
    }

    /// What an envelope's event makes of a stored task. Of `TaskUpdated` the task is the
    /// one that the patch has been applied to.
    pub fn changed(envelope: &EventEnvelope, task: Task) -> (r: Task)
        ensures
            r == task_after(*envelope, task),
    {
        let now = envelope.occurred_at;
        match &envelope.payload {
            Event::TaskUpdated { .. } => stamp_last_change(
                Task { updated_at: now, ..task },
                envelope,
            ),
            Event::TaskStatusChanged { to, .. } => {
                let started_at = if *to == Status::InProgress || *to == Status::Done {
                    start_time(task.started_at, now)
                } else {
                    task.started_at
                };
                let completed_by = if *to == Status::Done {
                    Some(envelope.actor.clone())
                } else {
                    copy_opt_actor(&task.completed_by)
                };
                stamp_last_change(
                    Task { status: *to, updated_at: now, started_at, completed_by, ..task },
                    envelope,
                )
            },
            Event::TaskPriorityChanged { to, .. } => stamp_last_change(
                Task { priority: *to, updated_at: now, ..task },
                envelope,
            ),
            Event::TaskCompleted { completed_at, .. } => {
                let started_at = start_time(task.started_at, *completed_at);
                stamp_last_change(
                    Task {
                        status: Status::Done,
                        updated_at: now,
                        completed_at: Some(*completed_at),
                        started_at,
                        completed_by: Some(envelope.actor.clone()),
                        ..task
                    },
                    envelope,
                )
            },
            Event::TaskReopened { at, .. } => stamp_last_change(
                Task { completed_at: None, updated_at: *at, ..task },
                envelope,
            ),
            Event::TaskClosed { at, .. } => {
                let started_at = start_time(task.started_at, *at);
                stamp_last_change(
                    Task { completed_at: Some(*at), updated_at: *at, started_at, ..task },
                    envelope,
                )
            },
            _ => task,
        }
    }

    /// What an envelope's event makes of what was found of its task. Of `TaskUpdated` that
    /// is the task that the patch has been applied to. Of a task that is not known nothing
    /// is made, so nothing is written.
    pub fn loaded(envelope: &EventEnvelope, found: Option<Task>) -> (r: Option<Task>)
        ensures
            r == match found {
                Some(task) => Some(task_after(*envelope, task)),
                None => None,
            },
    {
        match found {
            Some(task) => Some(TaskRepo::changed(envelope, task)),
            None => None,
        }
    }

    /// What is written of a task, given its JSON and, where it was known before, the JSON
    /// that it had.
    pub fn write(task: &Task, before: Option<Json>, after: Json) -> (r: TaskWrite)
        ensures
            r.upsert@ == statement(UPSERT_TASK@, task_columns(*task)),
            r.version.entity_type@ == "task"@,
            r.version.entity_id@ == id_text(task.id),
            r.version.before == before,
            r.version.after == Some(after),
            r.version.summary@ == summary_of("Task"@, opt_model(before), Some(after.model())),
    {
        TaskWrite {
            upsert: TaskRepo::upsert_task(task),
            version: TaskRepo::version(&task.id, before, Some(after)),
        }
    }

    /// The last version of a deleted task, given the JSON that it had: none where it was not
    /// known.
    pub fn removed(task_id: &TaskId, before: Option<Json>) -> (r: Option<VersionDraft>)
        ensures
            before is None ==> r is None,
            before is Some ==> r is Some && r->Some_0.entity_type@ == "task"@
                && r->Some_0.entity_id@ == id_text(*task_id) && r->Some_0.before == before
                && r->Some_0.after is None && r->Some_0.summary@ == summary_of(
                "Task"@,
                opt_model(before),
                None,
            ),
    {
        match before {
            Some(before) => Some(TaskRepo::version(task_id, Some(before), None)),
            None => None,
        }
    }

    /// The version of a task that may have to be stored.
    pub fn version(task_id: &TaskId, before: Option<Json>, after: Option<Json>) -> (r: VersionDraft)
        ensures
            r.entity_type@ == "task"@,
            r.entity_id@ == id_text(*task_id),
            r.before == before,
            r.after == after,
            r.summary@ == summary_of("Task"@, opt_model(before), opt_model(after)),
    {
        let summary = update_summary("Task", &before, &after);
        VersionDraft {
            entity_type: "task".to_owned(),
            entity_id: print_id(task_id),
            before,
            after,
            summary,
        }
    }

    /// The statement that stores a task. A task that was stored is the task that its row
    /// reads as.
    pub fn upsert_task(task: &Task) -> (q: Query)
        ensures
            q@ == statement(UPSERT_TASK@, task_columns(*task)),
            task.is_plain() ==> forall|row: TaskRow|
                #[trigger] row.stores(*task) ==> task_fault(row) is None && forall|record: Task|
                    task_read(row, record) ==> record.same(*task),
    {
        Query::new(UPSERT_TASK)
            .id(&task.id)
            .opt_id(&task.project_id)
            .text(task.title.as_str())
            .text(task.description.as_str())
            .text(task.status.as_str())
            .text(task.priority.as_str())
            .opt_time(&task.due_at)
            .time(&task.created_at)
            .time(&task.updated_at)
            .opt_time(&task.started_at)
            .opt_time(&task.completed_at)
            .opt_actor(&task.created_by)
            .opt_actor(&task.completed_by)
            .opt_actor(&task.updated_by)
            .opt_id(&task.updated_event_id)
            .opt_number(opt_signed(task.updated_event_seq))
            .opt_id(&task.source_event_id)
            .opt_text(&triage_state_text(&task.triage_state))
    }

    // ── queries ─────────────────────────────────────────────────────────────

    /// The query for all tasks.
    pub fn list_all() -> (q: Query)
        ensures
            q@ == statement(SELECT_TASKS@ + ORDERED@, seq![]),
    {
        let q = TaskRepo::list_all_filtered(&Vec::new());
        assert(SELECT_TASKS@ + Seq::<char>::empty() + ORDERED@ =~= SELECT_TASKS@ + ORDERED@);
        assert(q@.binds =~= seq![]);
        q
    }

    /// The query for all tasks in one of the given states; in any state, where none is
    /// given.
    pub fn list_all_filtered(statuses: &Vec<Status>) -> (q: Query)
        ensures
            q@ == statement(
                SELECT_TASKS@ + status_fragment(statuses@.len(), false) + ORDERED@,
                status_values(statuses@),
            ),
    {
        let clause = status_clause(statuses.len(), false);
        let sql = concat3(SELECT_TASKS, clause.as_str(), ORDERED);
        let q = Query::new(sql.as_str());
        let q = bind_statuses(q, statuses);
        assert(q@.binds =~= status_values(statuses@));
        q
    }

    /// The query for the tasks of a project, or of none.
    pub fn list_by_project(project_id: &Option<ProjectId>) -> (q: Query)
        ensures
            q@ == statement(
                SELECT_TASKS@ + project_fragment(*project_id) + ORDERED@,
                project_values(*project_id),
            ),
    {
        let q = TaskRepo::list_by_project_filtered(project_id, &Vec::new());
        assert(SELECT_TASKS@ + project_fragment(*project_id) + Seq::<char>::empty() + ORDERED@
            =~= SELECT_TASKS@ + project_fragment(*project_id) + ORDERED@);
        assert(q@.binds =~= project_values(*project_id));
        q
    }

    /// The query for the tasks of a project, or of none, in one of the given states; in
    /// any state, where none is given.
    pub fn list_by_project_filtered(project_id: &Option<ProjectId>, statuses: &Vec<Status>) -> (q:
        Query)
        ensures
            q@ == statement(
                SELECT_TASKS@ + project_fragment(*project_id) + status_fragment(
                    statuses@.len(),
                    true,
                ) + ORDERED@,
                project_values(*project_id) + status_values(statuses@),
            ),
    {
        let clause = status_clause(statuses.len(), true);
        let filter = match project_id {
            Some(_) => " WHERE project_id = ?",
            None => " WHERE project_id IS NULL",
        };
        let mut sql = concat3(SELECT_TASKS, filter, clause.as_str());
        sql.append(ORDERED);
        let q = match project_id {
            Some(id) => Query::new(sql.as_str()).id(id),
            None => Query::new(sql.as_str()),
        };
        assert(q@.binds =~= project_values(*project_id));
        bind_statuses(q, statuses)
    }

    /// The query for the tasks in a state.
    pub fn list_by_status(status: Status) -> (q: Query)
        ensures
            q@ == statement(TASKS_BY_STATUS@, seq![sql_text(status.text())]),
    {
        Query::new(TASKS_BY_STATUS).text(status.as_str())
    }

    /// The query for a task.
    pub fn get(id: &TaskId) -> (q: Query)
        ensures
            q@ == statement(GET_TASK@, seq![sql_id(*id)]),
    {
        Query::new(GET_TASK).id(id)
    }

    /// The query for the tasks of a project that wait for triage.
    pub fn list_triage_queue(project_id: &ProjectId) -> (q: Query)
        ensures
            q@ == statement(TRIAGE_QUEUE@, seq![sql_id(*project_id)]),
    {
        Query::new(TRIAGE_QUEUE).id(project_id)
    }

    /// The statement that notes what triage made of a task.
    pub fn set_triage_state(id: &TaskId, state: &Option<TriageState>, now: &Timestamp) -> (q: Query)
        ensures
            q@ == statement(
                SET_TRIAGE_STATE@,
                seq![sql_opt_text(opt_triage_state_text(*state)), sql_time(*now), sql_id(*id)],
            ),
    {
        Query::new(SET_TRIAGE_STATE).opt_text(&triage_state_text(state)).time(now).id(id)
    }

    /// The query for the task after triage was noted on it; none where there is no such
    /// task.
    pub fn after_triage(id: &TaskId, rows_affected: u64) -> (r: Option<Query>)
        ensures
            rows_affected == 0 ==> r is None,
            rows_affected > 0 ==> r is Some && r->Some_0@ == statement(GET_TASK@, seq![sql_id(*id)]),
    {
        if rows_affected == 0 {
            None
        } else {
            Some(TaskRepo::get(id))
        }
    }

    /// The query for some tasks; none where no task is asked for.
    pub fn get_many(ids: &Vec<TaskId>) -> (r: Option<Query>)
        ensures
            ids@.len() == 0 ==> r is None,
            ids@.len() > 0 ==> r is Some && r->Some_0@ == statement(
                SELECT_TASKS@ + " WHERE id IN ("@ + placeholder_list(ids@.len(), ","@) + ")"@,
                id_binds(ids@),
            ),
    {
        if ids.len() == 0 {
            return None;
        }
        let mut sql = concat3(SELECT_TASKS, " WHERE id IN (", placeholders(ids.len(), ",").as_str());
        sql.append(")");
        let q = bind_ids(Query::new(sql.as_str()), ids);
        assert(q@.binds =~= id_binds(ids@));
        Some(q)
    }

    /// The query for open tasks past their deadline that no notice was given of.
    pub fn list_due_unnotified(now: &Timestamp, limit: u32) -> (q: Query)
        ensures
            q@ == statement(DUE_UNNOTIFIED@, seq![sql_time(*now), sql_int(limit as int)]),
            now.is_plain() ==> now.sorts_as_text(),
    {
        Query::new(DUE_UNNOTIFIED).time(now).number(limit as i64)
    }
}

/// The filter for the tasks of a project, or of none.
pub open spec fn project_fragment(project_id: Option<ProjectId>) -> Seq<char> {
    match project_id {
        Some(_) => " WHERE project_id = ?"@,
        None => " WHERE project_id IS NULL"@,
    }
}

/// The values of the filter for the tasks of a project.
pub open spec fn project_values(project_id: Option<ProjectId>) -> Seq<BoundView> {
    match project_id {
        Some(id) => seq![sql_id(id)],
        None => seq![],
    }
}

/// The filter for tasks in one of `n` states; nothing where `n` is zero.
pub open spec fn status_fragment(n: nat, has_where: bool) -> Seq<char> {
    if n == 0 {
        Seq::<char>::empty()
    } else if has_where {
        " AND status IN ("@ + placeholder_list(n, ", "@) + ")"@
    } else {
        " WHERE status IN ("@ + placeholder_list(n, ", "@) + ")"@
    }
}

/// The values of the filter for tasks in one of some states.
pub open spec fn status_values(statuses: Seq<Status>) -> Seq<BoundView> {
    statuses.map_values(|s: Status| sql_text(s.text()))
}

/// The filter for tasks in one of `n` states, behind another filter or as the first one.
pub fn status_clause(n: usize, has_where: bool) -> (r: String)
    ensures
        r@ == status_fragment(n as nat, has_where),
{
    if n == 0 {
        return String::new();
    }
    let keyword = if has_where {
        " AND status IN ("
    } else {
        " WHERE status IN ("
    };
    concat3(keyword, placeholders(n, ", ").as_str(), ")")
}

fn bind_statuses(q: Query, statuses: &Vec<Status>) -> (r: Query)
    ensures
        r@ == statement(q@.sql, q@.binds + status_values(statuses@)),
{
    let ghost head = q@.binds;
    let ghost all = status_values(statuses@);
    let ghost sql = q@.sql;
    let mut r = q;
    let mut i: usize = 0;
    assert(head + all.subrange(0, 0) =~= head);
    while i < statuses.len()
        invariant
            i <= statuses@.len(),
            all == status_values(statuses@),
            r@.sql == sql,
            r@.binds == head + all.subrange(0, i as int),
        decreases statuses@.len() - i,
    {
        r = r.text(statuses[i].as_str());
        assert(head + all.subrange(0, i + 1) =~= (head + all.subrange(0, i as int)).push(
            all[i as int],
        ));
        i = i + 1;
    }
    assert(all.subrange(0, statuses@.len() as int) =~= all);
    r
}

/// A row of an overdue task.
#[derive(Debug, PartialEq, Eq)]
pub struct DueRow {
    pub id: Column<String>,
    pub due_at: Column<String>,
}

impl Decode for DueRow {
    type Record = (TaskId, Timestamp);

    open spec fn fault(&self) -> Option<ErrorView> {
        column_fault(self.id).or_fault(column_fault(self.due_at)).or_fault(
            id_fault::<TaskId>(self.id->Ok_0@),
        ).or_fault(ts_fault(self.due_at->Ok_0@))
    }

    open spec fn holds(&self, record: (TaskId, Timestamp)) -> bool {
        record.0 == id_value::<TaskId>(self.id->Ok_0@) && record.1 == ts_value(self.due_at->Ok_0@)
    }

    fn decode(self) -> (r: Result<(TaskId, Timestamp), CoreError>) {
        let id = column(self.id)?;
        let due_at = column(self.due_at)?;
        let task_id = parse_id::<TaskId>(id.as_str())?;
        let due_at = parse_ts(due_at.as_str())?;
        Ok((task_id, due_at))
    }
}

// ── laws ────────────────────────────────────────────────────────────────────

/// No event changes which task a record is, nor who created it and when, nor where it
/// was split from.
pub proof fn lemma_origin_is_kept(envelope: EventEnvelope, task: Task)
    ensures
        task_after(envelope, task).id == task.id,
        task_after(envelope, task).created_at == task.created_at,
        task_after(envelope, task).created_by == task.created_by,
        task_after(envelope, task).source_event_id == task.source_event_id,
{
}

/// The time that work on a task began is noted once: no later event changes it, not
/// even one that reopens the task.
pub proof fn lemma_start_time_is_kept(envelope: EventEnvelope, task: Task)
    requires
        task.started_at is Some,
    ensures
        task_after(envelope, task).started_at == task.started_at,
{
}

/// A task that is closed has a completion time and a start time; reopened, it has no
/// completion time and keeps its start time.
pub proof fn lemma_close_and_reopen(close: EventEnvelope, reopen: EventEnvelope, task: Task)
    requires
        close.payload is TaskClosed,
        reopen.payload is TaskReopened,
    ensures
        task_after(close, task).completed_at == Some(close.payload->TaskClosed_at),
        task_after(close, task).started_at is Some,
        task_after(reopen, task_after(close, task)).completed_at is None,
        task_after(reopen, task_after(close, task)).started_at == task_after(
            close,
            task,
        ).started_at,
{
}

/// Every event that changes a task leaves its author, identifier and place on it.
pub proof fn lemma_changes_are_stamped(envelope: EventEnvelope, task: Task)
    requires
        changed_task_id(envelope.payload) is Some,
    ensures
        task_after(envelope, task).updated_by == Some(envelope.actor),
        task_after(envelope, task).updated_event_id == Some(envelope.id),
        task_after(envelope, task).updated_event_seq == Some(envelope.seq),
{
}

/// Applying an event to what it made of a task changes nothing, so that an event may be
/// replayed.
pub proof fn lemma_replay_changes_nothing(envelope: EventEnvelope, task: Task)
    ensures
        task_after(envelope, task_after(envelope, task)) == task_after(envelope, task),
{
}

/// After a change of status a task has the status that the event names, whatever it had
/// before. Work begins with the first step into progress or to the end; who ended it is
/// noted. Nothing else changes but the note of the change.
pub proof fn lemma_status_change_sets_status(envelope: EventEnvelope, task: Task, other: Status)
    requires
        envelope.payload is TaskStatusChanged,
    ensures
        ({
            let to = envelope.payload->TaskStatusChanged_to;
            let after = task_after(envelope, task);
            &&& after.status == to
            &&& after == task_after(envelope, Task { status: other, ..task })
            &&& after.started_at == if (to == Status::InProgress || to == Status::Done)
                && task.started_at is None {
                Some(envelope.occurred_at)
            } else {
                task.started_at
            }
            &&& to == Status::Done ==> after.completed_by == Some(envelope.actor)
            &&& to != Status::Done ==> after.completed_by == task.completed_by
            &&& after.updated_at == envelope.occurred_at
            &&& after.id == task.id && after.project_id == task.project_id
            &&& after.title == task.title && after.description == task.description
            &&& after.priority == task.priority && after.triage_state == task.triage_state
            &&& after.due_at == task.due_at && after.completed_at == task.completed_at
            &&& after.created_at == task.created_at && after.created_by == task.created_by
            &&& after.source_event_id == task.source_event_id
        }),
{
}

/// After a change of priority a task has the priority that the event names, whatever it had
/// before, and nothing else changes but the note of the change.
pub proof fn lemma_priority_change_sets_priority(
    envelope: EventEnvelope,
    task: Task,
    other: Priority,
)
    requires
        envelope.payload is TaskPriorityChanged,
    ensures
        ({
            let after = task_after(envelope, task);
            &&& after.priority == envelope.payload->TaskPriorityChanged_to
            &&& after == task_after(envelope, Task { priority: other, ..task })
            &&& after.updated_at == envelope.occurred_at
            &&& after.id == task.id && after.project_id == task.project_id
            &&& after.title == task.title && after.description == task.description
            &&& after.status == task.status && after.triage_state == task.triage_state
            &&& after.due_at == task.due_at && after.started_at == task.started_at
            &&& after.completed_at == task.completed_at
            &&& after.completed_by == task.completed_by
            &&& after.created_at == task.created_at && after.created_by == task.created_by
            &&& after.source_event_id == task.source_event_id
        }),
{
}

/// A completed task is done, whatever it was before: at the time that the event names, by
/// the author of the event. It began then at the latest. What the task is about stays as it
/// was.
pub proof fn lemma_completion_ends_task(envelope: EventEnvelope, task: Task, other: Status)
    requires
        envelope.payload is TaskCompleted,
    ensures
        ({
            let at = envelope.payload->TaskCompleted_completed_at;
            let after = task_after(envelope, task);
            &&& after.status == Status::Done
            &&& after == task_after(envelope, Task { status: other, ..task })
            &&& after.completed_at == Some(at)
            &&& after.completed_by == Some(envelope.actor)
            &&& task.started_at is None ==> after.started_at == Some(at)
            &&& task.started_at is Some ==> after.started_at == task.started_at
            &&& after.updated_at == envelope.occurred_at
            &&& after.id == task.id && after.project_id == task.project_id
            &&& after.title == task.title && after.description == task.description
            &&& after.priority == task.priority && after.triage_state == task.triage_state
            &&& after.due_at == task.due_at
            &&& after.created_at == task.created_at && after.created_by == task.created_by
            &&& after.source_event_id == task.source_event_id
        }),
{
}

/// Closing a task notes when it was closed, and reopening it forgets that. Neither changes
/// its status, who completed it or what it is about: a change of status is an event of its
/// own.
pub proof fn lemma_closing_and_reopening_keep_status(envelope: EventEnvelope, task: Task)
    requires
        envelope.payload is TaskClosed || envelope.payload is TaskReopened,
    ensures
        ({
            let after = task_after(envelope, task);
            &&& envelope.payload is TaskClosed ==> {
                let at = envelope.payload->TaskClosed_at;
                &&& after.completed_at == Some(at)
                &&& after.updated_at == at
                &&& task.started_at is None ==> after.started_at == Some(at)
                &&& task.started_at is Some ==> after.started_at == task.started_at
            }
            &&& envelope.payload is TaskReopened ==> {
                &&& after.completed_at is None
                &&& after.updated_at == envelope.payload->TaskReopened_at
                &&& after.started_at == task.started_at
            }
            &&& after.status == task.status && after.completed_by == task.completed_by
            &&& after.id == task.id && after.project_id == task.project_id
            &&& after.title == task.title && after.description == task.description
            &&& after.priority == task.priority && after.triage_state == task.triage_state
            &&& after.due_at == task.due_at
            &&& after.created_at == task.created_at && after.created_by == task.created_by
            &&& after.source_event_id == task.source_event_id
        }),
{
}

/// An update keeps what the patch made of the task, and dates it.
pub proof fn lemma_update_keeps_patched_task(envelope: EventEnvelope, task: Task)
    requires
        envelope.payload is TaskUpdated,
    ensures
        ({
            let after = task_after(envelope, task);
            &&& after.updated_at == envelope.occurred_at
            &&& after.id == task.id && after.project_id == task.project_id
            &&& after.title == task.title && after.description == task.description
            &&& after.status == task.status && after.priority == task.priority
            &&& after.triage_state == task.triage_state && after.due_at == task.due_at
            &&& after.started_at == task.started_at && after.completed_at == task.completed_at
            &&& after.completed_by == task.completed_by
            &&& after.created_at == task.created_at && after.created_by == task.created_by
            &&& after.source_event_id == task.source_event_id
        }),
{
}

/// The six kinds of event that change a stored task name it, and note on it by whom and by
/// which event it was changed. Any other event leaves every task as it is.
pub proof fn lemma_events_that_change_a_task(envelope: EventEnvelope, task: Task)
    ensures
        ({
            let event = envelope.payload;
            let after = task_after(envelope, task);
            let changes = event is TaskUpdated || event is TaskStatusChanged
                || event is TaskPriorityChanged || event is TaskCompleted || event is TaskReopened
                || event is TaskClosed;
            &&& event is TaskUpdated ==> changed_task_id(event) == Some(event->TaskUpdated_task_id)
            &&& event is TaskStatusChanged ==> changed_task_id(event) == Some(
                event->TaskStatusChanged_task_id,
            )
            &&& event is TaskPriorityChanged ==> changed_task_id(event) == Some(
                event->TaskPriorityChanged_task_id,
            )
            &&& event is TaskCompleted ==> changed_task_id(event) == Some(
                event->TaskCompleted_task_id,
            )
            &&& event is TaskReopened ==> changed_task_id(event) == Some(
                event->TaskReopened_task_id,
            )
            &&& event is TaskClosed ==> changed_task_id(event) == Some(event->TaskClosed_task_id)
            &&& changes ==> after.updated_by == Some(envelope.actor) && after.updated_event_id
                == Some(envelope.id) && after.updated_event_seq == Some(envelope.seq)
            &&& !changes ==> changed_task_id(event) is None && after == task
        }),
{
}

/// A task is created as its creator describes it. Where the creator does not say, it gets
/// a fresh identifier, waits in the inbox at middle priority, and has no description. It has
/// neither begun nor ended, and it is the work of the event's author, at the event's time.
pub proof fn lemma_created_task_is_as_described(
    task: Task,
    envelope: EventEnvelope,
    new: NewTask,
    fresh: TaskId,
    source_event_id: Option<EventId>,
)
    requires
        is_created(task, envelope, new, fresh, source_event_id),
    ensures
        new.id is Some ==> task.id == new.id->Some_0,
        new.id is None ==> task.id == fresh,
        task.project_id == new.project_id,
        task.title@ == new.title@,
        new.description is Some ==> task.description@ == new.description->Some_0@,
        new.description is None ==> task.description@.len() == 0,
        new.status is Some ==> task.status == new.status->Some_0,
        new.status is None ==> task.status == Status::Inbox,
        new.priority is Some ==> task.priority == new.priority->Some_0,
        new.priority is None ==> task.priority == Priority::P2,
        task.triage_state == new.triage_state,
        task.due_at == new.due_at,
        task.created_at == envelope.occurred_at && task.updated_at == envelope.occurred_at,
        task.created_by == Some(envelope.actor) && task.updated_by == Some(envelope.actor),
        task.updated_event_id == Some(envelope.id),
        task.updated_event_seq == Some(envelope.seq),
        task.started_at is None && task.completed_at is None && task.completed_by is None,
        task.source_event_id == source_event_id,
{
}

/// Each event about tasks leads to its own step. A creation stores one task that was split
/// from none; a split stores one for each part, in order, that says which event it came
/// from; a deletion deletes the task that it names with its notices; a deadline that passed
/// is noted. No other event creates, deletes or notes anything.
pub proof fn lemma_steps_of_task_events(
    step: TaskStep,
    envelope: EventEnvelope,
    fresh_ids: Seq<TaskId>,
)
    requires
        step.applies(envelope, fresh_ids),
    ensures
        ({
            let event = envelope.payload;
            &&& step is Create <==> event is TaskCreated || event is TaskSplitGenerated
            &&& step is Delete <==> event is TaskDeleted
            &&& step is NotifyDue <==> event is TaskDueElapsed
            &&& step is Change <==> event is TaskUpdated || event is TaskStatusChanged
                || event is TaskPriorityChanged || event is TaskCompleted || event is TaskReopened
                || event is TaskClosed
            &&& event is TaskCreated ==> step->Create_tasks@.len() == 1
                && step->Create_tasks@[0].title@ == event->TaskCreated_task.title@
                && step->Create_tasks@[0].source_event_id is None
            &&& event is TaskSplitGenerated ==> step->Create_tasks@.len()
                == event->TaskSplitGenerated_subtasks@.len() && forall|i: int|
                0 <= i < step->Create_tasks@.len() ==> (
                #[trigger] step->Create_tasks@[i]).source_event_id == Some(envelope.id)
                    && step->Create_tasks@[i].title@
                    == event->TaskSplitGenerated_subtasks@[i].title@
            &&& event is TaskDeleted ==> step->Delete_task_id == event->TaskDeleted_task_id
                && step->Delete_load@.binds == seq![sql_id(event->TaskDeleted_task_id)]
                && step->Delete_deletes@.len() == 2 && forall|i: int|
                0 <= i < 2 ==> (#[trigger] statements(step->Delete_deletes@)[i]).binds
                    == seq![sql_id(event->TaskDeleted_task_id)]
            &&& event is TaskDueElapsed ==> step->NotifyDue_insert@.binds == seq![
                sql_id(event->TaskDueElapsed_task_id),
                sql_time(event->TaskDueElapsed_due_at),
                sql_time(event->TaskDueElapsed_at),
            ]
        }),
{
    let event = envelope.payload;
    if event is TaskDeleted {
        assert(statements(step->Delete_deletes@).len() == step->Delete_deletes@.len());
    }
}

/// As many fresh identifiers are needed as an event creates tasks: one for a creation, one
/// for each part of a split, and none for any other event.
pub proof fn lemma_fresh_ids_for_created_tasks(event: Event)
    ensures
        event is TaskCreated ==> created_count(event) == 1,
        event is TaskSplitGenerated ==> created_count(event)
            == event->TaskSplitGenerated_subtasks@.len(),
        !(event is TaskCreated) && !(event is TaskSplitGenerated) ==> created_count(event) == 0,
{
}

/// The last of two changes of status, or of priority, decides; and a change of the one and a
/// change of the other may come in any order.
pub proof fn lemma_last_change_decides(
    first: EventEnvelope,
    second: EventEnvelope,
    task: Task,
)
    ensures
        first.payload is TaskStatusChanged && second.payload is TaskStatusChanged ==> task_after(
            second,
            task_after(first, task),
        ).status == second.payload->TaskStatusChanged_to,
        first.payload is TaskPriorityChanged && second.payload is TaskPriorityChanged
            ==> task_after(second, task_after(first, task)).priority
            == second.payload->TaskPriorityChanged_to,
        first.payload is TaskStatusChanged && second.payload is TaskPriorityChanged ==> {
            let one_way = task_after(second, task_after(first, task));
            let other_way = task_after(first, task_after(second, task));
            &&& one_way.status == first.payload->TaskStatusChanged_to
            &&& one_way.status == other_way.status
            &&& one_way.priority == second.payload->TaskPriorityChanged_to
            &&& one_way.priority == other_way.priority
        },
{
}

/// Each field of a task has a column of its own: what is written of one that changes is
/// written in its column, and the other columns stay.
pub proof fn lemma_task_has_a_column_for_each_field(record: Task, other: Task)
    ensures
        task_columns(Task { id: other.id, ..record }) == task_columns(record).update(
            0,
            sql_id(other.id),
        ),
        task_columns(Task { project_id: other.project_id, ..record })
            == task_columns(record).update(1, sql_opt_id(other.project_id)),
        task_columns(Task { title: other.title, ..record }) == task_columns(record).update(
            2,
            sql_text(other.title@),
        ),
        task_columns(Task { description: other.description, ..record })
            == task_columns(record).update(3, sql_text(other.description@)),
        task_columns(Task { status: other.status, ..record }) == task_columns(record).update(
            4,
            sql_text(other.status.text()),
        ),
        task_columns(Task { priority: other.priority, ..record }) == task_columns(record).update(
            5,
            sql_text(other.priority.text()),
        ),
        task_columns(Task { due_at: other.due_at, ..record }) == task_columns(record).update(
            6,
            sql_opt_time(other.due_at),
        ),
        task_columns(Task { created_at: other.created_at, ..record })
            == task_columns(record).update(7, sql_time(other.created_at)),
        task_columns(Task { updated_at: other.updated_at, ..record })
            == task_columns(record).update(8, sql_time(other.updated_at)),
        task_columns(Task { started_at: other.started_at, ..record })
            == task_columns(record).update(9, sql_opt_time(other.started_at)),
        task_columns(Task { completed_at: other.completed_at, ..record })
            == task_columns(record).update(10, sql_opt_time(other.completed_at)),
        task_columns(Task { created_by: other.created_by, ..record })
            == task_columns(record).update(11, sql_opt_actor(other.created_by)),
        task_columns(Task { completed_by: other.completed_by, ..record })
            == task_columns(record).update(12, sql_opt_actor(other.completed_by)),
        task_columns(Task { updated_by: other.updated_by, ..record })
            == task_columns(record).update(13, sql_opt_actor(other.updated_by)),
        task_columns(Task { updated_event_id: other.updated_event_id, ..record })
            == task_columns(record).update(14, sql_opt_id(other.updated_event_id)),
        task_columns(Task { updated_event_seq: other.updated_event_seq, ..record })
            == task_columns(record).update(15, sql_opt_int(signed_opt(other.updated_event_seq))),
        task_columns(Task { source_event_id: other.source_event_id, ..record })
            == task_columns(record).update(16, sql_opt_id(other.source_event_id)),
        task_columns(Task { triage_state: other.triage_state, ..record })
            == task_columns(record).update(
                17,
                sql_opt_text(opt_triage_state_text(other.triage_state)),
            ),
        task_columns(record).len() == 18,
{
}

/// Each field of a task is read from columns of its own: what is read of a row with another
/// value there differs in that field alone.
pub proof fn lemma_task_is_read_field_by_field(
    row: TaskRow,
    record: Task,
    other_row: TaskRow,
    other: Task,
)
    requires
        task_read(row, record),
        task_read(other_row, other),
    ensures
        task_read(TaskRow { id: other_row.id, ..row }, Task { id: other.id, ..record }),
        task_read(
            TaskRow { project_id: other_row.project_id, ..row },
            Task { project_id: other.project_id, ..record },
        ),
        task_read(TaskRow { title: other_row.title, ..row }, Task { title: other.title, ..record }),
        task_read(
            TaskRow { description: other_row.description, ..row },
            Task { description: other.description, ..record },
        ),
        task_read(
            TaskRow { status: other_row.status, ..row },
            Task { status: other.status, ..record },
        ),
        task_read(
            TaskRow { priority: other_row.priority, ..row },
            Task { priority: other.priority, ..record },
        ),
        task_read(
            TaskRow { due_at: other_row.due_at, ..row },
            Task { due_at: other.due_at, ..record },
        ),
        task_read(
            TaskRow { created_at: other_row.created_at, ..row },
            Task { created_at: other.created_at, ..record },
        ),
        task_read(
            TaskRow { updated_at: other_row.updated_at, ..row },
            Task { updated_at: other.updated_at, ..record },
        ),
        task_read(
            TaskRow { started_at: other_row.started_at, ..row },
            Task { started_at: other.started_at, ..record },
        ),
        task_read(
            TaskRow { completed_at: other_row.completed_at, ..row },
            Task { completed_at: other.completed_at, ..record },
        ),
        task_read(
            TaskRow { created_by_json: other_row.created_by_json, ..row },
            Task { created_by: other.created_by, ..record },
        ),
        task_read(
            TaskRow { completed_by_json: other_row.completed_by_json, ..row },
            Task { completed_by: other.completed_by, ..record },
        ),
        task_read(
            TaskRow { updated_by_json: other_row.updated_by_json, ..row },
            Task { updated_by: other.updated_by, ..record },
        ),
        task_read(
            TaskRow { updated_event_id: other_row.updated_event_id, ..row },
            Task { updated_event_id: other.updated_event_id, ..record },
        ),
        task_read(
            TaskRow { updated_event_seq: other_row.updated_event_seq, ..row },
            Task { updated_event_seq: other.updated_event_seq, ..record },
        ),
        task_read(
            TaskRow { source_event_id: other_row.source_event_id, ..row },
            Task { source_event_id: other.source_event_id, ..record },
        ),
        task_read(
            TaskRow { triage_state: other_row.triage_state, ..row },
            Task { triage_state: other.triage_state, ..record },
        ),
{
}

/// A row stores each field of a task in columns of its own: with another value there it stores
/// what differs in that field alone.
pub proof fn lemma_task_is_stored_field_by_field(
    row: TaskRow,
    record: Task,
    other_row: TaskRow,
    other: Task,
)
    requires
        row.stores(record),
        other_row.stores(other),
    ensures
        (TaskRow { id: other_row.id, ..row }).stores(Task { id: other.id, ..record }),
        (TaskRow { project_id: other_row.project_id, ..row }).stores(
            Task { project_id: other.project_id, ..record },
        ),
        (TaskRow { title: other_row.title, ..row }).stores(Task { title: other.title, ..record }),
        (TaskRow { description: other_row.description, ..row }).stores(
            Task { description: other.description, ..record },
        ),
        (TaskRow { status: other_row.status, ..row }).stores(
            Task { status: other.status, ..record },
        ),
        (TaskRow { priority: other_row.priority, ..row }).stores(
            Task { priority: other.priority, ..record },
        ),
        (TaskRow { due_at: other_row.due_at, ..row }).stores(
            Task { due_at: other.due_at, ..record },
        ),
        (TaskRow { created_at: other_row.created_at, ..row }).stores(
            Task { created_at: other.created_at, ..record },
        ),
        (TaskRow { updated_at: other_row.updated_at, ..row }).stores(
            Task { updated_at: other.updated_at, ..record },
        ),
        (TaskRow { started_at: other_row.started_at, ..row }).stores(
            Task { started_at: other.started_at, ..record },
        ),
        (TaskRow { completed_at: other_row.completed_at, ..row }).stores(
            Task { completed_at: other.completed_at, ..record },
        ),
        (TaskRow { created_by_json: other_row.created_by_json, ..row }).stores(
            Task { created_by: other.created_by, ..record },
        ),
        (TaskRow { completed_by_json: other_row.completed_by_json, ..row }).stores(
            Task { completed_by: other.completed_by, ..record },
        ),
        (TaskRow { updated_by_json: other_row.updated_by_json, ..row }).stores(
            Task { updated_by: other.updated_by, ..record },
        ),
        (TaskRow { updated_event_id: other_row.updated_event_id, ..row }).stores(
            Task { updated_event_id: other.updated_event_id, ..record },
        ),
        (TaskRow { updated_event_seq: other_row.updated_event_seq, ..row }).stores(
            Task { updated_event_seq: other.updated_event_seq, ..record },
        ),
        (TaskRow { source_event_id: other_row.source_event_id, ..row }).stores(
            Task { source_event_id: other.source_event_id, ..record },
        ),
        (TaskRow { triage_state: other_row.triage_state, ..row }).stores(
            Task { triage_state: other.triage_state, ..record },
        ),
{
}

/// A row of a task without a fault says what is read from it: each identifier, time, state and
/// text stands in it as it is read.
pub proof fn lemma_task_is_what_the_row_says(row: TaskRow, record: Task)
    requires
        (task_fault(row) is None && task_read(row, record))
            || (row.fault() is None && row.holds(record)),
    ensures
        row.id is Ok && crate::ids::id_parsed::<TaskId>(row.id->Ok_0@) == Ok::<TaskId, Seq<char>>(
            record.id,
        ),
        row.project_id is Ok && (row.project_id->Ok_0 is None <==> record.project_id is None),
        row.project_id->Ok_0 matches Some(s)
            ==> crate::ids::id_parsed::<ProjectId>(s@) == Ok::<ProjectId, Seq<char>>(
                record.project_id->Some_0,
            ),
        row.title is Ok && row.title->Ok_0 == record.title,
        row.description is Ok && row.description->Ok_0 == record.description,
        row.status is Ok && row.status->Ok_0@ == record.status.text(),
        row.priority is Ok && row.priority->Ok_0@ == record.priority.text(),
        row.due_at is Ok && (row.due_at->Ok_0 is None <==> record.due_at is None),
        row.due_at->Ok_0 matches Some(s)
            ==> crate::time::rfc3339_parsed(s@) == Ok::<(i64, u32), Seq<char>>(
                (record.due_at->Some_0.seconds(), record.due_at->Some_0.subsec()),
            ),
        row.created_at is Ok
            && crate::time::rfc3339_parsed(row.created_at->Ok_0@) == Ok::<(i64, u32), Seq<char>>(
                (record.created_at.seconds(), record.created_at.subsec()),
            ),
        row.updated_at is Ok
            && crate::time::rfc3339_parsed(row.updated_at->Ok_0@) == Ok::<(i64, u32), Seq<char>>(
                (record.updated_at.seconds(), record.updated_at.subsec()),
            ),
        row.started_at is Ok && (row.started_at->Ok_0 is None <==> record.started_at is None),
        row.started_at->Ok_0 matches Some(s)
            ==> crate::time::rfc3339_parsed(s@) == Ok::<(i64, u32), Seq<char>>(
                (record.started_at->Some_0.seconds(), record.started_at->Some_0.subsec()),
            ),
        row.completed_at is Ok && (row.completed_at->Ok_0 is None <==> record.completed_at is None),
        row.completed_at->Ok_0 matches Some(s)
            ==> crate::time::rfc3339_parsed(s@) == Ok::<(i64, u32), Seq<char>>(
                (record.completed_at->Some_0.seconds(), record.completed_at->Some_0.subsec()),
            ),
        row.created_by_json is Ok
            && (row.created_by_json->Ok_0 is None <==> record.created_by is None),
        row.created_by_json->Ok_0 matches Some(v) ==> v is Ok && record.created_by == Some(v->Ok_0),
        row.completed_by_json is Ok
            && (row.completed_by_json->Ok_0 is None <==> record.completed_by is None),
        row.completed_by_json->Ok_0 matches Some(v) ==> v is Ok && record.completed_by == Some(
            v->Ok_0,
        ),
        row.updated_by_json is Ok
            && (row.updated_by_json->Ok_0 is None <==> record.updated_by is None),
        row.updated_by_json->Ok_0 matches Some(v) ==> v is Ok && record.updated_by == Some(v->Ok_0),
        row.updated_event_id is Ok
            && (row.updated_event_id->Ok_0 is None <==> record.updated_event_id is None),
        row.updated_event_id->Ok_0 matches Some(s)
            ==> crate::ids::id_parsed::<EventId>(s@) == Ok::<EventId, Seq<char>>(
                record.updated_event_id->Some_0,
            ),
        row.updated_event_seq is Ok,
        row.source_event_id is Ok
            && (row.source_event_id->Ok_0 is None <==> record.source_event_id is None),
        row.source_event_id->Ok_0 matches Some(s)
            ==> crate::ids::id_parsed::<EventId>(s@) == Ok::<EventId, Seq<char>>(
                record.source_event_id->Some_0,
            ),
        row.triage_state is Ok && (row.triage_state->Ok_0 is None <==> record.triage_state is None),
        row.triage_state->Ok_0 matches Some(s) ==> s@ == record.triage_state->Some_0.text(),
{
    record.status.lemma_stored_names(row.status->Ok_0@);
    record.priority.lemma_stored_names(row.priority->Ok_0@);
    if row.due_at->Ok_0 is Some {
        crate::time::lemma_time_is_read_from_its_text(row.due_at->Ok_0->Some_0@);
    }
    crate::time::lemma_time_is_read_from_its_text(row.created_at->Ok_0@);
    crate::time::lemma_time_is_read_from_its_text(row.updated_at->Ok_0@);
    if row.started_at->Ok_0 is Some {
        crate::time::lemma_time_is_read_from_its_text(row.started_at->Ok_0->Some_0@);
    }
    if row.completed_at->Ok_0 is Some {
        crate::time::lemma_time_is_read_from_its_text(row.completed_at->Ok_0->Some_0@);
    }
    if row.triage_state->Ok_0 is Some {
        record.triage_state->Some_0.lemma_stored_names(row.triage_state->Ok_0->Some_0@);
    }
}

/// A text that stands for no value is reported with the text; one that stands for a value is
/// not reported.
pub proof fn lemma_unknown_status_is_reported(v: Status, s: Seq<char>)
    ensures
        status_fault(v.text()) is None,
        (forall|w: Status| #[trigger] w.text() != s) ==> status_fault(s) == Some(
            ErrorView::Serde("unknown status: "@ + s),
        ),
{
    v.lemma_text_names_value();
    v.lemma_stored_names(s);
}

/// A text that stands for no value is reported with the text; one that stands for a value is
/// not reported.
pub proof fn lemma_unknown_priority_is_reported(v: Priority, s: Seq<char>)
    ensures
        priority_fault(v.text()) is None,
        (forall|w: Priority| #[trigger] w.text() != s) ==> priority_fault(s) == Some(
            ErrorView::Serde("unknown priority: "@ + s),
        ),
{
    v.lemma_text_names_value();
    v.lemma_stored_names(s);
}

/// A text that stands for no value is reported with the text; one that stands for a value is
/// not reported.
pub proof fn lemma_unknown_triage_state_is_reported(v: TriageState, s: Seq<char>)
    ensures
        triage_state_fault(v.text()) is None,
        (forall|w: TriageState| #[trigger] w.text() != s) ==> triage_state_fault(s) == Some(
            ErrorView::Serde("unknown triage_state: "@ + s),
        ),
{
    v.lemma_text_names_value();
    v.lemma_stored_names(s);
}

/// Tasks are asked for by their project, or for having none, and by their states, where some
/// are given: each mark of the filter has its value.
pub proof fn lemma_tasks_are_asked_for_by_project_and_state(
    project_id: Option<ProjectId>,
    statuses: Seq<Status>,
    i: int,
)
    ensures
        project_id matches Some(id) ==> project_fragment(project_id) == " WHERE project_id = ?"@
            && project_values(project_id) == seq![sql_id(id)],
        project_id is None ==> project_fragment(project_id) == " WHERE project_id IS NULL"@
            && project_values(project_id).len() == 0,
        status_fragment(0, true).len() == 0 && status_fragment(0, false).len() == 0,
        statuses.len() > 0 ==> status_fragment(statuses.len(), true) == " AND status IN ("@
            + crate::text::joined(Seq::new(statuses.len(), |j: int| seq!['?']), ", "@) + ")"@,
        statuses.len() > 0 ==> status_fragment(statuses.len(), false) == " WHERE status IN ("@
            + crate::text::joined(Seq::new(statuses.len(), |j: int| seq!['?']), ", "@) + ")"@,
        status_values(statuses).len() == statuses.len(),
        0 <= i < statuses.len() ==> status_values(statuses)[i] == sql_text(statuses[i].text()),
{
    crate::text::lemma_placeholders_are_joined_question_marks(statuses.len(), ", "@);
}

/// A task that is due is read with its identifier and the time at which it is due.
pub proof fn lemma_due_task_is_what_the_row_says(row: DueRow, record: (TaskId, Timestamp))
    requires
        row.fault() is None,
        row.holds(record),
    ensures
        row.id is Ok && crate::ids::id_parsed::<TaskId>(row.id->Ok_0@) == Ok::<TaskId, Seq<char>>(
            record.0,
        ),
        row.due_at is Ok && crate::time::rfc3339_parsed(row.due_at->Ok_0@) == Ok::<
            (i64, u32),
            Seq<char>,
        >((record.1.seconds(), record.1.subsec())),
{
    crate::time::lemma_time_is_read_from_its_text(row.due_at->Ok_0@);
}

/// A row of a task is refused for what is wrong with a column, with the error of that
/// column; where nothing is wrong with any, nothing is refused.
pub proof fn lemma_task_is_refused_for_its_columns(row: TaskRow, other: TaskRow)
    requires
        task_fault(row) is None,
    ensures
        task_fault(TaskRow { id: other.id, ..row }) == column_fault(other.id).or_fault(
            id_fault::<TaskId>(other.id->Ok_0@),
        ),
        task_fault(TaskRow { project_id: other.project_id, ..row })
            == column_fault(other.project_id).or_fault(
                opt_id_fault::<ProjectId>(other.project_id->Ok_0),
            ),
        task_fault(TaskRow { title: other.title, ..row }) == column_fault(other.title),
        task_fault(TaskRow { description: other.description, ..row }) == column_fault(
            other.description,
        ),
        task_fault(TaskRow { status: other.status, ..row }) == column_fault(other.status).or_fault(
            status_fault(other.status->Ok_0@),
        ),
        task_fault(TaskRow { priority: other.priority, ..row })
            == column_fault(other.priority).or_fault(priority_fault(other.priority->Ok_0@)),
        task_fault(TaskRow { due_at: other.due_at, ..row }) == column_fault(other.due_at).or_fault(
            opt_ts_fault(other.due_at->Ok_0),
        ),
        task_fault(TaskRow { created_at: other.created_at, ..row })
            == column_fault(other.created_at).or_fault(ts_fault(other.created_at->Ok_0@)),
        task_fault(TaskRow { updated_at: other.updated_at, ..row })
            == column_fault(other.updated_at).or_fault(ts_fault(other.updated_at->Ok_0@)),
        task_fault(TaskRow { started_at: other.started_at, ..row })
            == column_fault(other.started_at).or_fault(opt_ts_fault(other.started_at->Ok_0)),
        task_fault(TaskRow { completed_at: other.completed_at, ..row })
            == column_fault(other.completed_at).or_fault(opt_ts_fault(other.completed_at->Ok_0)),
        task_fault(TaskRow { created_by_json: other.created_by_json, ..row })
            == column_fault(other.created_by_json).or_fault(
                opt_parsed_fault(other.created_by_json->Ok_0),
            ),
        task_fault(TaskRow { completed_by_json: other.completed_by_json, ..row })
            == column_fault(other.completed_by_json).or_fault(
                opt_parsed_fault(other.completed_by_json->Ok_0),
            ),
        task_fault(TaskRow { updated_by_json: other.updated_by_json, ..row })
            == column_fault(other.updated_by_json).or_fault(
                opt_parsed_fault(other.updated_by_json->Ok_0),
            ),
        task_fault(TaskRow { updated_event_id: other.updated_event_id, ..row })
            == column_fault(other.updated_event_id).or_fault(
                opt_id_fault::<EventId>(other.updated_event_id->Ok_0),
            ),
        task_fault(TaskRow { updated_event_seq: other.updated_event_seq, ..row }) == column_fault(
            other.updated_event_seq,
        ),
        task_fault(TaskRow { source_event_id: other.source_event_id, ..row })
            == column_fault(other.source_event_id).or_fault(
                opt_id_fault::<EventId>(other.source_event_id->Ok_0),
            ),
        task_fault(TaskRow { triage_state: other.triage_state, ..row })
            == column_fault(other.triage_state).or_fault(
                opt_triage_state_fault(other.triage_state->Ok_0),
            ),
{
}

} // verus!
