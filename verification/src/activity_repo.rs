//! The activity feed: a row for each event that people follow, in the `activity` table.
use vstd::prelude::*;

use crate::domain::{Activity, Actor, Verb};
use crate::error::{CoreError, ErrorView};
use crate::events::{Event, EventEnvelope};
use crate::ids::{
    id_fault, id_text, id_value, opt_id_fault, opt_id_value, parse_id, parse_opt_id, print_id,
    ActivityId, EventId, PlanId, ProjectId, RunId, TaskId,
};
use crate::json::{json_printed, print_json, Json, JsonMap, JsonView};
use crate::query::{
    sql_actor, sql_id, sql_int, sql_opt_id, sql_opt_text, sql_text, sql_time, statement, Query,
    QueryView,
};
use crate::rows::{
    all_sound, column, column_fault, decode_all, first_fault, has_actor, has_int, has_opt_text,
    has_text, parsed, parsed_fault, Column, Decode, Faults, Parsed,
};
use crate::text::{concat2, first_chars, opt_text, placeholder_list, placeholders, take_chars};
use crate::time::{parse_ts, ts_fault, ts_value, Timestamp};

verus! {

/// The activity projection.
#[derive(Clone, Copy, Debug)]
pub struct ActivityRepo;

pub const GET_ACTIVITY: &'static str = "SELECT id, task_id, project_id, actor_json, verb, field, old_value, new_value, \
     occurred_at, event_id, seq \
     FROM activity WHERE id = ?";

pub const LIST_FOR_TASK: &'static str = "SELECT id, task_id, project_id, actor_json, verb, field, old_value, new_value, \
     occurred_at, event_id, seq \
     FROM activity WHERE task_id = ? AND seq > ? ORDER BY seq ASC LIMIT ?";

pub const LIST_BY_VERBS_HEAD: &'static str = "SELECT id, task_id, project_id, actor_json, verb, field, old_value, new_value, \
     occurred_at, event_id, seq \
     FROM activity WHERE task_id = ? AND seq > ? AND verb IN (";

pub const LIST_BY_VERBS_TAIL: &'static str = ") ORDER BY seq ASC LIMIT ?";

pub const LAST_SEQ: &'static str = "SELECT COALESCE(MAX(seq), 0) AS max_seq FROM activity";

pub const INSERT_ACTIVITY: &'static str = "INSERT OR IGNORE INTO activity \
     (id, task_id, project_id, actor_json, verb, field, old_value, new_value, \
     occurred_at, event_id, seq) \
     VALUES (?, ?, ?, ?, ?, ?, ?, ?, ?, ?, ?)";

pub const UPDATE_VERB: &'static str = "UPDATE activity SET verb = ? WHERE task_id = ? AND seq = ?";

pub const UPDATE_COMMENTED: &'static str = "UPDATE activity SET verb = 'commented', new_value = ? \
     WHERE task_id = ? AND seq = ?";

pub const PROJECT_OF_TASK: &'static str = "SELECT project_id FROM activity WHERE task_id = ? \
     ORDER BY seq DESC LIMIT 1";

pub const PROJECT_OF_PLAN: &'static str = "SELECT project_id FROM plans WHERE id = ?";

pub const PROJECT_OF_RUN: &'static str = "SELECT p.project_id FROM plans p \
     JOIN runs r ON r.plan_id = p.id \
     WHERE r.id = ?";

/// The most rows that one page of the feed holds.
pub const MAX_PAGE: u32 = 500;

/// The characters of a comment that the feed shows.
pub const PREVIEW_CHARS: usize = 80;

/// Why a text is no verb.
pub open spec fn verb_fault(s: Seq<char>) -> Option<ErrorView> {
    if Verb::named(s) is Some {
        None
    } else {
        Some(ErrorView::Serde("unknown verb: "@ + s))
    }
}

/// Reads a verb.
pub fn parse_verb(s: &str) -> (r: Result<Verb, CoreError>)
    ensures
        match verb_fault(s@) {
            Some(e) => r is Err && r->Err_0@ == e,
            None => r is Ok && Some(r->Ok_0) == Verb::named(s@),
        },
{
    match Verb::parse(s) {
        Some(v) => Ok(v),
        None => Err(CoreError::Serde(concat2("unknown verb: ", s))),
    }
}

/// A row of the `activity` table.
#[derive(Debug, PartialEq, Eq)]
pub struct ActivityRow {
    pub id: Column<String>,
    pub task_id: Column<Option<String>>,
    pub project_id: Column<Option<String>>,
    pub actor_json: Column<Parsed<Actor>>,
    pub verb: Column<String>,
    pub field: Column<Option<String>>,
    pub old_value: Column<Option<String>>,
    pub new_value: Column<Option<String>>,
    pub occurred_at: Column<String>,
    pub event_id: Column<String>,
    pub seq: Column<i64>,
}

/// What is wrong with an activity row, where something is: the columns and their
/// values are looked at in this order.
pub open spec fn activity_fault(row: ActivityRow) -> Option<ErrorView> {
    column_fault(row.id).or_fault(
        column_fault(row.task_id),
    ).or_fault(
        column_fault(row.project_id),
    ).or_fault(
        column_fault(row.actor_json),
    ).or_fault(
        column_fault(row.verb),
    ).or_fault(
        column_fault(row.field),
    ).or_fault(
        column_fault(row.old_value),
    ).or_fault(
        column_fault(row.new_value),
    ).or_fault(
        column_fault(row.occurred_at),
    ).or_fault(
        column_fault(row.event_id),
    ).or_fault(
        column_fault(row.seq),
    ).or_fault(
        id_fault::<ActivityId>(row.id->Ok_0@),
    ).or_fault(
        opt_id_fault::<TaskId>(row.task_id->Ok_0),
    ).or_fault(
        opt_id_fault::<ProjectId>(row.project_id->Ok_0),
    ).or_fault(
        parsed_fault(row.actor_json->Ok_0),
    ).or_fault(
        verb_fault(row.verb->Ok_0@),
    ).or_fault(
        ts_fault(row.occurred_at->Ok_0@),
    ).or_fault(
        id_fault::<EventId>(row.event_id->Ok_0@),
    )
}

/// The record is what a sound activity row says.
pub open spec fn activity_read(row: ActivityRow, record: Activity) -> bool {
    &&& record.id == id_value::<ActivityId>(row.id->Ok_0@)
    &&& record.task_id == opt_id_value::<TaskId>(row.task_id->Ok_0)
    &&& record.project_id == opt_id_value::<ProjectId>(row.project_id->Ok_0)
    &&& record.actor == row.actor_json->Ok_0->Ok_0
    &&& Some(record.verb) == Verb::named(row.verb->Ok_0@)
    &&& record.field == row.field->Ok_0
    &&& record.old_value == row.old_value->Ok_0
    &&& record.new_value == row.new_value->Ok_0
    &&& record.occurred_at == ts_value(row.occurred_at->Ok_0@)
    &&& record.event_id == id_value::<EventId>(row.event_id->Ok_0@)
    &&& record.seq == row.seq->Ok_0
}

/// Reads an activity from its row.
pub fn row_to_activity(row: ActivityRow) -> (r: Result<Activity, CoreError>)
    ensures
        match activity_fault(row) {
            Some(e) => r is Err && r->Err_0@ == e,
            None => r is Ok && activity_read(row, r->Ok_0),
        },
{
    let id = column(row.id)?;
    let task_id = column(row.task_id)?;
    let project_id = column(row.project_id)?;
    let actor_json = column(row.actor_json)?;
    let verb = column(row.verb)?;
    let field = column(row.field)?;
    let old_value = column(row.old_value)?;
    let new_value = column(row.new_value)?;
    let occurred_at = column(row.occurred_at)?;
    let event_id = column(row.event_id)?;
    let seq = column(row.seq)?;
    let id = parse_id::<ActivityId>(id.as_str())?;
    let task_id = parse_opt_id::<TaskId>(&task_id)?;
    let project_id = parse_opt_id::<ProjectId>(&project_id)?;
    let actor_json = parsed(actor_json)?;
    let verb = parse_verb(verb.as_str())?;
    let occurred_at = parse_ts(occurred_at.as_str())?;
    let event_id = parse_id::<EventId>(event_id.as_str())?;
    Ok(Activity {
        id,
        task_id,
        project_id,
        actor: actor_json,
        verb,
        field,
        old_value,
        new_value,
        occurred_at,
        event_id,
        seq,
    })
}

impl Decode for ActivityRow {
    type Record = Activity;

    open spec fn fault(&self) -> Option<ErrorView> {
        activity_fault(*self)
    }

    open spec fn holds(&self, record: Activity) -> bool {
        activity_read(*self, record)
    }

    fn decode(self) -> (r: Result<Activity, CoreError>) {
        row_to_activity(self)
    }
}

impl ActivityRow {
    /// Each column of the row holds what is written for it.
    pub open spec fn stores(self, row: PendingRow, project_id: Option<ProjectId>) -> bool {
        &&& has_text(self.id, sql_id(row.id))
        &&& has_opt_text(self.task_id, sql_opt_id(row.entry@.task_id))
        &&& has_opt_text(self.project_id, sql_opt_id(project_id))
        &&& has_actor(self.actor_json, sql_actor(row.actor))
        &&& has_text(self.verb, sql_text(row.entry@.verb.text()))
        &&& has_opt_text(self.field, sql_opt_text(row.entry@.field))
        &&& has_opt_text(self.old_value, sql_opt_text(row.entry@.old_value))
        &&& has_opt_text(self.new_value, sql_opt_text(row.entry@.new_value))
        &&& has_text(self.occurred_at, sql_time(row.occurred_at))
        &&& has_text(self.event_id, sql_id(row.event_id))
        &&& has_int(self.seq, sql_int(row.seq as int))
    }
}


/// Where the project of an activity row comes from.
#[derive(Clone, Copy, Debug, PartialEq, Eq, Structural)]
pub enum ProjectSource {
    /// The event says it.
    Known(Option<ProjectId>),
    /// The latest row of the task has it.
    OfTask(TaskId),
    /// The plan has it.
    OfPlan(PlanId),
    /// The plan of the run has it.
    OfRun(RunId),
}

/// What the feed tells of an event.
#[derive(Clone, Debug, PartialEq, Eq)]
pub struct ActivityEntry {
    pub task_id: Option<TaskId>,
    pub project: ProjectSource,
    pub verb: Verb,
    pub field: Option<String>,
    pub old_value: Option<String>,
    pub new_value: Option<String>,
}

/// The mathematical model of [`ActivityEntry`].
#[verifier::ext_equal]
pub ghost struct EntryView {
    pub task_id: Option<TaskId>,
    pub project: ProjectSource,
    pub verb: Verb,
    pub field: Option<Seq<char>>,
    pub old_value: Option<Seq<char>>,
    pub new_value: Option<Seq<char>>,
}

impl View for ActivityEntry {
    type V = EntryView;

    open spec fn view(&self) -> EntryView {
        EntryView {
            task_id: self.task_id,
            project: self.project,
            verb: self.verb,
            field: opt_text(self.field),
            old_value: opt_text(self.old_value),
            new_value: opt_text(self.new_value),
        }
    }
}

/// An entry on a task, whose project is that of the task's latest row.
pub open spec fn task_entry(task_id: TaskId, verb: Verb) -> EntryView {
    EntryView {
        task_id: Some(task_id),
        project: ProjectSource::OfTask(task_id),
        verb,
        field: None,
        old_value: None,
        new_value: None,
    }
}

/// An entry on a plan.
pub open spec fn plan_entry(plan_id: PlanId, verb: Verb) -> EntryView {
    EntryView {
        task_id: None,
        project: ProjectSource::OfPlan(plan_id),
        verb,
        field: None,
        old_value: None,
        new_value: None,
    }
}

/// An entry on a run.
pub open spec fn run_entry(run_id: RunId, verb: Verb) -> EntryView {
    EntryView {
        task_id: None,
        project: ProjectSource::OfRun(run_id),
        verb,
        field: None,
        old_value: None,
        new_value: None,
    }
}

/// An entry on a project, or on none.
pub open spec fn project_entry(project_id: Option<ProjectId>, verb: Verb) -> EntryView {
    EntryView {
        task_id: None,
        project: ProjectSource::Known(project_id),
        verb,
        field: None,
        old_value: None,
        new_value: None,
    }
}

impl EntryView {
    /// The entry with a new value.
    pub open spec fn value(self, new_value: Seq<char>) -> EntryView {
        EntryView { new_value: Some(new_value), ..self }
    }

    /// The entry for a field that changed from one value to another.
    pub open spec fn change(self, field: Seq<char>, from: Option<Seq<char>>, to: Seq<char>) -> EntryView {
        EntryView { field: Some(field), old_value: from, new_value: Some(to), ..self }
    }
}

/// What the feed shows of a relation that was made or removed.
pub open spec fn link_payload(relation_id: Seq<char>, kind: Seq<char>, to: Seq<char>) -> JsonView {
    JsonView::Object(
        Map::<Seq<char>, JsonView>::empty().insert(
            "relation_id"@,
            JsonView::Text(relation_id),
        ).insert("kind"@, JsonView::Text(kind)).insert("to"@, JsonView::Text(to)),
    )
}

/// What the feed shows of a relation that changed its kind.
pub open spec fn kind_change_payload(
    relation_id: Seq<char>,
    from_kind: Seq<char>,
    to_kind: Seq<char>,
    to: Seq<char>,
) -> JsonView {
    JsonView::Object(
        Map::<Seq<char>, JsonView>::empty().insert(
            "relation_id"@,
            JsonView::Text(relation_id),
        ).insert("from_kind"@, JsonView::Text(from_kind)).insert(
            "to_kind"@,
            JsonView::Text(to_kind),
        ).insert("to"@, JsonView::Text(to)),
    )
}

/// What the feed shows of a task that is no longer blocked.
pub open spec fn unblocked_payload(by: Seq<char>) -> JsonView {
    JsonView::Object(
        Map::<Seq<char>, JsonView>::empty().insert("unblocked_by"@, JsonView::Text(by)),
    )
}

/// What the feed tells of an event; nothing of internal and signal events, and of
/// records that have a projection of their own.
pub open spec fn entry_of(event: Event) -> Option<EntryView> {
    match event {
        Event::TaskCreated { task } => Some(
            EntryView {
                task_id: task.id,
                project: ProjectSource::Known(task.project_id),
                verb: Verb::Created,
                field: None,
                old_value: None,
                new_value: Some(task.title@),
            },
        ),
        Event::TaskUpdated { task_id, patch } => Some(
            task_entry(task_id, Verb::Updated).value(patch.json@),
        ),
        Event::TaskStatusChanged { task_id, from, to } => Some(
            task_entry(task_id, Verb::StatusChanged).change("status"@, Some(from.text()), to.text()),
        ),
        Event::TaskPriorityChanged { task_id, from, to } => Some(
            task_entry(task_id, Verb::PriorityChanged).change(
                "priority"@,
                Some(from.text()),
                to.text(),
            ),
        ),
        Event::TaskCompleted { task_id, .. } => Some(task_entry(task_id, Verb::Completed)),
        Event::TaskDeleted { task_id } => Some(task_entry(task_id, Verb::Deleted)),
        Event::TaskSplitGenerated { parent, .. } => Some(task_entry(parent, Verb::SplitGenerated)),
        Event::TaskClosed { task_id, .. } => Some(task_entry(task_id, Verb::Closed)),
        Event::TaskReopened { task_id, .. } => Some(task_entry(task_id, Verb::Reopened)),
        Event::TaskCommented { task_id, preview, .. } => Some(
            task_entry(task_id, Verb::Commented).value(preview@),
        ),
        Event::ProjectCreated { project } => Some(
            project_entry(Some(project.id), Verb::ProjectCreated).value(project.title@),
        ),
        Event::ProjectUpdated { project_id, .. } => Some(
            project_entry(Some(project_id), Verb::ProjectUpdated),
        ),
        Event::ProjectDeleted { project_id } => Some(
            project_entry(Some(project_id), Verb::ProjectDeleted),
        ),
        Event::CommentAdded { comment } => Some(
            task_entry(comment.task_id, Verb::Commented).value(
                first_chars(comment.body@, PREVIEW_CHARS as nat),
            ),
        ),
        Event::CommentEdited { task_id, .. } => Some(task_entry(task_id, Verb::CommentEdited)),
        Event::CommentDeleted { task_id, .. } => Some(task_entry(task_id, Verb::CommentDeleted)),
        Event::AgentActionRecorded { .. } => Some(project_entry(None, Verb::AgentAction)),
        Event::PlanCreated { plan } => Some(
            project_entry(Some(plan.project_id), Verb::PlanCreated).value(plan.title@),
        ),
        Event::PlanUpdated { plan_id, patch } => Some(
            match patch.parent_plan_id {
                Some(Some(parent)) => plan_entry(plan_id, Verb::PlanReparented).change(
                    "parent_plan_id"@,
                    None,
                    id_text(parent),
                ),
                Some(None) => plan_entry(plan_id, Verb::PlanReparented).change(
                    "parent_plan_id"@,
                    None,
                    "null"@,
                ),
                None => plan_entry(plan_id, Verb::PlanModified),
            },
        ),
        Event::PlanReordered { plan_id, .. } => Some(plan_entry(plan_id, Verb::PlanModified)),
        Event::PlanStatusChanged { plan_id, from, to } => Some(
            plan_entry(plan_id, Verb::PlanModified).change("status"@, Some(from.text()), to.text()),
        ),
        Event::PlanGoalChanged { plan_id, from, to } => Some(
            plan_entry(plan_id, Verb::PlanModified).change("goal"@, Some(from@), to@),
        ),
        Event::PlanTaskAdded { plan_id, task_id, .. } => Some(
            EntryView {
                task_id: Some(task_id),
                ..plan_entry(plan_id, Verb::TaskAttached).value(id_text(plan_id))
            },
        ),
        Event::PlanTaskRemoved { plan_id, task_id } => Some(
            EntryView {
                task_id: Some(task_id),
                ..plan_entry(plan_id, Verb::TaskDetached).value(id_text(plan_id))
            },
        ),
        Event::PlanArchived { plan_id, .. } => Some(plan_entry(plan_id, Verb::PlanArchived)),
        Event::RunStarted { run } => Some(
            plan_entry(run.plan_id, Verb::RunStarted).value(id_text(run.id)),
        ),
        Event::RunCompleted { run_id, .. } => Some(run_entry(run_id, Verb::RunCompleted)),
        Event::RunFailed { run_id, reason, .. } => Some(
            run_entry(run_id, Verb::RunFailed).value(reason@),
        ),
        Event::RunAborted { run_id, reason, .. } => Some(
            run_entry(run_id, Verb::RunAborted).value(reason@),
        ),
        Event::AgentClaimed { task_id, .. } => Some(task_entry(task_id, Verb::TaskClaimed)),
        Event::AgentReleased { task_id, .. } => Some(task_entry(task_id, Verb::TaskReleased)),
        Event::TaskLinked { relation_id, from, to, kind, .. } => Some(
            task_entry(from, Verb::Linked).value(
                json_printed(link_payload(id_text(relation_id), kind.text(), id_text(to))),
            ),
        ),
        Event::TaskUnlinked { relation_id, from, to, kind, .. } => Some(
            task_entry(from, Verb::Unlinked).value(
                json_printed(link_payload(id_text(relation_id), kind.text(), id_text(to))),
            ),
        ),
        Event::TaskUnblocked { task_id, unblocked_by, .. } => Some(
            task_entry(task_id, Verb::Unblocked).value(
                json_printed(unblocked_payload(id_text(unblocked_by))),
            ),
        ),
        Event::TaskDueElapsed { task_id, due_at, .. } => Some(
            task_entry(task_id, Verb::DueElapsed).change("due_at"@, None, due_at.text()),
        ),
        Event::TaskRelationKindChanged { relation_id, from, to, from_kind, to_kind, .. } => Some(
            task_entry(from, Verb::RelationKindChanged).change(
                "kind"@,
                Some(json_printed(JsonView::Text(from_kind.text()))),
                json_printed(
                    kind_change_payload(
                        id_text(relation_id),
                        from_kind.text(),
                        to_kind.text(),
                        id_text(to),
                    ),
                ),
            ),
        ),
        _ => None,
    }
}

/// The place in the log just before `seq`, as the database counts.
pub open spec fn place_before(seq: u64) -> i64 {
    if seq > 0 {
        (seq - 1) as u64 as i64
    } else {
        0
    }
}

/// How an event that completes the one just before it changes that one's row, rather
/// than adding a row of its own.
pub open spec fn merge_of(envelope: EventEnvelope) -> Option<QueryView> {
    match envelope.payload {
        Event::TaskClosed { task_id, .. } => Some(
            statement(
                UPDATE_VERB@,
                seq![
                    sql_text(Verb::Closed.text()),
                    sql_id(task_id),
                    sql_int(place_before(envelope.seq) as int),
                ],
            ),
        ),
        Event::TaskReopened { task_id, .. } => Some(
            statement(
                UPDATE_VERB@,
                seq![
                    sql_text(Verb::Reopened.text()),
                    sql_id(task_id),
                    sql_int(place_before(envelope.seq) as int),
                ],
            ),
        ),
        Event::TaskCommented { task_id, preview, .. } => Some(
            statement(
                UPDATE_COMMENTED@,
                seq![
                    sql_text(preview@),
                    sql_id(task_id),
                    sql_int(place_before(envelope.seq) as int),
                ],
            ),
        ),
        _ => None,
    }
}

/// The query for the project of a row, where the event does not say it.
pub open spec fn lookup_of(project: ProjectSource) -> Option<QueryView> {
    match project {
        ProjectSource::Known(_) => None,
        ProjectSource::OfTask(id) => Some(statement(PROJECT_OF_TASK@, seq![sql_id(id)])),
        ProjectSource::OfPlan(id) => Some(statement(PROJECT_OF_PLAN@, seq![sql_id(id)])),
        ProjectSource::OfRun(id) => Some(statement(PROJECT_OF_RUN@, seq![sql_id(id)])),
    }
}

/// A row of the feed whose project is still to be found.
#[derive(Clone, Debug, PartialEq, Eq)]
pub struct PendingRow {
    pub id: ActivityId,
    pub entry: ActivityEntry,
    pub actor: Actor,
    pub occurred_at: Timestamp,
    pub event_id: EventId,
    pub seq: i64,
}

impl PendingRow {
    /// The row tells of the event in the envelope.
    pub open spec fn tells(self, envelope: EventEnvelope, id: ActivityId) -> bool {
        &&& self.id == id
        &&& entry_of(envelope.payload) == Some(self.entry@)
        &&& self.actor == envelope.actor
        &&& self.occurred_at == envelope.occurred_at
        &&& self.event_id == envelope.id
        &&& self.seq == envelope.seq as i64
    }

    /// The statement that stores the row, given its project.
    pub open spec fn insertion(self, project_id: Option<ProjectId>) -> QueryView {
        statement(
            INSERT_ACTIVITY@,
            seq![
                sql_id(self.id),
                sql_opt_id(self.entry@.task_id),
                sql_opt_id(project_id),
                sql_actor(self.actor),
                sql_text(self.entry@.verb.text()),
                sql_opt_text(self.entry@.field),
                sql_opt_text(self.entry@.old_value),
                sql_opt_text(self.entry@.new_value),
                sql_time(self.occurred_at),
                sql_id(self.event_id),
                sql_int(self.seq as int),
            ],
        )
    }
}

impl PendingRow {
    /// The activity record says what the row says.
    pub open spec fn is_told_by(self, project_id: Option<ProjectId>, record: Activity) -> bool {
        &&& record.id == self.id
        &&& record.task_id == self.entry@.task_id
        &&& record.project_id == project_id
        &&& record.actor@ == self.actor@
        &&& record.verb == self.entry@.verb
        &&& opt_text(record.field) == self.entry@.field
        &&& opt_text(record.old_value) == self.entry@.old_value
        &&& opt_text(record.new_value) == self.entry@.new_value
        &&& record.occurred_at == self.occurred_at
        &&& record.event_id == self.event_id
        &&& record.seq == self.seq
    }
}

/// The next step of storing what the feed tells of an event.
#[derive(Clone, Debug, PartialEq, Eq)]
pub enum ActivityStep {
    /// Nothing is left to do.
    Done,
    /// Run the update; where it changes no row, go on with the row of its own.
    Merge { update: Query, otherwise: PendingRow },
    /// Run the query for the project, then store the row.
    Lookup { select: Query, row: PendingRow },
    /// Store the row.
    Insert { insert: Query },
}

impl ActivityStep {
    /// The step stores a row of its own: at once where its project is known, else
    /// after looking that up.
    pub open spec fn stores(self, row: PendingRow) -> bool {
        match row.entry.project {
            ProjectSource::Known(project_id) => self matches ActivityStep::Insert { insert }
                && insert@ == row.insertion(project_id),
            source => self matches ActivityStep::Lookup { select, row: pending } && Some(select@)
                == lookup_of(source) && pending == row,
        }
    }
}

/// The project column that a lookup gives.
#[derive(Debug, PartialEq, Eq)]
pub struct ProjectIdRow {
    pub project_id: Column<Option<String>>,
}

/// What is wrong with the project that was looked up for a row, where something is. A task
/// may be without a project. A plan may not: a null there reads as an empty text, which is
/// no identifier.
pub open spec fn lookup_fault(project: ProjectSource, found: ProjectIdRow) -> Option<ErrorView> {
    column_fault(found.project_id).or_fault(
        if (project is OfPlan || project is OfRun) && found.project_id->Ok_0 is None {
            id_fault::<ProjectId>(seq![])
        } else {
            opt_id_fault::<ProjectId>(found.project_id->Ok_0)
        },
    )
}

fn plain_entry(task_id: Option<TaskId>, project: ProjectSource, verb: Verb, new_value: Option<String>) -> (r:
    ActivityEntry)
    ensures
        r@ == (EntryView {
            task_id,
            project,
            verb,
            field: None,
            old_value: None,
            new_value: opt_text(new_value),
        }),
{
    ActivityEntry { task_id, project, verb, field: None, old_value: None, new_value }
}

fn on_task(task_id: TaskId, verb: Verb) -> (r: ActivityEntry)
    ensures
        r@ == task_entry(task_id, verb),
{
    plain_entry(Some(task_id), ProjectSource::OfTask(task_id), verb, None)
}

fn on_plan(plan_id: PlanId, verb: Verb) -> (r: ActivityEntry)
    ensures
        r@ == plan_entry(plan_id, verb),
{
    plain_entry(None, ProjectSource::OfPlan(plan_id), verb, None)
}

fn on_run(run_id: RunId, verb: Verb) -> (r: ActivityEntry)
    ensures
        r@ == run_entry(run_id, verb),
{
    plain_entry(None, ProjectSource::OfRun(run_id), verb, None)
}

fn on_project(project_id: Option<ProjectId>, verb: Verb) -> (r: ActivityEntry)
    ensures
        r@ == project_entry(project_id, verb),
{
    plain_entry(None, ProjectSource::Known(project_id), verb, None)
}

impl ActivityEntry {
    fn value(self, new_value: String) -> (r: ActivityEntry)
        ensures
            r@ == self@.value(new_value@),
    {
        ActivityEntry { new_value: Some(new_value), ..self }
    }

    fn change(self, field: &str, from: Option<String>, to: String) -> (r: ActivityEntry)
        ensures
            r@ == self@.change(field@, opt_text(from), to@),
    {
        ActivityEntry { field: Some(field.to_owned()), old_value: from, new_value: Some(to), ..self }
    }
}

fn print_link(relation_id: String, kind: &str, to: String) -> (r: String)
    ensures
        r@ == json_printed(link_payload(relation_id@, kind@, to@)),
{
    let payload = JsonMap::new().with("relation_id", Json::Text(relation_id)).with(
        "kind",
        Json::text(kind),
    ).with("to", Json::Text(to));
    print_json(&Json::Object(payload))
}

impl ActivityRepo {
    /// What the feed tells of an event.
    pub fn entry(event: &Event) -> (r: Option<ActivityEntry>)
        ensures
            match entry_of(*event) {
                Some(e) => r is Some && r->Some_0@ == e,
                None => r is None,
            },
    {
        match event {
            Event::TaskCreated { task } => Some(
                plain_entry(
                    task.id,
                    ProjectSource::Known(task.project_id),
                    Verb::Created,
                    Some(task.title.clone()),
                ),
            ),
            Event::TaskUpdated { task_id, patch } => Some(
                on_task(*task_id, Verb::Updated).value(patch.json.clone()),
            ),
            Event::TaskStatusChanged { task_id, from, to } => Some(
                on_task(*task_id, Verb::StatusChanged).change(
                    "status",
                    Some(from.as_str().to_owned()),
                    to.as_str().to_owned(),
                ),
            ),
            Event::TaskPriorityChanged { task_id, from, to } => Some(
                on_task(*task_id, Verb::PriorityChanged).change(
                    "priority",
                    Some(from.as_str().to_owned()),
                    to.as_str().to_owned(),
                ),
            ),
            Event::TaskCompleted { task_id, .. } => Some(on_task(*task_id, Verb::Completed)),
            Event::TaskDeleted { task_id } => Some(on_task(*task_id, Verb::Deleted)),
            Event::TaskSplitGenerated { parent, .. } => Some(
                on_task(*parent, Verb::SplitGenerated),
            ),
            Event::TaskClosed { task_id, .. } => Some(on_task(*task_id, Verb::Closed)),
            Event::TaskReopened { task_id, .. } => Some(on_task(*task_id, Verb::Reopened)),
            Event::TaskCommented { task_id, preview, .. } => Some(
                on_task(*task_id, Verb::Commented).value(preview.clone()),
            ),
            Event::ProjectCreated { project } => Some(
                on_project(Some(project.id), Verb::ProjectCreated).value(project.title.clone()),
            ),
            Event::ProjectUpdated { project_id, .. } => Some(
                on_project(Some(*project_id), Verb::ProjectUpdated),
            ),
            Event::ProjectDeleted { project_id } => Some(
                on_project(Some(*project_id), Verb::ProjectDeleted),
            ),
            Event::CommentAdded { comment } => Some(
                on_task(comment.task_id, Verb::Commented).value(
                    take_chars(comment.body.as_str(), PREVIEW_CHARS),
                ),
            ),
            Event::CommentEdited { task_id, .. } => Some(on_task(*task_id, Verb::CommentEdited)),
            Event::CommentDeleted { task_id, .. } => Some(on_task(*task_id, Verb::CommentDeleted)),
            Event::AgentActionRecorded { .. } => Some(on_project(None, Verb::AgentAction)),
            Event::PlanCreated { plan } => Some(
                on_project(Some(plan.project_id), Verb::PlanCreated).value(plan.title.clone()),
            ),
            Event::PlanUpdated { plan_id, patch } => Some(
                match &patch.parent_plan_id {
                    Some(Some(parent)) => on_plan(*plan_id, Verb::PlanReparented).change(
                        "parent_plan_id",
                        None,
                        print_id(parent),
                    ),
                    Some(None) => on_plan(*plan_id, Verb::PlanReparented).change(
                        "parent_plan_id",
                        None,
                        "null".to_owned(),
                    ),
                    None => on_plan(*plan_id, Verb::PlanModified),
                },
            ),
            Event::PlanReordered { plan_id, .. } => Some(on_plan(*plan_id, Verb::PlanModified)),
            Event::PlanStatusChanged { plan_id, from, to } => Some(
                on_plan(*plan_id, Verb::PlanModified).change(
                    "status",
                    Some(from.as_str().to_owned()),
                    to.as_str().to_owned(),
                ),
            ),
            Event::PlanGoalChanged { plan_id, from, to } => Some(
                on_plan(*plan_id, Verb::PlanModified).change(
                    "goal",
                    Some(from.clone()),
                    to.clone(),
                ),
            ),
            Event::PlanTaskAdded { plan_id, task_id, .. } => Some(
                plain_entry(
                    Some(*task_id),
                    ProjectSource::OfPlan(*plan_id),
                    Verb::TaskAttached,
                    Some(print_id(plan_id)),
                ),
            ),
            Event::PlanTaskRemoved { plan_id, task_id } => Some(
                plain_entry(
                    Some(*task_id),
                    ProjectSource::OfPlan(*plan_id),
                    Verb::TaskDetached,
                    Some(print_id(plan_id)),
                ),
            ),
            Event::PlanArchived { plan_id, .. } => Some(on_plan(*plan_id, Verb::PlanArchived)),
            Event::RunStarted { run } => Some(
                on_plan(run.plan_id, Verb::RunStarted).value(print_id(&run.id)),
            ),
            Event::RunCompleted { run_id, .. } => Some(on_run(*run_id, Verb::RunCompleted)),
            Event::RunFailed { run_id, reason, .. } => Some(
                on_run(*run_id, Verb::RunFailed).value(reason.clone()),
            ),
            Event::RunAborted { run_id, reason, .. } => Some(
                on_run(*run_id, Verb::RunAborted).value(reason.clone()),
            ),
            Event::AgentClaimed { task_id, .. } => Some(on_task(*task_id, Verb::TaskClaimed)),
            Event::AgentReleased { task_id, .. } => Some(on_task(*task_id, Verb::TaskReleased)),
            Event::TaskLinked { relation_id, from, to, kind, .. } => Some(
                on_task(*from, Verb::Linked).value(
                    print_link(print_id(relation_id), kind.as_str(), print_id(to)),
                ),
            ),
            Event::TaskUnlinked { relation_id, from, to, kind, .. } => Some(
                on_task(*from, Verb::Unlinked).value(
                    print_link(print_id(relation_id), kind.as_str(), print_id(to)),
                ),
            ),
            Event::TaskUnblocked { task_id, unblocked_by, .. } => {
                let payload = JsonMap::new().with("unblocked_by", Json::Text(print_id(unblocked_by)));
                Some(on_task(*task_id, Verb::Unblocked).value(print_json(&Json::Object(payload))))
            },
            Event::TaskDueElapsed { task_id, due_at, .. } => Some(
                on_task(*task_id, Verb::DueElapsed).change("due_at", None, due_at.to_rfc3339()),
            ),
            Event::TaskRelationKindChanged { relation_id, from, to, from_kind, to_kind, .. } => {
                let payload = JsonMap::new().with(
                    "relation_id",
                    Json::Text(print_id(relation_id)),
                ).with("from_kind", Json::text(from_kind.as_str())).with(
                    "to_kind",
                    Json::text(to_kind.as_str()),
                ).with("to", Json::Text(print_id(to)));
                Some(
                    on_task(*from, Verb::RelationKindChanged).change(
                        "kind",
                        Some(print_json(&Json::text(from_kind.as_str()))),
                        print_json(&Json::Object(payload)),
                    ),
                )
            },
            _ => None,
        }
    }

    /// How the event changes the row of the one just before it, where it does.
    pub fn merge(envelope: &EventEnvelope) -> (r: Option<Query>)
        ensures
            match merge_of(*envelope) {
                Some(q) => r is Some && r->Some_0@ == q,
                None => r is None,
            },
    {
        let place: i64 = if envelope.seq > 0 {
            (envelope.seq - 1) as i64
        } else {
            0
        };
        match &envelope.payload {
            Event::TaskClosed { task_id, .. } => Some(
                ActivityRepo::update_verb_at_seq(task_id, place, Verb::Closed),
            ),
            Event::TaskReopened { task_id, .. } => Some(
                ActivityRepo::update_verb_at_seq(task_id, place, Verb::Reopened),
            ),
            Event::TaskCommented { task_id, preview, .. } => Some(
                ActivityRepo::update_commented_at_seq(task_id, place, preview.as_str()),
            ),
            _ => None,
        }
    }

    /// Gives the row of a task at a place in the log another verb.
    pub fn update_verb_at_seq(task_id: &TaskId, seq: i64, verb: Verb) -> (q: Query)
        ensures
            q@ == statement(
                UPDATE_VERB@,
                seq![sql_text(verb.text()), sql_id(*task_id), sql_int(seq as int)],
            ),
    {
        Query::new(UPDATE_VERB).text(verb.as_str()).id(task_id).number(seq)
    }

    /// Gives the row of a comment at a place in the log its preview.
    pub fn update_commented_at_seq(task_id: &TaskId, seq: i64, preview: &str) -> (q: Query)
        ensures
            q@ == statement(
                UPDATE_COMMENTED@,
                seq![sql_text(preview@), sql_id(*task_id), sql_int(seq as int)],
            ),
    {
        Query::new(UPDATE_COMMENTED).text(preview).id(task_id).number(seq)
    }

    /// The first step of storing what the feed tells of an event. The row that may be
    /// stored has the identifier `id`.
    pub fn apply_event(envelope: &EventEnvelope, id: ActivityId) -> (r: ActivityStep)
        ensures
            match (entry_of(envelope.payload), merge_of(*envelope)) {
                (None, _) => r is Done,
                (Some(_), Some(merge)) => r matches ActivityStep::Merge { update, otherwise }
                    && update@ == merge && otherwise.tells(*envelope, id),
                (Some(_), None) => exists|row: PendingRow|
                    row.tells(*envelope, id) && #[trigger] r.stores(row),
            },
    {
        match ActivityRepo::entry(&envelope.payload) {
            None => ActivityStep::Done,
            Some(entry) => {
                let row = PendingRow {
                    id,
                    entry,
                    actor: envelope.actor.clone(),
                    occurred_at: envelope.occurred_at,
                    event_id: envelope.id,
                    seq: envelope.seq as i64,
                };
                match ActivityRepo::merge(envelope) {
                    Some(update) => ActivityStep::Merge { update, otherwise: row },
                    None => ActivityRepo::store(row),
                }
            },
        }
    }

    /// The step after an update of the row just before: done where it changed one, else
    /// the event gets a row of its own.
    pub fn after_merge(row: PendingRow, rows_affected: u64) -> (r: ActivityStep)
        ensures
            rows_affected > 0 ==> r is Done,
            rows_affected == 0 ==> r.stores(row),
    {
        if rows_affected > 0 {
            ActivityStep::Done
        } else {
            ActivityRepo::store(row)
        }
    }

    /// The step that stores a row.
    pub fn store(row: PendingRow) -> (r: ActivityStep)
        ensures
            r.stores(row),
    {
        match row.entry.project {
            ProjectSource::Known(project_id) => {
                let insert = ActivityRepo::insert_row(&row, project_id);
                ActivityStep::Insert { insert }
            },
            ProjectSource::OfTask(task_id) => {
                let select = Query::new(PROJECT_OF_TASK).id(&task_id);
                ActivityStep::Lookup { select, row }
            },
            ProjectSource::OfPlan(plan_id) => {
                let select = Query::new(PROJECT_OF_PLAN).id(&plan_id);
                ActivityStep::Lookup { select, row }
            },
            ProjectSource::OfRun(run_id) => {
                let select = Query::new(PROJECT_OF_RUN).id(&run_id);
                ActivityStep::Lookup { select, row }
            },
        }
    }

    /// The statement that stores a row, from what the lookup of its project gave: no
    /// project where there is no row. A task may be without a project, a plan, and so a
    /// run, may not.
    pub fn after_lookup(row: &PendingRow, found: Option<ProjectIdRow>) -> (r: Result<Query, CoreError>)
        ensures
            match found {
                None => r is Ok && r->Ok_0@ == row.insertion(None),
                Some(found) => match lookup_fault(row.entry.project, found) {
                    Some(e) => r is Err && r->Err_0@ == e,
                    None => r is Ok && r->Ok_0@ == row.insertion(
                        opt_id_value::<ProjectId>(found.project_id->Ok_0),
                    ),
                },
            },
            (row.entry.project is OfPlan || row.entry.project is OfRun) && found is Some
                && found->Some_0.project_id is Ok && found->Some_0.project_id->Ok_0 is None
                ==> r is Err,
    {
        match found {
            None => Ok(ActivityRepo::insert_row(row, None)),
            Some(found) => {
                let project_id = column(found.project_id)?;
                let of_plan = match row.entry.project {
                    ProjectSource::OfPlan(_) => true,
                    ProjectSource::OfRun(_) => true,
                    _ => false,
                };
                if of_plan && project_id.is_none() {
                    let nothing = String::new();
                    assert(nothing@ =~= seq![]);
                    let project_id = parse_id::<ProjectId>(nothing.as_str())?;
                    return Ok(ActivityRepo::insert_row(row, Some(project_id)));
                }
                let project_id = parse_opt_id::<ProjectId>(&project_id)?;
                Ok(ActivityRepo::insert_row(row, project_id))
            },
        }
    }

    /// The statement that stores a row, unless its event has one. What was stored is
    /// what the feed tells when the row is read again.
    pub fn insert_row(row: &PendingRow, project_id: Option<ProjectId>) -> (q: Query)
        ensures
            q@ == row.insertion(project_id),
            row.occurred_at.is_plain() ==> forall|stored: ActivityRow|
                #[trigger] stored.stores(*row, project_id) ==> activity_fault(stored) is None
                    && forall|record: Activity|
                    activity_read(stored, record) ==> row.is_told_by(project_id, record),
    {
        Query::new(INSERT_ACTIVITY)
            .id(&row.id)
            .opt_id(&row.entry.task_id)
            .opt_id(&project_id)
            .actor(&row.actor)
            .text(row.entry.verb.as_str())
            .opt_text(&row.entry.field)
            .opt_text(&row.entry.old_value)
            .opt_text(&row.entry.new_value)
            .time(&row.occurred_at)
            .id(&row.event_id)
            .number(row.seq)
    }

    /// The query for one row of the feed.
    pub fn get(id: &ActivityId) -> (q: Query)
        ensures
            q@ == statement(GET_ACTIVITY@, seq![sql_id(*id)]),
    {
        Query::new(GET_ACTIVITY).id(id)
    }

    /// The query for the rows of a task after `cursor`, one more than the page holds;
    /// only those with one of the `verbs`, where they are given. An empty list of verbs
    /// asks for nothing.
    pub fn list_for_task(
        task_id: &TaskId,
        cursor: Option<u64>,
        limit: u32,
        verbs: &Option<Vec<Verb>>,
    ) -> (r: Option<Query>)
        ensures
            match *verbs {
                None => r is Some && r->Some_0@ == statement(
                    LIST_FOR_TASK@,
                    seq![
                        sql_id(*task_id),
                        sql_int(cursor_seq(cursor) as int),
                        sql_int(page_size(limit) + 1),
                    ],
                ),
                Some(verbs) => if verbs@.len() == 0 {
                    r is None
                } else {
                    r is Some && r->Some_0@ == statement(
                        LIST_BY_VERBS_HEAD@ + placeholder_list(verbs@.len(), ", "@)
                            + LIST_BY_VERBS_TAIL@,
                        seq![sql_id(*task_id), sql_int(cursor_seq(cursor) as int)]
                            + verbs@.map_values(|v: Verb| sql_text(v.text())) + seq![
                            sql_int(page_size(limit) + 1),
                        ],
                    )
                },
            },
    {
        let since: i64 = match cursor {
            Some(seq) => seq as i64,
            None => 0,
        };
        let limit: u32 = if limit < MAX_PAGE {
            limit
        } else {
            MAX_PAGE
        };
        let fetch: i64 = limit as i64 + 1;
        match verbs {
            None => Some(Query::new(LIST_FOR_TASK).id(task_id).number(since).number(fetch)),
            Some(verbs) => {
                if verbs.len() == 0 {
                    return None;
                }
                let marks = placeholders(verbs.len(), ", ");
                let mut sql = concat2(LIST_BY_VERBS_HEAD, marks.as_str());
                sql.append(LIST_BY_VERBS_TAIL);
                let mut q = Query::new(sql.as_str()).id(task_id).number(since);
                let ghost head = q@.binds;
                let ghost texts = verbs@.map_values(|v: Verb| sql_text(v.text()));
                let mut i: usize = 0;
                while i < verbs.len()
                    invariant
                        i <= verbs@.len(),
                        texts == verbs@.map_values(|v: Verb| sql_text(v.text())),
                        q@.sql == sql@,
                        q@.binds == head + texts.subrange(0, i as int),
                    decreases verbs@.len() - i,
                {
                    q = q.text(verbs[i].as_str());
                    assert(texts.subrange(0, i + 1) =~= texts.subrange(0, i as int).push(
                        sql_text(verbs@[i as int].text()),
                    ));
                    assert(head + texts.subrange(0, i + 1) =~= (head + texts.subrange(
                        0,
                        i as int,
                    )).push(sql_text(verbs@[i as int].text())));
                    i = i + 1;
                }
                assert(texts.subrange(0, verbs@.len() as int) =~= texts);
                let q = q.number(fetch);
                assert(q@.binds =~= head + texts + seq![sql_int(page_size(limit) + 1)]);
                Some(q)
            },
        }
    }

    /// The page that the fetched rows make: at most the page's size, and where there
    /// are more, the place to go on from.
    pub fn page(rows: Vec<ActivityRow>, limit: u32) -> (r: Result<
        (Vec<Activity>, Option<u64>, bool),
        CoreError,
    >)
        ensures
            match r {
                Ok(page) => {
                    &&& all_sound(rows@)
                    &&& page.2 == (rows@.len() > page_size(limit))
                    &&& page.0@.len() == if page.2 {
                        rows@.len() - 1
                    } else {
                        rows@.len() as int
                    }
                    &&& forall|i: int|
                        0 <= i < page.0@.len() ==> activity_read(
                            rows@[i],
                            #[trigger] page.0@[i],
                        )
                    &&& page.1 == if page.2 && page.0@.len() > 0 {
                        Some(page.0@.last().seq as u64)
                    } else {
                        None
                    }
                },
                Err(e) => first_fault(rows@, e@),
            },
            r is Ok <==> all_sound(rows@),
    {
        let ghost all = rows@;
        let limit: u32 = if limit < MAX_PAGE {
            limit
        } else {
            MAX_PAGE
        };
        let mut items = decode_all(rows)?;
        assert(forall|i: int| 0 <= i < items@.len() ==> all[i].holds(#[trigger] items@[i]));
        let has_more = items.len() as u64 > limit as u64;
        if !has_more {
            return Ok((items, None, false));
        }
        let _ = items.pop();
        let n: usize = items.len();
        let next: Option<u64> = if n > 0 {
            Some(items[n - 1].seq as u64)
        } else {
            None
        };
        Ok((items, next, true))
    }

    /// The query for the last place in the log that has a row.
    pub fn last_backfilled_seq() -> (q: Query)
        ensures
            q@ == statement(LAST_SEQ@, seq![]),
    {
        Query::new(LAST_SEQ)
    }

    /// The last place in the log that has a row.
    pub fn backfilled_seq(max_seq: Column<i64>) -> (r: Result<u64, CoreError>)
        ensures
            match column_fault(max_seq) {
                Some(e) => r is Err && r->Err_0@ == e,
                None => r is Ok && r->Ok_0 == max_seq->Ok_0 as u64,
            },
    {
        let seq = column(max_seq)?;
        Ok(seq as u64)
    }

    /// Where a backfill goes on after a batch of the log: nowhere after an empty one,
    /// else behind its last event, with the events of the batch counted.
    pub fn backfill_from_events(progress: Backfill, batch: &Vec<EventEnvelope>) -> (r: Option<Backfill>)
        requires
            progress.count + batch@.len() <= u64::MAX,
        ensures
            r is None <==> batch@.len() == 0,
            r matches Some(next) ==> next.last == batch@.last().seq && next.count == progress.count
                + batch@.len(),
    {
        let n: usize = batch.len();
        if n == 0 {
            None
        } else {
            Some(Backfill { last: batch[n - 1].seq, count: progress.count + n as u64 })
        }
    }
}

/// How far a backfill of the feed has come.
#[derive(Clone, Copy, Debug, PartialEq, Eq, Structural)]
pub struct Backfill {
    /// The place in the log up to which rows are made.
    pub last: u64,
    /// The events that were looked at.
    pub count: u64,
}

/// The number of events that a backfill asks for at a time.
pub const BACKFILL_BATCH: usize = 1000;

/// The place in the log that a cursor stands for, as the database counts.
pub open spec fn cursor_seq(cursor: Option<u64>) -> i64 {
    match cursor {
        Some(seq) => seq as i64,
        None => 0,
    }
}

/// The rows that a page holds: what is asked for, but no more than the most.
pub open spec fn page_size(limit: u32) -> int {
    if limit < MAX_PAGE {
        limit as int
    } else {
        MAX_PAGE as int
    }
}

/// A stored row of the feed.
#[verifier::ext_equal]
pub ghost struct FeedRow {
    pub id: ActivityId,
    pub event_id: EventId,
    pub seq: i64,
    pub project_id: Option<ProjectId>,
    pub told: EntryView,
}

/// The row that an envelope gets, given the project that was found for it.
pub open spec fn feed_row(
    envelope: EventEnvelope,
    id: ActivityId,
    project_id: Option<ProjectId>,
) -> FeedRow {
    FeedRow {
        id,
        event_id: envelope.id,
        seq: envelope.seq as i64,
        project_id,
        told: entry_of(envelope.payload)->Some_0,
    }
}

/// The feed after a row was stored, unless its event had one.
pub open spec fn with_row(feed: Seq<FeedRow>, row: FeedRow) -> Seq<FeedRow> {
    if exists|i: int| 0 <= i < feed.len() && (#[trigger] feed[i]).event_id == row.event_id {
        feed
    } else {
        feed.push(row)
    }
}

/// The row is the one of the task in the envelope, just before it in the log.
pub open spec fn precedes(row: FeedRow, envelope: EventEnvelope) -> bool {
    row.told.task_id == entry_of(envelope.payload)->Some_0.task_id && row.seq == place_before(
        envelope.seq,
    )
}

/// A row after the update that merges the envelope's event into it.
pub open spec fn merged_row(row: FeedRow, envelope: EventEnvelope) -> FeedRow {
    if precedes(row, envelope) {
        FeedRow {
            told: EntryView {
                verb: entry_of(envelope.payload)->Some_0.verb,
                new_value: if envelope.payload is TaskCommented {
                    entry_of(envelope.payload)->Some_0.new_value
                } else {
                    row.told.new_value
                },
                ..row.told
            },
            ..row
        }
    } else {
        row
    }
}

/// The feed after an event was applied to it: merged into the row just before it where
/// the event is one that does so and that row is there, else with a row of its own.
pub open spec fn applied(
    feed: Seq<FeedRow>,
    envelope: EventEnvelope,
    id: ActivityId,
    project_id: Option<ProjectId>,
) -> Seq<FeedRow> {
    if entry_of(envelope.payload) is None {
        feed
    } else if merge_of(envelope) is Some && exists|i: int|
        0 <= i < feed.len() && precedes(#[trigger] feed[i], envelope) {
        feed.map_values(|row: FeedRow| merged_row(row, envelope))
    } else {
        with_row(feed, feed_row(envelope, id, project_id))
    }
}

/// Applying an event to the feed again changes nothing, whatever row identifier and
/// project the second time brings.
pub proof fn lemma_apply_is_idempotent(
    feed: Seq<FeedRow>,
    envelope: EventEnvelope,
    id: ActivityId,
    project_id: Option<ProjectId>,
    again_id: ActivityId,
    again_project_id: Option<ProjectId>,
)
    ensures
        applied(applied(feed, envelope, id, project_id), envelope, again_id, again_project_id)
            == applied(feed, envelope, id, project_id),
{
    let once = applied(feed, envelope, id, project_id);
    let twice = applied(once, envelope, again_id, again_project_id);
    if entry_of(envelope.payload) is None {
    } else if merge_of(envelope) is Some && exists|i: int|
        0 <= i < feed.len() && precedes(#[trigger] feed[i], envelope) {
        let i = choose|i: int| 0 <= i < feed.len() && precedes(#[trigger] feed[i], envelope);
        assert(precedes(once[i], envelope));
        assert(twice =~= once);
    } else {
        let row = feed_row(envelope, id, project_id);
        if exists|i: int| 0 <= i < feed.len() && (#[trigger] feed[i]).event_id == row.event_id {
            assert(once == feed);
        } else {
            assert(once == feed.push(row));
            assert(once[feed.len() as int].event_id == envelope.id);
            if merge_of(envelope) is Some && exists|i: int|
                0 <= i < once.len() && precedes(#[trigger] once[i], envelope) {
                let i = choose|i: int| 0 <= i < once.len() && precedes(#[trigger] once[i], envelope);
                if i < feed.len() {
                    assert(once[i] == feed[i]);
                }
                let seq = envelope.seq;
                assert(seq > 0 ==> (seq as i64) != ((seq - 1) as u64 as i64)) by (bit_vector);
                assert forall|j: int| 0 <= j < once.len() implies twice[j] == once[j] by {
                    if j < feed.len() {
                        assert(once[j] == feed[j]);
                        assert(!precedes(feed[j], envelope));
                    } else {
                        assert(once[j] == row);
                    }
                }
                assert(twice =~= once);
            }
        }
    }
}

/// An event without a place of its own in the feed leaves it as it is.
pub proof fn lemma_silent_events_leave_no_row(
    feed: Seq<FeedRow>,
    envelope: EventEnvelope,
    id: ActivityId,
    project_id: Option<ProjectId>,
)
    requires
        entry_of(envelope.payload) is None,
    ensures
        applied(feed, envelope, id, project_id) == feed,
{
}

/// No event gets two rows: where every event of the feed has one row, this is so after
/// another event was applied.
pub proof fn lemma_one_row_per_event(
    feed: Seq<FeedRow>,
    envelope: EventEnvelope,
    id: ActivityId,
    project_id: Option<ProjectId>,
)
    requires
        forall|i: int, j: int|
            0 <= i < j < feed.len() ==> (#[trigger] feed[i]).event_id != (
            #[trigger] feed[j]).event_id,
    ensures
        forall|i: int, j: int|
            0 <= i < j < applied(feed, envelope, id, project_id).len() ==> (
            #[trigger] applied(feed, envelope, id, project_id)[i]).event_id != (
            #[trigger] applied(feed, envelope, id, project_id)[j]).event_id,
{
    let after = applied(feed, envelope, id, project_id);
    assert forall|i: int, j: int| 0 <= i < j < after.len() implies (#[trigger] after[i]).event_id != (
    #[trigger] after[j]).event_id by {
        if j < feed.len() {
            assert(feed[i].event_id != feed[j].event_id);
        }
    }
}

/// Two events that tell of one thing, such as a change of status and the closing that
/// follows it, make one row: the second event of a task, right behind the first one in
/// the log, is merged into the first one's row and gives it its verb. Every other row
/// stays as it is.
pub proof fn lemma_pair_makes_one_row(
    feed: Seq<FeedRow>,
    first: EventEnvelope,
    id: ActivityId,
    project_id: Option<ProjectId>,
    second: EventEnvelope,
    second_id: ActivityId,
    second_project_id: Option<ProjectId>,
)
    requires
        entry_of(first.payload) is Some && merge_of(first) is None,
        merge_of(second) is Some,
        entry_of(first.payload)->Some_0.task_id == entry_of(second.payload)->Some_0.task_id,
        second.seq == first.seq + 1,
        forall|i: int|
            0 <= i < feed.len() ==> (#[trigger] feed[i]).event_id != first.id && feed[i].seq
                != first.seq as i64,
    ensures
        ({
            let pair = applied(
                applied(feed, first, id, project_id),
                second,
                second_id,
                second_project_id,
            );
            &&& pair.len() == feed.len() + 1
            &&& pair.drop_last() == feed
            &&& pair.last() == merged_row(feed_row(first, id, project_id), second)
            &&& pair.last().event_id == first.id
            &&& pair.last().told.verb == entry_of(second.payload)->Some_0.verb
        }),
{
    let row = feed_row(first, id, project_id);
    let once = applied(feed, first, id, project_id);
    assert(once == feed.push(row));
    assert(precedes(once[feed.len() as int], second));
    let pair = applied(once, second, second_id, second_project_id);
    assert forall|j: int| 0 <= j < feed.len() implies pair[j] == feed[j] by {
        assert(once[j] == feed[j]);
    }
    assert(pair.drop_last() =~= feed);
}

/// An event of the log on its way into the feed, with the row identifier and the project
/// that it gets where it makes a row.
pub ghost struct Arrival {
    pub envelope: EventEnvelope,
    pub id: ActivityId,
    pub project_id: Option<ProjectId>,
}

/// The events stand in the order of the log, each at a place of its own. Places are
/// counted from one, as far as the database can count.
pub open spec fn in_log_order(arrivals: Seq<Arrival>) -> bool {
    &&& forall|i: int|
        0 <= i < arrivals.len() ==> 1 <= (#[trigger] arrivals[i]).envelope.seq <= i64::MAX
    &&& forall|i: int, j: int|
        0 <= i < j < arrivals.len() ==> (#[trigger] arrivals[i]).envelope.seq < (
        #[trigger] arrivals[j]).envelope.seq
}

/// The feed after events were applied to it one by one.
pub open spec fn applied_all(feed: Seq<FeedRow>, arrivals: Seq<Arrival>) -> Seq<FeedRow>
    decreases arrivals.len(),
{
    if arrivals.len() == 0 {
        feed
    } else {
        let last = arrivals.last();
        applied(
            applied_all(feed, arrivals.drop_last()),
            last.envelope,
            last.id,
            last.project_id,
        )
    }
}

/// The last place in the log that has a row, and 0 where there is no row.
pub open spec fn last_place(feed: Seq<FeedRow>) -> int
    decreases feed.len(),
{
    if feed.len() == 0 {
        0
    } else if feed.last().seq > last_place(feed.drop_last()) {
        feed.last().seq as int
    } else {
        last_place(feed.drop_last())
    }
}

/// The events of the log behind a place.
pub open spec fn since(log: Seq<Arrival>, last: int) -> Seq<Arrival>
    decreases log.len(),
{
    if log.len() == 0 {
        seq![]
    } else if log.last().envelope.seq > last {
        since(log.drop_last(), last).push(log.last())
    } else {
        since(log.drop_last(), last)
    }
}

/// The feed after a backfill: every event behind the last place with a row was applied.
pub open spec fn backfilled(feed: Seq<FeedRow>, log: Seq<Arrival>) -> Seq<FeedRow> {
    applied_all(feed, since(log, last_place(feed)))
}

/// The feed holds what the event has to tell.
pub open spec fn is_told(feed: Seq<FeedRow>, envelope: EventEnvelope) -> bool {
    if entry_of(envelope.payload) is None {
        true
    } else if merge_of(envelope) is Some && exists|i: int|
        0 <= i < feed.len() && precedes(#[trigger] feed[i], envelope) {
        forall|i: int|
            0 <= i < feed.len() ==> merged_row(#[trigger] feed[i], envelope) == feed[i]
    } else {
        exists|i: int| 0 <= i < feed.len() && (#[trigger] feed[i]).event_id == envelope.id
    }
}

proof fn lemma_applied_is_told(feed: Seq<FeedRow>, arrival: Arrival)
    requires
        1 <= arrival.envelope.seq <= i64::MAX,
    ensures
        is_told(
            applied(feed, arrival.envelope, arrival.id, arrival.project_id),
            arrival.envelope,
        ),
{
    let e = arrival.envelope;
    let after = applied(feed, e, arrival.id, arrival.project_id);
    if entry_of(e.payload) is Some {
        if merge_of(e) is Some && exists|i: int|
            0 <= i < feed.len() && precedes(#[trigger] feed[i], e) {
            let i = choose|i: int| 0 <= i < feed.len() && precedes(#[trigger] feed[i], e);
            assert(precedes(after[i], e));
        } else {
            let row = feed_row(e, arrival.id, arrival.project_id);
            if !exists|i: int| 0 <= i < feed.len() && (#[trigger] feed[i]).event_id == e.id {
                assert(after == feed.push(row));
                assert(after[feed.len() as int].event_id == e.id);
                assert forall|i: int| 0 <= i < after.len() && merge_of(e) is Some implies !precedes(
                    #[trigger] after[i],
                    e,
                ) by {
                    if i < feed.len() {
                        assert(after[i] == feed[i]);
                    }
                }
            }
        }
    }
}

proof fn lemma_told_stays_told(feed: Seq<FeedRow>, envelope: EventEnvelope, later: Arrival)
    requires
        is_told(feed, envelope),
        1 <= envelope.seq < later.envelope.seq <= i64::MAX,
    ensures
        is_told(applied(feed, later.envelope, later.id, later.project_id), envelope),
{
    let after = applied(feed, later.envelope, later.id, later.project_id);
    assert forall|i: int| 0 <= i < feed.len() implies {
        &&& after[i].event_id == (#[trigger] feed[i]).event_id
        &&& precedes(after[i], envelope) == precedes(feed[i], envelope)
        &&& precedes(feed[i], envelope) ==> after[i] == feed[i]
    } by {}
    assert forall|i: int| feed.len() <= i < after.len() implies !precedes(
        #[trigger] after[i],
        envelope,
    ) by {}
    if entry_of(envelope.payload) is Some {
        if merge_of(envelope) is Some && exists|i: int|
            0 <= i < feed.len() && precedes(#[trigger] feed[i], envelope) {
            let i = choose|i: int| 0 <= i < feed.len() && precedes(#[trigger] feed[i], envelope);
            assert(precedes(after[i], envelope));
            assert forall|j: int| 0 <= j < after.len() implies merged_row(
                #[trigger] after[j],
                envelope,
            ) == after[j] by {
                if j < feed.len() {
                    assert(merged_row(feed[j], envelope) == feed[j]);
                }
            }
        } else {
            let i = choose|i: int|
                0 <= i < feed.len() && (#[trigger] feed[i]).event_id == envelope.id;
            assert(after[i].event_id == envelope.id);
            assert forall|j: int| 0 <= j < after.len() && merge_of(envelope) is Some implies !precedes(
                #[trigger] after[j],
                envelope,
            ) by {
                if j < feed.len() {
                    assert(!precedes(feed[j], envelope));
                }
            }
        }
    }
}

proof fn lemma_all_are_told(feed: Seq<FeedRow>, arrivals: Seq<Arrival>)
    requires
        in_log_order(arrivals),
    ensures
        forall|i: int|
            0 <= i < arrivals.len() ==> is_told(
                applied_all(feed, arrivals),
                (#[trigger] arrivals[i]).envelope,
            ),
    decreases arrivals.len(),
{
    if arrivals.len() > 0 {
        let before = arrivals.drop_last();
        let last = arrivals.last();
        lemma_all_are_told(feed, before);
        assert forall|i: int| 0 <= i < arrivals.len() implies is_told(
            applied_all(feed, arrivals),
            (#[trigger] arrivals[i]).envelope,
        ) by {
            if i < before.len() {
                assert(before[i] == arrivals[i]);
                lemma_told_stays_told(applied_all(feed, before), arrivals[i].envelope, last);
            } else {
                lemma_applied_is_told(applied_all(feed, before), last);
            }
        }
    }
}

proof fn lemma_told_changes_nothing(feed: Seq<FeedRow>, arrivals: Seq<Arrival>)
    requires
        forall|i: int|
            0 <= i < arrivals.len() ==> is_told(feed, (#[trigger] arrivals[i]).envelope),
    ensures
        applied_all(feed, arrivals) == feed,
    decreases arrivals.len(),
{
    if arrivals.len() > 0 {
        let before = arrivals.drop_last();
        let last = arrivals.last();
        assert forall|i: int| 0 <= i < before.len() implies is_told(
            feed,
            (#[trigger] before[i]).envelope,
        ) by {
            assert(before[i] == arrivals[i]);
        }
        lemma_told_changes_nothing(feed, before);
        assert(is_told(feed, arrivals[arrivals.len() - 1].envelope));
        assert(applied(feed, last.envelope, last.id, last.project_id) =~= feed);
    }
}

proof fn lemma_places_stay(feed: Seq<FeedRow>, arrivals: Seq<Arrival>)
    ensures
        applied_all(feed, arrivals).len() >= feed.len(),
        forall|i: int|
            0 <= i < feed.len() ==> (#[trigger] applied_all(feed, arrivals)[i]).seq == feed[i].seq,
    decreases arrivals.len(),
{
    if arrivals.len() > 0 {
        lemma_places_stay(feed, arrivals.drop_last());
        let before = applied_all(feed, arrivals.drop_last());
        assert forall|i: int| 0 <= i < feed.len() implies (#[trigger] applied_all(
            feed,
            arrivals,
        )[i]).seq == feed[i].seq by {
            assert(before[i].seq == feed[i].seq);
        }
    }
}

proof fn lemma_last_place_grows(feed: Seq<FeedRow>, after: Seq<FeedRow>)
    requires
        feed.len() <= after.len(),
        forall|i: int| 0 <= i < feed.len() ==> (#[trigger] after[i]).seq == feed[i].seq,
    ensures
        last_place(feed) <= last_place(after),
    decreases after.len(),
{
    if feed.len() < after.len() {
        lemma_last_place_grows(feed, after.drop_last());
    } else if feed.len() > 0 {
        lemma_last_place_grows(feed.drop_last(), after.drop_last());
        assert(after[feed.len() - 1].seq == feed[feed.len() - 1].seq);
    }
}

proof fn lemma_since_is_the_end(log: Seq<Arrival>, last: int)
    requires
        in_log_order(log),
    ensures
        since(log, last).len() <= log.len(),
        since(log, last) == log.skip(log.len() - since(log, last).len()),
        forall|i: int|
            0 <= i < log.len() ==> ((#[trigger] log[i]).envelope.seq > last <==> i >= log.len()
                - since(log, last).len()),
    decreases log.len(),
{
    let end = since(log, last);
    if log.len() > 0 {
        let shorter = log.drop_last();
        lemma_since_is_the_end(shorter, last);
        let k = shorter.len() - since(shorter, last).len();
        assert(forall|i: int| 0 <= i < shorter.len() ==> log[i] == #[trigger] shorter[i]);
        if log.last().envelope.seq > last {
            assert(end =~= log.skip(log.len() - end.len()));
            assert forall|i: int| 0 <= i < log.len() implies ((#[trigger] log[i]).envelope.seq > last
                <==> i >= log.len() - end.len()) by {
                if i < shorter.len() {
                    assert(shorter[i] == log[i]);
                }
            }
        } else {
            if end.len() > 0 {
                assert(shorter[k].envelope.seq > last);
                assert(log[k].envelope.seq < log[log.len() - 1].envelope.seq);
            }
            assert(end =~= log.skip(log.len() as int));
            assert forall|i: int| 0 <= i < log.len() implies (#[trigger] log[i]).envelope.seq
                <= last by {
                if i < shorter.len() {
                    assert(shorter[i] == log[i]);
                }
            }
        }
    } else {
        assert(end =~= log.skip(0));
    }
}

/// A backfill that goes on behind the last event of a batch misses no event and meets none
/// twice: what is behind a place is a batch from there, and what is behind the last event
/// of that batch.
pub proof fn lemma_batches_follow_each_other(log: Seq<Arrival>, last: int, size: int)
    requires
        in_log_order(log),
        1 <= size <= since(log, last).len(),
    ensures
        ({
            let batch = since(log, last).take(size);
            since(log, last) == batch + since(log, batch.last().envelope.seq as int)
        }),
{
    let end = since(log, last);
    let batch = end.take(size);
    lemma_since_is_the_end(log, last);
    let m = log.len() - end.len() + size;
    assert(batch.last() == log[m - 1]);
    let next = log[m - 1].envelope.seq as int;
    lemma_since_is_the_end(log, next);
    let k = log.len() - since(log, next).len();
    if k < m {
        assert(log[m - 1].envelope.seq > next);
    }
    if k > m {
        assert(log[m].envelope.seq > log[m - 1].envelope.seq);
    }
    assert(end =~= batch + since(log, next));
}

/// A second backfill over the same log leaves the feed as the first one made it, whatever
/// row identifiers and projects it brings. It may meet events again that made no row of
/// their own, and finds that they are told.
pub proof fn lemma_backfill_is_idempotent(
    feed: Seq<FeedRow>,
    log: Seq<Arrival>,
    again: Seq<Arrival>,
)
    requires
        in_log_order(log),
        again.len() == log.len(),
        forall|i: int|
            0 <= i < log.len() ==> (#[trigger] again[i]).envelope == (#[trigger] log[i]).envelope,
    ensures
        backfilled(backfilled(feed, log), again) == backfilled(feed, log),
{
    let first = since(log, last_place(feed));
    let once = backfilled(feed, log);
    let second = since(again, last_place(once));
    lemma_since_is_the_end(log, last_place(feed));
    lemma_places_stay(feed, first);
    lemma_last_place_grows(feed, once);
    assert(in_log_order(again)) by {
        assert forall|i: int| 0 <= i < again.len() implies 1 <= (
        #[trigger] again[i]).envelope.seq <= i64::MAX by {
            assert(again[i].envelope == log[i].envelope);
        }
        assert forall|i: int, j: int| 0 <= i < j < again.len() implies (
        #[trigger] again[i]).envelope.seq < (#[trigger] again[j]).envelope.seq by {
            assert(again[i].envelope == log[i].envelope);
            assert(again[j].envelope == log[j].envelope);
        }
    }
    lemma_since_is_the_end(again, last_place(once));
    let from = log.len() - first.len();
    assert(in_log_order(first)) by {
        assert(forall|i: int| 0 <= i < first.len() ==> #[trigger] first[i] == log[from + i]);
    }
    lemma_all_are_told(feed, first);
    assert forall|i: int| 0 <= i < second.len() implies is_told(
        once,
        (#[trigger] second[i]).envelope,
    ) by {
        let k = log.len() - second.len() + i;
        assert(second[i] == again[k]);
        assert(again[k].envelope == log[k].envelope);
        assert(log[k].envelope.seq > last_place(feed));
        assert(first[k - from] == log[k]);
    }
    lemma_told_changes_nothing(once, second);
}

/// An event that carries what something was and what it is, such as a change of status or of
/// priority, is told with the text of the former as the old value and that of the latter as
/// the new one, under the name of the field.
pub proof fn lemma_change_tells_from_and_to(event: Event)
    ensures
        event is TaskStatusChanged ==> {
            let told = entry_of(event)->Some_0;
            &&& entry_of(event) is Some
            &&& told.field == Some("status"@)
            &&& told.old_value == Some(event->TaskStatusChanged_from.text())
            &&& told.new_value == Some(event->TaskStatusChanged_to.text())
        },
        event is TaskPriorityChanged ==> {
            let told = entry_of(event)->Some_0;
            &&& entry_of(event) is Some
            &&& told.field == Some("priority"@)
            &&& told.old_value == Some(event->TaskPriorityChanged_from.text())
            &&& told.new_value == Some(event->TaskPriorityChanged_to.text())
        },
        event is PlanStatusChanged ==> {
            let told = entry_of(event)->Some_0;
            &&& entry_of(event) is Some
            &&& told.field == Some("status"@)
            &&& told.old_value == Some(event->PlanStatusChanged_from.text())
            &&& told.new_value == Some(event->PlanStatusChanged_to.text())
        },
        event is PlanGoalChanged ==> {
            let told = entry_of(event)->Some_0;
            &&& entry_of(event) is Some
            &&& told.field == Some("goal"@)
            &&& told.old_value == Some(event->PlanGoalChanged_from@)
            &&& told.new_value == Some(event->PlanGoalChanged_to@)
        },
{
}

/// The rows of changes that follow one another form a chain: where the second change starts
/// from what the first one led to, its old value is the new value before it. A change and
/// the change back have their values swapped.
pub proof fn lemma_changes_form_a_chain(first: Event, second: Event)
    requires
        entry_of(first) is Some && entry_of(second) is Some,
    ensures
        first is TaskStatusChanged && second is TaskStatusChanged ==> {
            let one = entry_of(first)->Some_0;
            let next = entry_of(second)->Some_0;
            &&& first->TaskStatusChanged_to == second->TaskStatusChanged_from ==> one.new_value
                == next.old_value
            &&& first->TaskStatusChanged_to == second->TaskStatusChanged_from
                && first->TaskStatusChanged_from == second->TaskStatusChanged_to ==> one.old_value
                == next.new_value
        },
        first is TaskPriorityChanged && second is TaskPriorityChanged ==> {
            let one = entry_of(first)->Some_0;
            let next = entry_of(second)->Some_0;
            &&& first->TaskPriorityChanged_to == second->TaskPriorityChanged_from
                ==> one.new_value == next.old_value
            &&& first->TaskPriorityChanged_to == second->TaskPriorityChanged_from
                && first->TaskPriorityChanged_from == second->TaskPriorityChanged_to
                ==> one.old_value == next.new_value
        },
        first is PlanStatusChanged && second is PlanStatusChanged && first->PlanStatusChanged_to
            == second->PlanStatusChanged_from ==> entry_of(first)->Some_0.new_value == entry_of(
            second,
        )->Some_0.old_value,
        first is PlanGoalChanged && second is PlanGoalChanged && first->PlanGoalChanged_to@
            == second->PlanGoalChanged_from@ ==> entry_of(first)->Some_0.new_value == entry_of(
            second,
        )->Some_0.old_value,
{
}

/// Every event about a task is told of that task, with a verb of its own kind, and the
/// project of its row is the one that the task has.
pub proof fn lemma_task_events_are_told_of_their_task(event: Event)
    ensures
        event is TaskCreated ==> entry_of(event) is Some && {
            let told = entry_of(event)->Some_0;
            &&& told.task_id == event->TaskCreated_task.id && told.verb == Verb::Created
            &&& told.project == ProjectSource::Known(event->TaskCreated_task.project_id)
            &&& told.new_value == Some(event->TaskCreated_task.title@)
            &&& told.field is None && told.old_value is None
        },
        event is TaskUpdated ==> is_on_task(
            entry_of(event),
            event->TaskUpdated_task_id,
            Verb::Updated,
        ) && entry_of(event)->Some_0.new_value == Some(event->TaskUpdated_patch.json@),
        event is TaskStatusChanged ==> is_on_task(
            entry_of(event),
            event->TaskStatusChanged_task_id,
            Verb::StatusChanged,
        ),
        event is TaskPriorityChanged ==> is_on_task(
            entry_of(event),
            event->TaskPriorityChanged_task_id,
            Verb::PriorityChanged,
        ),
        event is TaskCompleted ==> is_on_task(
            entry_of(event),
            event->TaskCompleted_task_id,
            Verb::Completed,
        ) && has_no_values(entry_of(event)),
        event is TaskDeleted ==> is_on_task(
            entry_of(event),
            event->TaskDeleted_task_id,
            Verb::Deleted,
        ) && has_no_values(entry_of(event)),
        event is TaskSplitGenerated ==> is_on_task(
            entry_of(event),
            event->TaskSplitGenerated_parent,
            Verb::SplitGenerated,
        ) && has_no_values(entry_of(event)),
        event is TaskClosed ==> is_on_task(
            entry_of(event),
            event->TaskClosed_task_id,
            Verb::Closed,
        ) && has_no_values(entry_of(event)),
        event is TaskReopened ==> is_on_task(
            entry_of(event),
            event->TaskReopened_task_id,
            Verb::Reopened,
        ) && has_no_values(entry_of(event)),
        event is TaskCommented ==> is_on_task(
            entry_of(event),
            event->TaskCommented_task_id,
            Verb::Commented,
        ) && entry_of(event)->Some_0.new_value == Some(event->TaskCommented_preview@),
        event is CommentAdded ==> is_on_task(
            entry_of(event),
            event->CommentAdded_comment.task_id,
            Verb::Commented,
        ),
        event is CommentEdited ==> is_on_task(
            entry_of(event),
            event->CommentEdited_task_id,
            Verb::CommentEdited,
        ) && has_no_values(entry_of(event)),
        event is CommentDeleted ==> is_on_task(
            entry_of(event),
            event->CommentDeleted_task_id,
            Verb::CommentDeleted,
        ) && has_no_values(entry_of(event)),
        event is AgentClaimed ==> is_on_task(
            entry_of(event),
            event->AgentClaimed_task_id,
            Verb::TaskClaimed,
        ) && has_no_values(entry_of(event)),
        event is AgentReleased ==> is_on_task(
            entry_of(event),
            event->AgentReleased_task_id,
            Verb::TaskReleased,
        ) && has_no_values(entry_of(event)),
        event is TaskDueElapsed ==> is_on_task(
            entry_of(event),
            event->TaskDueElapsed_task_id,
            Verb::DueElapsed,
        ) && entry_of(event)->Some_0.field == Some("due_at"@)
            && entry_of(event)->Some_0.old_value is None && entry_of(event)->Some_0.new_value
            == Some(event->TaskDueElapsed_due_at.text()),
        event is TaskUnblocked ==> is_on_task(
            entry_of(event),
            event->TaskUnblocked_task_id,
            Verb::Unblocked,
        ),
{
}

/// The feed tells of a task, with a verb, and takes the project from the task.
pub open spec fn is_on_task(told: Option<EntryView>, task_id: TaskId, verb: Verb) -> bool {
    &&& told is Some
    &&& told->Some_0.task_id == Some(task_id)
    &&& told->Some_0.project == ProjectSource::OfTask(task_id)
    &&& told->Some_0.verb == verb
}

/// The feed tells of no values.
pub open spec fn has_no_values(told: Option<EntryView>) -> bool {
    &&& told->Some_0.field is None
    &&& told->Some_0.old_value is None
    &&& told->Some_0.new_value is None
}

/// An entry names its task, its verb and the project of its task, and is told with no values
/// exactly if it has neither a field nor a value.
pub proof fn lemma_what_is_on_a_task(told: Option<EntryView>, task_id: TaskId, verb: Verb)
    ensures
        is_on_task(told, task_id, verb) ==> told is Some && told->Some_0.task_id == Some(task_id)
            && told->Some_0.verb == verb && told->Some_0.project == ProjectSource::OfTask(task_id),
        has_no_values(told) ==> told->Some_0.field is None && told->Some_0.old_value is None
            && told->Some_0.new_value is None,
{
}

/// A comment is told with the first eighty characters of what it says: with all of it where
/// it is no longer, and else with its beginning, which has that length.
pub proof fn lemma_comment_is_told_by_its_beginning(event: Event)
    requires
        event is CommentAdded,
    ensures
        ({
            let body = event->CommentAdded_comment.body@;
            let shown = entry_of(event)->Some_0.new_value;
            &&& shown is Some
            &&& body.len() <= 80 ==> shown->Some_0 == body
            &&& body.len() > 80 ==> shown->Some_0 == body.take(80)
            &&& entry_of(event)->Some_0.field is None && entry_of(event)->Some_0.old_value is None
        }),
{
    let body = event->CommentAdded_comment.body@;
    if body.len() > 80 {
        assert(body.subrange(0, 80) =~= body.take(80));
    }
}

/// Relations are told of the task that they start from, with the relation, its kind or kinds,
/// and the task that they lead to.
pub proof fn lemma_relations_are_told_of_where_they_start(event: Event)
    ensures
        event is TaskLinked ==> is_on_task(
            entry_of(event),
            event->TaskLinked_from,
            Verb::Linked,
        ) && entry_of(event)->Some_0.new_value == Some(
            json_printed(
                JsonView::Object(
                    map![
                        "relation_id"@ => JsonView::Text(id_text(event->TaskLinked_relation_id)),
                        "kind"@ => JsonView::Text(event->TaskLinked_kind.text()),
                        "to"@ => JsonView::Text(id_text(event->TaskLinked_to))
                    ],
                ),
            ),
        ),
        event is TaskUnlinked ==> is_on_task(
            entry_of(event),
            event->TaskUnlinked_from,
            Verb::Unlinked,
        ) && entry_of(event)->Some_0.new_value == Some(
            json_printed(
                JsonView::Object(
                    map![
                        "relation_id"@ => JsonView::Text(id_text(event->TaskUnlinked_relation_id)),
                        "kind"@ => JsonView::Text(event->TaskUnlinked_kind.text()),
                        "to"@ => JsonView::Text(id_text(event->TaskUnlinked_to))
                    ],
                ),
            ),
        ),
        event is TaskUnblocked ==> entry_of(event)->Some_0.new_value == Some(
            json_printed(
                JsonView::Object(
                    map![
                        "unblocked_by"@ => JsonView::Text(
                            id_text(event->TaskUnblocked_unblocked_by),
                        )
                    ],
                ),
            ),
        ),
        event is TaskRelationKindChanged ==> is_on_task(
            entry_of(event),
            event->TaskRelationKindChanged_from,
            Verb::RelationKindChanged,
        ) && entry_of(event)->Some_0.field == Some("kind"@) && entry_of(event)->Some_0.old_value
            == Some(
            json_printed(JsonView::Text(event->TaskRelationKindChanged_from_kind.text())),
        ) && entry_of(event)->Some_0.new_value == Some(
            json_printed(
                JsonView::Object(
                    map![
                        "relation_id"@ => JsonView::Text(
                            id_text(event->TaskRelationKindChanged_relation_id),
                        ),
                        "from_kind"@ => JsonView::Text(
                            event->TaskRelationKindChanged_from_kind.text(),
                        ),
                        "to_kind"@ => JsonView::Text(event->TaskRelationKindChanged_to_kind.text()),
                        "to"@ => JsonView::Text(id_text(event->TaskRelationKindChanged_to))
                    ],
                ),
            ),
        ),
{
    if event is TaskLinked {
        assert(link_payload(
            id_text(event->TaskLinked_relation_id),
            event->TaskLinked_kind.text(),
            id_text(event->TaskLinked_to),
        )->Object_0 =~= map![
            "relation_id"@ => JsonView::Text(id_text(event->TaskLinked_relation_id)),
            "kind"@ => JsonView::Text(event->TaskLinked_kind.text()),
            "to"@ => JsonView::Text(id_text(event->TaskLinked_to))
        ]);
    }
    if event is TaskUnlinked {
        assert(link_payload(
            id_text(event->TaskUnlinked_relation_id),
            event->TaskUnlinked_kind.text(),
            id_text(event->TaskUnlinked_to),
        )->Object_0 =~= map![
            "relation_id"@ => JsonView::Text(id_text(event->TaskUnlinked_relation_id)),
            "kind"@ => JsonView::Text(event->TaskUnlinked_kind.text()),
            "to"@ => JsonView::Text(id_text(event->TaskUnlinked_to))
        ]);
    }
    if event is TaskUnblocked {
        assert(unblocked_payload(id_text(event->TaskUnblocked_unblocked_by))->Object_0 =~= map![
            "unblocked_by"@ => JsonView::Text(id_text(event->TaskUnblocked_unblocked_by))
        ]);
    }
    if event is TaskRelationKindChanged {
        assert(kind_change_payload(
            id_text(event->TaskRelationKindChanged_relation_id),
            event->TaskRelationKindChanged_from_kind.text(),
            event->TaskRelationKindChanged_to_kind.text(),
            id_text(event->TaskRelationKindChanged_to),
        )->Object_0 =~= map![
            "relation_id"@ => JsonView::Text(id_text(event->TaskRelationKindChanged_relation_id)),
            "from_kind"@ => JsonView::Text(event->TaskRelationKindChanged_from_kind.text()),
            "to_kind"@ => JsonView::Text(event->TaskRelationKindChanged_to_kind.text()),
            "to"@ => JsonView::Text(id_text(event->TaskRelationKindChanged_to))
        ]);
    }
}

/// Events about projects, plans and runs are told of no task, but for the ones that attach a
/// task to a plan or detach it. The project of the row is the one that the event names, that
/// of the plan, or that of the run's plan.
pub proof fn lemma_other_events_are_told_of_their_project(event: Event)
    ensures
        ({
            let told = entry_of(event)->Some_0;
            &&& event is ProjectCreated ==> entry_of(event) is Some && told.task_id is None
                && told.project == ProjectSource::Known(Some(event->ProjectCreated_project.id))
                && told.verb == Verb::ProjectCreated && told.new_value == Some(
                event->ProjectCreated_project.title@,
            )
            &&& event is ProjectUpdated ==> entry_of(event) is Some && told.task_id is None
                && told.project == ProjectSource::Known(Some(event->ProjectUpdated_project_id))
                && told.verb == Verb::ProjectUpdated && has_no_values(entry_of(event))
            &&& event is ProjectDeleted ==> entry_of(event) is Some && told.task_id is None
                && told.project == ProjectSource::Known(Some(event->ProjectDeleted_project_id))
                && told.verb == Verb::ProjectDeleted && has_no_values(entry_of(event))
            &&& event is AgentActionRecorded ==> entry_of(event) is Some && told.task_id is None
                && told.project == ProjectSource::Known(None) && told.verb == Verb::AgentAction
                && has_no_values(entry_of(event))
            &&& event is PlanCreated ==> entry_of(event) is Some && told.task_id is None
                && told.project == ProjectSource::Known(Some(event->PlanCreated_plan.project_id))
                && told.verb == Verb::PlanCreated && told.new_value == Some(
                event->PlanCreated_plan.title@,
            )
            &&& event is PlanReordered ==> entry_of(event) is Some && told.task_id is None
                && told.project == ProjectSource::OfPlan(event->PlanReordered_plan_id)
                && told.verb == Verb::PlanModified && has_no_values(entry_of(event))
            &&& event is PlanStatusChanged ==> entry_of(event) is Some && told.task_id is None
                && told.project == ProjectSource::OfPlan(event->PlanStatusChanged_plan_id)
                && told.verb == Verb::PlanModified
            &&& event is PlanGoalChanged ==> entry_of(event) is Some && told.task_id is None
                && told.project == ProjectSource::OfPlan(event->PlanGoalChanged_plan_id)
                && told.verb == Verb::PlanModified
            &&& event is PlanArchived ==> entry_of(event) is Some && told.task_id is None
                && told.project == ProjectSource::OfPlan(event->PlanArchived_plan_id)
                && told.verb == Verb::PlanArchived && has_no_values(entry_of(event))
            &&& event is PlanTaskAdded ==> entry_of(event) is Some && told.task_id == Some(
                event->PlanTaskAdded_task_id,
            ) && told.project == ProjectSource::OfPlan(event->PlanTaskAdded_plan_id)
                && told.verb == Verb::TaskAttached && told.new_value == Some(
                id_text(event->PlanTaskAdded_plan_id),
            )
            &&& event is PlanTaskRemoved ==> entry_of(event) is Some && told.task_id == Some(
                event->PlanTaskRemoved_task_id,
            ) && told.project == ProjectSource::OfPlan(event->PlanTaskRemoved_plan_id)
                && told.verb == Verb::TaskDetached && told.new_value == Some(
                id_text(event->PlanTaskRemoved_plan_id),
            )
            &&& event is RunStarted ==> entry_of(event) is Some && told.task_id is None
                && told.project == ProjectSource::OfPlan(event->RunStarted_run.plan_id)
                && told.verb == Verb::RunStarted && told.new_value == Some(
                id_text(event->RunStarted_run.id),
            )
            &&& event is RunCompleted ==> entry_of(event) is Some && told.task_id is None
                && told.project == ProjectSource::OfRun(event->RunCompleted_run_id)
                && told.verb == Verb::RunCompleted && has_no_values(entry_of(event))
            &&& event is RunFailed ==> entry_of(event) is Some && told.task_id is None
                && told.project == ProjectSource::OfRun(event->RunFailed_run_id) && told.verb
                == Verb::RunFailed && told.new_value == Some(event->RunFailed_reason@)
            &&& event is RunAborted ==> entry_of(event) is Some && told.task_id is None
                && told.project == ProjectSource::OfRun(event->RunAborted_run_id) && told.verb
                == Verb::RunAborted && told.new_value == Some(event->RunAborted_reason@)
        }),
{
}

/// A plan that is put under another one, or under none, is told as such, with the other plan
/// or `null`. Any other change of a plan is told as a change.
pub proof fn lemma_reparenting_is_told(event: Event)
    requires
        event is PlanUpdated,
    ensures
        ({
            let told = entry_of(event)->Some_0;
            let parent = event->PlanUpdated_patch.parent_plan_id;
            &&& entry_of(event) is Some && told.task_id is None
            &&& told.project == ProjectSource::OfPlan(event->PlanUpdated_plan_id)
            &&& told.old_value is None
            &&& parent is None ==> told.verb == Verb::PlanModified && told.field is None
                && told.new_value is None
            &&& parent is Some ==> told.verb == Verb::PlanReparented && told.field == Some(
                "parent_plan_id"@,
            )
            &&& parent is Some && parent->Some_0 is None ==> told.new_value == Some("null"@)
            &&& parent is Some && parent->Some_0 is Some ==> told.new_value == Some(
                id_text(parent->Some_0->Some_0),
            )
        }),
{
}

/// The feed tells of every kind of event that these laws name, and of no other: signals,
/// sessions, notes, documents, artifacts, evidence, rules, handoffs, units of work and kinds
/// that are not read here leave no row.
pub proof fn lemma_what_the_feed_tells(event: Event)
    ensures
        entry_of(event) is Some <==> {
            ||| event is TaskCreated || event is TaskUpdated || event is TaskStatusChanged
            ||| event is TaskPriorityChanged || event is TaskCompleted || event is TaskDeleted
            ||| event is TaskSplitGenerated || event is TaskClosed || event is TaskReopened
            ||| event is TaskCommented || event is TaskDueElapsed || event is TaskLinked
            ||| event is TaskUnlinked || event is TaskUnblocked || event is TaskRelationKindChanged
            ||| event is ProjectCreated || event is ProjectUpdated || event is ProjectDeleted
            ||| event is CommentAdded || event is CommentEdited || event is CommentDeleted
            ||| event is AgentActionRecorded || event is PlanCreated || event is PlanUpdated
            ||| event is PlanStatusChanged || event is PlanGoalChanged || event is PlanTaskAdded
            ||| event is PlanTaskRemoved || event is PlanReordered || event is PlanArchived
            ||| event is RunStarted || event is RunCompleted || event is RunFailed
            ||| event is RunAborted || event is AgentClaimed || event is AgentReleased
        },
{
}

/// The closing, the reopening and the comment of a task, and no other event, go into the row
/// of the task at the place before theirs in the log: the first two give it their verb, the
/// third its preview.
pub proof fn lemma_pairs_are_merged_at_the_place_before(envelope: EventEnvelope)
    requires
        1 <= envelope.seq <= i64::MAX,
    ensures
        ({
            let event = envelope.payload;
            let place = sql_int(envelope.seq - 1);
            &&& merge_of(envelope) is Some <==> event is TaskClosed || event is TaskReopened
                || event is TaskCommented
            &&& event is TaskClosed ==> merge_of(envelope)->Some_0 == statement(
                UPDATE_VERB@,
                seq![sql_text(Verb::Closed.text()), sql_id(event->TaskClosed_task_id), place],
            )
            &&& event is TaskReopened ==> merge_of(envelope)->Some_0 == statement(
                UPDATE_VERB@,
                seq![sql_text(Verb::Reopened.text()), sql_id(event->TaskReopened_task_id), place],
            )
            &&& event is TaskCommented ==> merge_of(envelope)->Some_0 == statement(
                UPDATE_COMMENTED@,
                seq![
                    sql_text(event->TaskCommented_preview@),
                    sql_id(event->TaskCommented_task_id),
                    place,
                ],
            )
        }),
{
}

/// A row tells who did what, when, and by which event: the row that is stored for an envelope
/// binds its identifier, its author, its time and its place in the log, besides what the feed
/// tells of the event.
pub proof fn lemma_row_tells_the_envelope(
    row: PendingRow,
    envelope: EventEnvelope,
    id: ActivityId,
    project_id: Option<ProjectId>,
)
    requires
        row.tells(envelope, id),
    ensures
        ({
            let told = entry_of(envelope.payload)->Some_0;
            &&& entry_of(envelope.payload) is Some
            &&& row.insertion(project_id).sql == INSERT_ACTIVITY@
            &&& row.insertion(project_id).binds == seq![
                sql_id(id),
                sql_opt_id(told.task_id),
                sql_opt_id(project_id),
                sql_actor(envelope.actor),
                sql_text(told.verb.text()),
                sql_opt_text(told.field),
                sql_opt_text(told.old_value),
                sql_opt_text(told.new_value),
                sql_time(envelope.occurred_at),
                sql_id(envelope.id),
                sql_int(envelope.seq as i64 as int),
            ]
        }),
{
}

/// Where the project of a row is not known it is asked for by the task, the plan or the run
/// that the row is of, each with its own query; a known project is not asked for.
pub proof fn lemma_project_is_asked_for_where_it_is_not_known(project: ProjectSource)
    ensures
        project is Known ==> lookup_of(project) is None,
        project matches ProjectSource::OfTask(id) ==> lookup_of(project) == Some(
            statement(PROJECT_OF_TASK@, seq![sql_id(id)]),
        ),
        project matches ProjectSource::OfPlan(id) ==> lookup_of(project) == Some(
            statement(PROJECT_OF_PLAN@, seq![sql_id(id)]),
        ),
        project matches ProjectSource::OfRun(id) ==> lookup_of(project) == Some(
            statement(PROJECT_OF_RUN@, seq![sql_id(id)]),
        ),
{
}

/// A page starts behind its cursor, or at the beginning where there is none, and holds what
/// is asked for, up to the most that a page may hold.
pub proof fn lemma_pages_are_bounded(cursor: Option<u64>, limit: u32)
    ensures
        cursor is None ==> cursor_seq(cursor) == 0,
        cursor matches Some(seq) ==> seq <= i64::MAX ==> cursor_seq(cursor) as int == seq,
        0 <= page_size(limit) <= 500,
        limit <= 500 ==> page_size(limit) == limit,
        limit > 500 ==> page_size(limit) == 500,
{
}

// ── laws ────────────────────────────────────────────────────────────────────

/// Each field of an activity is read from columns of its own: what is read of a row with
/// another value there differs in that field alone.
pub proof fn lemma_activity_is_read_field_by_field(
    row: ActivityRow,
    record: Activity,
    other_row: ActivityRow,
    other: Activity,
)
    requires
        activity_read(row, record),
        activity_read(other_row, other),
    ensures
        activity_read(ActivityRow { id: other_row.id, ..row }, Activity { id: other.id, ..record }),
        activity_read(
            ActivityRow { task_id: other_row.task_id, ..row },
            Activity { task_id: other.task_id, ..record },
        ),
        activity_read(
            ActivityRow { project_id: other_row.project_id, ..row },
            Activity { project_id: other.project_id, ..record },
        ),
        activity_read(
            ActivityRow { actor_json: other_row.actor_json, ..row },
            Activity { actor: other.actor, ..record },
        ),
        activity_read(
            ActivityRow { verb: other_row.verb, ..row },
            Activity { verb: other.verb, ..record },
        ),
        activity_read(
            ActivityRow { field: other_row.field, ..row },
            Activity { field: other.field, ..record },
        ),
        activity_read(
            ActivityRow { old_value: other_row.old_value, ..row },
            Activity { old_value: other.old_value, ..record },
        ),
        activity_read(
            ActivityRow { new_value: other_row.new_value, ..row },
            Activity { new_value: other.new_value, ..record },
        ),
        activity_read(
            ActivityRow { occurred_at: other_row.occurred_at, ..row },
            Activity { occurred_at: other.occurred_at, ..record },
        ),
        activity_read(
            ActivityRow { event_id: other_row.event_id, ..row },
            Activity { event_id: other.event_id, ..record },
        ),
        activity_read(
            ActivityRow { seq: other_row.seq, ..row },
            Activity { seq: other.seq, ..record },
        ),
{
}

/// A row of an activity without a fault says what is read from it: each identifier, time,
/// state and text stands in it as it is read.
pub proof fn lemma_activity_is_what_the_row_says(row: ActivityRow, record: Activity)
    requires
        (activity_fault(row) is None && activity_read(row, record))
            || (row.fault() is None && row.holds(record)),
    ensures
        row.id is Ok
            && crate::ids::id_parsed::<ActivityId>(row.id->Ok_0@) == Ok::<ActivityId, Seq<char>>(
                record.id,
            ),
        row.task_id is Ok && (row.task_id->Ok_0 is None <==> record.task_id is None),
        row.task_id->Ok_0 matches Some(s)
            ==> crate::ids::id_parsed::<TaskId>(s@) == Ok::<TaskId, Seq<char>>(
                record.task_id->Some_0,
            ),
        row.project_id is Ok && (row.project_id->Ok_0 is None <==> record.project_id is None),
        row.project_id->Ok_0 matches Some(s)
            ==> crate::ids::id_parsed::<ProjectId>(s@) == Ok::<ProjectId, Seq<char>>(
                record.project_id->Some_0,
            ),
        row.actor_json is Ok
            && row.actor_json->Ok_0 is Ok
            && row.actor_json->Ok_0->Ok_0 == record.actor,
        row.verb is Ok && row.verb->Ok_0@ == record.verb.text(),
        row.field is Ok && row.field->Ok_0 == record.field,
        row.old_value is Ok && row.old_value->Ok_0 == record.old_value,
        row.new_value is Ok && row.new_value->Ok_0 == record.new_value,
        row.occurred_at is Ok
            && crate::time::rfc3339_parsed(row.occurred_at->Ok_0@) == Ok::<(i64, u32), Seq<char>>(
                (record.occurred_at.seconds(), record.occurred_at.subsec()),
            ),
        row.event_id is Ok
            && crate::ids::id_parsed::<EventId>(row.event_id->Ok_0@) == Ok::<EventId, Seq<char>>(
                record.event_id,
            ),
        row.seq is Ok && row.seq->Ok_0 == record.seq,
{
    record.verb.lemma_stored_names(row.verb->Ok_0@);
    crate::time::lemma_time_is_read_from_its_text(row.occurred_at->Ok_0@);
}

/// A text that stands for no value is reported with the text; one that stands for a value is
/// not reported.
pub proof fn lemma_unknown_verb_is_reported(v: Verb, s: Seq<char>)
    ensures
        verb_fault(v.text()) is None,
        (forall|w: Verb| #[trigger] w.text() != s) ==> verb_fault(s) == Some(
            ErrorView::Serde("unknown verb: "@ + s),
        ),
{
    v.lemma_text_names_value();
    v.lemma_stored_names(s);
}

/// The project that is looked up for a row may be missing where the row is on a task, but not
/// where it is on a plan or a run; a text that is there is an identifier.
pub proof fn lemma_project_that_is_looked_up(project: ProjectSource, found: ProjectIdRow)
    ensures
        found.project_id is Err ==> lookup_fault(project, found) is Some,
        found.project_id matches Ok(Some(text)) ==> (lookup_fault(project, found) is None
            <==> crate::ids::id_parsed::<ProjectId>(text@) is Ok),
        found.project_id matches Ok(None) ==> !(project is OfPlan || project is OfRun)
            ==> lookup_fault(project, found) is None,
        found.project_id matches Ok(None) ==> (project is OfPlan || project is OfRun) ==> (
        lookup_fault(project, found) is None <==> crate::ids::id_parsed::<ProjectId>(seq![]) is Ok),
{
}

/// A row of an activity is refused for what is wrong with a column, with the error of that
/// column; where nothing is wrong with any, nothing is refused.
pub proof fn lemma_activity_is_refused_for_its_columns(row: ActivityRow, other: ActivityRow)
    requires
        activity_fault(row) is None,
    ensures
        activity_fault(ActivityRow { id: other.id, ..row }) == column_fault(other.id).or_fault(
            id_fault::<ActivityId>(other.id->Ok_0@),
        ),
        activity_fault(ActivityRow { task_id: other.task_id, ..row })
            == column_fault(other.task_id).or_fault(opt_id_fault::<TaskId>(other.task_id->Ok_0)),
        activity_fault(ActivityRow { project_id: other.project_id, ..row })
            == column_fault(other.project_id).or_fault(
                opt_id_fault::<ProjectId>(other.project_id->Ok_0),
            ),
        activity_fault(ActivityRow { actor_json: other.actor_json, ..row })
            == column_fault(other.actor_json).or_fault(parsed_fault(other.actor_json->Ok_0)),
        activity_fault(ActivityRow { verb: other.verb, ..row })
            == column_fault(other.verb).or_fault(verb_fault(other.verb->Ok_0@)),
        activity_fault(ActivityRow { field: other.field, ..row }) == column_fault(other.field),
        activity_fault(ActivityRow { old_value: other.old_value, ..row }) == column_fault(
            other.old_value,
        ),
        activity_fault(ActivityRow { new_value: other.new_value, ..row }) == column_fault(
            other.new_value,
        ),
        activity_fault(ActivityRow { occurred_at: other.occurred_at, ..row })
            == column_fault(other.occurred_at).or_fault(ts_fault(other.occurred_at->Ok_0@)),
        activity_fault(ActivityRow { event_id: other.event_id, ..row })
            == column_fault(other.event_id).or_fault(id_fault::<EventId>(other.event_id->Ok_0@)),
        activity_fault(ActivityRow { seq: other.seq, ..row }) == column_fault(other.seq),
{
}

} // verus!
