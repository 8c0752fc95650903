//! Plans and the order of their tasks, in the `plans` and `plan_tasks` tables.
use vstd::prelude::*;

use crate::domain::{Actor, Plan, PlanProgressSummary, PlanStatus, PlanTask};
use crate::error::{CoreError, ErrorView};
use crate::events::{Event, EventEnvelope};
use crate::ids::{
    id_fault, id_value, opt_id_fault, opt_id_value, parse_id, parse_opt_id, PlanId, ProjectId,
    TaskId,
};
use crate::json::{parse_strings, print_strings, strings_fault, strings_parsed, strings_printed};
use crate::query::{
    sql_actor, sql_id, sql_int, sql_opt_id, sql_opt_text, sql_opt_time, sql_text, sql_time,
    statement, statements, Bound, BoundView, Query, QueryView,
};
use crate::rows::{
    column, column_fault, has_actor, has_int, has_opt_text, has_text, parsed, parsed_fault, Column,
    Decode, Faults, Parsed,
};
use crate::text::{concat2, opt_text, texts};
use crate::time::{
    opt_is_plain, opt_ts_fault, opt_ts_value, parse_opt_ts, parse_ts, ts_fault, ts_value, Timestamp,
};

verus! {

/// The plan projection.
#[derive(Clone, Copy, Debug)]
pub struct PlanRepo;

pub const GET_PLAN: &'static str = "SELECT id, project_id, parent_plan_id, title, description, goal, \
     success_criteria_json, status, owner_json, created_at, updated_at, archived_at, source_brief \
     FROM plans WHERE id = ?";

pub const LIST_PROJECT_STATUS: &'static str = "SELECT id, project_id, parent_plan_id, title, description, goal, \
     success_criteria_json, status, owner_json, created_at, updated_at, archived_at, source_brief \
     FROM plans WHERE project_id = ? AND status = ? ORDER BY created_at ASC";

pub const LIST_PROJECT_PLANS: &'static str = "SELECT id, project_id, parent_plan_id, title, description, goal, \
     success_criteria_json, status, owner_json, created_at, updated_at, archived_at, source_brief \
     FROM plans WHERE project_id = ? ORDER BY created_at ASC";

pub const LIST_STATUS: &'static str = "SELECT id, project_id, parent_plan_id, title, description, goal, \
     success_criteria_json, status, owner_json, created_at, updated_at, archived_at, source_brief \
     FROM plans WHERE status = ? ORDER BY created_at ASC";

pub const LIST_PLANS: &'static str = "SELECT id, project_id, parent_plan_id, title, description, goal, \
     success_criteria_json, status, owner_json, created_at, updated_at, archived_at, source_brief \
     FROM plans ORDER BY created_at ASC";

pub const LIST_CHILDREN: &'static str = "SELECT id, project_id, parent_plan_id, title, description, goal, \
     success_criteria_json, status, owner_json, created_at, updated_at, archived_at, source_brief \
     FROM plans WHERE parent_plan_id = ? ORDER BY created_at ASC";

pub const LIST_PLANS_FOR_TASK: &'static str = "SELECT p.id, p.project_id, p.parent_plan_id, p.title, p.description, p.goal, \
     p.success_criteria_json, p.status, p.owner_json, p.created_at, p.updated_at, p.archived_at, p.source_brief \
     FROM plans p \
     JOIN plan_tasks pt ON pt.plan_id = p.id \
     WHERE pt.task_id = ? \
     ORDER BY pt.position ASC, p.created_at ASC";

pub const UPSERT_PLAN: &'static str = "INSERT OR REPLACE INTO plans \
     (id, project_id, parent_plan_id, title, description, goal, \
     success_criteria_json, status, owner_json, created_at, updated_at, archived_at, source_brief) \
     VALUES (?, ?, ?, ?, ?, ?, ?, ?, ?, ?, ?, ?, ?)";

pub const SET_PLAN_STATUS: &'static str = "UPDATE plans SET status = ?, updated_at = ? WHERE id = ?";

pub const SET_PLAN_GOAL: &'static str = "UPDATE plans SET goal = ?, updated_at = ? WHERE id = ?";

pub const ARCHIVE_PLAN: &'static str = "UPDATE plans SET status = 'abandoned', archived_at = ?, updated_at = ? WHERE id = ?";

pub const LIST_TASKS: &'static str = "SELECT plan_id, task_id, position, depends_on_json \
     FROM plan_tasks WHERE plan_id = ? ORDER BY position ASC";

pub const COUNT_TASKS: &'static str = "SELECT COUNT(pt.task_id) AS tasks_total, \
     COALESCE(SUM(CASE WHEN t.status = 'done' THEN 1 ELSE 0 END), 0) AS tasks_done \
     FROM plan_tasks pt LEFT JOIN tasks t ON pt.task_id = t.id \
     WHERE pt.plan_id = ?";

pub const COUNT_SUB_PLANS: &'static str = "SELECT COUNT(*) AS sub_plans_total, \
     COALESCE(SUM(CASE WHEN status = 'completed' THEN 1 ELSE 0 END), 0) AS sub_plans_done \
     FROM plans WHERE parent_plan_id = ?";

pub const COUNT_BY_STATUS: &'static str = "SELECT COUNT(pt.task_id) AS total, \
     COALESCE(SUM(CASE WHEN t.status = 'done' THEN 1 ELSE 0 END), 0) AS done, \
     COALESCE(SUM(CASE WHEN t.status = 'in_progress' THEN 1 ELSE 0 END), 0) AS in_progress, \
     COALESCE(SUM(CASE WHEN t.status IN ('inbox', 'todo') THEN 1 ELSE 0 END), 0) AS todo \
     FROM plan_tasks pt LEFT JOIN tasks t ON pt.task_id = t.id \
     WHERE pt.plan_id = ?";

pub const ADD_TASK: &'static str = "INSERT OR REPLACE INTO plan_tasks (plan_id, task_id, position, depends_on_json) \
     VALUES (?, ?, ?, ?)";

pub const REMOVE_TASK: &'static str = "DELETE FROM plan_tasks WHERE plan_id = ? AND task_id = ?";

pub const MOVE_TASK: &'static str = "UPDATE plan_tasks SET position = ? WHERE plan_id = ? AND task_id = ?";

// ── rows ────────────────────────────────────────────────────────────────────

/// A column of task identifiers holds the bound value.
pub open spec fn has_task_ids(c: Column<Parsed<Vec<TaskId>>>, v: BoundView) -> bool {
    c matches Ok(Ok(ids)) && v == BoundView::TaskIds(ids@)
}

fn copy_task_ids(ids: &Vec<TaskId>) -> (r: Vec<TaskId>)
    ensures
        r@ == ids@,
{
    let mut out: Vec<TaskId> = Vec::new();
    let mut i: usize = 0;
    while i < ids.len()
        invariant
            i <= ids@.len(),
            out@ == ids@.take(i as int),
        decreases ids@.len() - i,
    {
        out.push(ids[i]);
        assert(ids@.take(i + 1) =~= ids@.take(i as int).push(ids@[i as int]));
        i = i + 1;
    }
    assert(ids@.take(ids@.len() as int) =~= ids@);
    out
}

/// Why a text is no plan status.
pub open spec fn plan_status_fault(s: Seq<char>) -> Option<ErrorView> {
    if PlanStatus::named(s) is Some {
        None
    } else {
        Some(ErrorView::Serde("unknown plan status: "@ + s))
    }
}

/// Reads a plan status.
pub fn parse_plan_status(s: &str) -> (r: Result<PlanStatus, CoreError>)
    ensures
        match plan_status_fault(s@) {
            Some(e) => r is Err && r->Err_0@ == e,
            None => r is Ok && Some(r->Ok_0) == PlanStatus::named(s@),
        },
{
    match PlanStatus::parse(s) {
        Some(v) => Ok(v),
        None => Err(CoreError::Serde(concat2("unknown plan status: ", s))),
    }
}

/// A row of the `plans` table.
#[derive(Debug, PartialEq, Eq)]
pub struct PlanRow {
    pub id: Column<String>,
    pub project_id: Column<String>,
    pub parent_plan_id: Column<Option<String>>,
    pub title: Column<String>,
    pub description: Column<String>,
    pub goal: Column<String>,
    pub success_criteria_json: Column<String>,
    pub status: Column<String>,
    pub owner_json: Column<Parsed<Actor>>,
    pub created_at: Column<String>,
    pub updated_at: Column<String>,
    pub archived_at: Column<Option<String>>,
    pub source_brief: Column<Option<String>>,
}

/// What is wrong with a plan row, where something is: the columns and their
/// values are looked at in this order.
pub open spec fn plan_fault(row: PlanRow) -> Option<ErrorView> {
    column_fault(row.id).or_fault(
        column_fault(row.project_id),
    ).or_fault(
        column_fault(row.parent_plan_id),
    ).or_fault(
        column_fault(row.title),
    ).or_fault(
        column_fault(row.description),
    ).or_fault(
        column_fault(row.goal),
    ).or_fault(
        column_fault(row.success_criteria_json),
    ).or_fault(
        column_fault(row.status),
    ).or_fault(
        column_fault(row.owner_json),
    ).or_fault(
        column_fault(row.created_at),
    ).or_fault(
        column_fault(row.updated_at),
    ).or_fault(
        column_fault(row.archived_at),
    ).or_fault(
        column_fault(row.source_brief),
    ).or_fault(
        id_fault::<PlanId>(row.id->Ok_0@),
    ).or_fault(
        id_fault::<ProjectId>(row.project_id->Ok_0@),
    ).or_fault(
        opt_id_fault::<PlanId>(row.parent_plan_id->Ok_0),
    ).or_fault(
        strings_fault(row.success_criteria_json->Ok_0@),
    ).or_fault(
        plan_status_fault(row.status->Ok_0@),
    ).or_fault(
        parsed_fault(row.owner_json->Ok_0),
    ).or_fault(
        ts_fault(row.created_at->Ok_0@),
    ).or_fault(
        ts_fault(row.updated_at->Ok_0@),
    ).or_fault(
        opt_ts_fault(row.archived_at->Ok_0),
    )
}

/// The record is what a sound plan row says.
pub open spec fn plan_read(row: PlanRow, record: Plan) -> bool {
    &&& record.id == id_value::<PlanId>(row.id->Ok_0@)
    &&& record.project_id == id_value::<ProjectId>(row.project_id->Ok_0@)
    &&& record.parent_plan_id == opt_id_value::<PlanId>(row.parent_plan_id->Ok_0)
    &&& record.title == row.title->Ok_0
    &&& record.description == row.description->Ok_0
    &&& record.goal == row.goal->Ok_0
    &&& texts(record.success_criteria@) == strings_parsed(row.success_criteria_json->Ok_0@)->Ok_0
    &&& Some(record.status) == PlanStatus::named(row.status->Ok_0@)
    &&& record.owner == row.owner_json->Ok_0->Ok_0
    &&& record.created_at == ts_value(row.created_at->Ok_0@)
    &&& record.updated_at == ts_value(row.updated_at->Ok_0@)
    &&& record.archived_at == opt_ts_value(row.archived_at->Ok_0)
    &&& record.source_brief == row.source_brief->Ok_0
}

/// Reads a plan from its row.
pub fn row_to_plan(row: PlanRow) -> (r: Result<Plan, CoreError>)
    ensures
        match plan_fault(row) {
            Some(e) => r is Err && r->Err_0@ == e,
            None => r is Ok && plan_read(row, r->Ok_0),
        },
{
    let id = column(row.id)?;
    let project_id = column(row.project_id)?;
    let parent_plan_id = column(row.parent_plan_id)?;
    let title = column(row.title)?;
    let description = column(row.description)?;
    let goal = column(row.goal)?;
    let success_criteria_json = column(row.success_criteria_json)?;
    let status = column(row.status)?;
    let owner_json = column(row.owner_json)?;
    let created_at = column(row.created_at)?;
    let updated_at = column(row.updated_at)?;
    let archived_at = column(row.archived_at)?;
    let source_brief = column(row.source_brief)?;
    let id = parse_id::<PlanId>(id.as_str())?;
    let project_id = parse_id::<ProjectId>(project_id.as_str())?;
    let parent_plan_id = parse_opt_id::<PlanId>(&parent_plan_id)?;
    let success_criteria_json = parse_strings(success_criteria_json.as_str())?;
    let status = parse_plan_status(status.as_str())?;
    let owner_json = parsed(owner_json)?;
    let created_at = parse_ts(created_at.as_str())?;
    let updated_at = parse_ts(updated_at.as_str())?;
    let archived_at = parse_opt_ts(&archived_at)?;
    Ok(Plan {
        id,
        project_id,
        parent_plan_id,
        title,
        description,
        goal,
        success_criteria: success_criteria_json,
        status,
        owner: owner_json,
        created_at,
        updated_at,
        archived_at,
        source_brief,
    })
}

impl Decode for PlanRow {
    type Record = Plan;

    open spec fn fault(&self) -> Option<ErrorView> {
        plan_fault(*self)
    }

    open spec fn holds(&self, record: Plan) -> bool {
        plan_read(*self, record)
    }

    fn decode(self) -> (r: Result<Plan, CoreError>) {
        row_to_plan(self)
    }
}

/// The columns of a plan, in the order in which they are written.
pub open spec fn plan_columns(record: Plan) -> Seq<BoundView> {
    seq![
        sql_id(record.id),
        sql_id(record.project_id),
        sql_opt_id(record.parent_plan_id),
        sql_text(record.title@),
        sql_text(record.description@),
        sql_text(record.goal@),
        sql_text(strings_printed(texts(record.success_criteria@))),
        sql_text(record.status.text()),
        sql_actor(record.owner),
        sql_time(record.created_at),
        sql_time(record.updated_at),
        sql_opt_time(record.archived_at),
        sql_opt_text(opt_text(record.source_brief)),
    ]
}

impl PlanRow {
    /// Each column of the row holds what is written for it of the record.
    pub open spec fn stores(self, record: Plan) -> bool {
        &&& has_text(self.id, sql_id(record.id))
        &&& has_text(self.project_id, sql_id(record.project_id))
        &&& has_opt_text(self.parent_plan_id, sql_opt_id(record.parent_plan_id))
        &&& has_text(self.title, sql_text(record.title@))
        &&& has_text(self.description, sql_text(record.description@))
        &&& has_text(self.goal, sql_text(record.goal@))
        &&& has_text(self.success_criteria_json, sql_text(strings_printed(texts(record.success_criteria@))))
        &&& has_text(self.status, sql_text(record.status.text()))
        &&& has_actor(self.owner_json, sql_actor(record.owner))
        &&& has_text(self.created_at, sql_time(record.created_at))
        &&& has_text(self.updated_at, sql_time(record.updated_at))
        &&& has_opt_text(self.archived_at, sql_opt_time(record.archived_at))
        &&& has_opt_text(self.source_brief, sql_opt_text(opt_text(record.source_brief)))
    }
}

impl Plan {
    /// The two records agree in every field.
    pub open spec fn same(self, other: Plan) -> bool {
        &&& self.id == other.id
        &&& self.project_id == other.project_id
        &&& self.parent_plan_id == other.parent_plan_id
        &&& self.title@ == other.title@
        &&& self.description@ == other.description@
        &&& self.goal@ == other.goal@
        &&& texts(self.success_criteria@) == texts(other.success_criteria@)
        &&& self.status == other.status
        &&& self.owner@ == other.owner@
        &&& self.created_at == other.created_at
        &&& self.updated_at == other.updated_at
        &&& self.archived_at == other.archived_at
        &&& opt_text(self.source_brief) == opt_text(other.source_brief)
    }

    /// Every point in time of the record has an RFC 3339 text that reads back.
    pub open spec fn is_plain(self) -> bool {
        &&& self.created_at.is_plain()
        &&& self.updated_at.is_plain()
        &&& opt_is_plain(self.archived_at)
    }
}

/// A row of the `plan_tasks` table.
#[derive(Debug, PartialEq, Eq)]
pub struct PlanTaskRow {
    pub plan_id: Column<String>,
    pub task_id: Column<String>,
    pub position: Column<i64>,
    pub depends_on_json: Column<Parsed<Vec<TaskId>>>,
}

/// What is wrong with a plan task row, where something is: the columns and their
/// values are looked at in this order.
pub open spec fn plan_task_fault(row: PlanTaskRow) -> Option<ErrorView> {
    column_fault(row.plan_id).or_fault(
        column_fault(row.task_id),
    ).or_fault(
        column_fault(row.position),
    ).or_fault(
        column_fault(row.depends_on_json),
    ).or_fault(
        parsed_fault(row.depends_on_json->Ok_0),
    ).or_fault(
        id_fault::<PlanId>(row.plan_id->Ok_0@),
    ).or_fault(
        id_fault::<TaskId>(row.task_id->Ok_0@),
    )
}

/// The record is what a sound plan task row says.
pub open spec fn plan_task_read(row: PlanTaskRow, record: PlanTask) -> bool {
    &&& record.plan_id == id_value::<PlanId>(row.plan_id->Ok_0@)
    &&& record.task_id == id_value::<TaskId>(row.task_id->Ok_0@)
    &&& record.position == row.position->Ok_0 as u32
    &&& record.depends_on@ == row.depends_on_json->Ok_0->Ok_0@
}

/// Reads a plan task from its row.
pub fn row_to_plan_task(row: PlanTaskRow) -> (r: Result<PlanTask, CoreError>)
    ensures
        match plan_task_fault(row) {
            Some(e) => r is Err && r->Err_0@ == e,
            None => r is Ok && plan_task_read(row, r->Ok_0),
        },
{
    let plan_id = column(row.plan_id)?;
    let task_id = column(row.task_id)?;
    let position = column(row.position)?;
    let depends_on_json = column(row.depends_on_json)?;
    let depends_on_json = parsed(depends_on_json)?;
    let plan_id = parse_id::<PlanId>(plan_id.as_str())?;
    let task_id = parse_id::<TaskId>(task_id.as_str())?;
    Ok(PlanTask {
        plan_id,
        task_id,
        position: position as u32,
        depends_on: depends_on_json,
    })
}

impl Decode for PlanTaskRow {
    type Record = PlanTask;

    open spec fn fault(&self) -> Option<ErrorView> {
        plan_task_fault(*self)
    }

    open spec fn holds(&self, record: PlanTask) -> bool {
        plan_task_read(*self, record)
    }

    fn decode(self) -> (r: Result<PlanTask, CoreError>) {
        row_to_plan_task(self)
    }
}

/// The columns of a plan task, in the order in which they are written.
pub open spec fn plan_task_columns(record: PlanTask) -> Seq<BoundView> {
    seq![
        sql_id(record.plan_id),
        sql_id(record.task_id),
        sql_int(record.position as int),
        BoundView::TaskIds(record.depends_on@),
    ]
}

impl PlanTaskRow {
    /// Each column of the row holds what is written for it of the record.
    pub open spec fn stores(self, record: PlanTask) -> bool {
        &&& has_text(self.plan_id, sql_id(record.plan_id))
        &&& has_text(self.task_id, sql_id(record.task_id))
        &&& has_int(self.position, sql_int(record.position as int))
        &&& has_task_ids(self.depends_on_json, BoundView::TaskIds(record.depends_on@))
    }
}

impl PlanTask {
    /// The two records agree in every field.
    pub open spec fn same(self, other: PlanTask) -> bool {
        &&& self.plan_id == other.plan_id
        &&& self.task_id == other.task_id
        &&& self.position == other.position
        &&& self.depends_on@ == other.depends_on@
    }
}

// ── progress ────────────────────────────────────────────────────────────────

/// The row of the count of a plan's tasks.
#[derive(Debug, PartialEq, Eq)]
pub struct TaskCountRow {
    pub tasks_total: Column<i64>,
    pub tasks_done: Column<i64>,
}

/// The row of the count of the plans below a plan.
#[derive(Debug, PartialEq, Eq)]
pub struct SubPlanCountRow {
    pub sub_plans_total: Column<i64>,
    pub sub_plans_done: Column<i64>,
}

/// How many tasks and plans a plan has, and how many of them are done.
#[derive(Clone, Copy, Debug, PartialEq, Eq, Structural)]
pub struct PlanCounts {
    pub tasks_total: i64,
    pub tasks_done: i64,
    pub sub_plans_total: i64,
    pub sub_plans_done: i64,
}

/// The counts of a plan, as they are reported.
#[derive(Clone, Copy, Debug, PartialEq, Eq, Structural)]
pub struct ReportedCounts {
    pub tasks_total: u32,
    pub tasks_done: u32,
    pub sub_plans_total: u32,
    pub sub_plans_done: u32,
}

impl PlanCounts {
    /// Reads the counts from their two rows.
    pub fn read(tasks: TaskCountRow, sub_plans: SubPlanCountRow) -> (r: Result<
        PlanCounts,
        CoreError,
    >)
        ensures
            match column_fault(tasks.tasks_total).or_fault(column_fault(tasks.tasks_done)).or_fault(
                column_fault(sub_plans.sub_plans_total),
            ).or_fault(column_fault(sub_plans.sub_plans_done)) {
                Some(e) => r is Err && r->Err_0@ == e,
                None => r is Ok && r->Ok_0 == (PlanCounts {
                    tasks_total: tasks.tasks_total->Ok_0,
                    tasks_done: tasks.tasks_done->Ok_0,
                    sub_plans_total: sub_plans.sub_plans_total->Ok_0,
                    sub_plans_done: sub_plans.sub_plans_done->Ok_0,
                }),
            },
    {
        let tasks_total: i64 = column(tasks.tasks_total)?;
        let tasks_done: i64 = column(tasks.tasks_done)?;
        let sub_plans_total: i64 = column(sub_plans.sub_plans_total)?;
        let sub_plans_done: i64 = column(sub_plans.sub_plans_done)?;
        Ok(PlanCounts { tasks_total, tasks_done, sub_plans_total, sub_plans_done })
    }

    /// How many tasks and plans there are, and how many are done. The share of the second
    /// in the first is how far the plan has come; a plan without any has not come far.
    pub fn completion(&self) -> (r: (i64, i64))
        requires
            i64::MIN <= self.tasks_total + self.sub_plans_total <= i64::MAX,
            i64::MIN <= self.tasks_done + self.sub_plans_done <= i64::MAX,
        ensures
            r.0 == self.tasks_total + self.sub_plans_total,
            r.1 == self.tasks_done + self.sub_plans_done,
    {
        (self.tasks_total + self.sub_plans_total, self.tasks_done + self.sub_plans_done)
    }

    /// The counts as they are reported.
    pub fn reported(&self) -> (r: ReportedCounts)
        ensures
            r == (ReportedCounts {
                tasks_total: self.tasks_total as u32,
                tasks_done: self.tasks_done as u32,
                sub_plans_total: self.sub_plans_total as u32,
                sub_plans_done: self.sub_plans_done as u32,
            }),
    {
        ReportedCounts {
            tasks_total: #[verifier::truncate] (self.tasks_total as u32),
            tasks_done: #[verifier::truncate] (self.tasks_done as u32),
            sub_plans_total: #[verifier::truncate] (self.sub_plans_total as u32),
            sub_plans_done: #[verifier::truncate] (self.sub_plans_done as u32),
        }
    }
}

/// The row of the counts of a plan's tasks by their states.
#[derive(Debug, PartialEq, Eq)]
pub struct SummaryRow {
    pub total: Column<i64>,
    pub done: Column<i64>,
    pub in_progress: Column<i64>,
    pub todo: Column<i64>,
}

/// Reads the summary of a plan's progress.
pub fn read_summary(row: SummaryRow) -> (r: Result<PlanProgressSummary, CoreError>)
    ensures
        match column_fault(row.total).or_fault(column_fault(row.done)).or_fault(
            column_fault(row.in_progress),
        ).or_fault(column_fault(row.todo)) {
            Some(e) => r is Err && r->Err_0@ == e,
            None => r is Ok && r->Ok_0 == (PlanProgressSummary {
                total: row.total->Ok_0 as u32,
                done: row.done->Ok_0 as u32,
                in_progress: row.in_progress->Ok_0 as u32,
                todo: row.todo->Ok_0 as u32,
                next_ready: None,
            }),
        },
{
    let total: i64 = column(row.total)?;
    let done: i64 = column(row.done)?;
    let in_progress: i64 = column(row.in_progress)?;
    let todo: i64 = column(row.todo)?;
    Ok(
        PlanProgressSummary {
            total: #[verifier::truncate] (total as u32),
            done: #[verifier::truncate] (done as u32),
            in_progress: #[verifier::truncate] (in_progress as u32),
            todo: #[verifier::truncate] (todo as u32),
            next_ready: None,
        },
    )
}

// ── what events do to plans ─────────────────────────────────────────────────

/// What an event asks of the plans.
#[derive(Clone, Debug, PartialEq, Eq)]
pub enum PlanStep {
    /// Execute these statements together.
    Run { statements: Vec<Query> },
    /// Load the plan, change it as the event says where there is one, and execute what
    /// [`PlanRepo::loaded`] gives.
    Update { load: Query },
}

/// The statement that moves a task of a plan.
pub open spec fn move_task(plan_id: PlanId, task_id: TaskId, position: int) -> QueryView {
    statement(MOVE_TASK@, seq![sql_int(position), sql_id(plan_id), sql_id(task_id)])
}

/// The statements that put tasks of a plan in an order: each gets its place in the list.
pub open spec fn moves(plan_id: PlanId, order: Seq<TaskId>) -> Seq<QueryView> {
    Seq::new(order.len(), |i: int| move_task(plan_id, order[i], i))
}

/// The statements that an event leads to, but for a change of a stored plan.
pub open spec fn plan_changes(env: EventEnvelope) -> Seq<QueryView> {
    let at = env.occurred_at;
    match env.payload {
        Event::PlanCreated { plan } => seq![statement(UPSERT_PLAN@, plan_columns(plan))],
        Event::PlanStatusChanged { plan_id, to, .. } => seq![
            statement(
                SET_PLAN_STATUS@,
                seq![sql_text(to.text()), sql_time(at), sql_id(plan_id)],
            ),
        ],
        Event::PlanGoalChanged { plan_id, to, .. } => seq![
            statement(SET_PLAN_GOAL@, seq![sql_text(to@), sql_time(at), sql_id(plan_id)]),
        ],
        Event::PlanTaskAdded { plan_id, task_id, position, depends_on } => seq![
            statement(
                ADD_TASK@,
                plan_task_columns(PlanTask { plan_id, task_id, position, depends_on }),
            ),
        ],
        Event::PlanTaskRemoved { plan_id, task_id } => seq![
            statement(REMOVE_TASK@, seq![sql_id(plan_id), sql_id(task_id)]),
        ],
        Event::PlanReordered { plan_id, order } => moves(plan_id, order@),
        Event::PlanArchived { plan_id, at } => seq![
            statement(ARCHIVE_PLAN@, seq![sql_time(at), sql_time(at), sql_id(plan_id)]),
        ],
        _ => seq![],
    }
}

impl PlanRepo {
    /// The query for a plan.
    pub fn get(id: &PlanId) -> (q: Query)
        ensures
            q@ == statement(GET_PLAN@, seq![sql_id(*id)]),
    {
        Query::new(GET_PLAN).id(id)
    }

    /// The query for the plans of a project, in a state where one is given, in the order of
    /// their creation.
    pub fn list_by_project(project_id: &ProjectId, status_filter: &Option<PlanStatus>) -> (q: Query)
        ensures
            q@ == match *status_filter {
                Some(s) => statement(
                    LIST_PROJECT_STATUS@,
                    seq![sql_id(*project_id), sql_text(s.text())],
                ),
                None => statement(LIST_PROJECT_PLANS@, seq![sql_id(*project_id)]),
            },
    {
        match status_filter {
            Some(s) => {
                let q = Query::new(LIST_PROJECT_STATUS).id(project_id).text(s.as_str());
                assert(q@.binds =~= seq![sql_id(*project_id), sql_text(s.text())]);
                q
            },
            None => {
                let q = Query::new(LIST_PROJECT_PLANS).id(project_id);
                assert(q@.binds =~= seq![sql_id(*project_id)]);
                q
            },
        }
    }

    /// The query for all plans, in a state where one is given, in the order of their
    /// creation.
    pub fn list_all(status_filter: &Option<PlanStatus>) -> (q: Query)
        ensures
            q@ == match *status_filter {
                Some(s) => statement(LIST_STATUS@, seq![sql_text(s.text())]),
                None => statement(LIST_PLANS@, seq![]),
            },
    {
        match status_filter {
            Some(s) => {
                let q = Query::new(LIST_STATUS).text(s.as_str());
                assert(q@.binds =~= seq![sql_text(s.text())]);
                q
            },
            None => {
                let q = Query::new(LIST_PLANS);
                assert(q@.binds =~= seq![]);
                q
            },
        }
    }

    /// The query for the plans below a plan.
    pub fn list_children(parent_plan_id: &PlanId) -> (q: Query)
        ensures
            q@ == statement(LIST_CHILDREN@, seq![sql_id(*parent_plan_id)]),
    {
        Query::new(LIST_CHILDREN).id(parent_plan_id)
    }

    /// The query for the plans that have a task.
    pub fn list_plans_for_task(task_id: &TaskId) -> (q: Query)
        ensures
            q@ == statement(LIST_PLANS_FOR_TASK@, seq![sql_id(*task_id)]),
    {
        Query::new(LIST_PLANS_FOR_TASK).id(task_id)
    }

    /// The statement that writes a plan. What it writes reads back.
    pub fn insert(plan: &Plan) -> (q: Query)
        ensures
            q@ == statement(UPSERT_PLAN@, plan_columns(*plan)),
            plan.is_plain() ==> forall|row: PlanRow|
                #[trigger] row.stores(*plan) ==> plan_fault(row) is None && forall|record: Plan|
                    plan_read(row, record) ==> record.same(*plan),
    {
        Query::new(UPSERT_PLAN)
            .id(&plan.id)
            .id(&plan.project_id)
            .opt_id(&plan.parent_plan_id)
            .text(plan.title.as_str())
            .text(plan.description.as_str())
            .text(plan.goal.as_str())
            .text(print_strings(&plan.success_criteria).as_str())
            .text(plan.status.as_str())
            .actor(&plan.owner)
            .time(&plan.created_at)
            .time(&plan.updated_at)
            .opt_time(&plan.archived_at)
            .opt_text(&plan.source_brief)
    }

    /// The statement that changes the state of a plan.
    pub fn update_status(plan_id: &PlanId, status: PlanStatus, now: &Timestamp) -> (q: Query)
        ensures
            q@ == statement(
                SET_PLAN_STATUS@,
                seq![sql_text(status.text()), sql_time(*now), sql_id(*plan_id)],
            ),
    {
        Query::new(SET_PLAN_STATUS).text(status.as_str()).time(now).id(plan_id)
    }

    /// The statement that archives a plan.
    pub fn archive(plan_id: &PlanId, at: &Timestamp) -> (q: Query)
        ensures
            q@ == statement(ARCHIVE_PLAN@, seq![sql_time(*at), sql_time(*at), sql_id(*plan_id)]),
    {
        Query::new(ARCHIVE_PLAN).time(at).time(at).id(plan_id)
    }

    /// The query for the tasks of a plan, in order.
    pub fn list_tasks_ordered(plan_id: &PlanId) -> (q: Query)
        ensures
            q@ == statement(LIST_TASKS@, seq![sql_id(*plan_id)]),
    {
        Query::new(LIST_TASKS).id(plan_id)
    }

    /// The queries for the counts of a plan's tasks and of the plans below it.
    pub fn get_progress(plan_id: &PlanId) -> (q: (Query, Query))
        ensures
            q.0@ == statement(COUNT_TASKS@, seq![sql_id(*plan_id)]),
            q.1@ == statement(COUNT_SUB_PLANS@, seq![sql_id(*plan_id)]),
    {
        (Query::new(COUNT_TASKS).id(plan_id), Query::new(COUNT_SUB_PLANS).id(plan_id))
    }

    /// The query for the counts of a plan's tasks by their states.
    pub fn get_progress_summary(plan_id: &PlanId) -> (q: Query)
        ensures
            q@ == statement(COUNT_BY_STATUS@, seq![sql_id(*plan_id)]),
    {
        Query::new(COUNT_BY_STATUS).id(plan_id)
    }

    /// The statement that puts a task at a place of a plan. What it writes reads back.
    pub fn add_task(task: &PlanTask) -> (q: Query)
        ensures
            q@ == statement(ADD_TASK@, plan_task_columns(*task)),
            forall|row: PlanTaskRow|
                #[trigger] row.stores(*task) ==> plan_task_fault(row) is None && forall|record: PlanTask|
                    plan_task_read(row, record) ==> record.same(*task),
    {
        let q = Query::new(ADD_TASK)
            .id(&task.plan_id)
            .id(&task.task_id)
            .number(task.position as i64)
            .bind(Bound::TaskIds(copy_task_ids(&task.depends_on)));
        assert(task.position == task.position as i64 as u32);
        q
    }

    /// The statement that takes a task out of a plan.
    pub fn remove_task(plan_id: &PlanId, task_id: &TaskId) -> (q: Query)
        ensures
            q@ == statement(REMOVE_TASK@, seq![sql_id(*plan_id), sql_id(*task_id)]),
    {
        Query::new(REMOVE_TASK).id(plan_id).id(task_id)
    }

    /// The statements that put tasks of a plan in an order.
    pub fn reorder(plan_id: &PlanId, order: &Vec<TaskId>) -> (r: Vec<Query>)
        requires
            order@.len() <= i64::MAX,
        ensures
            statements(r@) == moves(*plan_id, order@),
    {
        let mut out: Vec<Query> = Vec::new();
        let mut i: usize = 0;
        while i < order.len()
            invariant
                i <= order@.len() <= i64::MAX,
                statements(out@) == moves(*plan_id, order@).take(i as int),
            decreases order@.len() - i,
        {
            let q = Query::new(MOVE_TASK).number(i as i64).id(plan_id).id(&order[i]);
            assert(q@.binds =~= seq![
                sql_int(i as int),
                sql_id(*plan_id),
                sql_id(order@[i as int]),
            ]);
            assert(q@ == moves(*plan_id, order@)[i as int]);
            let ghost before = out@;
            out.push(q);
            assert(statements(out@) =~= statements(before).push(q@));
            assert(moves(*plan_id, order@).take(i + 1) =~= moves(*plan_id, order@).take(
                i as int,
            ).push(moves(*plan_id, order@)[i as int]));
            i = i + 1;
        }
        assert(moves(*plan_id, order@).take(order@.len() as int) =~= moves(*plan_id, order@));
        out
    }

    /// The statement that writes the plan that was found and has been changed; none where
    /// no plan was found.
    pub fn loaded(found: &Option<Plan>) -> (r: Option<Query>)
        ensures
            match *found {
                Some(plan) => r is Some && r->Some_0@ == statement(UPSERT_PLAN@, plan_columns(plan)),
                None => r is None,
            },
    {
        match found {
            Some(plan) => Some(PlanRepo::insert(plan)),
            None => None,
        }
    }

    /// What an event asks of the plans. What is written of a plan reads back.
    pub fn apply_event(env: &EventEnvelope) -> (r: PlanStep)
        requires
            env.payload matches Event::PlanReordered { order, .. } ==> order@.len() <= i64::MAX,
        ensures
            match env.payload {
                Event::PlanUpdated { plan_id, .. } => r matches PlanStep::Update { load } && load@
                    == statement(GET_PLAN@, seq![sql_id(plan_id)]),
                _ => r matches PlanStep::Run { statements: s } && statements(s@) == plan_changes(
                    *env,
                ),
            },
            env.payload matches Event::PlanCreated { plan } ==> plan.is_plain() ==> forall|
                row: PlanRow,
            | #[trigger]
                row.stores(plan) ==> plan_fault(row) is None && forall|record: Plan|
                    plan_read(row, record) ==> record.same(plan),
    {
        let at = &env.occurred_at;
        let mut out: Vec<Query> = Vec::new();
        match &env.payload {
            Event::PlanCreated { plan } => {
                out.push(PlanRepo::insert(plan));
            },
            Event::PlanUpdated { plan_id, .. } => {
                return PlanStep::Update { load: PlanRepo::get(plan_id) };
            },
            Event::PlanStatusChanged { plan_id, to, .. } => {
                out.push(PlanRepo::update_status(plan_id, *to, at));
            },
            Event::PlanGoalChanged { plan_id, to, .. } => {
                let q = Query::new(SET_PLAN_GOAL).text(to.as_str()).time(at).id(plan_id);
                assert(q@.binds =~= seq![sql_text(to@), sql_time(*at), sql_id(*plan_id)]);
                out.push(q);
            },
            Event::PlanTaskAdded { plan_id, task_id, position, depends_on } => {
                let task = PlanTask {
                    plan_id: *plan_id,
                    task_id: *task_id,
                    position: *position,
                    depends_on: copy_task_ids(depends_on),
                };
                assert(plan_task_columns(task) =~= plan_task_columns(
                    PlanTask {
                        plan_id: *plan_id,
                        task_id: *task_id,
                        position: *position,
                        depends_on: *depends_on,
                    },
                ));
                out.push(PlanRepo::add_task(&task));
            },
            Event::PlanTaskRemoved { plan_id, task_id } => {
                out.push(PlanRepo::remove_task(plan_id, task_id));
            },
            Event::PlanReordered { plan_id, order } => {
                out = PlanRepo::reorder(plan_id, order);
            },
            Event::PlanArchived { plan_id, at } => {
                out.push(PlanRepo::archive(plan_id, at));
            },
            _ => {},
        }
        assert(statements(out@) =~= plan_changes(*env));
        PlanStep::Run { statements: out }
    }
}

// ── laws ────────────────────────────────────────────────────────────────────

/// The places of a plan's tasks.
pub type Places = Map<TaskId, int>;

/// The places of a plan's tasks after a statement that moves one: a task that is not in
/// the plan is not moved.
pub open spec fn moved(places: Places, task_id: TaskId, position: int) -> Places {
    if places.dom().contains(task_id) {
        places.insert(task_id, position)
    } else {
        places
    }
}

/// The places of a plan's tasks after they were put in an order.
pub open spec fn reordered(places: Places, order: Seq<TaskId>) -> Places
    decreases order.len(),
{
    if order.len() == 0 {
        places
    } else {
        moved(reordered(places, order.drop_last()), order.last(), order.len() - 1)
    }
}

/// Putting tasks in an order gives each task of the plan its place in the list, leaves the
/// others where they are, and adds none.
pub proof fn lemma_reorder_places_each_task(places: Places, order: Seq<TaskId>)
    requires
        order.no_duplicates(),
    ensures
        reordered(places, order).dom() == places.dom(),
        forall|i: int|
            0 <= i < order.len() && places.dom().contains(#[trigger] order[i]) ==> reordered(
                places,
                order,
            )[order[i]] == i,
        forall|task_id: TaskId|
            places.dom().contains(task_id) && !order.contains(task_id) ==> #[trigger] reordered(
                places,
                order,
            )[task_id] == places[task_id],
    decreases order.len(),
{
    if order.len() > 0 {
        let init = order.drop_last();
        let n = order.len() - 1;
        assert(init.no_duplicates()) by {
            assert forall|i: int, j: int| 0 <= i < init.len() && 0 <= j < init.len() && i
                != j implies init[i] != init[j] by {
                assert(order[i] != order[j]);
            }
        }
        lemma_reorder_places_each_task(places, init);
        let before = reordered(places, init);
        let after = reordered(places, order);
        assert(after.dom() =~= places.dom());
        assert forall|i: int|
            0 <= i < order.len() && places.dom().contains(#[trigger] order[i]) implies after[order[i]]
            == i by {
            if i < n {
                assert(init[i] == order[i]);
                assert(order[i] != order[n]);
                assert(before[order[i]] == i);
            }
        }
        assert forall|task_id: TaskId|
            places.dom().contains(task_id) && !order.contains(task_id) implies #[trigger] after[task_id]
            == places[task_id] by {
            assert(order[n] != task_id);
            if init.contains(task_id) {
                let i = choose|i: int| 0 <= i < init.len() && init[i] == task_id;
                assert(order[i] == task_id);
            }
            assert(before[task_id] == places[task_id]);
        }
    }
}

/// A change of a plan's state or goal is written as what it became, whatever it was, at the
/// time of the event; an archived plan was archived and changed at the time that the event
/// tells. Each is written to the plan that the event is about.
pub proof fn lemma_plan_events_are_written(env: EventEnvelope)
    ensures
        ({
            let made = plan_changes(env);
            let now = sql_time(env.occurred_at);
            &&& env.payload matches Event::PlanCreated { plan } ==> made.len() == 1 && made[0]
                == statement(UPSERT_PLAN@, plan_columns(plan))
            &&& env.payload matches Event::PlanStatusChanged { plan_id, to, .. } ==> made.len() == 1
                && made[0].sql == SET_PLAN_STATUS@ && made[0].binds == seq![
                sql_text(to.text()),
                now,
                sql_id(plan_id),
            ]
            &&& env.payload matches Event::PlanGoalChanged { plan_id, to, .. } ==> made.len() == 1
                && made[0].sql == SET_PLAN_GOAL@ && made[0].binds == seq![
                sql_text(to@),
                now,
                sql_id(plan_id),
            ]
            &&& env.payload matches Event::PlanArchived { plan_id, at } ==> made.len() == 1
                && made[0].sql == ARCHIVE_PLAN@ && made[0].binds == seq![
                sql_time(at),
                sql_time(at),
                sql_id(plan_id),
            ]
        }),
{
}

/// A task that is added to a plan gets the place and the tasks it depends on that the event
/// tells; one that is removed is taken from that plan. A plan that is reordered has each
/// task at its place in the list. No other event changes a plan here.
pub proof fn lemma_tasks_of_a_plan_are_written(env: EventEnvelope, i: int)
    ensures
        ({
            let made = plan_changes(env);
            &&& env.payload matches Event::PlanTaskAdded {
                plan_id,
                task_id,
                position,
                depends_on,
            } ==> made.len() == 1 && made[0].sql == ADD_TASK@ && made[0].binds == seq![
                sql_id(plan_id),
                sql_id(task_id),
                sql_int(position as int),
                BoundView::TaskIds(depends_on@),
            ]
            &&& env.payload matches Event::PlanTaskRemoved { plan_id, task_id } ==> made.len() == 1
                && made[0].sql == REMOVE_TASK@ && made[0].binds == seq![
                sql_id(plan_id),
                sql_id(task_id),
            ]
            &&& env.payload matches Event::PlanReordered { plan_id, order } ==> made.len()
                == order@.len() && (0 <= i < order@.len() ==> made[i].sql == MOVE_TASK@
                && made[i].binds == seq![sql_int(i), sql_id(plan_id), sql_id(order@[i])])
            &&& !(env.payload is PlanCreated || env.payload is PlanStatusChanged
                || env.payload is PlanGoalChanged || env.payload is PlanArchived
                || env.payload is PlanTaskAdded || env.payload is PlanTaskRemoved
                || env.payload is PlanReordered) ==> made.len() == 0
        }),
{
}

/// Each field of a plan has a column of its own: what is written of one that changes is
/// written in its column, and the other columns stay.
pub proof fn lemma_plan_has_a_column_for_each_field(record: Plan, other: Plan)
    ensures
        plan_columns(Plan { id: other.id, ..record }) == plan_columns(record).update(
            0,
            sql_id(other.id),
        ),
        plan_columns(Plan { project_id: other.project_id, ..record })
            == plan_columns(record).update(1, sql_id(other.project_id)),
        plan_columns(Plan { parent_plan_id: other.parent_plan_id, ..record })
            == plan_columns(record).update(2, sql_opt_id(other.parent_plan_id)),
        plan_columns(Plan { title: other.title, ..record }) == plan_columns(record).update(
            3,
            sql_text(other.title@),
        ),
        plan_columns(Plan { description: other.description, ..record })
            == plan_columns(record).update(4, sql_text(other.description@)),
        plan_columns(Plan { goal: other.goal, ..record }) == plan_columns(record).update(
            5,
            sql_text(other.goal@),
        ),
        plan_columns(Plan { success_criteria: other.success_criteria, ..record })
            == plan_columns(record).update(
                6,
                sql_text(strings_printed(texts(other.success_criteria@))),
            ),
        plan_columns(Plan { status: other.status, ..record }) == plan_columns(record).update(
            7,
            sql_text(other.status.text()),
        ),
        plan_columns(Plan { owner: other.owner, ..record }) == plan_columns(record).update(
            8,
            sql_actor(other.owner),
        ),
        plan_columns(Plan { created_at: other.created_at, ..record })
            == plan_columns(record).update(9, sql_time(other.created_at)),
        plan_columns(Plan { updated_at: other.updated_at, ..record })
            == plan_columns(record).update(10, sql_time(other.updated_at)),
        plan_columns(Plan { archived_at: other.archived_at, ..record })
            == plan_columns(record).update(11, sql_opt_time(other.archived_at)),
        plan_columns(Plan { source_brief: other.source_brief, ..record })
            == plan_columns(record).update(12, sql_opt_text(opt_text(other.source_brief))),
        plan_columns(record).len() == 13,
{
}

/// Each field of a task of a plan has a column of its own: what is written of one that changes
/// is written in its column, and the other columns stay.
pub proof fn lemma_plan_task_has_a_column_for_each_field(record: PlanTask, other: PlanTask)
    ensures
        plan_task_columns(PlanTask { plan_id: other.plan_id, ..record })
            == plan_task_columns(record).update(0, sql_id(other.plan_id)),
        plan_task_columns(PlanTask { task_id: other.task_id, ..record })
            == plan_task_columns(record).update(1, sql_id(other.task_id)),
        plan_task_columns(PlanTask { position: other.position, ..record })
            == plan_task_columns(record).update(2, sql_int(other.position as int)),
        plan_task_columns(PlanTask { depends_on: other.depends_on, ..record })
            == plan_task_columns(record).update(3, BoundView::TaskIds(other.depends_on@)),
        plan_task_columns(record).len() == 4,
{
}

/// Each field of a plan is read from columns of its own: what is read of a row with another
/// value there differs in that field alone.
pub proof fn lemma_plan_is_read_field_by_field(
    row: PlanRow,
    record: Plan,
    other_row: PlanRow,
    other: Plan,
)
    requires
        plan_read(row, record),
        plan_read(other_row, other),
    ensures
        plan_read(PlanRow { id: other_row.id, ..row }, Plan { id: other.id, ..record }),
        plan_read(
            PlanRow { project_id: other_row.project_id, ..row },
            Plan { project_id: other.project_id, ..record },
        ),
        plan_read(
            PlanRow { parent_plan_id: other_row.parent_plan_id, ..row },
            Plan { parent_plan_id: other.parent_plan_id, ..record },
        ),
        plan_read(PlanRow { title: other_row.title, ..row }, Plan { title: other.title, ..record }),
        plan_read(
            PlanRow { description: other_row.description, ..row },
            Plan { description: other.description, ..record },
        ),
        plan_read(PlanRow { goal: other_row.goal, ..row }, Plan { goal: other.goal, ..record }),
        plan_read(
            PlanRow { success_criteria_json: other_row.success_criteria_json, ..row },
            Plan { success_criteria: other.success_criteria, ..record },
        ),
        plan_read(
            PlanRow { status: other_row.status, ..row },
            Plan { status: other.status, ..record },
        ),
        plan_read(
            PlanRow { owner_json: other_row.owner_json, ..row },
            Plan { owner: other.owner, ..record },
        ),
        plan_read(
            PlanRow { created_at: other_row.created_at, ..row },
            Plan { created_at: other.created_at, ..record },
        ),
        plan_read(
            PlanRow { updated_at: other_row.updated_at, ..row },
            Plan { updated_at: other.updated_at, ..record },
        ),
        plan_read(
            PlanRow { archived_at: other_row.archived_at, ..row },
            Plan { archived_at: other.archived_at, ..record },
        ),
        plan_read(
            PlanRow { source_brief: other_row.source_brief, ..row },
            Plan { source_brief: other.source_brief, ..record },
        ),
{
}

/// A row stores each field of a plan in columns of its own: with another value there it stores
/// what differs in that field alone.
pub proof fn lemma_plan_is_stored_field_by_field(
    row: PlanRow,
    record: Plan,
    other_row: PlanRow,
    other: Plan,
)
    requires
        row.stores(record),
        other_row.stores(other),
    ensures
        (PlanRow { id: other_row.id, ..row }).stores(Plan { id: other.id, ..record }),
        (PlanRow { project_id: other_row.project_id, ..row }).stores(
            Plan { project_id: other.project_id, ..record },
        ),
        (PlanRow { parent_plan_id: other_row.parent_plan_id, ..row }).stores(
            Plan { parent_plan_id: other.parent_plan_id, ..record },
        ),
        (PlanRow { title: other_row.title, ..row }).stores(Plan { title: other.title, ..record }),
        (PlanRow { description: other_row.description, ..row }).stores(
            Plan { description: other.description, ..record },
        ),
        (PlanRow { goal: other_row.goal, ..row }).stores(Plan { goal: other.goal, ..record }),
        (PlanRow { success_criteria_json: other_row.success_criteria_json, ..row }).stores(
            Plan { success_criteria: other.success_criteria, ..record },
        ),
        (PlanRow { status: other_row.status, ..row }).stores(
            Plan { status: other.status, ..record },
        ),
        (PlanRow { owner_json: other_row.owner_json, ..row }).stores(
            Plan { owner: other.owner, ..record },
        ),
        (PlanRow { created_at: other_row.created_at, ..row }).stores(
            Plan { created_at: other.created_at, ..record },
        ),
        (PlanRow { updated_at: other_row.updated_at, ..row }).stores(
            Plan { updated_at: other.updated_at, ..record },
        ),
        (PlanRow { archived_at: other_row.archived_at, ..row }).stores(
            Plan { archived_at: other.archived_at, ..record },
        ),
        (PlanRow { source_brief: other_row.source_brief, ..row }).stores(
            Plan { source_brief: other.source_brief, ..record },
        ),
{
}

/// Each field of a task of a plan is read from columns of its own: what is read of a row with
/// another value there differs in that field alone.
pub proof fn lemma_plan_task_is_read_field_by_field(
    row: PlanTaskRow,
    record: PlanTask,
    other_row: PlanTaskRow,
    other: PlanTask,
)
    requires
        plan_task_read(row, record),
        plan_task_read(other_row, other),
    ensures
        plan_task_read(
            PlanTaskRow { plan_id: other_row.plan_id, ..row },
            PlanTask { plan_id: other.plan_id, ..record },
        ),
        plan_task_read(
            PlanTaskRow { task_id: other_row.task_id, ..row },
            PlanTask { task_id: other.task_id, ..record },
        ),
        plan_task_read(
            PlanTaskRow { position: other_row.position, ..row },
            PlanTask { position: other.position, ..record },
        ),
        plan_task_read(
            PlanTaskRow { depends_on_json: other_row.depends_on_json, ..row },
            PlanTask { depends_on: other.depends_on, ..record },
        ),
{
}

/// A row stores each field of a task of a plan in columns of its own: with another value there
/// it stores what differs in that field alone.
pub proof fn lemma_plan_task_is_stored_field_by_field(
    row: PlanTaskRow,
    record: PlanTask,
    other_row: PlanTaskRow,
    other: PlanTask,
)
    requires
        row.stores(record),
        other_row.stores(other),
    ensures
        (PlanTaskRow { plan_id: other_row.plan_id, ..row }).stores(
            PlanTask { plan_id: other.plan_id, ..record },
        ),
        (PlanTaskRow { task_id: other_row.task_id, ..row }).stores(
            PlanTask { task_id: other.task_id, ..record },
        ),
        (PlanTaskRow { position: other_row.position, ..row }).stores(
            PlanTask { position: other.position, ..record },
        ),
        (PlanTaskRow { depends_on_json: other_row.depends_on_json, ..row }).stores(
            PlanTask { depends_on: other.depends_on, ..record },
        ),
{
}

/// A row of a plan without a fault says what is read from it: each identifier, time, state and
/// text stands in it as it is read.
pub proof fn lemma_plan_is_what_the_row_says(row: PlanRow, record: Plan)
    requires
        (plan_fault(row) is None && plan_read(row, record))
            || (row.fault() is None && row.holds(record)),
    ensures
        row.id is Ok && crate::ids::id_parsed::<PlanId>(row.id->Ok_0@) == Ok::<PlanId, Seq<char>>(
            record.id,
        ),
        row.project_id is Ok
            && crate::ids::id_parsed::<ProjectId>(row.project_id->Ok_0@)
                == Ok::<ProjectId, Seq<char>>(record.project_id),
        row.parent_plan_id is Ok
            && (row.parent_plan_id->Ok_0 is None <==> record.parent_plan_id is None),
        row.parent_plan_id->Ok_0 matches Some(s)
            ==> crate::ids::id_parsed::<PlanId>(s@) == Ok::<PlanId, Seq<char>>(
                record.parent_plan_id->Some_0,
            ),
        row.title is Ok && row.title->Ok_0 == record.title,
        row.description is Ok && row.description->Ok_0 == record.description,
        row.goal is Ok && row.goal->Ok_0 == record.goal,
        row.success_criteria_json is Ok
            && strings_parsed(row.success_criteria_json->Ok_0@) == Ok::<Seq<Seq<char>>, Seq<char>>(
                texts(record.success_criteria@),
            ),
        row.status is Ok && row.status->Ok_0@ == record.status.text(),
        row.owner_json is Ok
            && row.owner_json->Ok_0 is Ok
            && row.owner_json->Ok_0->Ok_0 == record.owner,
        row.created_at is Ok
            && crate::time::rfc3339_parsed(row.created_at->Ok_0@) == Ok::<(i64, u32), Seq<char>>(
                (record.created_at.seconds(), record.created_at.subsec()),
            ),
        row.updated_at is Ok
            && crate::time::rfc3339_parsed(row.updated_at->Ok_0@) == Ok::<(i64, u32), Seq<char>>(
                (record.updated_at.seconds(), record.updated_at.subsec()),
            ),
        row.archived_at is Ok && (row.archived_at->Ok_0 is None <==> record.archived_at is None),
        row.archived_at->Ok_0 matches Some(s)
            ==> crate::time::rfc3339_parsed(s@) == Ok::<(i64, u32), Seq<char>>(
                (record.archived_at->Some_0.seconds(), record.archived_at->Some_0.subsec()),
            ),
        row.source_brief is Ok && row.source_brief->Ok_0 == record.source_brief,
{
    record.status.lemma_stored_names(row.status->Ok_0@);
    crate::time::lemma_time_is_read_from_its_text(row.created_at->Ok_0@);
    crate::time::lemma_time_is_read_from_its_text(row.updated_at->Ok_0@);
    if row.archived_at->Ok_0 is Some {
        crate::time::lemma_time_is_read_from_its_text(row.archived_at->Ok_0->Some_0@);
    }
}

/// A row of a task of a plan without a fault says what is read from it: each identifier, time,
/// state and text stands in it as it is read.
pub proof fn lemma_plan_task_is_what_the_row_says(row: PlanTaskRow, record: PlanTask)
    requires
        (plan_task_fault(row) is None && plan_task_read(row, record))
            || (row.fault() is None && row.holds(record)),
    ensures
        row.plan_id is Ok
            && crate::ids::id_parsed::<PlanId>(row.plan_id->Ok_0@) == Ok::<PlanId, Seq<char>>(
                record.plan_id,
            ),
        row.task_id is Ok
            && crate::ids::id_parsed::<TaskId>(row.task_id->Ok_0@) == Ok::<TaskId, Seq<char>>(
                record.task_id,
            ),
        row.position is Ok,
        row.depends_on_json is Ok
            && row.depends_on_json->Ok_0 is Ok
            && row.depends_on_json->Ok_0->Ok_0@ == record.depends_on@,
{
}

/// A text that stands for no value is reported with the text; one that stands for a value is
/// not reported.
pub proof fn lemma_unknown_plan_status_is_reported(v: PlanStatus, s: Seq<char>)
    ensures
        plan_status_fault(v.text()) is None,
        (forall|w: PlanStatus| #[trigger] w.text() != s) ==> plan_status_fault(s) == Some(
            ErrorView::Serde("unknown plan status: "@ + s),
        ),
{
    v.lemma_text_names_value();
    v.lemma_stored_names(s);
}

/// A row of a plan is refused for what is wrong with a column, with the error of that
/// column; where nothing is wrong with any, nothing is refused.
pub proof fn lemma_plan_is_refused_for_its_columns(row: PlanRow, other: PlanRow)
    requires
        plan_fault(row) is None,
    ensures
        plan_fault(PlanRow { id: other.id, ..row }) == column_fault(other.id).or_fault(
            id_fault::<PlanId>(other.id->Ok_0@),
        ),
        plan_fault(PlanRow { project_id: other.project_id, ..row })
            == column_fault(other.project_id).or_fault(
                id_fault::<ProjectId>(other.project_id->Ok_0@),
            ),
        plan_fault(PlanRow { parent_plan_id: other.parent_plan_id, ..row })
            == column_fault(other.parent_plan_id).or_fault(
                opt_id_fault::<PlanId>(other.parent_plan_id->Ok_0),
            ),
        plan_fault(PlanRow { title: other.title, ..row }) == column_fault(other.title),
        plan_fault(PlanRow { description: other.description, ..row }) == column_fault(
            other.description,
        ),
        plan_fault(PlanRow { goal: other.goal, ..row }) == column_fault(other.goal),
        plan_fault(PlanRow { success_criteria_json: other.success_criteria_json, ..row })
            == column_fault(other.success_criteria_json).or_fault(
                strings_fault(other.success_criteria_json->Ok_0@),
            ),
        plan_fault(PlanRow { status: other.status, ..row }) == column_fault(other.status).or_fault(
            plan_status_fault(other.status->Ok_0@),
        ),
        plan_fault(PlanRow { owner_json: other.owner_json, ..row })
            == column_fault(other.owner_json).or_fault(parsed_fault(other.owner_json->Ok_0)),
        plan_fault(PlanRow { created_at: other.created_at, ..row })
            == column_fault(other.created_at).or_fault(ts_fault(other.created_at->Ok_0@)),
        plan_fault(PlanRow { updated_at: other.updated_at, ..row })
            == column_fault(other.updated_at).or_fault(ts_fault(other.updated_at->Ok_0@)),
        plan_fault(PlanRow { archived_at: other.archived_at, ..row })
            == column_fault(other.archived_at).or_fault(opt_ts_fault(other.archived_at->Ok_0)),
        plan_fault(PlanRow { source_brief: other.source_brief, ..row }) == column_fault(
            other.source_brief,
        ),
{
}

/// A row of a task of a plan is refused for what is wrong with a column, with the error of that
/// column; where nothing is wrong with any, nothing is refused.
pub proof fn lemma_plan_task_is_refused_for_its_columns(row: PlanTaskRow, other: PlanTaskRow)
    requires
        plan_task_fault(row) is None,
    ensures
        plan_task_fault(PlanTaskRow { plan_id: other.plan_id, ..row })
            == column_fault(other.plan_id).or_fault(id_fault::<PlanId>(other.plan_id->Ok_0@)),
        plan_task_fault(PlanTaskRow { task_id: other.task_id, ..row })
            == column_fault(other.task_id).or_fault(id_fault::<TaskId>(other.task_id->Ok_0@)),
        plan_task_fault(PlanTaskRow { position: other.position, ..row }) == column_fault(
            other.position,
        ),
        plan_task_fault(PlanTaskRow { depends_on_json: other.depends_on_json, ..row })
            == column_fault(other.depends_on_json).or_fault(
                parsed_fault(other.depends_on_json->Ok_0),
            ),
{
}

} // verus!
