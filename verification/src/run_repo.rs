//! Runs of plans, in the `runs` table.
use vstd::prelude::*;

use crate::domain::{Run, RunStatus};
use crate::error::{CoreError, ErrorView};
use crate::events::{Event, EventEnvelope};
use crate::ids::{
    id_fault, id_value, opt_id_fault, opt_id_value, parse_id, parse_opt_id, AgentId, PlanId, RunId,
    TaskId,
};
use crate::query::{
    sql_id, sql_opt_id, sql_opt_text, sql_opt_time, sql_text, sql_time, statement, BoundView, Query,
};
use crate::rows::{column, column_fault, has_opt_text, has_text, Column, Decode, Faults};
use crate::text::{concat2, opt_text};
use crate::time::{
    difference, is_span, opt_is_plain, opt_ts_fault, opt_ts_value, parse_opt_ts, parse_ts,
    time_before, ts_fault, ts_value, Timestamp,
};

verus! {

/// The run projection.
#[derive(Clone, Copy, Debug)]
pub struct RunRepo;

pub const GET_RUN: &'static str = "SELECT id, plan_id, agent_id, parent_run_id, \
     started_at, ended_at, status, outcome, \
     last_activity_at, unresponsive_at, stale_at \
     FROM runs WHERE id = ?";

pub const LIST_RUNS: &'static str = "SELECT id, plan_id, agent_id, parent_run_id, \
     started_at, ended_at, status, outcome, \
     last_activity_at, unresponsive_at, stale_at \
     FROM runs WHERE plan_id = ? ORDER BY started_at ASC";

pub const LIST_ACTIVE_RUNS: &'static str = "SELECT id, plan_id, agent_id, parent_run_id, \
     started_at, ended_at, status, outcome, \
     last_activity_at, unresponsive_at, stale_at \
     FROM runs WHERE plan_id = ? AND status = 'active' ORDER BY started_at ASC";

pub const UNRESPONSIVE_CANDIDATES: &'static str = "SELECT id FROM runs \
     WHERE status = 'active' \
     AND unresponsive_at IS NULL \
     AND last_activity_at IS NOT NULL \
     AND last_activity_at = started_at \
     AND started_at <= ?";

pub const STALE_CANDIDATES: &'static str = "SELECT id FROM runs \
     WHERE status = 'active' \
     AND stale_at IS NULL \
     AND last_activity_at IS NOT NULL \
     AND last_activity_at <= ?";

pub const TOUCH_ACTIVITY: &'static str = "UPDATE runs SET last_activity_at = ? WHERE id = ?";

pub const MARK_UNRESPONSIVE: &'static str = "UPDATE runs SET unresponsive_at = ? WHERE id = ? AND unresponsive_at IS NULL";

pub const MARK_STALE: &'static str = "UPDATE runs SET stale_at = ? WHERE id = ? AND stale_at IS NULL";

pub const COMPLETE_RUN: &'static str = "UPDATE runs SET status = 'completed', ended_at = ?, outcome = 'done' WHERE id = ?";

pub const FAIL_RUN: &'static str = "UPDATE runs SET status = 'failed', ended_at = ?, outcome = ? WHERE id = ?";

pub const ABORT_RUN: &'static str = "UPDATE runs SET status = 'aborted', ended_at = ?, outcome = ? WHERE id = ?";

pub const UPSERT_RUN: &'static str = "INSERT OR REPLACE INTO runs \
     (id, plan_id, agent_id, parent_run_id, started_at, ended_at, status, outcome, \
     last_activity_at, unresponsive_at, stale_at) \
     VALUES (?, ?, ?, ?, ?, ?, ?, ?, ?, ?, ?)";

// ── rows ────────────────────────────────────────────────────────────────────

/// Why a text is no run status.
pub open spec fn run_status_fault(s: Seq<char>) -> Option<ErrorView> {
    if RunStatus::named(s) is Some {
        None
    } else {
        Some(ErrorView::Serde("unknown run status: "@ + s))
    }
}

/// Reads a run status.
pub fn parse_run_status(s: &str) -> (r: Result<RunStatus, CoreError>)
    ensures
        match run_status_fault(s@) {
            Some(e) => r is Err && r->Err_0@ == e,
            None => r is Ok && Some(r->Ok_0) == RunStatus::named(s@),
        },
{
    match RunStatus::parse(s) {
        Some(v) => Ok(v),
        None => Err(CoreError::Serde(concat2("unknown run status: ", s))),
    }
}

/// A row of the `runs` table.
#[derive(Debug, PartialEq, Eq)]
pub struct RunRow {
    pub id: Column<String>,
    pub plan_id: Column<String>,
    pub agent_id: Column<String>,
    pub parent_run_id: Column<Option<String>>,
    pub started_at: Column<String>,
    pub ended_at: Column<Option<String>>,
    pub status: Column<String>,
    pub outcome: Column<Option<String>>,
    pub last_activity_at: Column<Option<String>>,
    pub unresponsive_at: Column<Option<String>>,
    pub stale_at: Column<Option<String>>,
}

/// What is wrong with a run row, where something is: the columns and their
/// values are looked at in this order.
pub open spec fn run_fault(row: RunRow) -> Option<ErrorView> {
    column_fault(row.id).or_fault(
        column_fault(row.plan_id),
    ).or_fault(
        column_fault(row.agent_id),
    ).or_fault(
        column_fault(row.parent_run_id),
    ).or_fault(
        column_fault(row.started_at),
    ).or_fault(
        column_fault(row.ended_at),
    ).or_fault(
        column_fault(row.status),
    ).or_fault(
        column_fault(row.outcome),
    ).or_fault(
        column_fault(row.last_activity_at),
    ).or_fault(
        column_fault(row.unresponsive_at),
    ).or_fault(
        column_fault(row.stale_at),
    ).or_fault(
        id_fault::<RunId>(row.id->Ok_0@),
    ).or_fault(
        id_fault::<PlanId>(row.plan_id->Ok_0@),
    ).or_fault(
        id_fault::<AgentId>(row.agent_id->Ok_0@),
    ).or_fault(
        opt_id_fault::<RunId>(row.parent_run_id->Ok_0),
    ).or_fault(
        ts_fault(row.started_at->Ok_0@),
    ).or_fault(
        opt_ts_fault(row.ended_at->Ok_0),
    ).or_fault(
        run_status_fault(row.status->Ok_0@),
    ).or_fault(
        opt_ts_fault(row.last_activity_at->Ok_0),
    ).or_fault(
        opt_ts_fault(row.unresponsive_at->Ok_0),
    ).or_fault(
        opt_ts_fault(row.stale_at->Ok_0),
    )
}

/// The record is what a sound run row says.
pub open spec fn run_read(row: RunRow, record: Run) -> bool {
    &&& record.id == id_value::<RunId>(row.id->Ok_0@)
    &&& record.plan_id == id_value::<PlanId>(row.plan_id->Ok_0@)
    &&& record.agent_id == id_value::<AgentId>(row.agent_id->Ok_0@)
    &&& record.parent_run_id == opt_id_value::<RunId>(row.parent_run_id->Ok_0)
    &&& record.started_at == ts_value(row.started_at->Ok_0@)
    &&& record.ended_at == opt_ts_value(row.ended_at->Ok_0)
    &&& Some(record.status) == RunStatus::named(row.status->Ok_0@)
    &&& record.outcome == row.outcome->Ok_0
    &&& record.last_activity_at == opt_ts_value(row.last_activity_at->Ok_0)
    &&& record.unresponsive_at == opt_ts_value(row.unresponsive_at->Ok_0)
    &&& record.stale_at == opt_ts_value(row.stale_at->Ok_0)
}

/// Reads a run from its row.
pub fn row_to_run(row: RunRow) -> (r: Result<Run, CoreError>)
    ensures
        match run_fault(row) {
            Some(e) => r is Err && r->Err_0@ == e,
            None => r is Ok && run_read(row, r->Ok_0),
        },
{
    let id = column(row.id)?;
    let plan_id = column(row.plan_id)?;
    let agent_id = column(row.agent_id)?;
    let parent_run_id = column(row.parent_run_id)?;
    let started_at = column(row.started_at)?;
    let ended_at = column(row.ended_at)?;
    let status = column(row.status)?;
    let outcome = column(row.outcome)?;
    let last_activity_at = column(row.last_activity_at)?;
    let unresponsive_at = column(row.unresponsive_at)?;
    let stale_at = column(row.stale_at)?;
    let id = parse_id::<RunId>(id.as_str())?;
    let plan_id = parse_id::<PlanId>(plan_id.as_str())?;
    let agent_id = parse_id::<AgentId>(agent_id.as_str())?;
    let parent_run_id = parse_opt_id::<RunId>(&parent_run_id)?;
    let started_at = parse_ts(started_at.as_str())?;
    let ended_at = parse_opt_ts(&ended_at)?;
    let status = parse_run_status(status.as_str())?;
    let last_activity_at = parse_opt_ts(&last_activity_at)?;
    let unresponsive_at = parse_opt_ts(&unresponsive_at)?;
    let stale_at = parse_opt_ts(&stale_at)?;
    Ok(Run {
        id,
        plan_id,
        agent_id,
        parent_run_id,
        started_at,
        ended_at,
        status,
        outcome,
        last_activity_at,
        unresponsive_at,
        stale_at,
    })
}

impl Decode for RunRow {
    type Record = Run;

    open spec fn fault(&self) -> Option<ErrorView> {
        run_fault(*self)
    }

    open spec fn holds(&self, record: Run) -> bool {
        run_read(*self, record)
    }

    fn decode(self) -> (r: Result<Run, CoreError>) {
        row_to_run(self)
    }
}

/// The columns of a run, in the order in which they are written.
pub open spec fn run_columns(record: Run) -> Seq<BoundView> {
    seq![
        sql_id(record.id),
        sql_id(record.plan_id),
        sql_id(record.agent_id),
        sql_opt_id(record.parent_run_id),
        sql_time(record.started_at),
        sql_opt_time(record.ended_at),
        sql_text(record.status.text()),
        sql_opt_text(opt_text(record.outcome)),
        sql_opt_time(record.last_activity_at),
        sql_opt_time(record.unresponsive_at),
        sql_opt_time(record.stale_at),
    ]
}

impl RunRow {
    /// Each column of the row holds what is written for it of the record.
    pub open spec fn stores(self, record: Run) -> bool {
        &&& has_text(self.id, sql_id(record.id))
        &&& has_text(self.plan_id, sql_id(record.plan_id))
        &&& has_text(self.agent_id, sql_id(record.agent_id))
        &&& has_opt_text(self.parent_run_id, sql_opt_id(record.parent_run_id))
        &&& has_text(self.started_at, sql_time(record.started_at))
        &&& has_opt_text(self.ended_at, sql_opt_time(record.ended_at))
        &&& has_text(self.status, sql_text(record.status.text()))
        &&& has_opt_text(self.outcome, sql_opt_text(opt_text(record.outcome)))
        &&& has_opt_text(self.last_activity_at, sql_opt_time(record.last_activity_at))
        &&& has_opt_text(self.unresponsive_at, sql_opt_time(record.unresponsive_at))
        &&& has_opt_text(self.stale_at, sql_opt_time(record.stale_at))
    }
}

impl Run {
    /// The two records agree in every field.
    pub open spec fn same(self, other: Run) -> bool {
        &&& self.id == other.id
        &&& self.plan_id == other.plan_id
        &&& self.agent_id == other.agent_id
        &&& self.parent_run_id == other.parent_run_id
        &&& self.started_at == other.started_at
        &&& self.ended_at == other.ended_at
        &&& self.status == other.status
        &&& opt_text(self.outcome) == opt_text(other.outcome)
        &&& self.last_activity_at == other.last_activity_at
        &&& self.unresponsive_at == other.unresponsive_at
        &&& self.stale_at == other.stale_at
    }

    /// Every point in time of the record has an RFC 3339 text that reads back.
    pub open spec fn is_plain(self) -> bool {
        &&& self.started_at.is_plain()
        &&& opt_is_plain(self.ended_at)
        &&& opt_is_plain(self.last_activity_at)
        &&& opt_is_plain(self.unresponsive_at)
        &&& opt_is_plain(self.stale_at)
    }
}

/// A row of a run's identifier.
#[derive(Debug, PartialEq, Eq)]
pub struct RunIdRow {
    pub id: Column<String>,
}

impl Decode for RunIdRow {
    type Record = RunId;

    open spec fn fault(&self) -> Option<ErrorView> {
        column_fault(self.id).or_fault(id_fault::<RunId>(self.id->Ok_0@))
    }

    open spec fn holds(&self, record: RunId) -> bool {
        record == id_value::<RunId>(self.id->Ok_0@)
    }

    fn decode(self) -> (r: Result<RunId, CoreError>) {
        let id = column(self.id)?;
        parse_id::<RunId>(id.as_str())
    }
}

// ── liveness ────────────────────────────────────────────────────────────────

/// The threshold as a span; one that is too long counts as none.
pub open spec fn threshold_span(secs: u64, nanos: u32) -> (i64, u32) {
    if is_span(secs as int, nanos as int) {
        (secs as i64, nanos)
    } else {
        (0, 0)
    }
}

/// The run as it is written: a run without activity was last active when it started.
pub open spec fn projected(run: Run) -> Run {
    Run {
        last_activity_at: match run.last_activity_at {
            Some(at) => Some(at),
            None => Some(run.started_at),
        },
        ..run
    }
}

impl RunRepo {
    /// The query for a run.
    pub fn get(id: &RunId) -> (q: Query)
        ensures
            q@ == statement(GET_RUN@, seq![sql_id(*id)]),
    {
        Query::new(GET_RUN).id(id)
    }

    /// The query for the runs of a plan, in the order of their start.
    pub fn list_by_plan(plan_id: &PlanId) -> (q: Query)
        ensures
            q@ == statement(LIST_RUNS@, seq![sql_id(*plan_id)]),
    {
        Query::new(LIST_RUNS).id(plan_id)
    }

    /// The query for the active runs of a plan, in the order of their start.
    pub fn list_active_for_plan(plan_id: &PlanId) -> (q: Query)
        ensures
            q@ == statement(LIST_ACTIVE_RUNS@, seq![sql_id(*plan_id)]),
    {
        Query::new(LIST_ACTIVE_RUNS).id(plan_id)
    }

    /// The time that a threshold of seconds and nanoseconds lies back, where there is one.
    pub fn cutoff(threshold_secs: u64, threshold_nanos: u32, now: &Timestamp) -> (r: Option<
        Timestamp,
    >)
        ensures
            ({
                let span = threshold_span(threshold_secs, threshold_nanos);
                &&& match time_before(now.seconds(), now.subsec(), span.0, span.1) {
                    Some(t) => r matches Some(p) && p.seconds() == t.0 && p.subsec() == t.1,
                    None => r is None,
                }
                &&& now.subsec() < 1_000_000_000 ==> time_before(
                    now.seconds(),
                    now.subsec(),
                    span.0,
                    span.1,
                ) == difference(now.seconds(), now.subsec(), span.0, span.1)
            }),
    {
        if threshold_nanos < 1_000_000_000 && (threshold_secs < 9_223_372_036_854_775 || (
        threshold_secs == 9_223_372_036_854_775 && threshold_nanos <= 807_000_000)) {
            now.earlier(threshold_secs as i64, threshold_nanos)
        } else {
            now.earlier(0, 0)
        }
    }

    /// The query for the active runs that started before the cutoff, have shown no activity
    /// since, and have not been reported for it.
    pub fn list_unresponsive_candidates(cutoff: &Timestamp) -> (q: Query)
        ensures
            q@ == statement(UNRESPONSIVE_CANDIDATES@, seq![sql_time(*cutoff)]),
            cutoff.is_plain() ==> cutoff.sorts_as_text(),
    {
        Query::new(UNRESPONSIVE_CANDIDATES).time(cutoff)
    }

    /// The query for the active runs whose last activity was before the cutoff, and that
    /// have not been reported for it.
    pub fn list_stale_candidates(cutoff: &Timestamp) -> (q: Query)
        ensures
            q@ == statement(STALE_CANDIDATES@, seq![sql_time(*cutoff)]),
            cutoff.is_plain() ==> cutoff.sorts_as_text(),
    {
        Query::new(STALE_CANDIDATES).time(cutoff)
    }

    fn touch_activity(run_id: &RunId, at: &Timestamp) -> (q: Query)
        ensures
            q@ == statement(TOUCH_ACTIVITY@, seq![sql_time(*at), sql_id(*run_id)]),
    {
        Query::new(TOUCH_ACTIVITY).time(at).id(run_id)
    }

    fn mark_unresponsive(run_id: &RunId, at: &Timestamp) -> (q: Query)
        ensures
            q@ == statement(MARK_UNRESPONSIVE@, seq![sql_time(*at), sql_id(*run_id)]),
    {
        Query::new(MARK_UNRESPONSIVE).time(at).id(run_id)
    }

    fn mark_stale(run_id: &RunId, at: &Timestamp) -> (q: Query)
        ensures
            q@ == statement(MARK_STALE@, seq![sql_time(*at), sql_id(*run_id)]),
    {
        Query::new(MARK_STALE).time(at).id(run_id)
    }

    /// The task that a run works on: the table does not keep it.
    pub fn current_step_task(_run_id: &RunId) -> (r: Option<TaskId>)
        ensures
            r is None,
    {
        None
    }

    /// The statement that writes a run. What it writes reads back.
    pub fn start(run: &Run) -> (q: Query)
        ensures
            q@ == statement(UPSERT_RUN@, run_columns(projected(*run))),
            run.is_plain() ==> forall|row: RunRow| #[trigger]
                row.stores(projected(*run)) ==> run_fault(row) is None && forall|record: Run|
                    run_read(row, record) ==> record.same(projected(*run)),
    {
        let last_activity_at = match run.last_activity_at {
            Some(at) => at,
            None => run.started_at,
        };
        Query::new(UPSERT_RUN)
            .id(&run.id)
            .id(&run.plan_id)
            .id(&run.agent_id)
            .opt_id(&run.parent_run_id)
            .time(&run.started_at)
            .opt_time(&run.ended_at)
            .text(run.status.as_str())
            .opt_text(&run.outcome)
            .time(&last_activity_at)
            .opt_time(&run.unresponsive_at)
            .opt_time(&run.stale_at)
    }

    /// The statement for the start of a step: the table does not keep steps.
    pub fn start_step(_run_id: &RunId, _task_id: &TaskId, _at: &Timestamp) -> (r: Option<Query>)
        ensures
            r is None,
    {
        None
    }

    /// The statement for the end of a step: the table does not keep steps.
    pub fn finish_step(_run_id: &RunId, _task_id: &TaskId, _at: &Timestamp) -> (r: Option<Query>)
        ensures
            r is None,
    {
        None
    }

    /// The statement that completes a run.
    pub fn complete(run_id: &RunId, at: &Timestamp) -> (q: Query)
        ensures
            q@ == statement(COMPLETE_RUN@, seq![sql_time(*at), sql_id(*run_id)]),
    {
        Query::new(COMPLETE_RUN).time(at).id(run_id)
    }

    /// The statement that fails a run.
    pub fn fail(run_id: &RunId, reason: &str, at: &Timestamp) -> (q: Query)
        ensures
            q@ == statement(FAIL_RUN@, seq![sql_time(*at), sql_text(reason@), sql_id(*run_id)]),
    {
        Query::new(FAIL_RUN).time(at).text(reason).id(run_id)
    }

    /// The statement that aborts a run.
    pub fn abort(run_id: &RunId, reason: &str, at: &Timestamp) -> (q: Query)
        ensures
            q@ == statement(ABORT_RUN@, seq![sql_time(*at), sql_text(reason@), sql_id(*run_id)]),
    {
        Query::new(ABORT_RUN).time(at).text(reason).id(run_id)
    }

    /// The statement that applies an event to the runs, where there is one. What is written
    /// of a run reads back.
    pub fn apply_event(envelope: &EventEnvelope) -> (r: Option<Query>)
        ensures
            match envelope.payload {
                Event::RunStarted { run } => r is Some && r->Some_0@ == statement(
                    UPSERT_RUN@,
                    run_columns(projected(run)),
                ),
                Event::RunStepStarted { run_id, at, .. } => r is Some && r->Some_0@ == statement(
                    TOUCH_ACTIVITY@,
                    seq![sql_time(at), sql_id(run_id)],
                ),
                Event::RunStepFinished { run_id, at, .. } => r is Some && r->Some_0@ == statement(
                    TOUCH_ACTIVITY@,
                    seq![sql_time(at), sql_id(run_id)],
                ),
                Event::RunCompleted { run_id, at } => r is Some && r->Some_0@ == statement(
                    COMPLETE_RUN@,
                    seq![sql_time(at), sql_id(run_id)],
                ),
                Event::RunFailed { run_id, reason, at } => r is Some && r->Some_0@ == statement(
                    FAIL_RUN@,
                    seq![sql_time(at), sql_text(reason@), sql_id(run_id)],
                ),
                Event::RunAborted { run_id, reason, at } => r is Some && r->Some_0@ == statement(
                    ABORT_RUN@,
                    seq![sql_time(at), sql_text(reason@), sql_id(run_id)],
                ),
                Event::RunUnresponsive { run_id, at } => r is Some && r->Some_0@ == statement(
                    MARK_UNRESPONSIVE@,
                    seq![sql_time(at), sql_id(run_id)],
                ),
                Event::RunStale { run_id, at } => r is Some && r->Some_0@ == statement(
                    MARK_STALE@,
                    seq![sql_time(at), sql_id(run_id)],
                ),
                _ => r is None,
            },
            envelope.payload matches Event::RunStarted { run } ==> run.is_plain() ==> forall|
                row: RunRow,
            | #[trigger]
                row.stores(projected(run)) ==> run_fault(row) is None && forall|record: Run|
                    run_read(row, record) ==> record.same(projected(run)),
    {
        match &envelope.payload {
            Event::RunStarted { run } => Some(RunRepo::start(run)),
            Event::RunStepStarted { run_id, at, .. } => Some(RunRepo::touch_activity(run_id, at)),
            Event::RunStepFinished { run_id, at, .. } => Some(RunRepo::touch_activity(run_id, at)),
            Event::RunCompleted { run_id, at } => Some(RunRepo::complete(run_id, at)),
            Event::RunFailed { run_id, reason, at } => Some(
                RunRepo::fail(run_id, reason.as_str(), at),
            ),
            Event::RunAborted { run_id, reason, at } => Some(
                RunRepo::abort(run_id, reason.as_str(), at),
            ),
            Event::RunUnresponsive { run_id, at } => Some(RunRepo::mark_unresponsive(run_id, at)),
            Event::RunStale { run_id, at } => Some(RunRepo::mark_stale(run_id, at)),
            _ => None,
        }
    }
}

// ── laws ────────────────────────────────────────────────────────────────────

/// A run that is written has shown a sign of life: its last activity is known, and is its
/// start where nothing else is known. Writing it again changes nothing.
pub proof fn lemma_written_run_has_heartbeat(run: Run)
    ensures
        projected(run).last_activity_at is Some,
        run.last_activity_at is None ==> projected(run).last_activity_at == Some(run.started_at),
        projected(projected(run)) == projected(run),
{
}

/// A run is written as it is, but that one without activity was last active when it started:
/// so writing it twice writes the same.
pub proof fn lemma_written_run_is_the_run(run: Run)
    ensures
        ({
            let written = projected(run);
            &&& run.last_activity_at is Some ==> written == run
            &&& run.last_activity_at is None ==> written.last_activity_at == Some(run.started_at)
            &&& projected(written) == written
            &&& written == Run { last_activity_at: written.last_activity_at, ..run }
        }),
{
}

/// A threshold counts as long as it is, unless it is too long for a span: then it counts as
/// none.
pub proof fn lemma_threshold_counts_as_given(secs: u64, nanos: u32)
    ensures
        is_span(secs as int, nanos as int) ==> threshold_span(secs, nanos).0 == secs
            && threshold_span(secs, nanos).1 == nanos,
        !is_span(secs as int, nanos as int) ==> threshold_span(secs, nanos) == (0i64, 0u32),
{
}

/// Each field of a run has a column of its own: what is written of one that changes is written
/// in its column, and the other columns stay.
pub proof fn lemma_run_has_a_column_for_each_field(record: Run, other: Run)
    ensures
        run_columns(Run { id: other.id, ..record }) == run_columns(record).update(
            0,
            sql_id(other.id),
        ),
        run_columns(Run { plan_id: other.plan_id, ..record }) == run_columns(record).update(
            1,
            sql_id(other.plan_id),
        ),
        run_columns(Run { agent_id: other.agent_id, ..record }) == run_columns(record).update(
            2,
            sql_id(other.agent_id),
        ),
        run_columns(Run { parent_run_id: other.parent_run_id, ..record })
            == run_columns(record).update(3, sql_opt_id(other.parent_run_id)),
        run_columns(Run { started_at: other.started_at, ..record }) == run_columns(record).update(
            4,
            sql_time(other.started_at),
        ),
        run_columns(Run { ended_at: other.ended_at, ..record }) == run_columns(record).update(
            5,
            sql_opt_time(other.ended_at),
        ),
        run_columns(Run { status: other.status, ..record }) == run_columns(record).update(
            6,
            sql_text(other.status.text()),
        ),
        run_columns(Run { outcome: other.outcome, ..record }) == run_columns(record).update(
            7,
            sql_opt_text(opt_text(other.outcome)),
        ),
        run_columns(Run { last_activity_at: other.last_activity_at, ..record })
            == run_columns(record).update(8, sql_opt_time(other.last_activity_at)),
        run_columns(Run { unresponsive_at: other.unresponsive_at, ..record })
            == run_columns(record).update(9, sql_opt_time(other.unresponsive_at)),
        run_columns(Run { stale_at: other.stale_at, ..record }) == run_columns(record).update(
            10,
            sql_opt_time(other.stale_at),
        ),
        run_columns(record).len() == 11,
{
}

/// Each field of a run is read from columns of its own: what is read of a row with another
/// value there differs in that field alone.
pub proof fn lemma_run_is_read_field_by_field(
    row: RunRow,
    record: Run,
    other_row: RunRow,
    other: Run,
)
    requires
        run_read(row, record),
        run_read(other_row, other),
    ensures
        run_read(RunRow { id: other_row.id, ..row }, Run { id: other.id, ..record }),
        run_read(
            RunRow { plan_id: other_row.plan_id, ..row },
            Run { plan_id: other.plan_id, ..record },
        ),
        run_read(
            RunRow { agent_id: other_row.agent_id, ..row },
            Run { agent_id: other.agent_id, ..record },
        ),
        run_read(
            RunRow { parent_run_id: other_row.parent_run_id, ..row },
            Run { parent_run_id: other.parent_run_id, ..record },
        ),
        run_read(
            RunRow { started_at: other_row.started_at, ..row },
            Run { started_at: other.started_at, ..record },
        ),
        run_read(
            RunRow { ended_at: other_row.ended_at, ..row },
            Run { ended_at: other.ended_at, ..record },
        ),
        run_read(
            RunRow { status: other_row.status, ..row },
            Run { status: other.status, ..record },
        ),
        run_read(
            RunRow { outcome: other_row.outcome, ..row },
            Run { outcome: other.outcome, ..record },
        ),
        run_read(
            RunRow { last_activity_at: other_row.last_activity_at, ..row },
            Run { last_activity_at: other.last_activity_at, ..record },
        ),
        run_read(
            RunRow { unresponsive_at: other_row.unresponsive_at, ..row },
            Run { unresponsive_at: other.unresponsive_at, ..record },
        ),
        run_read(
            RunRow { stale_at: other_row.stale_at, ..row },
            Run { stale_at: other.stale_at, ..record },
        ),
{
}

/// A row stores each field of a run in columns of its own: with another value there it stores
/// what differs in that field alone.
pub proof fn lemma_run_is_stored_field_by_field(
    row: RunRow,
    record: Run,
    other_row: RunRow,
    other: Run,
)
    requires
        row.stores(record),
        other_row.stores(other),
    ensures
        (RunRow { id: other_row.id, ..row }).stores(Run { id: other.id, ..record }),
        (RunRow { plan_id: other_row.plan_id, ..row }).stores(
            Run { plan_id: other.plan_id, ..record },
        ),
        (RunRow { agent_id: other_row.agent_id, ..row }).stores(
            Run { agent_id: other.agent_id, ..record },
        ),
        (RunRow { parent_run_id: other_row.parent_run_id, ..row }).stores(
            Run { parent_run_id: other.parent_run_id, ..record },
        ),
        (RunRow { started_at: other_row.started_at, ..row }).stores(
            Run { started_at: other.started_at, ..record },
        ),
        (RunRow { ended_at: other_row.ended_at, ..row }).stores(
            Run { ended_at: other.ended_at, ..record },
        ),
        (RunRow { status: other_row.status, ..row }).stores(Run { status: other.status, ..record }),
        (RunRow { outcome: other_row.outcome, ..row }).stores(
            Run { outcome: other.outcome, ..record },
        ),
        (RunRow { last_activity_at: other_row.last_activity_at, ..row }).stores(
            Run { last_activity_at: other.last_activity_at, ..record },
        ),
        (RunRow { unresponsive_at: other_row.unresponsive_at, ..row }).stores(
            Run { unresponsive_at: other.unresponsive_at, ..record },
        ),
        (RunRow { stale_at: other_row.stale_at, ..row }).stores(
            Run { stale_at: other.stale_at, ..record },
        ),
{
}

/// A row of a run without a fault says what is read from it: each identifier, time, state and
/// text stands in it as it is read.
pub proof fn lemma_run_is_what_the_row_says(row: RunRow, record: Run)
    requires
        (run_fault(row) is None && run_read(row, record))
            || (row.fault() is None && row.holds(record)),
    ensures
        row.id is Ok && crate::ids::id_parsed::<RunId>(row.id->Ok_0@) == Ok::<RunId, Seq<char>>(
            record.id,
        ),
        row.plan_id is Ok
            && crate::ids::id_parsed::<PlanId>(row.plan_id->Ok_0@) == Ok::<PlanId, Seq<char>>(
                record.plan_id,
            ),
        row.agent_id is Ok
            && crate::ids::id_parsed::<AgentId>(row.agent_id->Ok_0@) == Ok::<AgentId, Seq<char>>(
                record.agent_id,
            ),
        row.parent_run_id is Ok
            && (row.parent_run_id->Ok_0 is None <==> record.parent_run_id is None),
        row.parent_run_id->Ok_0 matches Some(s)
            ==> crate::ids::id_parsed::<RunId>(s@) == Ok::<RunId, Seq<char>>(
                record.parent_run_id->Some_0,
            ),
        row.started_at is Ok
            && crate::time::rfc3339_parsed(row.started_at->Ok_0@) == Ok::<(i64, u32), Seq<char>>(
                (record.started_at.seconds(), record.started_at.subsec()),
            ),
        row.ended_at is Ok && (row.ended_at->Ok_0 is None <==> record.ended_at is None),
        row.ended_at->Ok_0 matches Some(s)
            ==> crate::time::rfc3339_parsed(s@) == Ok::<(i64, u32), Seq<char>>(
                (record.ended_at->Some_0.seconds(), record.ended_at->Some_0.subsec()),
            ),
        row.status is Ok && row.status->Ok_0@ == record.status.text(),
        row.outcome is Ok && row.outcome->Ok_0 == record.outcome,
        row.last_activity_at is Ok
            && (row.last_activity_at->Ok_0 is None <==> record.last_activity_at is None),
        row.last_activity_at->Ok_0 matches Some(s)
            ==> crate::time::rfc3339_parsed(s@) == Ok::<(i64, u32), Seq<char>>(
                (
                    record.last_activity_at->Some_0.seconds(),
                    record.last_activity_at->Some_0.subsec(),
                ),
            ),
        row.unresponsive_at is Ok
            && (row.unresponsive_at->Ok_0 is None <==> record.unresponsive_at is None),
        row.unresponsive_at->Ok_0 matches Some(s)
            ==> crate::time::rfc3339_parsed(s@) == Ok::<(i64, u32), Seq<char>>(
                (record.unresponsive_at->Some_0.seconds(), record.unresponsive_at->Some_0.subsec()),
            ),
        row.stale_at is Ok && (row.stale_at->Ok_0 is None <==> record.stale_at is None),
        row.stale_at->Ok_0 matches Some(s)
            ==> crate::time::rfc3339_parsed(s@) == Ok::<(i64, u32), Seq<char>>(
                (record.stale_at->Some_0.seconds(), record.stale_at->Some_0.subsec()),
            ),
{
    crate::time::lemma_time_is_read_from_its_text(row.started_at->Ok_0@);
    if row.ended_at->Ok_0 is Some {
        crate::time::lemma_time_is_read_from_its_text(row.ended_at->Ok_0->Some_0@);
    }
    record.status.lemma_stored_names(row.status->Ok_0@);
    if row.last_activity_at->Ok_0 is Some {
        crate::time::lemma_time_is_read_from_its_text(row.last_activity_at->Ok_0->Some_0@);
    }
    if row.unresponsive_at->Ok_0 is Some {
        crate::time::lemma_time_is_read_from_its_text(row.unresponsive_at->Ok_0->Some_0@);
    }
    if row.stale_at->Ok_0 is Some {
        crate::time::lemma_time_is_read_from_its_text(row.stale_at->Ok_0->Some_0@);
    }
}

/// A text that stands for no value is reported with the text; one that stands for a value is
/// not reported.
pub proof fn lemma_unknown_run_status_is_reported(v: RunStatus, s: Seq<char>)
    ensures
        run_status_fault(v.text()) is None,
        (forall|w: RunStatus| #[trigger] w.text() != s) ==> run_status_fault(s) == Some(
            ErrorView::Serde("unknown run status: "@ + s),
        ),
{
    v.lemma_text_names_value();
    v.lemma_stored_names(s);
}

/// A run that is listed by its identifier has the one that the row says.
pub proof fn lemma_listed_run_is_what_the_row_says(row: RunIdRow, record: RunId)
    requires
        row.fault() is None,
        row.holds(record),
    ensures
        row.id is Ok && crate::ids::id_parsed::<RunId>(row.id->Ok_0@) == Ok::<RunId, Seq<char>>(
            record,
        ),
{
}

/// A row of a run is refused for what is wrong with a column, with the error of that
/// column; where nothing is wrong with any, nothing is refused.
pub proof fn lemma_run_is_refused_for_its_columns(row: RunRow, other: RunRow)
    requires
        run_fault(row) is None,
    ensures
        run_fault(RunRow { id: other.id, ..row }) == column_fault(other.id).or_fault(
            id_fault::<RunId>(other.id->Ok_0@),
        ),
        run_fault(RunRow { plan_id: other.plan_id, ..row }) == column_fault(other.plan_id).or_fault(
            id_fault::<PlanId>(other.plan_id->Ok_0@),
        ),
        run_fault(RunRow { agent_id: other.agent_id, ..row })
            == column_fault(other.agent_id).or_fault(id_fault::<AgentId>(other.agent_id->Ok_0@)),
        run_fault(RunRow { parent_run_id: other.parent_run_id, ..row })
            == column_fault(other.parent_run_id).or_fault(
                opt_id_fault::<RunId>(other.parent_run_id->Ok_0),
            ),
        run_fault(RunRow { started_at: other.started_at, ..row })
            == column_fault(other.started_at).or_fault(ts_fault(other.started_at->Ok_0@)),
        run_fault(RunRow { ended_at: other.ended_at, ..row })
            == column_fault(other.ended_at).or_fault(opt_ts_fault(other.ended_at->Ok_0)),
        run_fault(RunRow { status: other.status, ..row }) == column_fault(other.status).or_fault(
            run_status_fault(other.status->Ok_0@),
        ),
        run_fault(RunRow { outcome: other.outcome, ..row }) == column_fault(other.outcome),
        run_fault(RunRow { last_activity_at: other.last_activity_at, ..row })
            == column_fault(other.last_activity_at).or_fault(
                opt_ts_fault(other.last_activity_at->Ok_0),
            ),
        run_fault(RunRow { unresponsive_at: other.unresponsive_at, ..row })
            == column_fault(other.unresponsive_at).or_fault(
                opt_ts_fault(other.unresponsive_at->Ok_0),
            ),
        run_fault(RunRow { stale_at: other.stale_at, ..row })
            == column_fault(other.stale_at).or_fault(opt_ts_fault(other.stale_at->Ok_0)),
{
}

} // verus!
