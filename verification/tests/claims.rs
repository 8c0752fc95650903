//! Claims of agents on tasks, against SQLite.

use daruma_storage::claim_repo::{
    ActiveClaim, ActiveClaimRow, AgentClaimRepo, AgentIdRow, ClaimAttempt, ClaimKey, ClaimKeyRow,
    ClaimOutcome, ClaimResult, ClaimStep, DeletionStep, Deletions, ExpiredRow, HolderRow,
    PlanRunStep, RecordStep, RecordedClaimOutcome, Recording, RunAssignmentRow, RunToEndRow,
    SweepStep, TaskClaimRow, TaskEndStep,
};
use daruma_storage::domain::{Actor, ObsolescenceKind, Run, RunStatus};
use daruma_storage::error::CoreError;
use daruma_storage::event_store::SqliteEventStore;
use daruma_storage::events::{Event, EventEnvelope};
use daruma_storage::ids::{
    print_id, AgentId, ClaimId, PlanId, ProjectId, RunId, TaskId, TypedId,
};
use daruma_storage::query::{Bound, Query};
use daruma_storage::rows::{decode_all, decode_optional, Column, Decode};
use daruma_storage::time::Timestamp;
use sqlx::sqlite::{
    Sqlite, SqliteArguments, SqlitePool, SqlitePoolOptions, SqliteQueryResult, SqliteRow,
};
use sqlx::{Arguments, Row};

const SCHEMA: &str = "
CREATE TABLE events (
    seq INTEGER PRIMARY KEY AUTOINCREMENT,
    event_id TEXT NOT NULL UNIQUE,
    occurred_at TEXT NOT NULL,
    kind TEXT NOT NULL,
    actor_json TEXT NOT NULL,
    payload_json TEXT NOT NULL,
    origin_device_id TEXT,
    origin_seq INTEGER NOT NULL DEFAULT 0
);
CREATE TABLE agent_claims (
    agent_id TEXT NOT NULL,
    task_id TEXT NOT NULL,
    acquired_at TEXT NOT NULL,
    expires_at TEXT NOT NULL,
    run_id TEXT,
    claim_id TEXT NOT NULL,
    PRIMARY KEY (agent_id, task_id)
);
CREATE TABLE run_claim_owners (
    run_id TEXT PRIMARY KEY,
    agent_id TEXT NOT NULL
);
CREATE TABLE plans (
    id TEXT PRIMARY KEY,
    status TEXT NOT NULL,
    updated_at TEXT NOT NULL
);
CREATE TABLE runs (
    id TEXT PRIMARY KEY,
    plan_id TEXT NOT NULL,
    agent_id TEXT NOT NULL,
    started_at TEXT NOT NULL,
    ended_at TEXT,
    status TEXT NOT NULL,
    outcome TEXT
);
CREATE TABLE run_steps (
    run_id TEXT NOT NULL,
    task_id TEXT NOT NULL,
    started_at TEXT NOT NULL,
    finished_at TEXT
);
CREATE TABLE tasks (
    id TEXT PRIMARY KEY,
    project_id TEXT
);
";

/// A database in memory, asked through the library's queries.
struct Db {
    runtime: tokio::runtime::Runtime,
    pool: SqlitePool,
}

impl Db {
    fn open() -> Db {
        let runtime = tokio::runtime::Builder::new_current_thread().enable_all().build().unwrap();
        let pool = runtime.block_on(async {
            let pool = SqlitePoolOptions::new()
                .max_connections(1)
                .connect("sqlite::memory:")
                .await
                .unwrap();
            sqlx::raw_sql(SCHEMA).execute(&pool).await.unwrap();
            pool
        });
        Db { runtime, pool }
    }

    fn arguments(&self, binds: Vec<Bound>) -> SqliteArguments<'static> {
        let mut arguments = SqliteArguments::default();
        for bound in binds {
            match bound {
                Bound::Null => arguments.add(None::<String>),
                Bound::Text(s) => arguments.add(s),
                Bound::Int(n) => arguments.add(n),
                Bound::Bool(b) => arguments.add(b),
                Bound::Actor(a) => arguments.add(actor_to_json(&a)),
                other => panic!("not bound here: {other:?}"),
            }
            .unwrap();
        }
        arguments
    }

    fn execute(&self, query: Query) -> Result<SqliteQueryResult, sqlx::Error> {
        let arguments = self.arguments(query.binds);
        self.runtime.block_on(sqlx::query_with(&query.sql, arguments).execute(&self.pool))
    }

    /// Runs a statement, and says how many rows it changed.
    fn run(&self, query: Query) -> u64 {
        self.execute(query).unwrap().rows_affected()
    }

    fn fetch(&self, query: Query) -> Vec<SqliteRow> {
        let arguments = self.arguments(query.binds);
        self.runtime
            .block_on(sqlx::query_with(&query.sql, arguments).fetch_all(&self.pool))
            .unwrap()
    }

    fn rows<R: ReadRow>(&self, query: Query) -> Vec<R> {
        self.fetch(query).iter().map(|row| R::read(row, self)).collect()
    }

    fn row<R: ReadRow>(&self, query: Query) -> Option<R> {
        self.rows(query).pop()
    }

    fn list<R: ReadRow + Decode>(&self, query: Query) -> Vec<R::Record> {
        decode_all(self.rows::<R>(query)).unwrap()
    }

    fn find<R: ReadRow + Decode>(&self, query: Query) -> Option<R::Record> {
        decode_optional(self.row::<R>(query)).unwrap()
    }

    fn change(&self, query: Query) -> Result<u64, CoreError> {
        self.execute(query)
            .map(|done| done.rows_affected())
            .map_err(|e| CoreError::Storage(e.to_string()))
    }

    /// Does something whole or not at all.
    fn transaction<T>(
        &self,
        act: impl FnOnce() -> Result<T, CoreError>,
    ) -> Result<T, CoreError> {
        self.run(Query::new("BEGIN"));
        let done = act();
        self.run(Query::new(if done.is_ok() { "COMMIT" } else { "ROLLBACK" }));
        done
    }

    fn append(&self, envelope: EventEnvelope) -> Result<EventEnvelope, CoreError> {
        let insert = SqliteEventStore::append(&envelope, "{}");
        let done = self.execute(insert).map_err(|e| CoreError::Storage(e.to_string()))?;
        Ok(SqliteEventStore::appended(envelope, done.last_insert_rowid()))
    }

    fn record(&self, mut recording: Recording) -> Result<Vec<EventEnvelope>, CoreError> {
        loop {
            match recording.next(&Actor::User, fresh(), now())? {
                RecordStep::Append { envelope, rest } => {
                    recording = rest.appended(self.append(envelope)?);
                }
                RecordStep::Commit { persisted } => return Ok(persisted),
            }
        }
    }

    fn is_claimed(&self, task_id: TaskId) -> Option<(AgentId, Timestamp)> {
        self.find::<HolderRow>(AgentClaimRepo::is_claimed(&task_id, &now()))
    }

    fn list_active(&self, project_id: Option<ProjectId>) -> Vec<ActiveClaim> {
        self.list::<ActiveClaimRow>(AgentClaimRepo::list_active(&project_id, &now()))
    }

    fn acquire(&self, agent_id: AgentId, task_id: TaskId, secs: i64) -> Timestamp {
        let at = now();
        let expires_at = AgentClaimRepo::expiry(&at, secs, 0).unwrap();
        self.run(AgentClaimRepo::acquire(&agent_id, &task_id, &fresh(), &at, &expires_at));
        expires_at
    }

    fn acquire_until(
        &self,
        agent_id: AgentId,
        task_id: TaskId,
        claim_id: ClaimId,
        expires_at: Timestamp,
    ) {
        let query =
            AgentClaimRepo::acquire_until(&agent_id, &task_id, &claim_id, &expires_at, &now());
        self.run(query);
    }

    fn try_acquire(&self, agent_id: AgentId, task_id: TaskId, secs: i64) -> ClaimOutcome {
        let at = now();
        let expires_at = AgentClaimRepo::expiry(&at, secs, 0).unwrap();
        let claim_id: ClaimId = fresh();
        let query = AgentClaimRepo::try_acquire(&agent_id, &task_id, &claim_id, &at, &expires_at);
        match AgentClaimRepo::acquired(self.run(query), expires_at, claim_id) {
            Some(outcome) => outcome,
            None => AgentClaimRepo::busy(self.is_claimed(task_id), agent_id, expires_at),
        }
    }

    fn attempt(&self, attempt: ClaimAttempt) -> Result<RecordedClaimOutcome, CoreError> {
        self.transaction(|| {
            let insert = match attempt.start() {
                ClaimStep::CheckRun { select } => {
                    attempt.after_check(self.row::<RunAssignmentRow>(select))?
                }
                ClaimStep::Acquire { insert } => insert,
            };
            match attempt.after_acquire(self.change(insert)?) {
                ClaimResult::Append { event } => {
                    Ok(attempt.acquired(self.append(env(Actor::User, event))?))
                }
                ClaimResult::AskHolder { select } => attempt.busy(self.row::<HolderRow>(select)),
            }
        })
    }

    fn try_acquire_recorded(
        &self,
        agent_id: AgentId,
        task_id: TaskId,
        secs: i64,
    ) -> Result<RecordedClaimOutcome, CoreError> {
        let attempt =
            AgentClaimRepo::try_acquire_recorded(agent_id, task_id, fresh(), secs, 0, now());
        self.attempt(attempt.unwrap())
    }

    /// The claim that a recorded attempt took.
    fn take(&self, agent_id: AgentId, task_id: TaskId, secs: i64) -> ClaimId {
        match self.try_acquire_recorded(agent_id, task_id, secs).unwrap() {
            RecordedClaimOutcome::Acquired { claim_id, .. } => claim_id,
            other => panic!("expected acquired claim, got {other:?}"),
        }
    }

    fn release_recorded(
        &self,
        agent_id: AgentId,
        task_id: TaskId,
        claim_id: ClaimId,
    ) -> Result<Option<EventEnvelope>, CoreError> {
        self.transaction(|| {
            let delete = AgentClaimRepo::release_recorded(&agent_id, &task_id, &claim_id);
            let deleted = self.change(delete)?;
            match AgentClaimRepo::released(deleted, agent_id, task_id, claim_id) {
                Some(event) => Ok(Some(self.append(env(Actor::User, event))?)),
                None => Ok(None),
            }
        })
    }

    fn run_deletions(&self, mut deletions: Deletions) -> Result<Vec<ClaimKey>, CoreError> {
        loop {
            match deletions.next()? {
                DeletionStep::Delete { key, delete, rest } => {
                    let deleted = self.change(delete)?;
                    deletions = rest.deleted(key, deleted);
                }
                DeletionStep::Done { released } => return Ok(released),
            }
        }
    }

    fn record_task_lifecycle(
        &self,
        events: Vec<EventEnvelope>,
    ) -> Result<Vec<EventEnvelope>, CoreError> {
        let mut tasks = AgentClaimRepo::record_task_lifecycle(events);
        self.transaction(|| loop {
            match tasks.next() {
                TaskEndStep::Release { touch, claims, task } => {
                    self.change(touch)?;
                    let (deletions, rest) = task.found(self.rows::<TaskClaimRow>(claims));
                    tasks = rest.released(self.run_deletions(deletions)?);
                }
                TaskEndStep::Record { recording } => return self.record(recording),
            }
        })
    }

    fn record_run_terminal(
        &self,
        agent_id: AgentId,
        is_admin: bool,
        events: Vec<EventEnvelope>,
    ) -> Result<Vec<EventEnvelope>, CoreError> {
        let termination = AgentClaimRepo::record_run_terminal(agent_id, is_admin, events)?;
        self.transaction(|| {
            let row = self.row::<RunToEndRow>(termination.load());
            let (end, ending) = termination.loaded(row)?;
            let (claims, releases) = ending.ended(self.change(end)?)?;
            let deletions = releases.found(self.rows::<ClaimKeyRow>(claims));
            let (disown, recording) = releases.released(self.run_deletions(deletions)?);
            self.change(disown)?;
            self.record(recording)
        })
    }

    fn record_plan_terminal(
        &self,
        events: Vec<EventEnvelope>,
    ) -> Result<Vec<EventEnvelope>, CoreError> {
        let termination = AgentClaimRepo::record_plan_terminal(events)?;
        self.transaction(|| {
            self.change(termination.touch())?;
            let rows = self.fetch(termination.active_runs());
            let mut runs = termination.found(rows.iter().map(|row| column(row, "id")).collect());
            loop {
                match runs.next()? {
                    PlanRunStep::Abort { claims, run } => {
                        let (abort, deletions, releases) =
                            run.found(self.rows::<ClaimKeyRow>(claims));
                        self.change(abort)?;
                        let (disown, rest) = releases.released(self.run_deletions(deletions)?);
                        self.change(disown)?;
                        runs = rest;
                    }
                    PlanRunStep::Record { recording } => return self.record(recording),
                }
            }
        })
    }

    fn sweep_expired(&self) -> Vec<(AgentId, TaskId)> {
        let at = now();
        let found = self.list::<ExpiredRow>(AgentClaimRepo::sweep_expired(&at));
        if let Some(delete) = AgentClaimRepo::delete_expired(&found, &at) {
            self.run(delete);
        }
        found
    }

    /// Sweeps what has expired, with something done after the selection.
    fn sweep_expired_recorded_after(&self, after_select: impl FnOnce()) -> Vec<EventEnvelope> {
        let at = now();
        let rows = self.rows::<ClaimKeyRow>(AgentClaimRepo::sweep_expired_recorded(&at));
        after_select();
        let mut sweep = AgentClaimRepo::sweep_expired_recorded_after(at, rows);
        self.transaction(|| loop {
            match sweep.next()? {
                SweepStep::Delete { claim, delete, rest } => {
                    let deleted = self.change(delete)?;
                    sweep = match rest.deleted(&claim, deleted, &Actor::User, fresh(), now()) {
                        Some(envelope) => rest.appended(self.append(envelope)?),
                        None => rest,
                    };
                }
                SweepStep::Commit { persisted } => return Ok(persisted),
            }
        })
        .unwrap()
    }

    fn apply_event(&self, event: &Event) {
        if let Some(query) = AgentClaimRepo::apply_event(event, &now()) {
            self.run(query);
        }
    }

    fn count(&self, query: Query) -> i64 {
        self.fetch(query)[0].get(0)
    }

    fn text(&self, query: Query) -> String {
        self.fetch(query)[0].get(0)
    }

    fn claim_of(&self, agent_id: AgentId, task_id: TaskId) -> String {
        let select =
            Query::new("SELECT claim_id FROM agent_claims WHERE agent_id = ? AND task_id = ?");
        self.text(select.id(&agent_id).id(&task_id))
    }

    fn insert_claim(
        &self,
        agent_id: AgentId,
        task_id: TaskId,
        acquired_at: Timestamp,
        expires_at: Timestamp,
        run_id: Option<RunId>,
        claim_id: ClaimId,
    ) {
        let insert = Query::new(
            "INSERT INTO agent_claims \
             (agent_id, task_id, acquired_at, expires_at, run_id, claim_id) \
             VALUES (?, ?, ?, ?, ?, ?)",
        );
        self.run(
            insert
                .id(&agent_id)
                .id(&task_id)
                .time(&acquired_at)
                .time(&expires_at)
                .opt_id(&run_id)
                .id(&claim_id),
        );
    }

    /// A claim that expired long ago.
    fn insert_expired(&self, agent_id: AgentId, task_id: TaskId) -> ClaimId {
        let claim_id: ClaimId = fresh();
        let long_ago = Timestamp::new(946_684_800, 0).unwrap();
        self.insert_claim(agent_id, task_id, now(), long_ago, None, claim_id);
        claim_id
    }

    fn insert_active_run(&self, run_id: RunId, plan_id: PlanId, agent_id: AgentId) {
        let insert = Query::new(
            "INSERT INTO runs (id, plan_id, agent_id, started_at, status) \
             VALUES (?, ?, ?, ?, 'active')",
        );
        self.run(insert.id(&run_id).id(&plan_id).id(&agent_id).time(&now()));
    }

    fn insert_owner(&self, run_id: RunId, agent_id: AgentId) {
        let insert = Query::new("INSERT INTO run_claim_owners (run_id, agent_id) VALUES (?, ?)");
        self.run(insert.id(&run_id).id(&agent_id));
    }

    fn insert_plan(&self, plan_id: PlanId, status: &str) {
        let insert = Query::new("INSERT INTO plans (id, status, updated_at) VALUES (?, ?, '')");
        self.run(insert.id(&plan_id).text(status));
    }

    fn run_status(&self, run_id: RunId) -> String {
        self.text(Query::new("SELECT status FROM runs WHERE id = ?").id(&run_id))
    }

    fn owners(&self, run_id: RunId) -> i64 {
        let select = Query::new("SELECT COUNT(*) FROM run_claim_owners WHERE run_id = ?");
        self.count(select.id(&run_id))
    }

    fn claims_of_run(&self, run_id: RunId) -> i64 {
        let select = Query::new("SELECT COUNT(*) FROM agent_claims WHERE run_id = ?");
        self.count(select.id(&run_id))
    }
}

fn actor_to_json(actor: &Actor) -> String {
    match actor {
        Actor::User => r#"{"kind":"user"}"#.to_string(),
        Actor::Agent { id, name } => {
            format!(r#"{{"kind":"agent","id":"{}","name":"{name}"}}"#, print_id(id))
        }
    }
}

fn fresh<I: TypedId>() -> I {
    I::from_uuid(uuid::Uuid::new_v4().as_u128())
}

fn now() -> Timestamp {
    let now = chrono::Utc::now();
    Timestamp::new(now.timestamp(), now.timestamp_subsec_nanos()).unwrap()
}

fn env(actor: Actor, payload: Event) -> EventEnvelope {
    EventEnvelope::new(fresh(), now(), actor, payload)
}

/// A row that the library reads.
trait ReadRow: Sized {
    fn read(row: &SqliteRow, db: &Db) -> Self;
}

/// A column, or the driver's message.
fn column<'r, T>(row: &'r SqliteRow, name: &str) -> Column<T>
where
    T: sqlx::Decode<'r, Sqlite> + sqlx::Type<Sqlite>,
{
    row.try_get(name).map_err(|e| e.to_string())
}

impl ReadRow for ActiveClaimRow {
    fn read(row: &SqliteRow, _db: &Db) -> ActiveClaimRow {
        ActiveClaimRow {
            agent_id: column(row, "agent_id"),
            task_id: column(row, "task_id"),
            acquired_at: column(row, "acquired_at"),
            expires_at: column(row, "expires_at"),
            run_id: column(row, "run_id"),
            claim_id: column(row, "claim_id"),
        }
    }
}

impl ReadRow for HolderRow {
    fn read(row: &SqliteRow, _db: &Db) -> HolderRow {
        HolderRow {
            agent_id: column(row, "agent_id"),
            expires_at: column(row, "expires_at"),
        }
    }
}

impl ReadRow for AgentIdRow {
    fn read(row: &SqliteRow, _db: &Db) -> AgentIdRow {
        AgentIdRow {
            agent_id: column(row, "agent_id"),
        }
    }
}

impl ReadRow for ExpiredRow {
    fn read(row: &SqliteRow, _db: &Db) -> ExpiredRow {
        ExpiredRow {
            agent_id: column(row, "agent_id"),
            task_id: column(row, "task_id"),
        }
    }
}

impl ReadRow for ClaimKeyRow {
    fn read(row: &SqliteRow, _db: &Db) -> ClaimKeyRow {
        ClaimKeyRow {
            agent_id: column(row, "agent_id"),
            task_id: column(row, "task_id"),
            claim_id: column(row, "claim_id"),
        }
    }
}

impl ReadRow for RunAssignmentRow {
    fn read(row: &SqliteRow, _db: &Db) -> RunAssignmentRow {
        RunAssignmentRow {
            plan_id: column(row, "plan_id"),
            status: column(row, "status"),
            plan_status: column(row, "plan_status"),
            owner_agent_id: column(row, "owner_agent_id"),
        }
    }
}

impl ReadRow for RunToEndRow {
    fn read(row: &SqliteRow, _db: &Db) -> RunToEndRow {
        RunToEndRow {
            status: column(row, "status"),
            run_agent_id: column(row, "run_agent_id"),
            started_at: column(row, "started_at"),
            owner_agent_id: column(row, "owner_agent_id"),
        }
    }
}

impl ReadRow for TaskClaimRow {
    fn read(row: &SqliteRow, _db: &Db) -> TaskClaimRow {
        TaskClaimRow {
            agent_id: column(row, "agent_id"),
            claim_id: column(row, "claim_id"),
        }
    }
}

fn later(secs: i64) -> Timestamp {
    now().later(secs, 0).unwrap()
}

fn earlier(secs: i64) -> Timestamp {
    now().earlier(secs, 0).unwrap()
}

#[test]
fn claim_acquire_and_check() {
    let db = Db::open();
    let agent_id: AgentId = fresh();
    let task_id: TaskId = fresh();
    let expires_at = db.acquire(agent_id, task_id, 60);
    assert!(expires_at.unix_seconds() > now().unix_seconds());

    let (claimant, until) = db.is_claimed(task_id).unwrap();
    assert_eq!(claimant, agent_id);
    assert_eq!(until, expires_at);
}

#[test]
fn claim_release_removes_claim() {
    let db = Db::open();
    let agent_id: AgentId = fresh();
    let task_id: TaskId = fresh();
    db.acquire(agent_id, task_id, 60);
    assert!(db.is_claimed(task_id).is_some());

    db.run(AgentClaimRepo::release(&agent_id, &task_id));
    assert!(db.is_claimed(task_id).is_none());
}

#[test]
fn claim_unclaimed_task_returns_none() {
    let db = Db::open();
    assert!(db.is_claimed(fresh()).is_none());
}

#[test]
fn claim_sweep_expired_returns_released_pairs() {
    let db = Db::open();
    let agent_id: AgentId = fresh();
    let task_id: TaskId = fresh();
    db.insert_expired(agent_id, task_id);

    let released = db.sweep_expired();
    assert_eq!(released.len(), 1);
    assert_eq!(released[0].0, agent_id);
    assert_eq!(released[0].1, task_id);
    assert!(db.is_claimed(task_id).is_none());
    assert_eq!(db.count(Query::new("SELECT COUNT(*) FROM agent_claims")), 0);
}

#[test]
fn try_acquire_is_exclusive_across_agents() {
    let db = Db::open();
    let task_id: TaskId = fresh();
    let a1: AgentId = fresh();
    let a2: AgentId = fresh();

    assert!(matches!(db.try_acquire(a1, task_id, 60), ClaimOutcome::Acquired { .. }));
    match db.try_acquire(a2, task_id, 60) {
        ClaimOutcome::Busy { holder, .. } => assert_eq!(holder, a1),
        other => panic!("expected Busy, got {other:?}"),
    }
    match db.try_acquire_recorded(a2, task_id, 60).unwrap() {
        RecordedClaimOutcome::Busy { holder, .. } => assert_eq!(holder, a1),
        other => panic!("expected Busy, got {other:?}"),
    }
}

#[test]
fn failed_audit_after_acquire_leaves_neither_row_nor_event() {
    let db = Db::open();
    let agent_id: AgentId = fresh();
    let task_id: TaskId = fresh();
    db.run(Query::new(
        "CREATE TRIGGER fail_claim_audit BEFORE INSERT ON events \
         WHEN NEW.kind = 'agent_claimed' BEGIN \
         SELECT RAISE(ABORT, 'forced claim audit failure'); END",
    ));

    assert!(db.try_acquire_recorded(agent_id, task_id, 60).is_err());
    let claims =
        Query::new("SELECT COUNT(*) FROM agent_claims WHERE agent_id = ? AND task_id = ?");
    assert_eq!(db.count(claims.id(&agent_id).id(&task_id)), 0);
    assert_eq!(db.count(Query::new("SELECT COUNT(*) FROM events")), 0);
}

#[test]
fn failed_release_audit_preserves_exact_claim_and_emits_nothing() {
    let db = Db::open();
    let agent_id: AgentId = fresh();
    let task_id: TaskId = fresh();
    let claim_id = db.take(agent_id, task_id, 60);
    db.run(Query::new(
        "CREATE TRIGGER fail_release_audit BEFORE INSERT ON events \
         WHEN NEW.kind = 'agent_released' BEGIN \
         SELECT RAISE(ABORT, 'forced release audit failure'); END",
    ));

    assert!(db.release_recorded(agent_id, task_id, claim_id).is_err());
    assert_eq!(db.claim_of(agent_id, task_id), print_id(&claim_id));
    let released = Query::new("SELECT COUNT(*) FROM events WHERE kind = 'agent_released'");
    assert_eq!(db.count(released), 0);
}

#[test]
fn delayed_compensation_cannot_release_reacquired_generation() {
    let db = Db::open();
    let agent_id: AgentId = fresh();
    let task_id: TaskId = fresh();
    let stale_claim_id = db.take(agent_id, task_id, 60);
    let current_claim_id = db.take(agent_id, task_id, 120);
    assert_ne!(current_claim_id, stale_claim_id);

    assert!(db.release_recorded(agent_id, task_id, stale_claim_id).unwrap().is_none());
    let active = db.list_active(None);
    assert_eq!(active.len(), 1);
    assert_eq!(active[0].claim_id, current_claim_id);

    let released = db.release_recorded(agent_id, task_id, current_claim_id).unwrap().unwrap();
    assert_eq!(
        released.payload,
        Event::AgentReleased { agent_id, task_id, claim_id: Some(current_claim_id) }
    );
    assert!(db.list_active(None).is_empty());
}

fn task_closed(task_id: TaskId) -> EventEnvelope {
    env(Actor::User, Event::TaskClosed { task_id, by: Actor::User, at: now() })
}

#[test]
fn task_close_records_exact_generation_release_atomically() {
    let db = Db::open();
    let agent_id: AgentId = fresh();
    let task_id: TaskId = fresh();
    let claim_id = db.take(agent_id, task_id, 60);

    let persisted = db.record_task_lifecycle(vec![task_closed(task_id)]).unwrap();

    assert_eq!(persisted.len(), 2);
    assert!(matches!(
        persisted[0].payload,
        Event::TaskClosed { task_id: id, .. } if id == task_id
    ));
    assert!(matches!(
        persisted[1].payload,
        Event::AgentReleased {
            agent_id: a,
            task_id: t,
            claim_id: Some(generation),
        } if a == agent_id && t == task_id && generation == claim_id
    ));
    let claims = Query::new("SELECT COUNT(*) FROM agent_claims WHERE task_id = ?");
    assert_eq!(db.count(claims.id(&task_id)), 0);
    let events = Query::new(
        "SELECT COUNT(*) FROM events WHERE kind IN ('task_closed', 'agent_released')",
    );
    assert_eq!(db.count(events), 2);
}

#[test]
fn delayed_close_projector_cannot_delete_reopened_generation() {
    let db = Db::open();
    let agent_id: AgentId = fresh();
    let task_id: TaskId = fresh();
    let old_claim_id = db.take(agent_id, task_id, 60);
    let lifecycle = db.record_task_lifecycle(vec![task_closed(task_id)]).unwrap();

    let reopened_claim_id = db.take(agent_id, task_id, 120);
    assert_ne!(reopened_claim_id, old_claim_id);
    for event in &lifecycle {
        db.apply_event(&event.payload);
    }

    let active = db.list_active(None);
    assert_eq!(active.len(), 1);
    assert_eq!(active[0].claim_id, reopened_claim_id);
}

#[test]
fn sweep_selection_cannot_delete_concurrent_refresh_or_emit_release() {
    let db = Db::open();
    let agent_id: AgentId = fresh();
    let task_id: TaskId = fresh();
    db.insert_expired(agent_id, task_id);

    let mut refreshed = None;
    let events = db.sweep_expired_recorded_after(|| {
        refreshed = Some(db.take(agent_id, task_id, 60));
    });

    assert!(events.is_empty());
    assert_eq!(db.claim_of(agent_id, task_id), print_id(&refreshed.unwrap()));
    let released = Query::new("SELECT COUNT(*) FROM events WHERE kind = 'agent_released'");
    assert_eq!(db.count(released), 0);
}

#[test]
fn a_recorded_sweep_releases_what_expired() {
    let db = Db::open();
    let agent_id: AgentId = fresh();
    let task_id: TaskId = fresh();
    let claim_id = db.insert_expired(agent_id, task_id);
    let kept: TaskId = fresh();
    db.acquire(agent_id, kept, 60);

    let events = db.sweep_expired_recorded_after(|| {});
    assert_eq!(events.len(), 1);
    assert_eq!(
        events[0].payload,
        Event::AgentReleased { agent_id, task_id, claim_id: Some(claim_id) }
    );
    assert!(db.is_claimed(kept).is_some());
}

#[test]
fn try_acquire_same_agent_refreshes() {
    let db = Db::open();
    let task_id: TaskId = fresh();
    let agent: AgentId = fresh();

    let first = match db.try_acquire(agent, task_id, 60) {
        ClaimOutcome::Acquired { expires_at, claim_id } => {
            assert_eq!(db.claim_of(agent, task_id), print_id(&claim_id));
            (expires_at, claim_id)
        }
        other => panic!("expected Acquired, got {other:?}"),
    };
    match db.try_acquire(agent, task_id, 600) {
        ClaimOutcome::Acquired { expires_at, claim_id } => {
            assert!(expires_at.unix_seconds() >= first.0.unix_seconds());
            assert_ne!(claim_id, first.1);
            assert_eq!(db.claim_of(agent, task_id), print_id(&claim_id));
        }
        other => panic!("expected refreshed Acquired, got {other:?}"),
    }
}

#[test]
fn live_run_bound_claim_keeps_run_on_runless_refresh() {
    let db = Db::open();
    let agent_id: AgentId = fresh();
    let task_id: TaskId = fresh();
    let run_id: RunId = fresh();
    let old_claim_id: ClaimId = fresh();
    db.insert_claim(agent_id, task_id, now(), later(60), Some(run_id), old_claim_id);

    let refreshed_claim_id = db.take(agent_id, task_id, 120);
    let active = db.list_active(None);
    assert_eq!(active[0].run_id, Some(run_id));
    assert_eq!(active[0].claim_id, refreshed_claim_id);
    assert_ne!(active[0].claim_id, old_claim_id);
}

#[test]
fn expired_run_bound_claim_drops_run_on_runless_reacquire() {
    let db = Db::open();
    let agent_id: AgentId = fresh();
    let task_id: TaskId = fresh();
    let stale_claim_id: ClaimId = fresh();
    db.insert_claim(agent_id, task_id, earlier(120), earlier(60), Some(fresh()), stale_claim_id);

    let refreshed_claim_id = match db.try_acquire(agent_id, task_id, 120) {
        ClaimOutcome::Acquired { claim_id, .. } => claim_id,
        other => panic!("expected reacquired claim, got {other:?}"),
    };
    let active = db.list_active(None);
    assert_eq!(active[0].run_id, None);
    assert_eq!(active[0].claim_id, refreshed_claim_id);
    assert_ne!(active[0].claim_id, stale_claim_id);
}

#[test]
fn stale_claim_event_cannot_replace_a_newer_generation() {
    let db = Db::open();
    let agent_id: AgentId = fresh();
    let task_id: TaskId = fresh();
    let stale_id: ClaimId = fresh();
    let stale_expiry = later(60);

    db.acquire_until(agent_id, task_id, stale_id, stale_expiry);
    let current_id = match db.try_acquire(agent_id, task_id, 120) {
        ClaimOutcome::Acquired { claim_id, .. } => claim_id,
        other => panic!("expected acquired, got {other:?}"),
    };

    db.acquire_until(agent_id, task_id, stale_id, stale_expiry);
    assert_eq!(db.claim_of(agent_id, task_id), print_id(&current_id));
}

#[test]
fn a_replayed_claim_reads_back_unless_it_expired() {
    let db = Db::open();
    let (agent_id, task_id): (AgentId, TaskId) = (fresh(), fresh());
    let claim_id: ClaimId = fresh();
    let (at, expires_at) = (now(), later(60));
    let replay = |expires_at: &Timestamp| {
        let replay = AgentClaimRepo::acquire_until(&agent_id, &task_id, &claim_id, expires_at, &at);
        db.run(replay)
    };

    assert_eq!(replay(&earlier(1)), 0);
    assert!(db.list_active(None).is_empty());

    assert_eq!(replay(&expires_at), 1);
    let claim = ActiveClaim {
        agent_id,
        task_id,
        acquired_at: at,
        expires_at,
        run_id: None,
        claim_id,
    };
    assert_eq!(db.list_active(None), vec![claim]);
    replay(&expires_at);
    assert_eq!(db.list_active(None), vec![claim]);
}

#[test]
fn delayed_claim_event_cannot_restore_a_previous_holder() {
    let db = Db::open();
    let first: AgentId = fresh();
    let second: AgentId = fresh();
    let task_id: TaskId = fresh();
    let stale_id: ClaimId = fresh();

    db.acquire_until(first, task_id, stale_id, earlier(1));
    db.try_acquire(second, task_id, 60);
    db.acquire_until(first, task_id, stale_id, later(60));

    let agents =
        db.list::<AgentIdRow>(AgentClaimRepo::get_agents_claiming_task(&task_id, &now()));
    assert_eq!(agents, vec![second]);
}

#[test]
fn try_acquire_takes_over_expired_claim() {
    let db = Db::open();
    let task_id: TaskId = fresh();
    let taker: AgentId = fresh();
    db.insert_expired(fresh(), task_id);

    let out = db.try_acquire(taker, task_id, 60);
    assert!(matches!(out, ClaimOutcome::Acquired { .. }));
    let (holder, _) = db.is_claimed(task_id).unwrap();
    assert_eq!(holder, taker);
}

#[test]
fn is_claimed_by_other_ignores_self_and_expired() {
    let db = Db::open();
    let task_id: TaskId = fresh();
    let me: AgentId = fresh();
    let them: AgentId = fresh();
    let by_other = || {
        db.find::<AgentIdRow>(AgentClaimRepo::is_claimed_by_other(&task_id, &me, &now()))
    };

    db.acquire(me, task_id, 60);
    assert_eq!(by_other(), None);
    db.insert_expired(fresh(), task_id);
    assert_eq!(by_other(), None);
    db.acquire(them, task_id, 60);
    assert_eq!(by_other(), Some(them));
}

#[test]
fn list_active_returns_live_claims_and_scopes_by_project() {
    let db = Db::open();
    let project: ProjectId = fresh();
    let agent: AgentId = fresh();
    let task: TaskId = fresh();
    let insert = Query::new("INSERT INTO tasks (id, project_id) VALUES (?, ?)");
    db.run(insert.id(&task).id(&project));
    db.acquire(agent, task, 60);

    let all = db.list_active(None);
    assert_eq!(all.len(), 1);
    assert_eq!(all[0].agent_id, agent);
    assert_eq!(all[0].task_id, task);

    assert_eq!(db.list_active(Some(project)).len(), 1);
    assert_eq!(db.list_active(Some(fresh())).len(), 0);

    db.run(AgentClaimRepo::release(&agent, &task));
    assert!(db.list_active(None).is_empty());
}

#[test]
fn list_active_excludes_expired() {
    let db = Db::open();
    db.insert_expired(fresh(), fresh());
    assert!(db.list_active(None).is_empty());
}

#[test]
fn claim_sweep_does_not_remove_active_claims() {
    let db = Db::open();
    let task_id: TaskId = fresh();
    db.acquire(fresh(), task_id, 300);

    assert!(db.sweep_expired().is_empty());
    assert!(db.is_claimed(task_id).is_some());
}

#[test]
fn plan_terminal_cleans_active_run_owner_and_claim_atomically() {
    let db = Db::open();
    let plan_id: PlanId = fresh();
    let run_id: RunId = fresh();
    let owner: AgentId = fresh();
    let task_id: TaskId = fresh();
    let claim_id: ClaimId = fresh();
    db.insert_active_run(run_id, plan_id, owner);
    db.insert_owner(run_id, owner);
    db.insert_claim(owner, task_id, now(), later(300), Some(run_id), claim_id);
    let at = now();
    let aborted = Event::RunAborted { run_id, reason: "plan_archived".to_string(), at };
    let kind = ObsolescenceKind { json: "\"archived\"".to_string() };
    let events = vec![
        env(Actor::User, Event::PlanArchived { plan_id, at }),
        env(Actor::User, aborted),
        env(Actor::User, Event::RunObsolescedByPlanEdit { run_id, plan_id, kind }),
    ];

    let persisted = db.record_plan_terminal(events).unwrap();

    assert!(persisted.iter().any(|event| matches!(
        &event.payload,
        Event::AgentReleased { claim_id: Some(id), .. } if *id == claim_id
    )));
    assert_eq!(db.run_status(run_id), "aborted");
    assert_eq!(db.owners(run_id), 0);
    assert_eq!(db.claims_of_run(run_id), 0);
}

fn failed_event(run_id: RunId) -> Vec<EventEnvelope> {
    let reason = "test failure".to_string();
    vec![env(Actor::User, Event::RunFailed { run_id, reason, at: now() })]
}

fn aborted_event(run_id: RunId) -> Vec<EventEnvelope> {
    let reason = "test abort".to_string();
    vec![env(Actor::User, Event::RunAborted { run_id, reason, at: now() })]
}

#[test]
fn owner_fails_run_and_cleans_exact_claim_and_owner_atomically() {
    let db = Db::open();
    let run_id: RunId = fresh();
    let owner: AgentId = fresh();
    let task_id: TaskId = fresh();
    let claim_id: ClaimId = fresh();
    db.insert_active_run(run_id, fresh(), owner);
    db.insert_owner(run_id, owner);
    db.insert_claim(owner, task_id, now(), later(300), Some(run_id), claim_id);

    let error = db.record_run_terminal(fresh(), false, failed_event(run_id)).unwrap_err();
    assert_eq!(error, CoreError::Forbidden("run is owned by another agent".to_string()));
    assert_eq!(db.run_status(run_id), "active");

    let events = db.record_run_terminal(owner, false, failed_event(run_id)).unwrap();
    assert!(events.iter().any(|event| matches!(
        &event.payload,
        Event::AgentReleased { claim_id: Some(id), .. } if *id == claim_id
    )));
    assert_eq!(db.run_status(run_id), "failed");
    assert_eq!(db.claims_of_run(run_id), 0);
    assert_eq!(db.owners(run_id), 0);

    let again = db.record_run_terminal(owner, false, failed_event(run_id)).unwrap_err();
    assert_eq!(again, CoreError::Conflict("run is not active".to_string()));
}

#[test]
fn admin_recovers_only_bounded_migrated_ownerless_claims() {
    let db = Db::open();
    let run_id: RunId = fresh();
    let legacy_agent: AgentId = fresh();
    let task_id: TaskId = fresh();
    let unrelated_task_id: TaskId = fresh();
    let legacy_claim_id: ClaimId = fresh();
    let unrelated_claim_id: ClaimId = fresh();
    db.insert_active_run(run_id, fresh(), legacy_agent);
    for (task_id, claim_id) in
        [(task_id, legacy_claim_id), (unrelated_task_id, unrelated_claim_id)]
    {
        db.insert_claim(legacy_agent, task_id, now(), later(300), None, claim_id);
    }
    let step = Query::new("INSERT INTO run_steps (run_id, task_id, started_at) VALUES (?, ?, ?)");
    db.run(step.id(&run_id).id(&task_id).time(&now()));

    let error = db.record_run_terminal(legacy_agent, false, aborted_event(run_id)).unwrap_err();
    assert_eq!(error, CoreError::Forbidden("run has no authenticated owner".to_string()));

    let events = db.record_run_terminal(fresh(), true, aborted_event(run_id)).unwrap();
    assert!(events.iter().any(|event| matches!(
        &event.payload,
        Event::AgentReleased { claim_id: Some(id), .. } if *id == legacy_claim_id
    )));
    assert_eq!(db.claim_of(legacy_agent, unrelated_task_id), print_id(&unrelated_claim_id));
    assert_eq!(db.run_status(run_id), "aborted");
}

#[test]
fn failed_terminal_audit_rolls_back_run_claim_and_owner() {
    let db = Db::open();
    let run_id: RunId = fresh();
    let owner: AgentId = fresh();
    let task_id: TaskId = fresh();
    let claim_id: ClaimId = fresh();
    db.insert_active_run(run_id, fresh(), owner);
    db.insert_owner(run_id, owner);
    db.insert_claim(owner, task_id, now(), later(300), Some(run_id), claim_id);
    db.run(Query::new(
        "CREATE TRIGGER fail_terminal_event BEFORE INSERT ON events \
         WHEN NEW.kind = 'run_aborted' BEGIN \
         SELECT RAISE(ABORT, 'forced terminal failure'); END",
    ));

    assert!(db.record_run_terminal(owner, false, aborted_event(run_id)).is_err());
    let select = Query::new("SELECT status, ended_at, outcome FROM runs WHERE id = ?");
    let row = &db.fetch(select.id(&run_id))[0];
    assert_eq!(row.get::<String, _>("status"), "active");
    assert_eq!(row.get::<Option<String>, _>("ended_at"), None);
    assert_eq!(row.get::<Option<String>, _>("outcome"), None);
    assert_eq!(db.claim_of(owner, task_id), print_id(&claim_id));
    assert_eq!(db.owners(run_id), 1);
}

#[test]
fn a_run_claims_for_its_owner_alone() {
    let db = Db::open();
    let plan_id: PlanId = fresh();
    let run_id: RunId = fresh();
    let owner: AgentId = fresh();
    let task_id: TaskId = fresh();
    let claim_id: ClaimId = fresh();
    let attempt = |agent: AgentId, plan: PlanId| {
        let attempt = AgentClaimRepo::try_acquire_for_run_recorded(
            agent, run_id, plan, task_id, claim_id, later(60), now(),
        );
        db.attempt(attempt)
    };

    let unknown = attempt(owner, plan_id).unwrap_err();
    assert_eq!(unknown, CoreError::NotFound(format!("run {}", print_id(&run_id))));

    db.insert_plan(plan_id, "draft");
    db.insert_active_run(run_id, plan_id, owner);
    let run = Run {
        id: run_id,
        plan_id,
        agent_id: owner,
        parent_run_id: None,
        started_at: now(),
        ended_at: None,
        status: RunStatus::Active,
        outcome: None,
        last_activity_at: None,
        unresponsive_at: None,
        stale_at: None,
    };
    let started = vec![env(Actor::User, Event::RunStarted { run })];
    let (insert, recording) = AgentClaimRepo::record_run_started(&owner, started).unwrap();
    db.run(insert);
    assert_eq!(db.record(recording).unwrap().len(), 1);
    let draft = attempt(owner, plan_id).unwrap_err();
    assert_eq!(draft, CoreError::Conflict("run plan is not active".to_string()));

    db.run(Query::new("UPDATE plans SET status = 'active'"));
    let foreign = attempt(fresh(), plan_id).unwrap_err();
    assert_eq!(
        foreign,
        CoreError::Forbidden("run has no matching authenticated owner".to_string())
    );
    let elsewhere = attempt(owner, fresh()).unwrap_err();
    assert_eq!(elsewhere, CoreError::Conflict("run belongs to a different plan".to_string()));

    match attempt(owner, plan_id).unwrap() {
        RecordedClaimOutcome::Acquired { claim_id: taken, event, .. } => {
            assert_eq!(taken, claim_id);
            assert_eq!(event.seq, 2);
        }
        other => panic!("expected acquired claim, got {other:?}"),
    }
    assert_eq!(db.list_active(None)[0].run_id, Some(run_id));

    let row = || db.row::<RunAssignmentRow>(AgentClaimRepo::run_assignment(&run_id));
    assert_eq!(AgentClaimRepo::resolve_run_assignment(row(), &owner, &run_id), Ok(plan_id));
    assert_eq!(
        AgentClaimRepo::validate_run_assignment(row(), &owner, &run_id, &plan_id),
        Ok(())
    );
    assert!(AgentClaimRepo::validate_run_assignment(row(), &owner, &run_id, &fresh()).is_err());
}

#[test]
fn what_is_recorded_must_be_there() {
    let db = Db::open();
    let nothing: Vec<EventEnvelope> = vec![];
    assert_eq!(
        AgentClaimRepo::record_run_started(&fresh(), nothing),
        Err(CoreError::Validation("expected RunStarted event".to_string()))
    );
    assert_eq!(
        db.record_run_terminal(fresh(), true, vec![]),
        Err(CoreError::Validation("expected failed or aborted run event".to_string()))
    );
    assert_eq!(
        db.record_plan_terminal(vec![]),
        Err(CoreError::Validation("expected archived or deleted plan event".to_string()))
    );
    assert_eq!(db.record_task_lifecycle(vec![]), Ok(vec![]));
}

#[test]
fn a_claim_that_cannot_end_is_not_attempted() {
    let last = Timestamp::new(8_210_266_876_799, 0).unwrap();
    assert_eq!(AgentClaimRepo::expiry(&last, 1, 0), None);
    assert_eq!(
        AgentClaimRepo::try_acquire_recorded(fresh(), fresh(), fresh(), 1, 0, last),
        None
    );
}
