//! Plans, runs and what agents leave behind, against SQLite.

use daruma_storage::domain::{
    Actor, AgentSession, AgentSessionPlanStep, ComplexityHint, HandoffContract, HandoffStatus, Plan,
    PlanPatch, PlanStatus, PlanTask, Run, RunNote, RunStatus, SessionArtifact, SessionArtifactKind,
    SessionStepStatus,
};
use daruma_storage::error::CoreError;
use daruma_storage::events::{Event, EventEnvelope};
use daruma_storage::handoff_repo::{HandoffRepo, HandoffRow};
use daruma_storage::ids::{
    parse_id, print_id, AgentId, AgentSessionId, HandoffId, PlanId, ProjectId, RunId, RunNoteId,
    TaskId, TypedId, WorkUnitId,
};
use daruma_storage::json::parse_json;
use daruma_storage::plan_repo::{
    read_summary, PlanCounts, PlanRepo, PlanRow, PlanStep, PlanTaskRow, ReportedCounts,
    SubPlanCountRow, SummaryRow, TaskCountRow,
};
use daruma_storage::query::{Bound, Query};
use daruma_storage::rows::{decode_all, decode_optional, Column, Decode, Parsed};
use daruma_storage::run_note_repo::{PageStep, RunNoteRepo, RunNoteRow};
use daruma_storage::run_repo::{RunIdRow, RunRepo, RunRow};
use daruma_storage::session_repo::{SessionArtifactRow, SessionRepo, SessionRow};
use daruma_storage::task_complexity_repo::{HintRow, TaskComplexityRepo};
use daruma_storage::time::Timestamp;
use sqlx::sqlite::{
    Sqlite, SqliteArguments, SqlitePool, SqlitePoolOptions, SqliteQueryResult, SqliteRow,
};
use sqlx::{Arguments, Row};

const SCHEMA: &str = "
CREATE TABLE plans (
    id TEXT PRIMARY KEY,
    project_id TEXT NOT NULL,
    parent_plan_id TEXT,
    title TEXT NOT NULL,
    description TEXT NOT NULL,
    goal TEXT NOT NULL,
    success_criteria_json TEXT NOT NULL,
    status TEXT NOT NULL,
    owner_json TEXT NOT NULL,
    created_at TEXT NOT NULL,
    updated_at TEXT NOT NULL,
    archived_at TEXT,
    source_brief TEXT
);
CREATE TABLE plan_tasks (
    plan_id TEXT NOT NULL,
    task_id TEXT NOT NULL,
    position INTEGER NOT NULL,
    depends_on_json TEXT NOT NULL,
    PRIMARY KEY (plan_id, task_id)
);
CREATE TABLE tasks (
    id TEXT PRIMARY KEY,
    status TEXT NOT NULL
);
CREATE TABLE runs (
    id TEXT PRIMARY KEY,
    plan_id TEXT NOT NULL,
    agent_id TEXT NOT NULL,
    parent_run_id TEXT,
    started_at TEXT NOT NULL,
    ended_at TEXT,
    status TEXT NOT NULL,
    outcome TEXT,
    last_activity_at TEXT,
    unresponsive_at TEXT,
    stale_at TEXT
);
CREATE TABLE run_notes (
    id TEXT PRIMARY KEY,
    run_id TEXT NOT NULL,
    body TEXT NOT NULL,
    author_json TEXT NOT NULL,
    created_at TEXT NOT NULL
);
CREATE TABLE agent_sessions (
    id TEXT PRIMARY KEY,
    agent_id TEXT NOT NULL,
    parent_agent_id TEXT,
    started_at TEXT NOT NULL,
    ended_at TEXT,
    metadata_json TEXT NOT NULL,
    plan_steps_json TEXT NOT NULL
);
CREATE TABLE session_artifacts (
    id TEXT PRIMARY KEY,
    session_id TEXT NOT NULL,
    kind TEXT NOT NULL,
    ref TEXT NOT NULL,
    metadata_json TEXT NOT NULL,
    created_at TEXT NOT NULL
);
CREATE TABLE handoff_contracts (
    id TEXT PRIMARY KEY,
    from_work_unit_id TEXT NOT NULL,
    to_work_unit_id TEXT NOT NULL,
    required_artifact_ids TEXT NOT NULL,
    required_state TEXT,
    checklist TEXT NOT NULL,
    owner_agent_id TEXT,
    accepted_by_agent_id TEXT,
    status TEXT NOT NULL,
    notes TEXT,
    required_changes TEXT NOT NULL,
    created_at TEXT NOT NULL,
    updated_at TEXT NOT NULL,
    UNIQUE (from_work_unit_id, to_work_unit_id)
);
CREATE TABLE task_complexity_hints (
    task_id TEXT PRIMARY KEY,
    score INTEGER NOT NULL,
    recommended_subtasks INTEGER NOT NULL,
    expansion_hint TEXT NOT NULL,
    reasoning TEXT NOT NULL,
    generated_at TEXT NOT NULL,
    batch_id TEXT NOT NULL
);
";

/// A database in memory, asked through the library's queries.
struct Db {
    runtime: tokio::runtime::Runtime,
    pool: SqlitePool,
}

impl Db {
    fn open() -> Db {
        let runtime = tokio::runtime::Builder::new_current_thread().enable_all().build().unwrap();
        let pool = runtime.block_on(async {
            let pool = SqlitePoolOptions::new()
                .max_connections(1)
                .connect("sqlite::memory:")
                .await
                .unwrap();
            sqlx::raw_sql(SCHEMA).execute(&pool).await.unwrap();
            pool
        });
        Db { runtime, pool }
    }

    fn arguments(&self, binds: Vec<Bound>) -> SqliteArguments<'static> {
        let mut arguments = SqliteArguments::default();
        for bound in binds {
            match bound {
                Bound::Null => arguments.add(None::<String>),
                Bound::Text(s) => arguments.add(s),
                Bound::Int(n) => arguments.add(n),
                Bound::Bool(b) => arguments.add(b),
                Bound::Actor(a) => arguments.add(actor_to_json(&a)),
                Bound::TaskIds(ids) => arguments.add(task_ids_to_json(&ids)),
                Bound::Steps(steps) => arguments.add(steps_to_json(&steps)),
                other => panic!("not bound here: {other:?}"),
            }
            .unwrap();
        }
        arguments
    }

    fn execute(&self, query: Query) -> Result<SqliteQueryResult, sqlx::Error> {
        let arguments = self.arguments(query.binds);
        self.runtime.block_on(sqlx::query_with(&query.sql, arguments).execute(&self.pool))
    }

    /// Runs a statement, and says how many rows it changed.
    fn run(&self, query: Query) -> u64 {
        self.execute(query).unwrap().rows_affected()
    }

    fn fetch(&self, query: Query) -> Vec<SqliteRow> {
        let arguments = self.arguments(query.binds);
        self.runtime
            .block_on(sqlx::query_with(&query.sql, arguments).fetch_all(&self.pool))
            .unwrap()
    }

    fn rows<R: ReadRow>(&self, query: Query) -> Vec<R> {
        self.fetch(query).iter().map(|row| R::read(row, self)).collect()
    }

    fn row<R: ReadRow>(&self, query: Query) -> Option<R> {
        self.rows(query).pop()
    }

    fn list<R: ReadRow + Decode>(&self, query: Query) -> Vec<R::Record> {
        decode_all(self.rows::<R>(query)).unwrap()
    }

    fn find<R: ReadRow + Decode>(&self, query: Query) -> Option<R::Record> {
        decode_optional(self.row::<R>(query)).unwrap()
    }

    fn actor_from_json(&self, json: &str) -> Result<Actor, String> {
        let value: serde_json::Value = serde_json::from_str(json).map_err(|e| e.to_string())?;
        match value["kind"].as_str() {
            Some("user") => Ok(Actor::User),
            Some("agent") => Ok(Actor::Agent {
                id: parse_id(value["id"].as_str().unwrap()).unwrap(),
                name: value["name"].as_str().unwrap().to_string(),
            }),
            _ => Err("no actor".to_string()),
        }
    }

    fn task_ids_from_json(&self, json: &str) -> Result<Vec<TaskId>, String> {
        let texts: Vec<String> = serde_json::from_str(json).map_err(|e| e.to_string())?;
        Ok(texts.iter().map(|text| parse_id(text).unwrap()).collect())
    }

    fn steps_from_json(&self, json: &str) -> Result<Vec<AgentSessionPlanStep>, String> {
        let steps: Vec<(String, String)> = serde_json::from_str(json).map_err(|e| e.to_string())?;
        let status = |text: &str| match text {
            "pending" => SessionStepStatus::Pending,
            "in_progress" => SessionStepStatus::InProgress,
            _ => SessionStepStatus::Completed,
        };
        Ok(steps
            .into_iter()
            .map(|(content, text)| AgentSessionPlanStep { content, status: status(&text) })
            .collect())
    }

    fn plan(&self, id: PlanId) -> Option<Plan> {
        self.find::<PlanRow>(PlanRepo::get(&id))
    }

    fn apply_plan_event(&self, payload: Event) {
        let envelope = env(Actor::User, payload);
        match PlanRepo::apply_event(&envelope) {
            PlanStep::Run { statements } => {
                for statement in statements {
                    self.run(statement);
                }
            }
            PlanStep::Update { load } => {
                let mut found = self.find::<PlanRow>(load);
                if let (Some(plan), Event::PlanUpdated { patch, .. }) =
                    (&mut found, &envelope.payload)
                {
                    if let Some(title) = &patch.title {
                        plan.title = title.clone();
                    }
                }
                if let Some(write) = PlanRepo::loaded(&found) {
                    self.run(write);
                }
            }
        }
    }

    fn counts(&self, plan_id: PlanId) -> PlanCounts {
        let (tasks, sub_plans) = PlanRepo::get_progress(&plan_id);
        PlanCounts::read(
            self.row::<TaskCountRow>(tasks).unwrap(),
            self.row::<SubPlanCountRow>(sub_plans).unwrap(),
        )
        .unwrap()
    }

    fn add_task(&self, plan_id: PlanId, task_id: TaskId, position: u32) {
        let task = PlanTask { plan_id, task_id, position, depends_on: vec![] };
        self.run(PlanRepo::add_task(&task));
    }

    fn plan_tasks(&self, plan_id: PlanId) -> Vec<PlanTask> {
        self.list::<PlanTaskRow>(PlanRepo::list_tasks_ordered(&plan_id))
    }

    fn the_run(&self, id: RunId) -> Option<Run> {
        self.find::<RunRow>(RunRepo::get(&id))
    }

    fn apply_run_event(&self, payload: Event) {
        if let Some(query) = RunRepo::apply_event(&env(Actor::User, payload)) {
            self.run(query);
        }
    }

    fn notes(&self, run_id: RunId, limit: u32, after: Option<RunNoteId>) -> Vec<RunNote> {
        let page = match (RunNoteRepo::list_for_run(&run_id, limit, &after), after) {
            (PageStep::Page { select }, _) => Some(select),
            (PageStep::Cursor { select }, Some(after)) => {
                let created_at = self.fetch(select).first().map(|row| column(row, "created_at"));
                RunNoteRepo::page_after(&run_id, limit, &after, created_at).unwrap()
            }
            (PageStep::Cursor { .. }, None) => panic!("no cursor was given"),
        };
        page.map(|select| self.list::<RunNoteRow>(select)).unwrap_or_default()
    }

    fn session(&self, id: AgentSessionId) -> Option<AgentSession> {
        self.find::<SessionRow>(SessionRepo::get(&id))
    }

    fn apply_session_event(&self, payload: Event) {
        if let Some(query) = SessionRepo::apply_event(&env(Actor::User, payload)) {
            self.run(query);
        }
    }

    fn handoff(&self, id: HandoffId) -> Option<HandoffContract> {
        self.find::<HandoffRow>(HandoffRepo::get(&id))
    }

    fn apply_handoff_event(&self, payload: Event) {
        if let Some(query) = HandoffRepo::apply_event(&env(Actor::User, payload)) {
            self.run(query);
        }
    }

    fn hint(&self, task_id: TaskId) -> Option<ComplexityHint> {
        self.find::<HintRow>(TaskComplexityRepo::get(&task_id))
    }
}

fn actor_to_json(actor: &Actor) -> String {
    match actor {
        Actor::User => r#"{"kind":"user"}"#.to_string(),
        Actor::Agent { id, name } => {
            format!(r#"{{"kind":"agent","id":"{}","name":"{name}"}}"#, print_id(id))
        }
    }
}

fn fresh<I: TypedId>() -> I {
    I::from_uuid(uuid::Uuid::new_v4().as_u128())
}

fn now() -> Timestamp {
    let now = chrono::Utc::now();
    Timestamp::new(now.timestamp(), now.timestamp_subsec_nanos()).unwrap()
}

fn env(actor: Actor, payload: Event) -> EventEnvelope {
    EventEnvelope::new(fresh(), now(), actor, payload)
}

/// A row that the library reads.
trait ReadRow: Sized {
    fn read(row: &SqliteRow, db: &Db) -> Self;
}

/// A column, or the driver's message.
fn column<'r, T>(row: &'r SqliteRow, name: &str) -> Column<T>
where
    T: sqlx::Decode<'r, Sqlite> + sqlx::Type<Sqlite>,
{
    row.try_get(name).map_err(|e| e.to_string())
}

/// A column of JSON text, and what it is read into.
fn json<T>(
    row: &SqliteRow,
    name: &str,
    read: impl Fn(&str) -> Parsed<T>,
) -> Column<Parsed<T>> {
    column::<String>(row, name).map(|s| read(&s))
}

impl ReadRow for PlanRow {
    fn read(row: &SqliteRow, db: &Db) -> PlanRow {
        PlanRow {
            id: column(row, "id"),
            project_id: column(row, "project_id"),
            parent_plan_id: column(row, "parent_plan_id"),
            title: column(row, "title"),
            description: column(row, "description"),
            goal: column(row, "goal"),
            success_criteria_json: column(row, "success_criteria_json"),
            status: column(row, "status"),
            owner_json: json(row, "owner_json", |s| db.actor_from_json(s)),
            created_at: column(row, "created_at"),
            updated_at: column(row, "updated_at"),
            archived_at: column(row, "archived_at"),
            source_brief: column(row, "source_brief"),
        }
    }
}

impl ReadRow for PlanTaskRow {
    fn read(row: &SqliteRow, db: &Db) -> PlanTaskRow {
        PlanTaskRow {
            plan_id: column(row, "plan_id"),
            task_id: column(row, "task_id"),
            position: column(row, "position"),
            depends_on_json: json(row, "depends_on_json", |s| db.task_ids_from_json(s)),
        }
    }
}

impl ReadRow for TaskCountRow {
    fn read(row: &SqliteRow, _db: &Db) -> TaskCountRow {
        TaskCountRow {
            tasks_total: column(row, "tasks_total"),
            tasks_done: column(row, "tasks_done"),
        }
    }
}

impl ReadRow for SubPlanCountRow {
    fn read(row: &SqliteRow, _db: &Db) -> SubPlanCountRow {
        SubPlanCountRow {
            sub_plans_total: column(row, "sub_plans_total"),
            sub_plans_done: column(row, "sub_plans_done"),
        }
    }
}

impl ReadRow for SummaryRow {
    fn read(row: &SqliteRow, _db: &Db) -> SummaryRow {
        SummaryRow {
            total: column(row, "total"),
            done: column(row, "done"),
            in_progress: column(row, "in_progress"),
            todo: column(row, "todo"),
        }
    }
}

impl ReadRow for RunRow {
    fn read(row: &SqliteRow, _db: &Db) -> RunRow {
        RunRow {
            id: column(row, "id"),
            plan_id: column(row, "plan_id"),
            agent_id: column(row, "agent_id"),
            parent_run_id: column(row, "parent_run_id"),
            started_at: column(row, "started_at"),
            ended_at: column(row, "ended_at"),
            status: column(row, "status"),
            outcome: column(row, "outcome"),
            last_activity_at: column(row, "last_activity_at"),
            unresponsive_at: column(row, "unresponsive_at"),
            stale_at: column(row, "stale_at"),
        }
    }
}

impl ReadRow for RunIdRow {
    fn read(row: &SqliteRow, _db: &Db) -> RunIdRow {
        RunIdRow {
            id: column(row, "id"),
        }
    }
}

impl ReadRow for RunNoteRow {
    fn read(row: &SqliteRow, db: &Db) -> RunNoteRow {
        RunNoteRow {
            id: column(row, "id"),
            run_id: column(row, "run_id"),
            body: column(row, "body"),
            author_json: json(row, "author_json", |s| db.actor_from_json(s)),
            created_at: column(row, "created_at"),
        }
    }
}

impl ReadRow for SessionRow {
    fn read(row: &SqliteRow, db: &Db) -> SessionRow {
        SessionRow {
            id: column(row, "id"),
            agent_id: column(row, "agent_id"),
            parent_agent_id: column(row, "parent_agent_id"),
            started_at: column(row, "started_at"),
            ended_at: column(row, "ended_at"),
            metadata_json: column(row, "metadata_json"),
            plan_steps_json: json(row, "plan_steps_json", |s| db.steps_from_json(s)),
        }
    }
}

impl ReadRow for SessionArtifactRow {
    fn read(row: &SqliteRow, _db: &Db) -> SessionArtifactRow {
        SessionArtifactRow {
            id: column(row, "id"),
            session_id: column(row, "session_id"),
            kind: column(row, "kind"),
            reference: column(row, "ref"),
            metadata_json: column(row, "metadata_json"),
            created_at: column(row, "created_at"),
        }
    }
}

impl ReadRow for HandoffRow {
    fn read(row: &SqliteRow, _db: &Db) -> HandoffRow {
        HandoffRow {
            id: column(row, "id"),
            from_work_unit_id: column(row, "from_work_unit_id"),
            to_work_unit_id: column(row, "to_work_unit_id"),
            required_artifact_ids: column(row, "required_artifact_ids"),
            required_state: column(row, "required_state"),
            checklist: column(row, "checklist"),
            owner_agent_id: column(row, "owner_agent_id"),
            accepted_by_agent_id: column(row, "accepted_by_agent_id"),
            status: column(row, "status"),
            notes: column(row, "notes"),
            required_changes: column(row, "required_changes"),
            created_at: column(row, "created_at"),
            updated_at: column(row, "updated_at"),
        }
    }
}

impl ReadRow for HintRow {
    fn read(row: &SqliteRow, _db: &Db) -> HintRow {
        HintRow {
            task_id: column(row, "task_id"),
            score: column(row, "score"),
            recommended_subtasks: column(row, "recommended_subtasks"),
            expansion_hint: column(row, "expansion_hint"),
            reasoning: column(row, "reasoning"),
            generated_at: column(row, "generated_at"),
            batch_id: column(row, "batch_id"),
        }
    }
}

fn task_ids_to_json(ids: &[TaskId]) -> String {
    let texts: Vec<String> = ids.iter().map(print_id).collect();
    serde_json::to_string(&texts).unwrap()
}

fn steps_to_json(steps: &[AgentSessionPlanStep]) -> String {
    let steps: Vec<(&str, &str)> = steps
        .iter()
        .map(|step| {
            let status = match step.status {
                SessionStepStatus::Pending => "pending",
                SessionStepStatus::InProgress => "in_progress",
                SessionStepStatus::Completed => "completed",
            };
            (step.content.as_str(), status)
        })
        .collect();
    serde_json::to_string(&steps).unwrap()
}

// ── plans ────────────────────────────────────────────────────────────────────

fn make_plan(id: PlanId, project_id: ProjectId) -> Plan {
    let at = now();
    Plan {
        id,
        project_id,
        parent_plan_id: None,
        title: "Test plan".to_string(),
        description: "desc".to_string(),
        goal: "goal".to_string(),
        success_criteria: vec!["c1".to_string()],
        status: PlanStatus::Draft,
        owner: Actor::User,
        created_at: at,
        updated_at: at,
        archived_at: None,
        source_brief: None,
    }
}

#[test]
fn plan_insert_and_get() {
    let db = Db::open();
    let plan = make_plan(fresh(), fresh());
    db.run(PlanRepo::insert(&plan));

    let fetched = db.plan(plan.id).expect("plan should exist");
    assert_eq!(fetched.id, plan.id);
    assert_eq!(fetched.title, "Test plan");
    assert_eq!(fetched.status, PlanStatus::Draft);
    assert_eq!(fetched, plan);
}

#[test]
fn plan_list_by_project_with_status_filter() {
    let db = Db::open();
    let project_id: ProjectId = fresh();
    let mut p1 = make_plan(fresh(), project_id);
    p1.status = PlanStatus::Active;
    let p2 = make_plan(fresh(), project_id);
    db.run(PlanRepo::insert(&p1));
    db.run(PlanRepo::insert(&p2));

    let filter = Some(PlanStatus::Active);
    let active = db.list::<PlanRow>(PlanRepo::list_by_project(&project_id, &filter));
    assert_eq!(active.len(), 1);
    assert_eq!(active[0].id, p1.id);

    let all = db.list::<PlanRow>(PlanRepo::list_by_project(&project_id, &None));
    assert_eq!(all.len(), 2);
    assert_eq!(db.list::<PlanRow>(PlanRepo::list_all(&filter)).len(), 1);
    assert_eq!(db.list::<PlanRow>(PlanRepo::list_all(&None)).len(), 2);
}

#[test]
fn plan_list_children() {
    let db = Db::open();
    let project_id: ProjectId = fresh();
    let parent = make_plan(fresh(), project_id);
    db.run(PlanRepo::insert(&parent));
    let mut child = make_plan(fresh(), project_id);
    child.parent_plan_id = Some(parent.id);
    db.run(PlanRepo::insert(&child));

    let children = db.list::<PlanRow>(PlanRepo::list_children(&parent.id));
    assert_eq!(children.len(), 1);
    assert_eq!(children[0].id, child.id);
}

#[test]
fn plan_task_add_remove_reorder() {
    let db = Db::open();
    let plan_id: PlanId = fresh();
    db.run(PlanRepo::insert(&make_plan(plan_id, fresh())));
    let t1: TaskId = fresh();
    let t2: TaskId = fresh();
    let t3: TaskId = fresh();
    db.add_task(plan_id, t1, 0);
    db.add_task(plan_id, t2, 1);
    db.add_task(plan_id, t3, 2);

    let tasks = db.plan_tasks(plan_id);
    assert_eq!(tasks.len(), 3);
    assert_eq!(tasks[0].task_id, t1);

    for query in PlanRepo::reorder(&plan_id, &vec![t3, t1, t2]) {
        db.run(query);
    }
    let reordered = db.plan_tasks(plan_id);
    assert_eq!(reordered[0].task_id, t3);
    assert_eq!(reordered[1].task_id, t1);

    db.run(PlanRepo::remove_task(&plan_id, &t2));
    assert_eq!(db.plan_tasks(plan_id).len(), 2);
    let plans = db.list::<PlanRow>(PlanRepo::list_plans_for_task(&t1));
    assert_eq!(plans.len(), 1);
    assert_eq!(plans[0].id, plan_id);
}

#[test]
fn plan_progress_computed() {
    let db = Db::open();
    let plan_id: PlanId = fresh();
    db.run(PlanRepo::insert(&make_plan(plan_id, fresh())));

    let before = db.counts(plan_id);
    assert_eq!(before.tasks_total, 0);
    assert_eq!(before.completion(), (0, 0));

    let t1: TaskId = fresh();
    db.add_task(plan_id, t1, 0);
    let after = db.counts(plan_id);
    assert_eq!(after.tasks_total, 1);
    assert_eq!(after.tasks_done, 0);

    // One of two tasks and one of one plan are done: two of three.
    let t2: TaskId = fresh();
    db.add_task(plan_id, t2, 1);
    db.run(Query::new("INSERT INTO tasks (id, status) VALUES (?, 'done')").id(&t1));
    db.run(Query::new("INSERT INTO tasks (id, status) VALUES (?, 'todo')").id(&t2));
    let mut child = make_plan(fresh(), fresh());
    child.parent_plan_id = Some(plan_id);
    child.status = PlanStatus::Completed;
    db.run(PlanRepo::insert(&child));
    let done = db.counts(plan_id);
    assert_eq!(done.completion(), (3, 2));
    assert_eq!(
        done.reported(),
        ReportedCounts { tasks_total: 2, tasks_done: 1, sub_plans_total: 1, sub_plans_done: 1 }
    );

    let row = db.row::<SummaryRow>(PlanRepo::get_progress_summary(&plan_id)).unwrap();
    let summary = read_summary(row).unwrap();
    assert_eq!((summary.total, summary.done, summary.in_progress, summary.todo), (2, 1, 0, 1));
    assert_eq!(summary.next_ready, None);
}

#[test]
fn plan_apply_event_plan_created() {
    let db = Db::open();
    let plan = make_plan(fresh(), fresh());
    let plan_id = plan.id;
    db.apply_plan_event(Event::PlanCreated { plan });
    let fetched = db.plan(plan_id).expect("plan should exist");
    assert_eq!(fetched.id, plan_id);
}

#[test]
fn plan_apply_event_status_changed() {
    let db = Db::open();
    let plan = make_plan(fresh(), fresh());
    let plan_id = plan.id;
    db.run(PlanRepo::insert(&plan));
    let changed =
        Event::PlanStatusChanged { plan_id, from: PlanStatus::Draft, to: PlanStatus::Active };
    db.apply_plan_event(changed);
    assert_eq!(db.plan(plan_id).unwrap().status, PlanStatus::Active);
}

#[test]
fn plan_apply_event_task_added_and_archived() {
    let db = Db::open();
    let plan = make_plan(fresh(), fresh());
    let plan_id = plan.id;
    db.run(PlanRepo::insert(&plan));

    let task_id: TaskId = fresh();
    let needed: TaskId = fresh();
    let added =
        Event::PlanTaskAdded { plan_id, task_id, position: 0, depends_on: vec![needed] };
    db.apply_plan_event(added);
    let tasks = db.plan_tasks(plan_id);
    assert_eq!(tasks.len(), 1);
    assert_eq!(tasks[0].task_id, task_id);
    assert_eq!(tasks[0].depends_on, vec![needed]);

    db.apply_plan_event(Event::PlanArchived { plan_id, at: now() });
    assert!(db.plan(plan_id).unwrap().archived_at.is_some());
}

#[test]
fn the_other_plan_events_change_what_they_name() {
    let db = Db::open();
    let plan = make_plan(fresh(), fresh());
    let plan_id = plan.id;
    db.run(PlanRepo::insert(&plan));
    let goal =
        Event::PlanGoalChanged { plan_id, from: "goal".to_string(), to: "aim".to_string() };
    db.apply_plan_event(goal);
    let patch = PlanPatch {
        title: Some("Renamed".to_string()),
        description: None,
        goal: None,
        success_criteria: None,
        parent_plan_id: None,
    };
    db.apply_plan_event(Event::PlanUpdated { plan_id, patch });
    let fetched = db.plan(plan_id).unwrap();
    assert_eq!((fetched.title.as_str(), fetched.goal.as_str()), ("Renamed", "aim"));

    let (t1, t2): (TaskId, TaskId) = (fresh(), fresh());
    db.add_task(plan_id, t1, 0);
    db.add_task(plan_id, t2, 1);
    db.apply_plan_event(Event::PlanReordered { plan_id, order: vec![t2, t1] });
    assert_eq!(db.plan_tasks(plan_id)[0].task_id, t2);
    db.apply_plan_event(Event::PlanTaskRemoved { plan_id, task_id: t2 });
    assert_eq!(db.plan_tasks(plan_id).len(), 1);

    db.run(PlanRepo::update_status(&plan_id, PlanStatus::Abandoned, &now()));
    assert_eq!(db.plan(plan_id).unwrap().status, PlanStatus::Abandoned);
    db.run(PlanRepo::archive(&plan_id, &now()));
    assert!(db.plan(plan_id).unwrap().archived_at.is_some());
}

#[test]
fn a_bad_plan_status_is_reported() {
    let db = Db::open();
    let plan = make_plan(fresh(), fresh());
    db.run(PlanRepo::insert(&plan));
    db.run(Query::new("UPDATE plans SET status = 'nonsense'"));
    let row = db.row::<PlanRow>(PlanRepo::get(&plan.id));
    assert_eq!(
        decode_optional(row),
        Err(CoreError::Serde("unknown plan status: nonsense".to_string()))
    );
}

// ── runs ─────────────────────────────────────────────────────────────────────

fn make_run(id: RunId, plan_id: PlanId) -> Run {
    Run {
        id,
        plan_id,
        agent_id: fresh(),
        parent_run_id: None,
        started_at: now(),
        ended_at: None,
        status: RunStatus::Active,
        outcome: None,
        last_activity_at: None,
        unresponsive_at: None,
        stale_at: None,
    }
}

#[test]
fn run_start_and_get() {
    let db = Db::open();
    let run = make_run(fresh(), fresh());
    db.run(RunRepo::start(&run));

    let fetched = db.the_run(run.id).expect("run should exist");
    assert_eq!(fetched.id, run.id);
    assert_eq!(fetched.status, RunStatus::Active);
    assert!(fetched.ended_at.is_none());
    // A new run is heard of when it starts.
    assert_eq!(fetched.last_activity_at, Some(run.started_at));
}

#[test]
fn run_list_by_plan_and_active_filter() {
    let db = Db::open();
    let plan_id: PlanId = fresh();
    let r1 = make_run(fresh(), plan_id);
    let mut r2 = make_run(fresh(), plan_id);
    r2.status = RunStatus::Completed;
    r2.ended_at = Some(now());
    db.run(RunRepo::start(&r1));
    db.run(RunRepo::start(&r2));

    assert_eq!(db.list::<RunRow>(RunRepo::list_by_plan(&plan_id)).len(), 2);
    let active = db.list::<RunRow>(RunRepo::list_active_for_plan(&plan_id));
    assert_eq!(active.len(), 1);
    assert_eq!(active[0].id, r1.id);
}

#[test]
fn run_complete_updates_status() {
    let db = Db::open();
    let run = make_run(fresh(), fresh());
    db.run(RunRepo::start(&run));
    db.run(RunRepo::complete(&run.id, &now()));

    let fetched = db.the_run(run.id).unwrap();
    assert_eq!(fetched.status, RunStatus::Completed);
    assert!(fetched.ended_at.is_some());
    assert_eq!(fetched.outcome.as_deref(), Some("done"));
}

#[test]
fn run_abort_updates_status_and_reason() {
    let db = Db::open();
    let run = make_run(fresh(), fresh());
    db.run(RunRepo::start(&run));
    db.run(RunRepo::abort(&run.id, "plan archived", &now()));

    let fetched = db.the_run(run.id).unwrap();
    assert_eq!(fetched.status, RunStatus::Aborted);
    assert_eq!(fetched.outcome.as_deref(), Some("plan archived"));
}

#[test]
fn run_apply_event_started() {
    let db = Db::open();
    let run = make_run(fresh(), fresh());
    let run_id = run.id;
    db.apply_run_event(Event::RunStarted { run });
    let fetched = db.the_run(run_id).expect("run should exist");
    assert_eq!(fetched.status, RunStatus::Active);
}

#[test]
fn run_apply_event_aborted() {
    let db = Db::open();
    let run = make_run(fresh(), fresh());
    let run_id = run.id;
    db.run(RunRepo::start(&run));
    let reason = "stop requested".to_string();
    db.apply_run_event(Event::RunAborted { run_id, reason, at: now() });
    assert_eq!(db.the_run(run_id).unwrap().status, RunStatus::Aborted);
}

#[test]
fn silent_runs_are_found_and_marked_once() {
    let db = Db::open();
    let at = now();
    let mut run = make_run(fresh(), fresh());
    run.started_at = at.earlier(600, 0).unwrap();
    let run_id = run.id;
    db.run(RunRepo::start(&run));

    let cutoff = RunRepo::cutoff(300, 0, &at).unwrap();
    assert_eq!(cutoff, at.earlier(300, 0).unwrap());
    let silent = |cutoff| db.list::<RunIdRow>(RunRepo::list_unresponsive_candidates(&cutoff));
    assert_eq!(silent(cutoff), vec![run_id]);
    assert!(silent(RunRepo::cutoff(900, 0, &at).unwrap()).is_empty());
    // A threshold that cannot be counted is none.
    assert_eq!(RunRepo::cutoff(u64::MAX, 0, &at), Some(at));

    db.apply_run_event(Event::RunUnresponsive { run_id, at });
    db.apply_run_event(Event::RunUnresponsive { run_id, at: at.later(5, 0).unwrap() });
    assert_eq!(db.the_run(run_id).unwrap().unresponsive_at, Some(at));
    assert!(silent(cutoff).is_empty());

    let heard = at.earlier(400, 0).unwrap();
    let rest = "{\"step\":1}".to_string();
    db.apply_run_event(Event::RunStepStarted { run_id, at: heard, rest });
    assert_eq!(db.the_run(run_id).unwrap().last_activity_at, Some(heard));
    let stale = |cutoff| db.list::<RunIdRow>(RunRepo::list_stale_candidates(&cutoff));
    assert_eq!(stale(cutoff), vec![run_id]);
    db.apply_run_event(Event::RunStale { run_id, at });
    assert_eq!(db.the_run(run_id).unwrap().stale_at, Some(at));
    assert!(stale(cutoff).is_empty());

    let reason = "broken".to_string();
    db.apply_run_event(Event::RunFailed { run_id, reason, at });
    assert_eq!(db.the_run(run_id).unwrap().outcome.as_deref(), Some("broken"));
    assert_eq!(RunRepo::current_step_task(&run_id), None);
}

// ── run notes ────────────────────────────────────────────────────────────────

fn note_at(run_id: RunId, body: &str, created_at: Timestamp) -> RunNote {
    RunNote { id: fresh(), run_id, body: body.to_string(), author: Actor::User, created_at }
}

#[test]
fn run_note_repo_upsert_and_get() {
    let db = Db::open();
    let note = note_at(fresh(), "first observation", now());
    db.run(RunNoteRepo::upsert(&note));
    let got = db.find::<RunNoteRow>(RunNoteRepo::get(&note.id)).unwrap();
    assert_eq!(got, note);
}

#[test]
fn apply_event_persists_note() {
    let db = Db::open();
    let run_id: RunId = fresh();
    let note_id: RunNoteId = fresh();
    let appended = Event::RunNoteAppended {
        run_id,
        note_id,
        body: "hello".to_string(),
        by_actor: Actor::Agent { id: fresh(), name: "test-agent".to_string() },
        at: now(),
    };
    db.run(RunNoteRepo::apply_event(&env(Actor::User, appended)).unwrap());

    let notes = db.notes(run_id, 50, None);
    assert_eq!(notes.len(), 1);
    assert_eq!(notes[0].id, note_id);
    assert_eq!(notes[0].body, "hello");
    assert!(matches!(notes[0].author, Actor::Agent { .. }));
}

#[test]
fn list_returns_chronological_order() {
    let db = Db::open();
    let run_id: RunId = fresh();
    let base = now();
    for i in 0..3 {
        let note = note_at(run_id, &format!("note {i}"), base.later(i, 0).unwrap());
        db.run(RunNoteRepo::upsert(&note));
    }
    let notes = db.notes(run_id, 50, None);
    assert_eq!(notes.len(), 3);
    assert_eq!(notes[0].body, "note 0");
    assert_eq!(notes[1].body, "note 1");
    assert_eq!(notes[2].body, "note 2");
}

#[test]
fn list_paginates_via_after_cursor() {
    let db = Db::open();
    let run_id: RunId = fresh();
    let base = now();
    for i in 0..5 {
        let note = note_at(run_id, &format!("note {i}"), base.later(i, 0).unwrap());
        db.run(RunNoteRepo::upsert(&note));
    }

    let page1 = db.notes(run_id, 2, None);
    assert_eq!(page1.len(), 2);
    assert_eq!(page1[0].body, "note 0");
    assert_eq!(page1[1].body, "note 1");

    let page2 = db.notes(run_id, 2, Some(page1[1].id));
    assert_eq!(page2.len(), 2);
    assert_eq!(page2[0].body, "note 2");
    assert_eq!(page2[1].body, "note 3");

    let page3 = db.notes(run_id, 2, Some(page2[1].id));
    assert_eq!(page3.len(), 1);
    assert_eq!(page3[0].body, "note 4");

    // A cursor of another run leads nowhere; a page holds one note at least.
    assert!(db.notes(fresh(), 2, Some(page1[0].id)).is_empty());
    assert_eq!(db.notes(run_id, 0, None).len(), 1);
}

#[test]
fn list_for_unknown_run_is_empty() {
    let db = Db::open();
    assert!(db.notes(fresh(), 50, None).is_empty());
}

// ── sessions ─────────────────────────────────────────────────────────────────

fn make_session(id: AgentSessionId, agent_id: AgentId) -> AgentSession {
    AgentSession {
        id,
        agent_id,
        parent_agent_id: None,
        started_at: now(),
        ended_at: None,
        plan_steps: vec![],
        metadata: parse_json("{}").unwrap(),
    }
}

fn step(content: &str, status: SessionStepStatus) -> AgentSessionPlanStep {
    AgentSessionPlanStep { content: content.to_string(), status }
}

#[test]
fn session_start_and_get() {
    let db = Db::open();
    let session = make_session(fresh(), fresh());
    db.run(SessionRepo::start(&session));

    let fetched = db.session(session.id).expect("session exists");
    assert_eq!(fetched.id, session.id);
    assert_eq!(fetched.agent_id, session.agent_id);
    assert!(fetched.ended_at.is_none());
    assert_eq!(fetched, session);
}

#[test]
fn session_list_for_agent() {
    let db = Db::open();
    let agent_id: AgentId = fresh();
    let other_agent: AgentId = fresh();
    db.run(SessionRepo::start(&make_session(fresh(), agent_id)));
    db.run(SessionRepo::start(&make_session(fresh(), agent_id)));
    db.run(SessionRepo::start(&make_session(fresh(), other_agent)));

    assert_eq!(db.list::<SessionRow>(SessionRepo::list_for_agent(&agent_id)).len(), 2);
    assert_eq!(db.list::<SessionRow>(SessionRepo::list_for_agent(&other_agent)).len(), 1);
}

#[test]
fn session_update_plan_steps() {
    let db = Db::open();
    let session = make_session(fresh(), fresh());
    db.run(SessionRepo::start(&session));
    let steps = vec![
        step("step 1", SessionStepStatus::InProgress),
        step("step 2", SessionStepStatus::Pending),
    ];
    db.run(SessionRepo::update_plan_steps(&session.id, &steps));

    let fetched = db.session(session.id).unwrap();
    assert_eq!(fetched.plan_steps.len(), 2);
    assert_eq!(fetched.plan_steps[0].content, "step 1");
    assert_eq!(fetched.plan_steps[0].status, SessionStepStatus::InProgress);
}

#[test]
fn session_apply_event_started_and_ended() {
    let db = Db::open();
    let session = make_session(fresh(), fresh());
    let session_id = session.id;
    db.apply_session_event(Event::AgentSessionStarted { session });
    let fetched = db.session(session_id).expect("session exists");
    assert!(fetched.ended_at.is_none());

    db.apply_session_event(Event::AgentSessionEnded { session_id, at: now() });
    assert!(db.session(session_id).unwrap().ended_at.is_some());
}

#[test]
fn session_apply_event_plan_updated() {
    let db = Db::open();
    let session = make_session(fresh(), fresh());
    let session_id = session.id;
    db.run(SessionRepo::start(&session));
    let steps = vec![step("do the thing", SessionStepStatus::Pending)];
    db.apply_session_event(Event::AgentSessionPlanUpdated { session_id, steps });

    let fetched = db.session(session_id).unwrap();
    assert_eq!(fetched.plan_steps.len(), 1);
    assert_eq!(fetched.plan_steps[0].content, "do the thing");
}

#[test]
fn session_artifact_apply_event_and_list() {
    let db = Db::open();
    let session = make_session(fresh(), fresh());
    db.run(SessionRepo::start(&session));
    let artifact = SessionArtifact {
        id: fresh(),
        session_id: session.id,
        kind: SessionArtifactKind::File,
        reference: "target/report.txt".to_string(),
        metadata: parse_json(r#"{"bytes": 42}"#).unwrap(),
        created_at: now(),
    };
    db.apply_session_event(Event::SessionArtifactAttached { artifact: artifact.clone() });

    let artifacts = db.list::<SessionArtifactRow>(SessionRepo::list_artifacts(&session.id));
    assert_eq!(artifacts, vec![artifact]);
}

// ── handoffs ─────────────────────────────────────────────────────────────────

fn contract(from: WorkUnitId, to: WorkUnitId) -> HandoffContract {
    let at = now();
    HandoffContract {
        id: fresh(),
        from_work_unit_id: from,
        to_work_unit_id: to,
        required_artifact_ids: vec!["artifact://api/dashboard@v1".to_string()],
        required_state: Some("approved".to_string()),
        checklist: vec!["contract published".to_string()],
        owner_agent_id: None,
        accepted_by_agent_id: None,
        status: HandoffStatus::Open,
        notes: None,
        required_changes: vec![],
        created_at: at,
        updated_at: at,
    }
}

#[test]
fn request_accept_roundtrip() {
    let db = Db::open();
    let c = contract(fresh(), fresh());
    let id = c.id;
    db.apply_handoff_event(Event::HandoffRequested { handoff: c.clone() });

    let fetched = db.handoff(id).unwrap();
    assert_eq!(fetched.status, HandoffStatus::Open);
    assert_eq!(fetched.required_artifact_ids.len(), 1);
    assert_eq!(fetched, c);

    let accepted = Event::HandoffAccepted {
        handoff_id: id,
        by: None,
        notes: Some("looks complete".to_string()),
        at: now(),
    };
    db.apply_handoff_event(accepted);
    let fetched = db.handoff(id).unwrap();
    assert_eq!(fetched.status, HandoffStatus::Accepted);
    assert_eq!(fetched.notes.as_deref(), Some("looks complete"));
}

#[test]
fn reject_then_rerequest_reopens_same_row() {
    let db = Db::open();
    let (from, to): (WorkUnitId, WorkUnitId) = (fresh(), fresh());
    let c = contract(from, to);
    let id = c.id;
    db.apply_handoff_event(Event::HandoffRequested { handoff: c.clone() });
    let rejected = Event::HandoffRejected {
        handoff_id: id,
        reason: "missing error cases".to_string(),
        required_changes: vec!["add 4xx handling".to_string()],
        at: now(),
    };
    db.apply_handoff_event(rejected);
    let fetched = db.handoff(id).unwrap();
    assert_eq!(fetched.status, HandoffStatus::Rejected);
    assert_eq!(fetched.required_changes, vec!["add 4xx handling"]);

    let mut revised = c;
    revised.checklist.push("4xx handling covered".to_string());
    db.apply_handoff_event(Event::HandoffRequested { handoff: revised });
    let fetched = db.handoff(id).unwrap();
    assert_eq!(fetched.status, HandoffStatus::Open);
    assert_eq!(fetched.checklist.len(), 2);
    assert!(fetched.required_changes.is_empty());

    let by_pair = db.find::<HandoffRow>(HandoffRepo::get_by_pair(&from, &to)).unwrap();
    assert_eq!(by_pair.id, id);
    assert_eq!(db.list::<HandoffRow>(HandoffRepo::list_for_work_unit(&to)).len(), 1);
}

// ── complexity ───────────────────────────────────────────────────────────────

fn sample_hint(task_id: TaskId, batch_id: &str, score: u8) -> ComplexityHint {
    ComplexityHint {
        task_id,
        score,
        recommended_subtasks: 3,
        expansion_hint: "decompose into setup/work/verify".to_string(),
        reasoning: "moderate scope".to_string(),
        generated_at: now(),
        batch_id: batch_id.to_string(),
    }
}

#[test]
fn task_complexity_repo_upsert_and_get() {
    let db = Db::open();
    let task_id: TaskId = fresh();
    let hint = sample_hint(task_id, "batch-1", 5);
    db.run(TaskComplexityRepo::upsert(&hint));
    let got = db.hint(task_id).unwrap();
    assert_eq!(got.task_id, task_id);
    assert_eq!(got.score, 5);
    assert_eq!(got.batch_id, "batch-1");
    assert_eq!(got, hint);
}

#[test]
fn upsert_overwrites_previous_row() {
    let db = Db::open();
    let task_id: TaskId = fresh();
    db.run(TaskComplexityRepo::upsert(&sample_hint(task_id, "batch-1", 3)));
    db.run(TaskComplexityRepo::upsert(&sample_hint(task_id, "batch-2", 8)));
    let got = db.hint(task_id).unwrap();
    assert_eq!(got.score, 8);
    assert_eq!(got.batch_id, "batch-2");
}

#[test]
fn upsert_batch_inserts_all_rows() {
    let db = Db::open();
    let (a, b, c): (TaskId, TaskId, TaskId) = (fresh(), fresh(), fresh());
    let batch = vec![sample_hint(a, "B", 1), sample_hint(b, "B", 5), sample_hint(c, "B", 9)];
    for query in TaskComplexityRepo::upsert_batch(&batch) {
        db.run(query);
    }
    assert_eq!(db.hint(a).unwrap().score, 1);
    assert_eq!(db.hint(b).unwrap().score, 5);
    assert_eq!(db.hint(c).unwrap().score, 9);

    let plan_id: PlanId = fresh();
    db.add_task(plan_id, b, 0);
    let of_plan = db.list::<HintRow>(TaskComplexityRepo::list_by_plan(&plan_id));
    assert_eq!(of_plan.len(), 1);
    assert_eq!(of_plan[0].task_id, b);
}

#[test]
fn get_unknown_task_is_none() {
    let db = Db::open();
    assert!(db.hint(fresh()).is_none());
}

#[test]
fn empty_batch_is_noop() {
    assert!(TaskComplexityRepo::upsert_batch(&vec![]).is_empty());
}
