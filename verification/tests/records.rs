//! Tasks, documents, their versions and the feed of activity, against SQLite.

use daruma_storage::activity_repo::{
    ActivityRepo, ActivityRow, ActivityStep, Backfill, ProjectIdRow, BACKFILL_BATCH,
};
use daruma_storage::document_repo::{DocumentRepo, DocumentRow, DocumentStep};
use daruma_storage::domain::{
    Activity, Actor, Comment, Document, DocumentKind, DocumentStatus, NewTask, Plan, PlanPatch,
    PlanStatus, Priority, RelationKind, Run, RunStatus, Status, Task, TaskPatch, TriageState, Verb,
};
use daruma_storage::entity_version::{
    insert_entity_version, rollback_update, row_to_entity_version, DiffRow, EntityVersion,
    EntityVersionRepo, EntityVersionRow, VersionDraft, VersionStep,
};
use daruma_storage::error::CoreError;
use daruma_storage::event_store::{EventRow, SqliteEventStore};
use daruma_storage::events::{Event, EventEnvelope};
use daruma_storage::ids::{
    parse_id, print_id, print_opt_id, AgentId, CommentId, DocumentId, PlanId, ProjectId,
    RelationId, RunId, TaskId, TypedId,
};
use daruma_storage::json::{parse_json, Json};
use daruma_storage::query::{Bound, Query};
use daruma_storage::rows::{decode_all, decode_optional, Column, Decode, Parsed};
use daruma_storage::task_repo::{DueRow, TaskRepo, TaskRow, TaskStep};
use daruma_storage::time::Timestamp;
use sqlx::sqlite::{
    Sqlite, SqliteArguments, SqlitePool, SqlitePoolOptions, SqliteQueryResult, SqliteRow,
};
use sqlx::{Arguments, Row};
use std::cell::RefCell;

const SCHEMA: &str = "
CREATE TABLE events (
    seq INTEGER PRIMARY KEY AUTOINCREMENT,
    event_id TEXT NOT NULL UNIQUE,
    occurred_at TEXT NOT NULL,
    kind TEXT NOT NULL,
    actor_json TEXT NOT NULL,
    payload_json TEXT NOT NULL,
    origin_device_id TEXT,
    origin_seq INTEGER NOT NULL DEFAULT 0
);
CREATE TABLE tasks (
    id TEXT PRIMARY KEY,
    project_id TEXT,
    title TEXT NOT NULL,
    description TEXT NOT NULL,
    status TEXT NOT NULL,
    priority TEXT NOT NULL,
    due_at TEXT,
    created_at TEXT NOT NULL,
    updated_at TEXT NOT NULL,
    started_at TEXT,
    completed_at TEXT,
    created_by_json TEXT,
    completed_by_json TEXT,
    updated_by_json TEXT,
    updated_event_id TEXT,
    updated_event_seq INTEGER,
    source_event_id TEXT,
    triage_state TEXT
);
CREATE TABLE task_due_notifications (
    task_id TEXT NOT NULL,
    due_at TEXT NOT NULL,
    notified_at TEXT NOT NULL,
    PRIMARY KEY (task_id, due_at)
);
CREATE TABLE documents (
    id TEXT PRIMARY KEY,
    project_id TEXT NOT NULL,
    kind TEXT NOT NULL,
    title TEXT NOT NULL,
    content TEXT NOT NULL,
    created_at TEXT NOT NULL,
    updated_at TEXT NOT NULL,
    archived_at TEXT,
    last_read_at TEXT,
    last_read_by TEXT,
    read_count INTEGER NOT NULL DEFAULT 0,
    status TEXT NOT NULL,
    task_id TEXT,
    trigger_kind TEXT,
    consumer TEXT
);
CREATE TABLE entity_versions (
    id TEXT PRIMARY KEY,
    entity_type TEXT NOT NULL,
    entity_id TEXT NOT NULL,
    version_number INTEGER NOT NULL,
    actor_json TEXT NOT NULL,
    actor_kind TEXT NOT NULL,
    actor_id TEXT,
    actor_name TEXT,
    event_type TEXT NOT NULL,
    reason TEXT,
    source_event_id TEXT,
    source_event_seq INTEGER,
    created_at TEXT NOT NULL,
    before_json TEXT,
    after_json TEXT,
    diff_json TEXT NOT NULL,
    changed_fields_json TEXT NOT NULL,
    summary TEXT NOT NULL,
    UNIQUE (entity_type, entity_id, version_number)
);
CREATE TABLE activity (
    id TEXT PRIMARY KEY,
    task_id TEXT,
    project_id TEXT,
    actor_json TEXT NOT NULL,
    verb TEXT NOT NULL,
    field TEXT,
    old_value TEXT,
    new_value TEXT,
    occurred_at TEXT NOT NULL,
    event_id TEXT NOT NULL UNIQUE,
    seq INTEGER NOT NULL
);
CREATE TABLE plans (
    id TEXT PRIMARY KEY,
    project_id TEXT NOT NULL
);
CREATE TABLE runs (
    id TEXT PRIMARY KEY,
    plan_id TEXT NOT NULL
);
";

/// A database in memory, asked through the library's queries.
struct Db {
    runtime: tokio::runtime::Runtime,
    pool: SqlitePool,
    events: RefCell<Vec<Event>>,
}

impl Db {
    fn open() -> Db {
        let runtime = tokio::runtime::Builder::new_current_thread().enable_all().build().unwrap();
        let pool = runtime.block_on(async {
            let pool = SqlitePoolOptions::new()
                .max_connections(1)
                .connect("sqlite::memory:")
                .await
                .unwrap();
            sqlx::raw_sql(SCHEMA).execute(&pool).await.unwrap();
            for query in DocumentRepo::track_reads() {
                sqlx::query(&query.sql).execute(&pool).await.unwrap();
            }
            pool
        });
        Db { runtime, pool, events: RefCell::new(Vec::new()) }
    }

    fn arguments(&self, binds: Vec<Bound>) -> SqliteArguments<'static> {
        let mut arguments = SqliteArguments::default();
        for bound in binds {
            match bound {
                Bound::Null => arguments.add(None::<String>),
                Bound::Text(s) => arguments.add(s),
                Bound::Int(n) => arguments.add(n),
                Bound::Bool(b) => arguments.add(b),
                Bound::Actor(a) => arguments.add(actor_to_json(&a)),
                other => panic!("not bound here: {other:?}"),
            }
            .unwrap();
        }
        arguments
    }

    fn execute(&self, query: Query) -> Result<SqliteQueryResult, sqlx::Error> {
        let arguments = self.arguments(query.binds);
        self.runtime.block_on(sqlx::query_with(&query.sql, arguments).execute(&self.pool))
    }

    /// Runs a statement, and says how many rows it changed.
    fn run(&self, query: Query) -> u64 {
        self.execute(query).unwrap().rows_affected()
    }

    fn fetch(&self, query: Query) -> Vec<SqliteRow> {
        let arguments = self.arguments(query.binds);
        self.runtime
            .block_on(sqlx::query_with(&query.sql, arguments).fetch_all(&self.pool))
            .unwrap()
    }

    fn rows<R: ReadRow>(&self, query: Query) -> Vec<R> {
        self.fetch(query).iter().map(|row| R::read(row, self)).collect()
    }

    fn row<R: ReadRow>(&self, query: Query) -> Option<R> {
        self.rows(query).pop()
    }

    fn list<R: ReadRow + Decode>(&self, query: Query) -> Vec<R::Record> {
        decode_all(self.rows::<R>(query)).unwrap()
    }

    fn find<R: ReadRow + Decode>(&self, query: Query) -> Option<R::Record> {
        decode_optional(self.row::<R>(query)).unwrap()
    }

    fn actor_from_json(&self, json: &str) -> Result<Actor, String> {
        let value: serde_json::Value = serde_json::from_str(json).map_err(|e| e.to_string())?;
        match value["kind"].as_str() {
            Some("user") => Ok(Actor::User),
            Some("agent") => Ok(Actor::Agent {
                id: parse_id(value["id"].as_str().unwrap()).unwrap(),
                name: value["name"].as_str().unwrap().to_string(),
            }),
            _ => Err("no actor".to_string()),
        }
    }

    /// Stands for an event by its place in a list.
    fn event_to_json(&self, event: &Event) -> String {
        let mut events = self.events.borrow_mut();
        events.push(event.clone());
        (events.len() - 1).to_string()
    }

    fn event_from_json(&self, json: &str) -> Result<Event, String> {
        let place: usize = json.parse().map_err(|_| format!("no event: {json}"))?;
        self.events.borrow().get(place).cloned().ok_or_else(|| "no event".to_string())
    }

    fn scalar(&self, query: Query) -> i64 {
        self.fetch(query)[0].get(0)
    }

    fn apply_task_event(&self, envelope: &EventEnvelope) {
        let needed = TaskRepo::ids_needed(&envelope.payload);
        let fresh_ids: Vec<TaskId> = (0..needed).map(|_| fresh()).collect();
        match TaskRepo::apply_event(envelope, &fresh_ids) {
            TaskStep::Ignore => {}
            TaskStep::NotifyDue { insert } => {
                self.run(insert);
            }
            TaskStep::Create { tasks } => {
                for task in &tasks {
                    self.write_task(None, task, envelope);
                }
            }
            TaskStep::Change { load } => {
                let mut found = self.find::<TaskRow>(load);
                let before = found.as_ref().map(task_value);
                if let (Some(task), Event::TaskUpdated { patch, .. }) =
                    (&mut found, &envelope.payload)
                {
                    patch_title(patch, task);
                }
                if let Some(task) = TaskRepo::loaded(envelope, found) {
                    self.write_task(before, &task, envelope);
                }
            }
            TaskStep::Delete { task_id, load, deletes } => {
                let before = self.find::<TaskRow>(load).as_ref().map(task_value);
                for delete in deletes {
                    self.run(delete);
                }
                if let Some(draft) = TaskRepo::removed(&task_id, before) {
                    self.write_version(draft, envelope);
                }
            }
        }
    }

    fn write_task(&self, before: Option<Json>, task: &Task, envelope: &EventEnvelope) {
        let write = TaskRepo::write(task, before, task_value(task));
        self.run(write.upsert);
        self.write_version(write.version, envelope);
    }

    fn task(&self, id: TaskId) -> Option<Task> {
        self.find::<TaskRow>(TaskRepo::get(&id))
    }

    fn apply_document_event(&self, envelope: &EventEnvelope) {
        match DocumentRepo::apply_event(envelope) {
            DocumentStep::Ignore => {}
            DocumentStep::Create { document } => {
                self.write_document(None, &document, envelope);
            }
            DocumentStep::Change { load } => {
                let found = self.find::<DocumentRow>(load);
                let before = found.as_ref().map(document_value);
                if let Some(document) = DocumentRepo::loaded(&envelope.payload, found) {
                    self.write_document(before, &document, envelope);
                }
            }
        }
    }

    fn write_document(&self, before: Option<Json>, document: &Document, envelope: &EventEnvelope) {
        let write = DocumentRepo::write(document, before, document_value(document));
        self.run(write.upsert);
        self.write_version(write.version, envelope);
    }

    fn document(&self, id: DocumentId) -> Option<Document> {
        self.find::<DocumentRow>(DocumentRepo::get(&id))
    }

    fn mark_read(&self, id: DocumentId, actor: &str, now: Timestamp, secs: u64) -> bool {
        let mark = DocumentRepo::mark_read(&id, actor, &now, secs, 0).unwrap().unwrap();
        let changed = self.run(mark.update.clone());
        match mark.counted(changed) {
            Some(note) => {
                self.run(note);
                true
            }
            None => false,
        }
    }

    fn write_version(&self, draft: VersionDraft, envelope: &EventEnvelope) {
        let mut step = draft.start(envelope);
        loop {
            match step {
                VersionStep::Done => return,
                VersionStep::Check { count } => step = draft.after_check(self.scalar(count)),
                VersionStep::Number { next } => {
                    let number = self.scalar(next);
                    self.run(insert_entity_version(&fresh(), &draft, number, envelope));
                    return;
                }
            }
        }
    }

    fn versions(&self, query: Query) -> Vec<EntityVersion> {
        self.fetch(query).iter().map(|row| row_to_entity_version(version_row(row)).unwrap()).collect()
    }

    fn apply_activity_event(&self, envelope: &EventEnvelope) {
        let mut step = ActivityRepo::apply_event(envelope, fresh());
        loop {
            step = match step {
                ActivityStep::Done => return,
                ActivityStep::Merge { update, otherwise } => {
                    ActivityRepo::after_merge(otherwise, self.run(update))
                }
                ActivityStep::Lookup { select, row } => {
                    let found = self.row::<ProjectIdRow>(select);
                    ActivityStep::Insert { insert: ActivityRepo::after_lookup(&row, found).unwrap() }
                }
                ActivityStep::Insert { insert } => {
                    self.run(insert);
                    return;
                }
            };
        }
    }

    fn activity(
        &self,
        task_id: TaskId,
        cursor: Option<u64>,
        limit: u32,
        verbs: Option<Vec<Verb>>,
    ) -> (Vec<Activity>, Option<u64>, bool) {
        let rows = match ActivityRepo::list_for_task(&task_id, cursor, limit, &verbs) {
            Some(query) => self.rows::<ActivityRow>(query),
            None => Vec::new(),
        };
        ActivityRepo::page(rows, limit).unwrap()
    }

    fn backfill(&self) -> u64 {
        let row = &self.fetch(ActivityRepo::last_backfilled_seq())[0];
        let last = ActivityRepo::backfilled_seq(column(row, "max_seq")).unwrap();
        let mut progress = Backfill { last, count: 0 };
        loop {
            let query = SqliteEventStore::load_since(progress.last, BACKFILL_BATCH);
            let batch = self.list::<EventRow>(query);
            for envelope in &batch {
                self.apply_activity_event(envelope);
            }
            match ActivityRepo::backfill_from_events(progress, &batch) {
                Some(next) => progress = next,
                None => return progress.count,
            }
        }
    }

    fn append(&self, envelope: EventEnvelope) -> EventEnvelope {
        let payload_json = self.event_to_json(&envelope.payload);
        let insert = SqliteEventStore::append(&envelope, &payload_json);
        let rowid = self.execute(insert).unwrap().last_insert_rowid();
        SqliteEventStore::appended(envelope, rowid)
    }

    fn seed_plan(&self, plan_id: PlanId, project_id: ProjectId) {
        let insert = Query::new("INSERT INTO plans (id, project_id) VALUES (?, ?)");
        self.run(insert.id(&plan_id).id(&project_id));
    }
}

fn actor_to_json(actor: &Actor) -> String {
    match actor {
        Actor::User => r#"{"kind":"user"}"#.to_string(),
        Actor::Agent { id, name } => {
            format!(r#"{{"kind":"agent","id":"{}","name":"{name}"}}"#, print_id(id))
        }
    }
}

fn fresh<I: TypedId>() -> I {
    I::from_uuid(uuid::Uuid::new_v4().as_u128())
}

fn now() -> Timestamp {
    let now = chrono::Utc::now();
    Timestamp::new(now.timestamp(), now.timestamp_subsec_nanos()).unwrap()
}

fn env(actor: Actor, payload: Event) -> EventEnvelope {
    EventEnvelope::new(fresh(), now(), actor, payload)
}

/// A row that the library reads.
trait ReadRow: Sized {
    fn read(row: &SqliteRow, db: &Db) -> Self;
}

/// A column, or the driver's message.
fn column<'r, T>(row: &'r SqliteRow, name: &str) -> Column<T>
where
    T: sqlx::Decode<'r, Sqlite> + sqlx::Type<Sqlite>,
{
    row.try_get(name).map_err(|e| e.to_string())
}

/// A column of JSON text, and what it is read into.
fn json<T>(
    row: &SqliteRow,
    name: &str,
    read: impl Fn(&str) -> Parsed<T>,
) -> Column<Parsed<T>> {
    column::<String>(row, name).map(|s| read(&s))
}

/// A column of JSON text that may be null, and what it is read into.
fn optional_json<T>(
    row: &SqliteRow,
    name: &str,
    read: impl Fn(&str) -> Parsed<T>,
) -> Column<Option<Parsed<T>>> {
    column::<Option<String>>(row, name).map(|s| s.map(|s| read(&s)))
}

impl ReadRow for ActivityRow {
    fn read(row: &SqliteRow, db: &Db) -> ActivityRow {
        ActivityRow {
            id: column(row, "id"),
            task_id: column(row, "task_id"),
            project_id: column(row, "project_id"),
            actor_json: json(row, "actor_json", |s| db.actor_from_json(s)),
            verb: column(row, "verb"),
            field: column(row, "field"),
            old_value: column(row, "old_value"),
            new_value: column(row, "new_value"),
            occurred_at: column(row, "occurred_at"),
            event_id: column(row, "event_id"),
            seq: column(row, "seq"),
        }
    }
}

impl ReadRow for ProjectIdRow {
    fn read(row: &SqliteRow, _db: &Db) -> ProjectIdRow {
        ProjectIdRow {
            project_id: column(row, "project_id"),
        }
    }
}

impl ReadRow for DocumentRow {
    fn read(row: &SqliteRow, _db: &Db) -> DocumentRow {
        DocumentRow {
            id: column(row, "id"),
            project_id: column(row, "project_id"),
            kind: column(row, "kind"),
            title: column(row, "title"),
            content: column(row, "content"),
            created_at: column(row, "created_at"),
            updated_at: column(row, "updated_at"),
            archived_at: column(row, "archived_at"),
            last_read_at: column(row, "last_read_at"),
            last_read_by: column(row, "last_read_by"),
            read_count: column(row, "read_count"),
            status: column(row, "status"),
            task_id: column(row, "task_id"),
            trigger_kind: column(row, "trigger_kind"),
            consumer: column(row, "consumer"),
        }
    }
}

impl ReadRow for EventRow {
    fn read(row: &SqliteRow, db: &Db) -> EventRow {
        EventRow {
            seq: column(row, "seq"),
            event_id: column(row, "event_id"),
            occurred_at: column(row, "occurred_at"),
            actor_json: json(row, "actor_json", |s| db.actor_from_json(s)),
            payload_json: json(row, "payload_json", |s| db.event_from_json(s)),
            origin_device_id: column(row, "origin_device_id"),
            origin_seq: column(row, "origin_seq"),
        }
    }
}

impl ReadRow for TaskRow {
    fn read(row: &SqliteRow, db: &Db) -> TaskRow {
        TaskRow {
            id: column(row, "id"),
            project_id: column(row, "project_id"),
            title: column(row, "title"),
            description: column(row, "description"),
            status: column(row, "status"),
            priority: column(row, "priority"),
            due_at: column(row, "due_at"),
            created_at: column(row, "created_at"),
            updated_at: column(row, "updated_at"),
            started_at: column(row, "started_at"),
            completed_at: column(row, "completed_at"),
            created_by_json: optional_json(row, "created_by_json", |s| db.actor_from_json(s)),
            completed_by_json: optional_json(row, "completed_by_json", |s| db.actor_from_json(s)),
            updated_by_json: optional_json(row, "updated_by_json", |s| db.actor_from_json(s)),
            updated_event_id: column(row, "updated_event_id"),
            updated_event_seq: column(row, "updated_event_seq"),
            source_event_id: column(row, "source_event_id"),
            triage_state: column(row, "triage_state"),
        }
    }
}

impl ReadRow for DueRow {
    fn read(row: &SqliteRow, _db: &Db) -> DueRow {
        DueRow {
            id: column(row, "id"),
            due_at: column(row, "due_at"),
        }
    }
}

fn version_row(row: &SqliteRow) -> EntityVersionRow {
    EntityVersionRow {
        id: row.get("id"),
        entity_type: row.get("entity_type"),
        entity_id: row.get("entity_id"),
        version_number: row.get("version_number"),
        actor_json: row.get("actor_json"),
        event_type: row.get("event_type"),
        reason: row.get("reason"),
        source_event_id: row.get("source_event_id"),
        source_event_seq: row.get("source_event_seq"),
        created_at: row.get("created_at"),
        before_json: row.get("before_json"),
        after_json: row.get("after_json"),
        diff_json: row.get("diff_json"),
        changed_fields_json: row.get("changed_fields_json"),
        summary: row.get("summary"),
    }
}

fn task_value(task: &Task) -> Json {
    let mut value = serde_json::Map::new();
    value.insert("id".into(), print_id(&task.id).into());
    value.insert("project_id".into(), print_opt_id(&task.project_id).into());
    value.insert("title".into(), task.title.clone().into());
    value.insert("description".into(), task.description.clone().into());
    value.insert("status".into(), task.status.as_str().into());
    value.insert("priority".into(), task.priority.as_str().into());
    parse_json(&serde_json::Value::Object(value).to_string()).unwrap()
}

fn document_value(document: &Document) -> Json {
    let mut value = serde_json::Map::new();
    value.insert("id".into(), print_id(&document.id).into());
    value.insert("title".into(), document.title.clone().into());
    value.insert("content".into(), document.content.clone().into());
    parse_json(&serde_json::Value::Object(value).to_string()).unwrap()
}

fn patch_title(patch: &TaskPatch, task: &mut Task) {
    let value: serde_json::Value = serde_json::from_str(&patch.json).unwrap();
    if let Some(title) = value["title"].as_str() {
        task.title = title.to_string();
    }
}

fn env_with_seq(actor: Actor, payload: Event, seq: u64) -> EventEnvelope {
    EventEnvelope { seq, ..env(actor, payload) }
}

fn new_task(id: TaskId, title: &str) -> NewTask {
    NewTask {
        id: Some(id),
        project_id: None,
        title: title.to_string(),
        description: None,
        status: None,
        priority: None,
        triage_state: None,
        due_at: None,
    }
}

fn status_changed(task_id: TaskId, from: Status, to: Status) -> Event {
    Event::TaskStatusChanged { task_id, from, to }
}

// ── tasks ────────────────────────────────────────────────────────────────────

#[test]
fn task_created_and_retrieved() {
    let db = Db::open();
    let id: TaskId = fresh();
    db.apply_task_event(&env(Actor::User, Event::TaskCreated { task: new_task(id, "hello") }));

    let task = db.task(id).expect("task should exist");
    assert_eq!(task.id, id);
    assert_eq!(task.title, "hello");
    assert!(task.started_at.is_none());
    assert!(task.completed_at.is_none());

    let all = db.list::<TaskRow>(TaskRepo::list_all());
    assert_eq!(all.len(), 1);
}

#[test]
fn task_mutation_writes_version_record_once_per_source_event() {
    let db = Db::open();
    let id: TaskId = fresh();
    let created =
        env_with_seq(Actor::User, Event::TaskCreated { task: new_task(id, "version me") }, 7);

    db.apply_task_event(&created);
    db.apply_task_event(&created);

    let count = db.scalar(
        Query::new(
            "SELECT COUNT(*) FROM entity_versions \
             WHERE entity_type = 'task' AND entity_id = ? AND source_event_id = ?",
        )
        .id(&id)
        .id(&created.id),
    );
    assert_eq!(count, 1, "replaying one event must not duplicate versions");

    let version_number = db.scalar(
        Query::new(
            "SELECT version_number FROM entity_versions \
             WHERE entity_type = 'task' AND entity_id = ?",
        )
        .id(&id),
    );
    assert_eq!(version_number, 1);
}

#[test]
fn task_tracks_last_projection_change_event() {
    let db = Db::open();
    let id: TaskId = fresh();
    let create =
        env_with_seq(Actor::User, Event::TaskCreated { task: new_task(id, "audit me") }, 41);
    db.apply_task_event(&create);

    let created = db.task(id).unwrap();
    assert_eq!(created.updated_by, Some(Actor::User));
    assert_eq!(created.updated_event_id, Some(create.id));
    assert_eq!(created.updated_event_seq, Some(41));

    let agent = Actor::Agent { id: fresh(), name: "debugger".to_string() };
    let update = env_with_seq(
        agent.clone(),
        Event::TaskPriorityChanged { task_id: id, from: Priority::P2, to: Priority::P1 },
        42,
    );
    db.apply_task_event(&update);

    let updated = db.task(id).unwrap();
    assert_eq!(updated.priority, Priority::P1);
    assert_eq!(updated.updated_by, Some(agent));
    assert_eq!(updated.updated_event_id, Some(update.id));
    assert_eq!(updated.updated_event_seq, Some(42));
}

#[test]
fn task_closed_sets_completed_at() {
    let db = Db::open();
    let id: TaskId = fresh();
    db.apply_task_event(&env(Actor::User, Event::TaskCreated { task: new_task(id, "close me") }));
    let closed = Event::TaskClosed { task_id: id, by: Actor::User, at: now() };
    db.apply_task_event(&env(Actor::User, closed));

    let task = db.task(id).unwrap();
    assert!(task.completed_at.is_some());
    // A task that was never in progress was started when it was closed.
    assert!(task.started_at.is_some());
}

#[test]
fn task_reopened_clears_completed_at() {
    let db = Db::open();
    let id: TaskId = fresh();
    db.apply_task_event(&env(Actor::User, Event::TaskCreated { task: new_task(id, "reopen me") }));
    let closed = Event::TaskClosed { task_id: id, by: Actor::User, at: now() };
    db.apply_task_event(&env(Actor::User, closed));
    assert!(db.task(id).unwrap().completed_at.is_some());

    let reopened = Event::TaskReopened { task_id: id, by: Actor::User, at: now() };
    db.apply_task_event(&env(Actor::User, reopened));

    let task = db.task(id).unwrap();
    assert!(task.completed_at.is_none(), "reopen must clear completed_at");
    assert!(task.started_at.is_some(), "started_at must persist across reopen");
}

#[test]
fn list_filtered_by_status_combines_with_project_scope() {
    let db = Db::open();
    let proj: ProjectId = fresh();
    let other: ProjectId = fresh();

    let cases = [
        ("todo-A", Some(proj), Status::Todo),
        ("inprog-A", Some(proj), Status::InProgress),
        ("done-A", Some(proj), Status::Done),
        ("todo-B", Some(other), Status::Todo),
        ("inbox-orphan", None, Status::Inbox),
        ("done-orphan", None, Status::Done),
    ];
    for (title, project_id, status) in cases {
        let task = NewTask { project_id, status: Some(status), ..new_task(fresh(), title) };
        db.apply_task_event(&env(Actor::User, Event::TaskCreated { task }));
    }

    let active = vec![Status::Inbox, Status::Todo, Status::InProgress, Status::InReview];
    let got = db.list::<TaskRow>(TaskRepo::list_by_project_filtered(&Some(proj), &active));
    let titles: Vec<_> = got.iter().map(|t| t.title.as_str()).collect();
    assert_eq!(titles, vec!["todo-A", "inprog-A"]);

    // No statuses: no filter.
    let all = db.list::<TaskRow>(TaskRepo::list_by_project_filtered(&Some(proj), &vec![]));
    assert_eq!(all.len(), 3);

    // The tasks without a project.
    let inbox = db.list::<TaskRow>(TaskRepo::list_by_project_filtered(&None, &active));
    let titles: Vec<_> = inbox.iter().map(|t| t.title.as_str()).collect();
    assert_eq!(titles, vec!["inbox-orphan"]);

    let global = db.list::<TaskRow>(TaskRepo::list_all_filtered(&active));
    assert_eq!(global.len(), 4);
}

#[test]
fn a_written_task_is_read_back() {
    let db = Db::open();
    let at = now();
    let task = Task {
        id: fresh(),
        project_id: Some(fresh()),
        title: "it's \"quoted\"".to_string(),
        description: "two\nlines".to_string(),
        status: Status::InReview,
        priority: Priority::P0,
        triage_state: Some(TriageState::Accepted),
        due_at: Some(at),
        created_at: at,
        updated_at: at,
        started_at: Some(at),
        completed_at: None,
        created_by: Some(Actor::User),
        completed_by: None,
        updated_by: Some(Actor::Agent { id: fresh(), name: "a".to_string() }),
        updated_event_id: Some(fresh()),
        updated_event_seq: Some(u64::MAX),
        source_event_id: Some(fresh()),
    };
    db.run(TaskRepo::upsert_task(&task));
    assert_eq!(db.task(task.id), Some(task.clone()));
    assert_eq!(db.list::<TaskRow>(TaskRepo::get_many(&vec![task.id, fresh()]).unwrap()), vec![task]);
    assert!(TaskRepo::get_many(&vec![]).is_none());
}

#[test]
fn a_split_creates_every_subtask() {
    let db = Db::open();
    let named: TaskId = fresh();
    let mut second = new_task(fresh(), "second");
    second.id = None;
    let split = Event::TaskSplitGenerated {
        parent: fresh(),
        subtasks: vec![new_task(named, "first"), second],
        rest: "{}".to_string(),
    };
    db.apply_task_event(&env(Actor::User, split));
    let titles: Vec<String> =
        db.list::<TaskRow>(TaskRepo::list_all()).into_iter().map(|t| t.title).collect();
    assert_eq!(titles, vec!["first".to_string(), "second".to_string()]);
    assert_eq!(db.task(named).unwrap().status, Status::Inbox);
    assert_eq!(db.task(named).unwrap().priority, Priority::P2);
}

#[test]
fn an_update_is_stamped_and_summed_up() {
    let db = Db::open();
    let id: TaskId = fresh();
    db.apply_task_event(&env(Actor::User, Event::TaskCreated { task: new_task(id, "old") }));
    let patch = TaskPatch { json: r#"{"title":"new"}"#.to_string() };
    let update = env_with_seq(Actor::User, Event::TaskUpdated { task_id: id, patch }, 9);
    db.apply_task_event(&update);
    let task = db.task(id).unwrap();
    assert_eq!(task.title, "new");
    assert_eq!(task.updated_at, update.occurred_at);

    let list = EntityVersionRepo::list_for_entity("task", &print_id(&id), 10).unwrap();
    let versions = db.versions(list);
    assert_eq!(versions.len(), 2);
    assert_eq!(versions[0].version_number, 2);
    assert_eq!(versions[0].changed_fields, vec!["title".to_string()]);
    assert_eq!(versions[0].source_event_seq, Some(9));
}

#[test]
fn a_deleted_task_leaves_a_version_and_no_notification() {
    let db = Db::open();
    let id: TaskId = fresh();
    let due = now();
    let mut task = new_task(id, "gone");
    task.due_at = Some(due);
    db.apply_task_event(&env(Actor::User, Event::TaskCreated { task }));

    let later = due.later(60, 0).unwrap();
    let found = db.list::<DueRow>(TaskRepo::list_due_unnotified(&later, 10));
    assert_eq!(found, vec![(id, due)]);
    let elapsed = Event::TaskDueElapsed { task_id: id, due_at: due, at: later };
    db.apply_task_event(&env(Actor::User, elapsed));
    assert!(db.list::<DueRow>(TaskRepo::list_due_unnotified(&later, 10)).is_empty());

    db.apply_task_event(&env(Actor::User, Event::TaskDeleted { task_id: id }));
    assert_eq!(db.task(id), None);
    assert_eq!(db.scalar(Query::new("SELECT COUNT(*) FROM task_due_notifications")), 0);
    let versions = db.versions(EntityVersionRepo::latest(10));
    assert_eq!(versions.len(), 2);
    assert!(versions.iter().any(|v| v.after.is_none() && v.event_type == "task_deleted"));
}

#[test]
fn the_triage_queue_holds_what_is_pending() {
    let db = Db::open();
    let project: ProjectId = fresh();
    let id: TaskId = fresh();
    let mut task = new_task(id, "triage");
    task.project_id = Some(project);
    task.triage_state = Some(TriageState::Pending);
    db.apply_task_event(&env(Actor::User, Event::TaskCreated { task }));
    assert_eq!(db.list::<TaskRow>(TaskRepo::list_triage_queue(&project)).len(), 1);

    let update = TaskRepo::set_triage_state(&id, &Some(TriageState::Rejected), &now());
    let read = TaskRepo::after_triage(&id, db.run(update)).unwrap();
    assert_eq!(db.find::<TaskRow>(read).unwrap().triage_state, Some(TriageState::Rejected));
    assert!(db.list::<TaskRow>(TaskRepo::list_triage_queue(&project)).is_empty());

    let nobody: TaskId = fresh();
    let update = TaskRepo::set_triage_state(&nobody, &None, &now());
    assert!(TaskRepo::after_triage(&nobody, db.run(update)).is_none());
}

#[test]
fn a_bad_status_is_reported() {
    let db = Db::open();
    let id: TaskId = fresh();
    db.apply_task_event(&env(Actor::User, Event::TaskCreated { task: new_task(id, "t") }));
    db.run(Query::new("UPDATE tasks SET status = 'nonsense' WHERE id = ?").id(&id));
    let row = db.row::<TaskRow>(TaskRepo::get(&id));
    assert!(matches!(decode_optional(row), Err(CoreError::Serde(_))));
}

// ── documents ────────────────────────────────────────────────────────────────

fn seed_doc(project_id: ProjectId, kind: DocumentKind, title: &str) -> Document {
    let at = now();
    Document {
        id: fresh(),
        project_id,
        kind,
        title: title.to_string(),
        content: String::new(),
        status: DocumentStatus::Active,
        task_id: None,
        trigger_kind: None,
        consumer: None,
        created_at: at,
        updated_at: at,
        archived_at: None,
        last_read_at: None,
        last_read_by: None,
        read_count: 0,
    }
}

fn create_doc(db: &Db, document: &Document) {
    let created = Event::DocumentCreated { document: document.clone() };
    db.apply_document_event(&env(Actor::User, created));
}

fn documents(db: &Db, project: ProjectId, kind: Option<DocumentKind>, all: bool) -> Vec<Document> {
    db.list::<DocumentRow>(DocumentRepo::list_by_project(&project, &kind, all))
}

#[test]
fn created_and_retrieved() {
    let db = Db::open();
    let doc = seed_doc(fresh(), DocumentKind::Interview, "Interview");
    create_doc(&db, &doc);
    let got = db.document(doc.id).unwrap();
    assert_eq!(got, doc);
}

#[test]
fn document_mutations_write_monotonic_version_records() {
    let db = Db::open();
    let doc = seed_doc(fresh(), DocumentKind::Interview, "Interview");
    create_doc(&db, &doc);
    let replaced = Event::DocumentContentReplaced {
        document_id: doc.id,
        content: "updated body".to_string(),
        at: now(),
    };
    db.apply_document_event(&env(Actor::User, replaced));

    let rows = db.fetch(
        Query::new(
            "SELECT version_number, changed_fields_json FROM entity_versions \
             WHERE entity_type = 'document' AND entity_id = ? \
             ORDER BY version_number ASC",
        )
        .id(&doc.id),
    );
    let versions: Vec<i64> = rows.iter().map(|row| row.get("version_number")).collect();
    assert_eq!(versions, vec![1, 2]);
    let changed_fields_json: String = rows[1].get("changed_fields_json");
    assert!(
        changed_fields_json.contains("content"),
        "content replacement should record changed field, got {changed_fields_json}"
    );
}

#[test]
fn content_replaced_overwrites_body() {
    let db = Db::open();
    let doc = seed_doc(fresh(), DocumentKind::HumanLog, "Human Log");
    create_doc(&db, &doc);
    let new_at = now();
    let replaced = Event::DocumentContentReplaced {
        document_id: doc.id,
        content: "fresh body".to_string(),
        at: new_at,
    };
    db.apply_document_event(&env(Actor::User, replaced));

    let got = db.document(doc.id).unwrap();
    assert_eq!(got.content, "fresh body");
    assert_eq!(got.updated_at.to_rfc3339(), new_at.to_rfc3339());
}

#[test]
fn append_into_empty_skips_separator() {
    let db = Db::open();
    let doc = seed_doc(fresh(), DocumentKind::HumanLog, "Human Log");
    assert_eq!(doc.content, "", "precondition: doc starts empty");
    create_doc(&db, &doc);
    let appended = Event::DocumentContentAppended {
        document_id: doc.id,
        append: "first entry".to_string(),
        at: now(),
    };
    db.apply_document_event(&env(Actor::User, appended));
    assert_eq!(db.document(doc.id).unwrap().content, "first entry");
}

#[test]
fn append_into_non_empty_inserts_blank_line() {
    let db = Db::open();
    let mut doc = seed_doc(fresh(), DocumentKind::HumanLog, "Human Log");
    doc.content = "# Human Log".to_string();
    create_doc(&db, &doc);
    let appended = Event::DocumentContentAppended {
        document_id: doc.id,
        append: "entry 1".to_string(),
        at: now(),
    };
    db.apply_document_event(&env(Actor::User, appended));
    assert_eq!(db.document(doc.id).unwrap().content, "# Human Log\n\nentry 1");
}

#[test]
fn renamed_updates_title() {
    let db = Db::open();
    let doc = seed_doc(fresh(), DocumentKind::Interview, "old");
    create_doc(&db, &doc);
    let renamed =
        Event::DocumentRenamed { document_id: doc.id, title: "new".to_string(), at: now() };
    db.apply_document_event(&env(Actor::User, renamed));
    assert_eq!(db.document(doc.id).unwrap().title, "new");
}

#[test]
fn archived_sets_archived_at_and_hides_from_default_list() {
    let db = Db::open();
    let project_id: ProjectId = fresh();
    let doc = seed_doc(project_id, DocumentKind::Interview, "Interview");
    create_doc(&db, &doc);
    let archived = Event::DocumentArchived { document_id: doc.id, at: now() };
    db.apply_document_event(&env(Actor::User, archived));

    let got = db.document(doc.id).unwrap();
    assert!(got.archived_at.is_some());
    assert!(documents(&db, project_id, None, false).is_empty());
    let full_list = documents(&db, project_id, None, true);
    assert_eq!(full_list.len(), 1);
    assert_eq!(full_list[0].id, doc.id);
}

#[test]
fn list_by_project_filters_by_kind() {
    let db = Db::open();
    let project_id: ProjectId = fresh();
    let interview = seed_doc(project_id, DocumentKind::Interview, "Interview");
    let log = seed_doc(project_id, DocumentKind::HumanLog, "Human Log");
    create_doc(&db, &interview);
    create_doc(&db, &log);

    assert_eq!(documents(&db, project_id, None, false).len(), 2);

    let interviews = documents(&db, project_id, Some(DocumentKind::Interview), false);
    assert_eq!(interviews.len(), 1);
    assert_eq!(interviews[0].id, interview.id);

    let logs = documents(&db, project_id, Some(DocumentKind::HumanLog), false);
    assert_eq!(logs.len(), 1);
    assert_eq!(logs[0].id, log.id);
}

#[test]
fn list_by_project_scopes_to_project() {
    let db = Db::open();
    let p1: ProjectId = fresh();
    let p2: ProjectId = fresh();
    create_doc(&db, &seed_doc(p1, DocumentKind::Interview, "p1 interview"));
    create_doc(&db, &seed_doc(p2, DocumentKind::Interview, "p2 interview"));

    let p1_docs = documents(&db, p1, None, false);
    assert_eq!(p1_docs.len(), 1);
    assert_eq!(p1_docs[0].title, "p1 interview");
}

#[test]
fn apply_event_ignores_non_document_events() {
    let db = Db::open();
    let archived = Event::PlanArchived { plan_id: fresh(), at: now() };
    db.apply_document_event(&env(Actor::User, archived));
    assert!(documents(&db, fresh(), None, true).is_empty());
}

#[test]
fn mark_read_updates_tracking_and_throttles_same_actor() {
    let db = Db::open();
    let doc = seed_doc(fresh(), DocumentKind::Interview, "Interview");
    let id = doc.id;
    create_doc(&db, &doc);

    let before = db.document(id).unwrap();
    assert!(before.last_read_at.is_none());
    assert_eq!(before.read_count, 0);

    let throttle = 3600;
    let at = now();
    assert!(db.mark_read(id, "user", at, throttle));
    let after = db.document(id).unwrap();
    assert_eq!(after.read_count, 1);
    assert_eq!(after.last_read_by.as_deref(), Some("user"));
    assert!(after.last_read_at.is_some());

    // The same reader within the throttle does not count.
    let soon = at.later(5 * 60, 0).unwrap();
    assert!(!db.mark_read(id, "user", soon, throttle));
    assert_eq!(db.document(id).unwrap().read_count, 1);

    // Another reader always counts.
    assert!(db.mark_read(id, "agent", soon, throttle));
    assert_eq!(db.document(id).unwrap().read_count, 2);

    // The same reader past the throttle counts again.
    let late = at.later(2 * 3600, 0).unwrap();
    assert!(db.mark_read(id, "user", late, throttle));
    assert_eq!(db.document(id).unwrap().read_count, 3);
}

#[test]
fn reads_are_throttled_for_each_reader() {
    let db = Db::open();
    let doc = seed_doc(fresh(), DocumentKind::Interview, "Interview");
    create_doc(&db, &doc);
    let at = now();
    let minutes = |n: i64| at.later(n * 60, 0).unwrap();
    assert!(db.mark_read(doc.id, "user", at, 3600));
    assert!(db.mark_read(doc.id, "agent", minutes(5), 3600));
    // The user's own last read is within the throttle, whoever was there since.
    assert!(!db.mark_read(doc.id, "user", minutes(6), 3600));
    let kept = db.document(doc.id).unwrap();
    assert_eq!(kept.read_count, 2);
    assert_eq!(kept.last_read_by.as_deref(), Some("agent"));
    assert!(db.mark_read(doc.id, "user", minutes(61), 3600));
    assert_eq!(db.document(doc.id).unwrap().read_count, 3);
}

#[test]
fn reads_from_before_the_tracking_are_noted_once() {
    let db = Db::open();
    let at = now();
    let doc = Document {
        last_read_at: Some(at),
        last_read_by: Some("user".to_string()),
        ..seed_doc(fresh(), DocumentKind::Interview, "Interview")
    };
    create_doc(&db, &doc);
    for _ in 0..2 {
        for query in DocumentRepo::track_reads() {
            db.run(query);
        }
    }
    assert_eq!(db.scalar(Query::new("SELECT COUNT(*) FROM document_reads")), 1);
    assert!(db.mark_read(doc.id, "agent", at.later(60, 0).unwrap(), 3600));
    assert!(!db.mark_read(doc.id, "user", at.later(120, 0).unwrap(), 3600));
}

#[test]
fn list_unread_since_includes_never_read_and_stale() {
    let db = Db::open();
    let project_id: ProjectId = fresh();
    let fresh_doc = seed_doc(project_id, DocumentKind::Interview, "fresh");
    let stale = seed_doc(project_id, DocumentKind::HumanLog, "stale");
    let never = seed_doc(project_id, DocumentKind::Interview, "never");
    for d in [&fresh_doc, &stale, &never] {
        create_doc(&db, d);
    }
    let at = now();
    let day = 24 * 3600;
    db.mark_read(fresh_doc.id, "user", at, 3600);
    db.mark_read(stale.id, "user", at.earlier(30 * day, 0).unwrap(), 3600);

    let cutoff = at.earlier(7 * day, 0).unwrap();
    let unread = db.list::<DocumentRow>(DocumentRepo::list_unread_since(&project_id, &cutoff));
    let ids: Vec<_> = unread.iter().map(|d| d.id).collect();
    assert!(ids.contains(&stale.id), "stale doc should be unread");
    assert!(ids.contains(&never.id), "never-read doc should be unread");
    assert!(!ids.contains(&fresh_doc.id), "freshly read doc should be excluded");
}

#[test]
fn mark_read_unknown_id_is_noop() {
    let db = Db::open();
    let updated = db.mark_read(fresh(), "user", now(), 3600);
    assert!(!updated, "unknown document id must not count a read");
}

#[test]
fn mutate_unknown_id_is_noop() {
    let db = Db::open();
    let replaced = Event::DocumentContentReplaced {
        document_id: fresh(),
        content: "ghost".to_string(),
        at: now(),
    };
    db.apply_document_event(&env(Actor::User, replaced));
    assert_eq!(db.scalar(Query::new("SELECT COUNT(*) FROM documents")), 0);
}

#[test]
fn a_throttle_that_cannot_be_counted_is_refused() {
    let refused = DocumentRepo::mark_read(&fresh(), "user", &now(), u64::MAX, 0);
    assert!(matches!(refused, Err(CoreError::Validation(_))));
    // The longest span that counts reaches back before the calendar.
    let early = Timestamp::new(-8_334_601_228_800, 0).unwrap();
    assert_eq!(DocumentRepo::mark_read(&fresh(), "user", &early, 1, 0), Ok(None));
}

#[test]
fn status_and_link_events_change_one_field() {
    let db = Db::open();
    let doc = seed_doc(fresh(), DocumentKind::Interview, "Interview");
    create_doc(&db, &doc);
    let at = now();
    let outdated = Event::DocumentStatusChanged {
        document_id: doc.id,
        to: DocumentStatus::Outdated,
        at,
        rest: "{\"from\":\"active\"}".to_string(),
    };
    db.apply_document_event(&env(Actor::User, outdated));
    let task: TaskId = fresh();
    let linked = Event::DocumentTaskLinkChanged { document_id: doc.id, task_id: Some(task), at };
    db.apply_document_event(&env(Actor::User, linked));
    let got = db.document(doc.id).unwrap();
    assert_eq!(got.status, DocumentStatus::Outdated);
    assert_eq!(got.task_id, Some(task));
    assert_eq!(got.title, doc.title);
    assert_eq!(got.updated_at, at);
}

// ── versions ─────────────────────────────────────────────────────────────────

#[test]
fn a_rollback_is_marked_on_the_versions_of_its_event() {
    let db = Db::open();
    let id: TaskId = fresh();
    let created = env(Actor::User, Event::TaskCreated { task: new_task(id, "one") });
    db.apply_task_event(&created);

    for row in db.fetch(EntityVersionRepo::mark_rollback(&print_id(&created.id))) {
        let diff = DiffRow { id: row.get("id"), diff_json: row.get("diff_json") };
        db.run(rollback_update(&diff, "ver_target").unwrap().unwrap());
    }

    let query = EntityVersionRepo::get_by_number("task", &print_id(&id), 1).unwrap();
    let version = db.versions(query).pop().unwrap();
    assert_eq!(version.reason.as_deref(), Some("rollback"));
    let Json::Object(diff) = &version.diff else { panic!("the diff is an object") };
    let Some(Json::Object(metadata)) = diff.get("metadata") else { panic!("no metadata") };
    assert_eq!(metadata.get("rollback_of_version_id"), Some(&Json::text("ver_target")));
    assert_eq!(metadata.get("source"), Some(&Json::text("task_created")));

    let same = db.versions(EntityVersionRepo::get(&version.id)).pop().unwrap();
    assert_eq!(same, version);
}

// ── activity ─────────────────────────────────────────────────────────────────

#[test]
fn apply_task_created_writes_row() {
    let db = Db::open();
    let task_id: TaskId = fresh();
    let task = new_task(task_id, "smoke test");
    db.apply_activity_event(&env_with_seq(Actor::User, Event::TaskCreated { task }, 1));

    let (rows, next, has_more) = db.activity(task_id, None, 10, None);
    assert_eq!(rows.len(), 1);
    assert_eq!(rows[0].verb, Verb::Created);
    assert_eq!(rows[0].new_value.as_deref(), Some("smoke test"));
    assert!(!has_more);
    assert!(next.is_none());
}

#[test]
fn apply_status_changed_writes_status_changed_verb() {
    let db = Db::open();
    let task_id: TaskId = fresh();
    let changed = status_changed(task_id, Status::Todo, Status::InProgress);
    db.apply_activity_event(&env_with_seq(Actor::User, changed, 1));

    let (rows, _, _) = db.activity(task_id, None, 10, None);
    assert_eq!(rows.len(), 1);
    assert_eq!(rows[0].verb, Verb::StatusChanged);
    assert_eq!(rows[0].field.as_deref(), Some("status"));
    assert_eq!(rows[0].old_value.as_deref(), Some("todo"));
    assert_eq!(rows[0].new_value.as_deref(), Some("in_progress"));
}

#[test]
fn apply_status_change_then_closed_merges_into_closed_verb() {
    let db = Db::open();
    let task_id: TaskId = fresh();
    let changed = status_changed(task_id, Status::Todo, Status::Done);
    db.apply_activity_event(&env_with_seq(Actor::User, changed, 1));
    let closed = Event::TaskClosed { task_id, by: Actor::User, at: now() };
    db.apply_activity_event(&env_with_seq(Actor::User, closed, 2));

    let (rows, _, _) = db.activity(task_id, None, 10, None);
    assert_eq!(rows.len(), 1, "pair-merge must produce exactly one row");
    assert_eq!(rows[0].verb, Verb::Closed);
}

#[test]
fn apply_comment_added_then_task_commented_merges_into_commented_verb() {
    let db = Db::open();
    let task_id: TaskId = fresh();
    let comment_id: CommentId = fresh();
    let comment = Comment {
        id: comment_id,
        task_id,
        author: Actor::User,
        body: "looks good to me".to_string(),
        parent_id: None,
        kind: None,
        created_at: now(),
        edited_at: None,
        deleted_at: None,
    };
    db.apply_activity_event(&env_with_seq(Actor::User, Event::CommentAdded { comment }, 5));
    let commented = Event::TaskCommented {
        task_id,
        comment_id,
        author: Actor::User,
        preview: "looks good to me".to_string(),
    };
    db.apply_activity_event(&env_with_seq(Actor::User, commented, 6));

    let (rows, _, _) = db.activity(task_id, None, 10, None);
    assert_eq!(rows.len(), 1, "pair-merge must produce exactly one row");
    assert_eq!(rows[0].verb, Verb::Commented);
    assert_eq!(rows[0].new_value.as_deref(), Some("looks good to me"));
}

#[test]
fn apply_semantic_event_without_mechanical_inserts_fallback_row() {
    let db = Db::open();
    let task_id: TaskId = fresh();
    let closed = Event::TaskClosed { task_id, by: Actor::User, at: now() };
    db.apply_activity_event(&env_with_seq(Actor::User, closed, 1));

    let (rows, _, _) = db.activity(task_id, None, 10, None);
    assert_eq!(rows.len(), 1);
    assert_eq!(rows[0].verb, Verb::Closed);
}

#[test]
fn a_version_reads_back() {
    let db = Db::open();
    let before = parse_json(r#"{"title":"old","size":1}"#).unwrap();
    let after = parse_json(r#"{"title":"new","size":1,"tags":["a","b"]}"#).unwrap();
    let draft = VersionDraft {
        entity_type: "task".to_string(),
        entity_id: "tsk_1".to_string(),
        before: Some(before.clone()),
        after: Some(after.clone()),
        summary: "two fields".to_string(),
    };
    let task_id: TaskId = fresh();
    let envelope = env_with_seq(Actor::User, Event::TaskDeleted { task_id }, 7);
    let id = fresh();
    db.run(insert_entity_version(&id, &draft, 3, &envelope));

    let read = db.versions(EntityVersionRepo::latest(10));
    assert_eq!(read.len(), 1);
    let version = &read[0];
    assert_eq!(version.id, print_id(&id));
    assert_eq!(version.version_number, 3);
    assert_eq!(version.event_type, "task_deleted");
    assert_eq!(version.source_event_id, Some(print_id(&envelope.id)));
    assert_eq!(version.source_event_seq, Some(7));
    assert_eq!(version.created_at, envelope.occurred_at.to_rfc3339());
    assert_eq!(version.before, Some(before));
    assert_eq!(version.after, Some(after));
    assert_eq!(version.changed_fields, ["tags", "title"]);
    let diff = r#"{
        "kind": "field_json_patch",
        "fields": {
            "tags": { "before": null, "after": ["a", "b"] },
            "title": { "before": "old", "after": "new" }
        },
        "metadata": { "source": "task_deleted" }
    }"#;
    assert_eq!(version.diff, parse_json(diff).unwrap());
    assert_eq!(version.summary, "two fields");
}

#[test]
fn backfill_from_empty() {
    let db = Db::open();
    assert_eq!(db.backfill(), 0);
}

#[test]
fn backfill_idempotent() {
    let db = Db::open();
    let task_id: TaskId = fresh();
    db.append(env(Actor::User, Event::TaskCreated { task: new_task(task_id, "backfill me") }));

    assert_eq!(db.backfill(), 1);
    assert_eq!(db.backfill(), 0);

    let (rows, _, _) = db.activity(task_id, None, 10, None);
    assert_eq!(rows.len(), 1);
}

#[test]
fn a_second_backfill_meets_merged_events_and_changes_nothing() {
    let db = Db::open();
    let task_id: TaskId = fresh();
    db.append(env(Actor::User, Event::TaskCreated { task: new_task(task_id, "a task") }));
    db.append(env(Actor::User, status_changed(task_id, Status::Todo, Status::Done)));
    db.append(env(Actor::User, Event::TaskClosed { task_id, by: Actor::User, at: now() }));

    assert_eq!(db.backfill(), 3);
    let (once, _, _) = db.activity(task_id, None, 10, None);
    assert_eq!(once.len(), 2);
    assert_eq!(once[1].verb, Verb::Closed);

    // The closing made no row of its own, so it lies behind the last row.
    assert_eq!(db.backfill(), 1);
    let (twice, _, _) = db.activity(task_id, None, 10, None);
    assert_eq!(twice, once);
}

#[test]
fn cursor_pagination_returns_next_cursor_and_has_more() {
    let db = Db::open();
    let task_id: TaskId = fresh();
    for seq in 1..=3 {
        let changed = status_changed(task_id, Status::Inbox, Status::Todo);
        db.apply_activity_event(&env_with_seq(Actor::User, changed, seq));
    }

    let (page1, next, has_more) = db.activity(task_id, None, 2, None);
    assert_eq!(page1.len(), 2);
    assert!(has_more);
    assert_eq!(next, Some(2));

    let (page2, next2, has_more2) = db.activity(task_id, Some(2), 2, None);
    assert_eq!(page2.len(), 1);
    assert_eq!(page2[0].seq, 3);
    assert!(!has_more2);
    assert_eq!(next2, None);
}

#[test]
fn verb_filter_returns_only_matching() {
    let db = Db::open();
    let task_id: TaskId = fresh();
    let changed = status_changed(task_id, Status::Inbox, Status::Todo);
    db.apply_activity_event(&env_with_seq(Actor::User, changed, 1));
    db.apply_activity_event(&env_with_seq(Actor::User, Event::TaskDeleted { task_id }, 2));

    let (rows, _, _) = db.activity(task_id, None, 10, Some(vec![Verb::Deleted]));
    assert_eq!(rows.len(), 1);
    assert_eq!(rows[0].verb, Verb::Deleted);

    let (rows, _, _) = db.activity(task_id, None, 10, Some(vec![Verb::StatusChanged]));
    assert_eq!(rows.len(), 1);
    assert_eq!(rows[0].verb, Verb::StatusChanged);

    let (rows, _, _) = db.activity(task_id, None, 10, None);
    assert_eq!(rows.len(), 2);
}

#[test]
fn plan_created_writes_plan_row() {
    let db = Db::open();
    let project_id: ProjectId = fresh();
    let at = now();
    let plan = Plan {
        id: fresh(),
        project_id,
        parent_plan_id: None,
        title: "first plan".to_string(),
        description: String::new(),
        goal: String::new(),
        success_criteria: vec![],
        status: PlanStatus::Draft,
        owner: Actor::User,
        created_at: at,
        updated_at: at,
        archived_at: None,
        source_brief: None,
    };
    db.apply_activity_event(&env_with_seq(Actor::User, Event::PlanCreated { plan }, 1));

    let select = Query::new("SELECT verb, project_id, task_id FROM activity WHERE seq = 1");
    let row = &db.fetch(select)[0];
    assert_eq!(row.get::<String, _>("verb"), "plan_created");
    assert_eq!(row.get::<Option<String>, _>("project_id"), Some(print_id(&project_id)));
    let task_id: Option<String> = row.get("task_id");
    assert!(task_id.is_none(), "plan_created row must not have task_id");
}

#[test]
fn plan_task_added_writes_task_attached_row() {
    let db = Db::open();
    let plan_id: PlanId = fresh();
    let project_id: ProjectId = fresh();
    let task_id: TaskId = fresh();
    db.seed_plan(plan_id, project_id);
    let added = Event::PlanTaskAdded { plan_id, task_id, position: 0, depends_on: vec![] };
    db.apply_activity_event(&env_with_seq(Actor::User, added, 1));

    let (rows, _, _) = db.activity(task_id, None, 10, None);
    assert_eq!(rows.len(), 1);
    assert_eq!(rows[0].verb, Verb::TaskAttached);
    assert_eq!(rows[0].project_id, Some(project_id));
    assert_eq!(rows[0].new_value, Some(print_id(&plan_id)));
}

#[test]
fn agent_claimed_writes_task_claimed_row() {
    let db = Db::open();
    let task_id: TaskId = fresh();
    let agent_id: AgentId = fresh();
    let claimed = Event::AgentClaimed { agent_id, task_id, claim_id: None, expires_at: now() };
    db.apply_activity_event(&env_with_seq(Actor::User, claimed, 1));

    let (rows, _, _) = db.activity(task_id, None, 10, None);
    assert_eq!(rows.len(), 1);
    assert_eq!(rows[0].verb, Verb::TaskClaimed);
}

#[test]
fn run_started_writes_run_started_row() {
    let db = Db::open();
    let plan_id: PlanId = fresh();
    let project_id: ProjectId = fresh();
    db.seed_plan(plan_id, project_id);
    let run_id: RunId = fresh();
    let run = Run {
        id: run_id,
        plan_id,
        agent_id: fresh(),
        parent_run_id: None,
        started_at: now(),
        ended_at: None,
        status: RunStatus::Active,
        outcome: None,
        last_activity_at: None,
        unresponsive_at: None,
        stale_at: None,
    };
    db.apply_activity_event(&env_with_seq(Actor::User, Event::RunStarted { run }, 1));

    let select =
        Query::new("SELECT verb, project_id, task_id, new_value FROM activity WHERE seq = 1");
    let row = &db.fetch(select)[0];
    assert_eq!(row.get::<String, _>("verb"), "run_started");
    assert_eq!(row.get::<Option<String>, _>("project_id"), Some(print_id(&project_id)));
    assert!(row.get::<Option<String>, _>("task_id").is_none());
    assert_eq!(row.get::<Option<String>, _>("new_value"), Some(print_id(&run_id)));
}

#[test]
fn verb_mapping_relations() {
    let db = Db::open();
    let from: TaskId = fresh();
    let to: TaskId = fresh();
    let relation_id: RelationId = fresh();
    let at = now();

    let linked =
        Event::TaskLinked {
            relation_id,
            from,
            to,
            kind: RelationKind::Blocks,
            actor: Actor::User,
            occurred_at: at,
        };
    db.apply_activity_event(&env_with_seq(Actor::User, linked, 1));
    let (rows, _, _) = db.activity(from, None, 10, None);
    assert_eq!(rows.len(), 1);
    assert_eq!(rows[0].verb, Verb::Linked);
    assert!(
        rows[0].new_value.as_deref().unwrap_or("").contains(&print_id(&relation_id)),
        "linked new_value must contain relation_id"
    );

    let unlinked =
        Event::TaskUnlinked { relation_id, from, to, kind: RelationKind::Blocks, occurred_at: at };
    db.apply_activity_event(&env_with_seq(Actor::User, unlinked, 2));
    let (rows2, _, _) = db.activity(from, None, 10, None);
    assert_eq!(rows2.len(), 2);
    assert_eq!(rows2[1].verb, Verb::Unlinked);

    let blocker: TaskId = fresh();
    let unblocked =
        Event::TaskUnblocked { task_id: from, unblocked_by: blocker, occurred_at: at };
    db.apply_activity_event(&env_with_seq(Actor::User, unblocked, 3));
    let (rows3, _, _) = db.activity(from, None, 10, None);
    assert_eq!(rows3.len(), 3);
    assert_eq!(rows3[2].verb, Verb::Unblocked);
    assert!(
        rows3[2].new_value.as_deref().unwrap_or("").contains(&print_id(&blocker)),
        "unblocked new_value must contain unblocked_by task id"
    );
}

fn plan_updated(plan_id: PlanId, title: Option<&str>, parent: Option<Option<PlanId>>) -> Event {
    Event::PlanUpdated {
        plan_id,
        patch: PlanPatch {
            title: title.map(str::to_string),
            description: None,
            goal: None,
            success_criteria: None,
            parent_plan_id: parent,
        },
    }
}

#[test]
fn plan_updated_with_parent_change_writes_plan_reparented_row() {
    let db = Db::open();
    let plan_id: PlanId = fresh();
    let parent_id: PlanId = fresh();
    db.seed_plan(plan_id, fresh());
    let updated = plan_updated(plan_id, None, Some(Some(parent_id)));
    db.apply_activity_event(&env_with_seq(Actor::User, updated, 1));

    let row =
        &db.fetch(Query::new("SELECT verb, field, new_value FROM activity WHERE seq = 1"))[0];
    assert_eq!(
        row.get::<String, _>("verb"),
        "plan_reparented",
        "re-parent must use PlanReparented verb"
    );
    assert_eq!(row.get::<Option<String>, _>("field").as_deref(), Some("parent_plan_id"));
    assert_eq!(
        row.get::<Option<String>, _>("new_value"),
        Some(print_id(&parent_id)),
        "new_value must contain the new parent id"
    );
}

#[test]
fn plan_updated_without_parent_change_writes_plan_modified_row() {
    let db = Db::open();
    let plan_id: PlanId = fresh();
    db.seed_plan(plan_id, fresh());
    let updated = plan_updated(plan_id, Some("New title"), None);
    db.apply_activity_event(&env_with_seq(Actor::User, updated, 1));

    let row = &db.fetch(Query::new("SELECT verb FROM activity WHERE seq = 1"))[0];
    assert_eq!(
        row.get::<String, _>("verb"),
        "plan_modified",
        "title-only update must use PlanModified verb"
    );
}

#[test]
fn plan_updated_unparent_writes_plan_reparented_row_with_null() {
    let db = Db::open();
    let plan_id: PlanId = fresh();
    db.seed_plan(plan_id, fresh());
    let updated = plan_updated(plan_id, None, Some(None));
    db.apply_activity_event(&env_with_seq(Actor::User, updated, 1));

    let row = &db.fetch(Query::new("SELECT verb, new_value FROM activity WHERE seq = 1"))[0];
    assert_eq!(row.get::<String, _>("verb"), "plan_reparented");
    assert_eq!(
        row.get::<Option<String>, _>("new_value").as_deref(),
        Some("null"),
        "unparent must record new_value = 'null'"
    );
}

#[test]
fn plan_modified_by_human_writes_no_row() {
    let db = Db::open();
    let modified = Event::PlanModifiedByHuman { plan_id: fresh(), during_run_id: None };
    db.apply_activity_event(&env_with_seq(Actor::User, modified, 1));
    let count = db.scalar(Query::new("SELECT COUNT(*) FROM activity"));
    assert_eq!(count, 0, "PlanModifiedByHuman must not produce an activity row");
}

#[test]
fn subsequent_task_events_inherit_project_id_from_created_row() {
    let db = Db::open();
    let task_id: TaskId = fresh();
    let project_id: ProjectId = fresh();
    let task = NewTask { project_id: Some(project_id), ..new_task(task_id, "inherit test") };
    db.apply_activity_event(&env_with_seq(Actor::User, Event::TaskCreated { task }, 1));
    let changed = status_changed(task_id, Status::Todo, Status::Done);
    db.apply_activity_event(&env_with_seq(Actor::User, changed, 2));

    let (rows, _, _) = db.activity(task_id, None, 10, None);
    assert_eq!(rows.len(), 2);
    assert_eq!(rows[0].project_id, Some(project_id), "created row must have project_id");
    assert_eq!(
        rows[1].project_id,
        Some(project_id),
        "status_changed row must inherit project_id from created row"
    );
}

#[test]
fn applying_an_event_again_leaves_the_feed_as_it_is() {
    let db = Db::open();
    let task_id: TaskId = fresh();
    let created =
        env_with_seq(Actor::User, Event::TaskCreated { task: new_task(task_id, "once") }, 1);
    db.apply_activity_event(&created);
    let first = db.activity(task_id, None, 10, None);
    db.apply_activity_event(&created);
    assert_eq!(db.activity(task_id, None, 10, None), first);
    let found = db.find::<ActivityRow>(ActivityRepo::get(&first.0[0].id));
    assert_eq!(found, Some(first.0[0].clone()));
}

#[test]
fn an_empty_verb_filter_finds_nothing() {
    let db = Db::open();
    let task_id: TaskId = fresh();
    db.apply_activity_event(&env_with_seq(Actor::User, Event::TaskDeleted { task_id }, 1));
    assert_eq!(db.activity(task_id, None, 10, Some(vec![])), (vec![], None, false));
}
