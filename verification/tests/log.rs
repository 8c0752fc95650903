//! The event log, commands, inboxes, snapshots and devices, against SQLite.

use daruma_storage::agent_inbox_repo::AgentInboxRepo;
use daruma_storage::device_repo::{Device, DeviceRepo, DeviceRow};
use daruma_storage::domain::{
    Actor, NewTask, ObsolescenceKind, Priority, Status, Task, WorkUnit,
};
use daruma_storage::error::CoreError;
use daruma_storage::event_store::{BatchStep, Entry, EventRow, SqliteEventStore};
use daruma_storage::events::{Event, EventEnvelope};
use daruma_storage::idempotency_repo::{CommandRow, IdempotencyRepo};
use daruma_storage::ids::{
    parse_id, print_id, AgentId, DeviceId, EventId, TokenId, TypedId,
};
use daruma_storage::query::{Bound, Query};
use daruma_storage::rows::{decode_all, decode_optional, Column, Decode, Parsed};
use daruma_storage::snapshot_repo::{ProjectionSnapshot, Snapshot, SnapshotRepo, SnapshotRow};
use daruma_storage::time::Timestamp;
use sqlx::sqlite::{
    Sqlite, SqliteArguments, SqlitePool, SqlitePoolOptions, SqliteQueryResult, SqliteRow,
};
use sqlx::{Arguments, Row};
use std::cell::RefCell;

const SCHEMA: &str = "
CREATE TABLE events (
    seq INTEGER PRIMARY KEY AUTOINCREMENT,
    event_id TEXT NOT NULL UNIQUE,
    occurred_at TEXT NOT NULL,
    kind TEXT NOT NULL,
    actor_json TEXT NOT NULL,
    payload_json TEXT NOT NULL,
    origin_device_id TEXT,
    origin_seq INTEGER NOT NULL DEFAULT 0
);
CREATE TABLE processed_command_ids (
    client_command_id TEXT PRIMARY KEY,
    server_event_id TEXT NOT NULL,
    server_event_seq INTEGER NOT NULL,
    created_at TEXT NOT NULL
);
CREATE TABLE agent_acks (
    agent_id TEXT PRIMARY KEY,
    last_acked_seq INTEGER NOT NULL,
    updated_at TEXT NOT NULL
);
CREATE TABLE snapshots (
    id TEXT PRIMARY KEY,
    seq INTEGER NOT NULL,
    created_at TEXT NOT NULL,
    payload_json TEXT NOT NULL
);
CREATE TABLE devices (
    id TEXT PRIMARY KEY,
    label TEXT NOT NULL,
    created_at TEXT NOT NULL,
    last_seen_at TEXT,
    revoked_at TEXT
);
CREATE TABLE tokens (
    id TEXT PRIMARY KEY,
    device_id TEXT
);
";

/// A database in memory, asked through the library's queries.
struct Db {
    runtime: tokio::runtime::Runtime,
    pool: SqlitePool,
    events: RefCell<Vec<Event>>,
    snapshots: RefCell<Vec<ProjectionSnapshot>>,
}

impl Db {
    fn open() -> Db {
        let runtime = tokio::runtime::Builder::new_current_thread().enable_all().build().unwrap();
        let pool = runtime.block_on(async {
            let pool = SqlitePoolOptions::new()
                .max_connections(1)
                .connect("sqlite::memory:")
                .await
                .unwrap();
            sqlx::raw_sql(SCHEMA).execute(&pool).await.unwrap();
            pool
        });
        Db {
            runtime,
            pool,
            events: RefCell::new(Vec::new()),
            snapshots: RefCell::new(Vec::new()),
        }
    }

    fn arguments(&self, binds: Vec<Bound>) -> SqliteArguments<'static> {
        let mut arguments = SqliteArguments::default();
        for bound in binds {
            match bound {
                Bound::Null => arguments.add(None::<String>),
                Bound::Text(s) => arguments.add(s),
                Bound::Int(n) => arguments.add(n),
                Bound::Bool(b) => arguments.add(b),
                Bound::Actor(a) => arguments.add(actor_to_json(&a)),
                other => panic!("not bound here: {other:?}"),
            }
            .unwrap();
        }
        arguments
    }

    fn execute(&self, query: Query) -> Result<SqliteQueryResult, sqlx::Error> {
        let arguments = self.arguments(query.binds);
        self.runtime.block_on(sqlx::query_with(&query.sql, arguments).execute(&self.pool))
    }

    /// Runs a statement, and says how many rows it changed.
    fn run(&self, query: Query) -> u64 {
        self.execute(query).unwrap().rows_affected()
    }

    fn fetch(&self, query: Query) -> Vec<SqliteRow> {
        let arguments = self.arguments(query.binds);
        self.runtime
            .block_on(sqlx::query_with(&query.sql, arguments).fetch_all(&self.pool))
            .unwrap()
    }

    fn rows<R: ReadRow>(&self, query: Query) -> Vec<R> {
        self.fetch(query).iter().map(|row| R::read(row, self)).collect()
    }

    fn row<R: ReadRow>(&self, query: Query) -> Option<R> {
        self.rows(query).pop()
    }

    fn list<R: ReadRow + Decode>(&self, query: Query) -> Vec<R::Record> {
        decode_all(self.rows::<R>(query)).unwrap()
    }

    fn find<R: ReadRow + Decode>(&self, query: Query) -> Option<R::Record> {
        decode_optional(self.row::<R>(query)).unwrap()
    }

    fn actor_from_json(&self, json: &str) -> Result<Actor, String> {
        let value: serde_json::Value = serde_json::from_str(json).map_err(|e| e.to_string())?;
        match value["kind"].as_str() {
            Some("user") => Ok(Actor::User),
            Some("agent") => Ok(Actor::Agent {
                id: parse_id(value["id"].as_str().unwrap()).unwrap(),
                name: value["name"].as_str().unwrap().to_string(),
            }),
            _ => Err("no actor".to_string()),
        }
    }

    /// Stands for an event by its place in a list.
    fn event_to_json(&self, event: &Event) -> String {
        let mut events = self.events.borrow_mut();
        events.push(event.clone());
        (events.len() - 1).to_string()
    }

    fn event_from_json(&self, json: &str) -> Result<Event, String> {
        let place: usize = json.parse().map_err(|_| format!("no event: {json}"))?;
        self.events.borrow().get(place).cloned().ok_or_else(|| "no event".to_string())
    }

    /// Stands for a snapshot by its place in a list.
    fn snapshot_to_json(&self, snapshot: &ProjectionSnapshot) -> String {
        let mut snapshots = self.snapshots.borrow_mut();
        snapshots.push(snapshot.clone());
        (snapshots.len() - 1).to_string()
    }

    fn snapshot_from_json(&self, json: &str) -> Result<ProjectionSnapshot, String> {
        let place: usize = json.parse().map_err(|_| format!("no snapshot: {json}"))?;
        self.snapshots.borrow().get(place).cloned().ok_or_else(|| "no snapshot".to_string())
    }

    fn append(&self, envelope: EventEnvelope) -> EventEnvelope {
        let payload_json = self.event_to_json(&envelope.payload);
        let insert = SqliteEventStore::append(&envelope, &payload_json);
        let rowid = self.execute(insert).unwrap().last_insert_rowid();
        SqliteEventStore::appended(envelope, rowid)
    }

    fn append_batch(&self, envelopes: Vec<EventEnvelope>) -> Vec<EventEnvelope> {
        let entries = envelopes
            .into_iter()
            .map(|env| {
                let payload_json = self.event_to_json(&env.payload);
                Entry { env, payload_json }
            })
            .collect();
        let mut batch = SqliteEventStore::append_batch(entries);
        loop {
            match batch.next() {
                BatchStep::Insert { insert, chunk, rest } => {
                    let last = self.execute(insert).unwrap().last_insert_rowid();
                    batch = rest.inserted(chunk, last);
                }
                BatchStep::Done { appended } => return appended,
            }
        }
    }

    fn load_since(&self, seq: u64, limit: usize) -> Vec<EventEnvelope> {
        self.list::<EventRow>(SqliteEventStore::load_since(seq, limit))
    }

    fn latest_seq(&self) -> u64 {
        let row = &self.fetch(SqliteEventStore::latest_seq())[0];
        SqliteEventStore::read_latest_seq(column(row, "max_seq")).unwrap()
    }

    fn lookup(&self, repo: &IdempotencyRepo, command: u128) -> Option<(EventId, u64)> {
        let query = repo.lookup(command)?;
        IdempotencyRepo::found(self.row::<CommandRow>(query)).unwrap()
    }

    fn insert_command(
        &self,
        repo: &mut IdempotencyRepo,
        command: u128,
        event_id: EventId,
        seq: u64,
    ) {
        self.run(IdempotencyRepo::insert(command, &event_id, seq, &now()));
        repo.note(command);
    }

    fn reserve(&self, repo: &mut IdempotencyRepo, client_event_id: EventId) -> bool {
        let changed = self.run(IdempotencyRepo::reserve_event_id(&client_event_id, &now()));
        repo.note(client_event_id.uuid);
        IdempotencyRepo::was_reserved(changed)
    }

    /// A command that was written past the filter.
    fn seed_command(&self, command: uuid::Uuid, event_id: EventId, created_at: &str) {
        let insert = Query::new(
            "INSERT INTO processed_command_ids \
             (client_command_id, server_event_id, server_event_seq, created_at) \
             VALUES (?, ?, 1, ?)",
        );
        self.run(insert.text(&command.to_string()).id(&event_id).text(created_at));
    }

    fn cursor(&self, agent_id: AgentId) -> u64 {
        let rows = self.fetch(AgentInboxRepo::get_cursor(&agent_id));
        AgentInboxRepo::read_cursor(rows.first().map(|row| column(row, "last_acked_seq"))).unwrap()
    }

    fn ack(&self, agent_id: AgentId, seq: u64) -> u64 {
        self.run(AgentInboxRepo::ack(&agent_id, seq, &now()));
        self.cursor(agent_id)
    }

    fn insert_snapshot(&self, seq: u64, payload: ProjectionSnapshot) -> Snapshot {
        let id = uuid::Uuid::new_v4().to_string();
        let payload_json = self.snapshot_to_json(&payload);
        let (insert, snapshot) = SnapshotRepo::insert(id, seq, now(), payload, &payload_json);
        self.run(insert);
        snapshot
    }

    fn latest_snapshot(&self) -> Option<Snapshot> {
        self.find::<SnapshotRow>(SnapshotRepo::latest())
    }

    fn insert_device(&self, label: &str) -> Device {
        let (insert, device) = DeviceRepo::insert(fresh(), label, now());
        self.run(insert);
        device
    }

    fn touch(&self, id: DeviceId, at: Timestamp) -> bool {
        let update = DeviceRepo::touch_last_seen_throttled(&id, &at).unwrap();
        DeviceRepo::was_changed(self.run(update))
    }
}

fn actor_to_json(actor: &Actor) -> String {
    match actor {
        Actor::User => r#"{"kind":"user"}"#.to_string(),
        Actor::Agent { id, name } => {
            format!(r#"{{"kind":"agent","id":"{}","name":"{name}"}}"#, print_id(id))
        }
    }
}

fn fresh<I: TypedId>() -> I {
    I::from_uuid(uuid::Uuid::new_v4().as_u128())
}

fn now() -> Timestamp {
    let now = chrono::Utc::now();
    Timestamp::new(now.timestamp(), now.timestamp_subsec_nanos()).unwrap()
}

fn env(actor: Actor, payload: Event) -> EventEnvelope {
    EventEnvelope::new(fresh(), now(), actor, payload)
}

/// A row that the library reads.
trait ReadRow: Sized {
    fn read(row: &SqliteRow, db: &Db) -> Self;
}

/// A column, or the driver's message.
fn column<'r, T>(row: &'r SqliteRow, name: &str) -> Column<T>
where
    T: sqlx::Decode<'r, Sqlite> + sqlx::Type<Sqlite>,
{
    row.try_get(name).map_err(|e| e.to_string())
}

/// A column of JSON text, and what it is read into.
fn json<T>(
    row: &SqliteRow,
    name: &str,
    read: impl Fn(&str) -> Parsed<T>,
) -> Column<Parsed<T>> {
    column::<String>(row, name).map(|s| read(&s))
}

impl ReadRow for EventRow {
    fn read(row: &SqliteRow, db: &Db) -> EventRow {
        EventRow {
            seq: column(row, "seq"),
            event_id: column(row, "event_id"),
            occurred_at: column(row, "occurred_at"),
            actor_json: json(row, "actor_json", |s| db.actor_from_json(s)),
            payload_json: json(row, "payload_json", |s| db.event_from_json(s)),
            origin_device_id: column(row, "origin_device_id"),
            origin_seq: column(row, "origin_seq"),
        }
    }
}

impl ReadRow for CommandRow {
    fn read(row: &SqliteRow, _db: &Db) -> CommandRow {
        CommandRow {
            server_event_id: column(row, "server_event_id"),
            server_event_seq: column(row, "server_event_seq"),
        }
    }
}

impl ReadRow for SnapshotRow {
    fn read(row: &SqliteRow, db: &Db) -> SnapshotRow {
        SnapshotRow {
            id: column(row, "id"),
            seq: column(row, "seq"),
            created_at: column(row, "created_at"),
            payload_json: json(row, "payload_json", |s| db.snapshot_from_json(s)),
        }
    }
}

impl ReadRow for DeviceRow {
    fn read(row: &SqliteRow, _db: &Db) -> DeviceRow {
        DeviceRow {
            id: column(row, "id"),
            label: column(row, "label"),
            created_at: column(row, "created_at"),
            last_seen_at: column(row, "last_seen_at"),
            revoked_at: column(row, "revoked_at"),
        }
    }
}

fn new_task(title: &str) -> NewTask {
    NewTask {
        id: None,
        project_id: None,
        title: title.to_string(),
        description: None,
        status: None,
        priority: None,
        triage_state: None,
        due_at: None,
    }
}

fn task_created(title: &str) -> EventEnvelope {
    env(Actor::User, Event::TaskCreated { task: new_task(title) })
}

// ── events ───────────────────────────────────────────────────────────────────

#[test]
fn round_trip_append_load_since() {
    let db = Db::open();
    let envelope = task_created("test round-trip");
    let original_id = envelope.id;

    let saved = db.append(envelope);
    assert!(saved.seq > 0, "seq should be assigned by the store");
    assert_eq!(saved.id, original_id, "id must be preserved");

    let loaded = db.load_since(0, 100);
    assert_eq!(loaded.len(), 1);
    assert_eq!(loaded[0].id, original_id);
    assert_eq!(loaded[0].seq, saved.seq);
    assert_eq!(loaded[0], saved);

    assert_eq!(db.latest_seq(), saved.seq);
    assert!(db.load_since(saved.seq, 100).is_empty());
}

#[test]
fn load_by_id_returns_matching_event() {
    let db = Db::open();
    let saved = db.append(task_created("by id"));
    let loaded = db.find::<EventRow>(SqliteEventStore::load_by_id(&saved.id)).unwrap();
    assert_eq!(loaded.id, saved.id);
    assert_eq!(loaded.seq, saved.seq);
    assert!(db.find::<EventRow>(SqliteEventStore::load_by_id(&fresh())).is_none());
}

#[test]
fn append_batch_begin_immediate() {
    let db = Db::open();
    let batch = (0..3).map(|i| task_created(&format!("task {i}"))).collect();
    let saved = db.append_batch(batch);
    assert_eq!(saved.len(), 3);
    assert!(saved[0].seq < saved[1].seq);
    assert!(saved[1].seq < saved[2].seq);
    assert_eq!(db.load_since(0, 100), saved);
}

#[test]
fn a_long_batch_is_numbered_without_gaps() {
    let db = Db::open();
    db.append(task_created("before"));
    let batch = (0..6500).map(|i| task_created(&format!("task {i}"))).collect();
    let saved = db.append_batch(batch);
    assert_eq!(saved.len(), 6500);
    for (i, envelope) in saved.iter().enumerate() {
        assert_eq!(envelope.seq, i as u64 + 2);
    }
    let page = db.load_since(2999, 3);
    assert_eq!(page, saved[2998..3001].to_vec());
    assert!(db.append_batch(vec![]).is_empty());
}

#[test]
fn round_trip_origin_device_metadata() {
    let db = Db::open();
    let device_id: DeviceId = fresh();
    let mut envelope = task_created("device event");
    envelope.origin_device_id = Some(device_id);
    envelope.origin_seq = 42;

    let saved = db.append(envelope);
    let loaded = db.load_since(0, 100);
    assert_eq!(loaded.len(), 1);
    assert_eq!(loaded[0].id, saved.id);
    assert_eq!(loaded[0].origin_device_id, Some(device_id));
    assert_eq!(loaded[0].origin_seq, 42);
}

#[test]
fn events_keep_what_no_projection_reads() {
    let db = Db::open();
    let kind = ObsolescenceKind { json: "\"archived\"".to_string() };
    let work_unit = WorkUnit { id: fresh(), json: "{\"title\":\"a unit\"}".to_string() };
    let rest = "{\"paths\":[\"src/lib.rs\"]}".to_string();
    let events = vec![
        Event::PlanModifiedByHuman { plan_id: fresh(), during_run_id: Some(fresh()) },
        Event::RunObsolescedByPlanEdit { run_id: fresh(), plan_id: fresh(), kind },
        Event::WorkUnitCreated { work_unit },
        Event::FilesReserved { rest },
        Event::Other { kind: "unit_seen".to_string(), json: "{\"by\":3}".to_string() },
    ];
    let saved: Vec<EventEnvelope> =
        events.into_iter().map(|event| db.append(env(Actor::User, event))).collect();
    assert_eq!(db.load_since(0, 100), saved);
    let kinds: Vec<String> = db
        .fetch(Query::new("SELECT kind FROM events ORDER BY seq"))
        .iter()
        .map(|row| row.get(0))
        .collect();
    assert_eq!(
        kinds,
        [
            "plan_modified_by_human",
            "run_obsolesced_by_plan_edit",
            "work_unit_created",
            "files_reserved",
            "unit_seen",
        ]
    );
}

#[test]
fn an_event_that_cannot_be_read_is_reported() {
    let db = Db::open();
    let saved = db.append(task_created("bad"));
    db.run(Query::new("UPDATE events SET payload_json = 'nonsense'"));
    let row = db.row::<EventRow>(SqliteEventStore::load_by_id(&saved.id));
    assert_eq!(decode_optional(row), Err(CoreError::Serde("no event: nonsense".to_string())));
}

// ── commands ─────────────────────────────────────────────────────────────────

fn command() -> u128 {
    uuid::Uuid::new_v4().as_u128()
}

#[test]
fn idempotency_lookup_miss_returns_none() {
    let db = Db::open();
    let repo = IdempotencyRepo::new();
    assert!(db.lookup(&repo, command()).is_none());
}

#[test]
fn idempotency_insert_and_lookup_hit() {
    let db = Db::open();
    let mut repo = IdempotencyRepo::new();
    let ccid = command();
    let event_id: EventId = fresh();
    db.insert_command(&mut repo, ccid, event_id, 42);
    let result = db.lookup(&repo, ccid);
    assert!(result.is_some());
    let (stored_id, stored_seq) = result.unwrap();
    assert_eq!(stored_id, event_id);
    assert_eq!(stored_seq, 42);
}

#[test]
fn idempotency_duplicate_insert_is_ignored() {
    let db = Db::open();
    let mut repo = IdempotencyRepo::new();
    let ccid = command();
    let event_id: EventId = fresh();
    db.insert_command(&mut repo, ccid, event_id, 1);
    db.insert_command(&mut repo, ccid, fresh(), 2);
    let (stored_id, stored_seq) = db.lookup(&repo, ccid).unwrap();
    assert_eq!(stored_id, event_id);
    assert_eq!(stored_seq, 1);
}

#[test]
fn event_id_reservation_blocks_until_completed() {
    let db = Db::open();
    let mut repo = IdempotencyRepo::new();
    let client: EventId = fresh();
    let server: EventId = fresh();

    assert!(db.reserve(&mut repo, client));
    assert!(!db.reserve(&mut repo, client));
    assert!(db.lookup(&repo, client.uuid).is_none());

    db.run(IdempotencyRepo::complete_event_id(&client, &server, 7));
    assert_eq!(db.lookup(&repo, client.uuid), Some((server, 7)));
    // What is completed stays.
    assert_eq!(db.run(IdempotencyRepo::complete_event_id(&client, &fresh(), 8)), 0);
    let by_event = repo.lookup_event_id(&client).unwrap();
    assert_eq!(
        IdempotencyRepo::found(db.row::<CommandRow>(by_event)),
        Ok(Some((server, 7)))
    );
}

#[test]
fn idempotency_cleanup_older_than() {
    let db = Db::open();
    let mut repo = IdempotencyRepo::new();
    db.seed_command(uuid::Uuid::new_v4(), fresh(), "2000-01-01T00:00:00+00:00");
    db.insert_command(&mut repo, command(), fresh(), 2);

    let cutoff = IdempotencyRepo::cutoff(&now(), 24 * 3600, 0).unwrap();
    assert_eq!(db.run(IdempotencyRepo::cleanup_older_than(&cutoff)), 1);
    let left: i64 = db.fetch(Query::new("SELECT COUNT(*) FROM processed_command_ids"))[0].get(0);
    assert_eq!(left, 1);
}

#[test]
fn bloom_warm_seeds_existing_rows() {
    let db = Db::open();
    let mut repo = IdempotencyRepo::new();
    let ccid = uuid::Uuid::new_v4();
    let event_id: EventId = fresh();
    db.seed_command(ccid, event_id, &now().to_rfc3339());
    // The filter does not know of the command yet.
    assert!(repo.lookup(ccid.as_u128()).is_none());

    let mut ids: Vec<String> =
        db.fetch(IdempotencyRepo::warm()).iter().map(|row| row.get(0)).collect();
    ids.push("no uuid".to_string());
    repo.warmed(&ids);
    assert_eq!(db.lookup(&repo, ccid.as_u128()), Some((event_id, 1)));
}

#[test]
fn the_filter_forgets_no_command() {
    let mut repo = IdempotencyRepo::new();
    let commands: Vec<u128> = (0..1000).map(|_| command()).collect();
    for command in &commands {
        repo.note(*command);
    }
    assert!(commands.iter().all(|command| repo.lookup(*command).is_some()));
    // A few strangers may pass, not many.
    let strangers = (0..1000).filter(|_| repo.lookup(command()).is_some()).count();
    assert!(strangers < 100, "{strangers} of a thousand");
}

#[test]
fn a_reserved_or_negative_place_is_no_result() {
    let row = |id: EventId, seq| CommandRow {
        server_event_id: Ok(print_id(&id)),
        server_event_seq: Ok(seq),
    };
    assert_eq!(IdempotencyRepo::found(Some(row(EventId { uuid: 0 }, 5))), Ok(None));
    assert_eq!(IdempotencyRepo::found(Some(row(EventId { uuid: 1 }, 0))), Ok(None));
    assert_eq!(IdempotencyRepo::found(Some(row(EventId { uuid: 1 }, -3))), Ok(None));
    let broken = CommandRow { server_event_id: Ok("x".to_string()), server_event_seq: Ok(1) };
    assert!(matches!(IdempotencyRepo::found(Some(broken)), Err(CoreError::Serde(_))));
}

// ── inboxes ──────────────────────────────────────────────────────────────────

#[test]
fn cursor_starts_at_zero_for_unknown_agent() {
    let db = Db::open();
    assert_eq!(db.cursor(fresh()), 0);
}

#[test]
fn ack_is_monotonic() {
    let db = Db::open();
    let id: AgentId = fresh();
    assert_eq!(db.ack(id, 5), 5);
    assert_eq!(db.ack(id, 10), 10);
    assert_eq!(db.ack(id, 3), 10, "older ack must not regress");
    assert_eq!(db.cursor(id), 10);
}

#[test]
fn the_last_ack_is_dated() {
    let db = Db::open();
    let id: AgentId = fresh();
    let read = |id: AgentId| {
        let rows = db.fetch(AgentInboxRepo::last_ack_at(&id));
        AgentInboxRepo::read_last_ack_at(rows.first().map(|row| column(row, "updated_at")))
    };
    assert_eq!(read(id), Ok(None));
    let at = now();
    db.run(AgentInboxRepo::ack(&id, 1, &at));
    assert_eq!(read(id), Ok(Some(at)));
}

#[test]
fn a_negative_cursor_is_zero() {
    assert_eq!(AgentInboxRepo::read_cursor(Some(Ok(-7))), Ok(0));
    assert_eq!(
        AgentInboxRepo::read_cursor(Some(Err("gone".to_string()))),
        Err(CoreError::Storage("gone".to_string()))
    );
}

// ── snapshots ────────────────────────────────────────────────────────────────

fn payload_with_task(title: &str) -> ProjectionSnapshot {
    let at = now();
    let task = Task {
        id: fresh(),
        project_id: None,
        title: title.to_string(),
        description: String::new(),
        status: Status::Inbox,
        priority: Priority::P2,
        triage_state: None,
        due_at: None,
        created_at: at,
        updated_at: at,
        started_at: None,
        completed_at: None,
        created_by: None,
        completed_by: None,
        updated_by: None,
        updated_event_id: None,
        updated_event_seq: None,
        source_event_id: None,
    };
    ProjectionSnapshot { tasks: vec![task], projects: vec![], comments: vec![] }
}

#[test]
fn insert_then_latest_round_trips() {
    let db = Db::open();
    assert!(db.latest_snapshot().is_none());

    let payload = payload_with_task("snapshotted");
    let written = db.insert_snapshot(42, payload.clone());
    assert_eq!(written.seq, 42);

    let latest = db.latest_snapshot().expect("snapshot exists");
    assert_eq!(latest.id, written.id);
    assert_eq!(latest.seq, 42);
    assert_eq!(latest.payload, payload);
}

#[test]
fn latest_returns_highest_seq_and_prune_keeps_newest() {
    let db = Db::open();
    db.insert_snapshot(10, ProjectionSnapshot::default());
    db.insert_snapshot(30, ProjectionSnapshot::default());
    db.insert_snapshot(20, ProjectionSnapshot::default());
    assert_eq!(db.latest_snapshot().unwrap().seq, 30);

    assert_eq!(db.run(SnapshotRepo::prune_keep_latest(2)), 1);
    assert_eq!(db.latest_snapshot().unwrap().seq, 30);

    assert_eq!(db.run(SnapshotRepo::prune_keep_latest(1)), 1);
    assert_eq!(db.latest_snapshot().unwrap().seq, 30);
}

// ── devices ──────────────────────────────────────────────────────────────────

#[test]
fn bind_token_and_revoke_marks_token_device_revoked() {
    let db = Db::open();
    let token: TokenId = fresh();
    db.run(Query::new("INSERT INTO tokens (id, device_id) VALUES (?, NULL)").id(&token));
    let device = db.insert_device("laptop");
    db.run(DeviceRepo::bind_token(&token, &device.id));
    let at = now();
    assert!(DeviceRepo::was_changed(db.run(DeviceRepo::revoke(&device.id, &at))));

    let select = Query::new(
        "SELECT t.device_id, d.revoked_at FROM tokens t \
         LEFT JOIN devices d ON d.id = t.device_id WHERE t.id = ?",
    );
    let row = &db.fetch(select.id(&token))[0];
    assert_eq!(row.get::<Option<String>, _>("device_id"), Some(print_id(&device.id)));
    assert_eq!(row.get::<Option<String>, _>("revoked_at"), Some(at.to_rfc3339()));

    // The first revocation counts.
    db.run(DeviceRepo::revoke(&device.id, &at.later(60, 0).unwrap()));
    let listed = db.list::<DeviceRow>(DeviceRepo::list());
    assert_eq!(listed.len(), 1);
    assert_eq!(listed[0].revoked_at, Some(at));
    assert!(!DeviceRepo::was_changed(db.run(DeviceRepo::revoke(&fresh(), &at))));
}

#[test]
fn last_seen_is_throttled() {
    let db = Db::open();
    let device = db.insert_device("phone");
    let at = now();
    assert!(db.touch(device.id, at));
    assert!(!db.touch(device.id, at));
    assert!(!db.touch(device.id, at.later(59, 0).unwrap()));
    assert!(db.touch(device.id, at.later(60, 0).unwrap()));
    assert!(!db.touch(fresh(), at));
}

#[test]
fn the_calendar_has_a_first_minute() {
    let first = Timestamp::new(-8_334_601_228_800, 0).unwrap();
    assert!(DeviceRepo::touch_last_seen_throttled(&fresh(), &first).is_none());
    assert_eq!(Timestamp::new(-8_334_601_228_801, 0), None);
}
