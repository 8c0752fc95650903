//! Projects and what belongs to them, against SQLite.

use daruma_storage::artifact_repo::{
    ArtifactRelationRow, ArtifactRepo, ArtifactRow, ArtifactStep,
};
use daruma_storage::capability_profile_repo::{CapabilityProfileRepo, UnitRow};
use daruma_storage::comment_repo::{CommentRepo, CommentRow, CommentStep};
use daruma_storage::domain::{
    Actor, Artifact, ArtifactRelation, ArtifactRelationKind, ArtifactStatus, AutoAppendSettings,
    Comment, CommentKind, CommentPatch, ExternalRef, IntakeSourcePolicy, Project, Relation,
    RelationKind, DEFAULT_TENANT_ID,
};
use daruma_storage::error::CoreError;
use daruma_storage::events::{Event, EventEnvelope};
use daruma_storage::external_ref_repo::{ExternalRefRepo, InternalIdRow};
use daruma_storage::ids::{
    parse_id, print_id, AgentId, ArtifactId, ArtifactRelationId, CommentId, PlanId, ProjectId,
    RelationId, TaskId, TypedId, WorkUnitId,
};
use daruma_storage::project_repo::{ProjectRepo, ProjectRow, ProjectStep};
use daruma_storage::project_settings_repo::ProjectSettingsRepo;
use daruma_storage::query::{Bound, Query};
use daruma_storage::relation_repo::{Refusal, RelationRepo, RelationRow};
use daruma_storage::repo_scope_repo::{RepoScopeRepo, ScopeRow};
use daruma_storage::rows::{decode_all, decode_optional, Column, Decode, Parsed};
use daruma_storage::tenant_quota_repo::{TenantQuotaRepo, TenantStep};
use daruma_storage::time::Timestamp;
use sqlx::sqlite::{
    Sqlite, SqliteArguments, SqlitePool, SqlitePoolOptions, SqliteQueryResult, SqliteRow,
};
use sqlx::{Arguments, Row};

const SCHEMA: &str = "
CREATE TABLE tenants (
    id TEXT PRIMARY KEY,
    max_tasks INTEGER,
    max_plans INTEGER,
    max_storage_mb INTEGER,
    updated_at TEXT
);
CREATE TABLE projects (
    id TEXT PRIMARY KEY,
    tenant_id TEXT,
    slug TEXT NOT NULL,
    title TEXT NOT NULL,
    description TEXT,
    triage_enabled INTEGER NOT NULL DEFAULT 0,
    created_at TEXT NOT NULL,
    updated_at TEXT NOT NULL
);
CREATE TABLE project_identifier_aliases (
    alias TEXT PRIMARY KEY,
    project_id TEXT NOT NULL,
    created_at TEXT NOT NULL
);
CREATE TABLE project_settings (
    project_id TEXT NOT NULL,
    key TEXT NOT NULL,
    value TEXT NOT NULL,
    updated_at TEXT NOT NULL,
    PRIMARY KEY (project_id, key)
);
CREATE TABLE tasks (
    id TEXT PRIMARY KEY,
    project_id TEXT
);
CREATE TABLE plans (
    id TEXT PRIMARY KEY,
    project_id TEXT NOT NULL
);
CREATE TABLE task_relations (
    id TEXT PRIMARY KEY,
    from_task TEXT NOT NULL,
    to_task TEXT NOT NULL,
    kind TEXT NOT NULL,
    created_at TEXT NOT NULL,
    actor_json TEXT NOT NULL,
    UNIQUE (from_task, to_task, kind)
);
CREATE TABLE comments (
    id TEXT PRIMARY KEY,
    task_id TEXT NOT NULL,
    parent_id TEXT,
    author_json TEXT NOT NULL,
    body TEXT NOT NULL,
    kind TEXT,
    created_at TEXT NOT NULL,
    edited_at TEXT,
    deleted_at TEXT
);
CREATE TABLE external_refs (
    tenant TEXT NOT NULL,
    kind TEXT NOT NULL,
    external_id TEXT NOT NULL,
    internal_id TEXT NOT NULL,
    created_at TEXT NOT NULL,
    PRIMARY KEY (tenant, kind, external_id)
);
CREATE TABLE repo_scopes (
    scope_path TEXT PRIMARY KEY,
    project_id TEXT NOT NULL,
    updated_at TEXT NOT NULL
);
CREATE TABLE artifacts (
    id TEXT PRIMARY KEY,
    uri TEXT NOT NULL UNIQUE,
    title TEXT NOT NULL,
    description TEXT NOT NULL,
    status TEXT NOT NULL,
    owner_agent_id TEXT,
    task_id TEXT,
    project_id TEXT,
    version TEXT,
    last_write_token INTEGER,
    created_at TEXT NOT NULL,
    updated_at TEXT NOT NULL
);
CREATE TABLE artifact_relations (
    id TEXT PRIMARY KEY,
    from_id TEXT NOT NULL,
    to_id TEXT NOT NULL,
    kind TEXT NOT NULL,
    created_at TEXT NOT NULL,
    UNIQUE (from_id, to_id, kind)
);
CREATE TABLE work_leases (
    id TEXT PRIMARY KEY,
    agent_id TEXT NOT NULL,
    target_uri TEXT NOT NULL,
    fencing_token INTEGER NOT NULL,
    expires_at TEXT NOT NULL
);
CREATE TABLE work_units (
    id TEXT PRIMARY KEY,
    owner_agent_id TEXT,
    capability_tags_json TEXT NOT NULL
);
CREATE TABLE agent_capability_profiles (
    agent_id TEXT NOT NULL,
    capability TEXT NOT NULL,
    score REAL NOT NULL,
    confidence REAL NOT NULL,
    evidence_count INTEGER NOT NULL,
    last_observed_at TEXT NOT NULL,
    decay_half_life_days REAL NOT NULL DEFAULT 30.0,
    source TEXT NOT NULL,
    updated_at TEXT NOT NULL,
    PRIMARY KEY (agent_id, capability)
);
";

/// A database in memory, asked through the library's queries.
struct Db {
    runtime: tokio::runtime::Runtime,
    pool: SqlitePool,
}

impl Db {
    fn open() -> Db {
        let runtime = tokio::runtime::Builder::new_current_thread().enable_all().build().unwrap();
        let pool = runtime.block_on(async {
            let pool = SqlitePoolOptions::new()
                .max_connections(1)
                .connect("sqlite::memory:")
                .await
                .unwrap();
            sqlx::raw_sql(SCHEMA).execute(&pool).await.unwrap();
            pool
        });
        Db { runtime, pool }
    }

    fn arguments(&self, binds: Vec<Bound>) -> SqliteArguments<'static> {
        let mut arguments = SqliteArguments::default();
        for bound in binds {
            match bound {
                Bound::Null => arguments.add(None::<String>),
                Bound::Text(s) => arguments.add(s),
                Bound::Int(n) => arguments.add(n),
                Bound::Bool(b) => arguments.add(b),
                Bound::Actor(a) => arguments.add(actor_to_json(&a)),
                Bound::AutoAppend(s) => {
                    arguments.add(format!("[{},{}]", s.interview, s.human_log))
                }
                Bound::Tenths(n) => arguments.add(f64::from(n) / 10.0),
                other => panic!("not bound here: {other:?}"),
            }
            .unwrap();
        }
        arguments
    }

    fn execute(&self, query: Query) -> Result<SqliteQueryResult, sqlx::Error> {
        let arguments = self.arguments(query.binds);
        self.runtime.block_on(sqlx::query_with(&query.sql, arguments).execute(&self.pool))
    }

    /// Runs a statement, and says how many rows it changed.
    fn run(&self, query: Query) -> u64 {
        self.execute(query).unwrap().rows_affected()
    }

    fn fetch(&self, query: Query) -> Vec<SqliteRow> {
        let arguments = self.arguments(query.binds);
        self.runtime
            .block_on(sqlx::query_with(&query.sql, arguments).fetch_all(&self.pool))
            .unwrap()
    }

    fn rows<R: ReadRow>(&self, query: Query) -> Vec<R> {
        self.fetch(query).iter().map(|row| R::read(row, self)).collect()
    }

    fn row<R: ReadRow>(&self, query: Query) -> Option<R> {
        self.rows(query).pop()
    }

    fn list<R: ReadRow + Decode>(&self, query: Query) -> Vec<R::Record> {
        decode_all(self.rows::<R>(query)).unwrap()
    }

    fn find<R: ReadRow + Decode>(&self, query: Query) -> Option<R::Record> {
        decode_optional(self.row::<R>(query)).unwrap()
    }

    fn actor_from_json(&self, json: &str) -> Result<Actor, String> {
        let value: serde_json::Value = serde_json::from_str(json).map_err(|e| e.to_string())?;
        match value["kind"].as_str() {
            Some("user") => Ok(Actor::User),
            Some("agent") => Ok(Actor::Agent {
                id: parse_id(value["id"].as_str().unwrap()).unwrap(),
                name: value["name"].as_str().unwrap().to_string(),
            }),
            _ => Err("no actor".to_string()),
        }
    }

    fn project(&self, id: ProjectId) -> Option<Project> {
        self.find::<ProjectRow>(ProjectRepo::get(&id))
    }

    fn apply_project_event(&self, payload: Event) {
        let envelope = env(Actor::User, payload);
        match ProjectRepo::apply_event(&envelope) {
            ProjectStep::Ignore => {}
            ProjectStep::Run { statement } => {
                self.run(statement);
            }
            ProjectStep::Update { load } => {
                let Event::ProjectUpdated { title, description, .. } = &envelope.payload else {
                    panic!("nothing else updates a project");
                };
                let found = self.find::<ProjectRow>(load);
                let old_slug = found.as_ref().map(|p| slugify(&p.title)).unwrap_or_default();
                let new_slug = title.as_deref().map(slugify).unwrap_or_default();
                let statements = ProjectRepo::loaded(
                    found,
                    title,
                    description,
                    &old_slug,
                    &new_slug,
                    &envelope.occurred_at,
                );
                for statement in statements {
                    self.run(statement);
                }
            }
        }
    }

    fn auto_append(&self, project: ProjectId) -> AutoAppendSettings {
        let rows = self.fetch(ProjectSettingsRepo::auto_append(&project));
        let value = rows.first().map(|row| {
            column::<String>(row, "value").map(|s| {
                let (interview, human_log): (bool, bool) =
                    serde_json::from_str(&s).map_err(|e| e.to_string())?;
                Ok(AutoAppendSettings { interview, human_log })
            })
        });
        ProjectSettingsRepo::read_auto_append(value).unwrap()
    }

    fn intake_source(&self, project: ProjectId) -> Option<IntakeSourcePolicy> {
        let rows = self.fetch(ProjectSettingsRepo::intake_source(&project));
        let value: Option<String> = rows.first().map(|row| row.get(0));
        ProjectSettingsRepo::read_intake_source(value.map(|json| Ok(IntakeSourcePolicy { json })))
            .unwrap()
    }

    fn apply_settings(
        &self,
        project_id: ProjectId,
        interview: bool,
        human_log: bool,
        intake_source: Option<Option<IntakeSourcePolicy>>,
    ) {
        let auto_append = AutoAppendSettings { interview, human_log };
        let event =
            Event::ProjectSettingsChanged { project_id, auto_append, at: now(), intake_source };
        for query in ProjectSettingsRepo::apply_event(&env(Actor::User, event)) {
            self.run(query);
        }
    }

    fn insert_relation(&self, relation: &Relation) -> Result<(), CoreError> {
        match self.execute(RelationRepo::insert(relation)) {
            Ok(_) => Ok(()),
            Err(e) => {
                let database = match &e {
                    sqlx::Error::Database(refused) => Some(refused.message().to_string()),
                    _ => None,
                };
                let refusal = Refusal { text: e.to_string(), database };
                Err(RelationRepo::insert_error(relation, refusal))
            }
        }
    }

    fn apply_comment_event(&self, payload: Event) {
        let envelope = env(Actor::User, payload);
        match CommentRepo::apply_event(&envelope) {
            CommentStep::Ignore => {}
            CommentStep::Run { statement } => {
                self.run(statement);
            }
            CommentStep::Edit { load } => {
                let Event::CommentEdited { patch, edited_at, .. } = &envelope.payload else {
                    panic!("nothing else edits a comment");
                };
                let found = self.find::<CommentRow>(load);
                if let Some(write) = CommentRepo::loaded(found, patch, *edited_at) {
                    self.run(write);
                }
            }
        }
    }

    fn comment(&self, id: CommentId) -> Option<Comment> {
        self.find::<CommentRow>(CommentRepo::get(&id))
    }

    fn comments(&self, task_id: TaskId) -> Vec<Comment> {
        self.list::<CommentRow>(CommentRepo::list_for_task(&task_id))
    }

    fn lookup_ref(&self, tenant: &str, kind: &str, external_id: &str) -> Option<String> {
        self.find::<InternalIdRow>(ExternalRefRepo::lookup(tenant, kind, external_id))
    }

    fn scopes(&self) -> Vec<(String, String)> {
        self.list::<ScopeRow>(RepoScopeRepo::list())
    }

    fn artifact(&self, id: ArtifactId) -> Option<Artifact> {
        self.find::<ArtifactRow>(ArtifactRepo::get(&id))
    }

    fn apply_artifact_event(&self, payload: Event) {
        match ArtifactRepo::apply_event(&env(Actor::User, payload)) {
            ArtifactStep::Run { statements } => {
                for statement in statements {
                    self.run(statement);
                }
            }
            ArtifactStep::CheckWrite { select, check } => {
                let artifact = self.find::<ArtifactRow>(select);
                let found = match check.lease(&artifact, &now()) {
                    Some(lease) => !self.fetch(lease).is_empty(),
                    None => false,
                };
                if let Some(update) = check.commit(found) {
                    self.run(update);
                }
            }
        }
    }

    fn apply_capability_event(&self, payload: Event) {
        let envelope = env(Actor::User, payload);
        if let Some((select, signal)) = CapabilityProfileRepo::apply_event(&envelope) {
            let row = self.row::<UnitRow>(select);
            if let Some(credit) = CapabilityProfileRepo::unit_owner_and_tags(row).unwrap() {
                for query in
                    CapabilityProfileRepo::fold_signals(&credit, signal, &envelope.occurred_at)
                {
                    self.run(query);
                }
            }
        }
    }

    fn seed_unit(&self, owner: Option<AgentId>, tags: &str) -> WorkUnitId {
        let id: WorkUnitId = fresh();
        let insert = Query::new(
            "INSERT INTO work_units (id, owner_agent_id, capability_tags_json) VALUES (?, ?, ?)",
        );
        self.run(insert.id(&id).opt_id(&owner).text(tags));
        id
    }

    fn seed_tenant(&self, id: &str) {
        self.run(Query::new("INSERT INTO tenants (id) VALUES (?)").text(id));
    }

    fn optional_scalar<T>(&self, query: Query) -> Option<Option<T>>
    where
        Option<T>: for<'r> sqlx::Decode<'r, Sqlite> + sqlx::Type<Sqlite>,
    {
        self.fetch(query).first().map(|row| row.get(0))
    }

    fn check_task_quota(&self, project_id: Option<ProjectId>) -> Result<(), CoreError> {
        let tenant = match TenantQuotaRepo::check_task_quota(&project_id) {
            TenantStep::Known { tenant_id } => tenant_id,
            TenantStep::Ask { select } => {
                TenantQuotaRepo::tenant_or_default(self.optional_scalar(select))
            }
        };
        let limit = self.optional_scalar(TenantQuotaRepo::task_limit(&tenant));
        match TenantQuotaRepo::count_tasks(&tenant, limit) {
            None => Ok(()),
            Some((limit, count)) => {
                TenantQuotaRepo::admit_task(limit, self.fetch(count)[0].get(0))
            }
        }
    }

    fn check_plan_quota(&self, project_id: ProjectId) -> Result<(), CoreError> {
        let select = TenantQuotaRepo::check_plan_quota(&project_id);
        let tenant = TenantQuotaRepo::tenant_or_default(self.optional_scalar(select));
        let limit = self.optional_scalar(TenantQuotaRepo::plan_limit(&tenant));
        match TenantQuotaRepo::count_plans(&tenant, limit) {
            None => Ok(()),
            Some((limit, count)) => {
                TenantQuotaRepo::admit_plan(limit, self.fetch(count)[0].get(0))
            }
        }
    }
}

fn actor_to_json(actor: &Actor) -> String {
    match actor {
        Actor::User => r#"{"kind":"user"}"#.to_string(),
        Actor::Agent { id, name } => {
            format!(r#"{{"kind":"agent","id":"{}","name":"{name}"}}"#, print_id(id))
        }
    }
}

fn fresh<I: TypedId>() -> I {
    I::from_uuid(uuid::Uuid::new_v4().as_u128())
}

fn now() -> Timestamp {
    let now = chrono::Utc::now();
    Timestamp::new(now.timestamp(), now.timestamp_subsec_nanos()).unwrap()
}

fn env(actor: Actor, payload: Event) -> EventEnvelope {
    EventEnvelope::new(fresh(), now(), actor, payload)
}

/// A row that the library reads.
trait ReadRow: Sized {
    fn read(row: &SqliteRow, db: &Db) -> Self;
}

/// A column, or the driver's message.
fn column<'r, T>(row: &'r SqliteRow, name: &str) -> Column<T>
where
    T: sqlx::Decode<'r, Sqlite> + sqlx::Type<Sqlite>,
{
    row.try_get(name).map_err(|e| e.to_string())
}

/// A column of JSON text, and what it is read into.
fn json<T>(
    row: &SqliteRow,
    name: &str,
    read: impl Fn(&str) -> Parsed<T>,
) -> Column<Parsed<T>> {
    column::<String>(row, name).map(|s| read(&s))
}

impl ReadRow for ProjectRow {
    fn read(row: &SqliteRow, _db: &Db) -> ProjectRow {
        ProjectRow {
            id: column(row, "id"),
            tenant_id: column(row, "tenant_id"),
            slug: column(row, "slug"),
            title: column(row, "title"),
            description: column(row, "description"),
            triage_enabled: column(row, "triage_enabled"),
            created_at: column(row, "created_at"),
            updated_at: column(row, "updated_at"),
        }
    }
}

impl ReadRow for RelationRow {
    fn read(row: &SqliteRow, db: &Db) -> RelationRow {
        RelationRow {
            id: column(row, "id"),
            from_task: column(row, "from_task"),
            to_task: column(row, "to_task"),
            kind: column(row, "kind"),
            created_at: column(row, "created_at"),
            actor_json: json(row, "actor_json", |s| db.actor_from_json(s)),
        }
    }
}

impl ReadRow for CommentRow {
    fn read(row: &SqliteRow, db: &Db) -> CommentRow {
        CommentRow {
            id: column(row, "id"),
            task_id: column(row, "task_id"),
            parent_id: column(row, "parent_id"),
            author_json: json(row, "author_json", |s| db.actor_from_json(s)),
            body: column(row, "body"),
            kind: column(row, "kind"),
            created_at: column(row, "created_at"),
            edited_at: column(row, "edited_at"),
            deleted_at: column(row, "deleted_at"),
        }
    }
}

impl ReadRow for InternalIdRow {
    fn read(row: &SqliteRow, _db: &Db) -> InternalIdRow {
        InternalIdRow {
            internal_id: column(row, "internal_id"),
        }
    }
}

impl ReadRow for ScopeRow {
    fn read(row: &SqliteRow, _db: &Db) -> ScopeRow {
        ScopeRow {
            scope_path: column(row, "scope_path"),
            project_id: column(row, "project_id"),
        }
    }
}

impl ReadRow for ArtifactRow {
    fn read(row: &SqliteRow, _db: &Db) -> ArtifactRow {
        ArtifactRow {
            id: column(row, "id"),
            uri: column(row, "uri"),
            title: column(row, "title"),
            description: column(row, "description"),
            status: column(row, "status"),
            owner_agent_id: column(row, "owner_agent_id"),
            task_id: column(row, "task_id"),
            project_id: column(row, "project_id"),
            version: column(row, "version"),
            last_write_token: column(row, "last_write_token"),
            created_at: column(row, "created_at"),
            updated_at: column(row, "updated_at"),
        }
    }
}

impl ReadRow for ArtifactRelationRow {
    fn read(row: &SqliteRow, _db: &Db) -> ArtifactRelationRow {
        ArtifactRelationRow {
            id: column(row, "id"),
            from_id: column(row, "from_id"),
            to_id: column(row, "to_id"),
            kind: column(row, "kind"),
            created_at: column(row, "created_at"),
        }
    }
}

impl ReadRow for UnitRow {
    fn read(row: &SqliteRow, _db: &Db) -> UnitRow {
        UnitRow {
            owner_agent_id: column(row, "owner_agent_id"),
            capability_tags_json: column(row, "capability_tags_json"),
        }
    }
}

fn slugify(title: &str) -> String {
    title.to_lowercase().replace(' ', "-")
}

// ── projects ─────────────────────────────────────────────────────────────────

fn new_project(title: &str, description: Option<&str>) -> Project {
    let at = now();
    Project {
        id: fresh(),
        tenant_id: None,
        slug: slugify(title),
        title: title.to_string(),
        description: description.map(str::to_string),
        triage_enabled: false,
        created_at: at,
        updated_at: at,
    }
}

#[test]
fn project_created_and_retrieved() {
    let db = Db::open();
    let project = new_project("my project", Some("a description"));
    let id = project.id;
    db.apply_project_event(Event::ProjectCreated { project });

    let found = db.project(id).expect("project should exist");
    assert_eq!(found.id, id);
    assert_eq!(found.tenant_id.as_deref(), Some(DEFAULT_TENANT_ID));
    assert_eq!(found.title, "my project");
    assert_eq!(found.description.as_deref(), Some("a description"));
    assert_eq!(db.list::<ProjectRow>(ProjectRepo::list_all()).len(), 1);
}

#[test]
fn project_updated_patches_title() {
    let db = Db::open();
    let project = new_project("old title", None);
    let id = project.id;
    db.apply_project_event(Event::ProjectCreated { project });
    db.apply_project_event(Event::ProjectUpdated {
        project_id: id,
        title: Some("new title".to_string()),
        description: None,
    });

    let updated = db.project(id).unwrap();
    assert_eq!(updated.title, "new title");
    assert_eq!(updated.slug, "old-title");

    let by_slug = |slug| db.find::<ProjectRow>(ProjectRepo::find_by_slug(slug));
    let by_old_slug = by_slug("old-title").expect("old canonical slug should still resolve");
    assert_eq!(by_old_slug.id, id);
    let by_new_alias = by_slug("new-title").expect("new title alias should resolve");
    assert_eq!(by_new_alias.id, id);
    assert!(by_slug("other-title").is_none());

    db.apply_project_event(Event::ProjectUpdated {
        project_id: id,
        title: None,
        description: Some(Some("what it is".to_string())),
    });
    assert_eq!(db.project(id).unwrap().description.as_deref(), Some("what it is"));
    db.apply_project_event(Event::ProjectDeleted { project_id: id });
    assert!(db.project(id).is_none());
    assert!(!ProjectRepo::was_deleted(db.run(ProjectRepo::delete(&id))));
}

#[test]
fn list_by_tenant_scopes_projects() {
    let db = Db::open();
    for (tenant, title) in [("tenant-a", "tenant one"), ("tenant-b", "tenant two")] {
        let mut project = new_project(title, None);
        project.tenant_id = Some(tenant.to_string());
        db.apply_project_event(Event::ProjectCreated { project });
    }
    let tenant_a = db.list::<ProjectRow>(ProjectRepo::list_by_tenant("tenant-a"));
    assert_eq!(tenant_a.len(), 1);
    assert_eq!(tenant_a[0].title, "tenant one");
}

#[test]
fn triage_is_switched_on_known_projects() {
    let db = Db::open();
    let project = new_project("triage", None);
    let id = project.id;
    db.run(ProjectRepo::upsert_project(&project));
    let changed = db.run(ProjectRepo::set_triage_enabled(&id, true, &now()));
    let read = ProjectRepo::after_triage(changed, &id).unwrap();
    assert!(db.find::<ProjectRow>(read).unwrap().triage_enabled);
    let unchanged = db.run(ProjectRepo::set_triage_enabled(&fresh(), true, &now()));
    assert!(ProjectRepo::after_triage(unchanged, &id).is_none());
}

// ── settings ─────────────────────────────────────────────────────────────────

#[test]
fn defaults_then_event_roundtrip() {
    let db = Db::open();
    let project: ProjectId = fresh();
    let s = db.auto_append(project);
    assert!(s.interview && s.human_log, "missing row = defaults ON");

    db.apply_settings(project, false, true, None);
    let s = db.auto_append(project);
    assert!(!s.interview);
    assert!(s.human_log);
}

#[test]
fn intake_source_set_kept_by_legacy_event_then_removed() {
    let db = Db::open();
    let project: ProjectId = fresh();
    assert!(db.intake_source(project).is_none());

    let policy = IntakeSourcePolicy { json: r#"{"mode":"enforce"}"#.to_string() };
    db.apply_settings(project, true, true, Some(Some(policy.clone())));
    assert_eq!(db.intake_source(project), Some(policy.clone()));

    // An event that does not speak of the policy leaves it as it is.
    db.apply_settings(project, false, true, None);
    assert!(!db.auto_append(project).interview);
    assert_eq!(db.intake_source(project), Some(policy));

    db.apply_settings(project, true, true, Some(None));
    assert!(db.intake_source(project).is_none());
}

// ── relations ────────────────────────────────────────────────────────────────

fn make_relation(from: TaskId, to: TaskId, kind: RelationKind) -> Relation {
    Relation { id: fresh(), from, to, kind, created_at: now(), created_by: Actor::User }
}

#[test]
fn insert_get_roundtrip() {
    let db = Db::open();
    let (from, to): (TaskId, TaskId) = (fresh(), fresh());
    let rel = make_relation(from, to, RelationKind::Blocks);
    db.insert_relation(&rel).unwrap();

    let fetched =
        db.find::<RelationRow>(RelationRepo::get(&rel.id)).expect("relation must exist");
    assert_eq!(fetched.id, rel.id);
    assert_eq!(fetched.from, from);
    assert_eq!(fetched.to, to);
    assert_eq!(fetched.kind, RelationKind::Blocks);
    assert_eq!(fetched, rel);
}

#[test]
fn duplicate_insert_returns_conflict() {
    let db = Db::open();
    let (from, to): (TaskId, TaskId) = (fresh(), fresh());
    db.insert_relation(&make_relation(from, to, RelationKind::Blocks)).unwrap();
    let err = db.insert_relation(&make_relation(from, to, RelationKind::Blocks)).unwrap_err();
    match err {
        CoreError::Conflict(msg) => {
            assert!(
                msg.contains("relation_exists"),
                "expected relation_exists in conflict message, got: {msg}"
            );
        }
        other => panic!("expected Conflict, got: {other:?}"),
    }

    // Any other refusal is the database's.
    db.run(Query::new("DROP TABLE task_relations"));
    let refused = db.insert_relation(&make_relation(from, to, RelationKind::Blocks));
    assert!(matches!(refused, Err(CoreError::Storage(_))));
}

#[test]
fn list_by_task_returns_both_directions() {
    let db = Db::open();
    let (a, b, c): (TaskId, TaskId, TaskId) = (fresh(), fresh(), fresh());
    db.insert_relation(&make_relation(a, b, RelationKind::Blocks)).unwrap();
    db.insert_relation(&make_relation(c, a, RelationKind::RelatesTo)).unwrap();
    db.insert_relation(&make_relation(b, c, RelationKind::Duplicates)).unwrap();

    let results = db.list::<RelationRow>(RelationRepo::list_by_task(&a));
    assert_eq!(results.len(), 2, "should return exactly the 2 edges touching a");
    let all = db.list::<RelationRow>(RelationRepo::list_by_task_ids(&vec![a, b]).unwrap());
    assert_eq!(all.len(), 3);
    assert!(RelationRepo::list_by_task_ids(&vec![]).is_none());
}

#[test]
fn delete_returns_true_then_false() {
    let db = Db::open();
    let rel = make_relation(fresh(), fresh(), RelationKind::RelatesTo);
    db.insert_relation(&rel).unwrap();
    let delete = || RelationRepo::was_changed(db.run(RelationRepo::delete(&rel.id)));
    assert!(delete(), "first delete must return true");
    assert!(!delete(), "second delete must return false");
}

#[test]
fn list_blockers_and_targets() {
    let db = Db::open();
    let (blocker, blocked): (TaskId, TaskId) = (fresh(), fresh());
    let rel = make_relation(blocker, blocked, RelationKind::Blocks);
    db.insert_relation(&rel).unwrap();

    let blockers = db.list::<RelationRow>(RelationRepo::list_blockers(&blocked));
    assert_eq!(blockers.len(), 1);
    assert_eq!(blockers[0].from, blocker);
    let targets = db.list::<RelationRow>(RelationRepo::list_blocks_targets(&blocker));
    assert_eq!(targets.len(), 1);
    assert_eq!(targets[0].to, blocked);
    assert!(db.list::<RelationRow>(RelationRepo::list_blockers(&blocker)).is_empty());

    let update = RelationRepo::update_kind(&rel.id, RelationKind::WasBlocking);
    assert!(RelationRepo::was_changed(db.run(update)));
    assert!(db.list::<RelationRow>(RelationRepo::list_blockers(&blocked)).is_empty());
    let nobody: RelationId = fresh();
    let update = RelationRepo::update_kind(&nobody, RelationKind::Blocks);
    assert!(!RelationRepo::was_changed(db.run(update)));
}

// ── comments ─────────────────────────────────────────────────────────────────

fn make_comment(task_id: TaskId, body: &str, kind: Option<CommentKind>) -> Comment {
    Comment {
        id: fresh(),
        task_id,
        author: Actor::User,
        body: body.to_string(),
        parent_id: None,
        kind,
        created_at: now(),
        edited_at: None,
        deleted_at: None,
    }
}

fn add(db: &Db, comment: &Comment) {
    db.apply_comment_event(Event::CommentAdded { comment: comment.clone() });
}

fn edit(db: &Db, comment: &Comment, body: &str) {
    db.apply_comment_event(Event::CommentEdited {
        comment_id: comment.id,
        task_id: comment.task_id,
        patch: CommentPatch { body: Some(body.to_string()) },
        edited_at: now(),
    });
}

#[test]
fn apply_comment_added_and_list() {
    let db = Db::open();
    let task_id: TaskId = fresh();
    let comment = make_comment(task_id, "hello", None);
    add(&db, &comment);

    let list = db.comments(task_id);
    assert_eq!(list.len(), 1);
    assert_eq!(list[0].id, comment.id);
    assert_eq!(list[0].body, "hello");
}

#[test]
fn apply_comment_edited_updates_body() {
    let db = Db::open();
    let comment = make_comment(fresh(), "hello", None);
    add(&db, &comment);
    edit(&db, &comment, "updated");

    let got = db.comment(comment.id).unwrap();
    assert_eq!(got.body, "updated");
    assert!(got.edited_at.is_some());
}

#[test]
fn soft_delete_excludes_from_list() {
    let db = Db::open();
    let task_id: TaskId = fresh();
    let comment = make_comment(task_id, "hello", None);
    add(&db, &comment);
    db.apply_comment_event(Event::CommentDeleted {
        comment_id: comment.id,
        task_id,
        deleted_at: now(),
    });

    assert!(db.comments(task_id).is_empty());
    assert!(db.comment(comment.id).unwrap().deleted_at.is_some());
}

#[test]
fn get_returns_none_for_missing() {
    let db = Db::open();
    assert!(db.comment(fresh()).is_none());
}

#[test]
fn insert_without_kind_round_trips_as_none() {
    let db = Db::open();
    let task_id: TaskId = fresh();
    let comment = make_comment(task_id, "hello", None);
    assert!(comment.kind.is_none());
    add(&db, &comment);

    assert_eq!(db.comment(comment.id).unwrap().kind, None);
    let list = db.comments(task_id);
    assert_eq!(list.len(), 1);
    assert_eq!(list[0].kind, None);
}

#[test]
fn insert_with_kind_round_trips_via_select() {
    let db = Db::open();
    let task_id: TaskId = fresh();
    let comment = make_comment(task_id, "research note", Some(CommentKind::Research));
    add(&db, &comment);

    assert_eq!(db.comment(comment.id).unwrap().kind, Some(CommentKind::Research));
    let list = db.comments(task_id);
    assert_eq!(list.len(), 1);
    assert_eq!(list[0].kind, Some(CommentKind::Research));
}

#[test]
fn each_comment_kind_round_trips() {
    let db = Db::open();
    let task_id: TaskId = fresh();
    for kind in [CommentKind::Intent, CommentKind::Research] {
        let comment = make_comment(task_id, "research note", Some(kind));
        add(&db, &comment);
        let got = db.comment(comment.id).unwrap();
        assert_eq!(got.kind, Some(kind), "round-trip failed for {kind:?}");
    }
}

#[test]
fn edit_preserves_kind() {
    let db = Db::open();
    let comment = make_comment(fresh(), "research note", Some(CommentKind::Intent));
    add(&db, &comment);
    edit(&db, &comment, "revised intent");

    let got = db.comment(comment.id).unwrap();
    assert_eq!(got.body, "revised intent");
    assert_eq!(got.kind, Some(CommentKind::Intent));
}

#[test]
fn bodies_are_searched_within_a_project() {
    let db = Db::open();
    let project: ProjectId = fresh();
    let (inside, outside): (TaskId, TaskId) = (fresh(), fresh());
    let insert = Query::new("INSERT INTO tasks (id, project_id) VALUES (?, ?)");
    db.run(insert.id(&inside).id(&project));
    add(&db, &make_comment(inside, "Ship the 100% fix", None));
    add(&db, &make_comment(outside, "ship something else", None));

    let search = |pattern: &str, project: Option<ProjectId>| {
        db.list::<CommentRow>(CommentRepo::search_body(pattern, &project, 10)).len()
    };
    assert_eq!(search("%ship%", None), 2);
    assert_eq!(search("%ship%", Some(project)), 1);
    assert_eq!(search("%100\\%%", None), 1);
    assert_eq!(search("%ship%", Some(fresh())), 0);
}

// ── external references and directories ──────────────────────────────────────

fn make_ext(tenant: &str, external_id: &str, plan_id: PlanId) -> ExternalRef {
    ExternalRef {
        tenant: tenant.to_string(),
        kind: "plan".to_string(),
        external_id: external_id.to_string(),
        internal_id: print_id(&plan_id),
        created_at: now(),
    }
}

#[test]
fn external_ref_insert_and_lookup() {
    let db = Db::open();
    let plan_id: PlanId = fresh();
    db.run(ExternalRefRepo::insert(&make_ext("omc", "plan-ext-001", plan_id)));
    assert_eq!(db.lookup_ref("omc", "plan", "plan-ext-001"), Some(print_id(&plan_id)));
}

#[test]
fn external_ref_lookup_miss_returns_none() {
    let db = Db::open();
    assert!(db.lookup_ref("omc", "plan", "nonexistent").is_none());
}

#[test]
fn external_ref_duplicate_insert_is_rejected() {
    let db = Db::open();
    let ext = make_ext("omc", "plan-ext-001", fresh());
    db.run(ExternalRefRepo::insert(&ext));
    let again = db.execute(ExternalRefRepo::insert(&ext));
    assert!(again.is_err(), "duplicate insert should be rejected by PK");
}

#[test]
fn external_ref_different_tenants_are_independent() {
    let db = Db::open();
    let (p1, p2): (PlanId, PlanId) = (fresh(), fresh());
    db.run(ExternalRefRepo::insert(&make_ext("omc", "shared-ext-id", p1)));
    db.run(ExternalRefRepo::insert(&make_ext("github", "shared-ext-id", p2)));
    assert_eq!(db.lookup_ref("omc", "plan", "shared-ext-id"), Some(print_id(&p1)));
    assert_eq!(db.lookup_ref("github", "plan", "shared-ext-id"), Some(print_id(&p2)));
}

#[test]
fn set_list_remove_roundtrip() {
    let db = Db::open();
    assert!(db.scopes().is_empty());

    db.run(RepoScopeRepo::set("/home/u/projects/app", "prj-a", &now()));
    db.run(RepoScopeRepo::set("/home/u/projects/lib", "prj-b", &now()));
    db.run(RepoScopeRepo::set("/home/u/projects/app", "prj-c", &now()));
    assert_eq!(
        db.scopes(),
        vec![
            ("/home/u/projects/app".to_string(), "prj-c".to_string()),
            ("/home/u/projects/lib".to_string(), "prj-b".to_string()),
        ]
    );

    db.run(RepoScopeRepo::remove("/home/u/projects/app"));
    assert_eq!(
        db.scopes(),
        vec![("/home/u/projects/lib".to_string(), "prj-b".to_string())]
    );
}

// ── artifacts ────────────────────────────────────────────────────────────────

fn seed_artifact(db: &Db, uri: &str) -> Artifact {
    let at = now();
    let artifact = Artifact {
        id: fresh(),
        uri: uri.to_string(),
        title: format!("Artifact {uri}"),
        description: String::new(),
        status: ArtifactStatus::Pending,
        owner_agent_id: None,
        task_id: None,
        project_id: None,
        version: None,
        last_write_token: None,
        created_at: at,
        updated_at: at,
    };
    db.apply_artifact_event(Event::ArtifactRegistered { artifact: artifact.clone() });
    artifact
}

fn activate(db: &Db, artifact_id: ArtifactId) {
    db.apply_artifact_event(Event::ArtifactStatusChanged {
        artifact_id,
        from: ArtifactStatus::Pending,
        to: ArtifactStatus::Active,
        at: now(),
    });
}

#[test]
fn register_and_get_by_id_and_uri() {
    let db = Db::open();
    let a = seed_artifact(&db, "artifact://api/users");
    let by_id = db.artifact(a.id).expect("found by id");
    assert_eq!(by_id.uri, "artifact://api/users");
    assert_eq!(by_id, a);
    let by_uri = db
        .find::<ArtifactRow>(ArtifactRepo::get_by_uri("artifact://api/users"))
        .expect("found by uri");
    assert_eq!(by_uri.id, a.id);
}

#[test]
fn owner_assigned_updates_row() {
    let db = Db::open();
    let a = seed_artifact(&db, "artifact://api/schema");
    let agent: AgentId = fresh();
    db.apply_artifact_event(Event::ArtifactOwnerAssigned {
        artifact_id: a.id,
        owner_agent_id: agent,
        at: now(),
    });
    assert_eq!(db.artifact(a.id).unwrap().owner_agent_id, Some(agent));
}

#[test]
fn status_changed_updates_row() {
    let db = Db::open();
    let a = seed_artifact(&db, "artifact://svc/queue");
    activate(&db, a.id);
    assert_eq!(db.artifact(a.id).unwrap().status, ArtifactStatus::Active);
}

fn commit_write(db: &Db, artifact_id: ArtifactId, agent_id: AgentId, fencing_token: i64) {
    db.apply_artifact_event(Event::ArtifactWriteCommitted {
        artifact_id,
        agent_id,
        fencing_token,
        version: Some("v1".to_string()),
        at: now(),
    });
}

#[test]
fn stale_fencing_token_write_rejected() {
    let db = Db::open();
    let a = seed_artifact(&db, "artifact://db/migrations");
    commit_write(&db, a.id, fresh(), 42);

    let row = db.artifact(a.id).unwrap();
    assert_eq!(row.status, ArtifactStatus::Pending);
    assert!(row.version.is_none());
    assert!(row.last_write_token.is_none());
}

#[test]
fn a_write_under_a_live_lease_is_committed() {
    let db = Db::open();
    let a = seed_artifact(&db, "artifact://db/live");
    let agent: AgentId = fresh();
    let lease = Query::new(
        "INSERT INTO work_leases (id, agent_id, target_uri, fencing_token, expires_at) \
         VALUES ('l', ?, ?, 42, ?)",
    );
    db.run(lease.id(&agent).text(&a.uri).time(&now().later(60, 0).unwrap()));
    commit_write(&db, a.id, agent, 41);
    commit_write(&db, a.id, fresh(), 42);
    assert_eq!(db.artifact(a.id).unwrap().last_write_token, None);
    commit_write(&db, a.id, agent, 42);
    let row = db.artifact(a.id).unwrap();
    assert_eq!(row.status, ArtifactStatus::Committed);
    assert_eq!(row.version.as_deref(), Some("v1"));
    assert_eq!(row.last_write_token, Some(42));
    commit_write(&db, fresh(), agent, 42);
}

#[test]
fn list_filters_by_status() {
    let db = Db::open();
    let pending = seed_artifact(&db, "artifact://svc/pending");
    let active = seed_artifact(&db, "artifact://svc/active");
    activate(&db, active.id);

    let list = |status| db.list::<ArtifactRow>(ArtifactRepo::list(&None, &None, &status));
    assert_eq!(list(None).len(), 2);
    let only_active = list(Some(ArtifactStatus::Active));
    assert_eq!(only_active.len(), 1);
    assert_eq!(only_active[0].id, active.id);
    let only_pending = list(Some(ArtifactStatus::Pending));
    assert_eq!(only_pending.len(), 1);
    assert_eq!(only_pending[0].id, pending.id);
    let of_task = ArtifactRepo::list(&Some(fresh()), &Some(fresh()), &None);
    assert!(db.list::<ArtifactRow>(of_task).is_empty());
}

#[test]
fn deprecated_event_sets_status() {
    let db = Db::open();
    let a = seed_artifact(&db, "artifact://api/v1/legacy");
    db.apply_artifact_event(Event::ArtifactDeprecated {
        artifact_id: a.id,
        reason: Some("superseded by v2".to_string()),
        at: now(),
    });
    assert_eq!(db.artifact(a.id).unwrap().status, ArtifactStatus::Deprecated);
}

#[test]
fn a_change_touches_what_it_names() {
    let db = Db::open();
    let a = seed_artifact(&db, "artifact://api/v1/changed");
    db.apply_artifact_event(Event::ArtifactChanged {
        artifact_id: a.id,
        title: None,
        description: Some("about".to_string()),
        rest: "{}".to_string(),
    });
    let row = db.artifact(a.id).unwrap();
    assert_eq!((row.title, row.description.as_str()), (a.title, "about"));
}

#[test]
fn relation_added_and_removed() {
    let db = Db::open();
    let a1 = seed_artifact(&db, "artifact://svc/auth");
    let a2 = seed_artifact(&db, "contract://auth@v1");
    let relation_id: ArtifactRelationId = fresh();
    let kind = ArtifactRelationKind::Implements;
    let relation = ArtifactRelation {
        id: relation_id,
        from_id: a1.id,
        to_id: a2.id,
        kind,
        created_at: now(),
    };
    db.apply_artifact_event(Event::ArtifactRelationAdded { relation: relation.clone() });

    let relations = || db.list::<ArtifactRelationRow>(ArtifactRepo::relations_for(&a1.id));
    let rels = relations();
    assert_eq!(rels.len(), 1);
    assert_eq!(rels[0].kind, ArtifactRelationKind::Implements);
    assert_eq!(rels[0], relation);

    db.apply_artifact_event(Event::ArtifactRelationRemoved {
        relation_id,
        from_id: a1.id,
        to_id: a2.id,
        kind,
        at: now(),
    });
    assert!(relations().is_empty());
}

// ── capabilities ─────────────────────────────────────────────────────────────

fn profiles(db: &Db, agent: AgentId) -> Vec<(String, f64, i64, String)> {
    db.fetch(CapabilityProfileRepo::list_for_agent(&agent))
        .iter()
        .map(|row| {
            (
                row.get("capability"),
                row.get("score"),
                row.get("evidence_count"),
                row.get("source"),
            )
        })
        .collect()
}

fn completed(work_unit_id: WorkUnitId) -> Event {
    Event::WorkUnitCompleted {
        work_unit_id,
        outcome: "ok".to_string(),
        at: now(),
        rest: "{\"produced_artifacts\":[],\"next_suggested_units\":[]}".to_string(),
    }
}

fn blocked(work_unit_id: WorkUnitId) -> Event {
    Event::WorkUnitBlocked { work_unit_id, reason: "stuck".to_string(), at: now() }
}

#[test]
fn completion_credits_the_holder_per_tag() {
    let db = Db::open();
    let agent: AgentId = fresh();
    let unit = db.seed_unit(Some(agent), r#"["frontend", "tests"]"#);
    db.apply_capability_event(completed(unit));

    let rows = profiles(&db, agent);
    assert_eq!(rows.len(), 2);
    for (_, score, evidence_count, source) in &rows {
        assert_eq!(*score, 1.0, "first signal lands at its value");
        assert_eq!(*evidence_count, 1);
        assert_eq!(source, "inferred");
    }

    // A second signal moves the score half the way: 1.0 + (0.3 - 1.0) / 2.
    let unit2 = db.seed_unit(Some(agent), r#"["frontend"]"#);
    db.apply_capability_event(blocked(unit2));
    let rows = profiles(&db, agent);
    let frontend = rows.iter().find(|row| row.0 == "frontend").unwrap();
    assert!((frontend.1 - 0.65).abs() < 1e-9, "got {}", frontend.1);
    assert_eq!(frontend.2, 2);
}

#[test]
fn user_set_rows_are_immune_to_mining_and_win() {
    let db = Db::open();
    let agent: AgentId = fresh();
    let insert = Query::new(
        "INSERT INTO agent_capability_profiles \
         (agent_id, capability, score, confidence, evidence_count, last_observed_at, \
          source, updated_at) \
         VALUES (?, 'db', 0.9, 1.0, 0, ?, 'user_set', ?)",
    );
    db.run(insert.id(&agent).time(&now()).time(&now()));

    let unit = db.seed_unit(Some(agent), r#"["db"]"#);
    db.apply_capability_event(blocked(unit));
    let rows = profiles(&db, agent);
    assert_eq!(rows.len(), 1);
    assert_eq!(rows[0].3, "user_set");
    assert_eq!(rows[0].1, 0.9);

    let deleted = db.run(CapabilityProfileRepo::delete(&agent, "db"));
    assert!(CapabilityProfileRepo::was_deleted(deleted));
    db.apply_capability_event(completed(unit));
    assert_eq!(profiles(&db, agent)[0].3, "inferred");
}

#[test]
fn unowned_or_untagged_units_emit_no_signal() {
    let db = Db::open();
    let agent: AgentId = fresh();
    let unowned = db.seed_unit(None, r#"["frontend"]"#);
    db.apply_capability_event(completed(unowned));
    let untagged = db.seed_unit(Some(agent), "[]");
    db.apply_capability_event(completed(untagged));
    db.apply_capability_event(completed(fresh()));
    let count: i64 =
        db.fetch(Query::new("SELECT COUNT(*) FROM agent_capability_profiles"))[0].get(0);
    assert_eq!(count, 0);
}

#[test]
fn a_released_unit_is_a_weak_signal() {
    let db = Db::open();
    let agent: AgentId = fresh();
    let unit = db.seed_unit(Some(agent), r#"["docs"]"#);
    let rest = "{}".to_string();
    db.apply_capability_event(Event::WorkUnitReleased { work_unit_id: unit, rest });
    assert_eq!(profiles(&db, agent)[0].1, 0.4);
}

// ── quotas ───────────────────────────────────────────────────────────────────

#[test]
fn a_full_tenant_takes_no_more_tasks() {
    let db = Db::open();
    db.seed_tenant("acme");
    let mut project = new_project("quota", None);
    project.tenant_id = Some("acme".to_string());
    db.run(ProjectRepo::upsert_project(&project));
    assert_eq!(db.check_task_quota(Some(project.id)), Ok(()));

    db.run(TenantQuotaRepo::set_limits("acme", Some(1), Some(0), None));
    assert_eq!(db.check_task_quota(Some(project.id)), Ok(()));
    let insert = Query::new("INSERT INTO tasks (id, project_id) VALUES ('t', ?)");
    db.run(insert.id(&project.id));
    assert_eq!(
        db.check_task_quota(Some(project.id)),
        Err(CoreError::QuotaExceeded { resource: "tasks".to_string(), limit: 1, current: 1 })
    );
    assert_eq!(
        db.check_plan_quota(project.id),
        Err(CoreError::QuotaExceeded { resource: "plans".to_string(), limit: 0, current: 0 })
    );
}

#[test]
fn tasks_without_a_project_count_for_the_default_tenant() {
    let db = Db::open();
    assert_eq!(db.check_task_quota(None), Ok(()));
    db.seed_tenant(DEFAULT_TENANT_ID);
    db.run(TenantQuotaRepo::set_limits(DEFAULT_TENANT_ID, Some(1), None, None));
    assert_eq!(db.check_task_quota(None), Ok(()));
    db.run(Query::new("INSERT INTO tasks (id, project_id) VALUES ('t', NULL)"));
    assert!(matches!(db.check_task_quota(None), Err(CoreError::QuotaExceeded { .. })));
    // An unknown project counts for the default tenant too.
    assert!(matches!(db.check_task_quota(Some(fresh())), Err(CoreError::QuotaExceeded { .. })));
    assert_eq!(db.check_plan_quota(fresh()), Ok(()));
}

#[test]
fn an_unknown_quota_is_refused() {
    assert_eq!(
        TenantQuotaRepo::limit_for("acme", "max_dreams"),
        Err(CoreError::Storage("unknown quota column".to_string()))
    );
}
