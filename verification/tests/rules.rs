//! Rules, evidence and audit findings, against SQLite.

use daruma_storage::audit_finding_repo::{AuditFindingRepo, FindingFilter, FindingRow};
use daruma_storage::domain::{
    Actor, ActorRef, AuditFinding, Condition, Evidence, EvidenceKind, FindingEntity,
    FindingSeverity, FindingSource, FindingStatus, NewFinding, Requirement, Rule, RuleMode,
    RuleScope, RuleTrigger,
};
use daruma_storage::error::CoreError;
use daruma_storage::events::{Event, EventEnvelope};
use daruma_storage::evidence_repo::{
    CandidateRow, EvidenceCheck, EvidenceRepo, EvidenceRequest, EvidenceRow, SearchAnswer,
    SearchStep,
};
use daruma_storage::ids::{
    AgentId, AuditFindingId, EvidenceId, PlanId, ProjectId, RuleId, TaskId, TypedId,
};
use daruma_storage::json::{parse_json, Json};
use daruma_storage::query::{Bound, Query};
use daruma_storage::rows::{decode_all, decode_optional, Column, Decode, Parsed};
use daruma_storage::rule_repo::{RuleRepo, RuleRow, RuleStep};
use daruma_storage::time::Timestamp;
use sqlx::sqlite::{
    Sqlite, SqliteArguments, SqlitePool, SqlitePoolOptions, SqliteQueryResult, SqliteRow,
};
use sqlx::{Arguments, Row};

const SCHEMA: &str = "
CREATE TABLE lifecycle_rules (
    id TEXT PRIMARY KEY,
    rule_key TEXT NOT NULL,
    title TEXT NOT NULL,
    scope_kind TEXT NOT NULL,
    scope_id TEXT,
    trigger TEXT NOT NULL,
    condition TEXT,
    requirement TEXT NOT NULL,
    mode TEXT NOT NULL,
    message TEXT NOT NULL,
    override_allowed INTEGER NOT NULL,
    enabled INTEGER NOT NULL,
    created_at TEXT NOT NULL,
    updated_at TEXT NOT NULL
);
CREATE TABLE evidence (
    id TEXT PRIMARY KEY,
    kind TEXT NOT NULL,
    scope_kind TEXT NOT NULL,
    scope_id TEXT,
    target TEXT,
    doc_version TEXT,
    actor_kind TEXT NOT NULL,
    actor_id TEXT,
    actor_name TEXT,
    reason TEXT NOT NULL,
    payload TEXT NOT NULL,
    project_id TEXT,
    plan_id TEXT,
    task_id TEXT,
    run_id TEXT,
    artifact_id TEXT,
    rule_id TEXT,
    recorded_at TEXT NOT NULL,
    superseded_by TEXT
);
CREATE TABLE audit_findings (
    id TEXT PRIMARY KEY,
    project_id TEXT NOT NULL,
    plan_id TEXT,
    task_id TEXT,
    document_id TEXT,
    artifact_id TEXT,
    check_key TEXT NOT NULL,
    category TEXT NOT NULL,
    severity TEXT NOT NULL,
    title TEXT NOT NULL,
    detail TEXT NOT NULL,
    remediation TEXT NOT NULL,
    source TEXT NOT NULL,
    status TEXT NOT NULL,
    first_seen_at TEXT NOT NULL,
    last_seen_at TEXT NOT NULL,
    resolved_by TEXT,
    resolved_at TEXT
);
";

/// A database in memory, asked through the library's queries.
struct Db {
    runtime: tokio::runtime::Runtime,
    pool: SqlitePool,
}

impl Db {
    fn open() -> Db {
        let runtime = tokio::runtime::Builder::new_current_thread().enable_all().build().unwrap();
        let pool = runtime.block_on(async {
            let pool = SqlitePoolOptions::new()
                .max_connections(1)
                .connect("sqlite::memory:")
                .await
                .unwrap();
            sqlx::raw_sql(SCHEMA).execute(&pool).await.unwrap();
            pool
        });
        Db { runtime, pool }
    }

    fn arguments(&self, binds: Vec<Bound>) -> SqliteArguments<'static> {
        let mut arguments = SqliteArguments::default();
        for bound in binds {
            match bound {
                Bound::Null => arguments.add(None::<String>),
                Bound::Text(s) => arguments.add(s),
                Bound::Int(n) => arguments.add(n),
                Bound::Bool(b) => arguments.add(b),
                other => panic!("not bound here: {other:?}"),
            }
            .unwrap();
        }
        arguments
    }

    fn execute(&self, query: Query) -> Result<SqliteQueryResult, sqlx::Error> {
        let arguments = self.arguments(query.binds);
        self.runtime.block_on(sqlx::query_with(&query.sql, arguments).execute(&self.pool))
    }

    /// Runs a statement, and says how many rows it changed.
    fn run(&self, query: Query) -> u64 {
        self.execute(query).unwrap().rows_affected()
    }

    fn fetch(&self, query: Query) -> Vec<SqliteRow> {
        let arguments = self.arguments(query.binds);
        self.runtime
            .block_on(sqlx::query_with(&query.sql, arguments).fetch_all(&self.pool))
            .unwrap()
    }

    fn rows<R: ReadRow>(&self, query: Query) -> Vec<R> {
        self.fetch(query).iter().map(|row| R::read(row, self)).collect()
    }

    fn row<R: ReadRow>(&self, query: Query) -> Option<R> {
        self.rows(query).pop()
    }

    fn list<R: ReadRow + Decode>(&self, query: Query) -> Vec<R::Record> {
        decode_all(self.rows::<R>(query)).unwrap()
    }

    fn find<R: ReadRow + Decode>(&self, query: Query) -> Option<R::Record> {
        decode_optional(self.row::<R>(query)).unwrap()
    }

    fn condition_from_json(&self, json: &str) -> Result<Condition, String> {
        Ok(Condition { json: json.to_string() })
    }

    fn requirement_from_json(&self, json: &str) -> Result<Requirement, String> {
        Ok(Requirement { json: json.to_string() })
    }

    fn apply_rule_event(&self, payload: Event) {
        if let Some(query) = RuleRepo::apply_event(&env(Actor::User, payload)) {
            self.run(query);
        }
    }

    fn rule(&self, id: RuleId) -> Option<Rule> {
        self.find::<RuleRow>(RuleRepo::get(&id))
    }

    fn effective_rules(&self, chain: &[RuleScope]) -> Vec<Rule> {
        let trigger = RuleTrigger::TaskBeforeComplete;
        let mut walk = RuleRepo::effective_rules(chain.to_vec(), trigger);
        loop {
            match walk.next() {
                RuleStep::Ask { select, scope } => {
                    walk = scope.answered(self.rows::<RuleRow>(select)).unwrap();
                }
                RuleStep::Done { rules } => return rules,
            }
        }
    }

    fn apply_evidence_event(&self, payload: Event) {
        if let Some(query) = EvidenceRepo::apply_event(&env(Actor::User, payload)) {
            self.run(query);
        }
    }

    fn record(&self, evidence: Evidence) {
        self.apply_evidence_event(Event::EvidenceRecorded { evidence });
    }

    fn evidence(&self, id: EvidenceId) -> Option<Evidence> {
        self.find::<EvidenceRow>(EvidenceRepo::get(&id))
    }

    fn has_live_evidence(
        &self,
        chain: &[RuleScope],
        kind: EvidenceKind,
        target: Option<&str>,
        required_fields: Option<&[String]>,
        min_version: Option<&str>,
    ) -> EvidenceCheck {
        let request = EvidenceRequest {
            kind,
            target: target.map(str::to_string),
            required_fields: required_fields.map(<[String]>::to_vec),
            min_version: min_version.map(str::to_string),
        };
        let mut search = EvidenceRepo::has_live_evidence(chain, kind);
        loop {
            match search.next(&request) {
                SearchStep::Ask { select, rest } => {
                    let check = request.scope_has(self.rows::<CandidateRow>(select)).unwrap();
                    match rest.answered(check) {
                        SearchAnswer::Next { search: next } => search = next,
                        SearchAnswer::Done { check } => return check,
                    }
                }
                SearchStep::Done { check } => return check,
            }
        }
    }

    fn upsert_finding(&self, new: &NewFinding) -> AuditFindingId {
        let at = now();
        let found: Option<String> =
            self.fetch(AuditFindingRepo::upsert(new)).first().map(|row| row.get("id"));
        let sighting = AuditFindingRepo::sighted(new, found, fresh(), &at);
        self.run(sighting.write.clone());
        sighting.written().unwrap()
    }

    fn finding(&self, id: AuditFindingId) -> Option<AuditFinding> {
        self.find::<FindingRow>(AuditFindingRepo::get(&id))
    }

    fn findings(&self, project: ProjectId, filter: &FindingFilter) -> Vec<AuditFinding> {
        self.list::<FindingRow>(AuditFindingRepo::list(&project, filter))
    }

    fn resolve_missing(&self, project: ProjectId, check: &str, seen: &[AuditFindingId]) -> u64 {
        self.run(AuditFindingRepo::resolve_missing(
            &project,
            check,
            &seen.to_vec(),
            &user(),
            &now(),
        ))
    }

    fn set_status(&self, id: AuditFindingId, status: FindingStatus) -> bool {
        let query = AuditFindingRepo::set_status(&id, status, &user(), &now());
        AuditFindingRepo::was_set(self.run(query))
    }
}

fn fresh<I: TypedId>() -> I {
    I::from_uuid(uuid::Uuid::new_v4().as_u128())
}

fn now() -> Timestamp {
    let now = chrono::Utc::now();
    Timestamp::new(now.timestamp(), now.timestamp_subsec_nanos()).unwrap()
}

fn env(actor: Actor, payload: Event) -> EventEnvelope {
    EventEnvelope::new(fresh(), now(), actor, payload)
}

/// A row that the library reads.
trait ReadRow: Sized {
    fn read(row: &SqliteRow, db: &Db) -> Self;
}

/// A column, or the driver's message.
fn column<'r, T>(row: &'r SqliteRow, name: &str) -> Column<T>
where
    T: sqlx::Decode<'r, Sqlite> + sqlx::Type<Sqlite>,
{
    row.try_get(name).map_err(|e| e.to_string())
}

/// A column of JSON text, and what it is read into.
fn json<T>(
    row: &SqliteRow,
    name: &str,
    read: impl Fn(&str) -> Parsed<T>,
) -> Column<Parsed<T>> {
    column::<String>(row, name).map(|s| read(&s))
}

/// A column of JSON text that may be null, and what it is read into.
fn optional_json<T>(
    row: &SqliteRow,
    name: &str,
    read: impl Fn(&str) -> Parsed<T>,
) -> Column<Option<Parsed<T>>> {
    column::<Option<String>>(row, name).map(|s| s.map(|s| read(&s)))
}

impl ReadRow for RuleRow {
    fn read(row: &SqliteRow, db: &Db) -> RuleRow {
        RuleRow {
            id: column(row, "id"),
            rule_key: column(row, "rule_key"),
            title: column(row, "title"),
            scope_kind: column(row, "scope_kind"),
            scope_id: column(row, "scope_id"),
            trigger: column(row, "trigger"),
            condition: optional_json(row, "condition", |s| db.condition_from_json(s)),
            requirement: json(row, "requirement", |s| db.requirement_from_json(s)),
            mode: column(row, "mode"),
            message: column(row, "message"),
            override_allowed: column(row, "override_allowed"),
            enabled: column(row, "enabled"),
            created_at: column(row, "created_at"),
            updated_at: column(row, "updated_at"),
        }
    }
}

impl ReadRow for EvidenceRow {
    fn read(row: &SqliteRow, _db: &Db) -> EvidenceRow {
        EvidenceRow {
            id: column(row, "id"),
            kind: column(row, "kind"),
            scope_kind: column(row, "scope_kind"),
            scope_id: column(row, "scope_id"),
            target: column(row, "target"),
            doc_version: column(row, "doc_version"),
            actor_kind: column(row, "actor_kind"),
            actor_id: column(row, "actor_id"),
            actor_name: column(row, "actor_name"),
            reason: column(row, "reason"),
            payload: column(row, "payload"),
            project_id: column(row, "project_id"),
            plan_id: column(row, "plan_id"),
            task_id: column(row, "task_id"),
            run_id: column(row, "run_id"),
            artifact_id: column(row, "artifact_id"),
            rule_id: column(row, "rule_id"),
            recorded_at: column(row, "recorded_at"),
            superseded_by: column(row, "superseded_by"),
        }
    }
}

impl ReadRow for CandidateRow {
    fn read(row: &SqliteRow, _db: &Db) -> CandidateRow {
        CandidateRow {
            target: column(row, "target"),
            doc_version: column(row, "doc_version"),
            actor_id: column(row, "actor_id"),
            actor_name: column(row, "actor_name"),
            reason: column(row, "reason"),
            payload: column(row, "payload"),
        }
    }
}

impl ReadRow for FindingRow {
    fn read(row: &SqliteRow, _db: &Db) -> FindingRow {
        FindingRow {
            id: column(row, "id"),
            project_id: column(row, "project_id"),
            plan_id: column(row, "plan_id"),
            task_id: column(row, "task_id"),
            document_id: column(row, "document_id"),
            artifact_id: column(row, "artifact_id"),
            check_key: column(row, "check_key"),
            category: column(row, "category"),
            severity: column(row, "severity"),
            title: column(row, "title"),
            detail: column(row, "detail"),
            remediation: column(row, "remediation"),
            source: column(row, "source"),
            status: column(row, "status"),
            first_seen_at: column(row, "first_seen_at"),
            last_seen_at: column(row, "last_seen_at"),
            resolved_by: column(row, "resolved_by"),
            resolved_at: column(row, "resolved_at"),
        }
    }
}

fn user() -> ActorRef {
    ActorRef { kind: "user".to_string(), id: None, name: None }
}

// ── rules ────────────────────────────────────────────────────────────────────

fn sample_rule(scope: RuleScope, key: &str, mode: RuleMode) -> Rule {
    let at = now();
    Rule {
        id: fresh(),
        rule_key: key.to_string(),
        title: "t".to_string(),
        scope,
        trigger: RuleTrigger::TaskBeforeComplete,
        condition: None,
        requirement: Requirement { json: r#"{"required_fields":["actor"]}"#.to_string() },
        mode,
        message: "m".to_string(),
        override_allowed: true,
        enabled: true,
        created_at: at,
        updated_at: at,
    }
}

fn create(db: &Db, rule: Rule) {
    db.apply_rule_event(Event::RuleCreated { rule });
}

#[test]
fn create_get_update_roundtrip() {
    let db = Db::open();
    let rule = sample_rule(RuleScope::Tenant, "completion-note", RuleMode::Required);
    let id = rule.id;
    create(&db, rule.clone());

    let fetched = db.rule(id).unwrap();
    assert_eq!(fetched.rule_key, "completion-note");
    assert_eq!(fetched.mode, RuleMode::Required);
    assert_eq!(fetched, rule);

    let mut updated = fetched;
    updated.mode = RuleMode::Recommendation;
    db.apply_rule_event(Event::RuleUpdated { rule: updated });
    assert_eq!(db.rule(id).unwrap().mode, RuleMode::Recommendation);
    assert_eq!(db.list::<RuleRow>(RuleRepo::list_for_scope(&RuleScope::Tenant)).len(), 1);
}

#[test]
fn disabled_rule_excluded_from_effective() {
    let db = Db::open();
    let rule = sample_rule(RuleScope::Tenant, "completion-note", RuleMode::Required);
    let rule_id = rule.id;
    create(&db, rule);

    let chain = [RuleScope::Tenant];
    assert_eq!(db.effective_rules(&chain).len(), 1);
    db.apply_rule_event(Event::RuleDisabled { rule_id, at: now() });
    assert!(db.effective_rules(&chain).is_empty());
}

#[test]
fn off_mode_not_returned_to_gate() {
    let db = Db::open();
    create(&db, sample_rule(RuleScope::Tenant, "k", RuleMode::Off));
    assert!(db.effective_rules(&[RuleScope::Tenant]).is_empty());
}

#[test]
fn inner_scope_overrides_same_rule_key() {
    let db = Db::open();
    let project: ProjectId = fresh();
    create(&db, sample_rule(RuleScope::Tenant, "completion-note", RuleMode::Required));
    let scope = RuleScope::Project { id: project };
    let mut inner = sample_rule(scope.clone(), "completion-note", RuleMode::Recommendation);
    inner.message = "project override".to_string();
    create(&db, inner);

    let eff = db.effective_rules(&[RuleScope::Tenant, scope]);
    assert_eq!(eff.len(), 1, "same rule_key collapses to one");
    assert_eq!(eff[0].mode, RuleMode::Recommendation, "inner scope wins");
    assert_eq!(eff[0].message, "project override");
}

#[test]
fn weakening_denied_without_parent_override_allowed() {
    let db = Db::open();
    let scope = RuleScope::Project { id: fresh() };
    let mut parent = sample_rule(RuleScope::Tenant, "completion-note", RuleMode::Required);
    parent.override_allowed = false;
    create(&db, parent);
    create(&db, sample_rule(scope.clone(), "completion-note", RuleMode::Recommendation));

    let eff = db.effective_rules(&[RuleScope::Tenant, scope]);
    assert_eq!(eff.len(), 1);
    assert_eq!(eff[0].mode, RuleMode::Required, "weakening denied");
    assert_eq!(eff[0].scope, RuleScope::Tenant, "parent rule stays");
}

#[test]
fn child_off_follows_the_same_weakening_policy() {
    let db = Db::open();
    let allowed = RuleScope::Project { id: fresh() };
    let denied = RuleScope::Project { id: fresh() };

    let mut parent = sample_rule(RuleScope::Tenant, "with-override", RuleMode::Required);
    parent.override_allowed = true;
    create(&db, parent);
    create(&db, sample_rule(allowed.clone(), "with-override", RuleMode::Off));
    let eff = db.effective_rules(&[RuleScope::Tenant, allowed]);
    assert!(eff.is_empty(), "child off disables the inherited rule");

    let mut strict = sample_rule(RuleScope::Tenant, "no-override", RuleMode::Required);
    strict.override_allowed = false;
    create(&db, strict);
    create(&db, sample_rule(denied.clone(), "no-override", RuleMode::Off));
    let eff = db.effective_rules(&[RuleScope::Tenant, denied]);
    let strict_eff: Vec<_> = eff.iter().filter(|r| r.rule_key == "no-override").collect();
    assert_eq!(strict_eff.len(), 1, "parent survives the denied off");
    assert_eq!(strict_eff[0].mode, RuleMode::Required);
}

#[test]
fn strengthening_always_allowed_across_chain() {
    let db = Db::open();
    let project: ProjectId = fresh();
    let plan: PlanId = fresh();
    let task: TaskId = fresh();
    let mut parent = sample_rule(RuleScope::Tenant, "completion-note", RuleMode::Recommendation);
    parent.override_allowed = false;
    create(&db, parent);
    let inner = RuleScope::Task { id: task };
    create(&db, sample_rule(inner.clone(), "completion-note", RuleMode::Required));

    let chain = [
        RuleScope::Tenant,
        RuleScope::Project { id: project },
        RuleScope::Plan { id: plan },
        inner.clone(),
    ];
    let eff = db.effective_rules(&chain);
    assert_eq!(eff.len(), 1);
    assert_eq!(eff[0].mode, RuleMode::Required, "strengthening wins");
    assert_eq!(eff[0].scope, inner);
}

#[test]
fn denied_weakening_then_deeper_equal_strictness_wins() {
    let db = Db::open();
    let plan = RuleScope::Plan { id: fresh() };
    let task = RuleScope::Task { id: fresh() };
    let mut parent = sample_rule(RuleScope::Tenant, "completion-note", RuleMode::Required);
    parent.override_allowed = false;
    create(&db, parent);
    create(&db, sample_rule(plan.clone(), "completion-note", RuleMode::Recommendation));
    let mut task_rule = sample_rule(task.clone(), "completion-note", RuleMode::Required);
    task_rule.message = "task-level".to_string();
    create(&db, task_rule);

    let eff = db.effective_rules(&[RuleScope::Tenant, plan, task]);
    assert_eq!(eff.len(), 1);
    assert_eq!(eff[0].mode, RuleMode::Required);
    assert_eq!(eff[0].message, "task-level", "deeper equal-strictness rule wins");
}

#[test]
fn effective_rules_come_in_the_order_of_their_keys() {
    let db = Db::open();
    for key in ["b", "a", "c"] {
        create(&db, sample_rule(RuleScope::Tenant, key, RuleMode::Required));
    }
    let keys: Vec<String> =
        db.effective_rules(&[RuleScope::Tenant]).into_iter().map(|r| r.rule_key).collect();
    assert_eq!(keys, vec!["a".to_string(), "b".to_string(), "c".to_string()]);
}

#[test]
fn a_condition_is_read_back() {
    let db = Db::open();
    let mut rule = sample_rule(RuleScope::Task { id: fresh() }, "k", RuleMode::Required);
    rule.condition = Some(Condition { json: r#"{"always":true}"#.to_string() });
    rule.override_allowed = false;
    create(&db, rule.clone());
    assert_eq!(db.rule(rule.id), Some(rule));
}

#[test]
fn a_scope_that_is_none_is_reported() {
    let db = Db::open();
    let rule = sample_rule(RuleScope::Tenant, "k", RuleMode::Required);
    create(&db, rule.clone());
    db.run(Query::new("UPDATE lifecycle_rules SET scope_kind = 'galaxy'"));
    let row = db.row::<RuleRow>(RuleRepo::get(&rule.id));
    assert!(matches!(decode_optional(row), Err(CoreError::Storage(_) | CoreError::Serde(_))));
}

// ── evidence ─────────────────────────────────────────────────────────────────

fn sample_evidence(scope: RuleScope, kind: EvidenceKind, target: Option<&str>) -> Evidence {
    Evidence {
        id: fresh(),
        kind,
        scope,
        target: target.map(str::to_string),
        doc_version: None,
        actor: user(),
        reason: "r".to_string(),
        payload: Json::Null,
        project_id: None,
        plan_id: None,
        task_id: None,
        run_id: None,
        artifact_id: None,
        rule_id: None,
        recorded_at: now(),
        superseded_by: None,
    }
}

#[test]
fn record_get_roundtrip() {
    let db = Db::open();
    let ev = sample_evidence(RuleScope::Tenant, EvidenceKind::CompletionNote, None);
    db.record(ev.clone());

    let fetched = db.evidence(ev.id).unwrap();
    assert_eq!(fetched.kind, EvidenceKind::CompletionNote);
    assert!(fetched.superseded_by.is_none());
    assert_eq!(fetched, ev);
}

#[test]
fn required_fields_reject_empty_or_missing_payload_values() {
    let fields = ["risk_level".to_string()];
    for payload in
        ["null", r#"{"summary": "checked"}"#, r#"{"risk_level": null}"#, r#"{"risk_level": ""}"#]
    {
        let db = Db::open();
        let mut evidence =
            sample_evidence(RuleScope::Tenant, EvidenceKind::ImpactAssessment, None);
        evidence.payload = parse_json(payload).unwrap();
        db.record(evidence);

        let check = db.has_live_evidence(
            &[RuleScope::Tenant],
            EvidenceKind::ImpactAssessment,
            None,
            Some(&fields),
            None,
        );
        assert!(!check.satisfied);
        assert!(check.reason.unwrap().contains("risk_level"));
    }
}

#[test]
fn required_reason_falls_back_to_top_level_column() {
    let fields = ["reason".to_string()];
    for (reason, expected) in [("готово", true), ("", false)] {
        let db = Db::open();
        let mut evidence = sample_evidence(RuleScope::Tenant, EvidenceKind::CompletionNote, None);
        evidence.reason = reason.to_string();
        evidence.payload = parse_json("{}").unwrap();
        db.record(evidence);

        let check = db.has_live_evidence(
            &[RuleScope::Tenant],
            EvidenceKind::CompletionNote,
            None,
            Some(&fields),
            None,
        );
        assert_eq!(check.satisfied, expected, "reason={reason:?}");
    }
}

#[test]
fn required_actor_falls_back_to_identity_columns() {
    let fields = ["actor".to_string()];
    let agent = |id: Option<AgentId>, name: Option<&str>| ActorRef {
        kind: "agent".to_string(),
        id,
        name: name.map(str::to_string),
    };
    for (actor, expected) in [
        (user(), false),
        (agent(None, Some("agent")), true),
        (agent(Some(fresh()), None), true),
    ] {
        let db = Db::open();
        let mut evidence = sample_evidence(RuleScope::Tenant, EvidenceKind::CompletionNote, None);
        evidence.actor = actor;
        evidence.payload = parse_json("{}").unwrap();
        db.record(evidence);

        let check = db.has_live_evidence(
            &[RuleScope::Tenant],
            EvidenceKind::CompletionNote,
            None,
            Some(&fields),
            None,
        );
        assert_eq!(check.satisfied, expected);
    }
}

#[test]
fn a_required_target_must_not_be_empty() {
    let fields = ["target".to_string()];
    for (target, expected) in [(Some("api"), true), (Some(""), false), (None, false)] {
        let db = Db::open();
        let mut evidence =
            sample_evidence(RuleScope::Tenant, EvidenceKind::CompletionNote, target);
        evidence.payload = parse_json("{}").unwrap();
        db.record(evidence);

        let check = db.has_live_evidence(
            &[RuleScope::Tenant],
            EvidenceKind::CompletionNote,
            None,
            Some(&fields),
            None,
        );
        assert_eq!(check.satisfied, expected, "target={target:?}");
    }
}

#[test]
fn min_version_is_numeric_and_fail_closed() {
    for (version, expected) in [
        (None, false),
        (Some("bad"), false),
        (Some("1"), false),
        (Some("3"), true),
        (Some("v3"), true),
        (Some("V3"), true),
        (Some("10"), true),
    ] {
        let db = Db::open();
        let mut evidence = sample_evidence(
            RuleScope::Tenant,
            EvidenceKind::DocumentReadAck,
            Some("architecture.md"),
        );
        evidence.doc_version = version.map(str::to_string);
        db.record(evidence);

        let check = db.has_live_evidence(
            &[RuleScope::Tenant],
            EvidenceKind::DocumentReadAck,
            Some("architecture.md"),
            None,
            Some("3"),
        );
        assert_eq!(check.satisfied, expected, "doc_version={version:?}");
    }
}

#[test]
fn empty_requirements_preserve_legacy_matching() {
    let db = Db::open();
    db.record(sample_evidence(RuleScope::Tenant, EvidenceKind::CompletionNote, None));
    let check = db.has_live_evidence(
        &[RuleScope::Tenant],
        EvidenceKind::CompletionNote,
        None,
        Some(&[]),
        Some("latest"),
    );
    assert!(check.satisfied);
}

#[test]
fn has_live_evidence_matches_in_chain() {
    let db = Db::open();
    let project = RuleScope::Project { id: fresh() };
    // Reading a document once covers everything below.
    db.record(sample_evidence(RuleScope::Tenant, EvidenceKind::DocumentReadAck, None));
    let chain = [RuleScope::Tenant, project.clone()];
    let has = |kind| db.has_live_evidence(&chain, kind, None, None, None).satisfied;
    assert!(has(EvidenceKind::DocumentReadAck));

    db.record(sample_evidence(project, EvidenceKind::CompletionNote, None));
    assert!(has(EvidenceKind::CompletionNote));
    assert!(!has(EvidenceKind::RiskCheckCompleted), "same scope, different kind → no match");
}

#[test]
fn a_tenant_wide_record_does_not_satisfy_a_self_only_kind() {
    let db = Db::open();
    let project = RuleScope::Project { id: fresh() };
    db.record(sample_evidence(RuleScope::Tenant, EvidenceKind::CompletionNote, None));
    let chain = [RuleScope::Tenant, project.clone()];
    let has = || db.has_live_evidence(&chain, EvidenceKind::CompletionNote, None, None, None);
    assert!(
        !has().satisfied,
        "tenant-wide completion_note must not satisfy a project's rule"
    );

    db.record(sample_evidence(project, EvidenceKind::CompletionNote, None));
    assert!(has().satisfied);
}

#[test]
fn superseded_evidence_is_not_live() {
    let db = Db::open();
    let ev = sample_evidence(RuleScope::Tenant, EvidenceKind::ImpactAssessment, None);
    db.record(ev.clone());
    let newer = sample_evidence(RuleScope::Tenant, EvidenceKind::ImpactAssessment, None);
    db.record(newer.clone());
    let supersede = |evidence_id, superseded_by| {
        let event = Event::EvidenceSuperseded { evidence_id, superseded_by, at: now() };
        db.apply_evidence_event(event);
    };
    supersede(ev.id, newer.id);

    assert_eq!(db.evidence(ev.id).unwrap().superseded_by, Some(newer.id));
    let has = || {
        let chain = [RuleScope::Tenant];
        db.has_live_evidence(&chain, EvidenceKind::ImpactAssessment, None, None, None).satisfied
    };
    assert!(has());
    let live = db.list::<EvidenceRow>(EvidenceRepo::list_for_scope(&RuleScope::Tenant, false));
    assert_eq!(live, vec![newer.clone()]);
    let all = db.list::<EvidenceRow>(EvidenceRepo::list_for_scope(&RuleScope::Tenant, true));
    assert_eq!(all.len(), 2);

    supersede(newer.id, fresh());
    assert!(!has());
}

#[test]
fn a_replay_revives_no_evidence() {
    let db = Db::open();
    let evidence = sample_evidence(RuleScope::Tenant, EvidenceKind::ImpactAssessment, None);
    db.record(evidence.clone());
    let by = fresh();
    db.apply_evidence_event(Event::EvidenceSuperseded {
        evidence_id: evidence.id,
        superseded_by: by,
        at: now(),
    });
    let retracted = db.evidence(evidence.id).unwrap();

    db.record(evidence.clone());
    let mut other = evidence.clone();
    other.doc_version = Some("9".to_string());
    db.record(other);
    assert_eq!(db.evidence(evidence.id).unwrap(), retracted);
    assert_eq!(retracted.superseded_by, Some(by));
    let chain = [RuleScope::Tenant];
    let check = db.has_live_evidence(&chain, EvidenceKind::ImpactAssessment, None, None, None);
    assert!(!check.satisfied);
}

#[test]
fn targeted_requirement_accepts_matching_or_untargeted() {
    let db = Db::open();
    let kind = EvidenceKind::DocumentReadAck;
    db.record(sample_evidence(RuleScope::Tenant, kind, Some("architecture.md")));
    let has = |target| {
        db.has_live_evidence(&[RuleScope::Tenant], kind, Some(target), None, None).satisfied
    };
    assert!(has("architecture.md"));
    assert!(!has("other.md"));
    db.record(sample_evidence(RuleScope::Tenant, kind, None));
    assert!(has("other.md"));
}

#[test]
fn a_refusal_says_why() {
    let db = Db::open();
    let kind = EvidenceKind::DocumentReadAck;
    let mut evidence = sample_evidence(RuleScope::Tenant, kind, None);
    evidence.doc_version = Some("2".to_string());
    evidence.payload = parse_json("{}").unwrap();
    db.record(evidence);
    let check = |fields: Option<&[String]>, version: Option<&str>| {
        db.has_live_evidence(&[RuleScope::Tenant], kind, None, fields, version)
    };
    assert_eq!(
        check(None, Some("v3")).reason.as_deref(),
        Some("evidence doc_version 2 is older than required 3")
    );
    assert_eq!(
        check(None, Some("three")).reason.as_deref(),
        Some(
            "rule min_version `three` is invalid; \
             expected an integer with optional v/V prefix"
        )
    );
    assert_eq!(
        check(Some(&["target".to_string()]), None).reason.as_deref(),
        Some("evidence payload field `target` is missing or empty")
    );
    assert!(check(Some(&["doc_version".to_string()]), Some("2")).satisfied);
    let nothing = db.has_live_evidence(&[], kind, None, None, None);
    assert_eq!(nothing, EvidenceCheck { satisfied: false, reason: None });
}

// ── audit findings ───────────────────────────────────────────────────────────

fn sample_finding(project: ProjectId, task: Option<TaskId>, check: &str) -> NewFinding {
    NewFinding {
        project_id: project,
        entity: FindingEntity {
            plan_id: None,
            task_id: task,
            document_id: None,
            artifact_id: None,
        },
        check_key: check.to_string(),
        category: "staleness".to_string(),
        severity: FindingSeverity::Warn,
        title: "stuck".to_string(),
        detail: "detail".to_string(),
        remediation: "do x".to_string(),
        source: FindingSource::Script,
    }
}

#[test]
fn upsert_is_idempotent_on_dedup_key() {
    let db = Db::open();
    let project: ProjectId = fresh();
    let f = sample_finding(project, Some(fresh()), "task.stuck");

    let id1 = db.upsert_finding(&f);
    let id2 = db.upsert_finding(&f);
    assert_eq!(id1, id2, "repeat sighting must reuse the row");

    let all = db.findings(project, &FindingFilter::default());
    assert_eq!(all.len(), 1, "no duplicate finding");
    let got = db.finding(id1).unwrap();
    assert!(got.last_seen_at.unix_seconds() >= got.first_seen_at.unix_seconds());
    assert_eq!(got.status, FindingStatus::Open);
}

#[test]
fn distinct_entities_are_distinct_findings() {
    let db = Db::open();
    let project: ProjectId = fresh();
    let a = db.upsert_finding(&sample_finding(project, Some(fresh()), "task.stuck"));
    let b = db.upsert_finding(&sample_finding(project, Some(fresh()), "task.stuck"));
    assert_ne!(a, b);
    assert_eq!(db.findings(project, &FindingFilter::default()).len(), 2);
}

#[test]
fn resolve_missing_auto_resolves_unseen() {
    let db = Db::open();
    let project: ProjectId = fresh();
    let still_here = db.upsert_finding(&sample_finding(project, Some(fresh()), "task.stuck"));
    let gone = db.upsert_finding(&sample_finding(project, Some(fresh()), "task.stuck"));

    assert_eq!(db.resolve_missing(project, "task.stuck", &[still_here]), 1);
    assert_eq!(db.finding(still_here).unwrap().status, FindingStatus::Open);
    let gone_row = db.finding(gone).unwrap();
    assert_eq!(gone_row.status, FindingStatus::Resolved);
    assert!(gone_row.resolved_at.is_some());
    assert_eq!(gone_row.resolved_by, Some(user()));
}

#[test]
fn a_run_resolves_the_findings_of_its_check_alone() {
    let db = Db::open();
    let project: ProjectId = fresh();
    let open = db.upsert_finding(&sample_finding(project, Some(fresh()), "task.stuck"));
    let muted = db.upsert_finding(&sample_finding(project, Some(fresh()), "task.stuck"));
    assert!(db.set_status(muted, FindingStatus::Muted));
    let elsewhere = db.upsert_finding(&sample_finding(fresh(), Some(fresh()), "task.stuck"));
    let other = db.upsert_finding(&sample_finding(project, Some(fresh()), "task.late"));
    let kept = (db.finding(elsewhere).unwrap(), db.finding(other).unwrap());

    assert_eq!(db.resolve_missing(project, "task.stuck", &[]), 2);
    let resolved = (db.finding(open).unwrap(), db.finding(muted).unwrap());
    assert_eq!(resolved.0.status, FindingStatus::Resolved);
    assert_eq!(resolved.1.status, FindingStatus::Resolved);
    assert_eq!((db.finding(elsewhere).unwrap(), db.finding(other).unwrap()), kept);

    assert_eq!(db.resolve_missing(project, "task.stuck", &[]), 0);
    assert_eq!((db.finding(open).unwrap(), db.finding(muted).unwrap()), resolved);
}

#[test]
fn reupsert_reopens_resolved_finding() {
    let db = Db::open();
    let project: ProjectId = fresh();
    let f = sample_finding(project, Some(fresh()), "task.stuck");
    let id = db.upsert_finding(&f);
    db.resolve_missing(project, "task.stuck", &[]);
    assert_eq!(db.finding(id).unwrap().status, FindingStatus::Resolved);

    let id2 = db.upsert_finding(&f);
    assert_eq!(id, id2);
    let row = db.finding(id).unwrap();
    assert_eq!(row.status, FindingStatus::Open);
    assert!(row.resolved_at.is_none());
}

#[test]
fn a_repeat_sighting_keeps_what_was_muted_or_acknowledged() {
    for status in [FindingStatus::Muted, FindingStatus::Acknowledged] {
        let db = Db::open();
        let mut f = sample_finding(fresh(), Some(fresh()), "task.stuck");
        let id = db.upsert_finding(&f);
        assert!(db.set_status(id, status));
        f.title = "again".to_string();
        assert_eq!(db.upsert_finding(&f), id);
        let row = db.finding(id).unwrap();
        assert_eq!(row.status, status);
        assert_eq!(row.title, "again");
    }
}

#[test]
fn list_filters_by_severity_and_status() {
    let db = Db::open();
    let project: ProjectId = fresh();
    let warn = sample_finding(project, Some(fresh()), "a");
    let mut err = sample_finding(project, Some(fresh()), "b");
    err.severity = FindingSeverity::Error;
    db.upsert_finding(&warn);
    let err_id = db.upsert_finding(&err);

    let severe = FindingFilter { severity: Some(FindingSeverity::Error), ..Default::default() };
    let errors = db.findings(project, &severe);
    assert_eq!(errors.len(), 1);
    assert_eq!(errors[0].severity, FindingSeverity::Error);

    db.set_status(err_id, FindingStatus::Muted);
    let open = FindingFilter {
        status: Some(FindingStatus::Open),
        category: Some("staleness".to_string()),
        ..Default::default()
    };
    let found = db.findings(project, &open);
    assert_eq!(found.len(), 1);
    assert_eq!(found[0].severity, FindingSeverity::Warn);
}

#[test]
fn set_status_acknowledge_and_resolve() {
    let db = Db::open();
    let id = db.upsert_finding(&sample_finding(fresh(), Some(fresh()), "a"));

    assert!(db.set_status(id, FindingStatus::Acknowledged));
    assert_eq!(db.finding(id).unwrap().status, FindingStatus::Acknowledged);

    assert!(db.set_status(id, FindingStatus::Resolved));
    let row = db.finding(id).unwrap();
    assert_eq!(row.status, FindingStatus::Resolved);
    assert!(row.resolved_at.is_some());

    assert!(!db.set_status(fresh(), FindingStatus::Muted));
}

#[test]
fn a_bad_finding_id_is_reported() {
    let new = sample_finding(fresh(), None, "check");
    let sighting =
        AuditFindingRepo::sighted(&new, Some("nonsense".to_string()), fresh(), &now());
    assert_eq!(
        sighting.written(),
        Err(CoreError::Storage("bad audit finding id".to_string()))
    );
    let id: AuditFindingId = fresh();
    assert_eq!(AuditFindingRepo::sighted(&new, None, id, &now()).written(), Ok(id));
}
