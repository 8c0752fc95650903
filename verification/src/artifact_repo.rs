//! The artifact registry, in the `artifacts` and `artifact_relations` tables. A write is
//! noted only for the holder of a live lease with the right fencing token.
use vstd::prelude::*;

use crate::domain::{Artifact, ArtifactRelation, ArtifactRelationKind, ArtifactStatus};
use crate::error::{CoreError, ErrorView};
use crate::events::{Event, EventEnvelope};
use crate::ids::{
    id_fault, id_value, opt_id_fault, opt_id_value, parse_id, parse_opt_id, AgentId, ArtifactId,
    ArtifactRelationId, ProjectId, TaskId,
};
use crate::query::{
    sql_id, sql_int, sql_opt_id, sql_opt_int, sql_opt_text, sql_text, sql_time, statement,
    statements, BoundView, Query, QueryView,
};
use crate::rows::{
    column, column_fault, has_opt_int, has_opt_text, has_text, Column, Decode, Faults,
};
use crate::text::{concat2, concat3, join, joined, opt_text, texts};
use crate::time::{parse_ts, ts_fault, ts_value, Timestamp};

verus! {

/// The artifact registry.
#[derive(Clone, Copy, Debug)]
pub struct ArtifactRepo;

pub const SELECT_ARTIFACTS: &'static str = "SELECT id, uri, title, description, status, owner_agent_id, task_id, project_id, \
     version, last_write_token, created_at, updated_at FROM artifacts ";

pub const RELATIONS_FOR: &'static str = "SELECT id, from_id, to_id, kind, created_at FROM artifact_relations
             WHERE from_id = ? OR to_id = ? ORDER BY created_at";

pub const UPSERT_ARTIFACT: &'static str = "INSERT OR REPLACE INTO artifacts \
     (id, uri, title, description, status, owner_agent_id, task_id, project_id, \
     version, last_write_token, created_at, updated_at) \
     VALUES (?, ?, ?, ?, ?, ?, ?, ?, ?, ?, ?, ?)";

pub const SET_OWNER: &'static str = "UPDATE artifacts SET owner_agent_id = ?, updated_at = ? WHERE id = ?";

pub const SET_STATUS: &'static str = "UPDATE artifacts SET status = ?, updated_at = ? WHERE id = ?";

pub const SET_TITLE: &'static str = "UPDATE artifacts SET title = ?, updated_at = ? WHERE id = ?";

pub const SET_DESCRIPTION: &'static str = "UPDATE artifacts SET description = ?, updated_at = ? WHERE id = ?";

pub const LIVE_LEASE: &'static str = "SELECT 1 FROM work_leases \
     WHERE agent_id = ? AND target_uri = ? \
     AND fencing_token = ? AND expires_at >= ?";

pub const COMMIT_WRITE: &'static str = "UPDATE artifacts \
     SET last_write_token = ?, version = ?, status = 'committed', \
     updated_at = ? \
     WHERE id = ?";

pub const DEPRECATE: &'static str = "UPDATE artifacts SET status = 'deprecated', updated_at = ? WHERE id = ?";

pub const ADD_RELATION: &'static str = "INSERT OR IGNORE INTO artifact_relations (id, from_id, to_id, kind, created_at)
                     VALUES (?, ?, ?, ?, ?)";

pub const REMOVE_RELATION: &'static str = "DELETE FROM artifact_relations WHERE from_id = ? AND to_id = ? AND kind = ?";

// ── rows ────────────────────────────────────────────────────────────────────

/// Why a text is no artifact status.
pub open spec fn artifact_status_fault(s: Seq<char>) -> Option<ErrorView> {
    if ArtifactStatus::named(s) is Some {
        None
    } else {
        Some(ErrorView::Serde("unknown artifact status: "@ + s))
    }
}

/// Reads an artifact status.
pub fn parse_artifact_status(s: &str) -> (r: Result<ArtifactStatus, CoreError>)
    ensures
        match artifact_status_fault(s@) {
            Some(e) => r is Err && r->Err_0@ == e,
            None => r is Ok && Some(r->Ok_0) == ArtifactStatus::named(s@),
        },
{
    match ArtifactStatus::parse(s) {
        Some(v) => Ok(v),
        None => Err(CoreError::Serde(concat2("unknown artifact status: ", s))),
    }
}

/// Why a text is no kind of relation.
pub open spec fn artifact_relation_kind_fault(s: Seq<char>) -> Option<ErrorView> {
    if ArtifactRelationKind::named(s) is Some {
        None
    } else {
        Some(ErrorView::Serde("unknown artifact relation kind: "@ + s))
    }
}

/// Reads a kind of relation.
pub fn parse_artifact_relation_kind(s: &str) -> (r: Result<ArtifactRelationKind, CoreError>)
    ensures
        match artifact_relation_kind_fault(s@) {
            Some(e) => r is Err && r->Err_0@ == e,
            None => r is Ok && Some(r->Ok_0) == ArtifactRelationKind::named(s@),
        },
{
    match ArtifactRelationKind::parse(s) {
        Some(v) => Ok(v),
        None => Err(CoreError::Serde(concat2("unknown artifact relation kind: ", s))),
    }
}

/// A row of the `artifacts` table.
#[derive(Debug, PartialEq, Eq)]
pub struct ArtifactRow {
    pub id: Column<String>,
    pub uri: Column<String>,
    pub title: Column<String>,
    pub description: Column<String>,
    pub status: Column<String>,
    pub owner_agent_id: Column<Option<String>>,
    pub task_id: Column<Option<String>>,
    pub project_id: Column<Option<String>>,
    pub version: Column<Option<String>>,
    pub last_write_token: Column<Option<i64>>,
    pub created_at: Column<String>,
    pub updated_at: Column<String>,
}

/// What is wrong with an artifact row, where something is: the columns and their
/// values are looked at in this order.
pub open spec fn artifact_fault(row: ArtifactRow) -> Option<ErrorView> {
    column_fault(row.id).or_fault(
        column_fault(row.status),
    ).or_fault(
        column_fault(row.owner_agent_id),
    ).or_fault(
        column_fault(row.task_id),
    ).or_fault(
        column_fault(row.project_id),
    ).or_fault(
        column_fault(row.created_at),
    ).or_fault(
        column_fault(row.updated_at),
    ).or_fault(
        id_fault::<ArtifactId>(row.id->Ok_0@),
    ).or_fault(
        column_fault(row.uri),
    ).or_fault(
        column_fault(row.title),
    ).or_fault(
        column_fault(row.description),
    ).or_fault(
        artifact_status_fault(row.status->Ok_0@),
    ).or_fault(
        opt_id_fault::<AgentId>(row.owner_agent_id->Ok_0),
    ).or_fault(
        opt_id_fault::<TaskId>(row.task_id->Ok_0),
    ).or_fault(
        opt_id_fault::<ProjectId>(row.project_id->Ok_0),
    ).or_fault(
        column_fault(row.version),
    ).or_fault(
        column_fault(row.last_write_token),
    ).or_fault(
        ts_fault(row.created_at->Ok_0@),
    ).or_fault(
        ts_fault(row.updated_at->Ok_0@),
    )
}

/// The record is what a sound artifact row says.
pub open spec fn artifact_read(row: ArtifactRow, record: Artifact) -> bool {
    &&& record.id == id_value::<ArtifactId>(row.id->Ok_0@)
    &&& record.uri == row.uri->Ok_0
    &&& record.title == row.title->Ok_0
    &&& record.description == row.description->Ok_0
    &&& Some(record.status) == ArtifactStatus::named(row.status->Ok_0@)
    &&& record.owner_agent_id == opt_id_value::<AgentId>(row.owner_agent_id->Ok_0)
    &&& record.task_id == opt_id_value::<TaskId>(row.task_id->Ok_0)
    &&& record.project_id == opt_id_value::<ProjectId>(row.project_id->Ok_0)
    &&& record.version == row.version->Ok_0
    &&& record.last_write_token == row.last_write_token->Ok_0
    &&& record.created_at == ts_value(row.created_at->Ok_0@)
    &&& record.updated_at == ts_value(row.updated_at->Ok_0@)
}

/// Reads an artifact from its row.
pub fn row_to_artifact(row: ArtifactRow) -> (r: Result<Artifact, CoreError>)
    ensures
        match artifact_fault(row) {
            Some(e) => r is Err && r->Err_0@ == e,
            None => r is Ok && artifact_read(row, r->Ok_0),
        },
{
    let id = column(row.id)?;
    let status = column(row.status)?;
    let owner_agent_id = column(row.owner_agent_id)?;
    let task_id = column(row.task_id)?;
    let project_id = column(row.project_id)?;
    let created_at = column(row.created_at)?;
    let updated_at = column(row.updated_at)?;
    let id = parse_id::<ArtifactId>(id.as_str())?;
    let uri = column(row.uri)?;
    let title = column(row.title)?;
    let description = column(row.description)?;
    let status = parse_artifact_status(status.as_str())?;
    let owner_agent_id = parse_opt_id::<AgentId>(&owner_agent_id)?;
    let task_id = parse_opt_id::<TaskId>(&task_id)?;
    let project_id = parse_opt_id::<ProjectId>(&project_id)?;
    let version = column(row.version)?;
    let last_write_token = column(row.last_write_token)?;
    let created_at = parse_ts(created_at.as_str())?;
    let updated_at = parse_ts(updated_at.as_str())?;
    Ok(Artifact {
        id,
        uri,
        title,
        description,
        status,
        owner_agent_id,
        task_id,
        project_id,
        version,
        last_write_token,
        created_at,
        updated_at,
    })
}

impl Decode for ArtifactRow {
    type Record = Artifact;

    open spec fn fault(&self) -> Option<ErrorView> {
        artifact_fault(*self)
    }

    open spec fn holds(&self, record: Artifact) -> bool {
        artifact_read(*self, record)
    }

    fn decode(self) -> (r: Result<Artifact, CoreError>) {
        row_to_artifact(self)
    }
}

/// The columns of an artifact, in the order in which they are written.
pub open spec fn artifact_columns(record: Artifact) -> Seq<BoundView> {
    seq![
        sql_id(record.id),
        sql_text(record.uri@),
        sql_text(record.title@),
        sql_text(record.description@),
        sql_text(record.status.text()),
        sql_opt_id(record.owner_agent_id),
        sql_opt_id(record.task_id),
        sql_opt_id(record.project_id),
        sql_opt_text(opt_text(record.version)),
        sql_opt_int(record.last_write_token),
        sql_time(record.created_at),
        sql_time(record.updated_at),
    ]
}

impl ArtifactRow {
    /// Each column of the row holds what is written for it of the record.
    pub open spec fn stores(self, record: Artifact) -> bool {
        &&& has_text(self.id, sql_id(record.id))
        &&& has_text(self.uri, sql_text(record.uri@))
        &&& has_text(self.title, sql_text(record.title@))
        &&& has_text(self.description, sql_text(record.description@))
        &&& has_text(self.status, sql_text(record.status.text()))
        &&& has_opt_text(self.owner_agent_id, sql_opt_id(record.owner_agent_id))
        &&& has_opt_text(self.task_id, sql_opt_id(record.task_id))
        &&& has_opt_text(self.project_id, sql_opt_id(record.project_id))
        &&& has_opt_text(self.version, sql_opt_text(opt_text(record.version)))
        &&& has_opt_int(self.last_write_token, sql_opt_int(record.last_write_token))
        &&& has_text(self.created_at, sql_time(record.created_at))
        &&& has_text(self.updated_at, sql_time(record.updated_at))
    }
}

impl Artifact {
    /// The two records agree in every field.
    pub open spec fn same(self, other: Artifact) -> bool {
        &&& self.id == other.id
        &&& self.uri@ == other.uri@
        &&& self.title@ == other.title@
        &&& self.description@ == other.description@
        &&& self.status == other.status
        &&& self.owner_agent_id == other.owner_agent_id
        &&& self.task_id == other.task_id
        &&& self.project_id == other.project_id
        &&& opt_text(self.version) == opt_text(other.version)
        &&& self.last_write_token == other.last_write_token
        &&& self.created_at == other.created_at
        &&& self.updated_at == other.updated_at
    }

    /// Every point in time of the record has an RFC 3339 text that reads back.
    pub open spec fn is_plain(self) -> bool {
        &&& self.created_at.is_plain()
        &&& self.updated_at.is_plain()
    }
}

/// A row of the `artifact_relations` table.
#[derive(Debug, PartialEq, Eq)]
pub struct ArtifactRelationRow {
    pub id: Column<String>,
    pub from_id: Column<String>,
    pub to_id: Column<String>,
    pub kind: Column<String>,
    pub created_at: Column<String>,
}

/// What is wrong with a relation row, where something is: the columns and their
/// values are looked at in this order.
pub open spec fn relation_fault(row: ArtifactRelationRow) -> Option<ErrorView> {
    column_fault(row.id).or_fault(
        column_fault(row.from_id),
    ).or_fault(
        column_fault(row.to_id),
    ).or_fault(
        column_fault(row.kind),
    ).or_fault(
        column_fault(row.created_at),
    ).or_fault(
        id_fault::<ArtifactRelationId>(row.id->Ok_0@),
    ).or_fault(
        id_fault::<ArtifactId>(row.from_id->Ok_0@),
    ).or_fault(
        id_fault::<ArtifactId>(row.to_id->Ok_0@),
    ).or_fault(
        artifact_relation_kind_fault(row.kind->Ok_0@),
    ).or_fault(
        ts_fault(row.created_at->Ok_0@),
    )
}

/// The record is what a sound relation row says.
pub open spec fn relation_read(row: ArtifactRelationRow, record: ArtifactRelation) -> bool {
    &&& record.id == id_value::<ArtifactRelationId>(row.id->Ok_0@)
    &&& record.from_id == id_value::<ArtifactId>(row.from_id->Ok_0@)
    &&& record.to_id == id_value::<ArtifactId>(row.to_id->Ok_0@)
    &&& Some(record.kind) == ArtifactRelationKind::named(row.kind->Ok_0@)
    &&& record.created_at == ts_value(row.created_at->Ok_0@)
}

/// Reads a relation from its row.
pub fn row_to_relation(row: ArtifactRelationRow) -> (r: Result<ArtifactRelation, CoreError>)
    ensures
        match relation_fault(row) {
            Some(e) => r is Err && r->Err_0@ == e,
            None => r is Ok && relation_read(row, r->Ok_0),
        },
{
    let id = column(row.id)?;
    let from_id = column(row.from_id)?;
    let to_id = column(row.to_id)?;
    let kind = column(row.kind)?;
    let created_at = column(row.created_at)?;
    let id = parse_id::<ArtifactRelationId>(id.as_str())?;
    let from_id = parse_id::<ArtifactId>(from_id.as_str())?;
    let to_id = parse_id::<ArtifactId>(to_id.as_str())?;
    let kind = parse_artifact_relation_kind(kind.as_str())?;
    let created_at = parse_ts(created_at.as_str())?;
    Ok(ArtifactRelation {
        id,
        from_id,
        to_id,
        kind,
        created_at,
    })
}

impl Decode for ArtifactRelationRow {
    type Record = ArtifactRelation;

    open spec fn fault(&self) -> Option<ErrorView> {
        relation_fault(*self)
    }

    open spec fn holds(&self, record: ArtifactRelation) -> bool {
        relation_read(*self, record)
    }

    fn decode(self) -> (r: Result<ArtifactRelation, CoreError>) {
        row_to_relation(self)
    }
}

/// The columns of a relation, in the order in which they are written.
pub open spec fn relation_columns(record: ArtifactRelation) -> Seq<BoundView> {
    seq![
        sql_id(record.id),
        sql_id(record.from_id),
        sql_id(record.to_id),
        sql_text(record.kind.text()),
        sql_time(record.created_at),
    ]
}

impl ArtifactRelationRow {
    /// Each column of the row holds what is written for it of the record.
    pub open spec fn stores(self, record: ArtifactRelation) -> bool {
        &&& has_text(self.id, sql_id(record.id))
        &&& has_text(self.from_id, sql_id(record.from_id))
        &&& has_text(self.to_id, sql_id(record.to_id))
        &&& has_text(self.kind, sql_text(record.kind.text()))
        &&& has_text(self.created_at, sql_time(record.created_at))
    }
}

impl ArtifactRelation {
    /// The two records agree in every field.
    pub open spec fn same(self, other: ArtifactRelation) -> bool {
        &&& self.id == other.id
        &&& self.from_id == other.from_id
        &&& self.to_id == other.to_id
        &&& self.kind == other.kind
        &&& self.created_at == other.created_at
    }

    /// Every point in time of the record has an RFC 3339 text that reads back.
    pub open spec fn is_plain(self) -> bool {
        &&& self.created_at.is_plain()
    }
}

// ── what events do to the registry ──────────────────────────────────────────

/// The statement that writes an artifact.
pub open spec fn artifact_upsert(artifact: Artifact) -> QueryView {
    statement(UPSERT_ARTIFACT@, artifact_columns(artifact))
}

/// The statements for a changed title.
pub open spec fn title_change(id: ArtifactId, title: Option<String>, at: Timestamp) -> Seq<
    QueryView,
> {
    match title {
        Some(t) => seq![statement(SET_TITLE@, seq![sql_text(t@), sql_time(at), sql_id(id)])],
        None => seq![],
    }
}

/// The statements for a changed description.
pub open spec fn description_change(
    id: ArtifactId,
    description: Option<String>,
    at: Timestamp,
) -> Seq<QueryView> {
    match description {
        Some(d) => seq![statement(SET_DESCRIPTION@, seq![sql_text(d@), sql_time(at), sql_id(id)])],
        None => seq![],
    }
}

/// The statements that an event leads to, but for a write, which has to be checked first.
pub open spec fn artifact_changes(env: EventEnvelope) -> Seq<QueryView> {
    let at = env.occurred_at;
    match env.payload {
        Event::ArtifactRegistered { artifact } => seq![artifact_upsert(artifact)],
        Event::ArtifactOwnerAssigned { artifact_id, owner_agent_id, .. } => seq![
            statement(SET_OWNER@, seq![sql_id(owner_agent_id), sql_time(at), sql_id(artifact_id)]),
        ],
        Event::ArtifactStatusChanged { artifact_id, to, .. } => seq![
            statement(SET_STATUS@, seq![sql_text(to.text()), sql_time(at), sql_id(artifact_id)]),
        ],
        Event::ArtifactChanged { artifact_id, title, description, .. } => title_change(
            artifact_id,
            title,
            at,
        ) + description_change(artifact_id, description, at),
        Event::ArtifactDeprecated { artifact_id, .. } => seq![
            statement(DEPRECATE@, seq![sql_time(at), sql_id(artifact_id)]),
        ],
        Event::ArtifactRelationAdded { relation } => seq![
            statement(ADD_RELATION@, relation_columns(relation)),
        ],
        Event::ArtifactRelationRemoved { from_id, to_id, kind, .. } => seq![
            statement(
                REMOVE_RELATION@,
                seq![sql_id(from_id), sql_id(to_id), sql_text(kind.text())],
            ),
        ],
        _ => seq![],
    }
}

/// What an event asks of the registry.
#[derive(Clone, Debug, PartialEq, Eq)]
pub enum ArtifactStep {
    /// Execute these statements.
    Run { statements: Vec<Query> },
    /// Find the artifact that was written to, and hand it to [`WriteCheck::lease`].
    CheckWrite { select: Query, check: WriteCheck },
}

/// A write to an artifact that has to be checked.
#[derive(Clone, Debug, PartialEq, Eq)]
pub struct WriteCheck {
    pub artifact_id: ArtifactId,
    pub agent_id: AgentId,
    pub fencing_token: i64,
    pub version: Option<String>,
    pub at: Timestamp,
}

impl WriteCheck {
    /// The query for the lease that allows the write; none where there is no such artifact,
    /// so that the write is refused.
    pub fn lease(&self, artifact: &Option<Artifact>, now: &Timestamp) -> (r: Option<Query>)
        ensures
            match *artifact {
                Some(a) => r is Some && r->Some_0@ == statement(
                    LIVE_LEASE@,
                    seq![
                        sql_id(self.agent_id),
                        sql_text(a.uri@),
                        sql_int(self.fencing_token as int),
                        sql_time(*now),
                    ],
                ),
                None => r is None,
            },
            *artifact is Some && now.is_plain() ==> now.sorts_as_text(),
    {
        match artifact {
            Some(a) => {
                let q = Query::new(LIVE_LEASE)
                    .id(&self.agent_id)
                    .text(a.uri.as_str())
                    .number(self.fencing_token)
                    .time(now);
                assert(q@.binds =~= seq![
                    sql_id(self.agent_id),
                    sql_text(a.uri@),
                    sql_int(self.fencing_token as int),
                    sql_time(*now),
                ]);
                Some(q)
            },
            None => None,
        }
    }

    /// The statement that notes the write. There is none where no lease allows it: a holder
    /// that has lost its lease leaves the artifact as it is.
    pub fn commit(&self, lease_found: bool) -> (r: Option<Query>)
        ensures
            lease_found ==> r is Some && r->Some_0@ == statement(
                COMMIT_WRITE@,
                seq![
                    sql_int(self.fencing_token as int),
                    sql_opt_text(opt_text(self.version)),
                    sql_time(self.at),
                    sql_id(self.artifact_id),
                ],
            ),
            !lease_found ==> r is None,
    {
        if lease_found {
            Some(
                Query::new(COMMIT_WRITE).number(self.fencing_token).opt_text(&self.version).time(
                    &self.at,
                ).id(&self.artifact_id),
            )
        } else {
            None
        }
    }
}

// ── queries ─────────────────────────────────────────────────────────────────

/// The query for artifacts that a filter picks.
pub fn select_sql(filter: &str) -> (r: String)
    ensures
        r@ == SELECT_ARTIFACTS@ + filter@,
{
    concat2(SELECT_ARTIFACTS, filter)
}

/// The conditions of a list of artifacts.
pub open spec fn list_conditions(project: bool, task: bool, status: bool) -> Seq<Seq<char>> {
    (if project {
        seq!["project_id = ?"@]
    } else {
        seq![]
    }) + (if task {
        seq!["task_id = ?"@]
    } else {
        seq![]
    }) + (if status {
        seq!["status = ?"@]
    } else {
        seq![]
    })
}

/// The values for the conditions of a list of artifacts.
pub open spec fn list_binds(
    project_id: Option<ProjectId>,
    task_id: Option<TaskId>,
    status: Option<ArtifactStatus>,
) -> Seq<BoundView> {
    (match project_id {
        Some(p) => seq![sql_id(p)],
        None => seq![],
    }) + (match task_id {
        Some(t) => seq![sql_id(t)],
        None => seq![],
    }) + (match status {
        Some(s) => seq![sql_text(s.text())],
        None => seq![],
    })
}

/// The filter of a list of artifacts.
pub open spec fn list_filter(conditions: Seq<Seq<char>>) -> Seq<char> {
    if conditions.len() == 0 {
        "ORDER BY created_at"@
    } else {
        "WHERE "@ + joined(conditions, " AND "@) + " ORDER BY created_at"@
    }
}

impl ArtifactRepo {
    /// The query for an artifact.
    pub fn get(id: &ArtifactId) -> (q: Query)
        ensures
            q@ == statement(SELECT_ARTIFACTS@ + "WHERE id = ?"@, seq![sql_id(*id)]),
    {
        Query::new(select_sql("WHERE id = ?").as_str()).id(id)
    }

    /// The query for the artifact at a URI.
    pub fn get_by_uri(uri: &str) -> (q: Query)
        ensures
            q@ == statement(SELECT_ARTIFACTS@ + "WHERE uri = ?"@, seq![sql_text(uri@)]),
    {
        Query::new(select_sql("WHERE uri = ?").as_str()).text(uri)
    }

    /// The query for the artifacts of a project, of a task and in a state, where each is
    /// given, in the order of their creation.
    pub fn list(
        project_id: &Option<ProjectId>,
        task_id: &Option<TaskId>,
        status: &Option<ArtifactStatus>,
    ) -> (q: Query)
        ensures
            q@ == statement(
                SELECT_ARTIFACTS@ + list_filter(
                    list_conditions(*project_id is Some, *task_id is Some, *status is Some),
                ),
                list_binds(*project_id, *task_id, *status),
            ),
    {
        let mut conditions: Vec<String> = Vec::new();
        if project_id.is_some() {
            conditions.push("project_id = ?".to_owned());
        }
        if task_id.is_some() {
            conditions.push("task_id = ?".to_owned());
        }
        if status.is_some() {
            conditions.push("status = ?".to_owned());
        }
        assert(texts(conditions@) =~= list_conditions(
            *project_id is Some,
            *task_id is Some,
            *status is Some,
        ));
        let filter = if conditions.len() == 0 {
            "ORDER BY created_at".to_owned()
        } else {
            concat3("WHERE ", join(&conditions, " AND ").as_str(), " ORDER BY created_at")
        };
        let mut q = Query::new(select_sql(filter.as_str()).as_str());
        if let Some(p) = project_id {
            q = q.id(p);
        }
        if let Some(t) = task_id {
            q = q.id(t);
        }
        if let Some(s) = status {
            q = q.text(s.as_str());
        }
        assert(q@.binds =~= list_binds(*project_id, *task_id, *status));
        q
    }

    /// The query for the relations from and to an artifact.
    pub fn relations_for(id: &ArtifactId) -> (q: Query)
        ensures
            q@ == statement(RELATIONS_FOR@, seq![sql_id(*id), sql_id(*id)]),
    {
        Query::new(RELATIONS_FOR).id(id).id(id)
    }

    /// The statement that writes an artifact. What it writes reads back.
    pub fn upsert(a: &Artifact) -> (q: Query)
        ensures
            q@ == artifact_upsert(*a),
            a.is_plain() ==> forall|row: ArtifactRow|
                #[trigger] row.stores(*a) ==> artifact_fault(row) is None && forall|record: Artifact|
                    artifact_read(row, record) ==> record.same(*a),
    {
        Query::new(UPSERT_ARTIFACT)
            .id(&a.id)
            .text(a.uri.as_str())
            .text(a.title.as_str())
            .text(a.description.as_str())
            .text(a.status.as_str())
            .opt_id(&a.owner_agent_id)
            .opt_id(&a.task_id)
            .opt_id(&a.project_id)
            .opt_text(&a.version)
            .opt_number(a.last_write_token)
            .time(&a.created_at)
            .time(&a.updated_at)
    }

    fn add_relation(relation: &ArtifactRelation) -> (q: Query)
        ensures
            q@ == statement(ADD_RELATION@, relation_columns(*relation)),
            relation.is_plain() ==> forall|row: ArtifactRelationRow|
                #[trigger] row.stores(*relation) ==> relation_fault(row) is None && forall|record: ArtifactRelation|
                    relation_read(row, record) ==> record.same(*relation),
    {
        Query::new(ADD_RELATION)
            .id(&relation.id)
            .id(&relation.from_id)
            .id(&relation.to_id)
            .text(relation.kind.as_str())
            .time(&relation.created_at)
    }

    /// What an event asks of the registry. What is written of an artifact or a relation
    /// reads back.
    pub fn apply_event(env: &EventEnvelope) -> (r: ArtifactStep)
        ensures
            match env.payload {
                Event::ArtifactWriteCommitted {
                    artifact_id,
                    agent_id,
                    fencing_token,
                    version,
                    ..
                } => r matches ArtifactStep::CheckWrite { select, check } && select@ == statement(
                    SELECT_ARTIFACTS@ + "WHERE id = ?"@,
                    seq![sql_id(artifact_id)],
                ) && check == (WriteCheck {
                    artifact_id,
                    agent_id,
                    fencing_token,
                    version,
                    at: env.occurred_at,
                }),
                _ => r matches ArtifactStep::Run { statements: s } && statements(s@)
                    == artifact_changes(*env),
            },
            env.payload matches Event::ArtifactRegistered { artifact } ==> artifact.is_plain()
                ==> forall|row: ArtifactRow| #[trigger]
                row.stores(artifact) ==> artifact_fault(row) is None && forall|record: Artifact|
                    artifact_read(row, record) ==> record.same(artifact),
            env.payload matches Event::ArtifactRelationAdded { relation } ==> relation.is_plain()
                ==> forall|row: ArtifactRelationRow| #[trigger]
                row.stores(relation) ==> relation_fault(row) is None && forall|
                record: ArtifactRelation,
            |
                relation_read(row, record) ==> record.same(relation),
    {
        let at = &env.occurred_at;
        let mut out: Vec<Query> = Vec::new();
        match &env.payload {
            Event::ArtifactRegistered { artifact } => {
                out.push(ArtifactRepo::upsert(artifact));
            },
            Event::ArtifactOwnerAssigned { artifact_id, owner_agent_id, .. } => {
                let q = Query::new(SET_OWNER).id(owner_agent_id).time(at).id(artifact_id);
                assert(q@.binds =~= seq![
                    sql_id(*owner_agent_id),
                    sql_time(*at),
                    sql_id(*artifact_id),
                ]);
                out.push(q);
            },
            Event::ArtifactStatusChanged { artifact_id, to, .. } => {
                let q = Query::new(SET_STATUS).text(to.as_str()).time(at).id(artifact_id);
                assert(q@.binds =~= seq![sql_text(to.text()), sql_time(*at), sql_id(*artifact_id)]);
                out.push(q);
            },
            Event::ArtifactChanged { artifact_id, title, description, .. } => {
                if let Some(t) = title {
                    let q = Query::new(SET_TITLE).text(t.as_str()).time(at).id(artifact_id);
                    assert(q@.binds =~= seq![sql_text(t@), sql_time(*at), sql_id(*artifact_id)]);
                    out.push(q);
                }
                assert(statements(out@) =~= title_change(*artifact_id, *title, *at));
                if let Some(d) = description {
                    let q = Query::new(SET_DESCRIPTION).text(d.as_str()).time(at).id(artifact_id);
                    assert(q@.binds =~= seq![sql_text(d@), sql_time(*at), sql_id(*artifact_id)]);
                    out.push(q);
                }
            },
            Event::ArtifactWriteCommitted {
                artifact_id,
                agent_id,
                fencing_token,
                version,
                ..
            } => {
                let select = ArtifactRepo::get(artifact_id);
                let version = match version {
                    Some(v) => Some(v.clone()),
                    None => None,
                };
                return ArtifactStep::CheckWrite {
                    select,
                    check: WriteCheck {
                        artifact_id: *artifact_id,
                        agent_id: *agent_id,
                        fencing_token: *fencing_token,
                        version,
                        at: env.occurred_at,
                    },
                };
            },
            Event::ArtifactDeprecated { artifact_id, .. } => {
                let q = Query::new(DEPRECATE).time(at).id(artifact_id);
                assert(q@.binds =~= seq![sql_time(*at), sql_id(*artifact_id)]);
                out.push(q);
            },
            Event::ArtifactRelationAdded { relation } => {
                out.push(ArtifactRepo::add_relation(relation));
            },
            Event::ArtifactRelationRemoved { from_id, to_id, kind, .. } => {
                let q = Query::new(REMOVE_RELATION).id(from_id).id(to_id).text(kind.as_str());
                assert(q@.binds =~= seq![sql_id(*from_id), sql_id(*to_id), sql_text(kind.text())]);
                out.push(q);
            },
            _ => {},
        }
        assert(statements(out@) =~= artifact_changes(*env));
        ArtifactStep::Run { statements: out }
    }
}

// ── laws ────────────────────────────────────────────────────────────────────

/// A change of an artifact's owner or state is written as what it became, whatever it was; a
/// new title and a new description are written where they are given. Each is written to the
/// artifact of the event, at the time of the event.
pub proof fn lemma_artifact_events_are_written(env: EventEnvelope)
    ensures
        ({
            let made = artifact_changes(env);
            let now = sql_time(env.occurred_at);
            &&& env.payload matches Event::ArtifactRegistered { artifact } ==> made.len() == 1
                && made[0].sql == UPSERT_ARTIFACT@ && made[0].binds == artifact_columns(artifact)
            &&& env.payload matches Event::ArtifactOwnerAssigned {
                artifact_id,
                owner_agent_id,
                ..
            } ==> made.len() == 1 && made[0].sql == SET_OWNER@ && made[0].binds == seq![
                sql_id(owner_agent_id),
                now,
                sql_id(artifact_id),
            ]
            &&& env.payload matches Event::ArtifactStatusChanged { artifact_id, to, .. }
                ==> made.len() == 1 && made[0].sql == SET_STATUS@ && made[0].binds == seq![
                sql_text(to.text()),
                now,
                sql_id(artifact_id),
            ]
            &&& env.payload matches Event::ArtifactDeprecated { artifact_id, .. } ==> made.len()
                == 1 && made[0].sql == DEPRECATE@ && made[0].binds == seq![now, sql_id(artifact_id)]
            &&& env.payload matches Event::ArtifactRelationAdded { relation } ==> made.len() == 1
                && made[0].sql == ADD_RELATION@ && made[0].binds == relation_columns(relation)
            &&& env.payload matches Event::ArtifactRelationRemoved { from_id, to_id, kind, .. }
                ==> made.len() == 1 && made[0].sql == REMOVE_RELATION@ && made[0].binds == seq![
                sql_id(from_id),
                sql_id(to_id),
                sql_text(kind.text()),
            ]
            &&& !(env.payload is ArtifactRegistered || env.payload is ArtifactOwnerAssigned
                || env.payload is ArtifactStatusChanged || env.payload is ArtifactChanged
                || env.payload is ArtifactDeprecated || env.payload is ArtifactRelationAdded
                || env.payload is ArtifactRelationRemoved) ==> made.len() == 0
        }),
{
}

/// A changed artifact gets the title and the description that the event gives, and keeps what
/// it does not give.
pub proof fn lemma_artifact_keeps_what_is_not_given(env: EventEnvelope)
    requires
        env.payload is ArtifactChanged,
    ensures
        env.payload matches Event::ArtifactChanged { artifact_id, title, description, .. } ==> {
            let made = artifact_changes(env);
            let about = seq![sql_time(env.occurred_at), sql_id(artifact_id)];
            &&& title is None && description is None ==> made.len() == 0
            &&& title matches Some(t) ==> made.len() > 0 && made[0].sql == SET_TITLE@
                && made[0].binds == seq![sql_text(t@)] + about
            &&& description matches Some(d) ==> made.len() > 0 && made.last().sql
                == SET_DESCRIPTION@ && made.last().binds == seq![sql_text(d@)] + about
            &&& title is Some && description is Some <==> made.len() == 2
        },
{
    let now = sql_time(env.occurred_at);
    if let Event::ArtifactChanged { artifact_id, title, description, .. } = env.payload {
        if let Some(t) = title {
            assert(seq![sql_text(t@), now, sql_id(artifact_id)] =~= seq![sql_text(t@)] + seq![
                now,
                sql_id(artifact_id),
            ]);
        }
        if let Some(d) = description {
            assert(seq![sql_text(d@), now, sql_id(artifact_id)] =~= seq![sql_text(d@)] + seq![
                now,
                sql_id(artifact_id),
            ]);
        }
    }
}

/// A list of artifacts is narrowed by exactly what is given: a condition and its value stand
/// at the same place.
pub proof fn lemma_list_is_narrowed_by_what_is_given(
    project_id: Option<ProjectId>,
    task_id: Option<TaskId>,
    status: Option<ArtifactStatus>,
)
    ensures
        ({
            let conditions = list_conditions(project_id is Some, task_id is Some, status is Some);
            let binds = list_binds(project_id, task_id, status);
            let n = |given: bool|
                if given {
                    1int
                } else {
                    0
                };
            let task_at = n(project_id is Some);
            let status_at = task_at + n(task_id is Some);
            &&& conditions.len() == binds.len() == status_at + n(status is Some)
            &&& project_id matches Some(p) ==> conditions[0] == "project_id = ?"@ && binds[0]
                == sql_id(p)
            &&& task_id matches Some(t) ==> conditions[task_at] == "task_id = ?"@ && binds[task_at]
                == sql_id(t)
            &&& status matches Some(s) ==> conditions[status_at] == "status = ?"@
                && binds[status_at] == sql_text(s.text())
        }),
{
}

/// Artifacts are listed by their creation: all of them where nothing narrows the list, and
/// else those that meet every condition.
pub proof fn lemma_list_is_ordered_by_creation(first: Seq<char>, rest: Seq<Seq<char>>)
    ensures
        list_filter(Seq::<Seq<char>>::empty()) == "ORDER BY created_at"@,
        list_filter(seq![first]) == "WHERE "@ + first + " ORDER BY created_at"@,
        rest.len() > 0 ==> list_filter(seq![first] + rest) == "WHERE "@ + first + " AND "@ + joined(
            rest,
            " AND "@,
        ) + " ORDER BY created_at"@,
{
    crate::text::lemma_join_of_two_parts(seq![first], rest, " AND "@, first);
    if rest.len() > 0 {
        assert(list_filter(seq![first] + rest) =~= "WHERE "@ + first + " AND "@ + joined(
            rest,
            " AND "@,
        ) + " ORDER BY created_at"@);
    }
}

/// Each field of an artifact has a column of its own: what is written of one that changes is
/// written in its column, and the other columns stay.
pub proof fn lemma_artifact_has_a_column_for_each_field(record: Artifact, other: Artifact)
    ensures
        artifact_columns(Artifact { id: other.id, ..record }) == artifact_columns(record).update(
            0,
            sql_id(other.id),
        ),
        artifact_columns(Artifact { uri: other.uri, ..record }) == artifact_columns(record).update(
            1,
            sql_text(other.uri@),
        ),
        artifact_columns(Artifact { title: other.title, ..record })
            == artifact_columns(record).update(2, sql_text(other.title@)),
        artifact_columns(Artifact { description: other.description, ..record })
            == artifact_columns(record).update(3, sql_text(other.description@)),
        artifact_columns(Artifact { status: other.status, ..record })
            == artifact_columns(record).update(4, sql_text(other.status.text())),
        artifact_columns(Artifact { owner_agent_id: other.owner_agent_id, ..record })
            == artifact_columns(record).update(5, sql_opt_id(other.owner_agent_id)),
        artifact_columns(Artifact { task_id: other.task_id, ..record })
            == artifact_columns(record).update(6, sql_opt_id(other.task_id)),
        artifact_columns(Artifact { project_id: other.project_id, ..record })
            == artifact_columns(record).update(7, sql_opt_id(other.project_id)),
        artifact_columns(Artifact { version: other.version, ..record })
            == artifact_columns(record).update(8, sql_opt_text(opt_text(other.version))),
        artifact_columns(Artifact { last_write_token: other.last_write_token, ..record })
            == artifact_columns(record).update(9, sql_opt_int(other.last_write_token)),
        artifact_columns(Artifact { created_at: other.created_at, ..record })
            == artifact_columns(record).update(10, sql_time(other.created_at)),
        artifact_columns(Artifact { updated_at: other.updated_at, ..record })
            == artifact_columns(record).update(11, sql_time(other.updated_at)),
        artifact_columns(record).len() == 12,
{
}

/// Each field of a relation has a column of its own: what is written of one that changes is
/// written in its column, and the other columns stay.
pub proof fn lemma_artifact_relation_has_a_column_for_each_field(
    record: ArtifactRelation,
    other: ArtifactRelation,
)
    ensures
        relation_columns(ArtifactRelation { id: other.id, ..record })
            == relation_columns(record).update(0, sql_id(other.id)),
        relation_columns(ArtifactRelation { from_id: other.from_id, ..record })
            == relation_columns(record).update(1, sql_id(other.from_id)),
        relation_columns(ArtifactRelation { to_id: other.to_id, ..record })
            == relation_columns(record).update(2, sql_id(other.to_id)),
        relation_columns(ArtifactRelation { kind: other.kind, ..record })
            == relation_columns(record).update(3, sql_text(other.kind.text())),
        relation_columns(ArtifactRelation { created_at: other.created_at, ..record })
            == relation_columns(record).update(4, sql_time(other.created_at)),
        relation_columns(record).len() == 5,
{
}

/// Each field of an artifact is read from columns of its own: what is read of a row with
/// another value there differs in that field alone.
pub proof fn lemma_artifact_is_read_field_by_field(
    row: ArtifactRow,
    record: Artifact,
    other_row: ArtifactRow,
    other: Artifact,
)
    requires
        artifact_read(row, record),
        artifact_read(other_row, other),
    ensures
        artifact_read(ArtifactRow { id: other_row.id, ..row }, Artifact { id: other.id, ..record }),
        artifact_read(
            ArtifactRow { uri: other_row.uri, ..row },
            Artifact { uri: other.uri, ..record },
        ),
        artifact_read(
            ArtifactRow { title: other_row.title, ..row },
            Artifact { title: other.title, ..record },
        ),
        artifact_read(
            ArtifactRow { description: other_row.description, ..row },
            Artifact { description: other.description, ..record },
        ),
        artifact_read(
            ArtifactRow { status: other_row.status, ..row },
            Artifact { status: other.status, ..record },
        ),
        artifact_read(
            ArtifactRow { owner_agent_id: other_row.owner_agent_id, ..row },
            Artifact { owner_agent_id: other.owner_agent_id, ..record },
        ),
        artifact_read(
            ArtifactRow { task_id: other_row.task_id, ..row },
            Artifact { task_id: other.task_id, ..record },
        ),
        artifact_read(
            ArtifactRow { project_id: other_row.project_id, ..row },
            Artifact { project_id: other.project_id, ..record },
        ),
        artifact_read(
            ArtifactRow { version: other_row.version, ..row },
            Artifact { version: other.version, ..record },
        ),
        artifact_read(
            ArtifactRow { last_write_token: other_row.last_write_token, ..row },
            Artifact { last_write_token: other.last_write_token, ..record },
        ),
        artifact_read(
            ArtifactRow { created_at: other_row.created_at, ..row },
            Artifact { created_at: other.created_at, ..record },
        ),
        artifact_read(
            ArtifactRow { updated_at: other_row.updated_at, ..row },
            Artifact { updated_at: other.updated_at, ..record },
        ),
{
}

/// A row stores each field of an artifact in columns of its own: with another value there it
/// stores what differs in that field alone.
pub proof fn lemma_artifact_is_stored_field_by_field(
    row: ArtifactRow,
    record: Artifact,
    other_row: ArtifactRow,
    other: Artifact,
)
    requires
        row.stores(record),
        other_row.stores(other),
    ensures
        (ArtifactRow { id: other_row.id, ..row }).stores(Artifact { id: other.id, ..record }),
        (ArtifactRow { uri: other_row.uri, ..row }).stores(Artifact { uri: other.uri, ..record }),
        (ArtifactRow { title: other_row.title, ..row }).stores(
            Artifact { title: other.title, ..record },
        ),
        (ArtifactRow { description: other_row.description, ..row }).stores(
            Artifact { description: other.description, ..record },
        ),
        (ArtifactRow { status: other_row.status, ..row }).stores(
            Artifact { status: other.status, ..record },
        ),
        (ArtifactRow { owner_agent_id: other_row.owner_agent_id, ..row }).stores(
            Artifact { owner_agent_id: other.owner_agent_id, ..record },
        ),
        (ArtifactRow { task_id: other_row.task_id, ..row }).stores(
            Artifact { task_id: other.task_id, ..record },
        ),
        (ArtifactRow { project_id: other_row.project_id, ..row }).stores(
            Artifact { project_id: other.project_id, ..record },
        ),
        (ArtifactRow { version: other_row.version, ..row }).stores(
            Artifact { version: other.version, ..record },
        ),
        (ArtifactRow { last_write_token: other_row.last_write_token, ..row }).stores(
            Artifact { last_write_token: other.last_write_token, ..record },
        ),
        (ArtifactRow { created_at: other_row.created_at, ..row }).stores(
            Artifact { created_at: other.created_at, ..record },
        ),
        (ArtifactRow { updated_at: other_row.updated_at, ..row }).stores(
            Artifact { updated_at: other.updated_at, ..record },
        ),
{
}

/// Each field of a relation is read from columns of its own: what is read of a row with
/// another value there differs in that field alone.
pub proof fn lemma_artifact_relation_is_read_field_by_field(
    row: ArtifactRelationRow,
    record: ArtifactRelation,
    other_row: ArtifactRelationRow,
    other: ArtifactRelation,
)
    requires
        relation_read(row, record),
        relation_read(other_row, other),
    ensures
        relation_read(
            ArtifactRelationRow { id: other_row.id, ..row },
            ArtifactRelation { id: other.id, ..record },
        ),
        relation_read(
            ArtifactRelationRow { from_id: other_row.from_id, ..row },
            ArtifactRelation { from_id: other.from_id, ..record },
        ),
        relation_read(
            ArtifactRelationRow { to_id: other_row.to_id, ..row },
            ArtifactRelation { to_id: other.to_id, ..record },
        ),
        relation_read(
            ArtifactRelationRow { kind: other_row.kind, ..row },
            ArtifactRelation { kind: other.kind, ..record },
        ),
        relation_read(
            ArtifactRelationRow { created_at: other_row.created_at, ..row },
            ArtifactRelation { created_at: other.created_at, ..record },
        ),
{
}

/// A row stores each field of a relation in columns of its own: with another value there it
/// stores what differs in that field alone.
pub proof fn lemma_artifact_relation_is_stored_field_by_field(
    row: ArtifactRelationRow,
    record: ArtifactRelation,
    other_row: ArtifactRelationRow,
    other: ArtifactRelation,
)
    requires
        row.stores(record),
        other_row.stores(other),
    ensures
        (ArtifactRelationRow { id: other_row.id, ..row }).stores(
            ArtifactRelation { id: other.id, ..record },
        ),
        (ArtifactRelationRow { from_id: other_row.from_id, ..row }).stores(
            ArtifactRelation { from_id: other.from_id, ..record },
        ),
        (ArtifactRelationRow { to_id: other_row.to_id, ..row }).stores(
            ArtifactRelation { to_id: other.to_id, ..record },
        ),
        (ArtifactRelationRow { kind: other_row.kind, ..row }).stores(
            ArtifactRelation { kind: other.kind, ..record },
        ),
        (ArtifactRelationRow { created_at: other_row.created_at, ..row }).stores(
            ArtifactRelation { created_at: other.created_at, ..record },
        ),
{
}

/// A row of an artifact without a fault says what is read from it: each identifier, time,
/// state and text stands in it as it is read.
pub proof fn lemma_artifact_is_what_the_row_says(row: ArtifactRow, record: Artifact)
    requires
        (artifact_fault(row) is None && artifact_read(row, record))
            || (row.fault() is None && row.holds(record)),
    ensures
        row.id is Ok
            && crate::ids::id_parsed::<ArtifactId>(row.id->Ok_0@) == Ok::<ArtifactId, Seq<char>>(
                record.id,
            ),
        row.uri is Ok && row.uri->Ok_0 == record.uri,
        row.title is Ok && row.title->Ok_0 == record.title,
        row.description is Ok && row.description->Ok_0 == record.description,
        row.status is Ok && row.status->Ok_0@ == record.status.text(),
        row.owner_agent_id is Ok
            && (row.owner_agent_id->Ok_0 is None <==> record.owner_agent_id is None),
        row.owner_agent_id->Ok_0 matches Some(s)
            ==> crate::ids::id_parsed::<AgentId>(s@) == Ok::<AgentId, Seq<char>>(
                record.owner_agent_id->Some_0,
            ),
        row.task_id is Ok && (row.task_id->Ok_0 is None <==> record.task_id is None),
        row.task_id->Ok_0 matches Some(s)
            ==> crate::ids::id_parsed::<TaskId>(s@) == Ok::<TaskId, Seq<char>>(
                record.task_id->Some_0,
            ),
        row.project_id is Ok && (row.project_id->Ok_0 is None <==> record.project_id is None),
        row.project_id->Ok_0 matches Some(s)
            ==> crate::ids::id_parsed::<ProjectId>(s@) == Ok::<ProjectId, Seq<char>>(
                record.project_id->Some_0,
            ),
        row.version is Ok && row.version->Ok_0 == record.version,
        row.last_write_token is Ok && row.last_write_token->Ok_0 == record.last_write_token,
        row.created_at is Ok
            && crate::time::rfc3339_parsed(row.created_at->Ok_0@) == Ok::<(i64, u32), Seq<char>>(
                (record.created_at.seconds(), record.created_at.subsec()),
            ),
        row.updated_at is Ok
            && crate::time::rfc3339_parsed(row.updated_at->Ok_0@) == Ok::<(i64, u32), Seq<char>>(
                (record.updated_at.seconds(), record.updated_at.subsec()),
            ),
{
    record.status.lemma_stored_names(row.status->Ok_0@);
    crate::time::lemma_time_is_read_from_its_text(row.created_at->Ok_0@);
    crate::time::lemma_time_is_read_from_its_text(row.updated_at->Ok_0@);
}

/// A row of a relation without a fault says what is read from it: each identifier, time, state
/// and text stands in it as it is read.
pub proof fn lemma_artifact_relation_is_what_the_row_says(
    row: ArtifactRelationRow,
    record: ArtifactRelation,
)
    requires
        (relation_fault(row) is None && relation_read(row, record))
            || (row.fault() is None && row.holds(record)),
    ensures
        row.id is Ok
            && crate::ids::id_parsed::<ArtifactRelationId>(row.id->Ok_0@)
                == Ok::<ArtifactRelationId, Seq<char>>(record.id),
        row.from_id is Ok
            && crate::ids::id_parsed::<ArtifactId>(row.from_id->Ok_0@)
                == Ok::<ArtifactId, Seq<char>>(record.from_id),
        row.to_id is Ok
            && crate::ids::id_parsed::<ArtifactId>(row.to_id->Ok_0@) == Ok::<ArtifactId, Seq<char>>(
                record.to_id,
            ),
        row.kind is Ok && row.kind->Ok_0@ == record.kind.text(),
        row.created_at is Ok
            && crate::time::rfc3339_parsed(row.created_at->Ok_0@) == Ok::<(i64, u32), Seq<char>>(
                (record.created_at.seconds(), record.created_at.subsec()),
            ),
{
    record.kind.lemma_stored_names(row.kind->Ok_0@);
    crate::time::lemma_time_is_read_from_its_text(row.created_at->Ok_0@);
}

/// A text that stands for no value is reported with the text; one that stands for a value is
/// not reported.
pub proof fn lemma_unknown_artifact_status_is_reported(v: ArtifactStatus, s: Seq<char>)
    ensures
        artifact_status_fault(v.text()) is None,
        (forall|w: ArtifactStatus| #[trigger] w.text() != s) ==> artifact_status_fault(s) == Some(
            ErrorView::Serde("unknown artifact status: "@ + s),
        ),
{
    v.lemma_text_names_value();
    v.lemma_stored_names(s);
}

/// A text that stands for no value is reported with the text; one that stands for a value is
/// not reported.
pub proof fn lemma_unknown_artifact_relation_kind_is_reported(v: ArtifactRelationKind, s: Seq<char>)
    ensures
        artifact_relation_kind_fault(v.text()) is None,
        (forall|w: ArtifactRelationKind| #[trigger] w.text() != s)
            ==> artifact_relation_kind_fault(s) == Some(
                ErrorView::Serde("unknown artifact relation kind: "@ + s),
            ),
{
    v.lemma_text_names_value();
    v.lemma_stored_names(s);
}

/// A row of an artifact is refused for what is wrong with a column, with the error of that
/// column; where nothing is wrong with any, nothing is refused.
pub proof fn lemma_artifact_is_refused_for_its_columns(row: ArtifactRow, other: ArtifactRow)
    requires
        artifact_fault(row) is None,
    ensures
        artifact_fault(ArtifactRow { id: other.id, ..row }) == column_fault(other.id).or_fault(
            id_fault::<ArtifactId>(other.id->Ok_0@),
        ),
        artifact_fault(ArtifactRow { status: other.status, ..row })
            == column_fault(other.status).or_fault(artifact_status_fault(other.status->Ok_0@)),
        artifact_fault(ArtifactRow { owner_agent_id: other.owner_agent_id, ..row })
            == column_fault(other.owner_agent_id).or_fault(
                opt_id_fault::<AgentId>(other.owner_agent_id->Ok_0),
            ),
        artifact_fault(ArtifactRow { task_id: other.task_id, ..row })
            == column_fault(other.task_id).or_fault(opt_id_fault::<TaskId>(other.task_id->Ok_0)),
        artifact_fault(ArtifactRow { project_id: other.project_id, ..row })
            == column_fault(other.project_id).or_fault(
                opt_id_fault::<ProjectId>(other.project_id->Ok_0),
            ),
        artifact_fault(ArtifactRow { created_at: other.created_at, ..row })
            == column_fault(other.created_at).or_fault(ts_fault(other.created_at->Ok_0@)),
        artifact_fault(ArtifactRow { updated_at: other.updated_at, ..row })
            == column_fault(other.updated_at).or_fault(ts_fault(other.updated_at->Ok_0@)),
        artifact_fault(ArtifactRow { uri: other.uri, ..row }) == column_fault(other.uri),
        artifact_fault(ArtifactRow { title: other.title, ..row }) == column_fault(other.title),
        artifact_fault(ArtifactRow { description: other.description, ..row }) == column_fault(
            other.description,
        ),
        artifact_fault(ArtifactRow { version: other.version, ..row }) == column_fault(
            other.version,
        ),
        artifact_fault(ArtifactRow { last_write_token: other.last_write_token, ..row })
            == column_fault(other.last_write_token),
{
}

/// A row of a relation is refused for what is wrong with a column, with the error of that
/// column; where nothing is wrong with any, nothing is refused.
pub proof fn lemma_artifact_relation_is_refused_for_its_columns(
    row: ArtifactRelationRow,
    other: ArtifactRelationRow,
)
    requires
        relation_fault(row) is None,
    ensures
        relation_fault(ArtifactRelationRow { id: other.id, ..row })
            == column_fault(other.id).or_fault(id_fault::<ArtifactRelationId>(other.id->Ok_0@)),
        relation_fault(ArtifactRelationRow { from_id: other.from_id, ..row })
            == column_fault(other.from_id).or_fault(id_fault::<ArtifactId>(other.from_id->Ok_0@)),
        relation_fault(ArtifactRelationRow { to_id: other.to_id, ..row })
            == column_fault(other.to_id).or_fault(id_fault::<ArtifactId>(other.to_id->Ok_0@)),
        relation_fault(ArtifactRelationRow { kind: other.kind, ..row })
            == column_fault(other.kind).or_fault(artifact_relation_kind_fault(other.kind->Ok_0@)),
        relation_fault(ArtifactRelationRow { created_at: other.created_at, ..row })
            == column_fault(other.created_at).or_fault(ts_fault(other.created_at->Ok_0@)),
{
}

} // verus!
