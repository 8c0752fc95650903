//! Audit findings, in the `audit_findings` table. A finding is sighted again and again:
//! there is one row for each project, check and subject.
use vstd::prelude::*;

use crate::domain::{
    ActorRef, AuditFinding, FindingEntity, FindingSeverity, FindingSource, FindingStatus,
    NewFinding,
};
use crate::error::{CoreError, ErrorView};
use crate::ids::{
    id_text, id_value, lemma_id_text_is_unique, opt_id_value, opt_stored_id_fault, print_id, stored_id, stored_id_fault,
    stored_opt_id, ArtifactId, AuditFindingId, DocumentId, PlanId, ProjectId, TaskId, TypedId,
};
use crate::query::{
    bind_ids, id_binds, sql_id, sql_opt_id, sql_opt_text, sql_opt_time, sql_text, sql_time,
    statement, BoundView, Query,
};
use crate::rows::{column, column_fault, has_opt_text, has_text, Column, Decode, Faults};
use crate::text::{concat2, opt_text, placeholder_list, placeholders};
use crate::time::{
    opt_is_plain, opt_ts_fault, opt_ts_value, parse_opt_ts, parse_ts, ts_fault, ts_value, Timestamp,
};

verus! {

/// What a list of findings is narrowed to: nothing where nothing is given.
#[derive(Clone, Debug, PartialEq, Eq)]
pub struct FindingFilter {
    pub severity: Option<FindingSeverity>,
    pub category: Option<String>,
    pub status: Option<FindingStatus>,
}

impl Default for FindingFilter {
    fn default() -> (r: FindingFilter)
        ensures
            r == (FindingFilter { severity: None, category: None, status: None }),
    {
        FindingFilter { severity: None, category: None, status: None }
    }
}

/// The findings.
#[derive(Clone, Copy, Debug)]
pub struct AuditFindingRepo;

pub const SELECT_FINDINGS: &'static str = "SELECT id, project_id, plan_id, task_id, document_id, artifact_id, \
     check_key, category, severity, title, detail, remediation, source, status, \
     first_seen_at, last_seen_at, resolved_by, resolved_at \
     FROM audit_findings ";

pub const FIND_SIGHTED: &'static str = "SELECT id, status FROM audit_findings \
     WHERE project_id = ? AND check_key = ? \
     AND COALESCE(plan_id, '') = ? AND COALESCE(task_id, '') = ? \
     AND COALESCE(document_id, '') = ? AND COALESCE(artifact_id, '') = ?";

pub const REFRESH_FINDING: &'static str = "UPDATE audit_findings \
     SET category = ?, severity = ?, title = ?, detail = ?, remediation = ?, \
     source = ?, status = CASE WHEN status = 'resolved' THEN 'open' ELSE status END, \
     last_seen_at = ?, \
     resolved_by = NULL, resolved_at = NULL \
     WHERE id = ?";

pub const OPEN_FINDING: &'static str = "INSERT INTO audit_findings \
     (id, project_id, plan_id, task_id, document_id, artifact_id, \
     check_key, category, severity, title, detail, remediation, source, status, \
     first_seen_at, last_seen_at, resolved_by, resolved_at) \
     VALUES (?, ?, ?, ?, ?, ?, ?, ?, ?, ?, ?, ?, ?, 'open', ?, ?, NULL, NULL)";

pub const RESOLVE_MISSING: &'static str = "UPDATE audit_findings \
     SET status = 'resolved', resolved_by = ?, resolved_at = ? \
     WHERE project_id = ? AND check_key = ? AND status != 'resolved' ";

pub const RESOLVE: &'static str = "UPDATE audit_findings SET status = ?, resolved_by = ?, resolved_at = ? \
     WHERE id = ?";

pub const UNRESOLVE: &'static str = "UPDATE audit_findings SET status = ?, resolved_by = NULL, resolved_at = NULL \
     WHERE id = ?";

pub const LIST_FILTER: &'static str = "WHERE project_id = ? \
     AND (? IS NULL OR severity = ?) \
     AND (? IS NULL OR category = ?) \
     AND (? IS NULL OR status = ?) \
     ORDER BY last_seen_at DESC, id DESC";

// ── rows ────────────────────────────────────────────────────────────────────

/// An optional text that is there: an empty one counts as none.
pub open spec fn given(s: Option<String>) -> Option<String> {
    match s {
        Some(s) => if s@.len() == 0 {
            None
        } else {
            Some(s)
        },
        None => None,
    }
}

fn given_text(s: Option<String>) -> (r: Option<String>)
    ensures
        r == given(s),
{
    match s {
        Some(s) => if s.as_str().is_empty() {
            None
        } else {
            Some(s)
        },
        None => None,
    }
}

/// The kind of an optional actor.
pub open spec fn opt_kind(actor: Option<ActorRef>) -> Option<Seq<char>> {
    match actor {
        Some(a) => Some(a.kind@),
        None => None,
    }
}

/// Why a text is no severity.
pub open spec fn severity_fault(s: Seq<char>) -> Option<ErrorView> {
    if FindingSeverity::named(s) is Some {
        None
    } else {
        Some(ErrorView::Storage("unknown finding severity: "@ + s))
    }
}

/// Reads a severity.
pub fn parse_severity(s: &str) -> (r: Result<FindingSeverity, CoreError>)
    ensures
        match severity_fault(s@) {
            Some(e) => r is Err && r->Err_0@ == e,
            None => r is Ok && Some(r->Ok_0) == FindingSeverity::named(s@),
        },
{
    match FindingSeverity::parse_str(s) {
        Some(v) => Ok(v),
        None => Err(CoreError::Storage(concat2("unknown finding severity: ", s))),
    }
}

/// The text of an optional severity.
pub open spec fn opt_severity_text(v: Option<FindingSeverity>) -> Option<Seq<char>> {
    match v {
        Some(v) => Some(v.text()),
        None => None,
    }
}

fn severity_text(v: &Option<FindingSeverity>) -> (r: Option<String>)
    ensures
        opt_text(r) == opt_severity_text(*v),
        *v matches Some(v) ==> FindingSeverity::named(v.text()) == Some(v),
{
    match v {
        Some(v) => Some(v.as_str().to_owned()),
        None => None,
    }
}

/// Why a text is no source.
pub open spec fn source_fault(s: Seq<char>) -> Option<ErrorView> {
    if FindingSource::named(s) is Some {
        None
    } else {
        Some(ErrorView::Storage("unknown finding source: "@ + s))
    }
}

/// Reads a source.
pub fn parse_source(s: &str) -> (r: Result<FindingSource, CoreError>)
    ensures
        match source_fault(s@) {
            Some(e) => r is Err && r->Err_0@ == e,
            None => r is Ok && Some(r->Ok_0) == FindingSource::named(s@),
        },
{
    match FindingSource::parse_str(s) {
        Some(v) => Ok(v),
        None => Err(CoreError::Storage(concat2("unknown finding source: ", s))),
    }
}

/// Why a text is no state.
pub open spec fn status_fault(s: Seq<char>) -> Option<ErrorView> {
    if FindingStatus::named(s) is Some {
        None
    } else {
        Some(ErrorView::Storage("unknown finding status: "@ + s))
    }
}

/// Reads a state.
pub fn parse_status(s: &str) -> (r: Result<FindingStatus, CoreError>)
    ensures
        match status_fault(s@) {
            Some(e) => r is Err && r->Err_0@ == e,
            None => r is Ok && Some(r->Ok_0) == FindingStatus::named(s@),
        },
{
    match FindingStatus::parse_str(s) {
        Some(v) => Ok(v),
        None => Err(CoreError::Storage(concat2("unknown finding status: ", s))),
    }
}

/// The text of an optional state.
pub open spec fn opt_status_text(v: Option<FindingStatus>) -> Option<Seq<char>> {
    match v {
        Some(v) => Some(v.text()),
        None => None,
    }
}

fn status_text(v: &Option<FindingStatus>) -> (r: Option<String>)
    ensures
        opt_text(r) == opt_status_text(*v),
        *v matches Some(v) ==> FindingStatus::named(v.text()) == Some(v),
{
    match v {
        Some(v) => Some(v.as_str().to_owned()),
        None => None,
    }
}

/// A row of the `audit_findings` table.
#[derive(Debug, PartialEq, Eq)]
pub struct FindingRow {
    pub id: Column<String>,
    pub project_id: Column<String>,
    pub plan_id: Column<Option<String>>,
    pub task_id: Column<Option<String>>,
    pub document_id: Column<Option<String>>,
    pub artifact_id: Column<Option<String>>,
    pub check_key: Column<String>,
    pub category: Column<String>,
    pub severity: Column<String>,
    pub title: Column<String>,
    pub detail: Column<String>,
    pub remediation: Column<String>,
    pub source: Column<String>,
    pub status: Column<String>,
    pub first_seen_at: Column<String>,
    pub last_seen_at: Column<String>,
    pub resolved_by: Column<Option<String>>,
    pub resolved_at: Column<Option<String>>,
}

/// What is wrong with a finding row, where something is: the columns and their
/// values are looked at in this order.
pub open spec fn finding_fault(row: FindingRow) -> Option<ErrorView> {
    column_fault(row.severity).or_fault(
        column_fault(row.status),
    ).or_fault(
        column_fault(row.source),
    ).or_fault(
        column_fault(row.resolved_by),
    ).or_fault(
        column_fault(row.resolved_at),
    ).or_fault(
        column_fault(row.id),
    ).or_fault(
        stored_id_fault::<AuditFindingId>(row.id->Ok_0@, "bad id"@),
    ).or_fault(
        column_fault(row.project_id),
    ).or_fault(
        stored_id_fault::<ProjectId>(row.project_id->Ok_0@, "bad project_id"@),
    ).or_fault(
        column_fault(row.plan_id),
    ).or_fault(
        opt_stored_id_fault::<PlanId>(given(row.plan_id->Ok_0), "bad plan_id"@),
    ).or_fault(
        column_fault(row.task_id),
    ).or_fault(
        opt_stored_id_fault::<TaskId>(given(row.task_id->Ok_0), "bad task_id"@),
    ).or_fault(
        column_fault(row.document_id),
    ).or_fault(
        opt_stored_id_fault::<DocumentId>(given(row.document_id->Ok_0), "bad document_id"@),
    ).or_fault(
        column_fault(row.artifact_id),
    ).or_fault(
        opt_stored_id_fault::<ArtifactId>(given(row.artifact_id->Ok_0), "bad artifact_id"@),
    ).or_fault(
        column_fault(row.check_key),
    ).or_fault(
        column_fault(row.category),
    ).or_fault(
        severity_fault(row.severity->Ok_0@),
    ).or_fault(
        column_fault(row.title),
    ).or_fault(
        column_fault(row.detail),
    ).or_fault(
        column_fault(row.remediation),
    ).or_fault(
        source_fault(row.source->Ok_0@),
    ).or_fault(
        status_fault(row.status->Ok_0@),
    ).or_fault(
        column_fault(row.first_seen_at),
    ).or_fault(
        ts_fault(row.first_seen_at->Ok_0@),
    ).or_fault(
        column_fault(row.last_seen_at),
    ).or_fault(
        ts_fault(row.last_seen_at->Ok_0@),
    ).or_fault(
        opt_ts_fault(row.resolved_at->Ok_0),
    )
}

/// The record is what a sound finding row says.
pub open spec fn finding_read(row: FindingRow, record: AuditFinding) -> bool {
    &&& record.id == id_value::<AuditFindingId>(row.id->Ok_0@)
    &&& record.project_id == id_value::<ProjectId>(row.project_id->Ok_0@)
    &&& record.entity.plan_id == opt_id_value::<PlanId>(given(row.plan_id->Ok_0))
    &&& record.entity.task_id == opt_id_value::<TaskId>(given(row.task_id->Ok_0))
    &&& record.entity.document_id == opt_id_value::<DocumentId>(given(row.document_id->Ok_0))
    &&& record.entity.artifact_id == opt_id_value::<ArtifactId>(given(row.artifact_id->Ok_0))
    &&& record.check_key == row.check_key->Ok_0
    &&& record.category == row.category->Ok_0
    &&& Some(record.severity) == FindingSeverity::named(row.severity->Ok_0@)
    &&& record.title == row.title->Ok_0
    &&& record.detail == row.detail->Ok_0
    &&& record.remediation == row.remediation->Ok_0
    &&& Some(record.source) == FindingSource::named(row.source->Ok_0@)
    &&& Some(record.status) == FindingStatus::named(row.status->Ok_0@)
    &&& record.first_seen_at == ts_value(row.first_seen_at->Ok_0@)
    &&& record.last_seen_at == ts_value(row.last_seen_at->Ok_0@)
    &&& opt_kind(record.resolved_by) == opt_text(row.resolved_by->Ok_0)
    &&& record.resolved_by matches Some(by) ==> by.id is None && by.name is None
    &&& record.resolved_at == opt_ts_value(row.resolved_at->Ok_0)
}

/// Reads a finding from its row.
pub fn row_to_finding(row: FindingRow) -> (r: Result<AuditFinding, CoreError>)
    ensures
        match finding_fault(row) {
            Some(e) => r is Err && r->Err_0@ == e,
            None => r is Ok && finding_read(row, r->Ok_0),
        },
{
    let severity = column(row.severity)?;
    let status = column(row.status)?;
    let source = column(row.source)?;
    let resolved_by = column(row.resolved_by)?;
    let resolved_at = column(row.resolved_at)?;
    let id = column(row.id)?;
    let id = stored_id::<AuditFindingId>(id.as_str(), "bad id")?;
    let project_id = column(row.project_id)?;
    let project_id = stored_id::<ProjectId>(project_id.as_str(), "bad project_id")?;
    let plan_id = column(row.plan_id)?;
    let plan_id = stored_opt_id::<PlanId>(&given_text(plan_id), "bad plan_id")?;
    let task_id = column(row.task_id)?;
    let task_id = stored_opt_id::<TaskId>(&given_text(task_id), "bad task_id")?;
    let document_id = column(row.document_id)?;
    let document_id = stored_opt_id::<DocumentId>(&given_text(document_id), "bad document_id")?;
    let artifact_id = column(row.artifact_id)?;
    let artifact_id = stored_opt_id::<ArtifactId>(&given_text(artifact_id), "bad artifact_id")?;
    let check_key = column(row.check_key)?;
    let category = column(row.category)?;
    let severity = parse_severity(severity.as_str())?;
    let title = column(row.title)?;
    let detail = column(row.detail)?;
    let remediation = column(row.remediation)?;
    let source = parse_source(source.as_str())?;
    let status = parse_status(status.as_str())?;
    let first_seen_at = column(row.first_seen_at)?;
    let first_seen_at = parse_ts(first_seen_at.as_str())?;
    let last_seen_at = column(row.last_seen_at)?;
    let last_seen_at = parse_ts(last_seen_at.as_str())?;
    let resolved_at = parse_opt_ts(&resolved_at)?;
    let resolved_by = match resolved_by {
        Some(kind) => Some(ActorRef { kind, id: None, name: None }),
        None => None,
    };
    Ok(
        AuditFinding {
            id,
            project_id,
            entity: FindingEntity { plan_id, task_id, document_id, artifact_id },
            check_key,
            category,
            severity,
            title,
            detail,
            remediation,
            source,
            status,
            first_seen_at,
            last_seen_at,
            resolved_by,
            resolved_at,
        },
    )
}

impl Decode for FindingRow {
    type Record = AuditFinding;

    open spec fn fault(&self) -> Option<ErrorView> {
        finding_fault(*self)
    }

    open spec fn holds(&self, record: AuditFinding) -> bool {
        finding_read(*self, record)
    }

    fn decode(self) -> (r: Result<AuditFinding, CoreError>) {
        row_to_finding(self)
    }
}

impl FindingRow {
    /// Each column of the row holds what is written for it of the record.
    pub open spec fn stores(self, record: AuditFinding) -> bool {
        &&& has_text(self.id, sql_id(record.id))
        &&& has_text(self.project_id, sql_id(record.project_id))
        &&& has_opt_text(self.plan_id, sql_opt_id(record.entity.plan_id))
        &&& has_opt_text(self.task_id, sql_opt_id(record.entity.task_id))
        &&& has_opt_text(self.document_id, sql_opt_id(record.entity.document_id))
        &&& has_opt_text(self.artifact_id, sql_opt_id(record.entity.artifact_id))
        &&& has_text(self.check_key, sql_text(record.check_key@))
        &&& has_text(self.category, sql_text(record.category@))
        &&& has_text(self.severity, sql_text(record.severity.text()))
        &&& has_text(self.title, sql_text(record.title@))
        &&& has_text(self.detail, sql_text(record.detail@))
        &&& has_text(self.remediation, sql_text(record.remediation@))
        &&& has_text(self.source, sql_text(record.source.text()))
        &&& has_text(self.status, sql_text(record.status.text()))
        &&& has_text(self.first_seen_at, sql_time(record.first_seen_at))
        &&& has_text(self.last_seen_at, sql_time(record.last_seen_at))
        &&& has_opt_text(self.resolved_by, sql_opt_text(opt_kind(record.resolved_by)))
        &&& has_opt_text(self.resolved_at, sql_opt_time(record.resolved_at))
    }
}

impl AuditFinding {
    /// The two records agree in every field.
    pub open spec fn same(self, other: AuditFinding) -> bool {
        &&& self.id == other.id
        &&& self.project_id == other.project_id
        &&& self.entity.plan_id == other.entity.plan_id
        &&& self.entity.task_id == other.entity.task_id
        &&& self.entity.document_id == other.entity.document_id
        &&& self.entity.artifact_id == other.entity.artifact_id
        &&& self.check_key@ == other.check_key@
        &&& self.category@ == other.category@
        &&& self.severity == other.severity
        &&& self.title@ == other.title@
        &&& self.detail@ == other.detail@
        &&& self.remediation@ == other.remediation@
        &&& self.source == other.source
        &&& self.status == other.status
        &&& self.first_seen_at == other.first_seen_at
        &&& self.last_seen_at == other.last_seen_at
        &&& opt_kind(self.resolved_by) == opt_kind(other.resolved_by)
        &&& self.resolved_at == other.resolved_at
    }

    /// Every point in time of the record has an RFC 3339 text that reads back.
    pub open spec fn is_plain(self) -> bool {
        &&& self.first_seen_at.is_plain()
        &&& self.last_seen_at.is_plain()
        &&& opt_is_plain(self.resolved_at)
    }
}

// ── sightings ───────────────────────────────────────────────────────────────

/// The part of a subject in the key by which a finding is found again: empty where there is
/// none.
pub open spec fn entity_key_of<I: TypedId>(id: Option<I>) -> Seq<char> {
    match id {
        Some(id) => id_text(id),
        None => seq![],
    }
}

/// The part of a subject in the key by which a finding is found again.
pub fn entity_key<I: TypedId>(id: &Option<I>) -> (r: String)
    ensures
        r@ == entity_key_of(*id),
{
    match id {
        Some(id) => print_id(id),
        None => {
            let r = String::new();
            assert(r@ =~= seq![]);
            r
        },
    }
}

/// The values by which a finding is found again.
pub open spec fn sighting_key(new: NewFinding) -> Seq<BoundView> {
    seq![
        sql_id(new.project_id),
        sql_text(new.check_key@),
        sql_text(entity_key_of(new.entity.plan_id)),
        sql_text(entity_key_of(new.entity.task_id)),
        sql_text(entity_key_of(new.entity.document_id)),
        sql_text(entity_key_of(new.entity.artifact_id)),
    ]
}

/// The finding that a first sighting opens.
pub open spec fn opened(new: NewFinding, id: AuditFindingId, now: Timestamp) -> AuditFinding {
    AuditFinding {
        id,
        project_id: new.project_id,
        entity: new.entity,
        check_key: new.check_key,
        category: new.category,
        severity: new.severity,
        title: new.title,
        detail: new.detail,
        remediation: new.remediation,
        source: new.source,
        status: FindingStatus::Open,
        first_seen_at: now,
        last_seen_at: now,
        resolved_by: None,
        resolved_at: None,
    }
}

/// The state of a finding that is seen again: one that was resolved is open again, any other
/// keeps its state.
pub open spec fn status_when_seen(status: FindingStatus) -> FindingStatus {
    if status == FindingStatus::Resolved {
        FindingStatus::Open
    } else {
        status
    }
}

/// The finding is what another sighting makes of a stored one: its description is renewed,
/// it is open again if it was resolved, and it was seen now.
pub open spec fn is_refreshed(
    before: AuditFinding,
    new: NewFinding,
    now: Timestamp,
    after: AuditFinding,
) -> bool {
    after == (AuditFinding {
        category: new.category,
        severity: new.severity,
        title: new.title,
        detail: new.detail,
        remediation: new.remediation,
        source: new.source,
        status: status_when_seen(before.status),
        last_seen_at: now,
        resolved_by: None,
        resolved_at: None,
        ..before
    })
}

/// What a check's run makes of a stored finding that it did not see: a finding of the check
/// in the project that is not resolved yet is resolved now, by whoever ran the check. Any
/// other is left as it is. Of who it was only the kind is kept.
pub open spec fn after_run(
    before: AuditFinding,
    project_id: ProjectId,
    check_key: Seq<char>,
    seen: Seq<AuditFindingId>,
    resolved_by: ActorRef,
    now: Timestamp,
) -> AuditFinding {
    if before.project_id == project_id && before.check_key@ == check_key && before.status
        != FindingStatus::Resolved && !seen.contains(before.id) {
        with_status(before, FindingStatus::Resolved, resolved_by, now)
    } else {
        before
    }
}

/// A finding whose state was set: one that is resolved has who resolved it, by kind, and
/// when; any other has neither.
pub open spec fn with_status(
    before: AuditFinding,
    status: FindingStatus,
    actor: ActorRef,
    now: Timestamp,
) -> AuditFinding {
    if status == FindingStatus::Resolved {
        AuditFinding {
            status,
            resolved_by: Some(ActorRef { kind: actor.kind, id: None, name: None }),
            resolved_at: Some(now),
            ..before
        }
    } else {
        AuditFinding { status, resolved_by: None, resolved_at: None, ..before }
    }
}

/// The query for findings that a filter picks.
pub fn select_sql(tail: &str) -> (r: String)
    ensures
        r@ == SELECT_FINDINGS@ + tail@,
{
    concat2(SELECT_FINDINGS, tail)
}

/// The text of the statement that resolves the findings that were not seen.
pub open spec fn resolve_missing_sql(seen: nat) -> Seq<char> {
    if seen == 0 {
        RESOLVE_MISSING@
    } else {
        RESOLVE_MISSING@ + "AND id NOT IN ("@ + placeholder_list(seen, ", "@) + ")"@
    }
}

/// A sighting that is being written.
#[derive(Clone, Debug, PartialEq, Eq)]
pub struct Sighting {
    /// The statement that writes it.
    pub write: Query,
    /// The stored identifier of the finding, where it was known.
    pub known: Option<String>,
    /// The identifier of the finding, where it is a new one.
    pub id: AuditFindingId,
}

impl Sighting {
    /// The identifier of the finding, once the sighting is written.
    pub fn written(&self) -> (r: Result<AuditFindingId, CoreError>)
        ensures
            match self.known {
                Some(id) => match stored_id_fault::<AuditFindingId>(
                    id@,
                    "bad audit finding id"@,
                ) {
                    Some(e) => r is Err && r->Err_0@ == e,
                    None => r is Ok && r->Ok_0 == id_value::<AuditFindingId>(id@),
                },
                None => r == Ok::<AuditFindingId, CoreError>(self.id),
            },
    {
        match &self.known {
            Some(id) => stored_id::<AuditFindingId>(id.as_str(), "bad audit finding id"),
            None => Ok(self.id),
        }
    }
}

/// The values that renew a finding.
pub open spec fn refresh_columns(new: NewFinding, id: Seq<char>, now: Timestamp) -> Seq<BoundView> {
    seq![
        sql_text(new.category@),
        sql_text(new.severity.text()),
        sql_text(new.title@),
        sql_text(new.detail@),
        sql_text(new.remediation@),
        sql_text(new.source.text()),
        sql_time(now),
        sql_text(id),
    ]
}

/// The values that open a finding.
pub open spec fn open_columns(new: NewFinding, id: AuditFindingId, now: Timestamp) -> Seq<BoundView> {
    seq![
        sql_id(id),
        sql_id(new.project_id),
        sql_opt_id(new.entity.plan_id),
        sql_opt_id(new.entity.task_id),
        sql_opt_id(new.entity.document_id),
        sql_opt_id(new.entity.artifact_id),
        sql_text(new.check_key@),
        sql_text(new.category@),
        sql_text(new.severity.text()),
        sql_text(new.title@),
        sql_text(new.detail@),
        sql_text(new.remediation@),
        sql_text(new.source.text()),
        sql_time(now),
        sql_time(now),
    ]
}

impl AuditFindingRepo {
    /// The query for the finding that a sighting is of. The sighting is then written with
    /// [`AuditFindingRepo::sighted`].
    pub fn upsert(new: &NewFinding) -> (q: Query)
        ensures
            q@ == statement(FIND_SIGHTED@, sighting_key(*new)),
    {
        Query::new(FIND_SIGHTED)
            .id(&new.project_id)
            .text(new.check_key.as_str())
            .text(entity_key(&new.entity.plan_id).as_str())
            .text(entity_key(&new.entity.task_id).as_str())
            .text(entity_key(&new.entity.document_id).as_str())
            .text(entity_key(&new.entity.artifact_id).as_str())
    }

    /// The statement that renews a finding that was seen again, and opens it again if it
    /// was resolved.
    pub fn refresh(new: &NewFinding, id: &str, now: &Timestamp) -> (q: Query)
        ensures
            q@ == statement(REFRESH_FINDING@, refresh_columns(*new, id@, *now)),
    {
        Query::new(REFRESH_FINDING)
            .text(new.category.as_str())
            .text(new.severity.as_str())
            .text(new.title.as_str())
            .text(new.detail.as_str())
            .text(new.remediation.as_str())
            .text(new.source.as_str())
            .time(now)
            .text(id)
    }

    /// How a sighting is written: it renews the finding that was found, and opens one with
    /// a fresh identifier where none was.
    pub fn sighted(
        new: &NewFinding,
        found: Option<String>,
        fresh_id: AuditFindingId,
        now: &Timestamp,
    ) -> (r: Sighting)
        ensures
            r.known == found,
            r.id == fresh_id,
            match found {
                Some(id) => r.write@ == statement(
                    REFRESH_FINDING@,
                    refresh_columns(*new, id@, *now),
                ),
                None => r.write@ == statement(OPEN_FINDING@, open_columns(*new, fresh_id, *now)),
            },
    {
        let write = match &found {
            Some(id) => AuditFindingRepo::refresh(new, id.as_str(), now),
            None => AuditFindingRepo::open(new, &fresh_id, now),
        };
        Sighting { write, known: found, id: fresh_id }
    }

    /// The statement that opens a finding. What it writes reads back as the finding.
    pub fn open(new: &NewFinding, id: &AuditFindingId, now: &Timestamp) -> (q: Query)
        ensures
            q@ == statement(OPEN_FINDING@, open_columns(*new, *id, *now)),
            now.is_plain() ==> forall|row: FindingRow| #[trigger]
                row.stores(opened(*new, *id, *now)) ==> finding_fault(row) is None && forall|
                    record: AuditFinding,
                |
                    finding_read(row, record) ==> record.same(opened(*new, *id, *now)),
    {
        proof {
            FindingStatus::Open.lemma_text_names_value();
        }
        Query::new(OPEN_FINDING)
            .id(id)
            .id(&new.project_id)
            .opt_id(&new.entity.plan_id)
            .opt_id(&new.entity.task_id)
            .opt_id(&new.entity.document_id)
            .opt_id(&new.entity.artifact_id)
            .text(new.check_key.as_str())
            .text(new.category.as_str())
            .text(new.severity.as_str())
            .text(new.title.as_str())
            .text(new.detail.as_str())
            .text(new.remediation.as_str())
            .text(new.source.as_str())
            .time(now)
            .time(now)
    }

    /// The statement that resolves the findings of a check in a project that were not seen
    /// in its last run.
    pub fn resolve_missing(
        project_id: &ProjectId,
        check_key: &str,
        seen: &Vec<AuditFindingId>,
        resolved_by: &ActorRef,
        now: &Timestamp,
    ) -> (q: Query)
        ensures
            q@ == statement(
                resolve_missing_sql(seen@.len()),
                seq![
                    sql_text(resolved_by.kind@),
                    sql_time(*now),
                    sql_id(*project_id),
                    sql_text(check_key@),
                ] + id_binds(seen@),
            ),
    {
        let mut sql = RESOLVE_MISSING.to_owned();
        if seen.len() > 0 {
            sql.append("AND id NOT IN (");
            sql.append(placeholders(seen.len(), ", ").as_str());
            sql.append(")");
        }
        let q = Query::new(sql.as_str())
            .text(resolved_by.kind.as_str())
            .time(now)
            .id(project_id)
            .text(check_key);
        assert(q@.binds =~= seq![
            sql_text(resolved_by.kind@),
            sql_time(*now),
            sql_id(*project_id),
            sql_text(check_key@),
        ]);
        bind_ids(q, seen)
    }

    /// The statement that changes the state of a finding. A finding that is resolved keeps
    /// who resolved it and when; any other forgets it.
    pub fn set_status(
        id: &AuditFindingId,
        status: FindingStatus,
        actor: &ActorRef,
        now: &Timestamp,
    ) -> (q: Query)
        ensures
            q@ == if status == FindingStatus::Resolved {
                statement(
                    RESOLVE@,
                    seq![
                        sql_text(status.text()),
                        sql_text(actor.kind@),
                        sql_time(*now),
                        sql_id(*id),
                    ],
                )
            } else {
                statement(UNRESOLVE@, seq![sql_text(status.text()), sql_id(*id)])
            },
    {
        if status == FindingStatus::Resolved {
            let q = Query::new(RESOLVE).text(status.as_str()).text(actor.kind.as_str()).time(now).id(
                id,
            );
            assert(q@.binds =~= seq![
                sql_text(status.text()),
                sql_text(actor.kind@),
                sql_time(*now),
                sql_id(*id),
            ]);
            q
        } else {
            let q = Query::new(UNRESOLVE).text(status.as_str()).id(id);
            assert(q@.binds =~= seq![sql_text(status.text()), sql_id(*id)]);
            q
        }
    }

    /// Whether there was a finding whose state was changed.
    pub fn was_set(rows_affected: u64) -> (r: bool)
        ensures
            r == (rows_affected > 0),
    {
        rows_affected > 0
    }

    /// The query for a finding.
    pub fn get(id: &AuditFindingId) -> (q: Query)
        ensures
            q@ == statement(SELECT_FINDINGS@ + "WHERE id = ?"@, seq![sql_id(*id)]),
    {
        Query::new(select_sql("WHERE id = ?").as_str()).id(id)
    }

    /// The query for the findings of a project that a filter lets through, the last seen
    /// first.
    pub fn list(project_id: &ProjectId, filter: &FindingFilter) -> (q: Query)
        ensures
            q@ == statement(
                SELECT_FINDINGS@ + LIST_FILTER@,
                seq![
                    sql_id(*project_id),
                    sql_opt_text(opt_severity_text(filter.severity)),
                    sql_opt_text(opt_severity_text(filter.severity)),
                    sql_opt_text(opt_text(filter.category)),
                    sql_opt_text(opt_text(filter.category)),
                    sql_opt_text(opt_status_text(filter.status)),
                    sql_opt_text(opt_status_text(filter.status)),
                ],
            ),
    {
        let severity = severity_text(&filter.severity);
        let status = status_text(&filter.status);
        Query::new(select_sql(LIST_FILTER).as_str())
            .id(project_id)
            .opt_text(&severity)
            .opt_text(&severity)
            .opt_text(&filter.category)
            .opt_text(&filter.category)
            .opt_text(&status)
            .opt_text(&status)
    }
}

// ── laws ────────────────────────────────────────────────────────────────────

proof fn lemma_entity_key_is_unique<I: TypedId>(a: Option<I>, b: Option<I>)
    ensures
        entity_key_of(a) == entity_key_of(b) <==> a == b,
{
    match (a, b) {
        (Some(a), Some(b)) => lemma_id_text_is_unique(a, b),
        (Some(a), None) => assert(id_text(a).len() > 0),
        (None, Some(b)) => assert(id_text(b).len() > 0),
        (None, None) => {},
    }
}

/// Two sightings are of one finding exactly if they agree in project, check and subject.
pub proof fn lemma_sightings_share_a_finding(a: NewFinding, b: NewFinding)
    ensures
        sighting_key(a) == sighting_key(b) <==> a.project_id == b.project_id && a.check_key@
            == b.check_key@ && a.entity == b.entity,
{
    lemma_id_text_is_unique(a.project_id, b.project_id);
    lemma_entity_key_is_unique(a.entity.plan_id, b.entity.plan_id);
    lemma_entity_key_is_unique(a.entity.task_id, b.entity.task_id);
    lemma_entity_key_is_unique(a.entity.document_id, b.entity.document_id);
    lemma_entity_key_is_unique(a.entity.artifact_id, b.entity.artifact_id);
    if sighting_key(a) == sighting_key(b) {
        assert(sighting_key(a)[0] == sighting_key(b)[0]);
        assert(sighting_key(a)[1] == sighting_key(b)[1]);
        assert(sighting_key(a)[2] == sighting_key(b)[2]);
        assert(sighting_key(a)[3] == sighting_key(b)[3]);
        assert(sighting_key(a)[4] == sighting_key(b)[4]);
        assert(sighting_key(a)[5] == sighting_key(b)[5]);
    }
}

/// A finding that is seen again keeps its identity and the time of its first sighting. It
/// is open again if it was resolved; one that is muted or acknowledged stays so. Seeing it
/// twice at one time is as good as once.
pub proof fn lemma_repeat_sighting_keeps_identity(
    before: AuditFinding,
    new: NewFinding,
    now: Timestamp,
    after: AuditFinding,
    again: AuditFinding,
)
    requires
        is_refreshed(before, new, now, after),
        is_refreshed(after, new, now, again),
    ensures
        after.id == before.id,
        after.project_id == before.project_id,
        after.entity == before.entity,
        after.check_key == before.check_key,
        after.first_seen_at == before.first_seen_at,
        after.last_seen_at == now,
        before.status == FindingStatus::Resolved ==> after.status == FindingStatus::Open,
        before.status != FindingStatus::Resolved ==> after.status == before.status,
        again == after,
{
}

/// After a check's run its findings in the project that it did not see are resolved. Those
/// that it saw, those of other checks and projects, and those that had been resolved are as
/// they were; with the latter stays who resolved them and when. No finding changes but in
/// its state. To say so twice is to say it once, whoever says it again and when.
pub proof fn lemma_run_resolves_what_it_did_not_see(
    before: AuditFinding,
    project_id: ProjectId,
    check_key: Seq<char>,
    seen: Seq<AuditFindingId>,
    resolved_by: ActorRef,
    now: Timestamp,
    again_by: ActorRef,
    later: Timestamp,
)
    ensures
        ({
            let after = after_run(before, project_id, check_key, seen, resolved_by, now);
            let is_of_check = before.project_id == project_id && before.check_key@ == check_key;
            &&& is_of_check && !seen.contains(before.id) ==> after.status
                == FindingStatus::Resolved
            &&& is_of_check && !seen.contains(before.id) && before.status
                != FindingStatus::Resolved ==> after.resolved_at == Some(now) && opt_kind(
                after.resolved_by,
            ) == Some(resolved_by.kind@)
            &&& seen.contains(before.id) || !is_of_check || before.status
                == FindingStatus::Resolved ==> after == before
            &&& after == (AuditFinding {
                status: after.status,
                resolved_by: after.resolved_by,
                resolved_at: after.resolved_at,
                ..before
            })
            &&& after_run(after, project_id, check_key, seen, again_by, later) == after
        }),
{
}

/// A finding that was resolved because a run did not see it is open again when it is seen.
pub proof fn lemma_resolved_finding_reopens(
    before: AuditFinding,
    project_id: ProjectId,
    check_key: Seq<char>,
    seen: Seq<AuditFindingId>,
    resolved_by: ActorRef,
    now: Timestamp,
    new: NewFinding,
    later: Timestamp,
    reopened: AuditFinding,
)
    requires
        before.project_id == project_id,
        before.check_key@ == check_key,
        !seen.contains(before.id),
        is_refreshed(
            after_run(before, project_id, check_key, seen, resolved_by, now),
            new,
            later,
            reopened,
        ),
    ensures
        reopened.id == before.id,
        reopened.first_seen_at == before.first_seen_at,
        reopened.status == FindingStatus::Open,
        reopened.resolved_by is None,
        reopened.resolved_at is None,
{
}

/// A first sighting opens a finding: it is open, nobody has resolved it, it was first and last
/// seen now, and all else is as the check described it.
pub proof fn lemma_first_sighting_opens_finding(
    new: NewFinding,
    id: AuditFindingId,
    now: Timestamp,
)
    ensures
        ({
            let f = opened(new, id, now);
            &&& f.id == id
            &&& f.status is Open
            &&& f.first_seen_at == now
            &&& f.last_seen_at == now
            &&& f.resolved_by is None
            &&& f.resolved_at is None
            &&& f.project_id == new.project_id
            &&& f.entity == new.entity
            &&& f.check_key == new.check_key
            &&& f.category == new.category
            &&& f.severity == new.severity
            &&& f.title == new.title
            &&& f.detail == new.detail
            &&& f.remediation == new.remediation
            &&& f.source == new.source
        }),
{
}

/// The state of a finding is the one that was set last. Only a resolved one has who resolved
/// it, of whom the kind is kept, and when; nothing else of a finding changes.
pub proof fn lemma_last_state_stays(
    before: AuditFinding,
    first: FindingStatus,
    second: FindingStatus,
    by: ActorRef,
    then_at: Timestamp,
    now: Timestamp,
)
    ensures
        ({
            let after = with_status(before, second, by, now);
            &&& after.status == second
            &&& second is Resolved ==> after.resolved_at == Some(now) && after.resolved_by is Some
                && after.resolved_by->Some_0.kind == by.kind && after.resolved_by->Some_0.id is None
                && after.resolved_by->Some_0.name is None
            &&& !(second is Resolved) ==> after.resolved_at is None && after.resolved_by is None
            &&& with_status(with_status(before, first, by, then_at), second, by, now) == after
            &&& after == AuditFinding {
                status: after.status,
                resolved_by: after.resolved_by,
                resolved_at: after.resolved_at,
                ..before
            }
        }),
{
}

/// A sighting opens again what was resolved and nothing else: what was acknowledged or set
/// aside stays so.
pub proof fn lemma_sighting_opens_what_was_resolved(status: FindingStatus)
    ensures
        status is Resolved ==> status_when_seen(status) is Open,
        !(status is Resolved) ==> status_when_seen(status) == status,
{
}

/// A finding is looked for by its project, its check and its four possible subjects; a subject
/// that is not given is an empty text.
pub proof fn lemma_finding_is_looked_for_by_subject(new: NewFinding)
    ensures
        ({
            let key = sighting_key(new);
            &&& key.len() == 6
            &&& key[0] == sql_id(new.project_id)
            &&& key[1] == sql_text(new.check_key@)
            &&& new.entity.plan_id matches Some(id) ==> key[2] == sql_id(id)
            &&& new.entity.task_id matches Some(id) ==> key[3] == sql_id(id)
            &&& new.entity.document_id matches Some(id) ==> key[4] == sql_id(id)
            &&& new.entity.artifact_id matches Some(id) ==> key[5] == sql_id(id)
            &&& new.entity.plan_id is None ==> key[2] == sql_text(seq![])
            &&& new.entity.task_id is None ==> key[3] == sql_text(seq![])
            &&& new.entity.document_id is None ==> key[4] == sql_text(seq![])
            &&& new.entity.artifact_id is None ==> key[5] == sql_text(seq![])
        }),
{
}

/// What opens a finding and what renews one describe it in the same words: category, severity,
/// title, detail, remediation and source, in this order. One that is opened was first and last
/// seen now; one that is renewed was last seen now.
pub proof fn lemma_sightings_describe_in_the_same_words(
    new: NewFinding,
    id: AuditFindingId,
    known: Seq<char>,
    now: Timestamp,
)
    ensures
        ({
            let words = seq![
                sql_text(new.category@),
                sql_text(new.severity.text()),
                sql_text(new.title@),
                sql_text(new.detail@),
                sql_text(new.remediation@),
                sql_text(new.source.text()),
            ];
            let about = seq![
                sql_id(id),
                sql_id(new.project_id),
                sql_opt_id(new.entity.plan_id),
                sql_opt_id(new.entity.task_id),
                sql_opt_id(new.entity.document_id),
                sql_opt_id(new.entity.artifact_id),
                sql_text(new.check_key@),
            ];
            &&& refresh_columns(new, known, now) == words + seq![sql_time(now), sql_text(known)]
            &&& open_columns(new, id, now) == about + words + seq![sql_time(now), sql_time(now)]
        }),
{
    let words = seq![
        sql_text(new.category@),
        sql_text(new.severity.text()),
        sql_text(new.title@),
        sql_text(new.detail@),
        sql_text(new.remediation@),
        sql_text(new.source.text()),
    ];
    assert(refresh_columns(new, known, now) =~= words + seq![sql_time(now), sql_text(known)]);
    let about = seq![
        sql_id(id),
        sql_id(new.project_id),
        sql_opt_id(new.entity.plan_id),
        sql_opt_id(new.entity.task_id),
        sql_opt_id(new.entity.document_id),
        sql_opt_id(new.entity.artifact_id),
        sql_text(new.check_key@),
    ];
    assert(open_columns(new, id, now) =~= about + words + seq![sql_time(now), sql_time(now)]);
}

/// An empty text counts as none, and any other as itself.
pub proof fn lemma_empty_text_is_none(s: Option<String>)
    ensures
        given(s) is None <==> s is None || s->Some_0@.len() == 0,
        given(s) is Some ==> given(s) == s,
{
}

/// Findings that were seen are left out one by one; where none was seen all are resolved.
pub proof fn lemma_seen_findings_are_left_out(seen: nat)
    ensures
        resolve_missing_sql(0) == RESOLVE_MISSING@,
        seen > 0 ==> resolve_missing_sql(seen) == RESOLVE_MISSING@ + "AND id NOT IN ("@
            + crate::text::joined(Seq::new(seen, |i: int| seq!['?']), ", "@) + ")"@,
{
    crate::text::lemma_placeholders_are_joined_question_marks(seen, ", "@);
}

/// Each field of a finding is read from columns of its own: what is read of a row with another
/// value there differs in that field alone.
pub proof fn lemma_audit_finding_is_read_field_by_field(
    row: FindingRow,
    record: AuditFinding,
    other_row: FindingRow,
    other: AuditFinding,
)
    requires
        finding_read(row, record),
        finding_read(other_row, other),
    ensures
        finding_read(
            FindingRow { id: other_row.id, ..row },
            AuditFinding { id: other.id, ..record },
        ),
        finding_read(
            FindingRow { project_id: other_row.project_id, ..row },
            AuditFinding { project_id: other.project_id, ..record },
        ),
        finding_read(
            FindingRow {
                artifact_id: other_row.artifact_id,
                document_id: other_row.document_id,
                plan_id: other_row.plan_id,
                task_id: other_row.task_id,
                ..row
            },
            AuditFinding { entity: other.entity, ..record },
        ),
        finding_read(
            FindingRow { check_key: other_row.check_key, ..row },
            AuditFinding { check_key: other.check_key, ..record },
        ),
        finding_read(
            FindingRow { category: other_row.category, ..row },
            AuditFinding { category: other.category, ..record },
        ),
        finding_read(
            FindingRow { severity: other_row.severity, ..row },
            AuditFinding { severity: other.severity, ..record },
        ),
        finding_read(
            FindingRow { title: other_row.title, ..row },
            AuditFinding { title: other.title, ..record },
        ),
        finding_read(
            FindingRow { detail: other_row.detail, ..row },
            AuditFinding { detail: other.detail, ..record },
        ),
        finding_read(
            FindingRow { remediation: other_row.remediation, ..row },
            AuditFinding { remediation: other.remediation, ..record },
        ),
        finding_read(
            FindingRow { source: other_row.source, ..row },
            AuditFinding { source: other.source, ..record },
        ),
        finding_read(
            FindingRow { status: other_row.status, ..row },
            AuditFinding { status: other.status, ..record },
        ),
        finding_read(
            FindingRow { first_seen_at: other_row.first_seen_at, ..row },
            AuditFinding { first_seen_at: other.first_seen_at, ..record },
        ),
        finding_read(
            FindingRow { last_seen_at: other_row.last_seen_at, ..row },
            AuditFinding { last_seen_at: other.last_seen_at, ..record },
        ),
        finding_read(
            FindingRow { resolved_by: other_row.resolved_by, ..row },
            AuditFinding { resolved_by: other.resolved_by, ..record },
        ),
        finding_read(
            FindingRow { resolved_at: other_row.resolved_at, ..row },
            AuditFinding { resolved_at: other.resolved_at, ..record },
        ),
{
}

/// A row stores each field of a finding in columns of its own: with another value there it
/// stores what differs in that field alone.
pub proof fn lemma_audit_finding_is_stored_field_by_field(
    row: FindingRow,
    record: AuditFinding,
    other_row: FindingRow,
    other: AuditFinding,
)
    requires
        row.stores(record),
        other_row.stores(other),
    ensures
        (FindingRow { id: other_row.id, ..row }).stores(AuditFinding { id: other.id, ..record }),
        (FindingRow { project_id: other_row.project_id, ..row }).stores(
            AuditFinding { project_id: other.project_id, ..record },
        ),
        (FindingRow {
            artifact_id: other_row.artifact_id,
            document_id: other_row.document_id,
            plan_id: other_row.plan_id,
            task_id: other_row.task_id,
            ..row
        }).stores(AuditFinding { entity: other.entity, ..record }),
        (FindingRow { check_key: other_row.check_key, ..row }).stores(
            AuditFinding { check_key: other.check_key, ..record },
        ),
        (FindingRow { category: other_row.category, ..row }).stores(
            AuditFinding { category: other.category, ..record },
        ),
        (FindingRow { severity: other_row.severity, ..row }).stores(
            AuditFinding { severity: other.severity, ..record },
        ),
        (FindingRow { title: other_row.title, ..row }).stores(
            AuditFinding { title: other.title, ..record },
        ),
        (FindingRow { detail: other_row.detail, ..row }).stores(
            AuditFinding { detail: other.detail, ..record },
        ),
        (FindingRow { remediation: other_row.remediation, ..row }).stores(
            AuditFinding { remediation: other.remediation, ..record },
        ),
        (FindingRow { source: other_row.source, ..row }).stores(
            AuditFinding { source: other.source, ..record },
        ),
        (FindingRow { status: other_row.status, ..row }).stores(
            AuditFinding { status: other.status, ..record },
        ),
        (FindingRow { first_seen_at: other_row.first_seen_at, ..row }).stores(
            AuditFinding { first_seen_at: other.first_seen_at, ..record },
        ),
        (FindingRow { last_seen_at: other_row.last_seen_at, ..row }).stores(
            AuditFinding { last_seen_at: other.last_seen_at, ..record },
        ),
        (FindingRow { resolved_by: other_row.resolved_by, ..row }).stores(
            AuditFinding { resolved_by: other.resolved_by, ..record },
        ),
        (FindingRow { resolved_at: other_row.resolved_at, ..row }).stores(
            AuditFinding { resolved_at: other.resolved_at, ..record },
        ),
{
}

/// A row of a finding without a fault says what is read from it: each identifier, time, state
/// and text stands in it as it is read.
pub proof fn lemma_audit_finding_is_what_the_row_says(row: FindingRow, record: AuditFinding)
    requires
        (finding_fault(row) is None && finding_read(row, record))
            || (row.fault() is None && row.holds(record)),
    ensures
        row.id is Ok
            && crate::ids::id_parsed::<AuditFindingId>(row.id->Ok_0@)
                == Ok::<AuditFindingId, Seq<char>>(record.id),
        row.project_id is Ok
            && crate::ids::id_parsed::<ProjectId>(row.project_id->Ok_0@)
                == Ok::<ProjectId, Seq<char>>(record.project_id),
        row.plan_id is Ok && (given(row.plan_id->Ok_0) is None <==> record.entity.plan_id is None),
        given(row.plan_id->Ok_0) matches Some(s)
            ==> crate::ids::id_parsed::<PlanId>(s@) == Ok::<PlanId, Seq<char>>(
                record.entity.plan_id->Some_0,
            ),
        row.task_id is Ok && (given(row.task_id->Ok_0) is None <==> record.entity.task_id is None),
        given(row.task_id->Ok_0) matches Some(s)
            ==> crate::ids::id_parsed::<TaskId>(s@) == Ok::<TaskId, Seq<char>>(
                record.entity.task_id->Some_0,
            ),
        row.document_id is Ok
            && (given(row.document_id->Ok_0) is None <==> record.entity.document_id is None),
        given(row.document_id->Ok_0) matches Some(s)
            ==> crate::ids::id_parsed::<DocumentId>(s@) == Ok::<DocumentId, Seq<char>>(
                record.entity.document_id->Some_0,
            ),
        row.artifact_id is Ok
            && (given(row.artifact_id->Ok_0) is None <==> record.entity.artifact_id is None),
        given(row.artifact_id->Ok_0) matches Some(s)
            ==> crate::ids::id_parsed::<ArtifactId>(s@) == Ok::<ArtifactId, Seq<char>>(
                record.entity.artifact_id->Some_0,
            ),
        row.check_key is Ok && row.check_key->Ok_0 == record.check_key,
        row.category is Ok && row.category->Ok_0 == record.category,
        row.severity is Ok && row.severity->Ok_0@ == record.severity.text(),
        row.title is Ok && row.title->Ok_0 == record.title,
        row.detail is Ok && row.detail->Ok_0 == record.detail,
        row.remediation is Ok && row.remediation->Ok_0 == record.remediation,
        row.source is Ok && row.source->Ok_0@ == record.source.text(),
        row.status is Ok && row.status->Ok_0@ == record.status.text(),
        row.first_seen_at is Ok
            && crate::time::rfc3339_parsed(row.first_seen_at->Ok_0@) == Ok::<(i64, u32), Seq<char>>(
                (record.first_seen_at.seconds(), record.first_seen_at.subsec()),
            ),
        row.last_seen_at is Ok
            && crate::time::rfc3339_parsed(row.last_seen_at->Ok_0@) == Ok::<(i64, u32), Seq<char>>(
                (record.last_seen_at.seconds(), record.last_seen_at.subsec()),
            ),
        row.resolved_by is Ok,
        row.resolved_at is Ok && (row.resolved_at->Ok_0 is None <==> record.resolved_at is None),
        row.resolved_at->Ok_0 matches Some(s)
            ==> crate::time::rfc3339_parsed(s@) == Ok::<(i64, u32), Seq<char>>(
                (record.resolved_at->Some_0.seconds(), record.resolved_at->Some_0.subsec()),
            ),
{
    record.severity.lemma_stored_names(row.severity->Ok_0@);
    record.source.lemma_stored_names(row.source->Ok_0@);
    record.status.lemma_stored_names(row.status->Ok_0@);
    crate::time::lemma_time_is_read_from_its_text(row.first_seen_at->Ok_0@);
    crate::time::lemma_time_is_read_from_its_text(row.last_seen_at->Ok_0@);
    if row.resolved_at->Ok_0 is Some {
        crate::time::lemma_time_is_read_from_its_text(row.resolved_at->Ok_0->Some_0@);
    }
}

/// A text that stands for no value is reported with the text; one that stands for a value is
/// not reported.
pub proof fn lemma_unknown_finding_severity_is_reported(v: FindingSeverity, s: Seq<char>)
    ensures
        severity_fault(v.text()) is None,
        (forall|w: FindingSeverity| #[trigger] w.text() != s) ==> severity_fault(s) == Some(
            ErrorView::Storage("unknown finding severity: "@ + s),
        ),
{
    v.lemma_text_names_value();
    v.lemma_stored_names(s);
}

/// A text that stands for no value is reported with the text; one that stands for a value is
/// not reported.
pub proof fn lemma_unknown_finding_source_is_reported(v: FindingSource, s: Seq<char>)
    ensures
        source_fault(v.text()) is None,
        (forall|w: FindingSource| #[trigger] w.text() != s) ==> source_fault(s) == Some(
            ErrorView::Storage("unknown finding source: "@ + s),
        ),
{
    v.lemma_text_names_value();
    v.lemma_stored_names(s);
}

/// A text that stands for no value is reported with the text; one that stands for a value is
/// not reported.
pub proof fn lemma_unknown_finding_status_is_reported(v: FindingStatus, s: Seq<char>)
    ensures
        status_fault(v.text()) is None,
        (forall|w: FindingStatus| #[trigger] w.text() != s) ==> status_fault(s) == Some(
            ErrorView::Storage("unknown finding status: "@ + s),
        ),
{
    v.lemma_text_names_value();
    v.lemma_stored_names(s);
}

/// Findings are asked for by the severity and the state that are given, under their names.
pub proof fn lemma_findings_are_asked_for_by_name(
    severity: Option<FindingSeverity>,
    status: Option<FindingStatus>,
)
    ensures
        severity matches Some(v) ==> opt_severity_text(severity) == Some(v.text()),
        severity is None ==> opt_severity_text(severity) is None,
        status matches Some(v) ==> opt_status_text(status) == Some(v.text()),
        status is None ==> opt_status_text(status) is None,
{
}

/// A row of a finding is refused for what is wrong with a column, with the error of that
/// column; where nothing is wrong with any, nothing is refused.
pub proof fn lemma_audit_finding_is_refused_for_its_columns(row: FindingRow, other: FindingRow)
    requires
        finding_fault(row) is None,
    ensures
        finding_fault(FindingRow { severity: other.severity, ..row })
            == column_fault(other.severity).or_fault(severity_fault(other.severity->Ok_0@)),
        finding_fault(FindingRow { status: other.status, ..row })
            == column_fault(other.status).or_fault(status_fault(other.status->Ok_0@)),
        finding_fault(FindingRow { source: other.source, ..row })
            == column_fault(other.source).or_fault(source_fault(other.source->Ok_0@)),
        finding_fault(FindingRow { resolved_by: other.resolved_by, ..row }) == column_fault(
            other.resolved_by,
        ),
        finding_fault(FindingRow { resolved_at: other.resolved_at, ..row })
            == column_fault(other.resolved_at).or_fault(opt_ts_fault(other.resolved_at->Ok_0)),
        finding_fault(FindingRow { id: other.id, ..row }) == column_fault(other.id).or_fault(
            stored_id_fault::<AuditFindingId>(other.id->Ok_0@, "bad id"@),
        ),
        finding_fault(FindingRow { project_id: other.project_id, ..row })
            == column_fault(other.project_id).or_fault(
                stored_id_fault::<ProjectId>(other.project_id->Ok_0@, "bad project_id"@),
            ),
        finding_fault(FindingRow { plan_id: other.plan_id, ..row })
            == column_fault(other.plan_id).or_fault(
                opt_stored_id_fault::<PlanId>(given(other.plan_id->Ok_0), "bad plan_id"@),
            ),
        finding_fault(FindingRow { task_id: other.task_id, ..row })
            == column_fault(other.task_id).or_fault(
                opt_stored_id_fault::<TaskId>(given(other.task_id->Ok_0), "bad task_id"@),
            ),
        finding_fault(FindingRow { document_id: other.document_id, ..row })
            == column_fault(other.document_id).or_fault(
                opt_stored_id_fault::<DocumentId>(
                    given(other.document_id->Ok_0),
                    "bad document_id"@,
                ),
            ),
        finding_fault(FindingRow { artifact_id: other.artifact_id, ..row })
            == column_fault(other.artifact_id).or_fault(
                opt_stored_id_fault::<ArtifactId>(
                    given(other.artifact_id->Ok_0),
                    "bad artifact_id"@,
                ),
            ),
        finding_fault(FindingRow { check_key: other.check_key, ..row }) == column_fault(
            other.check_key,
        ),
        finding_fault(FindingRow { category: other.category, ..row }) == column_fault(
            other.category,
        ),
        finding_fault(FindingRow { title: other.title, ..row }) == column_fault(other.title),
        finding_fault(FindingRow { detail: other.detail, ..row }) == column_fault(other.detail),
        finding_fault(FindingRow { remediation: other.remediation, ..row }) == column_fault(
            other.remediation,
        ),
        finding_fault(FindingRow { first_seen_at: other.first_seen_at, ..row })
            == column_fault(other.first_seen_at).or_fault(ts_fault(other.first_seen_at->Ok_0@)),
        finding_fault(FindingRow { last_seen_at: other.last_seen_at, ..row })
            == column_fault(other.last_seen_at).or_fault(ts_fault(other.last_seen_at->Ok_0@)),
{
}

} // verus!
