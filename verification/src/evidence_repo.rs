//! Evidence, in the `evidence` table: records that are written once, and superseded rather
//! than changed.
use vstd::prelude::*;
use vstd::slice::slice_subrange;

use crate::domain::{ActorRef, Evidence, EvidenceKind, EvidenceReach, RuleScope};
use crate::entity_version::member;
use crate::error::{CoreError, ErrorView};
use crate::events::{Event, EventEnvelope};
use crate::ids::{
    id_value, opt_id_value, opt_stored_id_fault, stored_id, stored_id_fault, stored_opt_id, AgentId,
    ArtifactId, EvidenceId, PlanId, ProjectId, RuleId, RunId, TaskId,
};
use crate::json::{
    is_plain_json, json_fault, json_parsed, json_printed, parse_json, print_json, Json, JsonView,
    JSON_DEPTH,
};
use crate::query::{
    sql_id, sql_opt_id, sql_opt_text, sql_text, sql_time, statement, BoundView, Query,
};
use crate::rows::{column, column_fault, has_opt_text, has_text, Column, Decode, Faults};
use crate::scope::{lemma_scope_reads_back, parse_scope, scope_columns, scope_fault, scope_value};
use crate::text::{
    concat2, concat3, decimal, decimal_text, opt_text, parse_unsigned, text_eq, texts,
    unsigned_value,
};
use crate::time::{parse_ts, ts_fault, ts_value};

verus! {

/// The evidence.
#[derive(Clone, Copy, Debug)]
pub struct EvidenceRepo;

/// Whether a requirement is met, and if not, why what there is was rejected.
#[derive(Clone, Debug, PartialEq, Eq)]
pub struct EvidenceCheck {
    pub satisfied: bool,
    pub reason: Option<String>,
}

impl Default for EvidenceCheck {
    fn default() -> (r: EvidenceCheck)
        ensures
            !r.satisfied,
            r.reason is None,
    {
        EvidenceCheck { satisfied: false, reason: None }
    }
}

pub const SELECT_EVIDENCE: &'static str = "SELECT id, kind, scope_kind, scope_id, target, doc_version, \
     actor_kind, actor_id, actor_name, reason, payload, \
     project_id, plan_id, task_id, run_id, artifact_id, rule_id, \
     recorded_at, superseded_by \
     FROM evidence ";

pub const INSERT_EVIDENCE: &'static str = "INSERT INTO evidence \
     (id, kind, scope_kind, scope_id, target, doc_version, \
     actor_kind, actor_id, actor_name, reason, payload, \
     project_id, plan_id, task_id, run_id, artifact_id, rule_id, \
     recorded_at, superseded_by) \
     VALUES (?, ?, ?, ?, ?, ?, ?, ?, ?, ?, ?, ?, ?, ?, ?, ?, ?, ?, ?) \
     ON CONFLICT(id) DO NOTHING";

pub const SUPERSEDE: &'static str = "UPDATE evidence SET superseded_by = ? WHERE id = ?";

pub const LIST_SCOPE_WITH_ID: &'static str = "WHERE scope_kind = ? AND scope_id = ?";

pub const LIST_SCOPE_WITHOUT_ID: &'static str = "WHERE scope_kind = ? AND scope_id IS NULL";

pub const ONLY_LIVE: &'static str = " AND superseded_by IS NULL";

pub const NEWEST_FIRST: &'static str = " ORDER BY recorded_at DESC, id DESC";

pub const SELECT_CANDIDATES: &'static str = "SELECT target, doc_version, actor_id, actor_name, reason, payload FROM evidence \
     WHERE scope_kind = ? AND ";

pub const CANDIDATES_OF_KIND: &'static str = " AND kind = ? \
     AND superseded_by IS NULL ";

pub const NEWEST_TWENTY: &'static str = " \
     ORDER BY recorded_at DESC, id DESC LIMIT 20";

// ── rows ────────────────────────────────────────────────────────────────────

fn read_scope(kind: &str, id: &Option<String>) -> (r: Result<RuleScope, CoreError>)
    ensures
        match scope_fault(kind@, opt_text(*id), "unknown evidence scope kind: "@) {
            Some(e) => r is Err && r->Err_0@ == e,
            None => r is Ok && r->Ok_0 == scope_value(kind@, opt_text(*id)),
        },
{
    let id = match id {
        Some(id) => Some(id.as_str()),
        None => None,
    };
    parse_scope(kind, id, "unknown evidence scope kind: ")
}

/// Why a text is no kind of evidence.
pub open spec fn evidence_kind_fault(s: Seq<char>) -> Option<ErrorView> {
    if EvidenceKind::named(s) is Some {
        None
    } else {
        Some(ErrorView::Storage("unknown evidence kind: "@ + s))
    }
}

/// Reads a kind of evidence.
pub fn parse_evidence_kind(s: &str) -> (r: Result<EvidenceKind, CoreError>)
    ensures
        match evidence_kind_fault(s@) {
            Some(e) => r is Err && r->Err_0@ == e,
            None => r is Ok && Some(r->Ok_0) == EvidenceKind::named(s@),
        },
{
    match EvidenceKind::parse_str(s) {
        Some(v) => Ok(v),
        None => Err(CoreError::Storage(concat2("unknown evidence kind: ", s))),
    }
}

/// A row of the `evidence` table.
#[derive(Debug, PartialEq, Eq)]
pub struct EvidenceRow {
    pub id: Column<String>,
    pub kind: Column<String>,
    pub scope_kind: Column<String>,
    pub scope_id: Column<Option<String>>,
    pub target: Column<Option<String>>,
    pub doc_version: Column<Option<String>>,
    pub actor_kind: Column<String>,
    pub actor_id: Column<Option<String>>,
    pub actor_name: Column<Option<String>>,
    pub reason: Column<String>,
    pub payload: Column<String>,
    pub project_id: Column<Option<String>>,
    pub plan_id: Column<Option<String>>,
    pub task_id: Column<Option<String>>,
    pub run_id: Column<Option<String>>,
    pub artifact_id: Column<Option<String>>,
    pub rule_id: Column<Option<String>>,
    pub recorded_at: Column<String>,
    pub superseded_by: Column<Option<String>>,
}

/// What is wrong with an evidence row, where something is: the columns and their
/// values are looked at in this order.
pub open spec fn evidence_fault(row: EvidenceRow) -> Option<ErrorView> {
    column_fault(row.id).or_fault(
        column_fault(row.kind),
    ).or_fault(
        column_fault(row.scope_kind),
    ).or_fault(
        column_fault(row.scope_id),
    ).or_fault(
        column_fault(row.payload),
    ).or_fault(
        column_fault(row.recorded_at),
    ).or_fault(
        column_fault(row.actor_id),
    ).or_fault(
        column_fault(row.superseded_by),
    ).or_fault(
        evidence_kind_fault(row.kind->Ok_0@),
    ).or_fault(
        scope_fault(row.scope_kind->Ok_0@, opt_text(row.scope_id->Ok_0), "unknown evidence scope kind: "@),
    ).or_fault(
        json_fault(row.payload->Ok_0@),
    ).or_fault(
        stored_id_fault::<EvidenceId>(row.id->Ok_0@, "bad evidence id"@),
    ).or_fault(
        column_fault(row.target),
    ).or_fault(
        column_fault(row.doc_version),
    ).or_fault(
        column_fault(row.actor_kind),
    ).or_fault(
        opt_stored_id_fault::<AgentId>(row.actor_id->Ok_0, "bad actor id"@),
    ).or_fault(
        column_fault(row.actor_name),
    ).or_fault(
        column_fault(row.reason),
    ).or_fault(
        column_fault(row.project_id),
    ).or_fault(
        opt_stored_id_fault::<ProjectId>(row.project_id->Ok_0, "bad project_id"@),
    ).or_fault(
        column_fault(row.plan_id),
    ).or_fault(
        opt_stored_id_fault::<PlanId>(row.plan_id->Ok_0, "bad plan_id"@),
    ).or_fault(
        column_fault(row.task_id),
    ).or_fault(
        opt_stored_id_fault::<TaskId>(row.task_id->Ok_0, "bad task_id"@),
    ).or_fault(
        column_fault(row.run_id),
    ).or_fault(
        opt_stored_id_fault::<RunId>(row.run_id->Ok_0, "bad run_id"@),
    ).or_fault(
        column_fault(row.artifact_id),
    ).or_fault(
        opt_stored_id_fault::<ArtifactId>(row.artifact_id->Ok_0, "bad artifact_id"@),
    ).or_fault(
        column_fault(row.rule_id),
    ).or_fault(
        opt_stored_id_fault::<RuleId>(row.rule_id->Ok_0, "bad rule_id"@),
    ).or_fault(
        ts_fault(row.recorded_at->Ok_0@),
    ).or_fault(
        opt_stored_id_fault::<EvidenceId>(row.superseded_by->Ok_0, "bad superseded_by id"@),
    )
}

/// The record is what a sound evidence row says.
pub open spec fn evidence_read(row: EvidenceRow, record: Evidence) -> bool {
    &&& record.id == id_value::<EvidenceId>(row.id->Ok_0@)
    &&& Some(record.kind) == EvidenceKind::named(row.kind->Ok_0@)
    &&& record.scope == scope_value(row.scope_kind->Ok_0@, opt_text(row.scope_id->Ok_0))
    &&& record.target == row.target->Ok_0
    &&& record.doc_version == row.doc_version->Ok_0
    &&& record.actor.kind == row.actor_kind->Ok_0
    &&& record.actor.id == opt_id_value::<AgentId>(row.actor_id->Ok_0)
    &&& record.actor.name == row.actor_name->Ok_0
    &&& record.reason == row.reason->Ok_0
    &&& record.payload.model() == json_parsed(row.payload->Ok_0@)->Ok_0
    &&& record.project_id == opt_id_value::<ProjectId>(row.project_id->Ok_0)
    &&& record.plan_id == opt_id_value::<PlanId>(row.plan_id->Ok_0)
    &&& record.task_id == opt_id_value::<TaskId>(row.task_id->Ok_0)
    &&& record.run_id == opt_id_value::<RunId>(row.run_id->Ok_0)
    &&& record.artifact_id == opt_id_value::<ArtifactId>(row.artifact_id->Ok_0)
    &&& record.rule_id == opt_id_value::<RuleId>(row.rule_id->Ok_0)
    &&& record.recorded_at == ts_value(row.recorded_at->Ok_0@)
    &&& record.superseded_by == opt_id_value::<EvidenceId>(row.superseded_by->Ok_0)
}

/// Reads a piece of evidence from its row.
pub fn row_to_evidence(row: EvidenceRow) -> (r: Result<Evidence, CoreError>)
    ensures
        match evidence_fault(row) {
            Some(e) => r is Err && r->Err_0@ == e,
            None => r is Ok && evidence_read(row, r->Ok_0),
        },
{
    let id = column(row.id)?;
    let kind = column(row.kind)?;
    let scope_kind = column(row.scope_kind)?;
    let scope_id = column(row.scope_id)?;
    let payload = column(row.payload)?;
    let recorded_at = column(row.recorded_at)?;
    let actor_id = column(row.actor_id)?;
    let superseded_by = column(row.superseded_by)?;
    let kind = parse_evidence_kind(kind.as_str())?;
    let scope = read_scope(scope_kind.as_str(), &scope_id)?;
    let payload = parse_json(payload.as_str())?;
    let id = stored_id::<EvidenceId>(id.as_str(), "bad evidence id")?;
    let target = column(row.target)?;
    let doc_version = column(row.doc_version)?;
    let actor_kind = column(row.actor_kind)?;
    let actor_id = stored_opt_id::<AgentId>(&actor_id, "bad actor id")?;
    let actor_name = column(row.actor_name)?;
    let reason = column(row.reason)?;
    let project_id = column(row.project_id)?;
    let project_id = stored_opt_id::<ProjectId>(&project_id, "bad project_id")?;
    let plan_id = column(row.plan_id)?;
    let plan_id = stored_opt_id::<PlanId>(&plan_id, "bad plan_id")?;
    let task_id = column(row.task_id)?;
    let task_id = stored_opt_id::<TaskId>(&task_id, "bad task_id")?;
    let run_id = column(row.run_id)?;
    let run_id = stored_opt_id::<RunId>(&run_id, "bad run_id")?;
    let artifact_id = column(row.artifact_id)?;
    let artifact_id = stored_opt_id::<ArtifactId>(&artifact_id, "bad artifact_id")?;
    let rule_id = column(row.rule_id)?;
    let rule_id = stored_opt_id::<RuleId>(&rule_id, "bad rule_id")?;
    let recorded_at = parse_ts(recorded_at.as_str())?;
    let superseded_by = stored_opt_id::<EvidenceId>(&superseded_by, "bad superseded_by id")?;
    Ok(
        Evidence {
            id,
            kind,
            scope,
            target,
            doc_version,
            actor: ActorRef { kind: actor_kind, id: actor_id, name: actor_name },
            reason,
            payload,
            project_id,
            plan_id,
            task_id,
            run_id,
            artifact_id,
            rule_id,
            recorded_at,
            superseded_by,
        },
    )
}

impl Decode for EvidenceRow {
    type Record = Evidence;

    open spec fn fault(&self) -> Option<ErrorView> {
        evidence_fault(*self)
    }

    open spec fn holds(&self, record: Evidence) -> bool {
        evidence_read(*self, record)
    }

    fn decode(self) -> (r: Result<Evidence, CoreError>) {
        row_to_evidence(self)
    }
}

/// The columns of a piece of evidence, in the order in which they are written.
pub open spec fn evidence_columns(record: Evidence) -> Seq<BoundView> {
    seq![
        sql_id(record.id),
        sql_text(record.kind.text()),
        sql_text(record.scope.kind_text()),
        sql_opt_text(record.scope.id_text_of()),
        sql_opt_text(opt_text(record.target)),
        sql_opt_text(opt_text(record.doc_version)),
        sql_text(record.actor.kind@),
        sql_opt_id(record.actor.id),
        sql_opt_text(opt_text(record.actor.name)),
        sql_text(record.reason@),
        sql_text(json_printed(record.payload.model())),
        sql_opt_id(record.project_id),
        sql_opt_id(record.plan_id),
        sql_opt_id(record.task_id),
        sql_opt_id(record.run_id),
        sql_opt_id(record.artifact_id),
        sql_opt_id(record.rule_id),
        sql_time(record.recorded_at),
        sql_opt_id(record.superseded_by),
    ]
}

impl EvidenceRow {
    /// Each column of the row holds what is written for it of the record.
    pub open spec fn stores(self, record: Evidence) -> bool {
        &&& has_text(self.id, sql_id(record.id))
        &&& has_text(self.kind, sql_text(record.kind.text()))
        &&& has_text(self.scope_kind, sql_text(record.scope.kind_text()))
        &&& has_opt_text(self.scope_id, sql_opt_text(record.scope.id_text_of()))
        &&& has_opt_text(self.target, sql_opt_text(opt_text(record.target)))
        &&& has_opt_text(self.doc_version, sql_opt_text(opt_text(record.doc_version)))
        &&& has_text(self.actor_kind, sql_text(record.actor.kind@))
        &&& has_opt_text(self.actor_id, sql_opt_id(record.actor.id))
        &&& has_opt_text(self.actor_name, sql_opt_text(opt_text(record.actor.name)))
        &&& has_text(self.reason, sql_text(record.reason@))
        &&& has_text(self.payload, sql_text(json_printed(record.payload.model())))
        &&& has_opt_text(self.project_id, sql_opt_id(record.project_id))
        &&& has_opt_text(self.plan_id, sql_opt_id(record.plan_id))
        &&& has_opt_text(self.task_id, sql_opt_id(record.task_id))
        &&& has_opt_text(self.run_id, sql_opt_id(record.run_id))
        &&& has_opt_text(self.artifact_id, sql_opt_id(record.artifact_id))
        &&& has_opt_text(self.rule_id, sql_opt_id(record.rule_id))
        &&& has_text(self.recorded_at, sql_time(record.recorded_at))
        &&& has_opt_text(self.superseded_by, sql_opt_id(record.superseded_by))
    }
}

impl Evidence {
    /// The two records agree in every field.
    pub open spec fn same(self, other: Evidence) -> bool {
        &&& self.id == other.id
        &&& self.kind == other.kind
        &&& self.scope == other.scope
        &&& opt_text(self.target) == opt_text(other.target)
        &&& opt_text(self.doc_version) == opt_text(other.doc_version)
        &&& self.actor.kind@ == other.actor.kind@
        &&& self.actor.id == other.actor.id
        &&& opt_text(self.actor.name) == opt_text(other.actor.name)
        &&& self.reason@ == other.reason@
        &&& self.payload.model() == other.payload.model()
        &&& self.project_id == other.project_id
        &&& self.plan_id == other.plan_id
        &&& self.task_id == other.task_id
        &&& self.run_id == other.run_id
        &&& self.artifact_id == other.artifact_id
        &&& self.rule_id == other.rule_id
        &&& self.recorded_at == other.recorded_at
        &&& self.superseded_by == other.superseded_by
    }

    /// Every point in time of the record has an RFC 3339 text that reads back, and so has
    /// the payload a JSON text.
    pub open spec fn is_plain(self) -> bool {
        &&& is_plain_json(self.payload.model(), JSON_DEPTH as nat)
        &&& self.recorded_at.is_plain()
    }
}

// ── reach ───────────────────────────────────────────────────────────────────

/// How far inside a scope is: the tenant is outermost.
pub open spec fn rank(scope: RuleScope) -> nat {
    match scope {
        RuleScope::Tenant => 0,
        RuleScope::Project { .. } => 1,
        RuleScope::Plan { .. } => 2,
        RuleScope::Task { .. } => 3,
    }
}

fn scope_rank(scope: &RuleScope) -> (r: u8)
    ensures
        r == rank(*scope),
{
    match scope {
        RuleScope::Tenant => 0,
        RuleScope::Project { .. } => 1,
        RuleScope::Plan { .. } => 2,
        RuleScope::Task { .. } => 3,
    }
}

/// The rank from which on a scope is in reach; none where only the innermost is.
pub open spec fn ceiling(reach: EvidenceReach) -> Option<nat> {
    match reach {
        EvidenceReach::Tenant => Some(0),
        EvidenceReach::Project => Some(1),
        EvidenceReach::Plan => Some(2),
        EvidenceReach::SelfOnly => None,
    }
}

/// The place of the innermost scope of a chain.
pub open spec fn innermost(chain: Seq<RuleScope>) -> int {
    if chain.len() == 0 {
        0
    } else {
        chain.len() - 1
    }
}

/// The place from which on the scopes of a chain are in reach.
pub open spec fn is_cut(chain: Seq<RuleScope>, reach: EvidenceReach, cut: int) -> bool {
    match ceiling(reach) {
        None => cut == innermost(chain),
        Some(c) => {
            ||| 0 <= cut < chain.len() && rank(chain[cut]) >= c && forall|i: int|
                0 <= i < cut ==> rank(#[trigger] chain[i]) < c
            ||| cut == innermost(chain) && forall|i: int|
                0 <= i < chain.len() ==> rank(#[trigger] chain[i]) < c
        },
    }
}

/// The part of a chain of scopes, outermost first, from which evidence with the given reach
/// may be read. Where the chain has no scope at the reach's ceiling or inside it, that is
/// the innermost scope: never one further out.
pub fn reachable(chain: &[RuleScope], reach: EvidenceReach) -> (r: &[RuleScope])
    ensures
        exists|cut: int| #[trigger]
            is_cut(chain@, reach, cut) && 0 <= cut <= chain@.len() && r@ == chain@.subrange(
                cut,
                chain@.len() as int,
            ),
{
    let last: usize = if chain.len() == 0 {
        0
    } else {
        chain.len() - 1
    };
    let ceiling: u8 = match reach {
        EvidenceReach::Tenant => 0,
        EvidenceReach::Project => 1,
        EvidenceReach::Plan => 2,
        EvidenceReach::SelfOnly => {
            assert(is_cut(chain@, reach, last as int));
            return slice_subrange(chain, last, chain.len());
        },
    };
    let mut i: usize = 0;
    while i < chain.len()
        invariant
            i <= chain@.len(),
            self::ceiling(reach) == Some(ceiling as nat),
            forall|j: int| 0 <= j < i ==> rank(#[trigger] chain@[j]) < ceiling,
        decreases chain@.len() - i,
    {
        if scope_rank(&chain[i]) >= ceiling {
            assert(is_cut(chain@, reach, i as int));
            return slice_subrange(chain, i, chain.len());
        }
        i = i + 1;
    }
    assert(is_cut(chain@, reach, last as int));
    slice_subrange(chain, last, chain.len())
}

// ── candidates ──────────────────────────────────────────────────────────────

/// A version: a number with an optional `v` before it.
pub open spec fn version_value(s: Seq<char>) -> Option<u64> {
    if s.len() > 0 && (s[0] == 'v' || s[0] == 'V') {
        unsigned_value(s.subrange(1, s.len() as int))
    } else {
        unsigned_value(s)
    }
}

/// Reads a version.
pub fn parse_version(version: &str) -> (r: Option<u64>)
    ensures
        r == version_value(version@),
{
    let n: usize = version.unicode_len();
    if n > 0 {
        let first = version.get_char(0);
        if first == 'v' || first == 'V' {
            return parse_unsigned(version.substring_char(1, n));
        }
    }
    parse_unsigned(version)
}

/// What a requirement asks of evidence.
#[derive(Clone, Debug, PartialEq, Eq)]
pub struct EvidenceRequest {
    pub kind: EvidenceKind,
    pub target: Option<String>,
    pub required_fields: Option<Vec<String>>,
    pub min_version: Option<String>,
}

/// A row of a piece of evidence that may meet a requirement.
#[derive(Debug, PartialEq, Eq)]
pub struct CandidateRow {
    pub target: Column<Option<String>>,
    pub doc_version: Column<Option<String>>,
    pub actor_id: Column<Option<String>>,
    pub actor_name: Column<Option<String>>,
    pub reason: Column<String>,
    pub payload: Column<String>,
}

/// There is a text, and it is not empty.
pub open spec fn filled(s: Option<String>) -> bool {
    s is Some && s->Some_0@.len() > 0
}

fn is_filled(s: &Option<String>) -> (r: bool)
    ensures
        r == filled(*s),
{
    match s {
        Some(s) => !s.as_str().is_empty(),
        None => false,
    }
}

/// The candidate does not say what a field asks for. The payload comes first; a field that
/// it does not have may be a column.
pub open spec fn field_missing(row: CandidateRow, field: Seq<char>) -> bool {
    match member(json_parsed(row.payload->Ok_0@)->Ok_0, field) {
        Some(value) => value == JsonView::Null || value == JsonView::Text(seq![]),
        None => if field == "reason"@ {
            row.reason->Ok_0@.len() == 0
        } else if field == "actor"@ {
            !filled(row.actor_id->Ok_0) && !filled(row.actor_name->Ok_0)
        } else if field == "doc_version"@ {
            !filled(row.doc_version->Ok_0)
        } else if field == "target"@ {
            !filled(row.target->Ok_0)
        } else {
            true
        },
    }
}

/// What is wrong with a candidate's columns, where its fields are looked at.
pub open spec fn candidate_fault(row: CandidateRow) -> Option<ErrorView> {
    column_fault(row.payload).or_fault(json_fault(row.payload->Ok_0@)).or_fault(
        column_fault(row.reason),
    ).or_fault(column_fault(row.actor_id)).or_fault(column_fault(row.actor_name)).or_fault(
        column_fault(row.doc_version),
    ).or_fault(column_fault(row.target))
}

/// The first field that a candidate does not have.
pub open spec fn first_missing(row: CandidateRow, fields: Seq<Seq<char>>) -> Option<Seq<char>>
    decreases fields.len(),
{
    if fields.len() == 0 {
        None
    } else if field_missing(row, fields[0]) {
        Some(fields[0])
    } else {
        first_missing(row, fields.drop_first())
    }
}

/// The reason for rejecting a candidate without a field.
pub open spec fn field_reason(field: Seq<char>) -> Seq<char> {
    "evidence payload field `"@ + field + "` is missing or empty"@
}

/// The reason for rejecting a candidate without a version.
pub open spec fn no_version_reason(minimum: u64) -> Seq<char> {
    "evidence doc_version is missing or invalid; expected an integer >= "@ + decimal(minimum as nat)
        + " with optional v/V prefix"@
}

/// The reason for rejecting a candidate with an older version.
pub open spec fn old_version_reason(actual: u64, minimum: u64) -> Seq<char> {
    "evidence doc_version "@ + decimal(actual as nat) + " is older than required "@ + decimal(
        minimum as nat,
    )
}

/// The reason for rejecting every candidate of a rule whose least version is none.
pub open spec fn bad_minimum_reason(version: Seq<char>) -> Seq<char> {
    "rule min_version `"@ + version
        + "` is invalid; expected an integer with optional v/V prefix"@
}

/// The version of a candidate.
pub open spec fn candidate_version(row: CandidateRow) -> Option<u64> {
    match row.doc_version->Ok_0 {
        Some(v) => version_value(v@),
        None => None,
    }
}

/// What comes of looking at a candidate: an error, the reason for rejecting it, or nothing
/// where it meets the requirement.
pub open spec fn judged(
    row: CandidateRow,
    fields: Seq<Seq<char>>,
    minimum: Option<u64>,
) -> Result<Option<Seq<char>>, ErrorView> {
    if fields.len() > 0 && candidate_fault(row) is Some {
        Err(candidate_fault(row)->Some_0)
    } else if fields.len() > 0 && first_missing(row, fields) is Some {
        Ok(Some(field_reason(first_missing(row, fields)->Some_0)))
    } else {
        match minimum {
            None => Ok(None),
            Some(minimum) => match column_fault(row.doc_version) {
                Some(e) => Err(e),
                None => match candidate_version(row) {
                    None => Ok(Some(no_version_reason(minimum))),
                    Some(actual) => if actual < minimum {
                        Ok(Some(old_version_reason(actual, minimum)))
                    } else {
                        Ok(None)
                    },
                },
            },
        }
    }
}

/// What comes of looking at candidates one after the other: the first that meets the
/// requirement settles it, an error ends it, and else the first reason is kept.
pub open spec fn searched(
    rows: Seq<CandidateRow>,
    fields: Seq<Seq<char>>,
    minimum: Option<u64>,
    reason: Option<Seq<char>>,
) -> Result<(bool, Option<Seq<char>>), ErrorView>
    decreases rows.len(),
{
    if rows.len() == 0 {
        Ok((false, reason))
    } else {
        match judged(rows[0], fields, minimum) {
            Err(e) => Err(e),
            Ok(None) => Ok((true, None)),
            Ok(Some(rejected)) => searched(
                rows.drop_first(),
                fields,
                minimum,
                if reason is None {
                    Some(rejected)
                } else {
                    reason
                },
            ),
        }
    }
}

impl EvidenceRequest {
    /// The fields that a candidate must have.
    pub open spec fn fields(self) -> Seq<Seq<char>> {
        match self.required_fields {
            Some(fields) => texts(fields@),
            None => seq![],
        }
    }

    /// The text of the least version, where there is one.
    pub open spec fn minimum_text(self) -> Option<Seq<char>> {
        match self.min_version {
            Some(v) => if v@ == "latest"@ {
                None
            } else {
                Some(v@)
            },
            None => None,
        }
    }

    /// Whether some candidates, newest first, meet the requirement.
    pub open spec fn outcome(self, rows: Seq<CandidateRow>) -> Result<
        (bool, Option<Seq<char>>),
        ErrorView,
    > {
        match self.minimum_text() {
            Some(v) => match version_value(v) {
                Some(minimum) => searched(rows, self.fields(), Some(minimum), None),
                None => Ok((false, Some(bad_minimum_reason(v)))),
            },
            None => searched(rows, self.fields(), None, None),
        }
    }

    /// The text of the query for the candidates in a scope.
    pub open spec fn candidates_sql(self, has_id: bool) -> Seq<char> {
        SELECT_CANDIDATES@ + (if has_id {
            "scope_id = ?"@
        } else {
            "scope_id IS NULL"@
        }) + CANDIDATES_OF_KIND@ + (if self.target is Some {
            "AND (target = ? OR target IS NULL)"@
        } else {
            ""@
        }) + NEWEST_TWENTY@
    }

    /// The query for the candidates in a scope: the newest live evidence of the kind, for
    /// the target or for none.
    pub fn candidates(&self, scope: &RuleScope) -> (q: Query)
        ensures
            q@ == statement(
                self.candidates_sql(scope.id_text_of() is Some),
                candidate_binds(*scope, *self),
            ),
    {
        let id = scope.id_string();
        let scope_clause = if id.is_some() {
            "scope_id = ?"
        } else {
            "scope_id IS NULL"
        };
        let target_clause = if self.target.is_some() {
            "AND (target = ? OR target IS NULL)"
        } else {
            ""
        };
        let mut sql = concat3(SELECT_CANDIDATES, scope_clause, CANDIDATES_OF_KIND);
        sql.append(target_clause);
        sql.append(NEWEST_TWENTY);
        let mut q = Query::new(sql.as_str()).text(scope.kind());
        if let Some(id) = &id {
            q = q.text(id.as_str());
        }
        q = q.text(self.kind.as_str());
        if let Some(t) = &self.target {
            q = q.text(t.as_str());
        }
        assert(q@.binds =~= candidate_binds(*scope, *self));
        q
    }

    /// The first field that a candidate does not have.
    fn missing_field(fields: &Vec<String>, row: &CandidateRow, payload: &Json) -> (r: Option<String>)
        requires
            candidate_fault(*row) is None,
            payload.model() == json_parsed(row.payload->Ok_0@)->Ok_0,
        ensures
            opt_text(r) == first_missing(*row, texts(fields@)),
    {
        let mut i: usize = 0;
        assert(texts(fields@).skip(0) =~= texts(fields@));
        while i < fields.len()
            invariant
                i <= fields@.len(),
                candidate_fault(*row) is None,
                payload.model() == json_parsed(row.payload->Ok_0@)->Ok_0,
                first_missing(*row, texts(fields@)) == first_missing(
                    *row,
                    texts(fields@).skip(i as int),
                ),
            decreases fields@.len() - i,
        {
            let field = fields[i].as_str();
            let member = match payload {
                Json::Object(m) => m.get(field),
                _ => None,
            };
            let missing = match member {
                Some(Json::Null) => true,
                Some(Json::Text(s)) => {
                    assert(s@.len() == 0 ==> s@ =~= seq![]);
                    s.as_str().is_empty()
                },
                Some(_) => false,
                None => if text_eq(field, "reason") {
                    match &row.reason {
                        Ok(s) => s.as_str().is_empty(),
                        Err(_) => true,
                    }
                } else if text_eq(field, "actor") {
                    match (&row.actor_id, &row.actor_name) {
                        (Ok(id), Ok(name)) => !is_filled(id) && !is_filled(name),
                        _ => true,
                    }
                } else if text_eq(field, "doc_version") {
                    match &row.doc_version {
                        Ok(v) => !is_filled(v),
                        Err(_) => true,
                    }
                } else if text_eq(field, "target") {
                    match &row.target {
                        Ok(t) => !is_filled(t),
                        Err(_) => true,
                    }
                } else {
                    true
                },
            };
            assert(missing == field_missing(*row, fields@[i as int]@));
            assert(texts(fields@).skip(i as int)[0] == fields@[i as int]@);
            if missing {
                return Some(fields[i].clone());
            }
            assert(texts(fields@).skip(i as int).drop_first() =~= texts(fields@).skip(i + 1));
            i = i + 1;
        }
        assert(texts(fields@).skip(i as int) =~= seq![]);
        None
    }

    /// What comes of looking at a candidate.
    fn judge(row: CandidateRow, fields: &Option<Vec<String>>, minimum: Option<u64>) -> (r: Result<
        Option<String>,
        CoreError,
    >)
        ensures
            match judged(
                row,
                match *fields {
                    Some(f) => texts(f@),
                    None => seq![],
                },
                minimum,
            ) {
                Err(e) => r is Err && r->Err_0@ == e,
                Ok(reason) => r is Ok && opt_text(r->Ok_0) == reason,
            },
    {
        let mut row = row;
        let ghost given = row;
        if let Some(fields) = fields {
            if fields.len() > 0 {
                let payload_text = column(row.payload)?;
                let payload = parse_json(payload_text.as_str())?;
                let reason = column(row.reason)?;
                let actor_id = column(row.actor_id)?;
                let actor_name = column(row.actor_name)?;
                let doc_version = column(row.doc_version)?;
                let target = column(row.target)?;
                row =
                CandidateRow {
                    target: Ok(target),
                    doc_version: Ok(doc_version),
                    actor_id: Ok(actor_id),
                    actor_name: Ok(actor_name),
                    reason: Ok(reason),
                    payload: Ok(payload_text),
                };
                assert(row == given);
                if let Some(field) = EvidenceRequest::missing_field(fields, &row, &payload) {
                    return Ok(
                        Some(
                            concat3(
                                "evidence payload field `",
                                field.as_str(),
                                "` is missing or empty",
                            ),
                        ),
                    );
                }
            }
        }
        match minimum {
            None => Ok(None),
            Some(minimum) => {
                let version = column(row.doc_version)?;
                let actual = match &version {
                    Some(v) => parse_version(v.as_str()),
                    None => None,
                };
                match actual {
                    None => Ok(
                        Some(
                            concat3(
                                "evidence doc_version is missing or invalid; expected an integer >= ",
                                decimal_text(minimum).as_str(),
                                " with optional v/V prefix",
                            ),
                        ),
                    ),
                    Some(actual) => {
                        if actual < minimum {
                            let mut text = concat3(
                                "evidence doc_version ",
                                decimal_text(actual).as_str(),
                                " is older than required ",
                            );
                            text.append(decimal_text(minimum).as_str());
                            Ok(Some(text))
                        } else {
                            Ok(None)
                        }
                    },
                }
            },
        }
    }

    /// Whether the candidates in a scope, newest first, meet the requirement.
    pub fn scope_has(&self, rows: Vec<CandidateRow>) -> (r: Result<EvidenceCheck, CoreError>)
        ensures
            match self.outcome(rows@) {
                Err(e) => r is Err && r->Err_0@ == e,
                Ok(found) => r is Ok && r->Ok_0.satisfied == found.0 && opt_text(r->Ok_0.reason)
                    == found.1,
            },
    {
        let mut minimum: Option<u64> = None;
        if let Some(version) = &self.min_version {
            if !text_eq(version.as_str(), "latest") {
                match parse_version(version.as_str()) {
                    Some(v) => {
                        minimum = Some(v);
                    },
                    None => {
                        return Ok(
                            EvidenceCheck {
                                satisfied: false,
                                reason: Some(
                                    concat3(
                                        "rule min_version `",
                                        version.as_str(),
                                        "` is invalid; expected an integer with optional v/V prefix",
                                    ),
                                ),
                            },
                        );
                    },
                }
            }
        }
        assert(self.outcome(rows@) == searched(rows@, self.fields(), minimum, None));
        let mut reason: Option<String> = None;
        assert(rows@.skip(0) =~= rows@);
        for row in it: rows
            invariant
                it.seq() == rows@,
                searched(rows@, self.fields(), minimum, None) == searched(
                    rows@.skip(it.index() as int),
                    self.fields(),
                    minimum,
                    opt_text(reason),
                ),
                self.outcome(rows@) == searched(rows@, self.fields(), minimum, None),
        {
            let ghost left = rows@.skip(it.index() as int);
            assert(left[0] == row);
            assert(left.drop_first() =~= rows@.skip(it.index() + 1));
            match EvidenceRequest::judge(row, &self.required_fields, minimum)? {
                None => {
                    return Ok(EvidenceCheck { satisfied: true, reason: None });
                },
                Some(rejected) => {
                    if reason.is_none() {
                        reason = Some(rejected);
                    }
                },
            }
        }
        Ok(EvidenceCheck { satisfied: false, reason })
    }
}

/// The values of the query for candidates.
pub open spec fn candidate_binds(scope: RuleScope, request: EvidenceRequest) -> Seq<BoundView> {
    seq![sql_text(scope.kind_text())] + (match scope.id_text_of() {
        Some(id) => seq![sql_text(id)],
        None => seq![],
    }) + seq![sql_text(request.kind.text())] + (match request.target {
        Some(t) => seq![sql_text(t@)],
        None => seq![],
    })
}

// ── the search along a chain ────────────────────────────────────────────────

/// The search for evidence in the scopes of a chain, outermost first.
#[derive(Clone, Debug, PartialEq, Eq)]
pub struct EvidenceSearch {
    pub scopes: Vec<RuleScope>,
    pub reason: Option<String>,
}

/// The next step of a search.
#[derive(Clone, Debug, PartialEq, Eq)]
pub enum SearchStep {
    /// Ask for the candidates in this scope, and hand them to [`EvidenceRequest::scope_has`].
    Ask { select: Query, rest: EvidenceSearch },
    /// Every scope has been asked.
    Done { check: EvidenceCheck },
}

/// What a search makes of the answer for a scope.
#[derive(Clone, Debug, PartialEq, Eq)]
pub enum SearchAnswer {
    /// Go on with the next scope.
    Next { search: EvidenceSearch },
    /// The requirement is met.
    Done { check: EvidenceCheck },
}

impl EvidenceSearch {
    /// The next step: the first of the scopes that are left.
    pub fn next(self, request: &EvidenceRequest) -> (r: SearchStep)
        ensures
            self.scopes@.len() == 0 ==> r == (SearchStep::Done {
                check: EvidenceCheck { satisfied: false, reason: self.reason },
            }),
            self.scopes@.len() > 0 ==> (r matches SearchStep::Ask { select, rest } && select@
                == statement(
                request.candidates_sql(self.scopes@[0].id_text_of() is Some),
                candidate_binds(self.scopes@[0], *request),
            ) && rest.scopes@ == self.scopes@.drop_first() && rest.reason == self.reason),
    {
        let mut scopes = self.scopes;
        if scopes.len() == 0 {
            return SearchStep::Done {
                check: EvidenceCheck { satisfied: false, reason: self.reason },
            };
        }
        let scope = scopes.remove(0);
        assert(scopes@ =~= self.scopes@.drop_first());
        SearchStep::Ask {
            select: request.candidates(&scope),
            rest: EvidenceSearch { scopes, reason: self.reason },
        }
    }

    /// Takes the answer for a scope: it settles the search where it meets the requirement,
    /// and else the first reason is kept.
    pub fn answered(self, check: EvidenceCheck) -> (r: SearchAnswer)
        ensures
            r == if check.satisfied {
                SearchAnswer::Done { check }
            } else if self.reason is None {
                SearchAnswer::Next {
                    search: EvidenceSearch { scopes: self.scopes, reason: check.reason },
                }
            } else {
                SearchAnswer::Next { search: self }
            },
    {
        if check.satisfied {
            return SearchAnswer::Done { check };
        }
        if self.reason.is_none() {
            SearchAnswer::Next {
                search: EvidenceSearch { scopes: self.scopes, reason: check.reason },
            }
        } else {
            SearchAnswer::Next { search: self }
        }
    }
}

// ── the repository ──────────────────────────────────────────────────────────

/// The query for evidence that a filter picks.
pub fn select_sql(tail: &str) -> (r: String)
    ensures
        r@ == SELECT_EVIDENCE@ + tail@,
{
    concat2(SELECT_EVIDENCE, tail)
}

/// The filter for the evidence of a scope.
pub open spec fn scope_filter(has_id: bool, include_superseded: bool) -> Seq<char> {
    (if has_id {
        LIST_SCOPE_WITH_ID@
    } else {
        LIST_SCOPE_WITHOUT_ID@
    }) + (if include_superseded {
        ""@
    } else {
        ONLY_LIVE@
    }) + NEWEST_FIRST@
}

impl EvidenceRepo {
    /// The query for a piece of evidence.
    pub fn get(id: &EvidenceId) -> (q: Query)
        ensures
            q@ == statement(SELECT_EVIDENCE@ + "WHERE id = ?"@, seq![sql_id(*id)]),
    {
        Query::new(select_sql("WHERE id = ?").as_str()).id(id)
    }

    /// The query for the evidence of a scope, newest first, with or without what has been
    /// superseded.
    pub fn list_for_scope(scope: &RuleScope, include_superseded: bool) -> (q: Query)
        ensures
            q@ == statement(
                SELECT_EVIDENCE@ + scope_filter(scope.id_text_of() is Some, include_superseded),
                match scope.id_text_of() {
                    Some(id) => seq![sql_text(scope.kind_text()), sql_text(id)],
                    None => seq![sql_text(scope.kind_text())],
                },
            ),
    {
        let live = if include_superseded {
            ""
        } else {
            ONLY_LIVE
        };
        match scope.id_string() {
            Some(id) => {
                let filter = concat3(LIST_SCOPE_WITH_ID, live, NEWEST_FIRST);
                let q = Query::new(select_sql(filter.as_str()).as_str()).text(scope.kind()).text(
                    id.as_str(),
                );
                assert(q@.binds =~= seq![sql_text(scope.kind_text()), sql_text(id@)]);
                q
            },
            None => {
                let filter = concat3(LIST_SCOPE_WITHOUT_ID, live, NEWEST_FIRST);
                let q = Query::new(select_sql(filter.as_str()).as_str()).text(scope.kind());
                assert(q@.binds =~= seq![sql_text(scope.kind_text())]);
                q
            },
        }
    }

    /// The search for live evidence of a kind in the scopes of a chain from which that kind
    /// may be read.
    pub fn has_live_evidence(chain: &[RuleScope], kind: EvidenceKind) -> (r: EvidenceSearch)
        ensures
            exists|cut: int| #[trigger]
                is_cut(chain@, kind.reach_of(), cut) && 0 <= cut <= chain@.len() && r.scopes@
                    == chain@.subrange(cut, chain@.len() as int),
            r.reason is None,
    {
        let reached = reachable(chain, kind.reach());
        let mut scopes: Vec<RuleScope> = Vec::new();
        let mut i: usize = 0;
        while i < reached.len()
            invariant
                i <= reached@.len(),
                scopes@ == reached@.subrange(0, i as int),
            decreases reached@.len() - i,
        {
            scopes.push(reached[i]);
            assert(reached@.subrange(0, i + 1) =~= reached@.subrange(0, i as int).push(
                reached@[i as int],
            ));
            i = i + 1;
        }
        assert(reached@.subrange(0, reached@.len() as int) =~= reached@);
        EvidenceSearch { scopes, reason: None }
    }

    /// The statement that writes a piece of evidence, unless it has been written. What it
    /// writes reads back.
    pub fn insert(ev: &Evidence) -> (q: Query)
        ensures
            q@ == statement(INSERT_EVIDENCE@, evidence_columns(*ev)),
            ev.is_plain() ==> forall|row: EvidenceRow|
                #[trigger] row.stores(*ev) ==> evidence_fault(row) is None && forall|record: Evidence|
                    evidence_read(row, record) ==> record.same(*ev),
    {
        let scope = scope_columns(&ev.scope);
        proof {
            lemma_scope_reads_back(ev.scope, "unknown evidence scope kind: "@);
        }
        Query::new(INSERT_EVIDENCE)
            .id(&ev.id)
            .text(ev.kind.as_str())
            .text(scope.0)
            .opt_text(&scope.1)
            .opt_text(&ev.target)
            .opt_text(&ev.doc_version)
            .text(ev.actor.kind.as_str())
            .opt_id(&ev.actor.id)
            .opt_text(&ev.actor.name)
            .text(ev.reason.as_str())
            .text(print_json(&ev.payload).as_str())
            .opt_id(&ev.project_id)
            .opt_id(&ev.plan_id)
            .opt_id(&ev.task_id)
            .opt_id(&ev.run_id)
            .opt_id(&ev.artifact_id)
            .opt_id(&ev.rule_id)
            .time(&ev.recorded_at)
            .opt_id(&ev.superseded_by)
    }

    /// The statement that applies an event to the evidence, where there is one. What is
    /// written of a piece of evidence reads back.
    pub fn apply_event(env: &EventEnvelope) -> (r: Option<Query>)
        ensures
            match env.payload {
                Event::EvidenceRecorded { evidence } => r is Some && r->Some_0@ == statement(
                    INSERT_EVIDENCE@,
                    evidence_columns(evidence),
                ),
                Event::EvidenceSuperseded { evidence_id, superseded_by, .. } => r is Some
                    && r->Some_0@ == statement(
                    SUPERSEDE@,
                    seq![sql_id(superseded_by), sql_id(evidence_id)],
                ),
                _ => r is None,
            },
            env.payload matches Event::EvidenceRecorded { evidence } ==> evidence.is_plain()
                ==> forall|row: EvidenceRow| #[trigger]
                row.stores(evidence) ==> evidence_fault(row) is None && forall|record: Evidence|
                    evidence_read(row, record) ==> record.same(evidence),
    {
        match &env.payload {
            Event::EvidenceRecorded { evidence } => Some(EvidenceRepo::insert(evidence)),
            Event::EvidenceSuperseded { evidence_id, superseded_by, .. } => {
                let q = Query::new(SUPERSEDE).id(superseded_by).id(evidence_id);
                assert(q@.binds =~= seq![sql_id(*superseded_by), sql_id(*evidence_id)]);
                Some(q)
            },
            _ => None,
        }
    }
}

// ── laws ────────────────────────────────────────────────────────────────────

/// The scopes of a chain that is ordered from the outside in.
pub open spec fn is_chain(chain: Seq<RuleScope>) -> bool {
    forall|i: int, j: int|
        0 <= i < j < chain.len() ==> rank(#[trigger] chain[i]) < rank(#[trigger] chain[j])
}

/// Reach caps evidence: no scope outside the ceiling of a kind of evidence is read, but for
/// the innermost one; and evidence about one thing alone is read from its own scope alone.
pub proof fn lemma_reach_caps_evidence(chain: Seq<RuleScope>, reach: EvidenceReach, cut: int)
    requires
        is_chain(chain),
        is_cut(chain, reach, cut),
    ensures
        reach == EvidenceReach::SelfOnly ==> chain.subrange(cut, chain.len() as int).len() <= 1,
        ceiling(reach) matches Some(c) ==> forall|i: int|
            cut <= i < chain.len() ==> rank(#[trigger] chain[i]) >= c || i == chain.len() - 1,
        ceiling(reach) matches Some(c) ==> forall|i: int|
            0 <= i < chain.len() && rank(#[trigger] chain[i]) >= c ==> cut <= i,
{
    if let Some(c) = ceiling(reach) {
        assert forall|i: int| cut <= i < chain.len() implies rank(#[trigger] chain[i]) >= c || i
            == chain.len() - 1 by {
            if i > cut && cut < chain.len() {
                assert(rank(chain[cut]) < rank(chain[i]));
            }
        }
    }
}

/// A chain has one part in reach.
pub proof fn lemma_cut_is_unique(chain: Seq<RuleScope>, reach: EvidenceReach, a: int, b: int)
    requires
        is_cut(chain, reach, a),
        is_cut(chain, reach, b),
    ensures
        a == b,
{
    if a < b && b < chain.len() {
        assert(rank(chain[a]) >= 0);
    }
    if b < a && a < chain.len() {
        assert(rank(chain[b]) >= 0);
    }
}

/// A requirement is met only by a candidate that meets it, and a requirement that is met
/// comes with no reason.
pub proof fn lemma_search_is_sound(
    rows: Seq<CandidateRow>,
    fields: Seq<Seq<char>>,
    minimum: Option<u64>,
    reason: Option<Seq<char>>,
)
    ensures
        searched(rows, fields, minimum, reason) matches Ok(found) ==> found.0 ==> found.1 is None
            && exists|i: int|
            0 <= i < rows.len() && judged(#[trigger] rows[i], fields, minimum) == Ok::<
                Option<Seq<char>>,
                ErrorView,
            >(None),
        searched(rows, fields, minimum, reason) matches Ok(found) ==> !found.0 ==> forall|i: int|
            0 <= i < rows.len() ==> judged(#[trigger] rows[i], fields, minimum) is Ok && judged(
                rows[i],
                fields,
                minimum,
            )->Ok_0 is Some,
    decreases rows.len(),
{
    if rows.len() > 0 {
        let rest = rows.drop_first();
        let kept = if reason is None {
            judged(rows[0], fields, minimum)->Ok_0
        } else {
            reason
        };
        lemma_search_is_sound(rest, fields, minimum, kept);
        assert forall|i: int| 0 <= i < rest.len() implies #[trigger] rest[i] == rows[i + 1] by {}
        assert forall|i: int| 1 <= i < rows.len() implies #[trigger] rows[i] == rest[i - 1] by {}
        if judged(rows[0], fields, minimum) == Ok::<Option<Seq<char>>, ErrorView>(None) {
            assert(judged(rows[0], fields, minimum) == Ok::<Option<Seq<char>>, ErrorView>(None));
        } else if judged(rows[0], fields, minimum) is Ok {
            if searched(rest, fields, minimum, kept) matches Ok(found) && found.0 {
                let i = choose|i: int|
                    0 <= i < rest.len() && judged(#[trigger] rest[i], fields, minimum) == Ok::<
                        Option<Seq<char>>,
                        ErrorView,
                    >(None);
                assert(judged(rows[i + 1], fields, minimum) == Ok::<Option<Seq<char>>, ErrorView>(
                    None,
                ));
            }
        }
    }
}

/// A requirement without fields and without a least version is met by whatever evidence
/// there is.
pub proof fn lemma_empty_requirement_takes_any(request: EvidenceRequest, rows: Seq<CandidateRow>)
    requires
        request.fields().len() == 0,
        request.minimum_text() is None,
    ensures
        request.outcome(rows) == Ok::<(bool, Option<Seq<char>>), ErrorView>(
            (rows.len() > 0, None),
        ),
{
}

/// A least version that is none is met by no evidence.
pub proof fn lemma_bad_minimum_is_never_met(request: EvidenceRequest, rows: Seq<CandidateRow>)
    requires
        request.minimum_text() is Some,
        version_value(request.minimum_text()->Some_0) is None,
    ensures
        request.outcome(rows) is Ok,
        !request.outcome(rows)->Ok_0.0,
        request.outcome(rows)->Ok_0.1 is Some,
{
}

/// The stored evidence.
pub type EvidenceTable = Map<EvidenceId, Evidence>;

/// The evidence after some was recorded: what is stored stays as it is.
pub open spec fn recorded(table: EvidenceTable, evidence: Evidence) -> EvidenceTable {
    if table.dom().contains(evidence.id) {
        table
    } else {
        table.insert(evidence.id, evidence)
    }
}

/// The evidence after some was superseded.
pub open spec fn superseded(table: EvidenceTable, id: EvidenceId, by: EvidenceId) -> EvidenceTable {
    if table.dom().contains(id) {
        table.insert(id, Evidence { superseded_by: Some(by), ..table[id] })
    } else {
        table
    }
}

/// Evidence that was superseded stays so: recording it again, in whatever form, changes
/// nothing. It keeps what was recorded first, and is not revived.
pub proof fn lemma_replay_revives_no_evidence(
    table: EvidenceTable,
    evidence: Evidence,
    by: EvidenceId,
    again: Evidence,
)
    requires
        again.id == evidence.id,
    ensures
        ({
            let retracted = superseded(recorded(table, evidence), evidence.id, by);
            &&& recorded(retracted, again) == retracted
            &&& retracted[evidence.id].superseded_by == Some(by)
            &&& !table.dom().contains(evidence.id) ==> retracted[evidence.id] == (Evidence {
                superseded_by: Some(by),
                ..evidence
            })
        }),
{
}

/// Scopes lie inside one another: a tenant has projects, a project plans, and a plan tasks.
/// A kind of evidence that reaches to the tenant is read from every scope; one that reaches
/// to the project or the plan from that scope on; and one that reaches no further than the
/// thing itself from the innermost scope alone.
pub proof fn lemma_evidence_is_read_within_its_reach(
    chain: Seq<RuleScope>,
    reach: EvidenceReach,
    cut: int,
)
    requires
        chain.len() > 0,
        is_cut(chain, reach, cut),
    ensures
        forall|tenant: RuleScope, project: RuleScope, plan: RuleScope, task: RuleScope|
            #![trigger rank(tenant), rank(project), rank(plan), rank(task)]
            tenant is Tenant && project is Project && plan is Plan && task is Task ==> rank(tenant)
                < rank(project) < rank(plan) < rank(task),
        0 <= cut < chain.len(),
        reach == EvidenceReach::Tenant ==> cut == 0,
        reach == EvidenceReach::Project ==> (!(chain[cut] is Tenant) || cut == chain.len() - 1)
            && forall|i: int| 0 <= i < cut ==> (#[trigger] chain[i]) is Tenant,
        reach == EvidenceReach::Plan ==> (chain[cut] is Plan || chain[cut] is Task || cut
            == chain.len() - 1) && forall|i: int|
            0 <= i < cut ==> (#[trigger] chain[i]) is Tenant || chain[i] is Project,
        reach == EvidenceReach::SelfOnly ==> cut == chain.len() - 1,
{
    assert(rank(chain[0]) >= 0);
}

/// A required field is there where the payload has it, with a value that is neither null nor
/// an empty text. A field that the payload does not have may be one of the record's own: its
/// reason, its actor, its version or its target, where that is not empty. No other field is
/// there.
pub proof fn lemma_required_field_is_filled(
    row: CandidateRow,
    payload: Map<Seq<char>, JsonView>,
    field: Seq<char>,
)
    requires
        row.payload is Ok && row.reason is Ok && row.actor_id is Ok && row.actor_name is Ok
            && row.doc_version is Ok && row.target is Ok,
        json_parsed(row.payload->Ok_0@) == Ok::<JsonView, Seq<char>>(JsonView::Object(payload)),
    ensures
        payload.dom().contains(field) ==> (field_missing(row, field) <==> payload[field]
            == JsonView::Null || payload[field] == JsonView::Text(seq![])),
        !payload.dom().contains(field) && field == "reason"@ ==> (field_missing(row, field)
            <==> row.reason->Ok_0@.len() == 0),
        !payload.dom().contains(field) && field == "doc_version"@ ==> (field_missing(row, field)
            <==> row.doc_version->Ok_0 is None || row.doc_version->Ok_0->Some_0@.len() == 0),
        !payload.dom().contains(field) && field == "target"@ ==> (field_missing(row, field)
            <==> row.target->Ok_0 is None || row.target->Ok_0->Some_0@.len() == 0),
        !payload.dom().contains(field) && field == "actor"@ ==> (field_missing(row, field) <==> (
        row.actor_id->Ok_0 is None || row.actor_id->Ok_0->Some_0@.len() == 0) && (
        row.actor_name->Ok_0 is None || row.actor_name->Ok_0->Some_0@.len() == 0)),
        !payload.dom().contains(field) && field != "reason"@ && field != "doc_version"@ && field
            != "target"@ && field != "actor"@ ==> field_missing(row, field),
{
    reveal_strlit("reason");
    reveal_strlit("actor");
    reveal_strlit("doc_version");
    reveal_strlit("target");
    assert("reason"@.len() == 6 && "actor"@.len() == 5 && "doc_version"@.len() == 11
        && "target"@.len() == 6);
    assert("reason"@[0] != "target"@[0]);
}

/// The field that a candidate is rejected for is one of the required ones that it lacks, and
/// it has all that stand before it; a candidate that is rejected for none has them all.
pub proof fn lemma_first_missing_field(row: CandidateRow, fields: Seq<Seq<char>>)
    ensures
        first_missing(row, fields) is None <==> forall|i: int|
            0 <= i < fields.len() ==> !field_missing(row, #[trigger] fields[i]),
        first_missing(row, fields) matches Some(field) ==> exists|i: int|
            0 <= i < fields.len() && #[trigger] fields[i] == field && field_missing(row, field)
                && forall|j: int| 0 <= j < i ==> !field_missing(row, #[trigger] fields[j]),
    decreases fields.len(),
{
    if fields.len() > 0 {
        let rest = fields.drop_first();
        lemma_first_missing_field(row, rest);
        assert forall|i: int| 0 <= i < rest.len() implies #[trigger] rest[i] == fields[i + 1] by {}
        if field_missing(row, fields[0]) {
            assert(fields[0] == first_missing(row, fields)->Some_0);
        } else {
            assert((forall|i: int| 0 <= i < rest.len() ==> !field_missing(row, #[trigger] rest[i]))
                ==> forall|i: int|
                0 <= i < fields.len() ==> !field_missing(row, #[trigger] fields[i])) by {
                assert forall|i: int|
                    0 <= i < fields.len() && (forall|j: int|
                        0 <= j < rest.len() ==> !field_missing(
                            row,
                            #[trigger] rest[j],
                        )) implies !field_missing(row, #[trigger] fields[i]) by {
                    if i > 0 {
                        assert(rest[i - 1] == fields[i]);
                    }
                }
            }
            if first_missing(row, rest) is Some {
                let field = first_missing(row, rest)->Some_0;
                let i = choose|i: int|
                    0 <= i < rest.len() && #[trigger] rest[i] == field && field_missing(row, field)
                        && forall|j: int| 0 <= j < i ==> !field_missing(row, #[trigger] rest[j]);
                assert(fields[i + 1] == field);
                assert forall|j: int| 0 <= j < i + 1 implies !field_missing(
                    row,
                    #[trigger] fields[j],
                ) by {
                    if j > 0 {
                        assert(rest[j - 1] == fields[j]);
                    }
                }
            }
        }
    }
}

/// A candidate that can be read meets a requirement exactly if it has every required field
/// and, where a least version is asked for, a version that is no lower. One that does not is
/// rejected with the reason: the first missing field, else that it has no version, else that
/// its version is older than the one asked for.
pub proof fn lemma_candidate_meets_requirement(
    row: CandidateRow,
    fields: Seq<Seq<char>>,
    minimum: Option<u64>,
)
    requires
        candidate_fault(row) is None,
    ensures
        ({
            let complete = forall|i: int|
                0 <= i < fields.len() ==> !field_missing(row, #[trigger] fields[i]);
            let version = match row.doc_version->Ok_0 {
                Some(text) => version_value(text@),
                None => None::<u64>,
            };
            let fresh = minimum is None || (version is Some && version->Some_0
                >= minimum->Some_0);
            &&& judged(row, fields, minimum) is Ok
            &&& judged(row, fields, minimum)->Ok_0 is None <==> complete && fresh
            &&& !complete ==> first_missing(row, fields) is Some && judged(
                row,
                fields,
                minimum,
            )->Ok_0 == Some(
                "evidence payload field `"@ + first_missing(row, fields)->Some_0
                    + "` is missing or empty"@,
            )
            &&& complete && !fresh && version is None ==> judged(row, fields, minimum)->Ok_0
                == Some(
                "evidence doc_version is missing or invalid; expected an integer >= "@ + decimal(
                    minimum->Some_0 as nat,
                ) + " with optional v/V prefix"@,
            )
            &&& complete && !fresh && version is Some ==> judged(row, fields, minimum)->Ok_0
                == Some(
                "evidence doc_version "@ + decimal(version->Some_0 as nat)
                    + " is older than required "@ + decimal(minimum->Some_0 as nat),
            )
        }),
{
    lemma_first_missing_field(row, fields);
}

/// Candidates that can be read meet a requirement exactly if one of them does. Where none
/// does, the reason is the one for which the first of them is rejected.
pub proof fn lemma_one_candidate_is_enough(
    rows: Seq<CandidateRow>,
    fields: Seq<Seq<char>>,
    minimum: Option<u64>,
    reason: Option<Seq<char>>,
)
    requires
        forall|i: int| 0 <= i < rows.len() ==> candidate_fault(#[trigger] rows[i]) is None,
    ensures
        searched(rows, fields, minimum, reason) is Ok,
        searched(rows, fields, minimum, reason)->Ok_0.0 <==> exists|i: int|
            0 <= i < rows.len() && judged(#[trigger] rows[i], fields, minimum)->Ok_0 is None,
        !searched(rows, fields, minimum, reason)->Ok_0.0 ==> searched(
            rows,
            fields,
            minimum,
            reason,
        )->Ok_0.1 == if reason is None && rows.len() > 0 {
            judged(rows[0], fields, minimum)->Ok_0
        } else {
            reason
        },
    decreases rows.len(),
{
    if rows.len() > 0 {
        lemma_candidate_meets_requirement(rows[0], fields, minimum);
        let rest = rows.drop_first();
        let kept = if reason is None {
            judged(rows[0], fields, minimum)->Ok_0
        } else {
            reason
        };
        assert forall|i: int| 0 <= i < rest.len() implies candidate_fault(#[trigger] rest[i])
            is None by {
            assert(rest[i] == rows[i + 1]);
        }
        lemma_one_candidate_is_enough(rest, fields, minimum, kept);
        if judged(rows[0], fields, minimum)->Ok_0 is Some {
            if exists|i: int|
                0 <= i < rest.len() && judged(#[trigger] rest[i], fields, minimum)->Ok_0 is None {
                let i = choose|i: int|
                    0 <= i < rest.len() && judged(#[trigger] rest[i], fields, minimum)->Ok_0
                        is None;
                assert(judged(rows[i + 1], fields, minimum)->Ok_0 is None);
            }
            if exists|i: int|
                0 <= i < rows.len() && judged(#[trigger] rows[i], fields, minimum)->Ok_0 is None {
                let i = choose|i: int|
                    0 <= i < rows.len() && judged(#[trigger] rows[i], fields, minimum)->Ok_0
                        is None;
                assert(rest[i - 1] == rows[i]);
            }
        }
    }
}

/// A requirement asks for the fields and the least version that it was made with; `latest`
/// asks for no version, and a least version that is no number is met by nothing.
pub proof fn lemma_requirement_asks_what_it_says(request: EvidenceRequest, rows: Seq<CandidateRow>)
    ensures
        ({
            let fields = match request.required_fields {
                Some(fields) => texts(fields@),
                None => Seq::<Seq<char>>::empty(),
            };
            let any_version = request.min_version is None || request.min_version->Some_0@
                == "latest"@;
            let least = version_value(request.min_version->Some_0@);
            &&& any_version ==> request.outcome(rows) == searched(rows, fields, None, None)
            &&& !any_version && least is Some ==> request.outcome(rows) == searched(
                rows,
                fields,
                least,
                None,
            )
            &&& !any_version && least is None ==> request.outcome(rows) == Ok::<
                (bool, Option<Seq<char>>),
                ErrorView,
            >(
                (
                    false,
                    Some(
                        "rule min_version `"@ + request.min_version->Some_0@
                            + "` is invalid; expected an integer with optional v/V prefix"@,
                    ),
                ),
            )
        }),
{
}

/// A version is a number, and one letter v before it, small or large, changes nothing.
pub proof fn lemma_version_is_its_number(n: u64)
    ensures
        version_value(decimal(n as nat)) == Some(n),
        version_value(seq!['v'] + decimal(n as nat)) == Some(n),
        version_value(seq!['V'] + decimal(n as nat)) == Some(n),
        version_value(Seq::<char>::empty()) is None,
        version_value(seq!['v']) is None,
{
    let d = decimal(n as nat);
    crate::text::lemma_decimal_reads_back(n as nat);
    crate::text::lemma_only_digits_are_a_number(Seq::<char>::empty());
    assert('0' <= d[0] <= '9');
    assert((seq!['v'] + d).subrange(1, 1 + d.len() as int) =~= d);
    assert((seq!['V'] + d).subrange(1, 1 + d.len() as int) =~= d);
    assert(seq!['v'].subrange(1, 1) =~= Seq::<char>::empty());
}

/// Candidates are asked for by the scope that they are attached to, by their kind and, where
/// the requirement names a target, by that: one value is bound for each mark of the query.
pub proof fn lemma_candidates_are_asked_for_by_scope_and_kind(
    scope: RuleScope,
    request: EvidenceRequest,
)
    ensures
        ({
            let binds = candidate_binds(scope, request);
            let sql = request.candidates_sql(!(scope is Tenant));
            let named: int = if scope is Tenant {
                0
            } else {
                1
            };
            &&& binds.len() == 2 + named + if request.target is Some {
                1int
            } else {
                0
            }
            &&& binds[0] == sql_text(scope.kind_text())
            &&& scope matches RuleScope::Project { id } ==> binds[1] == sql_id(id)
            &&& scope matches RuleScope::Plan { id } ==> binds[1] == sql_id(id)
            &&& scope matches RuleScope::Task { id } ==> binds[1] == sql_id(id)
            &&& binds[1 + named] == sql_text(request.kind.text())
            &&& request.target matches Some(target) ==> binds[2 + named] == sql_text(target@)
            &&& scope is Tenant ==> sql.subrange(
                SELECT_CANDIDATES@.len() as int,
                (SELECT_CANDIDATES@ + "scope_id IS NULL"@).len() as int,
            ) == "scope_id IS NULL"@
            &&& !(scope is Tenant) ==> sql.subrange(
                SELECT_CANDIDATES@.len() as int,
                (SELECT_CANDIDATES@ + "scope_id = ?"@).len() as int,
            ) == "scope_id = ?"@
        }),
{
    let sql = request.candidates_sql(!(scope is Tenant));
    if scope is Tenant {
        assert(sql.subrange(
            SELECT_CANDIDATES@.len() as int,
            (SELECT_CANDIDATES@ + "scope_id IS NULL"@).len() as int,
        ) =~= "scope_id IS NULL"@);
    } else {
        assert(sql.subrange(
            SELECT_CANDIDATES@.len() as int,
            (SELECT_CANDIDATES@ + "scope_id = ?"@).len() as int,
        ) =~= "scope_id = ?"@);
    }
}

/// What was superseded is listed exactly where it is asked for.
pub proof fn lemma_superseded_evidence_is_listed_on_request(has_id: bool)
    ensures
        ({
            let by_scope = if has_id {
                LIST_SCOPE_WITH_ID@
            } else {
                LIST_SCOPE_WITHOUT_ID@
            };
            &&& scope_filter(has_id, true) == by_scope + NEWEST_FIRST@
            &&& scope_filter(has_id, false) == by_scope + ONLY_LIVE@ + NEWEST_FIRST@
        }),
{
    reveal_strlit("");
    assert(scope_filter(has_id, true) =~= if has_id {
        LIST_SCOPE_WITH_ID@
    } else {
        LIST_SCOPE_WITHOUT_ID@
    } + NEWEST_FIRST@);
}

/// Each field of a piece of evidence has a column of its own: what is written of one that
/// changes is written in its column, and the other columns stay.
pub proof fn lemma_evidence_has_a_column_for_each_field(record: Evidence, other: Evidence)
    ensures
        evidence_columns(Evidence { id: other.id, ..record }) == evidence_columns(record).update(
            0,
            sql_id(other.id),
        ),
        evidence_columns(Evidence { kind: other.kind, ..record })
            == evidence_columns(record).update(1, sql_text(other.kind.text())),
        evidence_columns(Evidence { scope: other.scope, ..record })
            == evidence_columns(record).update(2, sql_text(other.scope.kind_text())).update(
                3,
                sql_opt_text(other.scope.id_text_of()),
            ),
        evidence_columns(Evidence { target: other.target, ..record })
            == evidence_columns(record).update(4, sql_opt_text(opt_text(other.target))),
        evidence_columns(Evidence { doc_version: other.doc_version, ..record })
            == evidence_columns(record).update(5, sql_opt_text(opt_text(other.doc_version))),
        evidence_columns(Evidence { actor: other.actor, ..record }) == evidence_columns(
            record,
        ).update(6, sql_text(other.actor.kind@)).update(7, sql_opt_id(other.actor.id)).update(
            8,
            sql_opt_text(opt_text(other.actor.name)),
        ),
        evidence_columns(Evidence { reason: other.reason, ..record })
            == evidence_columns(record).update(9, sql_text(other.reason@)),
        evidence_columns(Evidence { payload: other.payload, ..record })
            == evidence_columns(record).update(10, sql_text(json_printed(other.payload.model()))),
        evidence_columns(Evidence { project_id: other.project_id, ..record })
            == evidence_columns(record).update(11, sql_opt_id(other.project_id)),
        evidence_columns(Evidence { plan_id: other.plan_id, ..record })
            == evidence_columns(record).update(12, sql_opt_id(other.plan_id)),
        evidence_columns(Evidence { task_id: other.task_id, ..record })
            == evidence_columns(record).update(13, sql_opt_id(other.task_id)),
        evidence_columns(Evidence { run_id: other.run_id, ..record })
            == evidence_columns(record).update(14, sql_opt_id(other.run_id)),
        evidence_columns(Evidence { artifact_id: other.artifact_id, ..record })
            == evidence_columns(record).update(15, sql_opt_id(other.artifact_id)),
        evidence_columns(Evidence { rule_id: other.rule_id, ..record })
            == evidence_columns(record).update(16, sql_opt_id(other.rule_id)),
        evidence_columns(Evidence { recorded_at: other.recorded_at, ..record })
            == evidence_columns(record).update(17, sql_time(other.recorded_at)),
        evidence_columns(Evidence { superseded_by: other.superseded_by, ..record })
            == evidence_columns(record).update(18, sql_opt_id(other.superseded_by)),
        evidence_columns(record).len() == 19,
{
}

/// Each field of a piece of evidence is read from columns of its own: what is read of a row
/// with another value there differs in that field alone.
pub proof fn lemma_evidence_is_read_field_by_field(
    row: EvidenceRow,
    record: Evidence,
    other_row: EvidenceRow,
    other: Evidence,
)
    requires
        evidence_read(row, record),
        evidence_read(other_row, other),
    ensures
        evidence_read(EvidenceRow { id: other_row.id, ..row }, Evidence { id: other.id, ..record }),
        evidence_read(
            EvidenceRow { kind: other_row.kind, ..row },
            Evidence { kind: other.kind, ..record },
        ),
        evidence_read(
            EvidenceRow { scope_id: other_row.scope_id, scope_kind: other_row.scope_kind, ..row },
            Evidence { scope: other.scope, ..record },
        ),
        evidence_read(
            EvidenceRow { target: other_row.target, ..row },
            Evidence { target: other.target, ..record },
        ),
        evidence_read(
            EvidenceRow { doc_version: other_row.doc_version, ..row },
            Evidence { doc_version: other.doc_version, ..record },
        ),
        evidence_read(
            EvidenceRow {
                actor_id: other_row.actor_id,
                actor_kind: other_row.actor_kind,
                actor_name: other_row.actor_name,
                ..row
            },
            Evidence { actor: other.actor, ..record },
        ),
        evidence_read(
            EvidenceRow { reason: other_row.reason, ..row },
            Evidence { reason: other.reason, ..record },
        ),
        evidence_read(
            EvidenceRow { payload: other_row.payload, ..row },
            Evidence { payload: other.payload, ..record },
        ),
        evidence_read(
            EvidenceRow { project_id: other_row.project_id, ..row },
            Evidence { project_id: other.project_id, ..record },
        ),
        evidence_read(
            EvidenceRow { plan_id: other_row.plan_id, ..row },
            Evidence { plan_id: other.plan_id, ..record },
        ),
        evidence_read(
            EvidenceRow { task_id: other_row.task_id, ..row },
            Evidence { task_id: other.task_id, ..record },
        ),
        evidence_read(
            EvidenceRow { run_id: other_row.run_id, ..row },
            Evidence { run_id: other.run_id, ..record },
        ),
        evidence_read(
            EvidenceRow { artifact_id: other_row.artifact_id, ..row },
            Evidence { artifact_id: other.artifact_id, ..record },
        ),
        evidence_read(
            EvidenceRow { rule_id: other_row.rule_id, ..row },
            Evidence { rule_id: other.rule_id, ..record },
        ),
        evidence_read(
            EvidenceRow { recorded_at: other_row.recorded_at, ..row },
            Evidence { recorded_at: other.recorded_at, ..record },
        ),
        evidence_read(
            EvidenceRow { superseded_by: other_row.superseded_by, ..row },
            Evidence { superseded_by: other.superseded_by, ..record },
        ),
{
}

/// A row stores each field of a piece of evidence in columns of its own: with another value
/// there it stores what differs in that field alone.
pub proof fn lemma_evidence_is_stored_field_by_field(
    row: EvidenceRow,
    record: Evidence,
    other_row: EvidenceRow,
    other: Evidence,
)
    requires
        row.stores(record),
        other_row.stores(other),
    ensures
        (EvidenceRow { id: other_row.id, ..row }).stores(Evidence { id: other.id, ..record }),
        (EvidenceRow { kind: other_row.kind, ..row }).stores(
            Evidence { kind: other.kind, ..record },
        ),
        (EvidenceRow { scope_id: other_row.scope_id, scope_kind: other_row.scope_kind, ..row }).stores(
            Evidence { scope: other.scope, ..record },
        ),
        (EvidenceRow { target: other_row.target, ..row }).stores(
            Evidence { target: other.target, ..record },
        ),
        (EvidenceRow { doc_version: other_row.doc_version, ..row }).stores(
            Evidence { doc_version: other.doc_version, ..record },
        ),
        (EvidenceRow {
            actor_id: other_row.actor_id,
            actor_kind: other_row.actor_kind,
            actor_name: other_row.actor_name,
            ..row
        }).stores(Evidence { actor: other.actor, ..record }),
        (EvidenceRow { reason: other_row.reason, ..row }).stores(
            Evidence { reason: other.reason, ..record },
        ),
        (EvidenceRow { payload: other_row.payload, ..row }).stores(
            Evidence { payload: other.payload, ..record },
        ),
        (EvidenceRow { project_id: other_row.project_id, ..row }).stores(
            Evidence { project_id: other.project_id, ..record },
        ),
        (EvidenceRow { plan_id: other_row.plan_id, ..row }).stores(
            Evidence { plan_id: other.plan_id, ..record },
        ),
        (EvidenceRow { task_id: other_row.task_id, ..row }).stores(
            Evidence { task_id: other.task_id, ..record },
        ),
        (EvidenceRow { run_id: other_row.run_id, ..row }).stores(
            Evidence { run_id: other.run_id, ..record },
        ),
        (EvidenceRow { artifact_id: other_row.artifact_id, ..row }).stores(
            Evidence { artifact_id: other.artifact_id, ..record },
        ),
        (EvidenceRow { rule_id: other_row.rule_id, ..row }).stores(
            Evidence { rule_id: other.rule_id, ..record },
        ),
        (EvidenceRow { recorded_at: other_row.recorded_at, ..row }).stores(
            Evidence { recorded_at: other.recorded_at, ..record },
        ),
        (EvidenceRow { superseded_by: other_row.superseded_by, ..row }).stores(
            Evidence { superseded_by: other.superseded_by, ..record },
        ),
{
}

/// A row of a piece of evidence without a fault says what is read from it: each identifier,
/// time, state and text stands in it as it is read.
pub proof fn lemma_evidence_is_what_the_row_says(row: EvidenceRow, record: Evidence)
    requires
        (evidence_fault(row) is None && evidence_read(row, record))
            || (row.fault() is None && row.holds(record)),
    ensures
        row.id is Ok
            && crate::ids::id_parsed::<EvidenceId>(row.id->Ok_0@) == Ok::<EvidenceId, Seq<char>>(
                record.id,
            ),
        row.kind is Ok && row.kind->Ok_0@ == record.kind.text(),
        row.scope_kind is Ok && row.scope_id is Ok,
        row.target is Ok && row.target->Ok_0 == record.target,
        row.doc_version is Ok && row.doc_version->Ok_0 == record.doc_version,
        row.actor_kind is Ok && row.actor_kind->Ok_0 == record.actor.kind,
        row.actor_id is Ok && (row.actor_id->Ok_0 is None <==> record.actor.id is None),
        row.actor_id->Ok_0 matches Some(s)
            ==> crate::ids::id_parsed::<AgentId>(s@) == Ok::<AgentId, Seq<char>>(
                record.actor.id->Some_0,
            ),
        row.actor_name is Ok && row.actor_name->Ok_0 == record.actor.name,
        row.reason is Ok && row.reason->Ok_0 == record.reason,
        row.payload is Ok
            && json_parsed(row.payload->Ok_0@) == Ok::<crate::json::JsonView, Seq<char>>(
                record.payload.model(),
            ),
        row.project_id is Ok && (row.project_id->Ok_0 is None <==> record.project_id is None),
        row.project_id->Ok_0 matches Some(s)
            ==> crate::ids::id_parsed::<ProjectId>(s@) == Ok::<ProjectId, Seq<char>>(
                record.project_id->Some_0,
            ),
        row.plan_id is Ok && (row.plan_id->Ok_0 is None <==> record.plan_id is None),
        row.plan_id->Ok_0 matches Some(s)
            ==> crate::ids::id_parsed::<PlanId>(s@) == Ok::<PlanId, Seq<char>>(
                record.plan_id->Some_0,
            ),
        row.task_id is Ok && (row.task_id->Ok_0 is None <==> record.task_id is None),
        row.task_id->Ok_0 matches Some(s)
            ==> crate::ids::id_parsed::<TaskId>(s@) == Ok::<TaskId, Seq<char>>(
                record.task_id->Some_0,
            ),
        row.run_id is Ok && (row.run_id->Ok_0 is None <==> record.run_id is None),
        row.run_id->Ok_0 matches Some(s)
            ==> crate::ids::id_parsed::<RunId>(s@) == Ok::<RunId, Seq<char>>(record.run_id->Some_0),
        row.artifact_id is Ok && (row.artifact_id->Ok_0 is None <==> record.artifact_id is None),
        row.artifact_id->Ok_0 matches Some(s)
            ==> crate::ids::id_parsed::<ArtifactId>(s@) == Ok::<ArtifactId, Seq<char>>(
                record.artifact_id->Some_0,
            ),
        row.rule_id is Ok && (row.rule_id->Ok_0 is None <==> record.rule_id is None),
        row.rule_id->Ok_0 matches Some(s)
            ==> crate::ids::id_parsed::<RuleId>(s@) == Ok::<RuleId, Seq<char>>(
                record.rule_id->Some_0,
            ),
        row.recorded_at is Ok
            && crate::time::rfc3339_parsed(row.recorded_at->Ok_0@) == Ok::<(i64, u32), Seq<char>>(
                (record.recorded_at.seconds(), record.recorded_at.subsec()),
            ),
        row.superseded_by is Ok
            && (row.superseded_by->Ok_0 is None <==> record.superseded_by is None),
        row.superseded_by->Ok_0 matches Some(s)
            ==> crate::ids::id_parsed::<EvidenceId>(s@) == Ok::<EvidenceId, Seq<char>>(
                record.superseded_by->Some_0,
            ),
{
    record.kind.lemma_stored_names(row.kind->Ok_0@);
    crate::time::lemma_time_is_read_from_its_text(row.recorded_at->Ok_0@);
}

/// A text that stands for no value is reported with the text; one that stands for a value is
/// not reported.
pub proof fn lemma_unknown_evidence_kind_is_reported(v: EvidenceKind, s: Seq<char>)
    ensures
        evidence_kind_fault(v.text()) is None,
        (forall|w: EvidenceKind| #[trigger] w.text() != s) ==> evidence_kind_fault(s) == Some(
            ErrorView::Storage("unknown evidence kind: "@ + s),
        ),
{
    v.lemma_text_names_value();
    v.lemma_stored_names(s);
}

/// A row of a piece of evidence is refused for what is wrong with a column, with the error of that
/// column; where nothing is wrong with any, nothing is refused.
pub proof fn lemma_evidence_is_refused_for_its_columns(row: EvidenceRow, other: EvidenceRow)
    requires
        evidence_fault(row) is None,
    ensures
        evidence_fault(EvidenceRow { id: other.id, ..row }) == column_fault(other.id).or_fault(
            stored_id_fault::<EvidenceId>(other.id->Ok_0@, "bad evidence id"@),
        ),
        evidence_fault(EvidenceRow { kind: other.kind, ..row })
            == column_fault(other.kind).or_fault(evidence_kind_fault(other.kind->Ok_0@)),
        evidence_fault(EvidenceRow { payload: other.payload, ..row })
            == column_fault(other.payload).or_fault(json_fault(other.payload->Ok_0@)),
        evidence_fault(EvidenceRow { recorded_at: other.recorded_at, ..row })
            == column_fault(other.recorded_at).or_fault(ts_fault(other.recorded_at->Ok_0@)),
        evidence_fault(EvidenceRow { actor_id: other.actor_id, ..row })
            == column_fault(other.actor_id).or_fault(
                opt_stored_id_fault::<AgentId>(other.actor_id->Ok_0, "bad actor id"@),
            ),
        evidence_fault(EvidenceRow { superseded_by: other.superseded_by, ..row })
            == column_fault(other.superseded_by).or_fault(
                opt_stored_id_fault::<EvidenceId>(
                    other.superseded_by->Ok_0,
                    "bad superseded_by id"@,
                ),
            ),
        evidence_fault(EvidenceRow { target: other.target, ..row }) == column_fault(other.target),
        evidence_fault(EvidenceRow { doc_version: other.doc_version, ..row }) == column_fault(
            other.doc_version,
        ),
        evidence_fault(EvidenceRow { actor_kind: other.actor_kind, ..row }) == column_fault(
            other.actor_kind,
        ),
        evidence_fault(EvidenceRow { actor_name: other.actor_name, ..row }) == column_fault(
            other.actor_name,
        ),
        evidence_fault(EvidenceRow { reason: other.reason, ..row }) == column_fault(other.reason),
        evidence_fault(EvidenceRow { project_id: other.project_id, ..row })
            == column_fault(other.project_id).or_fault(
                opt_stored_id_fault::<ProjectId>(other.project_id->Ok_0, "bad project_id"@),
            ),
        evidence_fault(EvidenceRow { plan_id: other.plan_id, ..row })
            == column_fault(other.plan_id).or_fault(
                opt_stored_id_fault::<PlanId>(other.plan_id->Ok_0, "bad plan_id"@),
            ),
        evidence_fault(EvidenceRow { task_id: other.task_id, ..row })
            == column_fault(other.task_id).or_fault(
                opt_stored_id_fault::<TaskId>(other.task_id->Ok_0, "bad task_id"@),
            ),
        evidence_fault(EvidenceRow { run_id: other.run_id, ..row })
            == column_fault(other.run_id).or_fault(
                opt_stored_id_fault::<RunId>(other.run_id->Ok_0, "bad run_id"@),
            ),
        evidence_fault(EvidenceRow { artifact_id: other.artifact_id, ..row })
            == column_fault(other.artifact_id).or_fault(
                opt_stored_id_fault::<ArtifactId>(other.artifact_id->Ok_0, "bad artifact_id"@),
            ),
        evidence_fault(EvidenceRow { rule_id: other.rule_id, ..row })
            == column_fault(other.rule_id).or_fault(
                opt_stored_id_fault::<RuleId>(other.rule_id->Ok_0, "bad rule_id"@),
            ),
{
}

/// A row is refused for what is wrong with a column, with the error of that
/// column; where nothing is wrong with any, nothing is refused.
pub proof fn lemma_candidate_row_is_refused_for_its_columns(row: CandidateRow, other: CandidateRow)
    requires
        candidate_fault(row) is None,
    ensures
        candidate_fault(CandidateRow { payload: other.payload, ..row })
            == column_fault(other.payload).or_fault(json_fault(other.payload->Ok_0@)),
        candidate_fault(CandidateRow { reason: other.reason, ..row }) == column_fault(other.reason),
        candidate_fault(CandidateRow { actor_id: other.actor_id, ..row }) == column_fault(
            other.actor_id,
        ),
        candidate_fault(CandidateRow { actor_name: other.actor_name, ..row }) == column_fault(
            other.actor_name,
        ),
        candidate_fault(CandidateRow { doc_version: other.doc_version, ..row }) == column_fault(
            other.doc_version,
        ),
        candidate_fault(CandidateRow { target: other.target, ..row }) == column_fault(other.target),
{
}

/// A requirement without fields and without a least version is met by every candidate, whatever
/// its columns hold; one with a least version alone looks at the version alone.
pub proof fn lemma_only_what_is_asked_for_is_read(
    row: CandidateRow,
    other: CandidateRow,
    minimum: Option<u64>,
)
    requires
        row.doc_version == other.doc_version,
    ensures
        judged(row, Seq::<Seq<char>>::empty(), None) == Ok::<Option<Seq<char>>, ErrorView>(None),
        judged(row, Seq::<Seq<char>>::empty(), minimum) == judged(
            other,
            Seq::<Seq<char>>::empty(),
            minimum,
        ),
        row.doc_version matches Err(message) ==> minimum is Some ==> judged(
            row,
            Seq::<Seq<char>>::empty(),
            minimum,
        ) == Err::<Option<Seq<char>>, ErrorView>(ErrorView::Storage(message@)),
{
}

/// Every chain has a place from which on its scopes are in reach: its beginning for the tenant,
/// its end for the thing itself, and else the first scope that is far enough inside, or its end
/// where none is.
pub proof fn lemma_every_chain_is_cut_somewhere(chain: Seq<RuleScope>, cut: int)
    requires
        0 <= cut < chain.len(),
    ensures
        is_cut(chain, EvidenceReach::Tenant, 0),
        is_cut(chain, EvidenceReach::SelfOnly, chain.len() - 1),
        !(chain[cut] is Tenant) && (forall|i: int|
            0 <= i < cut ==> (#[trigger] chain[i]) is Tenant) ==> is_cut(
            chain,
            EvidenceReach::Project,
            cut,
        ),
        (chain[cut] is Plan || chain[cut] is Task) && (forall|i: int|
            0 <= i < cut ==> (#[trigger] chain[i]) is Tenant || chain[i] is Project) ==> is_cut(
            chain,
            EvidenceReach::Plan,
            cut,
        ),
        (forall|i: int| 0 <= i < chain.len() ==> (#[trigger] chain[i]) is Tenant) ==> is_cut(
            chain,
            EvidenceReach::Project,
            chain.len() - 1,
        ),
        (forall|i: int|
            0 <= i < chain.len() ==> (#[trigger] chain[i]) is Tenant || chain[i] is Project)
            ==> is_cut(chain, EvidenceReach::Plan, chain.len() - 1),
{
}

/// Candidates are narrowed by a target exactly where the requirement names one: evidence for
/// any target counts for it, too.
pub proof fn lemma_candidates_are_narrowed_by_target(request: EvidenceRequest, has_id: bool)
    ensures
        ({
            let any = EvidenceRequest { target: None, ..request };
            let one = request.candidates_sql(has_id);
            let start = any.candidates_sql(has_id).len() - NEWEST_TWENTY@.len();
            let narrowed = "AND (target = ? OR target IS NULL)"@;
            &&& any.candidates_sql(has_id) == any.candidates_sql(has_id).take(start)
                + NEWEST_TWENTY@
            &&& request.target is None ==> one == any.candidates_sql(has_id)
            &&& request.target is Some ==> one == any.candidates_sql(has_id).take(start) + narrowed
                + NEWEST_TWENTY@
        }),
{
    reveal_strlit("");
    let any = EvidenceRequest { target: None, ..request };
    let start = any.candidates_sql(has_id).len() - NEWEST_TWENTY@.len();
    let narrowed = "AND (target = ? OR target IS NULL)"@;
    assert(any.candidates_sql(has_id) =~= any.candidates_sql(has_id).take(start) + NEWEST_TWENTY@);
    if request.target is Some {
        assert(request.candidates_sql(has_id) =~= any.candidates_sql(has_id).take(start) + narrowed
            + NEWEST_TWENTY@);
    }
}

/// A scope that is none is refused for what is wrong with it: an unknown kind with the kind,
/// and a kind whose identifier is missing with the kind, too.
pub proof fn lemma_evidence_is_refused_for_its_scope(row: EvidenceRow, other: EvidenceRow)
    requires
        evidence_fault(row) is None,
        other.scope_kind is Ok,
    ensures
        ({
            let kind = other.scope_kind->Ok_0@;
            let unscoped = EvidenceRow { scope_kind: other.scope_kind, scope_id: Ok(None), ..row };
            &&& kind != "tenant"@ && kind != "project"@ && kind != "plan"@ && kind != "task"@
                ==> evidence_fault(unscoped) == Some(
                ErrorView::Storage("unknown evidence scope kind: "@ + kind),
            )
            &&& kind == "tenant"@ ==> evidence_fault(unscoped) is None
            &&& kind == "project"@ || kind == "plan"@ || kind == "task"@ ==> evidence_fault(unscoped)
                == Some(ErrorView::Storage(kind + " scope missing scope_id"@))
        }),
{
    crate::scope::lemma_scope_is_read_by_kind(
        other.scope_kind->Ok_0@,
        None,
        "unknown evidence scope kind: "@,
    );
}

} // verus!
