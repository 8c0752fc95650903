//! Sessions of agents and what they leave behind, in the `agent_sessions` and
//! `session_artifacts` tables.
use vstd::prelude::*;

use crate::domain::{AgentSession, AgentSessionPlanStep, SessionArtifact, SessionArtifactKind};
use crate::error::{CoreError, ErrorView};
use crate::events::{Event, EventEnvelope};
use crate::ids::{
    id_fault, id_value, opt_id_fault, opt_id_value, parse_id, parse_opt_id, AgentId, AgentSessionId,
    SessionArtifactId,
};
use crate::json::{
    is_plain_json, json_fault, json_parsed, json_printed, parse_json, print_json, JSON_DEPTH,
};
use crate::query::{
    sql_id, sql_opt_id, sql_opt_time, sql_text, sql_time, statement, step_views, Bound, BoundView,
    Query, QueryView,
};
use crate::rows::{
    column, column_fault, has_opt_text, has_text, parsed, parsed_fault, Column, Decode, Faults,
    Parsed,
};
use crate::text::concat2;
use crate::time::{
    opt_is_plain, opt_ts_fault, opt_ts_value, parse_opt_ts, parse_ts, ts_fault, ts_value, Timestamp,
};

verus! {

/// The session projection.
#[derive(Clone, Copy, Debug)]
pub struct SessionRepo;

pub const GET_SESSION: &'static str = "SELECT id, agent_id, parent_agent_id, started_at, ended_at, \
     metadata_json, plan_steps_json FROM agent_sessions WHERE id = ?";

pub const LIST_SESSIONS: &'static str = "SELECT id, agent_id, parent_agent_id, started_at, ended_at, \
     metadata_json, plan_steps_json \
     FROM agent_sessions WHERE agent_id = ? ORDER BY started_at ASC";

pub const LIST_ARTIFACTS: &'static str = "SELECT id, session_id, kind, ref, metadata_json, created_at \
     FROM session_artifacts WHERE session_id = ? \
     ORDER BY created_at ASC, id ASC";

pub const END_SESSION: &'static str = "UPDATE agent_sessions SET ended_at = ? WHERE id = ?";

pub const SET_STEPS: &'static str = "UPDATE agent_sessions SET plan_steps_json = ? WHERE id = ?";

pub const UPSERT_SESSION_ARTIFACT: &'static str = "INSERT OR REPLACE INTO session_artifacts \
     (id, session_id, kind, ref, metadata_json, created_at) \
     VALUES (?, ?, ?, ?, ?, ?)";

pub const UPSERT_SESSION: &'static str = "INSERT OR REPLACE INTO agent_sessions \
     (id, agent_id, parent_agent_id, started_at, ended_at, \
     metadata_json, plan_steps_json) \
     VALUES (?, ?, ?, ?, ?, ?, ?)";

// ── rows ────────────────────────────────────────────────────────────────────

/// A column of steps holds the bound value.
pub open spec fn has_steps(c: Column<Parsed<Vec<AgentSessionPlanStep>>>, v: BoundView) -> bool {
    c matches Ok(Ok(steps)) && v == BoundView::Steps(step_views(steps@))
}

fn copy_steps(steps: &Vec<AgentSessionPlanStep>) -> (r: Vec<AgentSessionPlanStep>)
    ensures
        step_views(r@) == step_views(steps@),
{
    let mut out: Vec<AgentSessionPlanStep> = Vec::new();
    let mut i: usize = 0;
    while i < steps.len()
        invariant
            i <= steps@.len(),
            out@ == steps@.take(i as int),
        decreases steps@.len() - i,
    {
        let step = AgentSessionPlanStep {
            content: steps[i].content.clone(),
            status: steps[i].status,
        };
        assert(step == steps@[i as int]);
        out.push(step);
        assert(steps@.take(i + 1) =~= steps@.take(i as int).push(steps@[i as int]));
        i = i + 1;
    }
    assert(steps@.take(steps@.len() as int) =~= steps@);
    out
}

/// Why a text is no kind of artifact.
pub open spec fn artifact_kind_fault(s: Seq<char>) -> Option<ErrorView> {
    if SessionArtifactKind::named(s) is Some {
        None
    } else {
        Some(ErrorView::Serde("unknown session artifact kind: "@ + s))
    }
}

/// Reads a kind of artifact.
pub fn parse_artifact_kind(s: &str) -> (r: Result<SessionArtifactKind, CoreError>)
    ensures
        match artifact_kind_fault(s@) {
            Some(e) => r is Err && r->Err_0@ == e,
            None => r is Ok && Some(r->Ok_0) == SessionArtifactKind::named(s@),
        },
{
    match SessionArtifactKind::parse(s) {
        Some(v) => Ok(v),
        None => Err(CoreError::Serde(concat2("unknown session artifact kind: ", s))),
    }
}

/// A row of the `agent_sessions` table.
#[derive(Debug, PartialEq, Eq)]
pub struct SessionRow {
    pub id: Column<String>,
    pub agent_id: Column<String>,
    pub parent_agent_id: Column<Option<String>>,
    pub started_at: Column<String>,
    pub ended_at: Column<Option<String>>,
    pub metadata_json: Column<String>,
    pub plan_steps_json: Column<Parsed<Vec<AgentSessionPlanStep>>>,
}

/// What is wrong with a session row, where something is: the columns and their
/// values are looked at in this order.
pub open spec fn session_fault(row: SessionRow) -> Option<ErrorView> {
    column_fault(row.id).or_fault(
        column_fault(row.agent_id),
    ).or_fault(
        column_fault(row.parent_agent_id),
    ).or_fault(
        column_fault(row.started_at),
    ).or_fault(
        column_fault(row.ended_at),
    ).or_fault(
        column_fault(row.metadata_json),
    ).or_fault(
        column_fault(row.plan_steps_json),
    ).or_fault(
        id_fault::<AgentSessionId>(row.id->Ok_0@),
    ).or_fault(
        id_fault::<AgentId>(row.agent_id->Ok_0@),
    ).or_fault(
        opt_id_fault::<AgentId>(row.parent_agent_id->Ok_0),
    ).or_fault(
        ts_fault(row.started_at->Ok_0@),
    ).or_fault(
        opt_ts_fault(row.ended_at->Ok_0),
    ).or_fault(
        parsed_fault(row.plan_steps_json->Ok_0),
    ).or_fault(
        json_fault(row.metadata_json->Ok_0@),
    )
}

/// The record is what a sound session row says.
pub open spec fn session_read(row: SessionRow, record: AgentSession) -> bool {
    &&& record.id == id_value::<AgentSessionId>(row.id->Ok_0@)
    &&& record.agent_id == id_value::<AgentId>(row.agent_id->Ok_0@)
    &&& record.parent_agent_id == opt_id_value::<AgentId>(row.parent_agent_id->Ok_0)
    &&& record.started_at == ts_value(row.started_at->Ok_0@)
    &&& record.ended_at == opt_ts_value(row.ended_at->Ok_0)
    &&& record.metadata.model() == json_parsed(row.metadata_json->Ok_0@)->Ok_0
    &&& record.plan_steps == row.plan_steps_json->Ok_0->Ok_0
}

/// Reads a session from its row.
pub fn row_to_session(row: SessionRow) -> (r: Result<AgentSession, CoreError>)
    ensures
        match session_fault(row) {
            Some(e) => r is Err && r->Err_0@ == e,
            None => r is Ok && session_read(row, r->Ok_0),
        },
{
    let id = column(row.id)?;
    let agent_id = column(row.agent_id)?;
    let parent_agent_id = column(row.parent_agent_id)?;
    let started_at = column(row.started_at)?;
    let ended_at = column(row.ended_at)?;
    let metadata_json = column(row.metadata_json)?;
    let plan_steps_json = column(row.plan_steps_json)?;
    let id = parse_id::<AgentSessionId>(id.as_str())?;
    let agent_id = parse_id::<AgentId>(agent_id.as_str())?;
    let parent_agent_id = parse_opt_id::<AgentId>(&parent_agent_id)?;
    let started_at = parse_ts(started_at.as_str())?;
    let ended_at = parse_opt_ts(&ended_at)?;
    let plan_steps_json = parsed(plan_steps_json)?;
    let metadata_json = parse_json(metadata_json.as_str())?;
    Ok(AgentSession {
        id,
        agent_id,
        parent_agent_id,
        started_at,
        ended_at,
        metadata: metadata_json,
        plan_steps: plan_steps_json,
    })
}

impl Decode for SessionRow {
    type Record = AgentSession;

    open spec fn fault(&self) -> Option<ErrorView> {
        session_fault(*self)
    }

    open spec fn holds(&self, record: AgentSession) -> bool {
        session_read(*self, record)
    }

    fn decode(self) -> (r: Result<AgentSession, CoreError>) {
        row_to_session(self)
    }
}

/// The columns of a session, in the order in which they are written.
pub open spec fn session_columns(record: AgentSession) -> Seq<BoundView> {
    seq![
        sql_id(record.id),
        sql_id(record.agent_id),
        sql_opt_id(record.parent_agent_id),
        sql_time(record.started_at),
        sql_opt_time(record.ended_at),
        sql_text(json_printed(record.metadata.model())),
        BoundView::Steps(step_views(record.plan_steps@)),
    ]
}

impl SessionRow {
    /// Each column of the row holds what is written for it of the record.
    pub open spec fn stores(self, record: AgentSession) -> bool {
        &&& has_text(self.id, sql_id(record.id))
        &&& has_text(self.agent_id, sql_id(record.agent_id))
        &&& has_opt_text(self.parent_agent_id, sql_opt_id(record.parent_agent_id))
        &&& has_text(self.started_at, sql_time(record.started_at))
        &&& has_opt_text(self.ended_at, sql_opt_time(record.ended_at))
        &&& has_text(self.metadata_json, sql_text(json_printed(record.metadata.model())))
        &&& has_steps(self.plan_steps_json, BoundView::Steps(step_views(record.plan_steps@)))
    }
}

impl AgentSession {
    /// The two records agree in every field.
    pub open spec fn same(self, other: AgentSession) -> bool {
        &&& self.id == other.id
        &&& self.agent_id == other.agent_id
        &&& self.parent_agent_id == other.parent_agent_id
        &&& self.started_at == other.started_at
        &&& self.ended_at == other.ended_at
        &&& self.metadata.model() == other.metadata.model()
        &&& step_views(self.plan_steps@) == step_views(other.plan_steps@)
    }

    /// Every point in time of the record has an RFC 3339 text that reads back, and so has
    /// the metadata a JSON text.
    pub open spec fn is_plain(self) -> bool {
        &&& self.started_at.is_plain()
        &&& opt_is_plain(self.ended_at)
        &&& is_plain_json(self.metadata.model(), JSON_DEPTH as nat)
    }
}

/// A row of the `session_artifacts` table. Its column `ref` is called `reference` here.
#[derive(Debug, PartialEq, Eq)]
pub struct SessionArtifactRow {
    pub id: Column<String>,
    pub session_id: Column<String>,
    pub kind: Column<String>,
    pub reference: Column<String>,
    pub metadata_json: Column<String>,
    pub created_at: Column<String>,
}

/// What is wrong with a session artifact row, where something is: the columns and their
/// values are looked at in this order.
pub open spec fn artifact_fault(row: SessionArtifactRow) -> Option<ErrorView> {
    column_fault(row.id).or_fault(
        column_fault(row.session_id),
    ).or_fault(
        column_fault(row.kind),
    ).or_fault(
        column_fault(row.reference),
    ).or_fault(
        column_fault(row.metadata_json),
    ).or_fault(
        column_fault(row.created_at),
    ).or_fault(
        id_fault::<SessionArtifactId>(row.id->Ok_0@),
    ).or_fault(
        id_fault::<AgentSessionId>(row.session_id->Ok_0@),
    ).or_fault(
        artifact_kind_fault(row.kind->Ok_0@),
    ).or_fault(
        json_fault(row.metadata_json->Ok_0@),
    ).or_fault(
        ts_fault(row.created_at->Ok_0@),
    )
}

/// The record is what a sound session artifact row says.
pub open spec fn artifact_read(row: SessionArtifactRow, record: SessionArtifact) -> bool {
    &&& record.id == id_value::<SessionArtifactId>(row.id->Ok_0@)
    &&& record.session_id == id_value::<AgentSessionId>(row.session_id->Ok_0@)
    &&& Some(record.kind) == SessionArtifactKind::named(row.kind->Ok_0@)
    &&& record.reference == row.reference->Ok_0
    &&& record.metadata.model() == json_parsed(row.metadata_json->Ok_0@)->Ok_0
    &&& record.created_at == ts_value(row.created_at->Ok_0@)
}

/// Reads a session artifact from its row.
pub fn row_to_artifact(row: SessionArtifactRow) -> (r: Result<SessionArtifact, CoreError>)
    ensures
        match artifact_fault(row) {
            Some(e) => r is Err && r->Err_0@ == e,
            None => r is Ok && artifact_read(row, r->Ok_0),
        },
{
    let id = column(row.id)?;
    let session_id = column(row.session_id)?;
    let kind = column(row.kind)?;
    let reference = column(row.reference)?;
    let metadata_json = column(row.metadata_json)?;
    let created_at = column(row.created_at)?;
    let id = parse_id::<SessionArtifactId>(id.as_str())?;
    let session_id = parse_id::<AgentSessionId>(session_id.as_str())?;
    let kind = parse_artifact_kind(kind.as_str())?;
    let metadata_json = parse_json(metadata_json.as_str())?;
    let created_at = parse_ts(created_at.as_str())?;
    Ok(SessionArtifact {
        id,
        session_id,
        kind,
        reference,
        metadata: metadata_json,
        created_at,
    })
}

impl Decode for SessionArtifactRow {
    type Record = SessionArtifact;

    open spec fn fault(&self) -> Option<ErrorView> {
        artifact_fault(*self)
    }

    open spec fn holds(&self, record: SessionArtifact) -> bool {
        artifact_read(*self, record)
    }

    fn decode(self) -> (r: Result<SessionArtifact, CoreError>) {
        row_to_artifact(self)
    }
}

/// The columns of a session artifact, in the order in which they are written.
pub open spec fn artifact_columns(record: SessionArtifact) -> Seq<BoundView> {
    seq![
        sql_id(record.id),
        sql_id(record.session_id),
        sql_text(record.kind.text()),
        sql_text(record.reference@),
        sql_text(json_printed(record.metadata.model())),
        sql_time(record.created_at),
    ]
}

impl SessionArtifactRow {
    /// Each column of the row holds what is written for it of the record.
    pub open spec fn stores(self, record: SessionArtifact) -> bool {
        &&& has_text(self.id, sql_id(record.id))
        &&& has_text(self.session_id, sql_id(record.session_id))
        &&& has_text(self.kind, sql_text(record.kind.text()))
        &&& has_text(self.reference, sql_text(record.reference@))
        &&& has_text(self.metadata_json, sql_text(json_printed(record.metadata.model())))
        &&& has_text(self.created_at, sql_time(record.created_at))
    }
}

impl SessionArtifact {
    /// The two records agree in every field.
    pub open spec fn same(self, other: SessionArtifact) -> bool {
        &&& self.id == other.id
        &&& self.session_id == other.session_id
        &&& self.kind == other.kind
        &&& self.reference@ == other.reference@
        &&& self.metadata.model() == other.metadata.model()
        &&& self.created_at == other.created_at
    }

    /// Every point in time of the record has an RFC 3339 text that reads back, and so has
    /// the metadata a JSON text.
    pub open spec fn is_plain(self) -> bool {
        &&& is_plain_json(self.metadata.model(), JSON_DEPTH as nat)
        &&& self.created_at.is_plain()
    }
}

// ── the repository ──────────────────────────────────────────────────────────

/// The statement that an event leads to, where there is one.
pub open spec fn session_change(event: Event) -> Option<QueryView> {
    match event {
        Event::AgentSessionStarted { session } => Some(
            statement(UPSERT_SESSION@, session_columns(session)),
        ),
        Event::AgentSessionEnded { session_id, at } => Some(
            statement(END_SESSION@, seq![sql_time(at), sql_id(session_id)]),
        ),
        Event::AgentSessionPlanUpdated { session_id, steps } => Some(
            statement(
                SET_STEPS@,
                seq![BoundView::Steps(step_views(steps@)), sql_id(session_id)],
            ),
        ),
        Event::SessionArtifactAttached { artifact } => Some(
            statement(UPSERT_SESSION_ARTIFACT@, artifact_columns(artifact)),
        ),
        _ => None,
    }
}

impl SessionRepo {
    /// The query for a session.
    pub fn get(id: &AgentSessionId) -> (q: Query)
        ensures
            q@ == statement(GET_SESSION@, seq![sql_id(*id)]),
    {
        Query::new(GET_SESSION).id(id)
    }

    /// The query for the sessions of an agent, in the order of their start.
    pub fn list_for_agent(agent_id: &AgentId) -> (q: Query)
        ensures
            q@ == statement(LIST_SESSIONS@, seq![sql_id(*agent_id)]),
    {
        Query::new(LIST_SESSIONS).id(agent_id)
    }

    /// The query for what a session left behind.
    pub fn list_artifacts(session_id: &AgentSessionId) -> (q: Query)
        ensures
            q@ == statement(LIST_ARTIFACTS@, seq![sql_id(*session_id)]),
    {
        Query::new(LIST_ARTIFACTS).id(session_id)
    }

    /// The statement that writes a session. What it writes reads back.
    pub fn start(session: &AgentSession) -> (q: Query)
        ensures
            q@ == statement(UPSERT_SESSION@, session_columns(*session)),
            session.is_plain() ==> forall|row: SessionRow|
                #[trigger] row.stores(*session) ==> session_fault(row) is None && forall|record: AgentSession|
                    session_read(row, record) ==> record.same(*session),
    {
        Query::new(UPSERT_SESSION)
            .id(&session.id)
            .id(&session.agent_id)
            .opt_id(&session.parent_agent_id)
            .time(&session.started_at)
            .opt_time(&session.ended_at)
            .text(print_json(&session.metadata).as_str())
            .bind(Bound::Steps(copy_steps(&session.plan_steps)))
    }

    /// The statement that ends a session.
    pub fn end(session_id: &AgentSessionId, at: &Timestamp) -> (q: Query)
        ensures
            q@ == statement(END_SESSION@, seq![sql_time(*at), sql_id(*session_id)]),
    {
        Query::new(END_SESSION).time(at).id(session_id)
    }

    /// The statement that replaces the steps of a session's plan.
    pub fn update_plan_steps(session_id: &AgentSessionId, steps: &Vec<AgentSessionPlanStep>) -> (q: Query)
        ensures
            q@ == statement(
                SET_STEPS@,
                seq![BoundView::Steps(step_views(steps@)), sql_id(*session_id)],
            ),
    {
        Query::new(SET_STEPS).bind(Bound::Steps(copy_steps(steps))).id(session_id)
    }

    /// The statement that writes what a session left behind. What it writes reads back.
    pub fn upsert_artifact(artifact: &SessionArtifact) -> (q: Query)
        ensures
            q@ == statement(UPSERT_SESSION_ARTIFACT@, artifact_columns(*artifact)),
            artifact.is_plain() ==> forall|row: SessionArtifactRow|
                #[trigger] row.stores(*artifact) ==> artifact_fault(row) is None && forall|record: SessionArtifact|
                    artifact_read(row, record) ==> record.same(*artifact),
    {
        Query::new(UPSERT_SESSION_ARTIFACT)
            .id(&artifact.id)
            .id(&artifact.session_id)
            .text(artifact.kind.as_str())
            .text(artifact.reference.as_str())
            .text(print_json(&artifact.metadata).as_str())
            .time(&artifact.created_at)
    }

    /// The statement that applies an event to the sessions, where there is one. What is
    /// written of a session and what it left behind reads back.
    pub fn apply_event(envelope: &EventEnvelope) -> (r: Option<Query>)
        ensures
            match session_change(envelope.payload) {
                Some(s) => r is Some && r->Some_0@ == s,
                None => r is None,
            },
            envelope.payload matches Event::AgentSessionStarted { session } ==> session.is_plain()
                ==> forall|row: SessionRow| #[trigger]
                row.stores(session) ==> session_fault(row) is None && forall|record: AgentSession|
                    session_read(row, record) ==> record.same(session),
            envelope.payload matches Event::SessionArtifactAttached { artifact }
                ==> artifact.is_plain() ==> forall|row: SessionArtifactRow| #[trigger]
                row.stores(artifact) ==> artifact_fault(row) is None && forall|
                record: SessionArtifact,
            |
                artifact_read(row, record) ==> record.same(artifact),
    {
        match &envelope.payload {
            Event::AgentSessionStarted { session } => Some(SessionRepo::start(session)),
            Event::AgentSessionEnded { session_id, at } => Some(SessionRepo::end(session_id, at)),
            Event::AgentSessionPlanUpdated { session_id, steps } => Some(
                SessionRepo::update_plan_steps(session_id, steps),
            ),
            Event::SessionArtifactAttached { artifact } => Some(
                SessionRepo::upsert_artifact(artifact),
            ),
            _ => None,
        }
    }
}

// ── laws ────────────────────────────────────────────────────────────────────

/// A session is ended at the time of the event, has the steps of the event, and has what was
/// attached to it. Each is written to the session of the event, and no other event changes
/// one.
pub proof fn lemma_session_events_are_written(event: Event)
    ensures
        event matches Event::AgentSessionStarted { session } ==> session_change(event) == Some(
            statement(UPSERT_SESSION@, session_columns(session)),
        ),
        event matches Event::AgentSessionEnded { session_id, at } ==> session_change(event) is Some
            && session_change(event)->Some_0.sql == END_SESSION@ && session_change(
            event,
        )->Some_0.binds == seq![sql_time(at), sql_id(session_id)],
        event matches Event::AgentSessionPlanUpdated { session_id, steps } ==> session_change(
            event,
        ) is Some && session_change(event)->Some_0.sql == SET_STEPS@ && session_change(
            event,
        )->Some_0.binds == seq![BoundView::Steps(step_views(steps@)), sql_id(session_id)],
        event matches Event::SessionArtifactAttached { artifact } ==> session_change(event) == Some(
            statement(UPSERT_SESSION_ARTIFACT@, artifact_columns(artifact)),
        ),
        session_change(event) is Some <==> event is AgentSessionStarted
            || event is AgentSessionEnded || event is AgentSessionPlanUpdated
            || event is SessionArtifactAttached,
{
}

/// Each field of a session has a column of its own: what is written of one that changes is
/// written in its column, and the other columns stay.
pub proof fn lemma_agent_session_has_a_column_for_each_field(
    record: AgentSession,
    other: AgentSession,
)
    ensures
        session_columns(AgentSession { id: other.id, ..record }) == session_columns(record).update(
            0,
            sql_id(other.id),
        ),
        session_columns(AgentSession { agent_id: other.agent_id, ..record })
            == session_columns(record).update(1, sql_id(other.agent_id)),
        session_columns(AgentSession { parent_agent_id: other.parent_agent_id, ..record })
            == session_columns(record).update(2, sql_opt_id(other.parent_agent_id)),
        session_columns(AgentSession { started_at: other.started_at, ..record })
            == session_columns(record).update(3, sql_time(other.started_at)),
        session_columns(AgentSession { ended_at: other.ended_at, ..record })
            == session_columns(record).update(4, sql_opt_time(other.ended_at)),
        session_columns(AgentSession { metadata: other.metadata, ..record })
            == session_columns(record).update(5, sql_text(json_printed(other.metadata.model()))),
        session_columns(AgentSession { plan_steps: other.plan_steps, ..record })
            == session_columns(record).update(6, BoundView::Steps(step_views(other.plan_steps@))),
        session_columns(record).len() == 7,
{
}

/// Each field of an artifact has a column of its own: what is written of one that changes is
/// written in its column, and the other columns stay.
pub proof fn lemma_session_artifact_has_a_column_for_each_field(
    record: SessionArtifact,
    other: SessionArtifact,
)
    ensures
        artifact_columns(SessionArtifact { id: other.id, ..record })
            == artifact_columns(record).update(0, sql_id(other.id)),
        artifact_columns(SessionArtifact { session_id: other.session_id, ..record })
            == artifact_columns(record).update(1, sql_id(other.session_id)),
        artifact_columns(SessionArtifact { kind: other.kind, ..record })
            == artifact_columns(record).update(2, sql_text(other.kind.text())),
        artifact_columns(SessionArtifact { reference: other.reference, ..record })
            == artifact_columns(record).update(3, sql_text(other.reference@)),
        artifact_columns(SessionArtifact { metadata: other.metadata, ..record })
            == artifact_columns(record).update(4, sql_text(json_printed(other.metadata.model()))),
        artifact_columns(SessionArtifact { created_at: other.created_at, ..record })
            == artifact_columns(record).update(5, sql_time(other.created_at)),
        artifact_columns(record).len() == 6,
{
}

/// Each field of a session is read from columns of its own: what is read of a row with another
/// value there differs in that field alone.
pub proof fn lemma_agent_session_is_read_field_by_field(
    row: SessionRow,
    record: AgentSession,
    other_row: SessionRow,
    other: AgentSession,
)
    requires
        session_read(row, record),
        session_read(other_row, other),
    ensures
        session_read(
            SessionRow { id: other_row.id, ..row },
            AgentSession { id: other.id, ..record },
        ),
        session_read(
            SessionRow { agent_id: other_row.agent_id, ..row },
            AgentSession { agent_id: other.agent_id, ..record },
        ),
        session_read(
            SessionRow { parent_agent_id: other_row.parent_agent_id, ..row },
            AgentSession { parent_agent_id: other.parent_agent_id, ..record },
        ),
        session_read(
            SessionRow { started_at: other_row.started_at, ..row },
            AgentSession { started_at: other.started_at, ..record },
        ),
        session_read(
            SessionRow { ended_at: other_row.ended_at, ..row },
            AgentSession { ended_at: other.ended_at, ..record },
        ),
        session_read(
            SessionRow { metadata_json: other_row.metadata_json, ..row },
            AgentSession { metadata: other.metadata, ..record },
        ),
        session_read(
            SessionRow { plan_steps_json: other_row.plan_steps_json, ..row },
            AgentSession { plan_steps: other.plan_steps, ..record },
        ),
{
}

/// A row stores each field of a session in columns of its own: with another value there it
/// stores what differs in that field alone.
pub proof fn lemma_agent_session_is_stored_field_by_field(
    row: SessionRow,
    record: AgentSession,
    other_row: SessionRow,
    other: AgentSession,
)
    requires
        row.stores(record),
        other_row.stores(other),
    ensures
        (SessionRow { id: other_row.id, ..row }).stores(AgentSession { id: other.id, ..record }),
        (SessionRow { agent_id: other_row.agent_id, ..row }).stores(
            AgentSession { agent_id: other.agent_id, ..record },
        ),
        (SessionRow { parent_agent_id: other_row.parent_agent_id, ..row }).stores(
            AgentSession { parent_agent_id: other.parent_agent_id, ..record },
        ),
        (SessionRow { started_at: other_row.started_at, ..row }).stores(
            AgentSession { started_at: other.started_at, ..record },
        ),
        (SessionRow { ended_at: other_row.ended_at, ..row }).stores(
            AgentSession { ended_at: other.ended_at, ..record },
        ),
        (SessionRow { metadata_json: other_row.metadata_json, ..row }).stores(
            AgentSession { metadata: other.metadata, ..record },
        ),
        (SessionRow { plan_steps_json: other_row.plan_steps_json, ..row }).stores(
            AgentSession { plan_steps: other.plan_steps, ..record },
        ),
{
}

/// Each field of an artifact is read from columns of its own: what is read of a row with
/// another value there differs in that field alone.
pub proof fn lemma_session_artifact_is_read_field_by_field(
    row: SessionArtifactRow,
    record: SessionArtifact,
    other_row: SessionArtifactRow,
    other: SessionArtifact,
)
    requires
        artifact_read(row, record),
        artifact_read(other_row, other),
    ensures
        artifact_read(
            SessionArtifactRow { id: other_row.id, ..row },
            SessionArtifact { id: other.id, ..record },
        ),
        artifact_read(
            SessionArtifactRow { session_id: other_row.session_id, ..row },
            SessionArtifact { session_id: other.session_id, ..record },
        ),
        artifact_read(
            SessionArtifactRow { kind: other_row.kind, ..row },
            SessionArtifact { kind: other.kind, ..record },
        ),
        artifact_read(
            SessionArtifactRow { reference: other_row.reference, ..row },
            SessionArtifact { reference: other.reference, ..record },
        ),
        artifact_read(
            SessionArtifactRow { metadata_json: other_row.metadata_json, ..row },
            SessionArtifact { metadata: other.metadata, ..record },
        ),
        artifact_read(
            SessionArtifactRow { created_at: other_row.created_at, ..row },
            SessionArtifact { created_at: other.created_at, ..record },
        ),
{
}

/// A row stores each field of an artifact in columns of its own: with another value there it
/// stores what differs in that field alone.
pub proof fn lemma_session_artifact_is_stored_field_by_field(
    row: SessionArtifactRow,
    record: SessionArtifact,
    other_row: SessionArtifactRow,
    other: SessionArtifact,
)
    requires
        row.stores(record),
        other_row.stores(other),
    ensures
        (SessionArtifactRow { id: other_row.id, ..row }).stores(
            SessionArtifact { id: other.id, ..record },
        ),
        (SessionArtifactRow { session_id: other_row.session_id, ..row }).stores(
            SessionArtifact { session_id: other.session_id, ..record },
        ),
        (SessionArtifactRow { kind: other_row.kind, ..row }).stores(
            SessionArtifact { kind: other.kind, ..record },
        ),
        (SessionArtifactRow { reference: other_row.reference, ..row }).stores(
            SessionArtifact { reference: other.reference, ..record },
        ),
        (SessionArtifactRow { metadata_json: other_row.metadata_json, ..row }).stores(
            SessionArtifact { metadata: other.metadata, ..record },
        ),
        (SessionArtifactRow { created_at: other_row.created_at, ..row }).stores(
            SessionArtifact { created_at: other.created_at, ..record },
        ),
{
}

/// A row of a session without a fault says what is read from it: each identifier, time, state
/// and text stands in it as it is read.
pub proof fn lemma_agent_session_is_what_the_row_says(row: SessionRow, record: AgentSession)
    requires
        (session_fault(row) is None && session_read(row, record))
            || (row.fault() is None && row.holds(record)),
    ensures
        row.id is Ok
            && crate::ids::id_parsed::<AgentSessionId>(row.id->Ok_0@)
                == Ok::<AgentSessionId, Seq<char>>(record.id),
        row.agent_id is Ok
            && crate::ids::id_parsed::<AgentId>(row.agent_id->Ok_0@) == Ok::<AgentId, Seq<char>>(
                record.agent_id,
            ),
        row.parent_agent_id is Ok
            && (row.parent_agent_id->Ok_0 is None <==> record.parent_agent_id is None),
        row.parent_agent_id->Ok_0 matches Some(s)
            ==> crate::ids::id_parsed::<AgentId>(s@) == Ok::<AgentId, Seq<char>>(
                record.parent_agent_id->Some_0,
            ),
        row.started_at is Ok
            && crate::time::rfc3339_parsed(row.started_at->Ok_0@) == Ok::<(i64, u32), Seq<char>>(
                (record.started_at.seconds(), record.started_at.subsec()),
            ),
        row.ended_at is Ok && (row.ended_at->Ok_0 is None <==> record.ended_at is None),
        row.ended_at->Ok_0 matches Some(s)
            ==> crate::time::rfc3339_parsed(s@) == Ok::<(i64, u32), Seq<char>>(
                (record.ended_at->Some_0.seconds(), record.ended_at->Some_0.subsec()),
            ),
        row.metadata_json is Ok
            && json_parsed(row.metadata_json->Ok_0@) == Ok::<crate::json::JsonView, Seq<char>>(
                record.metadata.model(),
            ),
        row.plan_steps_json is Ok
            && row.plan_steps_json->Ok_0 is Ok
            && row.plan_steps_json->Ok_0->Ok_0 == record.plan_steps,
{
    crate::time::lemma_time_is_read_from_its_text(row.started_at->Ok_0@);
    if row.ended_at->Ok_0 is Some {
        crate::time::lemma_time_is_read_from_its_text(row.ended_at->Ok_0->Some_0@);
    }
}

/// A row of an artifact without a fault says what is read from it: each identifier, time,
/// state and text stands in it as it is read.
pub proof fn lemma_session_artifact_is_what_the_row_says(
    row: SessionArtifactRow,
    record: SessionArtifact,
)
    requires
        (artifact_fault(row) is None && artifact_read(row, record))
            || (row.fault() is None && row.holds(record)),
    ensures
        row.id is Ok
            && crate::ids::id_parsed::<SessionArtifactId>(row.id->Ok_0@)
                == Ok::<SessionArtifactId, Seq<char>>(record.id),
        row.session_id is Ok
            && crate::ids::id_parsed::<AgentSessionId>(row.session_id->Ok_0@)
                == Ok::<AgentSessionId, Seq<char>>(record.session_id),
        row.kind is Ok && row.kind->Ok_0@ == record.kind.text(),
        row.reference is Ok && row.reference->Ok_0 == record.reference,
        row.metadata_json is Ok
            && json_parsed(row.metadata_json->Ok_0@) == Ok::<crate::json::JsonView, Seq<char>>(
                record.metadata.model(),
            ),
        row.created_at is Ok
            && crate::time::rfc3339_parsed(row.created_at->Ok_0@) == Ok::<(i64, u32), Seq<char>>(
                (record.created_at.seconds(), record.created_at.subsec()),
            ),
{
    record.kind.lemma_stored_names(row.kind->Ok_0@);
    crate::time::lemma_time_is_read_from_its_text(row.created_at->Ok_0@);
}

/// A text that stands for no value is reported with the text; one that stands for a value is
/// not reported.
pub proof fn lemma_unknown_session_artifact_kind_is_reported(v: SessionArtifactKind, s: Seq<char>)
    ensures
        artifact_kind_fault(v.text()) is None,
        (forall|w: SessionArtifactKind| #[trigger] w.text() != s)
            ==> artifact_kind_fault(s) == Some(
                ErrorView::Serde("unknown session artifact kind: "@ + s),
            ),
{
    v.lemma_text_names_value();
    v.lemma_stored_names(s);
}

/// A row of a session is refused for what is wrong with a column, with the error of that
/// column; where nothing is wrong with any, nothing is refused.
pub proof fn lemma_agent_session_is_refused_for_its_columns(row: SessionRow, other: SessionRow)
    requires
        session_fault(row) is None,
    ensures
        session_fault(SessionRow { id: other.id, ..row }) == column_fault(other.id).or_fault(
            id_fault::<AgentSessionId>(other.id->Ok_0@),
        ),
        session_fault(SessionRow { agent_id: other.agent_id, ..row })
            == column_fault(other.agent_id).or_fault(id_fault::<AgentId>(other.agent_id->Ok_0@)),
        session_fault(SessionRow { parent_agent_id: other.parent_agent_id, ..row })
            == column_fault(other.parent_agent_id).or_fault(
                opt_id_fault::<AgentId>(other.parent_agent_id->Ok_0),
            ),
        session_fault(SessionRow { started_at: other.started_at, ..row })
            == column_fault(other.started_at).or_fault(ts_fault(other.started_at->Ok_0@)),
        session_fault(SessionRow { ended_at: other.ended_at, ..row })
            == column_fault(other.ended_at).or_fault(opt_ts_fault(other.ended_at->Ok_0)),
        session_fault(SessionRow { metadata_json: other.metadata_json, ..row })
            == column_fault(other.metadata_json).or_fault(json_fault(other.metadata_json->Ok_0@)),
        session_fault(SessionRow { plan_steps_json: other.plan_steps_json, ..row })
            == column_fault(other.plan_steps_json).or_fault(
                parsed_fault(other.plan_steps_json->Ok_0),
            ),
{
}

/// A row of an artifact is refused for what is wrong with a column, with the error of that
/// column; where nothing is wrong with any, nothing is refused.
pub proof fn lemma_session_artifact_is_refused_for_its_columns(
    row: SessionArtifactRow,
    other: SessionArtifactRow,
)
    requires
        artifact_fault(row) is None,
    ensures
        artifact_fault(SessionArtifactRow { id: other.id, ..row })
            == column_fault(other.id).or_fault(id_fault::<SessionArtifactId>(other.id->Ok_0@)),
        artifact_fault(SessionArtifactRow { session_id: other.session_id, ..row })
            == column_fault(other.session_id).or_fault(
                id_fault::<AgentSessionId>(other.session_id->Ok_0@),
            ),
        artifact_fault(SessionArtifactRow { kind: other.kind, ..row })
            == column_fault(other.kind).or_fault(artifact_kind_fault(other.kind->Ok_0@)),
        artifact_fault(SessionArtifactRow { reference: other.reference, ..row }) == column_fault(
            other.reference,
        ),
        artifact_fault(SessionArtifactRow { metadata_json: other.metadata_json, ..row })
            == column_fault(other.metadata_json).or_fault(json_fault(other.metadata_json->Ok_0@)),
        artifact_fault(SessionArtifactRow { created_at: other.created_at, ..row })
            == column_fault(other.created_at).or_fault(ts_fault(other.created_at->Ok_0@)),
{
}

} // verus!
