//! Claims of agents on tasks, in the `agent_claims` table: locks that expire.
use vstd::prelude::*;

use crate::domain::Actor;
use crate::error::{CoreError, ErrorView};
use crate::events::{Event, EventEnvelope};
use crate::ids::{
    id_fault, id_parsed, id_text, id_value, opt_id_fault, opt_id_value, parse_id, parse_opt_id,
    print_id, read_id, AgentId, ClaimId, EventId, PlanId, ProjectId, RunId, TaskId,
};
use crate::order::{
    lemma_before_irreflexive, lemma_before_total, lemma_before_transitive, text_before,
};
use crate::query::{sql_id, sql_opt_id, sql_text, sql_time, statement, Query, QueryView};
use crate::rows::{column, column_fault, has_opt_text, has_text, Column, Decode, Faults};
use crate::text::{concat2, opt_text, text_eq};
use crate::time::{
    is_delta, lemma_texts_sort_as_times, on_calendar, parse_ts, sum, time_after, ts_fault, ts_value,
    Timestamp,
};

verus! {

/// A live claim of an agent on a task.
#[derive(Clone, Copy, Debug, PartialEq, Eq, Structural)]
pub struct ActiveClaim {
    pub agent_id: AgentId,
    pub task_id: TaskId,
    pub acquired_at: Timestamp,
    pub expires_at: Timestamp,
    pub run_id: Option<RunId>,
    pub claim_id: ClaimId,
}

/// A claim as an agent makes it, on no run's behalf.
pub open spec fn made_claim(
    agent_id: AgentId,
    task_id: TaskId,
    acquired_at: Timestamp,
    expires_at: Timestamp,
    claim_id: ClaimId,
) -> ActiveClaim {
    ActiveClaim { agent_id, task_id, acquired_at, expires_at, run_id: None, claim_id }
}

/// What came of an attempt to claim a task.
#[derive(Clone, Copy, Debug, PartialEq, Eq, Structural)]
#[allow(inconsistent_fields)]
pub enum ClaimOutcome {
    /// The agent has the claim, anew or again.
    Acquired { expires_at: Timestamp, claim_id: ClaimId },
    /// Another agent has a live claim.
    Busy { holder: AgentId, expires_at: Timestamp },
}

/// What came of an attempt to claim a task that is noted in the log.
#[allow(inconsistent_fields)]
#[derive(Clone, Debug, PartialEq, Eq)]
pub enum RecordedClaimOutcome {
    Acquired { expires_at: Timestamp, claim_id: ClaimId, event: EventEnvelope },
    Busy { holder: AgentId, expires_at: Timestamp },
}

/// The claims.
#[derive(Clone, Copy, Debug)]
pub struct AgentClaimRepo;

pub const HOLDER_OF_TASK: &'static str = "SELECT agent_id, expires_at FROM agent_claims \
     WHERE task_id = ? AND expires_at >= ? \
     ORDER BY expires_at DESC LIMIT 1";

pub const OTHER_HOLDER: &'static str = "SELECT agent_id FROM agent_claims \
     WHERE task_id = ? AND expires_at >= ? AND agent_id <> ? \
     ORDER BY expires_at DESC LIMIT 1";

pub const HOLDERS: &'static str = "SELECT agent_id FROM agent_claims WHERE task_id = ? AND expires_at >= ?";

pub const LIST_ACTIVE: &'static str = "SELECT agent_id, task_id, acquired_at, expires_at, run_id, claim_id FROM agent_claims \
     WHERE expires_at >= ? ORDER BY acquired_at";

pub const LIST_ACTIVE_IN_PROJECT: &'static str = "SELECT agent_id, task_id, acquired_at, expires_at, run_id, claim_id FROM agent_claims \
     WHERE expires_at >= ? AND EXISTS ( \
     SELECT 1 FROM tasks \
     WHERE tasks.id = agent_claims.task_id AND tasks.project_id = ?) \
     ORDER BY acquired_at";

pub const ACQUIRE_UNTIL: &'static str = "INSERT INTO agent_claims \
     (agent_id, task_id, acquired_at, expires_at, claim_id) \
     SELECT ?, ?, ?, ?, ? \
     WHERE ? > ? AND NOT EXISTS ( \
     SELECT 1 FROM agent_claims \
     WHERE task_id = ? AND expires_at >= ? AND agent_id <> ? \
     ) \
     ON CONFLICT(agent_id, task_id) DO UPDATE SET \
     acquired_at = excluded.acquired_at, expires_at = excluded.expires_at \
     WHERE agent_claims.claim_id = excluded.claim_id";

pub const ACQUIRE: &'static str = "INSERT OR REPLACE INTO agent_claims \
     (agent_id, task_id, acquired_at, expires_at, claim_id) VALUES (?, ?, ?, ?, ?)";

pub const TRY_ACQUIRE: &'static str = "INSERT INTO agent_claims \
     (agent_id, task_id, acquired_at, expires_at, run_id, claim_id) \
     SELECT ?, ?, ?, ?, NULL, ? \
     WHERE NOT EXISTS ( \
     SELECT 1 FROM agent_claims \
     WHERE task_id = ? AND expires_at >= ? AND agent_id <> ? \
     ) \
     ON CONFLICT(agent_id, task_id) DO UPDATE SET \
     acquired_at = excluded.acquired_at, \
     expires_at  = excluded.expires_at, \
     run_id      = CASE \
     WHEN agent_claims.expires_at >= ? THEN agent_claims.run_id \
     ELSE NULL \
     END, \
     claim_id    = excluded.claim_id";

pub const ACQUIRE_BOUND: &'static str = "INSERT INTO agent_claims \
     (agent_id, task_id, acquired_at, expires_at, run_id, claim_id) \
     SELECT ?, ?, ?, ?, ?, ? \
     WHERE NOT EXISTS ( \
     SELECT 1 FROM agent_claims \
     WHERE task_id = ? AND expires_at >= ? AND agent_id <> ? \
     ) \
     ON CONFLICT(agent_id, task_id) DO UPDATE SET \
     acquired_at = excluded.acquired_at, \
     expires_at  = excluded.expires_at, \
     run_id      = CASE \
     WHEN agent_claims.expires_at >= ? AND excluded.run_id IS NULL \
     THEN agent_claims.run_id \
     ELSE excluded.run_id \
     END, \
     claim_id    = excluded.claim_id";

pub const RUN_ASSIGNMENT: &'static str = "SELECT r.plan_id, r.status, p.status AS plan_status, \
     o.agent_id AS owner_agent_id \
     FROM runs r JOIN plans p ON p.id = r.plan_id \
     LEFT JOIN run_claim_owners o ON o.run_id = r.id WHERE r.id = ?";

pub const INSERT_RUN_OWNER: &'static str = "INSERT INTO run_claim_owners (run_id, agent_id) VALUES (?, ?)";

pub const DELETE_RUN_OWNER: &'static str = "DELETE FROM run_claim_owners WHERE run_id = ?";

pub const RUN_TO_END: &'static str = "SELECT r.status, r.agent_id AS run_agent_id, r.started_at, \
     o.agent_id AS owner_agent_id \
     FROM runs r LEFT JOIN run_claim_owners o ON o.run_id = r.id \
     WHERE r.id = ?";

pub const END_RUN: &'static str = "UPDATE runs SET status = ?, ended_at = ?, outcome = ? \
     WHERE id = ? AND status = 'active'";

pub const CLAIMS_OF_RUN: &'static str = "SELECT agent_id, task_id, claim_id FROM agent_claims WHERE run_id = ?";

pub const CLAIMS_OF_OLD_RUN: &'static str = "SELECT agent_id, task_id, claim_id FROM agent_claims ac \
     WHERE ac.run_id = ? OR ( \
     ac.run_id IS NULL AND ac.agent_id = ? AND ac.acquired_at >= ? AND EXISTS ( \
     SELECT 1 FROM run_steps rs WHERE rs.run_id = ? \
     AND rs.task_id = ac.task_id AND rs.finished_at IS NULL \
     ) \
     )";

pub const DELETE_CLAIM: &'static str = "DELETE FROM agent_claims \
     WHERE agent_id = ? AND task_id = ? AND claim_id = ?";

pub const TOUCH_PLAN: &'static str = "UPDATE plans SET updated_at = updated_at WHERE id = ?";

pub const ACTIVE_RUNS_OF_PLAN: &'static str = "SELECT id FROM runs WHERE plan_id = ? AND status = 'active'";

pub const TOUCH_CLAIMS_OF_TASK: &'static str = "UPDATE agent_claims SET expires_at = expires_at WHERE task_id = ?";

pub const CLAIMS_OF_TASK: &'static str = "SELECT agent_id, claim_id FROM agent_claims WHERE task_id = ?";

pub const RELEASE: &'static str = "DELETE FROM agent_claims WHERE agent_id = ? AND task_id = ?";

pub const EXPIRED: &'static str = "SELECT agent_id, task_id FROM agent_claims WHERE expires_at < ?";

pub const DELETE_EXPIRED: &'static str = "DELETE FROM agent_claims WHERE expires_at < ?";

pub const EXPIRED_GENERATIONS: &'static str = "SELECT agent_id, task_id, claim_id FROM agent_claims WHERE expires_at < ?";

pub const DELETE_EXPIRED_GENERATION: &'static str = "DELETE FROM agent_claims \
     WHERE agent_id = ? AND task_id = ? AND claim_id = ? AND expires_at < ?";

// ── rows ────────────────────────────────────────────────────────────────────

/// A row of the `agent_claims` table.
#[derive(Debug, PartialEq, Eq)]
pub struct ActiveClaimRow {
    pub agent_id: Column<String>,
    pub task_id: Column<String>,
    pub acquired_at: Column<String>,
    pub expires_at: Column<String>,
    pub run_id: Column<Option<String>>,
    pub claim_id: Column<String>,
}

/// What is wrong with a claim row, where something is: the columns and their
/// values are looked at in this order.
pub open spec fn claim_fault(row: ActiveClaimRow) -> Option<ErrorView> {
    column_fault(row.agent_id).or_fault(
        column_fault(row.task_id),
    ).or_fault(
        column_fault(row.acquired_at),
    ).or_fault(
        column_fault(row.expires_at),
    ).or_fault(
        column_fault(row.run_id),
    ).or_fault(
        column_fault(row.claim_id),
    ).or_fault(
        id_fault::<AgentId>(row.agent_id->Ok_0@),
    ).or_fault(
        id_fault::<TaskId>(row.task_id->Ok_0@),
    ).or_fault(
        ts_fault(row.acquired_at->Ok_0@),
    ).or_fault(
        ts_fault(row.expires_at->Ok_0@),
    ).or_fault(
        opt_id_fault::<RunId>(row.run_id->Ok_0),
    ).or_fault(
        id_fault::<ClaimId>(row.claim_id->Ok_0@),
    )
}

/// The record is what a sound claim row says.
pub open spec fn claim_read(row: ActiveClaimRow, record: ActiveClaim) -> bool {
    &&& record.agent_id == id_value::<AgentId>(row.agent_id->Ok_0@)
    &&& record.task_id == id_value::<TaskId>(row.task_id->Ok_0@)
    &&& record.acquired_at == ts_value(row.acquired_at->Ok_0@)
    &&& record.expires_at == ts_value(row.expires_at->Ok_0@)
    &&& record.run_id == opt_id_value::<RunId>(row.run_id->Ok_0)
    &&& record.claim_id == id_value::<ClaimId>(row.claim_id->Ok_0@)
}

/// Reads a claim from its row.
pub fn row_to_active_claim(row: ActiveClaimRow) -> (r: Result<ActiveClaim, CoreError>)
    ensures
        match claim_fault(row) {
            Some(e) => r is Err && r->Err_0@ == e,
            None => r is Ok && claim_read(row, r->Ok_0),
        },
{
    let agent_id = column(row.agent_id)?;
    let task_id = column(row.task_id)?;
    let acquired_at = column(row.acquired_at)?;
    let expires_at = column(row.expires_at)?;
    let run_id = column(row.run_id)?;
    let claim_id = column(row.claim_id)?;
    let agent_id = parse_id::<AgentId>(agent_id.as_str())?;
    let task_id = parse_id::<TaskId>(task_id.as_str())?;
    let acquired_at = parse_ts(acquired_at.as_str())?;
    let expires_at = parse_ts(expires_at.as_str())?;
    let run_id = parse_opt_id::<RunId>(&run_id)?;
    let claim_id = parse_id::<ClaimId>(claim_id.as_str())?;
    Ok(ActiveClaim {
        agent_id,
        task_id,
        acquired_at,
        expires_at,
        run_id,
        claim_id,
    })
}

impl Decode for ActiveClaimRow {
    type Record = ActiveClaim;

    open spec fn fault(&self) -> Option<ErrorView> {
        claim_fault(*self)
    }

    open spec fn holds(&self, record: ActiveClaim) -> bool {
        claim_read(*self, record)
    }

    fn decode(self) -> (r: Result<ActiveClaim, CoreError>) {
        row_to_active_claim(self)
    }
}

impl ActiveClaimRow {
    /// Each column of the row holds what is written for it of the claim, but for the run,
    /// which a renewed claim keeps.
    pub open spec fn stores_but_run(self, claim: ActiveClaim) -> bool {
        &&& has_text(self.agent_id, sql_id(claim.agent_id))
        &&& has_text(self.task_id, sql_id(claim.task_id))
        &&& has_text(self.acquired_at, sql_time(claim.acquired_at))
        &&& has_text(self.expires_at, sql_time(claim.expires_at))
        &&& self.run_id is Ok
        &&& has_text(self.claim_id, sql_id(claim.claim_id))
    }

    /// Each column of the row holds what is written for it of the claim.
    pub open spec fn stores(self, claim: ActiveClaim) -> bool {
        &&& self.stores_but_run(claim)
        &&& has_opt_text(self.run_id, sql_opt_id(claim.run_id))
    }
}

impl ActiveClaim {
    /// Every point in time of the claim has an RFC 3339 text that reads back.
    pub open spec fn is_plain(self) -> bool {
        &&& self.acquired_at.is_plain()
        &&& self.expires_at.is_plain()
    }

    /// What a row stores of the claim reads back: the claim itself, and with another run
    /// where the row has kept one.
    pub open spec fn reads_back(self) -> bool {
        &&& forall|row: ActiveClaimRow| #[trigger]
            row.stores(self) ==> claim_fault(row) is None && forall|record: ActiveClaim|
                claim_read(row, record) ==> record == self
        &&& forall|row: ActiveClaimRow| #[trigger]
            row.stores_but_run(self) ==> claim_fault(row) == opt_id_fault::<RunId>(
                row.run_id->Ok_0,
            ) && forall|record: ActiveClaim|
                claim_read(row, record) ==> record == (ActiveClaim {
                    run_id: opt_id_value::<RunId>(row.run_id->Ok_0),
                    ..self
                })
    }
}

/// A row of a claim's holder.
#[derive(Debug, PartialEq, Eq)]
pub struct HolderRow {
    pub agent_id: Column<String>,
    pub expires_at: Column<String>,
}

impl Decode for HolderRow {
    type Record = (AgentId, Timestamp);

    open spec fn fault(&self) -> Option<ErrorView> {
        column_fault(self.agent_id).or_fault(column_fault(self.expires_at)).or_fault(
            id_fault::<AgentId>(self.agent_id->Ok_0@),
        ).or_fault(ts_fault(self.expires_at->Ok_0@))
    }

    open spec fn holds(&self, record: (AgentId, Timestamp)) -> bool {
        record.0 == id_value::<AgentId>(self.agent_id->Ok_0@) && record.1 == ts_value(
            self.expires_at->Ok_0@,
        )
    }

    fn decode(self) -> (r: Result<(AgentId, Timestamp), CoreError>) {
        let agent_id = column(self.agent_id)?;
        let expires_at = column(self.expires_at)?;
        let agent_id = parse_id::<AgentId>(agent_id.as_str())?;
        let expires_at = parse_ts(expires_at.as_str())?;
        Ok((agent_id, expires_at))
    }
}

/// A row of an agent's identifier.
#[derive(Debug, PartialEq, Eq)]
pub struct AgentIdRow {
    pub agent_id: Column<String>,
}

impl Decode for AgentIdRow {
    type Record = AgentId;

    open spec fn fault(&self) -> Option<ErrorView> {
        column_fault(self.agent_id).or_fault(id_fault::<AgentId>(self.agent_id->Ok_0@))
    }

    open spec fn holds(&self, record: AgentId) -> bool {
        record == id_value::<AgentId>(self.agent_id->Ok_0@)
    }

    fn decode(self) -> (r: Result<AgentId, CoreError>) {
        let agent_id = column(self.agent_id)?;
        parse_id::<AgentId>(agent_id.as_str())
    }
}

/// A row of an expired claim.
#[derive(Debug, PartialEq, Eq)]
pub struct ExpiredRow {
    pub agent_id: Column<String>,
    pub task_id: Column<String>,
}

impl Decode for ExpiredRow {
    type Record = (AgentId, TaskId);

    open spec fn fault(&self) -> Option<ErrorView> {
        column_fault(self.agent_id).or_fault(column_fault(self.task_id)).or_fault(
            id_fault::<AgentId>(self.agent_id->Ok_0@),
        ).or_fault(id_fault::<TaskId>(self.task_id->Ok_0@))
    }

    open spec fn holds(&self, record: (AgentId, TaskId)) -> bool {
        record.0 == id_value::<AgentId>(self.agent_id->Ok_0@) && record.1 == id_value::<TaskId>(
            self.task_id->Ok_0@,
        )
    }

    fn decode(self) -> (r: Result<(AgentId, TaskId), CoreError>) {
        let agent_id = column(self.agent_id)?;
        let task_id = column(self.task_id)?;
        let agent_id = parse_id::<AgentId>(agent_id.as_str())?;
        let task_id = parse_id::<TaskId>(task_id.as_str())?;
        Ok((agent_id, task_id))
    }
}

/// A row of a claim's key: whose it is, on what, and which generation.
#[derive(Debug, PartialEq, Eq)]
pub struct ClaimKeyRow {
    pub agent_id: Column<String>,
    pub task_id: Column<String>,
    pub claim_id: Column<String>,
}

/// A claim's key as the database has it.
#[derive(Clone, Debug, PartialEq, Eq)]
pub struct ClaimKey {
    pub agent_id: String,
    pub task_id: String,
    pub claim_id: String,
}

impl Decode for ClaimKeyRow {
    type Record = ClaimKey;

    open spec fn fault(&self) -> Option<ErrorView> {
        column_fault(self.agent_id).or_fault(column_fault(self.task_id)).or_fault(
            column_fault(self.claim_id),
        )
    }

    open spec fn holds(&self, record: ClaimKey) -> bool {
        &&& record.agent_id == self.agent_id->Ok_0
        &&& record.task_id == self.task_id->Ok_0
        &&& record.claim_id == self.claim_id->Ok_0
    }

    fn decode(self) -> (r: Result<ClaimKey, CoreError>) {
        let agent_id = column(self.agent_id)?;
        let task_id = column(self.task_id)?;
        let claim_id = column(self.claim_id)?;
        Ok(ClaimKey { agent_id, task_id, claim_id })
    }
}

/// The release of a claim.
pub open spec fn release_of(agent_id: AgentId, task_id: TaskId, claim_id: ClaimId) -> Event {
    Event::AgentReleased { agent_id, task_id, claim_id: Some(claim_id) }
}

impl ClaimKey {
    /// The statement that deletes exactly this generation of the claim.
    pub open spec fn deletion(self) -> QueryView {
        statement(
            DELETE_CLAIM@,
            seq![sql_text(self.agent_id@), sql_text(self.task_id@), sql_text(self.claim_id@)],
        )
    }

    /// Why the key is none of a claim: its parts are read in this order.
    pub open spec fn fault(self) -> Option<ErrorView> {
        id_fault::<AgentId>(self.agent_id@).or_fault(id_fault::<TaskId>(self.task_id@)).or_fault(
            id_fault::<ClaimId>(self.claim_id@),
        )
    }

    /// The event that tells of the claim's release, where the key is one of a claim.
    pub open spec fn release(self) -> Event {
        release_of(
            id_value::<AgentId>(self.agent_id@),
            id_value::<TaskId>(self.task_id@),
            id_value::<ClaimId>(self.claim_id@),
        )
    }

    /// The statement that deletes exactly this generation of the claim.
    pub fn delete(&self) -> (q: Query)
        ensures
            q@ == self.deletion(),
    {
        Query::new(DELETE_CLAIM).text(self.agent_id.as_str()).text(self.task_id.as_str()).text(
            self.claim_id.as_str(),
        )
    }

    /// The event that tells of the claim's release.
    pub fn release_event(&self) -> (r: Result<Event, CoreError>)
        ensures
            match self.fault() {
                Some(e) => r is Err && r->Err_0@ == e,
                None => r is Ok && r->Ok_0 == self.release(),
            },
    {
        let agent_id = parse_id::<AgentId>(self.agent_id.as_str())?;
        let task_id = parse_id::<TaskId>(self.task_id.as_str())?;
        let claim_id = parse_id::<ClaimId>(self.claim_id.as_str())?;
        Ok(Event::AgentReleased { agent_id, task_id, claim_id: Some(claim_id) })
    }
}

/// Claims that are to be deleted one by one, and those that have been.
#[derive(Debug, PartialEq, Eq)]
pub struct Deletions {
    pub rows: Vec<ClaimKeyRow>,
    pub released: Vec<ClaimKey>,
}

/// The next step of a list of deletions.
#[derive(Debug, PartialEq, Eq)]
pub enum DeletionStep {
    /// Delete this claim, and hand the number of deleted rows to [`Deletions::deleted`].
    Delete { key: ClaimKey, delete: Query, rest: Deletions },
    /// All have been tried: these claims were released.
    Done { released: Vec<ClaimKey> },
}

impl Deletions {
    /// The next step: the first of the claims that are left.
    pub fn next(self) -> (r: Result<DeletionStep, CoreError>)
        ensures
            self.rows@.len() == 0 ==> r is Ok && r->Ok_0 == (DeletionStep::Done {
                released: self.released,
            }),
            self.rows@.len() > 0 ==> match self.rows@[0].fault() {
                Some(e) => r is Err && r->Err_0@ == e,
                None => r is Ok && r->Ok_0 is Delete && self.rows@[0].holds(r->Ok_0->Delete_key)
                    && r->Ok_0->Delete_delete@ == r->Ok_0->Delete_key.deletion()
                    && r->Ok_0->Delete_rest.rows@ == self.rows@.drop_first()
                    && r->Ok_0->Delete_rest.released == self.released,
            },
    {
        let mut rows = self.rows;
        if rows.len() == 0 {
            return Ok(DeletionStep::Done { released: self.released });
        }
        let row = rows.remove(0);
        assert(rows@ =~= self.rows@.drop_first());
        let key = row.decode()?;
        let delete = key.delete();
        Ok(DeletionStep::Delete { key, delete, rest: Deletions { rows, released: self.released } })
    }

    /// Notes what came of a deletion: the claim was released if its row was deleted. A
    /// generation that took its place meanwhile is not deleted, and not released. So what
    /// has been released are those keys, of all that were tried, whose own row was deleted.
    pub fn deleted(self, key: ClaimKey, rows_affected: u64) -> (r: Deletions)
        ensures
            r.rows == self.rows,
            r.released@ == if rows_affected == 1 {
                self.released@.push(key)
            } else {
                self.released@
            },
            forall|keys: Seq<ClaimKey>, replies: Seq<u64>|
                #![trigger released_of(keys, replies)]
                self.released@ == released_of(keys, replies) && keys.len() == replies.len()
                    ==> r.released@ == released_of(keys.push(key), replies.push(rows_affected)),
    {
        let mut released = self.released;
        if rows_affected == 1 {
            released.push(key);
        }
        proof {
            assert forall|keys: Seq<ClaimKey>, replies: Seq<u64>|
                #![trigger released_of(keys, replies)]
                self.released@ == released_of(keys, replies) && keys.len()
                    == replies.len() implies released@ == released_of(
                keys.push(key),
                replies.push(rows_affected),
            ) by {
                assert(keys.push(key).drop_last() =~= keys);
                assert(replies.push(rows_affected).drop_last() =~= replies);
            }
        }
        Deletions { rows: self.rows, released }
    }
}

/// What is left to write into the log at the end of a transaction: some events, and after
/// them the release of each claim that was released with them.
#[derive(Debug, PartialEq, Eq)]
pub struct Recording {
    pub envelopes: Vec<EventEnvelope>,
    pub released: Vec<ClaimKey>,
    pub persisted: Vec<EventEnvelope>,
}

/// The next step of a recording.
#[derive(Debug, PartialEq, Eq)]
pub enum RecordStep {
    /// Append this envelope, and hand it to [`Recording::appended`] as it was stored.
    Append { envelope: EventEnvelope, rest: Recording },
    /// All is written: commit, and report the events as they were stored.
    Commit { persisted: Vec<EventEnvelope> },
}

impl Recording {
    /// The events that are to be written, in order.
    pub open spec fn written(self) -> Seq<Event> {
        self.envelopes@.map_values(|envelope: EventEnvelope| envelope.payload)
            + self.released@.map_values(|key: ClaimKey| key.release())
    }

    /// A recording of some events and releases, of which nothing is written yet.
    pub fn new(envelopes: Vec<EventEnvelope>, released: Vec<ClaimKey>) -> (r: Recording)
        ensures
            r.envelopes == envelopes,
            r.released == released,
            r.persisted@.len() == 0,
    {
        Recording { envelopes, released, persisted: Vec::new() }
    }

    /// The next step: the first of the events that are left, and then the first of the
    /// releases, in an envelope of its own.
    pub fn next(self, actor: &Actor, id: EventId, now: Timestamp) -> (r: Result<
        RecordStep,
        CoreError,
    >)
        ensures
            if self.envelopes@.len() > 0 {
                r is Ok && r->Ok_0 is Append && r->Ok_0->Append_envelope == self.envelopes@[0]
                    && r->Ok_0->Append_rest.envelopes@ == self.envelopes@.drop_first()
                    && r->Ok_0->Append_rest.released == self.released
                    && r->Ok_0->Append_rest.persisted == self.persisted
            } else if self.released@.len() > 0 {
                match self.released@[0].fault() {
                    Some(e) => r is Err && r->Err_0@ == e,
                    None => r is Ok && r->Ok_0 is Append && r->Ok_0->Append_envelope == (
                    EventEnvelope {
                        id,
                        seq: 0,
                        occurred_at: now,
                        actor: *actor,
                        origin_device_id: None,
                        origin_seq: 0,
                        payload: self.released@[0].release(),
                    }) && r->Ok_0->Append_rest.envelopes == self.envelopes
                        && r->Ok_0->Append_rest.released@ == self.released@.drop_first()
                        && r->Ok_0->Append_rest.persisted == self.persisted,
                }
            } else {
                r is Ok && r->Ok_0 == (RecordStep::Commit { persisted: self.persisted })
            },
            r is Ok && r->Ok_0 is Append ==> self.written().len() > 0
                && r->Ok_0->Append_envelope.payload == self.written()[0]
                && r->Ok_0->Append_rest.written() == self.written().drop_first(),
            r is Ok && r->Ok_0 is Commit ==> self.written().len() == 0,
    {
        let mut envelopes = self.envelopes;
        let mut released = self.released;
        if envelopes.len() > 0 {
            let envelope = envelopes.remove(0);
            assert(envelopes@ =~= self.envelopes@.drop_first());
            let rest = Recording { envelopes, released, persisted: self.persisted };
            assert(rest.written() =~= self.written().drop_first());
            return Ok(RecordStep::Append { envelope, rest });
        }
        if released.len() > 0 {
            let key = released.remove(0);
            assert(released@ =~= self.released@.drop_first());
            let event = key.release_event()?;
            let rest = Recording { envelopes, released, persisted: self.persisted };
            assert(rest.written() =~= self.written().drop_first());
            let envelope = EventEnvelope::new(id, now, actor.clone(), event);
            return Ok(RecordStep::Append { envelope, rest });
        }
        Ok(RecordStep::Commit { persisted: self.persisted })
    }

    /// Notes an event as it was stored.
    pub fn appended(self, stored: EventEnvelope) -> (r: Recording)
        ensures
            r.envelopes == self.envelopes,
            r.released == self.released,
            r.persisted@ == self.persisted@.push(stored),
    {
        let mut persisted = self.persisted;
        persisted.push(stored);
        Recording { envelopes: self.envelopes, released: self.released, persisted }
    }
}

// ── claiming ────────────────────────────────────────────────────────────────

/// An attempt to claim a task, on behalf of a run where one is given.
#[derive(Clone, Debug, PartialEq, Eq)]
pub struct ClaimAttempt {
    pub agent_id: AgentId,
    pub task_id: TaskId,
    pub claim_id: ClaimId,
    pub expires_at: Timestamp,
    pub run: Option<(RunId, PlanId)>,
    pub now: Timestamp,
}

/// The first step of an attempt to claim a task.
#[derive(Clone, Debug, PartialEq, Eq)]
pub enum ClaimStep {
    /// Ask for the run and whether it may claim.
    CheckRun { select: Query },
    /// Claim the task, unless another agent has a live claim.
    Acquire { insert: Query },
}

/// The step of an attempt after the claim was tried.
#[derive(Clone, Debug, PartialEq, Eq)]
pub enum ClaimResult {
    /// The claim was made: append this event to the log.
    Append { event: Event },
    /// Another agent has the task: ask which one.
    AskHolder { select: Query },
}

/// A row of a run with its plan's state and its owner.
#[derive(Debug, PartialEq, Eq)]
pub struct RunAssignmentRow {
    pub plan_id: Column<String>,
    pub status: Column<String>,
    pub plan_status: Column<String>,
    pub owner_agent_id: Column<Option<String>>,
}

/// The error where a condition does not hold.
pub open spec fn unless(condition: bool, e: ErrorView) -> Option<ErrorView> {
    if condition {
        None
    } else {
        Some(e)
    }
}

/// Why a run may not claim for its owner: there must be such a run, it and its plan must
/// be active, and it must belong to the agent.
pub open spec fn assignment_fault(
    row: Option<RunAssignmentRow>,
    run_id: Seq<char>,
    owner_agent_id: Seq<char>,
) -> Option<ErrorView> {
    match row {
        None => Some(ErrorView::NotFound("run "@ + run_id)),
        Some(row) => column_fault(row.plan_id).or_fault(column_fault(row.status)).or_fault(
            unless(
                row.status->Ok_0@ == "active"@,
                ErrorView::Conflict("run is not active"@),
            ),
        ).or_fault(column_fault(row.plan_status)).or_fault(
            unless(
                row.plan_status->Ok_0@ == "active"@,
                ErrorView::Conflict("run plan is not active"@),
            ),
        ).or_fault(column_fault(row.owner_agent_id)).or_fault(
            unless(
                opt_text(row.owner_agent_id->Ok_0) == Some(owner_agent_id),
                ErrorView::Forbidden("run has no matching authenticated owner"@),
            ),
        ),
    }
}

/// The plan of a run that may claim for its owner.
pub fn validated_run_plan_id(
    row: Option<RunAssignmentRow>,
    run_id: &str,
    owner_agent_id: &str,
) -> (r: Result<String, CoreError>)
    ensures
        match assignment_fault(row, run_id@, owner_agent_id@) {
            Some(e) => r is Err && r->Err_0@ == e,
            None => r is Ok && row is Some && r->Ok_0 == row->Some_0.plan_id->Ok_0,
        },
{
    match row {
        None => Err(CoreError::NotFound(concat2("run ", run_id))),
        Some(row) => {
            let plan_id = column(row.plan_id)?;
            let status = column(row.status)?;
            if !text_eq(status.as_str(), "active") {
                return Err(CoreError::conflict("run is not active"));
            }
            let plan_status = column(row.plan_status)?;
            if !text_eq(plan_status.as_str(), "active") {
                return Err(CoreError::conflict("run plan is not active"));
            }
            let owner = column(row.owner_agent_id)?;
            let owned = match &owner {
                Some(owner) => text_eq(owner.as_str(), owner_agent_id),
                None => false,
            };
            if !owned {
                return Err(CoreError::forbidden("run has no matching authenticated owner"));
            }
            Ok(plan_id)
        },
    }
}

/// Why a run may not claim for its owner on a plan: it must be a run of that plan, too.
pub open spec fn plan_assignment_fault(
    row: Option<RunAssignmentRow>,
    run_id: RunId,
    owner_agent_id: AgentId,
    plan_id: Seq<char>,
) -> Option<ErrorView> {
    assignment_fault(row, id_text(run_id), id_text(owner_agent_id)).or_fault(
        unless(
            row is Some && row->Some_0.plan_id->Ok_0@ == plan_id,
            ErrorView::Conflict("run belongs to a different plan"@),
        ),
    )
}

impl ClaimAttempt {
    /// The statement that claims the task, unless another agent has a live claim. An
    /// agent's own claim is renewed as a new generation, and keeps its run while it lives.
    pub open spec fn insertion(self) -> QueryView {
        statement(
            ACQUIRE_BOUND@,
            seq![
                sql_id(self.agent_id),
                sql_id(self.task_id),
                sql_time(self.now),
                sql_time(self.expires_at),
                sql_opt_id(self.run_of()),
                sql_id(self.claim_id),
                sql_id(self.task_id),
                sql_time(self.now),
                sql_id(self.agent_id),
                sql_time(self.now),
            ],
        )
    }

    /// The run on whose behalf the task is claimed.
    pub open spec fn run_of(self) -> Option<RunId> {
        match self.run {
            Some(run) => Some(run.0),
            None => None,
        }
    }

    /// The claim that the attempt makes.
    pub open spec fn made(self) -> ActiveClaim {
        ActiveClaim {
            agent_id: self.agent_id,
            task_id: self.task_id,
            acquired_at: self.now,
            expires_at: self.expires_at,
            run_id: self.run_of(),
            claim_id: self.claim_id,
        }
    }

    fn insert(&self) -> (q: Query)
        ensures
            q@ == self.insertion(),
            self.made().is_plain() ==> self.made().reads_back(),
            self.now.is_plain() ==> self.now.sorts_as_text(),
    {
        let run_id = match self.run {
            Some((run_id, _)) => Some(run_id),
            None => None,
        };
        Query::new(ACQUIRE_BOUND)
            .id(&self.agent_id)
            .id(&self.task_id)
            .time(&self.now)
            .time(&self.expires_at)
            .opt_id(&run_id)
            .id(&self.claim_id)
            .id(&self.task_id)
            .time(&self.now)
            .id(&self.agent_id)
            .time(&self.now)
    }

    /// The first step of the attempt: the check of its run, where it has one. The claim
    /// that it makes reads back.
    pub fn start(&self) -> (r: ClaimStep)
        ensures
            match self.run {
                Some(run) => r matches ClaimStep::CheckRun { select } && select@ == statement(
                    RUN_ASSIGNMENT@,
                    seq![sql_id(run.0)],
                ),
                None => r matches ClaimStep::Acquire { insert } && insert@ == self.insertion(),
            },
            r is Acquire && self.made().is_plain() ==> self.made().reads_back(),
            r is Acquire && self.now.is_plain() ==> self.now.sorts_as_text(),
    {
        match &self.run {
            Some(run) => ClaimStep::CheckRun { select: Query::new(RUN_ASSIGNMENT).id(&run.0) },
            None => ClaimStep::Acquire { insert: self.insert() },
        }
    }

    /// The statement that claims the task for a run, once the run has been looked up. The
    /// claim that it makes reads back.
    pub fn after_check(&self, row: Option<RunAssignmentRow>) -> (r: Result<Query, CoreError>)
        requires
            self.run is Some,
        ensures
            match plan_assignment_fault(
                row,
                self.run->Some_0.0,
                self.agent_id,
                id_text(self.run->Some_0.1),
            ) {
                Some(e) => r is Err && r->Err_0@ == e,
                None => r is Ok && r->Ok_0@ == self.insertion(),
            },
            r is Ok && self.made().is_plain() ==> self.made().reads_back(),
            r is Ok && self.now.is_plain() ==> self.now.sorts_as_text(),
    {
        if let Some(run) = &self.run {
            let plan_id = validated_run_plan_id(
                row,
                print_id(&run.0).as_str(),
                print_id(&self.agent_id).as_str(),
            )?;
            if !text_eq(plan_id.as_str(), print_id(&run.1).as_str()) {
                return Err(CoreError::conflict("run belongs to a different plan"));
            }
        }
        Ok(self.insert())
    }

    /// The step after the claim was tried: one changed row means that it was made.
    pub fn after_acquire(&self, rows_affected: u64) -> (r: ClaimResult)
        ensures
            if rows_affected == 1 {
                r matches ClaimResult::Append { event } && event == (Event::AgentClaimed {
                    agent_id: self.agent_id,
                    task_id: self.task_id,
                    claim_id: Some(self.claim_id),
                    expires_at: self.expires_at,
                })
            } else {
                r matches ClaimResult::AskHolder { select } && select@ == statement(
                    HOLDER_OF_TASK@,
                    seq![sql_id(self.task_id), sql_time(self.now)],
                )
            },
    {
        if rows_affected == 1 {
            ClaimResult::Append {
                event: Event::AgentClaimed {
                    agent_id: self.agent_id,
                    task_id: self.task_id,
                    claim_id: Some(self.claim_id),
                    expires_at: self.expires_at,
                },
            }
        } else {
            ClaimResult::AskHolder { select: AgentClaimRepo::is_claimed(&self.task_id, &self.now) }
        }
    }

    /// The outcome of an attempt that made the claim and noted it.
    pub fn acquired(&self, event: EventEnvelope) -> (r: RecordedClaimOutcome)
        ensures
            r == (RecordedClaimOutcome::Acquired {
                expires_at: self.expires_at,
                claim_id: self.claim_id,
                event,
            }),
    {
        RecordedClaimOutcome::Acquired {
            expires_at: self.expires_at,
            claim_id: self.claim_id,
            event,
        }
    }

    /// The outcome of an attempt that did not make the claim: who holds it. Where no one
    /// does any more, the attempt is reported as its own obstacle, to be tried again.
    pub fn busy(&self, found: Option<HolderRow>) -> (r: Result<RecordedClaimOutcome, CoreError>)
        ensures
            match found {
                Some(row) => match column_fault(row.agent_id).or_fault(
                    id_fault::<AgentId>(row.agent_id->Ok_0@),
                ).or_fault(column_fault(row.expires_at)).or_fault(
                    ts_fault(row.expires_at->Ok_0@),
                ) {
                    Some(e) => r is Err && r->Err_0@ == e,
                    None => r is Ok && r->Ok_0 == (RecordedClaimOutcome::Busy {
                        holder: id_value::<AgentId>(row.agent_id->Ok_0@),
                        expires_at: ts_value(row.expires_at->Ok_0@),
                    }),
                },
                None => r is Ok && r->Ok_0 == (RecordedClaimOutcome::Busy {
                    holder: self.agent_id,
                    expires_at: self.expires_at,
                }),
            },
    {
        match found {
            Some(row) => {
                let agent_id = column(row.agent_id)?;
                let holder = parse_id::<AgentId>(agent_id.as_str())?;
                let expires_at = column(row.expires_at)?;
                let expires_at = parse_ts(expires_at.as_str())?;
                Ok(RecordedClaimOutcome::Busy { holder, expires_at })
            },
            None => Ok(
                RecordedClaimOutcome::Busy { holder: self.agent_id, expires_at: self.expires_at },
            ),
        }
    }
}

// ── ends of runs, plans and tasks ───────────────────────────────────────────

/// The end of a run, as the log tells it.
#[derive(Clone, Debug, PartialEq, Eq)]
pub struct RunEnd {
    pub run_id: RunId,
    pub status: &'static str,
    pub ended_at: Timestamp,
    pub outcome: String,
}

/// The event is the failure or the abortion of a run.
pub open spec fn ends_run(event: Event) -> bool {
    event is RunFailed || event is RunAborted
}

impl RunEnd {
    /// The end is the one that the event tells of.
    pub open spec fn tells(self, event: Event) -> bool {
        match event {
            Event::RunFailed { run_id, reason, at } => self.run_id == run_id && self.status@
                == "failed"@ && self.ended_at == at && self.outcome == reason,
            Event::RunAborted { run_id, reason, at } => self.run_id == run_id && self.status@
                == "aborted"@ && self.ended_at == at && self.outcome == reason,
            _ => false,
        }
    }

    /// The end of a run that a list of events tells of first.
    pub fn find(envelopes: &Vec<EventEnvelope>) -> (r: Result<RunEnd, CoreError>)
        ensures
            match r {
                Ok(end) => exists|i: int|
                    0 <= i < envelopes@.len() && end.tells((#[trigger] envelopes@[i]).payload)
                        && forall|j: int|
                        0 <= j < i ==> !ends_run((#[trigger] envelopes@[j]).payload),
                Err(e) => e@ == ErrorView::Validation("expected failed or aborted run event"@),
            },
            r is Err <==> forall|i: int|
                0 <= i < envelopes@.len() ==> !ends_run((#[trigger] envelopes@[i]).payload),
            (exists|i: int|
                0 <= i < envelopes@.len() && ((#[trigger] envelopes@[i]).payload is RunFailed
                    || envelopes@[i].payload is RunAborted)) ==> r is Ok,
    {
        let mut i: usize = 0;
        while i < envelopes.len()
            invariant
                i <= envelopes@.len(),
                forall|j: int| 0 <= j < i ==> !ends_run((#[trigger] envelopes@[j]).payload),
            decreases envelopes@.len() - i,
        {
            match &envelopes[i].payload {
                Event::RunFailed { run_id, reason, at } => {
                    let end = RunEnd {
                        run_id: *run_id,
                        status: "failed",
                        ended_at: *at,
                        outcome: reason.clone(),
                    };
                    assert(end.tells(envelopes@[i as int].payload));
                    return Ok(end);
                },
                Event::RunAborted { run_id, reason, at } => {
                    let end = RunEnd {
                        run_id: *run_id,
                        status: "aborted",
                        ended_at: *at,
                        outcome: reason.clone(),
                    };
                    assert(end.tells(envelopes@[i as int].payload));
                    return Ok(end);
                },
                _ => {},
            }
            i = i + 1;
        }
        Err(CoreError::validation("expected failed or aborted run event"))
    }

    /// The statement that ends the run, unless it has ended.
    pub open spec fn ending(self) -> QueryView {
        statement(
            END_RUN@,
            seq![
                sql_text(self.status@),
                sql_time(self.ended_at),
                sql_text(self.outcome@),
                sql_id(self.run_id),
            ],
        )
    }

    /// The statement that ends the run, unless it has ended.
    pub fn end(&self) -> (q: Query)
        ensures
            q@ == self.ending(),
    {
        Query::new(END_RUN).text(self.status).time(&self.ended_at).text(self.outcome.as_str()).id(
            &self.run_id,
        )
    }

    /// The statement that takes the run from its owner.
    pub fn disown(&self) -> (q: Query)
        ensures
            q@ == statement(DELETE_RUN_OWNER@, seq![sql_id(self.run_id)]),
    {
        Query::new(DELETE_RUN_OWNER).id(&self.run_id)
    }
}

/// A row of a run that is to end.
#[derive(Debug, PartialEq, Eq)]
pub struct RunToEndRow {
    pub status: Column<String>,
    pub run_agent_id: Column<String>,
    pub started_at: Column<String>,
    pub owner_agent_id: Column<Option<String>>,
}

/// Why an agent may not end a run: there must be such a run, it must be active, and it
/// must belong to the agent. An administrator may end any active run.
pub open spec fn run_end_fault(
    row: Option<RunToEndRow>,
    run_id: RunId,
    agent_id: AgentId,
    is_admin: bool,
) -> Option<ErrorView> {
    match row {
        None => Some(ErrorView::NotFound("run "@ + id_text(run_id))),
        Some(row) => column_fault(row.status).or_fault(
            unless(
                row.status->Ok_0@ == "active"@,
                ErrorView::Conflict("run is not active"@),
            ),
        ).or_fault(column_fault(row.owner_agent_id)).or_fault(
            match row.owner_agent_id->Ok_0 {
                Some(owner) => unless(
                    is_admin || owner@ == id_text(agent_id),
                    ErrorView::Forbidden("run is owned by another agent"@),
                ),
                None => unless(
                    is_admin,
                    ErrorView::Forbidden("run has no authenticated owner"@),
                ),
            },
        ),
    }
}

/// A run that may be ended, as it was found.
#[derive(Debug, PartialEq, Eq)]
pub struct RunToEnd {
    pub has_owner: bool,
    pub run_agent_id: Column<String>,
    pub started_at: Column<String>,
}

/// The run that an agent may end.
pub fn authorize_run_end(
    row: Option<RunToEndRow>,
    run_id: &RunId,
    agent_id: &AgentId,
    is_admin: bool,
) -> (r: Result<RunToEnd, CoreError>)
    ensures
        match run_end_fault(row, *run_id, *agent_id, is_admin) {
            Some(e) => r is Err && r->Err_0@ == e,
            None => r is Ok && row is Some && r->Ok_0 == (RunToEnd {
                has_owner: row->Some_0.owner_agent_id->Ok_0 is Some,
                run_agent_id: row->Some_0.run_agent_id,
                started_at: row->Some_0.started_at,
            }),
        },
{
    match row {
        None => Err(CoreError::NotFound(concat2("run ", print_id(run_id).as_str()))),
        Some(row) => {
            let status = column(row.status)?;
            if !text_eq(status.as_str(), "active") {
                return Err(CoreError::conflict("run is not active"));
            }
            let owner = column(row.owner_agent_id)?;
            match &owner {
                Some(owner) => {
                    if !is_admin && !text_eq(owner.as_str(), print_id(agent_id).as_str()) {
                        return Err(CoreError::forbidden("run is owned by another agent"));
                    }
                },
                None => {
                    if !is_admin {
                        return Err(CoreError::forbidden("run has no authenticated owner"));
                    }
                },
            }
            Ok(
                RunToEnd {
                    has_owner: owner.is_some(),
                    run_agent_id: row.run_agent_id,
                    started_at: row.started_at,
                },
            )
        },
    }
}

/// Refuses the end of a run that another one ended first.
pub fn check_run_ended(rows_affected: u64) -> (r: Result<(), CoreError>)
    ensures
        rows_affected == 1 ==> r is Ok,
        rows_affected != 1 ==> r is Err && r->Err_0@ == ErrorView::Conflict("run is not active"@),
{
    if rows_affected != 1 {
        Err(CoreError::conflict("run is not active"))
    } else {
        Ok(())
    }
}

impl RunToEnd {
    /// Why the claims of the run cannot be looked for: without an owner, the run's agent
    /// and time are needed.
    pub open spec fn claims_fault(self) -> Option<ErrorView> {
        if self.has_owner {
            None
        } else {
            column_fault(self.run_agent_id).or_fault(column_fault(self.started_at))
        }
    }

    /// The query for the claims that end with the run. Claims know their run; those of a
    /// run without an owner may be older than that, and are found by the run's agent, the
    /// run's time and its open steps.
    pub open spec fn claims_query(self, run_id: RunId) -> QueryView {
        if self.has_owner {
            statement(CLAIMS_OF_RUN@, seq![sql_id(run_id)])
        } else {
            statement(
                CLAIMS_OF_OLD_RUN@,
                seq![
                    sql_id(run_id),
                    sql_text(self.run_agent_id->Ok_0@),
                    sql_text(self.started_at->Ok_0@),
                    sql_id(run_id),
                ],
            )
        }
    }

    /// The query for the claims that end with the run.
    pub fn claims(self, run_id: &RunId) -> (r: Result<Query, CoreError>)
        ensures
            match self.claims_fault() {
                Some(e) => r is Err && r->Err_0@ == e,
                None => r is Ok && r->Ok_0@ == self.claims_query(*run_id),
            },
    {
        if self.has_owner {
            return Ok(Query::new(CLAIMS_OF_RUN).id(run_id));
        }
        let run_agent_id = column(self.run_agent_id)?;
        let started_at = column(self.started_at)?;
        Ok(
            Query::new(CLAIMS_OF_OLD_RUN).id(run_id).text(run_agent_id.as_str()).text(
                started_at.as_str(),
            ).id(run_id),
        )
    }
}

/// The end of a run by an agent, with the events that are recorded with it.
#[derive(Debug, PartialEq, Eq)]
pub struct RunTermination {
    pub end: RunEnd,
    pub agent_id: AgentId,
    pub is_admin: bool,
    pub envelopes: Vec<EventEnvelope>,
}

impl RunTermination {
    /// The first step: the query for the run.
    pub fn load(&self) -> (q: Query)
        ensures
            q@ == statement(RUN_TO_END@, seq![sql_id(self.end.run_id)]),
    {
        Query::new(RUN_TO_END).id(&self.end.run_id)
    }

    /// The step after the run was looked up, where the agent may end it: the statement
    /// that ends it.
    pub fn loaded(self, row: Option<RunToEndRow>) -> (r: Result<(Query, RunEnding), CoreError>)
        ensures
            match run_end_fault(row, self.end.run_id, self.agent_id, self.is_admin) {
                Some(e) => r is Err && r->Err_0@ == e,
                None => r is Ok && row is Some && r->Ok_0.0@ == self.end.ending()
                    && r->Ok_0.1.termination == self && r->Ok_0.1.run == (RunToEnd {
                    has_owner: row->Some_0.owner_agent_id->Ok_0 is Some,
                    run_agent_id: row->Some_0.run_agent_id,
                    started_at: row->Some_0.started_at,
                }),
            },
    {
        let run = authorize_run_end(row, &self.end.run_id, &self.agent_id, self.is_admin)?;
        let end = self.end.end();
        Ok((end, RunEnding { termination: self, run }))
    }
}

/// A run that is being ended.
#[derive(Debug, PartialEq, Eq)]
pub struct RunEnding {
    pub termination: RunTermination,
    pub run: RunToEnd,
}

impl RunEnding {
    /// The step after the run was ended, unless another one ended it first: the query for
    /// its claims.
    pub fn ended(self, rows_affected: u64) -> (r: Result<(Query, RunReleases), CoreError>)
        ensures
            if rows_affected != 1 {
                r is Err && r->Err_0@ == ErrorView::Conflict("run is not active"@)
            } else {
                match self.run.claims_fault() {
                    Some(e) => r is Err && r->Err_0@ == e,
                    None => r is Ok && r->Ok_0.0@ == self.run.claims_query(
                        self.termination.end.run_id,
                    ) && r->Ok_0.1.termination == self.termination,
                }
            },
    {
        check_run_ended(rows_affected)?;
        let claims = self.run.claims(&self.termination.end.run_id)?;
        Ok((claims, RunReleases { termination: self.termination }))
    }
}

/// A run that has ended and whose claims are being released.
#[derive(Debug, PartialEq, Eq)]
pub struct RunReleases {
    pub termination: RunTermination,
}

impl RunReleases {
    /// The deletions of the claims that were found.
    pub fn found(&self, claims: Vec<ClaimKeyRow>) -> (r: Deletions)
        ensures
            r.rows == claims,
            r.released@.len() == 0,
    {
        Deletions { rows: claims, released: Vec::new() }
    }

    /// The step after the deletions: the statement that takes the run from its owner, and
    /// what is then written into the log.
    pub fn released(self, released: Vec<ClaimKey>) -> (r: (Query, Recording))
        ensures
            r.0@ == statement(DELETE_RUN_OWNER@, seq![sql_id(self.termination.end.run_id)]),
            r.1.envelopes == self.termination.envelopes,
            r.1.released == released,
            r.1.persisted@.len() == 0,
    {
        let disown = self.termination.end.disown();
        (disown, Recording::new(self.termination.envelopes, released))
    }
}

/// The end of a plan, as the log tells it.
#[derive(Clone, Debug, PartialEq, Eq)]
pub struct PlanEnd {
    pub plan_id: PlanId,
    pub reason: &'static str,
    pub ended_at: Timestamp,
}

/// The event is the archival or the deletion of a plan.
pub open spec fn ends_plan(event: Event) -> bool {
    event is PlanArchived || event is PlanDeleted
}

impl PlanEnd {
    /// The end is the one that the event tells of.
    pub open spec fn tells(self, event: Event) -> bool {
        match event {
            Event::PlanArchived { plan_id, at } => self.plan_id == plan_id && self.reason@
                == "plan_archived"@ && self.ended_at == at,
            Event::PlanDeleted { plan_id, at } => self.plan_id == plan_id && self.reason@
                == "plan_deleted"@ && self.ended_at == at,
            _ => false,
        }
    }

    /// The end of a plan that a list of events tells of first.
    pub fn find(envelopes: &Vec<EventEnvelope>) -> (r: Result<PlanEnd, CoreError>)
        ensures
            match r {
                Ok(end) => exists|i: int|
                    0 <= i < envelopes@.len() && end.tells((#[trigger] envelopes@[i]).payload)
                        && forall|j: int|
                        0 <= j < i ==> !ends_plan((#[trigger] envelopes@[j]).payload),
                Err(e) => e@ == ErrorView::Validation("expected archived or deleted plan event"@),
            },
            r is Err <==> forall|i: int|
                0 <= i < envelopes@.len() ==> !ends_plan((#[trigger] envelopes@[i]).payload),
            (exists|i: int|
                0 <= i < envelopes@.len() && ((#[trigger] envelopes@[i]).payload is PlanArchived
                    || envelopes@[i].payload is PlanDeleted)) ==> r is Ok,
    {
        let mut i: usize = 0;
        while i < envelopes.len()
            invariant
                i <= envelopes@.len(),
                forall|j: int| 0 <= j < i ==> !ends_plan((#[trigger] envelopes@[j]).payload),
            decreases envelopes@.len() - i,
        {
            match &envelopes[i].payload {
                Event::PlanArchived { plan_id, at } => {
                    let end = PlanEnd { plan_id: *plan_id, reason: "plan_archived", ended_at: *at };
                    assert(end.tells(envelopes@[i as int].payload));
                    return Ok(end);
                },
                Event::PlanDeleted { plan_id, at } => {
                    let end = PlanEnd { plan_id: *plan_id, reason: "plan_deleted", ended_at: *at };
                    assert(end.tells(envelopes@[i as int].payload));
                    return Ok(end);
                },
                _ => {},
            }
            i = i + 1;
        }
        Err(CoreError::validation("expected archived or deleted plan event"))
    }

    /// The statement that aborts a run of the plan.
    pub open spec fn abortion(self, run_id: Seq<char>) -> QueryView {
        statement(
            END_RUN@,
            seq![
                sql_text("aborted"@),
                sql_time(self.ended_at),
                sql_text(self.reason@),
                sql_text(run_id),
            ],
        )
    }

    /// The statement that aborts a run of the plan.
    pub fn abort(&self, run_id: &str) -> (q: Query)
        ensures
            q@ == self.abortion(run_id@),
    {
        Query::new(END_RUN).text("aborted").time(&self.ended_at).text(self.reason).text(run_id)
    }

    /// The statement that takes a run of the plan from its owner.
    pub fn disown(&self, run_id: &str) -> (q: Query)
        ensures
            q@ == statement(DELETE_RUN_OWNER@, seq![sql_text(run_id@)]),
    {
        Query::new(DELETE_RUN_OWNER).text(run_id)
    }
}

/// The end of a plan, with the events that are recorded with it.
#[derive(Debug, PartialEq, Eq)]
pub struct PlanTermination {
    pub end: PlanEnd,
    pub envelopes: Vec<EventEnvelope>,
}

impl PlanTermination {
    /// The first step: the statement that locks the plan for writing, without changing it.
    pub fn touch(&self) -> (q: Query)
        ensures
            q@ == statement(TOUCH_PLAN@, seq![sql_id(self.end.plan_id)]),
    {
        Query::new(TOUCH_PLAN).id(&self.end.plan_id)
    }

    /// The second step: the query for the active runs of the plan.
    pub fn active_runs(&self) -> (q: Query)
        ensures
            q@ == statement(ACTIVE_RUNS_OF_PLAN@, seq![sql_id(self.end.plan_id)]),
    {
        Query::new(ACTIVE_RUNS_OF_PLAN).id(&self.end.plan_id)
    }

    /// The runs of the plan that are to be aborted, as they were found.
    pub fn found(self, runs: Vec<Column<String>>) -> (r: PlanRuns)
        ensures
            r.termination == self,
            r.runs == runs,
            r.released@.len() == 0,
    {
        PlanRuns { termination: self, runs, released: Vec::new() }
    }
}

/// The runs of a plan that are to be aborted one by one, and the claims that were released
/// with those that have been.
#[derive(Debug, PartialEq, Eq)]
pub struct PlanRuns {
    pub termination: PlanTermination,
    pub runs: Vec<Column<String>>,
    pub released: Vec<ClaimKey>,
}

/// The next step of the end of a plan.
#[derive(Debug, PartialEq, Eq)]
pub enum PlanRunStep {
    /// Ask for the claims of the next run, and go on with [`PlanRun::found`].
    Abort { claims: Query, run: PlanRun },
    /// All runs have been aborted: this is written into the log.
    Record { recording: Recording },
}

/// A run of a plan that is being aborted.
#[derive(Debug, PartialEq, Eq)]
pub struct PlanRun {
    pub run_id: String,
    pub rest: PlanRuns,
}

impl PlanRuns {
    /// The next step: the first of the runs that are left.
    pub fn next(self) -> (r: Result<PlanRunStep, CoreError>)
        ensures
            self.runs@.len() == 0 ==> r is Ok && r->Ok_0 is Record
                && r->Ok_0->Record_recording.envelopes == self.termination.envelopes
                && r->Ok_0->Record_recording.released == self.released
                && r->Ok_0->Record_recording.persisted@.len() == 0,
            self.runs@.len() > 0 ==> match column_fault(self.runs@[0]) {
                Some(e) => r is Err && r->Err_0@ == e,
                None => r is Ok && r->Ok_0 is Abort && r->Ok_0->Abort_claims@ == statement(
                    CLAIMS_OF_RUN@,
                    seq![sql_text(self.runs@[0]->Ok_0@)],
                ) && r->Ok_0->Abort_run.run_id == self.runs@[0]->Ok_0
                    && r->Ok_0->Abort_run.rest.termination == self.termination
                    && r->Ok_0->Abort_run.rest.runs@ == self.runs@.drop_first()
                    && r->Ok_0->Abort_run.rest.released == self.released,
            },
    {
        let mut runs = self.runs;
        if runs.len() == 0 {
            return Ok(
                PlanRunStep::Record {
                    recording: Recording::new(self.termination.envelopes, self.released),
                },
            );
        }
        let run_id = runs.remove(0);
        assert(runs@ =~= self.runs@.drop_first());
        let run_id = column(run_id)?;
        let claims = Query::new(CLAIMS_OF_RUN).text(run_id.as_str());
        assert(claims@.binds =~= seq![sql_text(self.runs@[0]->Ok_0@)]);
        let rest = PlanRuns { termination: self.termination, runs, released: self.released };
        Ok(PlanRunStep::Abort { claims, run: PlanRun { run_id, rest } })
    }
}

impl PlanRun {
    /// The step after the claims of the run were looked up: the statement that aborts the
    /// run, and then the deletions of its claims. What they release joins what the earlier
    /// runs released.
    pub fn found(self, claims: Vec<ClaimKeyRow>) -> (r: (Query, Deletions, PlanRunReleases))
        ensures
            r.0@ == self.rest.termination.end.abortion(self.run_id@),
            r.1 == (Deletions { rows: claims, released: self.rest.released }),
            r.2.run_id == self.run_id,
            r.2.termination == self.rest.termination,
            r.2.runs == self.rest.runs,
    {
        let abort = self.rest.termination.end.abort(self.run_id.as_str());
        (
            abort,
            Deletions { rows: claims, released: self.rest.released },
            PlanRunReleases {
                run_id: self.run_id,
                termination: self.rest.termination,
                runs: self.rest.runs,
            },
        )
    }
}

/// A run of a plan that has been aborted and whose claims are being released.
#[derive(Debug, PartialEq, Eq)]
pub struct PlanRunReleases {
    pub run_id: String,
    pub termination: PlanTermination,
    pub runs: Vec<Column<String>>,
}

impl PlanRunReleases {
    /// The step after the deletions: the statement that takes the run from its owner, and
    /// the runs that are left.
    pub fn released(self, released: Vec<ClaimKey>) -> (r: (Query, PlanRuns))
        ensures
            r.0@ == statement(DELETE_RUN_OWNER@, seq![sql_text(self.run_id@)]),
            r.1 == (PlanRuns { termination: self.termination, runs: self.runs, released }),
    {
        let disown = self.termination.end.disown(self.run_id.as_str());
        (disown, PlanRuns { termination: self.termination, runs: self.runs, released })
    }
}

/// The task whose claims end with an event.
pub open spec fn ended_task(event: Event) -> Option<TaskId> {
    match event {
        Event::TaskClosed { task_id, .. } => Some(task_id),
        Event::TaskDeleted { task_id } => Some(task_id),
        _ => None,
    }
}

/// The tasks whose claims end with some events, each once, in the order in which the
/// events come.
pub open spec fn ended_tasks(envelopes: Seq<EventEnvelope>) -> Seq<TaskId>
    decreases envelopes.len(),
{
    if envelopes.len() == 0 {
        seq![]
    } else {
        let before = ended_tasks(envelopes.drop_last());
        match ended_task(envelopes.last().payload) {
            Some(task_id) => if before.contains(task_id) {
                before
            } else {
                before.push(task_id)
            },
            None => before,
        }
    }
}

fn has_task(list: &Vec<TaskId>, id: TaskId) -> (r: bool)
    ensures
        r == list@.contains(id),
{
    let mut i: usize = 0;
    while i < list.len()
        invariant
            i <= list@.len(),
            forall|j: int| 0 <= j < i ==> list@[j] != id,
        decreases list@.len() - i,
    {
        if list[i] == id {
            assert(list@[i as int] == id);
            return true;
        }
        i = i + 1;
    }
    false
}

/// A claim of a task that ends: its holder and generation.
#[derive(Debug, PartialEq, Eq)]
pub struct TaskClaimRow {
    pub agent_id: Column<String>,
    pub claim_id: Column<String>,
}

impl TaskClaimRow {
    /// The row names the key of the claim on the given task.
    pub open spec fn is_on(self, task_id: TaskId, row: ClaimKeyRow) -> bool {
        &&& row.agent_id == self.agent_id
        &&& row.claim_id == self.claim_id
        &&& row.task_id is Ok
        &&& row.task_id->Ok_0@ == id_text(task_id)
    }

    /// The row of the key of the claim on the given task.
    pub fn on(self, task_id: &TaskId) -> (r: ClaimKeyRow)
        ensures
            self.is_on(*task_id, r),
            id_parsed::<TaskId>(r.task_id->Ok_0@) == Ok::<TaskId, Seq<char>>(*task_id),
    {
        ClaimKeyRow {
            agent_id: self.agent_id,
            task_id: Ok(print_id(task_id)),
            claim_id: self.claim_id,
        }
    }
}

/// Tasks whose claims end one by one, with the events that are recorded with it.
#[derive(Debug, PartialEq, Eq)]
pub struct TaskEnds {
    pub tasks: Vec<TaskId>,
    pub envelopes: Vec<EventEnvelope>,
    pub released: Vec<ClaimKey>,
}

/// The next step of the end of some tasks.
#[derive(Debug, PartialEq, Eq)]
pub enum TaskEndStep {
    /// Lock the claims of the next task for writing, ask for them, and go on with
    /// [`TaskEnd::found`].
    Release { touch: Query, claims: Query, task: TaskEnd },
    /// The claims of all tasks have been released: this is written into the log.
    Record { recording: Recording },
}

/// A task whose claims end.
#[derive(Debug, PartialEq, Eq)]
pub struct TaskEnd {
    pub task_id: TaskId,
    pub rest: TaskEnds,
}

impl TaskEnds {
    /// The next step: the first of the tasks that are left.
    pub fn next(self) -> (r: TaskEndStep)
        ensures
            if self.tasks@.len() > 0 {
                r is Release && r->Release_touch@ == statement(
                    TOUCH_CLAIMS_OF_TASK@,
                    seq![sql_id(self.tasks@[0])],
                ) && r->Release_claims@ == statement(
                    CLAIMS_OF_TASK@,
                    seq![sql_id(self.tasks@[0])],
                ) && r->Release_task.task_id == self.tasks@[0] && r->Release_task.rest.tasks@
                    == self.tasks@.drop_first() && r->Release_task.rest.envelopes == self.envelopes
                    && r->Release_task.rest.released == self.released
            } else {
                r is Record && r->Record_recording.envelopes == self.envelopes
                    && r->Record_recording.released == self.released
                    && r->Record_recording.persisted@.len() == 0
            },
    {
        let mut tasks = self.tasks;
        if tasks.len() == 0 {
            return TaskEndStep::Record {
                recording: Recording::new(self.envelopes, self.released),
            };
        }
        let task_id = tasks.remove(0);
        assert(tasks@ =~= self.tasks@.drop_first());
        let rest = TaskEnds { tasks, envelopes: self.envelopes, released: self.released };
        TaskEndStep::Release {
            touch: AgentClaimRepo::touch_claims(&task_id),
            claims: AgentClaimRepo::claims_of_task(&task_id),
            task: TaskEnd { task_id, rest },
        }
    }

    /// Goes on to the next task with what has been released so far.
    pub fn released(self, released: Vec<ClaimKey>) -> (r: TaskEnds)
        ensures
            r == (TaskEnds { tasks: self.tasks, envelopes: self.envelopes, released }),
    {
        TaskEnds { tasks: self.tasks, envelopes: self.envelopes, released }
    }
}

/// The rows name the claims on a task that were found.
pub open spec fn on_task(
    claims: Seq<TaskClaimRow>,
    task_id: TaskId,
    rows: Seq<ClaimKeyRow>,
) -> bool {
    rows.len() == claims.len() && forall|i: int|
        0 <= i < rows.len() ==> claims[i].is_on(task_id, #[trigger] rows[i])
}

impl TaskEnd {
    /// The step after the claims of the task were looked up: their deletions. What they
    /// release joins what the earlier tasks released.
    pub fn found(self, claims: Vec<TaskClaimRow>) -> (r: (Deletions, TaskEnds))
        ensures
            on_task(claims@, self.task_id, r.0.rows@),
            r.0.released == self.rest.released,
            r.1.tasks == self.rest.tasks,
            r.1.envelopes == self.rest.envelopes,
            r.1.released@.len() == 0,
    {
        let ghost all = claims@;
        let mut left = claims;
        let mut rows: Vec<ClaimKeyRow> = Vec::new();
        while left.len() > 0
            invariant
                rows@.len() + left@.len() == all.len(),
                left@ == all.subrange(rows@.len() as int, all.len() as int),
                forall|i: int| 0 <= i < rows@.len() ==> all[i].is_on(self.task_id, #[trigger] rows@[i]),
            decreases left@.len(),
        {
            let claim = left.remove(0);
            rows.push(claim.on(&self.task_id));
            assert(left@ =~= all.subrange(rows@.len() as int, all.len() as int));
        }
        (
            Deletions { rows, released: self.rest.released },
            TaskEnds {
                tasks: self.rest.tasks,
                envelopes: self.rest.envelopes,
                released: Vec::new(),
            },
        )
    }
}

// ── the repository ──────────────────────────────────────────────────────────

impl AgentClaimRepo {
    /// The query for the holder of a live claim on a task.
    pub fn is_claimed(task_id: &TaskId, now: &Timestamp) -> (q: Query)
        ensures
            q@ == statement(HOLDER_OF_TASK@, seq![sql_id(*task_id), sql_time(*now)]),
            now.is_plain() ==> now.sorts_as_text(),
    {
        Query::new(HOLDER_OF_TASK).id(task_id).time(now)
    }

    /// The query for another agent that has a live claim on a task.
    pub fn is_claimed_by_other(task_id: &TaskId, agent_id: &AgentId, now: &Timestamp) -> (q: Query)
        ensures
            q@ == statement(
                OTHER_HOLDER@,
                seq![sql_id(*task_id), sql_time(*now), sql_id(*agent_id)],
            ),
            now.is_plain() ==> now.sorts_as_text(),
    {
        Query::new(OTHER_HOLDER).id(task_id).time(now).id(agent_id)
    }

    /// The query for the agents that have a live claim on a task.
    pub fn get_agents_claiming_task(task_id: &TaskId, now: &Timestamp) -> (q: Query)
        ensures
            q@ == statement(HOLDERS@, seq![sql_id(*task_id), sql_time(*now)]),
            now.is_plain() ==> now.sorts_as_text(),
    {
        Query::new(HOLDERS).id(task_id).time(now)
    }

    /// The query for the live claims, in a project where one is given.
    pub fn list_active(project_id: &Option<ProjectId>, now: &Timestamp) -> (q: Query)
        ensures
            q@ == match *project_id {
                Some(id) => statement(LIST_ACTIVE_IN_PROJECT@, seq![sql_time(*now), sql_id(id)]),
                None => statement(LIST_ACTIVE@, seq![sql_time(*now)]),
            },
            now.is_plain() ==> now.sorts_as_text(),
    {
        match project_id {
            Some(id) => {
                let q = Query::new(LIST_ACTIVE_IN_PROJECT).time(now).id(id);
                assert(q@.binds =~= seq![sql_time(*now), sql_id(*id)]);
                q
            },
            None => {
                let q = Query::new(LIST_ACTIVE).time(now);
                assert(q@.binds =~= seq![sql_time(*now)]);
                q
            },
        }
    }

    /// The statement that replays a claim: only while it lives, only where no other agent
    /// has a live claim, and over the same generation alone. What it writes reads back.
    pub fn acquire_until(
        agent_id: &AgentId,
        task_id: &TaskId,
        claim_id: &ClaimId,
        expires_at: &Timestamp,
        now: &Timestamp,
    ) -> (q: Query)
        ensures
            q@ == replayed_claim(*agent_id, *task_id, *claim_id, *expires_at, *now),
            made_claim(*agent_id, *task_id, *now, *expires_at, *claim_id).is_plain()
                ==> made_claim(*agent_id, *task_id, *now, *expires_at, *claim_id).reads_back(),
            now.is_plain() ==> now.sorts_as_text(),
    {
        Query::new(ACQUIRE_UNTIL)
            .id(agent_id)
            .id(task_id)
            .time(now)
            .time(expires_at)
            .id(claim_id)
            .time(expires_at)
            .time(now)
            .id(task_id)
            .time(now)
            .id(agent_id)
    }

    /// The time at which a claim expires that is made now for some seconds and nanoseconds,
    /// where there is such a time.
    pub fn expiry(now: &Timestamp, ttl_secs: i64, ttl_nanos: u32) -> (r: Option<Timestamp>)
        requires
            is_delta(ttl_secs as int, ttl_nanos as int),
        ensures
            match time_after(now.seconds(), now.subsec(), ttl_secs, ttl_nanos) {
                Some(t) => r matches Some(p) && p.seconds() == t.0 && p.subsec() == t.1,
                None => r is None,
            },
            now.subsec() < 1_000_000_000 ==> time_after(
                now.seconds(),
                now.subsec(),
                ttl_secs,
                ttl_nanos,
            ) == sum(now.seconds(), now.subsec(), ttl_secs, ttl_nanos),
    {
        now.later(ttl_secs, ttl_nanos)
    }

    /// The statement that makes or renews a claim, whoever else has one. What it writes
    /// reads back.
    pub fn acquire(
        agent_id: &AgentId,
        task_id: &TaskId,
        claim_id: &ClaimId,
        now: &Timestamp,
        expires_at: &Timestamp,
    ) -> (q: Query)
        ensures
            q@ == statement(
                ACQUIRE@,
                seq![
                    sql_id(*agent_id),
                    sql_id(*task_id),
                    sql_time(*now),
                    sql_time(*expires_at),
                    sql_id(*claim_id),
                ],
            ),
            made_claim(*agent_id, *task_id, *now, *expires_at, *claim_id).is_plain()
                ==> made_claim(*agent_id, *task_id, *now, *expires_at, *claim_id).reads_back(),
    {
        Query::new(ACQUIRE).id(agent_id).id(task_id).time(now).time(expires_at).id(claim_id)
    }

    /// The statement that claims a task, unless another agent has a live claim. What it
    /// writes reads back.
    pub fn try_acquire(
        agent_id: &AgentId,
        task_id: &TaskId,
        claim_id: &ClaimId,
        now: &Timestamp,
        expires_at: &Timestamp,
    ) -> (q: Query)
        ensures
            q@ == statement(
                TRY_ACQUIRE@,
                seq![
                    sql_id(*agent_id),
                    sql_id(*task_id),
                    sql_time(*now),
                    sql_time(*expires_at),
                    sql_id(*claim_id),
                    sql_id(*task_id),
                    sql_time(*now),
                    sql_id(*agent_id),
                    sql_time(*now),
                ],
            ),
            made_claim(*agent_id, *task_id, *now, *expires_at, *claim_id).is_plain()
                ==> made_claim(*agent_id, *task_id, *now, *expires_at, *claim_id).reads_back(),
            now.is_plain() ==> now.sorts_as_text(),
    {
        Query::new(TRY_ACQUIRE)
            .id(agent_id)
            .id(task_id)
            .time(now)
            .time(expires_at)
            .id(claim_id)
            .id(task_id)
            .time(now)
            .id(agent_id)
            .time(now)
    }

    /// The outcome of an attempt that changed a row; nothing where it did not, so that the
    /// holder has to be asked for.
    pub fn acquired(rows_affected: u64, expires_at: Timestamp, claim_id: ClaimId) -> (r: Option<
        ClaimOutcome,
    >)
        ensures
            r == if rows_affected >= 1 {
                Some(ClaimOutcome::Acquired { expires_at, claim_id })
            } else {
                None
            },
    {
        if rows_affected >= 1 {
            Some(ClaimOutcome::Acquired { expires_at, claim_id })
        } else {
            None
        }
    }

    /// The outcome of an attempt that changed no row: who holds the task. Where no one
    /// does any more, the attempt is reported as its own obstacle, to be tried again.
    pub fn busy(
        found: Option<(AgentId, Timestamp)>,
        agent_id: AgentId,
        expires_at: Timestamp,
    ) -> (r: ClaimOutcome)
        ensures
            r == match found {
                Some(holder) => ClaimOutcome::Busy { holder: holder.0, expires_at: holder.1 },
                None => ClaimOutcome::Busy { holder: agent_id, expires_at },
            },
    {
        match found {
            Some((holder, until)) => ClaimOutcome::Busy { holder, expires_at: until },
            None => ClaimOutcome::Busy { holder: agent_id, expires_at },
        }
    }

    /// An attempt to claim a task for some seconds and nanoseconds from now on that is noted
    /// in the log, where there is a time at which the claim expires.
    pub fn try_acquire_recorded(
        agent_id: AgentId,
        task_id: TaskId,
        claim_id: ClaimId,
        ttl_secs: i64,
        ttl_nanos: u32,
        now: Timestamp,
    ) -> (r: Option<ClaimAttempt>)
        requires
            is_delta(ttl_secs as int, ttl_nanos as int),
        ensures
            match time_after(now.seconds(), now.subsec(), ttl_secs, ttl_nanos) {
                Some(t) => r matches Some(a) && a.agent_id == agent_id && a.task_id == task_id
                    && a.claim_id == claim_id && a.expires_at.seconds() == t.0
                    && a.expires_at.subsec() == t.1 && a.run is None && a.now == now,
                None => r is None,
            },
            now.subsec() < 1_000_000_000 ==> time_after(
                now.seconds(),
                now.subsec(),
                ttl_secs,
                ttl_nanos,
            ) == sum(now.seconds(), now.subsec(), ttl_secs, ttl_nanos),
    {
        match AgentClaimRepo::expiry(&now, ttl_secs, ttl_nanos) {
            Some(expires_at) => Some(
                AgentClaimRepo::try_acquire_exact_recorded(
                    agent_id,
                    task_id,
                    claim_id,
                    expires_at,
                    now,
                ),
            ),
            None => None,
        }
    }

    /// An attempt to claim a task that is noted in the log.
    pub fn try_acquire_exact_recorded(
        agent_id: AgentId,
        task_id: TaskId,
        claim_id: ClaimId,
        expires_at: Timestamp,
        now: Timestamp,
    ) -> (r: ClaimAttempt)
        ensures
            r == (ClaimAttempt { agent_id, task_id, claim_id, expires_at, run: None, now }),
    {
        AgentClaimRepo::try_acquire_bound_recorded(
            agent_id,
            task_id,
            claim_id,
            expires_at,
            None,
            now,
        )
    }

    /// An attempt to claim a task of a plan for a run, which is noted in the log.
    pub fn try_acquire_for_run_recorded(
        owner_agent_id: AgentId,
        run_id: RunId,
        plan_id: PlanId,
        task_id: TaskId,
        claim_id: ClaimId,
        expires_at: Timestamp,
        now: Timestamp,
    ) -> (r: ClaimAttempt)
        ensures
            r == (ClaimAttempt {
                agent_id: owner_agent_id,
                task_id,
                claim_id,
                expires_at,
                run: Some((run_id, plan_id)),
                now,
            }),
    {
        AgentClaimRepo::try_acquire_bound_recorded(
            owner_agent_id,
            task_id,
            claim_id,
            expires_at,
            Some((run_id, plan_id)),
            now,
        )
    }

    /// An attempt to claim a task that is noted in the log, on behalf of a run of a plan
    /// where one is given. [`ClaimAttempt::start`] gives its first step.
    pub fn try_acquire_bound_recorded(
        agent_id: AgentId,
        task_id: TaskId,
        claim_id: ClaimId,
        expires_at: Timestamp,
        run: Option<(RunId, PlanId)>,
        now: Timestamp,
    ) -> (r: ClaimAttempt)
        ensures
            r == (ClaimAttempt { agent_id, task_id, claim_id, expires_at, run, now }),
    {
        ClaimAttempt { agent_id, task_id, claim_id, expires_at, run, now }
    }

    /// The query for a run and whether it may claim.
    pub fn run_assignment(run_id: &RunId) -> (q: Query)
        ensures
            q@ == statement(RUN_ASSIGNMENT@, seq![sql_id(*run_id)]),
    {
        Query::new(RUN_ASSIGNMENT).id(run_id)
    }

    /// The plan of an active run that belongs to the agent.
    pub fn resolve_run_assignment(
        row: Option<RunAssignmentRow>,
        owner_agent_id: &AgentId,
        run_id: &RunId,
    ) -> (r: Result<PlanId, CoreError>)
        ensures
            match assignment_fault(row, id_text(*run_id), id_text(*owner_agent_id)) {
                Some(e) => r is Err && r->Err_0@ == e,
                None => row is Some && match id_parsed::<PlanId>(row->Some_0.plan_id->Ok_0@) {
                    Ok(plan_id) => r == Ok::<PlanId, CoreError>(plan_id),
                    Err(message) => r is Err && r->Err_0@ == ErrorView::Storage(
                        "invalid persisted plan id: "@ + message,
                    ),
                },
            },
    {
        let plan_id = validated_run_plan_id(
            row,
            print_id(run_id).as_str(),
            print_id(owner_agent_id).as_str(),
        )?;
        match read_id::<PlanId>(plan_id.as_str()) {
            Ok(plan_id) => Ok(plan_id),
            Err(message) => Err(
                CoreError::Storage(concat2("invalid persisted plan id: ", message.as_str())),
            ),
        }
    }

    /// Refuses a run that may not claim for the agent on the plan.
    pub fn validate_run_assignment(
        row: Option<RunAssignmentRow>,
        owner_agent_id: &AgentId,
        run_id: &RunId,
        plan_id: &PlanId,
    ) -> (r: Result<(), CoreError>)
        ensures
            match assignment_fault(row, id_text(*run_id), id_text(*owner_agent_id)) {
                Some(e) => r is Err && r->Err_0@ == e,
                None => row is Some && match id_parsed::<PlanId>(row->Some_0.plan_id->Ok_0@) {
                    Ok(actual) => if actual == *plan_id {
                        r is Ok
                    } else {
                        r is Err && r->Err_0@ == ErrorView::Conflict(
                            "run belongs to a different plan"@,
                        )
                    },
                    Err(message) => r is Err && r->Err_0@ == ErrorView::Storage(
                        "invalid persisted plan id: "@ + message,
                    ),
                },
            },
    {
        let actual = AgentClaimRepo::resolve_run_assignment(row, owner_agent_id, run_id)?;
        if actual.uuid != plan_id.uuid {
            return Err(CoreError::conflict("run belongs to a different plan"));
        }
        Ok(())
    }

    /// The statement that notes whose run it is that some events start, and the events,
    /// which are then written into the log.
    pub fn record_run_started(owner_agent_id: &AgentId, envelopes: Vec<EventEnvelope>) -> (r: Result<
        (Query, Recording),
        CoreError,
    >)
        ensures
            match r {
                Ok((q, recording)) => recording.envelopes == envelopes
                    && recording.released@.len() == 0 && recording.persisted@.len() == 0
                    && exists|i: int|
                    0 <= i < envelopes@.len() && (#[trigger] envelopes@[i]).payload is RunStarted
                        && q@ == statement(
                        INSERT_RUN_OWNER@,
                        seq![sql_id(envelopes@[i].payload->RunStarted_run.id), sql_id(*owner_agent_id)],
                    ) && forall|j: int|
                        0 <= j < i ==> !((#[trigger] envelopes@[j]).payload is RunStarted),
                Err(e) => e@ == ErrorView::Validation("expected RunStarted event"@),
            },
            r is Err <==> forall|i: int|
                0 <= i < envelopes@.len() ==> !((#[trigger] envelopes@[i]).payload is RunStarted),
    {
        let mut i: usize = 0;
        while i < envelopes.len()
            invariant
                i <= envelopes@.len(),
                forall|j: int| 0 <= j < i ==> !((#[trigger] envelopes@[j]).payload is RunStarted),
            decreases envelopes@.len() - i,
        {
            let started = match &envelopes[i].payload {
                Event::RunStarted { run } => Some(run.id),
                _ => None,
            };
            if let Some(run_id) = started {
                let q = Query::new(INSERT_RUN_OWNER).id(&run_id).id(owner_agent_id);
                assert(q@.binds =~= seq![
                    sql_id(envelopes@[i as int].payload->RunStarted_run.id),
                    sql_id(*owner_agent_id),
                ]);
                return Ok((q, Recording::new(envelopes, Vec::new())));
            }
            i = i + 1;
        }
        Err(CoreError::validation("expected RunStarted event"))
    }

    /// The end of the run that some events fail or abort. Its steps are
    /// [`RunTermination::load`], [`RunTermination::loaded`], [`RunEnding::ended`],
    /// [`RunReleases::found`], those of the [`Deletions`], [`RunReleases::released`] and
    /// those of the [`Recording`].
    pub fn record_run_terminal(
        authenticated_agent_id: AgentId,
        is_admin: bool,
        envelopes: Vec<EventEnvelope>,
    ) -> (r: Result<RunTermination, CoreError>)
        ensures
            match r {
                Ok(t) => t.agent_id == authenticated_agent_id && t.is_admin == is_admin
                    && t.envelopes == envelopes && exists|i: int|
                    0 <= i < envelopes@.len() && t.end.tells((#[trigger] envelopes@[i]).payload)
                        && forall|j: int|
                        0 <= j < i ==> !ends_run((#[trigger] envelopes@[j]).payload),
                Err(e) => e@ == ErrorView::Validation("expected failed or aborted run event"@),
            },
            r is Err <==> forall|i: int|
                0 <= i < envelopes@.len() ==> !ends_run((#[trigger] envelopes@[i]).payload),
            (exists|i: int|
                0 <= i < envelopes@.len() && ((#[trigger] envelopes@[i]).payload is RunFailed
                    || envelopes@[i].payload is RunAborted)) ==> r is Ok,
    {
        let end = RunEnd::find(&envelopes)?;
        Ok(RunTermination { end, agent_id: authenticated_agent_id, is_admin, envelopes })
    }

    /// The end of the plan that some events archive or delete. Its steps are
    /// [`PlanTermination::touch`], [`PlanTermination::active_runs`],
    /// [`PlanTermination::found`], those of the [`PlanRuns`] and those of the [`Recording`].
    pub fn record_plan_terminal(envelopes: Vec<EventEnvelope>) -> (r: Result<
        PlanTermination,
        CoreError,
    >)
        ensures
            match r {
                Ok(t) => t.envelopes == envelopes && exists|i: int|
                    0 <= i < envelopes@.len() && t.end.tells((#[trigger] envelopes@[i]).payload)
                        && forall|j: int|
                        0 <= j < i ==> !ends_plan((#[trigger] envelopes@[j]).payload),
                Err(e) => e@ == ErrorView::Validation("expected archived or deleted plan event"@),
            },
            r is Err <==> forall|i: int|
                0 <= i < envelopes@.len() ==> !ends_plan((#[trigger] envelopes@[i]).payload),
            (exists|i: int|
                0 <= i < envelopes@.len() && ((#[trigger] envelopes@[i]).payload is PlanArchived
                    || envelopes@[i].payload is PlanDeleted)) ==> r is Ok,
    {
        let end = PlanEnd::find(&envelopes)?;
        Ok(PlanTermination { end, envelopes })
    }

    /// The end of the claims on the tasks that some events close or delete. Its steps are
    /// those of the [`TaskEnds`] and those of the [`Recording`].
    pub fn record_task_lifecycle(envelopes: Vec<EventEnvelope>) -> (r: TaskEnds)
        ensures
            r.tasks@ == ended_tasks(envelopes@),
            r.envelopes == envelopes,
            r.released@.len() == 0,
    {
        let mut tasks: Vec<TaskId> = Vec::new();
        let mut i: usize = 0;
        while i < envelopes.len()
            invariant
                i <= envelopes@.len(),
                tasks@ == ended_tasks(envelopes@.subrange(0, i as int)),
            decreases envelopes@.len() - i,
        {
            proof {
                assert(envelopes@.subrange(0, i + 1).drop_last() =~= envelopes@.subrange(
                    0,
                    i as int,
                ));
                assert(envelopes@.subrange(0, i + 1).last() == envelopes@[i as int]);
            }
            let task_id = match &envelopes[i].payload {
                Event::TaskClosed { task_id, .. } => Some(*task_id),
                Event::TaskDeleted { task_id } => Some(*task_id),
                _ => None,
            };
            if let Some(task_id) = task_id {
                if !has_task(&tasks, task_id) {
                    tasks.push(task_id);
                }
            }
            i = i + 1;
        }
        assert(envelopes@.subrange(0, envelopes@.len() as int) =~= envelopes@);
        TaskEnds { tasks, envelopes, released: Vec::new() }
    }

    /// The statement that locks the claims of a task for writing, without changing them.
    pub fn touch_claims(task_id: &TaskId) -> (q: Query)
        ensures
            q@ == statement(TOUCH_CLAIMS_OF_TASK@, seq![sql_id(*task_id)]),
    {
        Query::new(TOUCH_CLAIMS_OF_TASK).id(task_id)
    }

    /// The query for the claims of a task.
    pub fn claims_of_task(task_id: &TaskId) -> (q: Query)
        ensures
            q@ == statement(CLAIMS_OF_TASK@, seq![sql_id(*task_id)]),
    {
        Query::new(CLAIMS_OF_TASK).id(task_id)
    }

    /// The statement that releases an agent's claim on a task, whatever its generation.
    pub fn release(agent_id: &AgentId, task_id: &TaskId) -> (q: Query)
        ensures
            q@ == statement(RELEASE@, seq![sql_id(*agent_id), sql_id(*task_id)]),
    {
        Query::new(RELEASE).id(agent_id).id(task_id)
    }

    /// The statement that releases exactly one generation of a claim.
    pub fn release_recorded(agent_id: &AgentId, task_id: &TaskId, claim_id: &ClaimId) -> (q: Query)
        ensures
            q@ == exact_release(*agent_id, *task_id, *claim_id),
    {
        Query::new(DELETE_CLAIM).id(agent_id).id(task_id).id(claim_id)
    }

    /// The event that tells of the release; none where there was no such generation.
    pub fn released(
        rows_affected: u64,
        agent_id: AgentId,
        task_id: TaskId,
        claim_id: ClaimId,
    ) -> (r: Option<Event>)
        ensures
            rows_affected == 0 ==> r is None,
            rows_affected != 0 ==> r == Some(release_of(agent_id, task_id, claim_id)),
    {
        if rows_affected == 0 {
            None
        } else {
            Some(Event::AgentReleased { agent_id, task_id, claim_id: Some(claim_id) })
        }
    }

    /// The statement that applies an event to the claims. Ends of tasks are none of them:
    /// their claims went with the event itself, and a replay must not touch later ones.
    pub fn apply_event(event: &Event, now: &Timestamp) -> (r: Option<Query>)
        ensures
            match *event {
                Event::AgentClaimed { agent_id, task_id, claim_id: Some(claim_id), expires_at } =>
                r is Some && r->Some_0@ == replayed_claim(
                    agent_id,
                    task_id,
                    claim_id,
                    expires_at,
                    *now,
                ),
                Event::AgentReleased { agent_id, task_id, claim_id: Some(claim_id) } => r is Some
                    && r->Some_0@ == exact_release(agent_id, task_id, claim_id),
                Event::AgentReleased { agent_id, task_id, claim_id: None } => r is Some
                    && r->Some_0@ == statement(RELEASE@, seq![sql_id(agent_id), sql_id(task_id)]),
                _ => r is None,
            },
            *event matches Event::AgentClaimed {
                agent_id,
                task_id,
                claim_id: Some(claim_id),
                expires_at,
            } ==> made_claim(agent_id, task_id, *now, expires_at, claim_id).is_plain()
                ==> made_claim(agent_id, task_id, *now, expires_at, claim_id).reads_back(),
    {
        match event {
            Event::AgentClaimed { agent_id, task_id, claim_id: Some(claim_id), expires_at } => Some(
                AgentClaimRepo::acquire_until(agent_id, task_id, claim_id, expires_at, now),
            ),
            Event::AgentReleased { agent_id, task_id, claim_id: Some(claim_id) } => Some(
                AgentClaimRepo::release_recorded(agent_id, task_id, claim_id),
            ),
            Event::AgentReleased { agent_id, task_id, claim_id: None } => Some(
                AgentClaimRepo::release(agent_id, task_id),
            ),
            _ => None,
        }
    }

    /// The query for the claims that have expired.
    pub fn sweep_expired(now: &Timestamp) -> (q: Query)
        ensures
            q@ == statement(EXPIRED@, seq![sql_time(*now)]),
            now.is_plain() ==> now.sorts_as_text(),
    {
        Query::new(EXPIRED).time(now)
    }

    /// The statement that deletes the claims that have expired; none where none was found.
    pub fn delete_expired(found: &Vec<(AgentId, TaskId)>, now: &Timestamp) -> (r: Option<Query>)
        ensures
            found@.len() == 0 ==> r is None,
            found@.len() > 0 ==> r is Some && r->Some_0@ == statement(
                DELETE_EXPIRED@,
                seq![sql_time(*now)],
            ),
    {
        if found.len() == 0 {
            None
        } else {
            Some(Query::new(DELETE_EXPIRED).time(now))
        }
    }

    /// The query for the generations of claims that have expired. What it finds is released
    /// with [`AgentClaimRepo::sweep_expired_recorded_after`].
    pub fn sweep_expired_recorded(now: &Timestamp) -> (q: Query)
        ensures
            q@ == statement(EXPIRED_GENERATIONS@, seq![sql_time(*now)]),
            now.is_plain() ==> now.sorts_as_text(),
    {
        Query::new(EXPIRED_GENERATIONS).time(now)
    }

    /// The release of the claims that were found to have expired. Its steps are those of
    /// the [`ExpiredSweep`].
    pub fn sweep_expired_recorded_after(swept_at: Timestamp, rows: Vec<ClaimKeyRow>) -> (r:
        ExpiredSweep)
        ensures
            r.swept_at == swept_at,
            r.rows == rows,
            r.persisted@.len() == 0,
    {
        ExpiredSweep { swept_at, rows, persisted: Vec::new() }
    }
}

/// A generation of a claim that has expired.
#[derive(Clone, Copy, Debug, PartialEq, Eq, Structural)]
pub struct ExpiredClaim {
    pub agent_id: AgentId,
    pub task_id: TaskId,
    pub claim_id: ClaimId,
}

/// What is wrong with the row of an expired generation, where something is: its columns
/// are read one after the other.
pub open spec fn expired_fault(row: ClaimKeyRow) -> Option<ErrorView> {
    column_fault(row.agent_id).or_fault(id_fault::<AgentId>(row.agent_id->Ok_0@)).or_fault(
        column_fault(row.task_id),
    ).or_fault(id_fault::<TaskId>(row.task_id->Ok_0@)).or_fault(
        column_fault(row.claim_id),
    ).or_fault(id_fault::<ClaimId>(row.claim_id->Ok_0@))
}

/// The expired generation that a sound row names.
pub open spec fn expired_claim(row: ClaimKeyRow) -> ExpiredClaim {
    ExpiredClaim {
        agent_id: id_value(row.agent_id->Ok_0@),
        task_id: id_value(row.task_id->Ok_0@),
        claim_id: id_value(row.claim_id->Ok_0@),
    }
}

impl ExpiredClaim {
    /// The statement that deletes the generation, unless it has been renewed.
    pub open spec fn deletion(self, now: Timestamp) -> QueryView {
        statement(
            DELETE_EXPIRED_GENERATION@,
            seq![
                sql_id(self.agent_id),
                sql_id(self.task_id),
                sql_id(self.claim_id),
                sql_time(now),
            ],
        )
    }

    /// The expired generation that a row names.
    pub fn read(row: ClaimKeyRow) -> (r: Result<ExpiredClaim, CoreError>)
        ensures
            match expired_fault(row) {
                Some(e) => r is Err && r->Err_0@ == e,
                None => r is Ok && r->Ok_0 == expired_claim(row),
            },
    {
        let agent_id = column(row.agent_id)?;
        let agent_id = parse_id::<AgentId>(agent_id.as_str())?;
        let task_id = column(row.task_id)?;
        let task_id = parse_id::<TaskId>(task_id.as_str())?;
        let claim_id = column(row.claim_id)?;
        let claim_id = parse_id::<ClaimId>(claim_id.as_str())?;
        Ok(ExpiredClaim { agent_id, task_id, claim_id })
    }

    /// The statement that deletes the generation, unless it has been renewed.
    pub fn delete(&self, now: &Timestamp) -> (q: Query)
        ensures
            q@ == self.deletion(*now),
            now.is_plain() ==> now.sorts_as_text(),
    {
        Query::new(DELETE_EXPIRED_GENERATION).id(&self.agent_id).id(&self.task_id).id(
            &self.claim_id,
        ).time(now)
    }

    /// The event that tells of the release; none where the generation was not deleted.
    pub fn released(&self, rows_affected: u64) -> (r: Option<Event>)
        ensures
            rows_affected == 1 ==> r == Some(
                release_of(self.agent_id, self.task_id, self.claim_id),
            ),
            rows_affected != 1 ==> r is None,
    {
        if rows_affected == 1 {
            Some(
                Event::AgentReleased {
                    agent_id: self.agent_id,
                    task_id: self.task_id,
                    claim_id: Some(self.claim_id),
                },
            )
        } else {
            None
        }
    }
}

/// Claims that were found to have expired and are released one by one.
#[derive(Debug, PartialEq, Eq)]
pub struct ExpiredSweep {
    pub swept_at: Timestamp,
    pub rows: Vec<ClaimKeyRow>,
    pub persisted: Vec<EventEnvelope>,
}

/// The next step of a sweep.
#[derive(Debug, PartialEq, Eq)]
pub enum SweepStep {
    /// Delete this generation, and go on with [`ExpiredSweep::deleted`].
    Delete { claim: ExpiredClaim, delete: Query, rest: ExpiredSweep },
    /// All have been tried: commit, and report the releases as they were stored.
    Commit { persisted: Vec<EventEnvelope> },
}

impl ExpiredSweep {
    /// The next step: the first of the claims that are left.
    pub fn next(self) -> (r: Result<SweepStep, CoreError>)
        ensures
            self.rows@.len() == 0 ==> r is Ok && r->Ok_0 == (SweepStep::Commit {
                persisted: self.persisted,
            }),
            self.rows@.len() > 0 ==> match expired_fault(self.rows@[0]) {
                Some(e) => r is Err && r->Err_0@ == e,
                None => r is Ok && r->Ok_0 is Delete && r->Ok_0->Delete_claim == expired_claim(
                    self.rows@[0],
                ) && r->Ok_0->Delete_delete@ == r->Ok_0->Delete_claim.deletion(self.swept_at)
                    && r->Ok_0->Delete_rest.swept_at == self.swept_at
                    && r->Ok_0->Delete_rest.rows@ == self.rows@.drop_first()
                    && r->Ok_0->Delete_rest.persisted == self.persisted,
            },
    {
        let mut rows = self.rows;
        if rows.len() == 0 {
            return Ok(SweepStep::Commit { persisted: self.persisted });
        }
        let row = rows.remove(0);
        assert(rows@ =~= self.rows@.drop_first());
        let claim = ExpiredClaim::read(row)?;
        let delete = claim.delete(&self.swept_at);
        let rest = ExpiredSweep { swept_at: self.swept_at, rows, persisted: self.persisted };
        Ok(SweepStep::Delete { claim, delete, rest })
    }

    /// What a deletion adds to the log: the release of the claim if its row was deleted. A
    /// claim that was renewed meanwhile is not deleted, and not released.
    pub fn deleted(
        &self,
        claim: &ExpiredClaim,
        rows_affected: u64,
        actor: &Actor,
        id: EventId,
        now: Timestamp,
    ) -> (r: Option<EventEnvelope>)
        ensures
            if rows_affected == 1 {
                r == Some(
                    (EventEnvelope {
                        id,
                        seq: 0,
                        occurred_at: now,
                        actor: *actor,
                        origin_device_id: None,
                        origin_seq: 0,
                        payload: release_of(claim.agent_id, claim.task_id, claim.claim_id),
                    }),
                )
            } else {
                r is None
            },
    {
        match claim.released(rows_affected) {
            Some(event) => Some(EventEnvelope::new(id, now, actor.clone(), event)),
            None => None,
        }
    }

    /// Notes a release as it was stored.
    pub fn appended(self, stored: EventEnvelope) -> (r: ExpiredSweep)
        ensures
            r.swept_at == self.swept_at,
            r.rows == self.rows,
            r.persisted@ == self.persisted@.push(stored),
    {
        let mut persisted = self.persisted;
        persisted.push(stored);
        ExpiredSweep { swept_at: self.swept_at, rows: self.rows, persisted }
    }
}

/// The statement that replays a claim.
pub open spec fn replayed_claim(
    agent_id: AgentId,
    task_id: TaskId,
    claim_id: ClaimId,
    expires_at: Timestamp,
    now: Timestamp,
) -> QueryView {
    statement(
        ACQUIRE_UNTIL@,
        seq![
            sql_id(agent_id),
            sql_id(task_id),
            sql_time(now),
            sql_time(expires_at),
            sql_id(claim_id),
            sql_time(expires_at),
            sql_time(now),
            sql_id(task_id),
            sql_time(now),
            sql_id(agent_id),
        ],
    )
}

/// The statement that releases exactly one generation of a claim.
pub open spec fn exact_release(agent_id: AgentId, task_id: TaskId, claim_id: ClaimId) -> QueryView {
    statement(DELETE_CLAIM@, seq![sql_id(agent_id), sql_id(task_id), sql_id(claim_id)])
}

// ── laws ────────────────────────────────────────────────────────────────────

/// The keys among some whose deletion deleted exactly one row.
pub open spec fn released_of(keys: Seq<ClaimKey>, replies: Seq<u64>) -> Seq<ClaimKey>
    recommends
        keys.len() == replies.len(),
    decreases keys.len(),
{
    if keys.len() == 0 {
        seq![]
    } else {
        let before = released_of(keys.drop_last(), replies.drop_last());
        if replies.last() == 1 {
            before.push(keys.last())
        } else {
            before
        }
    }
}

/// A claim is reported as released only if its own generation was deleted, and each that
/// was is reported.
pub proof fn lemma_released_were_deleted(keys: Seq<ClaimKey>, replies: Seq<u64>)
    requires
        keys.len() == replies.len(),
    ensures
        forall|key: ClaimKey| #[trigger]
            released_of(keys, replies).contains(key) <==> exists|i: int|
                0 <= i < keys.len() && #[trigger] keys[i] == key && replies[i] == 1,
    decreases keys.len(),
{
    if keys.len() > 0 {
        let k = keys.drop_last();
        let p = replies.drop_last();
        let before = released_of(k, p);
        lemma_released_were_deleted(k, p);
        let n = keys.len() - 1;
        assert forall|key: ClaimKey| #[trigger]
            released_of(keys, replies).contains(key) implies exists|i: int|
            0 <= i < keys.len() && #[trigger] keys[i] == key && replies[i] == 1 by {
            if before.contains(key) {
                let i = choose|i: int| 0 <= i < k.len() && #[trigger] k[i] == key && p[i] == 1;
                assert(keys[i] == key && replies[i] == 1);
            } else {
                assert(keys[n] == key && replies[n] == 1);
            }
        }
        assert forall|key: ClaimKey|
            (exists|i: int|
                0 <= i < keys.len() && #[trigger] keys[i] == key && replies[i]
                    == 1) implies #[trigger] released_of(keys, replies).contains(key) by {
            let i = choose|i: int|
                0 <= i < keys.len() && #[trigger] keys[i] == key && replies[i] == 1;
            if i < n {
                assert(k[i] == key && p[i] == 1);
                assert(before.contains(key));
                let j = choose|j: int| 0 <= j < before.len() && before[j] == key;
                assert(released_of(keys, replies)[j] == key);
            } else {
                assert(released_of(keys, replies)[before.len() as int] == key);
            }
        }
    }
}

/// Each task whose claims end is named once.
pub proof fn lemma_ended_tasks_are_distinct(envelopes: Seq<EventEnvelope>)
    ensures
        ended_tasks(envelopes).no_duplicates(),
        forall|task_id: TaskId| #[trigger]
            ended_tasks(envelopes).contains(task_id) <==> exists|i: int|
                0 <= i < envelopes.len() && ended_task((#[trigger] envelopes[i]).payload) == Some(
                    task_id,
                ),
    decreases envelopes.len(),
{
    if envelopes.len() > 0 {
        let init = envelopes.drop_last();
        let before = ended_tasks(init);
        lemma_ended_tasks_are_distinct(init);
        let n = envelopes.len() - 1;
        assert forall|task_id: TaskId| #[trigger]
            ended_tasks(envelopes).contains(task_id) implies exists|i: int|
            0 <= i < envelopes.len() && ended_task((#[trigger] envelopes[i]).payload) == Some(
                task_id,
            ) by {
            if before.contains(task_id) {
                let i = choose|i: int|
                    0 <= i < init.len() && ended_task((#[trigger] init[i]).payload) == Some(task_id);
                assert(ended_task(envelopes[i].payload) == Some(task_id));
            } else {
                assert(ended_task(envelopes[n].payload) == Some(task_id));
            }
        }
        assert forall|task_id: TaskId|
            (exists|i: int|
                0 <= i < envelopes.len() && ended_task((#[trigger] envelopes[i]).payload) == Some(
                    task_id,
                )) implies #[trigger] ended_tasks(envelopes).contains(task_id) by {
            let i = choose|i: int|
                0 <= i < envelopes.len() && ended_task((#[trigger] envelopes[i]).payload) == Some(
                    task_id,
                );
            if i < n {
                assert(ended_task(init[i].payload) == Some(task_id));
                assert(before.contains(task_id));
                let j = choose|j: int| 0 <= j < before.len() && before[j] == task_id;
                assert(ended_tasks(envelopes)[j] == task_id);
            } else if !before.contains(task_id) {
                assert(ended_tasks(envelopes)[before.len() as int] == task_id);
            } else {
                let j = choose|j: int| 0 <= j < before.len() && before[j] == task_id;
                assert(ended_tasks(envelopes)[j] == task_id);
            }
        }
    }
}

/// A claim in the table.
pub ghost struct ClaimEntry {
    pub acquired_at: Seq<char>,
    pub expires_at: Seq<char>,
    pub run_id: Option<RunId>,
    pub claim_id: ClaimId,
}

impl ClaimEntry {
    /// The claim has not expired: the table compares times as it holds them, as texts.
    pub open spec fn live(self, now: Seq<char>) -> bool {
        !text_before(self.expires_at, now)
    }
}

/// The claims in the table: at most one for each agent and task.
pub type ClaimTable = Map<(AgentId, TaskId), ClaimEntry>;

/// An agent other than the given one has a live claim on the task.
pub open spec fn taken_by_other(
    table: ClaimTable,
    agent_id: AgentId,
    task_id: TaskId,
    now: Seq<char>,
) -> bool {
    exists|other: AgentId|
        other != agent_id && #[trigger] table.dom().contains((other, task_id)) && table[(
            other,
            task_id,
        )].live(now)
}

impl ClaimAttempt {
    /// The claim that the attempt writes.
    pub open spec fn entry(self, table: ClaimTable) -> ClaimEntry {
        let key = (self.agent_id, self.task_id);
        ClaimEntry {
            acquired_at: self.now.text(),
            expires_at: self.expires_at.text(),
            run_id: if table.dom().contains(key) && table[key].live(self.now.text())
                && self.run is None {
                table[key].run_id
            } else {
                self.run_of()
            },
            claim_id: self.claim_id,
        }
    }

    /// The claims after the statement of the attempt.
    pub open spec fn applied(self, table: ClaimTable) -> ClaimTable {
        if taken_by_other(table, self.agent_id, self.task_id, self.now.text()) {
            table
        } else {
            table.insert((self.agent_id, self.task_id), self.entry(table))
        }
    }
}

/// At most one agent has a live claim on the task.
pub open spec fn exclusive(table: ClaimTable, task_id: TaskId, now: Seq<char>) -> bool {
    forall|a: AgentId, b: AgentId|
        #![trigger table.dom().contains((a, task_id)), table.dom().contains((b, task_id))]
        table.dom().contains((a, task_id)) && table.dom().contains((b, task_id)) && table[(
            a,
            task_id,
        )].live(now) && table[(b, task_id)].live(now) ==> a == b
}

/// The claims after exactly one generation was released.
pub open spec fn after_release(
    table: ClaimTable,
    agent_id: AgentId,
    task_id: TaskId,
    claim_id: ClaimId,
) -> ClaimTable {
    let key = (agent_id, task_id);
    if table.dom().contains(key) && table[key].claim_id == claim_id {
        table.remove(key)
    } else {
        table
    }
}

/// Claims stay exclusive: no attempt makes a second agent hold a task, on no task.
pub proof fn lemma_attempt_keeps_claims_exclusive(
    table: ClaimTable,
    attempt: ClaimAttempt,
    task_id: TaskId,
)
    requires
        exclusive(table, task_id, attempt.now.text()),
    ensures
        exclusive(attempt.applied(table), task_id, attempt.now.text()),
{
    let now = attempt.now.text();
    let after = attempt.applied(table);
    assert forall|a: AgentId, b: AgentId|
        #![trigger after.dom().contains((a, task_id)), after.dom().contains((b, task_id))]
        after.dom().contains((a, task_id)) && after.dom().contains((b, task_id)) && after[(
            a,
            task_id,
        )].live(now) && after[(b, task_id)].live(now) implies a == b by {
        if !taken_by_other(table, attempt.agent_id, attempt.task_id, now) && task_id
            == attempt.task_id && a != b {
            if a != attempt.agent_id {
                assert(table.dom().contains((a, task_id)));
            }
            if b != attempt.agent_id {
                assert(table.dom().contains((b, task_id)));
            }
        } else {
            assert(table.dom().contains((a, task_id)) || (a == attempt.agent_id && task_id
                == attempt.task_id));
            assert(table.dom().contains((b, task_id)) || (b == attempt.agent_id && task_id
                == attempt.task_id));
        }
    }
}

/// Claims stay exclusive as time passes: claims only expire.
pub proof fn lemma_time_keeps_claims_exclusive(
    table: ClaimTable,
    task_id: TaskId,
    earlier: Seq<char>,
    later: Seq<char>,
)
    requires
        exclusive(table, task_id, earlier),
        !text_before(later, earlier),
    ensures
        exclusive(table, task_id, later),
{
    assert forall|a: AgentId| #[trigger]
        table.dom().contains((a, task_id)) && table[(a, task_id)].live(
            later,
        ) implies table[(a, task_id)].live(earlier) by {
        let expires_at = table[(a, task_id)].expires_at;
        if text_before(expires_at, earlier) {
            if earlier == later {
            } else {
                lemma_before_total(earlier, later);
                lemma_before_transitive(expires_at, earlier, later);
            }
        }
    }
}

/// An attempt on a task that another agent holds changes nothing; an attempt on any other
/// makes the agent its holder, until the time that was asked for.
pub proof fn lemma_attempt_succeeds_unless_taken(table: ClaimTable, attempt: ClaimAttempt)
    ensures
        taken_by_other(table, attempt.agent_id, attempt.task_id, attempt.now.text())
            ==> attempt.applied(table) == table,
        !taken_by_other(table, attempt.agent_id, attempt.task_id, attempt.now.text()) ==> {
            let key = (attempt.agent_id, attempt.task_id);
            &&& attempt.applied(table).dom().contains(key)
            &&& attempt.applied(table)[key].claim_id == attempt.claim_id
            &&& attempt.applied(table)[key].acquired_at == attempt.now.text()
            &&& attempt.applied(table)[key].expires_at == attempt.expires_at.text()
        },
{
}

/// A renewed claim keeps its run while it lives; a claim that was made anew after it had
/// expired has the run of the attempt, and none where the attempt has none.
pub proof fn lemma_run_does_not_outlive_its_claim(table: ClaimTable, attempt: ClaimAttempt)
    requires
        !taken_by_other(table, attempt.agent_id, attempt.task_id, attempt.now.text()),
        attempt.run is None,
    ensures
        ({
            let key = (attempt.agent_id, attempt.task_id);
            attempt.applied(table)[key].run_id == if table.dom().contains(key) && table[key].live(
                attempt.now.text(),
            ) {
                table[key].run_id
            } else {
                None
            }
        }),
{
}

/// The release of a generation that has been replaced changes nothing, and the release of
/// the one at hand removes it and nothing else.
pub proof fn lemma_release_is_exact(
    table: ClaimTable,
    agent_id: AgentId,
    task_id: TaskId,
    claim_id: ClaimId,
)
    ensures
        table.dom().contains((agent_id, task_id)) && table[(agent_id, task_id)].claim_id
            != claim_id ==> after_release(table, agent_id, task_id, claim_id) == table,
        table.dom().contains((agent_id, task_id)) && table[(agent_id, task_id)].claim_id
            == claim_id ==> after_release(table, agent_id, task_id, claim_id) == table.remove(
            (agent_id, task_id),
        ),
        after_release(
            after_release(table, agent_id, task_id, claim_id),
            agent_id,
            task_id,
            claim_id,
        ) == after_release(table, agent_id, task_id, claim_id),
{
}

/// A release that was asked for before the claim was renewed does not touch the renewal.
pub proof fn lemma_renewal_survives_stale_release(
    table: ClaimTable,
    attempt: ClaimAttempt,
    stale: ClaimId,
)
    requires
        !taken_by_other(table, attempt.agent_id, attempt.task_id, attempt.now.text()),
        stale != attempt.claim_id,
    ensures
        after_release(attempt.applied(table), attempt.agent_id, attempt.task_id, stale)
            == attempt.applied(table),
{
}

/// Whether a claim lives is a matter of time: it does until the time at which it expires.
pub proof fn lemma_claim_lives_until_it_expires(
    entry: ClaimEntry,
    expires_at: Timestamp,
    now: Timestamp,
)
    requires
        entry.expires_at == expires_at.text(),
        expires_at.is_plain(),
        on_calendar(expires_at.seconds() as int, expires_at.subsec() as int),
        now.sorts_as_text(),
    ensures
        entry.live(now.text()) <==> !expires_at.is_before(now),
{
    lemma_texts_sort_as_times(expires_at, now);
}

/// The claims after a claim was replayed: only while it lives, only where no other agent
/// has a live claim, and over the same generation alone.
pub open spec fn replayed(
    table: ClaimTable,
    agent_id: AgentId,
    task_id: TaskId,
    claim_id: ClaimId,
    expires_at: Seq<char>,
    now: Seq<char>,
) -> ClaimTable {
    let key = (agent_id, task_id);
    if !text_before(now, expires_at) || taken_by_other(table, agent_id, task_id, now) {
        table
    } else if !table.dom().contains(key) {
        table.insert(key, ClaimEntry { acquired_at: now, expires_at, run_id: None, claim_id })
    } else if table[key].claim_id == claim_id {
        table.insert(key, ClaimEntry { acquired_at: now, expires_at, ..table[key] })
    } else {
        table
    }
}

/// The replay of a claim changes nothing where the claim has expired, where another agent
/// has a live claim, and where another generation of it is stored. In any other case the
/// agent has the claim, until the time that was recorded, and all other claims are as they
/// were.
pub proof fn lemma_replay_respects_what_came_later(
    table: ClaimTable,
    agent_id: AgentId,
    task_id: TaskId,
    claim_id: ClaimId,
    expires_at: Seq<char>,
    now: Seq<char>,
)
    ensures
        ({
            let key = (agent_id, task_id);
            let after = replayed(table, agent_id, task_id, claim_id, expires_at, now);
            let expired = !text_before(now, expires_at);
            let taken = taken_by_other(table, agent_id, task_id, now);
            let replaced = table.dom().contains(key) && table[key].claim_id != claim_id;
            &&& expired || taken || replaced ==> after == table
            &&& !expired && !taken && !replaced ==> {
                &&& after == table.insert(key, after[key])
                &&& after[key].claim_id == claim_id
                &&& after[key].expires_at == expires_at
                &&& after[key].live(now)
                &&& after[key].run_id == if table.dom().contains(key) {
                    table[key].run_id
                } else {
                    None
                }
            }
        }),
{
    if text_before(now, expires_at) && text_before(expires_at, now) {
        lemma_before_transitive(now, expires_at, now);
        lemma_before_irreflexive(now);
    }
}

/// Claims stay exclusive when one is replayed, on no task does a second agent get hold of
/// it; and to replay it twice is to replay it once.
pub proof fn lemma_replay_keeps_claims_exclusive(
    table: ClaimTable,
    agent_id: AgentId,
    task_id: TaskId,
    claim_id: ClaimId,
    expires_at: Seq<char>,
    now: Seq<char>,
    on: TaskId,
)
    requires
        exclusive(table, on, now),
    ensures
        exclusive(replayed(table, agent_id, task_id, claim_id, expires_at, now), on, now),
        replayed(
            replayed(table, agent_id, task_id, claim_id, expires_at, now),
            agent_id,
            task_id,
            claim_id,
            expires_at,
            now,
        ) == replayed(table, agent_id, task_id, claim_id, expires_at, now),
{
    let key = (agent_id, task_id);
    let after = replayed(table, agent_id, task_id, claim_id, expires_at, now);
    assert forall|other: AgentId| other != agent_id && #[trigger] after.dom().contains(
        (other, task_id),
    ) implies table.dom().contains((other, task_id)) && table[(other, task_id)] == after[(
        other,
        task_id,
    )] by {}
    assert forall|a: AgentId, b: AgentId|
        #![trigger after.dom().contains((a, on)), after.dom().contains((b, on))]
        after.dom().contains((a, on)) && after.dom().contains((b, on)) && after[(a, on)].live(now)
            && after[(b, on)].live(now) implies a == b by {
        if after != table && on == task_id && a != b {
            if a != agent_id {
                assert(table.dom().contains((a, on)));
            }
            if b != agent_id {
                assert(table.dom().contains((b, on)));
            }
        } else {
            assert(table.dom().contains((a, on)) || (a, on) == key);
            assert(table.dom().contains((b, on)) || (b, on) == key);
        }
    }
    assert(replayed(after, agent_id, task_id, claim_id, expires_at, now) =~= after);
}

impl ExpiredClaim {
    /// The claims after the deletion of an expired generation.
    pub open spec fn swept(self, table: ClaimTable, now: Seq<char>) -> ClaimTable {
        let key = (self.agent_id, self.task_id);
        if table.dom().contains(key) && table[key].claim_id == self.claim_id && !table[key].live(
            now,
        ) {
            table.remove(key)
        } else {
            table
        }
    }

    /// The generation is the one that the table has.
    pub open spec fn is_in(self, table: ClaimTable) -> bool {
        let key = (self.agent_id, self.task_id);
        table.dom().contains(key) && table[key].claim_id == self.claim_id
    }
}

/// The claims after the deletion of some expired generations.
pub open spec fn swept_all(
    table: ClaimTable,
    claims: Seq<ExpiredClaim>,
    now: Seq<char>,
) -> ClaimTable
    decreases claims.len(),
{
    if claims.len() == 0 {
        table
    } else {
        claims.last().swept(swept_all(table, claims.drop_last(), now), now)
    }
}

/// The generation that the table has under a key was selected.
pub open spec fn is_selected(
    table: ClaimTable,
    claims: Seq<ExpiredClaim>,
    key: (AgentId, TaskId),
) -> bool {
    claims.contains(
        ExpiredClaim { agent_id: key.0, task_id: key.1, claim_id: table[key].claim_id },
    )
}

/// The claims are those that have expired in the table.
pub open spec fn is_expired_selection(
    table: ClaimTable,
    claims: Seq<ExpiredClaim>,
    now: Seq<char>,
) -> bool {
    forall|claim: ExpiredClaim| #[trigger]
        claims.contains(claim) <==> claim.is_in(table) && !table[(
            claim.agent_id,
            claim.task_id,
        )].live(now)
}

/// A sweep deletes exactly the selected generations that are still stored and still
/// expired. A claim that was renewed after the selection stays, and so does every other.
pub proof fn lemma_sweep_is_exact(table: ClaimTable, claims: Seq<ExpiredClaim>, now: Seq<char>)
    ensures
        forall|key: (AgentId, TaskId)| #[trigger]
            swept_all(table, claims, now).dom().contains(key) <==> table.dom().contains(key) && !(
            is_selected(table, claims, key) && !table[key].live(now)),
        forall|key: (AgentId, TaskId)| #[trigger]
            swept_all(table, claims, now).dom().contains(key) ==> swept_all(
                table,
                claims,
                now,
            )[key] == table[key],
    decreases claims.len(),
{
    if claims.len() > 0 {
        let init = claims.drop_last();
        let last = claims.last();
        let before = swept_all(table, init, now);
        lemma_sweep_is_exact(table, init, now);
        assert forall|claim: ExpiredClaim| #[trigger]
            claims.contains(claim) <==> init.contains(claim) || claim == last by {
            if init.contains(claim) {
                let i = choose|i: int| 0 <= i < init.len() && init[i] == claim;
                assert(claims[i] == claim);
            }
            assert(claims[claims.len() - 1] == last);
            if claims.contains(claim) {
                let i = choose|i: int| 0 <= i < claims.len() && claims[i] == claim;
                if i < init.len() {
                    assert(init[i] == claim);
                }
            }
        }
        assert forall|key: (AgentId, TaskId)| #[trigger]
            swept_all(table, claims, now).dom().contains(key) <==> table.dom().contains(key) && !(
            is_selected(table, claims, key) && !table[key].live(now)) by {
            assert(before.dom().contains(key) <==> table.dom().contains(key) && !(is_selected(
                table,
                init,
                key,
            ) && !table[key].live(now)));
        }
    }
}

/// A sweep over the claims that it found expired leaves exactly the live ones, as they
/// were.
pub proof fn lemma_sweep_leaves_live_claims(
    table: ClaimTable,
    claims: Seq<ExpiredClaim>,
    now: Seq<char>,
)
    requires
        is_expired_selection(table, claims, now),
    ensures
        forall|key: (AgentId, TaskId)| #[trigger]
            swept_all(table, claims, now).dom().contains(key) <==> table.dom().contains(key)
                && table[key].live(now),
        forall|key: (AgentId, TaskId)| #[trigger]
            swept_all(table, claims, now).dom().contains(key) ==> swept_all(
                table,
                claims,
                now,
            )[key] == table[key],
{
    lemma_sweep_is_exact(table, claims, now);
    assert forall|key: (AgentId, TaskId)| #[trigger]
        swept_all(table, claims, now).dom().contains(key) <==> table.dom().contains(key)
            && table[key].live(now) by {
        let claim = ExpiredClaim {
            agent_id: key.0,
            task_id: key.1,
            claim_id: table[key].claim_id,
        };
        assert(claims.contains(claim) <==> claim.is_in(table) && !table[(
            claim.agent_id,
            claim.task_id,
        )].live(now));
    }
}

impl ClaimKey {
    /// The key is the one of a claim in the table: the table holds identifiers as texts.
    pub open spec fn names(self, key: (AgentId, TaskId), entry: ClaimEntry) -> bool {
        &&& self.agent_id@ == id_text(key.0)
        &&& self.task_id@ == id_text(key.1)
        &&& self.claim_id@ == id_text(entry.claim_id)
    }

    /// The claims after the deletion of exactly this generation.
    pub open spec fn deleted_from(self, table: ClaimTable) -> ClaimTable {
        Map::new(
            |key: (AgentId, TaskId)| table.dom().contains(key) && !self.names(key, table[key]),
            |key: (AgentId, TaskId)| table[key],
        )
    }
}

/// The claims after the deletion of some generations, one by one.
pub open spec fn after_deletions(table: ClaimTable, keys: Seq<ClaimKey>) -> ClaimTable
    decreases keys.len(),
{
    if keys.len() == 0 {
        table
    } else {
        keys.last().deleted_from(after_deletions(table, keys.drop_last()))
    }
}

/// One of the keys is the one of the claim.
pub open spec fn is_named(keys: Seq<ClaimKey>, key: (AgentId, TaskId), entry: ClaimEntry) -> bool {
    exists|i: int| 0 <= i < keys.len() && (#[trigger] keys[i]).names(key, entry)
}

/// Deletions take away exactly the claims that were found: none of them is left, and all
/// others are as they were. A generation that took the place of one of them is another
/// claim.
pub proof fn lemma_deletions_are_exact(table: ClaimTable, keys: Seq<ClaimKey>)
    ensures
        forall|key: (AgentId, TaskId)| #[trigger]
            after_deletions(table, keys).dom().contains(key) <==> table.dom().contains(key)
                && !is_named(keys, key, table[key]),
        forall|key: (AgentId, TaskId)| #[trigger]
            after_deletions(table, keys).dom().contains(key) ==> after_deletions(table, keys)[key]
                == table[key],
    decreases keys.len(),
{
    if keys.len() > 0 {
        let init = keys.drop_last();
        lemma_deletions_are_exact(table, init);
        assert forall|key: (AgentId, TaskId), entry: ClaimEntry| #[trigger]
            is_named(keys, key, entry) <==> is_named(init, key, entry) || keys.last().names(
                key,
                entry,
            ) by {
            if is_named(init, key, entry) {
                let i = choose|i: int| 0 <= i < init.len() && (#[trigger] init[i]).names(key, entry);
                assert(keys[i].names(key, entry));
            }
            if keys.last().names(key, entry) {
                assert(keys[keys.len() - 1].names(key, entry));
            }
            if is_named(keys, key, entry) {
                let i = choose|i: int| 0 <= i < keys.len() && (#[trigger] keys[i]).names(key, entry);
                if i < init.len() {
                    assert(init[i].names(key, entry));
                }
            }
        }
        assert forall|key: (AgentId, TaskId)| #[trigger]
            after_deletions(table, keys).dom().contains(key) <==> table.dom().contains(key)
                && !is_named(keys, key, table[key]) by {
            assert(after_deletions(table, init).dom().contains(key) <==> table.dom().contains(key)
                && !is_named(init, key, table[key]));
        }
        assert forall|key: (AgentId, TaskId)| #[trigger]
            after_deletions(table, keys).dom().contains(key) implies after_deletions(
            table,
            keys,
        )[key] == table[key] by {
            assert(after_deletions(table, init).dom().contains(key));
        }
    }
}

/// The keys are those of the claims of a run.
pub open spec fn are_claims_of_run(table: ClaimTable, keys: Seq<ClaimKey>, run_id: RunId) -> bool {
    forall|key: (AgentId, TaskId)| #[trigger]
        table.dom().contains(key) ==> (is_named(keys, key, table[key]) <==> table[key].run_id
            == Some(run_id))
}

/// When a run ends its claims end: none of the run's is left, and all others are as they
/// were.
pub proof fn lemma_run_end_releases_its_claims(
    table: ClaimTable,
    keys: Seq<ClaimKey>,
    run_id: RunId,
)
    requires
        are_claims_of_run(table, keys, run_id),
    ensures
        forall|key: (AgentId, TaskId)| #[trigger]
            after_deletions(table, keys).dom().contains(key) <==> table.dom().contains(key)
                && table[key].run_id != Some(run_id),
        forall|key: (AgentId, TaskId)| #[trigger]
            after_deletions(table, keys).dom().contains(key) ==> after_deletions(table, keys)[key]
                == table[key],
{
    lemma_deletions_are_exact(table, keys);
}

/// The claim ends with a run that has no owner: it is one of the run, or one of no run that
/// the run's agent made since the run was started, on a task on which the run has an open
/// step. Times and agents are compared as they are held, as texts.
pub open spec fn ends_with_old_run(
    key: (AgentId, TaskId),
    entry: ClaimEntry,
    run_id: RunId,
    run_agent_id: Seq<char>,
    started_at: Seq<char>,
    open_steps: Set<TaskId>,
) -> bool {
    ||| entry.run_id == Some(run_id)
    ||| entry.run_id is None && id_text(key.0) == run_agent_id && !text_before(
        entry.acquired_at,
        started_at,
    ) && open_steps.contains(key.1)
}

/// When a run without an owner ends, its claims end and those that its agent made for its
/// open steps; all others are as they were.
pub proof fn lemma_old_run_end_releases_its_claims(
    table: ClaimTable,
    keys: Seq<ClaimKey>,
    run_id: RunId,
    run_agent_id: Seq<char>,
    started_at: Seq<char>,
    open_steps: Set<TaskId>,
)
    requires
        forall|key: (AgentId, TaskId)| #[trigger]
            table.dom().contains(key) ==> (is_named(keys, key, table[key]) <==> ends_with_old_run(
                key,
                table[key],
                run_id,
                run_agent_id,
                started_at,
                open_steps,
            )),
    ensures
        forall|key: (AgentId, TaskId)| #[trigger]
            after_deletions(table, keys).dom().contains(key) <==> table.dom().contains(key)
                && !ends_with_old_run(
                key,
                table[key],
                run_id,
                run_agent_id,
                started_at,
                open_steps,
            ),
        forall|key: (AgentId, TaskId)| #[trigger]
            after_deletions(table, keys).dom().contains(key) ==> after_deletions(table, keys)[key]
                == table[key],
{
    lemma_deletions_are_exact(table, keys);
}

/// The claims after the ends of some runs or tasks, each with the claims that were found for
/// it.
pub open spec fn after_ends(table: ClaimTable, found: Seq<Seq<ClaimKey>>) -> ClaimTable
    decreases found.len(),
{
    if found.len() == 0 {
        table
    } else {
        after_deletions(after_ends(table, found.drop_last()), found.last())
    }
}

/// When a plan ends its active runs end, and their claims: none of theirs is left, and all
/// others are as they were.
pub proof fn lemma_plan_end_releases_claims_of_its_runs(
    table: ClaimTable,
    runs: Seq<RunId>,
    found: Seq<Seq<ClaimKey>>,
)
    requires
        found.len() == runs.len(),
        forall|i: int|
            0 <= i < runs.len() ==> are_claims_of_run(
                after_ends(table, found.take(i)),
                #[trigger] found[i],
                runs[i],
            ),
    ensures
        forall|key: (AgentId, TaskId)| #[trigger]
            after_ends(table, found).dom().contains(key) <==> table.dom().contains(key) && !(
            table[key].run_id is Some && runs.contains(table[key].run_id->Some_0)),
        forall|key: (AgentId, TaskId)| #[trigger]
            after_ends(table, found).dom().contains(key) ==> after_ends(table, found)[key]
                == table[key],
    decreases runs.len(),
{
    if runs.len() > 0 {
        let n = runs.len() - 1;
        let init = runs.drop_last();
        let before = found.drop_last();
        assert forall|i: int| 0 <= i < init.len() implies are_claims_of_run(
            after_ends(table, before.take(i)),
            #[trigger] before[i],
            init[i],
        ) by {
            assert(before.take(i) =~= found.take(i));
            assert(before[i] == found[i]);
        }
        lemma_plan_end_releases_claims_of_its_runs(table, init, before);
        assert(found.take(n) =~= before);
        assert(are_claims_of_run(after_ends(table, before), found[n], runs[n]));
        lemma_run_end_releases_its_claims(after_ends(table, before), found[n], runs[n]);
        assert forall|run_id: RunId| #[trigger]
            runs.contains(run_id) <==> init.contains(run_id) || run_id == runs[n] by {
            if init.contains(run_id) {
                let i = choose|i: int| 0 <= i < init.len() && init[i] == run_id;
                assert(runs[i] == run_id);
            }
            if runs.contains(run_id) {
                let i = choose|i: int| 0 <= i < runs.len() && runs[i] == run_id;
                if i < n {
                    assert(init[i] == run_id);
                }
            }
        }
        assert forall|key: (AgentId, TaskId)| #[trigger]
            after_ends(table, found).dom().contains(key) <==> table.dom().contains(key) && !(
            table[key].run_id is Some && runs.contains(table[key].run_id->Some_0)) by {
            assert(after_ends(table, before).dom().contains(key) <==> table.dom().contains(key)
                && !(table[key].run_id is Some && init.contains(table[key].run_id->Some_0)));
        }
    }
}

/// The keys are those of the claims on a task.
pub open spec fn are_claims_on_task(table: ClaimTable, keys: Seq<ClaimKey>, task_id: TaskId) -> bool {
    forall|key: (AgentId, TaskId)| #[trigger]
        table.dom().contains(key) ==> (is_named(keys, key, table[key]) <==> key.1 == task_id)
}

/// When a task is closed or deleted its claims end: none on the task is left, and all others
/// are as they were.
pub proof fn lemma_task_end_releases_its_claims(
    table: ClaimTable,
    keys: Seq<ClaimKey>,
    task_id: TaskId,
)
    requires
        are_claims_on_task(table, keys, task_id),
    ensures
        forall|key: (AgentId, TaskId)| #[trigger]
            after_deletions(table, keys).dom().contains(key) <==> table.dom().contains(key)
                && key.1 != task_id,
        forall|key: (AgentId, TaskId)| #[trigger]
            after_deletions(table, keys).dom().contains(key) ==> after_deletions(table, keys)[key]
                == table[key],
{
    lemma_deletions_are_exact(table, keys);
}

/// When some tasks are closed or deleted the claims on all of them end: none is left, and all
/// others are as they were.
pub proof fn lemma_task_ends_release_their_claims(
    table: ClaimTable,
    tasks: Seq<TaskId>,
    found: Seq<Seq<ClaimKey>>,
)
    requires
        found.len() == tasks.len(),
        forall|i: int|
            0 <= i < tasks.len() ==> are_claims_on_task(
                after_ends(table, found.take(i)),
                #[trigger] found[i],
                tasks[i],
            ),
    ensures
        forall|key: (AgentId, TaskId)| #[trigger]
            after_ends(table, found).dom().contains(key) <==> table.dom().contains(key)
                && !tasks.contains(key.1),
        forall|key: (AgentId, TaskId)| #[trigger]
            after_ends(table, found).dom().contains(key) ==> after_ends(table, found)[key]
                == table[key],
    decreases tasks.len(),
{
    if tasks.len() > 0 {
        let n = tasks.len() - 1;
        let init = tasks.drop_last();
        let before = found.drop_last();
        assert forall|i: int| 0 <= i < init.len() implies are_claims_on_task(
            after_ends(table, before.take(i)),
            #[trigger] before[i],
            init[i],
        ) by {
            assert(before.take(i) =~= found.take(i));
            assert(before[i] == found[i]);
        }
        lemma_task_ends_release_their_claims(table, init, before);
        assert(found.take(n) =~= before);
        assert(are_claims_on_task(after_ends(table, before), found[n], tasks[n]));
        lemma_task_end_releases_its_claims(after_ends(table, before), found[n], tasks[n]);
        assert forall|task_id: TaskId| #[trigger]
            tasks.contains(task_id) <==> init.contains(task_id) || task_id == tasks[n] by {
            if init.contains(task_id) {
                let i = choose|i: int| 0 <= i < init.len() && init[i] == task_id;
                assert(tasks[i] == task_id);
            }
            if tasks.contains(task_id) {
                let i = choose|i: int| 0 <= i < tasks.len() && tasks[i] == task_id;
                if i < n {
                    assert(init[i] == task_id);
                }
            }
        }
        assert forall|key: (AgentId, TaskId)| #[trigger]
            after_ends(table, found).dom().contains(key) <==> table.dom().contains(key)
                && !tasks.contains(key.1) by {
            assert(after_ends(table, before).dom().contains(key) <==> table.dom().contains(key)
                && !init.contains(key.1));
        }
    }
}

/// Of some events the first that archives or deletes a plan ends it: the end that they tell
/// is of the plan and the time that this event names, and says which of the two it was. The
/// events tell no end only where none of them archives or deletes a plan.
pub proof fn lemma_first_end_of_plan_is_told(
    envelopes: Seq<EventEnvelope>,
    first: int,
    told: int,
    end: PlanEnd,
)
    requires
        0 <= first < envelopes.len(),
        envelopes[first].payload is PlanArchived || envelopes[first].payload is PlanDeleted,
        forall|i: int|
            0 <= i < first ==> !((#[trigger] envelopes[i]).payload is PlanArchived)
                && !(envelopes[i].payload is PlanDeleted),
        0 <= told < envelopes.len(),
        end.tells(envelopes[told].payload),
        forall|i: int| 0 <= i < told ==> !ends_plan((#[trigger] envelopes[i]).payload),
    ensures
        told == first,
        !forall|i: int| 0 <= i < envelopes.len() ==> !ends_plan((#[trigger] envelopes[i]).payload),
        envelopes[first].payload is PlanArchived ==> {
            &&& end.plan_id == envelopes[first].payload->PlanArchived_plan_id
            &&& end.ended_at == envelopes[first].payload->PlanArchived_at
            &&& end.reason@ == "plan_archived"@
        },
        envelopes[first].payload is PlanDeleted ==> {
            &&& end.plan_id == envelopes[first].payload->PlanDeleted_plan_id
            &&& end.ended_at == envelopes[first].payload->PlanDeleted_at
            &&& end.reason@ == "plan_deleted"@
        },
{
    let event = envelopes[told].payload;
    assert(event is PlanArchived || event is PlanDeleted);
    if first < told {
        assert(ends_plan(envelopes[first].payload));
    }
    assert(ends_plan(envelopes[first].payload));
}

/// To archive a plan and to delete it end it, and no other event does.
pub proof fn lemma_plans_end_in_two_ways(event: Event)
    ensures
        ends_plan(event) <==> event is PlanArchived || event is PlanDeleted,
{
}

/// Of some events the first that fails or aborts a run ends it: the end that they tell is of
/// the run, with the time and the reason that this event names, and says which of the two it
/// was. The events tell no end only where none of them fails or aborts a run.
pub proof fn lemma_first_end_of_run_is_told(
    envelopes: Seq<EventEnvelope>,
    first: int,
    told: int,
    end: RunEnd,
)
    requires
        0 <= first < envelopes.len(),
        envelopes[first].payload is RunFailed || envelopes[first].payload is RunAborted,
        forall|i: int|
            0 <= i < first ==> !((#[trigger] envelopes[i]).payload is RunFailed)
                && !(envelopes[i].payload is RunAborted),
        0 <= told < envelopes.len(),
        end.tells(envelopes[told].payload),
        forall|i: int| 0 <= i < told ==> !ends_run((#[trigger] envelopes[i]).payload),
    ensures
        told == first,
        !forall|i: int| 0 <= i < envelopes.len() ==> !ends_run((#[trigger] envelopes[i]).payload),
        envelopes[first].payload is RunFailed ==> {
            &&& end.run_id == envelopes[first].payload->RunFailed_run_id
            &&& end.ended_at == envelopes[first].payload->RunFailed_at
            &&& end.outcome@ == envelopes[first].payload->RunFailed_reason@
            &&& end.status@ == "failed"@
        },
        envelopes[first].payload is RunAborted ==> {
            &&& end.run_id == envelopes[first].payload->RunAborted_run_id
            &&& end.ended_at == envelopes[first].payload->RunAborted_at
            &&& end.outcome@ == envelopes[first].payload->RunAborted_reason@
            &&& end.status@ == "aborted"@
        },
{
    let event = envelopes[told].payload;
    assert(event is RunFailed || event is RunAborted);
    if first < told {
        assert(ends_run(envelopes[first].payload));
    }
    assert(ends_run(envelopes[first].payload));
}

/// To fail and to be aborted end a run, and no other event does.
pub proof fn lemma_runs_end_in_two_ways(event: Event)
    ensures
        ends_run(event) <==> event is RunFailed || event is RunAborted,
{
}

/// The claims on a task end when it is closed or deleted, and with no other event.
pub proof fn lemma_tasks_end_in_two_ways(event: Event)
    ensures
        event is TaskClosed ==> ended_task(event) == Some(event->TaskClosed_task_id),
        event is TaskDeleted ==> ended_task(event) == Some(event->TaskDeleted_task_id),
        !(event is TaskClosed) && !(event is TaskDeleted) ==> ended_task(event) is None,
{
}

/// The tasks whose claims end are exactly those that some of the events closes or deletes.
pub proof fn lemma_every_ended_task_is_named(envelopes: Seq<EventEnvelope>, task_id: TaskId)
    ensures
        ended_tasks(envelopes).contains(task_id) <==> exists|i: int|
            0 <= i < envelopes.len() && {
                ||| (#[trigger] envelopes[i]).payload is TaskClosed
                    && envelopes[i].payload->TaskClosed_task_id == task_id
                ||| envelopes[i].payload is TaskDeleted
                    && envelopes[i].payload->TaskDeleted_task_id == task_id
            },
{
    lemma_ended_tasks_are_distinct(envelopes);
    if ended_tasks(envelopes).contains(task_id) {
        let i = choose|i: int|
            0 <= i < envelopes.len() && ended_task((#[trigger] envelopes[i]).payload) == Some(
                task_id,
            );
        assert(envelopes[i].payload is TaskClosed || envelopes[i].payload is TaskDeleted);
    } else {
        assert forall|i: int| 0 <= i < envelopes.len() implies !({
            ||| (#[trigger] envelopes[i]).payload is TaskClosed
                && envelopes[i].payload->TaskClosed_task_id == task_id
            ||| envelopes[i].payload is TaskDeleted && envelopes[i].payload->TaskDeleted_task_id
                == task_id
        }) by {
            assert(ended_task(envelopes[i].payload) != Some(task_id));
        }
    }
}

/// A run may claim for an agent exactly if there is such a run, it and its plan are active,
/// and the agent owns it; for a plan, if it is besides a run of that plan. Who else asks is
/// told what is missing: first the run, then that it is not active, then its plan, then its
/// owner.
pub proof fn lemma_active_runs_claim_for_their_owner(
    row: Option<RunAssignmentRow>,
    run_id: RunId,
    owner: AgentId,
    plan_id: Seq<char>,
)
    requires
        row matches Some(r) ==> r.plan_id is Ok && r.status is Ok && r.plan_status is Ok
            && r.owner_agent_id is Ok,
    ensures
        ({
            let fault = assignment_fault(row, id_text(run_id), id_text(owner));
            let found = row->Some_0;
            let active = row is Some && found.status->Ok_0@ == "active"@;
            let plan_active = active && found.plan_status->Ok_0@ == "active"@;
            let owned = plan_active && found.owner_agent_id->Ok_0 is Some
                && found.owner_agent_id->Ok_0->Some_0@ == id_text(owner);
            &&& fault is None <==> owned
            &&& row is None ==> fault == Some(ErrorView::NotFound("run "@ + id_text(run_id)))
            &&& row is Some && !active ==> fault == Some(
                ErrorView::Conflict("run is not active"@),
            )
            &&& active && !plan_active ==> fault == Some(
                ErrorView::Conflict("run plan is not active"@),
            )
            &&& plan_active && !owned ==> fault == Some(
                ErrorView::Forbidden("run has no matching authenticated owner"@),
            )
            &&& plan_assignment_fault(row, run_id, owner, plan_id) is None <==> owned
                && found.plan_id->Ok_0@ == plan_id
            &&& owned && found.plan_id->Ok_0@ != plan_id ==> plan_assignment_fault(
                row,
                run_id,
                owner,
                plan_id,
            ) == Some(ErrorView::Conflict("run belongs to a different plan"@))
        }),
{
}

/// A run is ended by the agent that owns it, and by an administrator, while it is active:
/// exactly then nothing stands against it. An agent that is no administrator ends no run of
/// another one and none without an owner.
pub proof fn lemma_owner_and_administrator_end_runs(
    row: Option<RunToEndRow>,
    run_id: RunId,
    agent_id: AgentId,
    is_admin: bool,
)
    requires
        row matches Some(r) ==> r.status is Ok && r.owner_agent_id is Ok,
    ensures
        ({
            let fault = run_end_fault(row, run_id, agent_id, is_admin);
            let found = row->Some_0;
            let active = row is Some && found.status->Ok_0@ == "active"@;
            let owned = active && found.owner_agent_id->Ok_0 is Some
                && found.owner_agent_id->Ok_0->Some_0@ == id_text(agent_id);
            &&& fault is None <==> active && (is_admin || owned)
            &&& row is None ==> fault == Some(ErrorView::NotFound("run "@ + id_text(run_id)))
            &&& row is Some && !active ==> fault == Some(
                ErrorView::Conflict("run is not active"@),
            )
            &&& active && !is_admin && found.owner_agent_id->Ok_0 is Some && !owned ==> fault
                == Some(ErrorView::Forbidden("run is owned by another agent"@))
            &&& active && !is_admin && found.owner_agent_id->Ok_0 is None ==> fault == Some(
                ErrorView::Forbidden("run has no authenticated owner"@),
            )
        }),
{
}

/// The statements that end a run say how it ended, when, why and which run it is: as the
/// event tells it where the run ends by itself, and aborted, with the plan's end as its
/// reason, where its plan ends.
pub proof fn lemma_run_is_ended_as_told(end: RunEnd, plan_end: PlanEnd, run_id: Seq<char>)
    ensures
        end.ending().sql == END_RUN@ && plan_end.abortion(run_id).sql == END_RUN@,
        end.ending().binds == seq![
            sql_text(end.status@),
            sql_time(end.ended_at),
            sql_text(end.outcome@),
            sql_id(end.run_id),
        ],
        plan_end.abortion(run_id).binds == seq![
            sql_text("aborted"@),
            sql_time(plan_end.ended_at),
            sql_text(plan_end.reason@),
            sql_text(run_id),
        ],
{
}

/// The release of a claim tells whose it was, on what, and which generation: so what a key
/// tells is the claim whose texts it holds, and two claims have different releases.
pub proof fn lemma_release_tells_the_claim(
    agent_id: AgentId,
    task_id: TaskId,
    claim_id: ClaimId,
    key: ClaimKey,
)
    requires
        id_parsed::<AgentId>(key.agent_id@) == Ok::<AgentId, Seq<char>>(agent_id),
        id_parsed::<TaskId>(key.task_id@) == Ok::<TaskId, Seq<char>>(task_id),
        id_parsed::<ClaimId>(key.claim_id@) == Ok::<ClaimId, Seq<char>>(claim_id),
    ensures
        key.fault() is None,
        key.release() is AgentReleased,
        key.release()->AgentReleased_agent_id == agent_id,
        key.release()->AgentReleased_task_id == task_id,
        key.release()->AgentReleased_claim_id == Some(claim_id),
        release_of(agent_id, task_id, claim_id) == key.release(),
        key.deletion().binds == seq![
            sql_text(key.agent_id@),
            sql_text(key.task_id@),
            sql_text(key.claim_id@),
        ],
        exact_release(agent_id, task_id, claim_id).binds == seq![
            sql_id(agent_id),
            sql_id(task_id),
            sql_id(claim_id),
        ],
        exact_release(agent_id, task_id, claim_id).sql == key.deletion().sql,
{
}

/// An expired generation is the one that its row names, and its deletion names it together
/// with the time at which it must have expired.
pub proof fn lemma_expired_generation_is_named(row: ClaimKeyRow, now: Timestamp)
    requires
        expired_fault(row) is None,
    ensures
        row.agent_id is Ok && row.task_id is Ok && row.claim_id is Ok,
        id_parsed::<AgentId>(row.agent_id->Ok_0@) == Ok::<AgentId, Seq<char>>(
            expired_claim(row).agent_id,
        ),
        id_parsed::<TaskId>(row.task_id->Ok_0@) == Ok::<TaskId, Seq<char>>(
            expired_claim(row).task_id,
        ),
        id_parsed::<ClaimId>(row.claim_id->Ok_0@) == Ok::<ClaimId, Seq<char>>(
            expired_claim(row).claim_id,
        ),
        expired_claim(row).deletion(now).binds == seq![
            sql_id(expired_claim(row).agent_id),
            sql_id(expired_claim(row).task_id),
            sql_id(expired_claim(row).claim_id),
            sql_time(now),
        ],
{
}

/// What a transaction writes into the log are its own events in their order, and behind them
/// one release for each claim that was released with them.
pub proof fn lemma_recording_writes_events_and_releases(recording: Recording)
    ensures
        recording.written().len() == recording.envelopes@.len() + recording.released@.len(),
        forall|i: int|
            0 <= i < recording.envelopes@.len() ==> #[trigger] recording.written()[i]
                == recording.envelopes@[i].payload,
        forall|i: int|
            0 <= i < recording.released@.len() ==> #[trigger] recording.written()[
            recording.envelopes@.len() + i] is AgentReleased,
{
}

/// The claims of a run that is known to have an owner are those that name the run; of a run
/// without one they are asked for by its agent and its start, too, and these must be readable.
pub proof fn lemma_claims_of_a_run_are_asked_for_by_it(run: RunToEnd, run_id: RunId)
    ensures
        run.has_owner ==> run.claims_fault() is None && run.claims_query(run_id) == statement(
            CLAIMS_OF_RUN@,
            seq![sql_id(run_id)],
        ),
        !run.has_owner && run.run_agent_id is Ok && run.started_at is Ok ==> {
            &&& run.claims_fault() is None
            &&& run.claims_query(run_id).sql == CLAIMS_OF_OLD_RUN@
            &&& run.claims_query(run_id).binds == seq![
                sql_id(run_id),
                sql_text(run.run_agent_id->Ok_0@),
                sql_text(run.started_at->Ok_0@),
                sql_id(run_id),
            ]
        },
        !run.has_owner && (run.run_agent_id is Err || run.started_at is Err)
            ==> run.claims_fault() is Some,
{
}

/// A claim that is tried for binds its agent, its task, its times and its identifier, and asks
/// whether anybody else holds that task at that time.
pub proof fn lemma_attempt_binds_its_claim(attempt: ClaimAttempt)
    ensures
        ({
            let binds = attempt.insertion().binds;
            let claim = attempt.made();
            &&& attempt.insertion().sql == ACQUIRE_BOUND@
            &&& binds.len() == 10
            &&& claim.agent_id == attempt.agent_id && claim.task_id == attempt.task_id
            &&& claim.acquired_at == attempt.now && claim.expires_at == attempt.expires_at
            &&& claim.claim_id == attempt.claim_id
            &&& attempt.run is None ==> claim.run_id is None
            &&& attempt.run is Some ==> claim.run_id == Some(attempt.run->Some_0.0)
            &&& binds.take(6) == seq![
                sql_id(claim.agent_id),
                sql_id(claim.task_id),
                sql_time(claim.acquired_at),
                sql_time(claim.expires_at),
                sql_opt_id(claim.run_id),
                sql_id(claim.claim_id),
            ]
            &&& binds.skip(6) == seq![
                sql_id(attempt.task_id),
                sql_time(attempt.now),
                sql_id(attempt.agent_id),
                sql_time(attempt.now),
            ]
        }),
{
}

/// The replay of a claim writes it as of now, under the condition that it expires after now,
/// and that no other agent holds its task now.
pub proof fn lemma_replay_binds_its_claim(
    agent_id: AgentId,
    task_id: TaskId,
    claim_id: ClaimId,
    expires_at: Timestamp,
    now: Timestamp,
)
    ensures
        ({
            let q = replayed_claim(agent_id, task_id, claim_id, expires_at, now);
            let claim = made_claim(agent_id, task_id, now, expires_at, claim_id);
            &&& q.sql == ACQUIRE_UNTIL@
            &&& claim.agent_id == agent_id && claim.task_id == task_id && claim.acquired_at == now
            &&& claim.expires_at == expires_at && claim.claim_id == claim_id
            &&& claim.run_id is None
            &&& q.binds.take(5) == seq![
                sql_id(agent_id),
                sql_id(task_id),
                sql_time(now),
                sql_time(expires_at),
                sql_id(claim_id),
            ]
            &&& q.binds.skip(5) == seq![
                sql_time(expires_at),
                sql_time(now),
                sql_id(task_id),
                sql_time(now),
                sql_id(agent_id),
            ]
        }),
{
}

/// Each field of a claim is read from columns of its own: what is read of a row with another
/// value there differs in that field alone.
pub proof fn lemma_active_claim_is_read_field_by_field(
    row: ActiveClaimRow,
    record: ActiveClaim,
    other_row: ActiveClaimRow,
    other: ActiveClaim,
)
    requires
        claim_read(row, record),
        claim_read(other_row, other),
    ensures
        claim_read(
            ActiveClaimRow { agent_id: other_row.agent_id, ..row },
            ActiveClaim { agent_id: other.agent_id, ..record },
        ),
        claim_read(
            ActiveClaimRow { task_id: other_row.task_id, ..row },
            ActiveClaim { task_id: other.task_id, ..record },
        ),
        claim_read(
            ActiveClaimRow { acquired_at: other_row.acquired_at, ..row },
            ActiveClaim { acquired_at: other.acquired_at, ..record },
        ),
        claim_read(
            ActiveClaimRow { expires_at: other_row.expires_at, ..row },
            ActiveClaim { expires_at: other.expires_at, ..record },
        ),
        claim_read(
            ActiveClaimRow { run_id: other_row.run_id, ..row },
            ActiveClaim { run_id: other.run_id, ..record },
        ),
        claim_read(
            ActiveClaimRow { claim_id: other_row.claim_id, ..row },
            ActiveClaim { claim_id: other.claim_id, ..record },
        ),
{
}

/// A row of a claim without a fault says what is read from it: each identifier, time, state
/// and text stands in it as it is read.
pub proof fn lemma_active_claim_is_what_the_row_says(row: ActiveClaimRow, record: ActiveClaim)
    requires
        (claim_fault(row) is None && claim_read(row, record))
            || (row.fault() is None && row.holds(record)),
    ensures
        row.agent_id is Ok
            && crate::ids::id_parsed::<AgentId>(row.agent_id->Ok_0@) == Ok::<AgentId, Seq<char>>(
                record.agent_id,
            ),
        row.task_id is Ok
            && crate::ids::id_parsed::<TaskId>(row.task_id->Ok_0@) == Ok::<TaskId, Seq<char>>(
                record.task_id,
            ),
        row.acquired_at is Ok
            && crate::time::rfc3339_parsed(row.acquired_at->Ok_0@) == Ok::<(i64, u32), Seq<char>>(
                (record.acquired_at.seconds(), record.acquired_at.subsec()),
            ),
        row.expires_at is Ok
            && crate::time::rfc3339_parsed(row.expires_at->Ok_0@) == Ok::<(i64, u32), Seq<char>>(
                (record.expires_at.seconds(), record.expires_at.subsec()),
            ),
        row.run_id is Ok && (row.run_id->Ok_0 is None <==> record.run_id is None),
        row.run_id->Ok_0 matches Some(s)
            ==> crate::ids::id_parsed::<RunId>(s@) == Ok::<RunId, Seq<char>>(record.run_id->Some_0),
        row.claim_id is Ok
            && crate::ids::id_parsed::<ClaimId>(row.claim_id->Ok_0@) == Ok::<ClaimId, Seq<char>>(
                record.claim_id,
            ),
{
    crate::time::lemma_time_is_read_from_its_text(row.acquired_at->Ok_0@);
    crate::time::lemma_time_is_read_from_its_text(row.expires_at->Ok_0@);
}

/// A holder of a task is read with the agent and the time at which its claim expires, an
/// expired claim with its agent and its task, and the key of a claim with the texts of its
/// agent, its task and its generation, as the rows say.
pub proof fn lemma_claim_rows_are_read_as_they_are(
    holder: HolderRow,
    held: (AgentId, Timestamp),
    agent: AgentIdRow,
    agent_id: AgentId,
    expired: ExpiredRow,
    pair: (AgentId, TaskId),
    row: ClaimKeyRow,
    key: ClaimKey,
)
    ensures
        holder.fault() is None && holder.holds(held) ==> crate::ids::id_parsed::<AgentId>(
            holder.agent_id->Ok_0@,
        ) == Ok::<AgentId, Seq<char>>(held.0) && crate::time::rfc3339_parsed(
            holder.expires_at->Ok_0@,
        ) == Ok::<(i64, u32), Seq<char>>((held.1.seconds(), held.1.subsec())),
        agent.fault() is None && agent.holds(agent_id) ==> crate::ids::id_parsed::<AgentId>(
            agent.agent_id->Ok_0@,
        ) == Ok::<AgentId, Seq<char>>(agent_id),
        expired.fault() is None && expired.holds(pair) ==> crate::ids::id_parsed::<AgentId>(
            expired.agent_id->Ok_0@,
        ) == Ok::<AgentId, Seq<char>>(pair.0) && crate::ids::id_parsed::<TaskId>(
            expired.task_id->Ok_0@,
        ) == Ok::<TaskId, Seq<char>>(pair.1),
        row.holds(key) ==> key.agent_id == row.agent_id->Ok_0 && key.task_id == row.task_id->Ok_0
            && key.claim_id == row.claim_id->Ok_0,
        row.fault() is None <==> row.agent_id is Ok && row.task_id is Ok && row.claim_id is Ok,
{
    crate::time::lemma_time_is_read_from_its_text(holder.expires_at->Ok_0@);
}

/// A row of a claim is refused for what is wrong with a column, with the error of that
/// column; where nothing is wrong with any, nothing is refused.
pub proof fn lemma_active_claim_is_refused_for_its_columns(
    row: ActiveClaimRow,
    other: ActiveClaimRow,
)
    requires
        claim_fault(row) is None,
    ensures
        claim_fault(ActiveClaimRow { agent_id: other.agent_id, ..row })
            == column_fault(other.agent_id).or_fault(id_fault::<AgentId>(other.agent_id->Ok_0@)),
        claim_fault(ActiveClaimRow { task_id: other.task_id, ..row })
            == column_fault(other.task_id).or_fault(id_fault::<TaskId>(other.task_id->Ok_0@)),
        claim_fault(ActiveClaimRow { acquired_at: other.acquired_at, ..row })
            == column_fault(other.acquired_at).or_fault(ts_fault(other.acquired_at->Ok_0@)),
        claim_fault(ActiveClaimRow { expires_at: other.expires_at, ..row })
            == column_fault(other.expires_at).or_fault(ts_fault(other.expires_at->Ok_0@)),
        claim_fault(ActiveClaimRow { run_id: other.run_id, ..row })
            == column_fault(other.run_id).or_fault(opt_id_fault::<RunId>(other.run_id->Ok_0)),
        claim_fault(ActiveClaimRow { claim_id: other.claim_id, ..row })
            == column_fault(other.claim_id).or_fault(id_fault::<ClaimId>(other.claim_id->Ok_0@)),
{
}

/// A row is refused for what is wrong with a column, with the error of that
/// column; where nothing is wrong with any, nothing is refused.
pub proof fn lemma_expired_row_is_refused_for_its_columns(row: ClaimKeyRow, other: ClaimKeyRow)
    requires
        expired_fault(row) is None,
    ensures
        expired_fault(ClaimKeyRow { agent_id: other.agent_id, ..row })
            == column_fault(other.agent_id).or_fault(id_fault::<AgentId>(other.agent_id->Ok_0@)),
        expired_fault(ClaimKeyRow { task_id: other.task_id, ..row })
            == column_fault(other.task_id).or_fault(id_fault::<TaskId>(other.task_id->Ok_0@)),
        expired_fault(ClaimKeyRow { claim_id: other.claim_id, ..row })
            == column_fault(other.claim_id).or_fault(id_fault::<ClaimId>(other.claim_id->Ok_0@)),
{
}

/// The keys of the claims on a task are read one for one: each has the agent and the generation
/// of its claim, and the task that was asked for.
pub proof fn lemma_keys_of_a_task_name_its_claims(
    claims: Seq<TaskClaimRow>,
    task_id: TaskId,
    rows: Seq<ClaimKeyRow>,
    i: int,
)
    requires
        on_task(claims, task_id, rows),
    ensures
        rows.len() == claims.len(),
        0 <= i < rows.len() ==> rows[i].agent_id == claims[i].agent_id && rows[i].claim_id
            == claims[i].claim_id && rows[i].task_id is Ok && rows[i].task_id->Ok_0@ == id_text(
            task_id,
        ),
{
    if 0 <= i < rows.len() {
        assert(claims[i].is_on(task_id, rows[i]));
    }
}

} // verus!
