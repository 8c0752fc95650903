//! How far each agent has read the event log, in the `agent_acks` table.
use vstd::prelude::*;

use crate::error::CoreError;
use crate::ids::AgentId;
use crate::query::{sql_id, sql_int, sql_time, statement, Query};
use crate::rows::{column, column_fault, Column, Faults};
use crate::time::{parse_ts, ts_fault, ts_value, Timestamp};

verus! {

/// The inboxes of agents.
#[derive(Clone, Copy, Debug)]
pub struct AgentInboxRepo;

pub const GET_CURSOR: &'static str = "SELECT last_acked_seq FROM agent_acks WHERE agent_id = ?";

pub const ACK: &'static str = "INSERT INTO agent_acks (agent_id, last_acked_seq, updated_at) \
     VALUES (?1, ?2, ?3) \
     ON CONFLICT(agent_id) DO UPDATE SET \
     last_acked_seq = MAX(last_acked_seq, excluded.last_acked_seq), \
     updated_at = excluded.updated_at";

pub const LAST_ACK: &'static str = "SELECT updated_at FROM agent_acks WHERE agent_id = ?";

/// The number up to which an agent has read: none where it has read nothing.
pub open spec fn cursor(stored: Option<i64>) -> u64 {
    match stored {
        Some(seq) => if seq < 0 {
            0
        } else {
            seq as u64
        },
        None => 0,
    }
}

impl AgentInboxRepo {
    /// The query for the number up to which an agent has read.
    pub fn get_cursor(agent_id: &AgentId) -> (q: Query)
        ensures
            q@ == statement(GET_CURSOR@, seq![sql_id(*agent_id)]),
    {
        Query::new(GET_CURSOR).id(agent_id)
    }

    /// The number up to which an agent has read.
    pub fn read_cursor(last_acked_seq: Option<Column<i64>>) -> (r: Result<u64, CoreError>)
        ensures
            match last_acked_seq {
                Some(seq) => match column_fault(seq) {
                    Some(e) => r is Err && r->Err_0@ == e,
                    None => r is Ok && r->Ok_0 == cursor(Some(seq->Ok_0)),
                },
                None => r is Ok && r->Ok_0 == cursor(None),
            },
    {
        match last_acked_seq {
            Some(seq) => {
                let seq: i64 = column(seq)?;
                if seq < 0 {
                    Ok(0)
                } else {
                    Ok(seq as u64)
                }
            },
            None => Ok(0),
        }
    }

    /// The statement that notes that an agent has read up to a number, unless it has read
    /// further. The number up to which it has read is then asked for with
    /// [`AgentInboxRepo::get_cursor`].
    pub fn ack(agent_id: &AgentId, up_to_seq: u64, now: &Timestamp) -> (q: Query)
        ensures
            q@ == statement(
                ACK@,
                seq![sql_id(*agent_id), sql_int(up_to_seq as i64 as int), sql_time(*now)],
            ),
    {
        Query::new(ACK).id(agent_id).number(up_to_seq as i64).time(now)
    }

    /// The query for the time at which an agent last said how far it has read.
    pub fn last_ack_at(agent_id: &AgentId) -> (q: Query)
        ensures
            q@ == statement(LAST_ACK@, seq![sql_id(*agent_id)]),
    {
        Query::new(LAST_ACK).id(agent_id)
    }

    /// The time at which an agent last said how far it has read.
    pub fn read_last_ack_at(updated_at: Option<Column<String>>) -> (r: Result<
        Option<Timestamp>,
        CoreError,
    >)
        ensures
            match updated_at {
                None => r is Ok && r->Ok_0 is None,
                Some(at) => match column_fault(at).or_fault(ts_fault(at->Ok_0@)) {
                    Some(e) => r is Err && r->Err_0@ == e,
                    None => r is Ok && r->Ok_0 == Some(ts_value(at->Ok_0@)),
                },
            },
    {
        match updated_at {
            None => Ok(None),
            Some(at) => {
                let at = column(at)?;
                let at = parse_ts(at.as_str())?;
                Ok(Some(at))
            },
        }
    }
}

// ── laws ────────────────────────────────────────────────────────────────────

/// What is stored after an agent said how far it has read.
pub open spec fn acked(stored: Option<i64>, up_to_seq: u64) -> Option<i64> {
    let new = up_to_seq as i64;
    match stored {
        Some(seq) => if seq > new {
            Some(seq)
        } else {
            Some(new)
        },
        None => Some(new),
    }
}

/// An agent's cursor never goes back, saying the same twice changes nothing, and the order
/// of two acknowledgements does not matter. Numbers are those that the log gives out.
pub proof fn lemma_cursor_only_advances(stored: Option<i64>, a: u64, b: u64)
    requires
        a <= i64::MAX,
        b <= i64::MAX,
    ensures
        cursor(acked(stored, a)) >= cursor(stored),
        cursor(acked(stored, a)) >= a,
        cursor(acked(stored, a)) == cursor(stored) || cursor(acked(stored, a)) == a,
        acked(acked(stored, a), a) == acked(stored, a),
        acked(acked(stored, a), b) == acked(acked(stored, b), a),
{
}

/// An agent that has read nothing begins at zero, as does one with a number below; any other
/// begins where it was.
pub proof fn lemma_agent_goes_on_where_it_was(stored: Option<i64>)
    ensures
        stored is None ==> cursor(stored) == 0,
        stored matches Some(n) ==> (n >= 0 ==> cursor(stored) == n) && (n < 0 ==> cursor(stored)
            == 0),
{
}

} // verus!
