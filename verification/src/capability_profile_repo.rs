//! What agents are good at, in the `agent_capability_profiles` table: learned from what
//! becomes of the units of work that they hold, or set by the user.
use vstd::prelude::*;

use crate::error::{CoreError, ErrorView};
use crate::events::{Event, EventEnvelope};
use crate::ids::{AgentId, WorkUnitId};
use crate::json::{parse_strings, strings_fault, strings_parsed};
use crate::query::{
    sql_id, sql_text, sql_time, statement, statements, Bound, BoundView, Query, QueryView,
};
use crate::rows::{column, column_fault, Column, Faults};
use crate::text::texts;
use crate::time::Timestamp;

verus! {

/// The capability profiles.
#[derive(Clone, Copy, Debug)]
pub struct CapabilityProfileRepo;

pub const LIST_PROFILES: &'static str = "SELECT agent_id, capability, score, confidence, evidence_count, \
     last_observed_at, decay_half_life_days, source \
     FROM agent_capability_profiles WHERE agent_id = ? ORDER BY capability";

pub const DELETE_PROFILE: &'static str = "DELETE FROM agent_capability_profiles WHERE agent_id = ? AND capability = ?";

pub const UNIT_OWNER: &'static str = "SELECT owner_agent_id, capability_tags_json FROM work_units WHERE id = ?";

pub const FOLD_SIGNAL: &'static str = "INSERT INTO agent_capability_profiles \
     (agent_id, capability, score, confidence, evidence_count, last_observed_at, \
     source, updated_at) \
     VALUES (?, ?, ?, 1.0/6.0, 1, ?, 'inferred', ?) \
     ON CONFLICT(agent_id, capability) DO UPDATE SET \
     score = score + (excluded.score - score) / MIN(evidence_count + 1, 20), \
     evidence_count = evidence_count + 1, \
     confidence = CAST(evidence_count + 1 AS REAL) / (evidence_count + 6), \
     last_observed_at = excluded.last_observed_at, \
     updated_at = excluded.updated_at \
     WHERE source != 'user_set'";

/// What became of a unit of work.
#[derive(Clone, Copy, Debug, PartialEq, Eq, Structural)]
pub enum Signal {
    Completed,
    Released,
    Blocked,
}

impl Signal {
    /// How well the holder of the unit did, in tenths.
    pub open spec fn worth(self) -> u8 {
        match self {
            Signal::Completed => 10,
            Signal::Released => 4,
            Signal::Blocked => 3,
        }
    }

    /// How well the holder of the unit did, in tenths.
    pub fn tenths(&self) -> (r: u8)
        ensures
            r == self.worth(),
    {
        match self {
            Signal::Completed => 10,
            Signal::Released => 4,
            Signal::Blocked => 3,
        }
    }
}

/// What an event says became of which unit of work.
pub open spec fn signal_of(event: Event) -> Option<(WorkUnitId, Signal)> {
    match event {
        Event::WorkUnitCompleted { work_unit_id, .. } => Some((work_unit_id, Signal::Completed)),
        Event::WorkUnitReleased { work_unit_id, .. } => Some((work_unit_id, Signal::Released)),
        Event::WorkUnitBlocked { work_unit_id, .. } => Some((work_unit_id, Signal::Blocked)),
        _ => None,
    }
}

/// A row of a unit of work.
#[derive(Debug, PartialEq, Eq)]
pub struct UnitRow {
    pub owner_agent_id: Column<Option<String>>,
    pub capability_tags_json: Column<String>,
}

/// Who holds a unit of work, and what it takes.
#[derive(Clone, Debug, PartialEq, Eq)]
pub struct Credit {
    pub owner: String,
    pub tags: Vec<String>,
}

/// What is wrong with the row of a unit of work, where something is. Of a unit that nobody
/// holds the tags are not looked at.
pub open spec fn unit_fault(row: UnitRow) -> Option<ErrorView> {
    match column_fault(row.owner_agent_id) {
        Some(e) => Some(e),
        None => if row.owner_agent_id->Ok_0 is None {
            None
        } else {
            column_fault(row.capability_tags_json).or_fault(
                strings_fault(row.capability_tags_json->Ok_0@),
            )
        },
    }
}

/// The statement that folds a signal into a profile.
pub open spec fn fold(agent_id: Seq<char>, capability: Seq<char>, signal: Signal, at: Timestamp) -> QueryView {
    statement(
        FOLD_SIGNAL@,
        seq![
            sql_text(agent_id),
            sql_text(capability),
            BoundView::Tenths(signal.worth() as int),
            sql_time(at),
            sql_time(at),
        ],
    )
}

/// The statements that fold a signal into the profiles of a unit's holder, one for each of
/// its tags.
pub open spec fn folds(credit: Credit, signal: Signal, at: Timestamp) -> Seq<QueryView> {
    Seq::new(credit.tags@.len(), |i: int| fold(credit.owner@, credit.tags@[i]@, signal, at))
}

impl CapabilityProfileRepo {
    /// The query for what an agent is good at.
    pub fn list_for_agent(agent_id: &AgentId) -> (q: Query)
        ensures
            q@ == statement(LIST_PROFILES@, seq![sql_id(*agent_id)]),
    {
        Query::new(LIST_PROFILES).id(agent_id)
    }

    /// The statement that deletes a profile.
    pub fn delete(agent_id: &AgentId, capability: &str) -> (q: Query)
        ensures
            q@ == statement(DELETE_PROFILE@, seq![sql_id(*agent_id), sql_text(capability@)]),
    {
        Query::new(DELETE_PROFILE).id(agent_id).text(capability)
    }

    /// Whether there was a profile that was deleted.
    pub fn was_deleted(rows_affected: u64) -> (r: bool)
        ensures
            r == (rows_affected > 0),
    {
        rows_affected > 0
    }

    /// The query for the unit of work that an event is about, and what became of it. Its
    /// row is read with [`CapabilityProfileRepo::unit_owner_and_tags`], and what there is
    /// to credit is folded in with [`CapabilityProfileRepo::fold_signals`].
    pub fn apply_event(env: &EventEnvelope) -> (r: Option<(Query, Signal)>)
        ensures
            match signal_of(env.payload) {
                Some(s) => r is Some && r->Some_0.0@ == statement(UNIT_OWNER@, seq![sql_id(s.0)])
                    && r->Some_0.1 == s.1,
                None => r is None,
            },
    {
        let (unit_id, signal) = match &env.payload {
            Event::WorkUnitCompleted { work_unit_id, .. } => (*work_unit_id, Signal::Completed),
            Event::WorkUnitReleased { work_unit_id, .. } => (*work_unit_id, Signal::Released),
            Event::WorkUnitBlocked { work_unit_id, .. } => (*work_unit_id, Signal::Blocked),
            _ => {
                return None;
            },
        };
        let q = Query::new(UNIT_OWNER).id(&unit_id);
        assert(q@.binds =~= seq![sql_id(unit_id)]);
        Some((q, signal))
    }

    /// Who is to be credited for what: nobody where there is no such unit, where nobody
    /// holds it, and where it has no tags.
    pub fn unit_owner_and_tags(row: Option<UnitRow>) -> (r: Result<Option<Credit>, CoreError>)
        ensures
            match row {
                None => r is Ok && r->Ok_0 is None,
                Some(row) => match unit_fault(row) {
                    Some(e) => r is Err && r->Err_0@ == e,
                    None => r is Ok && match r->Ok_0 {
                        Some(credit) => Some(credit.owner) == row.owner_agent_id->Ok_0 && texts(
                            credit.tags@,
                        ) == strings_parsed(row.capability_tags_json->Ok_0@)->Ok_0
                            && credit.tags@.len() > 0,
                        None => row.owner_agent_id->Ok_0 is None || strings_parsed(
                            row.capability_tags_json->Ok_0@,
                        )->Ok_0.len() == 0,
                    },
                },
            },
    {
        match row {
            None => Ok(None),
            Some(row) => {
                let owner = column(row.owner_agent_id)?;
                match owner {
                    None => Ok(None),
                    Some(owner) => {
                        let tags = column(row.capability_tags_json)?;
                        let tags = parse_strings(tags.as_str())?;
                        assert(texts(tags@).len() == tags@.len());
                        if tags.len() == 0 {
                            return Ok(None);
                        }
                        Ok(Some(Credit { owner, tags }))
                    },
                }
            },
        }
    }

    /// The statements that fold a signal into the profiles of a unit's holder. A profile
    /// that the user has set is left as it is.
    pub fn fold_signals(credit: &Credit, signal: Signal, at: &Timestamp) -> (r: Vec<Query>)
        ensures
            statements(r@) == folds(*credit, signal, *at),
    {
        let mut out: Vec<Query> = Vec::new();
        let ghost all = folds(*credit, signal, *at);
        let mut i: usize = 0;
        while i < credit.tags.len()
            invariant
                i <= credit.tags@.len(),
                all == folds(*credit, signal, *at),
                statements(out@) == all.take(i as int),
            decreases credit.tags@.len() - i,
        {
            let q = CapabilityProfileRepo::fold_signal(
                credit.owner.as_str(),
                credit.tags[i].as_str(),
                signal,
                at,
            );
            let ghost before = out@;
            out.push(q);
            assert(statements(out@) =~= statements(before).push(q@));
            assert(all.take(i + 1) =~= all.take(i as int).push(all[i as int]));
            i = i + 1;
        }
        assert(all.take(credit.tags@.len() as int) =~= all);
        out
    }

    fn fold_signal(agent_id: &str, capability: &str, signal: Signal, at: &Timestamp) -> (q: Query)
        ensures
            q@ == fold(agent_id@, capability@, signal, *at),
    {
        Query::new(FOLD_SIGNAL)
            .text(agent_id)
            .text(capability)
            .bind(Bound::Tenths(signal.tenths()))
            .time(at)
            .time(at)
    }
}

// ── laws ────────────────────────────────────────────────────────────────────

/// A profile: whether the user has set it, and how much has been seen of the agent.
pub ghost struct ProfileEntry {
    pub user_set: bool,
    pub evidence_count: int,
}

/// What is stored of a profile after a signal was folded in.
pub open spec fn folded(stored: Option<ProfileEntry>) -> ProfileEntry {
    match stored {
        Some(p) => if p.user_set {
            p
        } else {
            ProfileEntry { user_set: false, evidence_count: p.evidence_count + 1 }
        },
        None => ProfileEntry { user_set: false, evidence_count: 1 },
    }
}

/// What the user has set stands: no signal changes it. Of any other profile each signal is
/// counted.
pub proof fn lemma_user_set_profile_stands(p: ProfileEntry)
    ensures
        p.user_set ==> folded(Some(p)) == p,
        !p.user_set ==> folded(Some(p)).evidence_count == p.evidence_count + 1,
        !p.user_set ==> !folded(Some(p)).user_set,
{
}

/// A unit of work says of its holder that it was completed, released or blocked, as the event
/// tells; completing it is worth most and being blocked least. No other event says anything.
pub proof fn lemma_events_tell_how_work_went(event: Event)
    ensures
        event matches Event::WorkUnitCompleted { work_unit_id, .. } ==> signal_of(event) is Some
            && signal_of(event)->Some_0.0 == work_unit_id && signal_of(event)->Some_0.1.worth()
            == 10,
        event matches Event::WorkUnitReleased { work_unit_id, .. } ==> signal_of(event) is Some
            && signal_of(event)->Some_0.0 == work_unit_id && signal_of(event)->Some_0.1.worth()
            == 4,
        event matches Event::WorkUnitBlocked { work_unit_id, .. } ==> signal_of(event) is Some
            && signal_of(event)->Some_0.0 == work_unit_id && signal_of(event)->Some_0.1.worth()
            == 3,
        signal_of(event) is Some <==> event is WorkUnitCompleted || event is WorkUnitReleased
            || event is WorkUnitBlocked,
{
}

/// A signal is folded into one profile for each tag of the unit, all of them the holder's.
pub proof fn lemma_signal_is_folded_for_each_tag(
    credit: Credit,
    signal: Signal,
    at: Timestamp,
    i: int,
)
    ensures
        folds(credit, signal, at).len() == credit.tags@.len(),
        0 <= i < credit.tags@.len() ==> folds(credit, signal, at)[i].sql == FOLD_SIGNAL@ && folds(
            credit,
            signal,
            at,
        )[i].binds == seq![
            sql_text(credit.owner@),
            sql_text(credit.tags@[i]@),
            BoundView::Tenths(signal.worth() as int),
            sql_time(at),
            sql_time(at),
        ],
{
}

/// A unit that nobody holds has nothing wrong with it; one that somebody holds has its tags.
pub proof fn lemma_unit_without_holder_is_sound(row: UnitRow)
    ensures
        row.owner_agent_id is Err ==> unit_fault(row) is Some,
        row.owner_agent_id matches Ok(None) ==> unit_fault(row) is None,
        row.owner_agent_id matches Ok(Some(owner)) ==> (unit_fault(row) is None <==> (
        row.capability_tags_json is Ok && strings_parsed(row.capability_tags_json->Ok_0@) is Ok)),
{
}

} // verus!
