//! Handoffs of work between units, in the `handoff_contracts` table.
use vstd::prelude::*;

use crate::domain::{HandoffContract, HandoffStatus};
use crate::error::{CoreError, ErrorView};
use crate::events::{Event, EventEnvelope};
use crate::ids::{
    id_fault, id_value, opt_id_fault, opt_id_value, parse_id, parse_opt_id, AgentId, HandoffId,
    WorkUnitId,
};
use crate::json::{parse_strings, print_strings, strings_fault, strings_parsed, strings_printed};
use crate::query::{
    sql_id, sql_opt_id, sql_opt_text, sql_text, sql_time, statement, BoundView, Query, QueryView,
};
use crate::rows::{column, column_fault, has_opt_text, has_text, Column, Decode, Faults};
use crate::text::{concat2, opt_text, quote, quoted, texts};
use crate::time::{parse_ts, ts_fault, ts_value, Timestamp};

verus! {

/// The handoff projection.
#[derive(Clone, Copy, Debug)]
pub struct HandoffRepo;

pub const SELECT_HANDOFFS: &'static str = "SELECT id, from_work_unit_id, to_work_unit_id, required_artifact_ids, required_state, \
     checklist, owner_agent_id, accepted_by_agent_id, status, notes, required_changes, \
     created_at, updated_at \
     FROM handoff_contracts ";

pub const BY_PAIR: &'static str = "WHERE from_work_unit_id = ? AND to_work_unit_id = ?";

pub const BY_WORK_UNIT: &'static str = "WHERE from_work_unit_id = ? OR to_work_unit_id = ? \
     ORDER BY updated_at DESC, id";

pub const ACCEPT: &'static str = "UPDATE handoff_contracts SET \
     status = 'accepted', accepted_by_agent_id = ?, notes = ?, \
     required_changes = '[]', updated_at = ? \
     WHERE id = ?";

pub const REJECT: &'static str = "UPDATE handoff_contracts SET \
     status = 'rejected', notes = ?, required_changes = ?, updated_at = ? \
     WHERE id = ?";

pub const UPSERT_HANDOFF: &'static str = "INSERT INTO handoff_contracts \
     (id, from_work_unit_id, to_work_unit_id, required_artifact_ids, required_state, \
     checklist, owner_agent_id, accepted_by_agent_id, status, notes, required_changes, \
     created_at, updated_at) \
     VALUES (?, ?, ?, ?, ?, ?, ?, ?, ?, ?, ?, ?, ?) \
     ON CONFLICT(id) DO UPDATE SET \
     required_artifact_ids = excluded.required_artifact_ids, \
     required_state = excluded.required_state, \
     checklist = excluded.checklist, \
     owner_agent_id = excluded.owner_agent_id, \
     accepted_by_agent_id = excluded.accepted_by_agent_id, \
     status = excluded.status, \
     notes = excluded.notes, \
     required_changes = excluded.required_changes, \
     updated_at = excluded.updated_at";

// ── rows ────────────────────────────────────────────────────────────────────

/// Why a text is no handoff status.
pub open spec fn handoff_status_fault(s: Seq<char>) -> Option<ErrorView> {
    if HandoffStatus::named(s) is Some {
        None
    } else {
        Some(ErrorView::Serde("unknown handoff status: "@ + quoted(s)))
    }
}

/// Reads a handoff status.
pub fn parse_handoff_status(s: &str) -> (r: Result<HandoffStatus, CoreError>)
    ensures
        match handoff_status_fault(s@) {
            Some(e) => r is Err && r->Err_0@ == e,
            None => r is Ok && Some(r->Ok_0) == HandoffStatus::named(s@),
        },
{
    match HandoffStatus::parse(s) {
        Some(v) => Ok(v),
        None => Err(CoreError::Serde(concat2("unknown handoff status: ", quote(s).as_str()))),
    }
}

/// A row of the `handoff_contracts` table.
#[derive(Debug, PartialEq, Eq)]
pub struct HandoffRow {
    pub id: Column<String>,
    pub from_work_unit_id: Column<String>,
    pub to_work_unit_id: Column<String>,
    pub required_artifact_ids: Column<String>,
    pub required_state: Column<Option<String>>,
    pub checklist: Column<String>,
    pub owner_agent_id: Column<Option<String>>,
    pub accepted_by_agent_id: Column<Option<String>>,
    pub status: Column<String>,
    pub notes: Column<Option<String>>,
    pub required_changes: Column<String>,
    pub created_at: Column<String>,
    pub updated_at: Column<String>,
}

/// What is wrong with a handoff row, where something is: the columns and their
/// values are looked at in this order.
pub open spec fn contract_fault(row: HandoffRow) -> Option<ErrorView> {
    column_fault(row.id).or_fault(
        column_fault(row.from_work_unit_id),
    ).or_fault(
        column_fault(row.to_work_unit_id),
    ).or_fault(
        column_fault(row.required_artifact_ids),
    ).or_fault(
        column_fault(row.required_state),
    ).or_fault(
        column_fault(row.checklist),
    ).or_fault(
        column_fault(row.owner_agent_id),
    ).or_fault(
        column_fault(row.accepted_by_agent_id),
    ).or_fault(
        column_fault(row.status),
    ).or_fault(
        column_fault(row.notes),
    ).or_fault(
        column_fault(row.required_changes),
    ).or_fault(
        column_fault(row.created_at),
    ).or_fault(
        column_fault(row.updated_at),
    ).or_fault(
        handoff_status_fault(row.status->Ok_0@),
    ).or_fault(
        id_fault::<HandoffId>(row.id->Ok_0@),
    ).or_fault(
        id_fault::<WorkUnitId>(row.from_work_unit_id->Ok_0@),
    ).or_fault(
        id_fault::<WorkUnitId>(row.to_work_unit_id->Ok_0@),
    ).or_fault(
        strings_fault(row.required_artifact_ids->Ok_0@),
    ).or_fault(
        strings_fault(row.checklist->Ok_0@),
    ).or_fault(
        opt_id_fault::<AgentId>(row.owner_agent_id->Ok_0),
    ).or_fault(
        opt_id_fault::<AgentId>(row.accepted_by_agent_id->Ok_0),
    ).or_fault(
        strings_fault(row.required_changes->Ok_0@),
    ).or_fault(
        ts_fault(row.created_at->Ok_0@),
    ).or_fault(
        ts_fault(row.updated_at->Ok_0@),
    )
}

/// The record is what a sound handoff row says.
pub open spec fn contract_read(row: HandoffRow, record: HandoffContract) -> bool {
    &&& record.id == id_value::<HandoffId>(row.id->Ok_0@)
    &&& record.from_work_unit_id == id_value::<WorkUnitId>(row.from_work_unit_id->Ok_0@)
    &&& record.to_work_unit_id == id_value::<WorkUnitId>(row.to_work_unit_id->Ok_0@)
    &&& texts(record.required_artifact_ids@) == strings_parsed(row.required_artifact_ids->Ok_0@)->Ok_0
    &&& record.required_state == row.required_state->Ok_0
    &&& texts(record.checklist@) == strings_parsed(row.checklist->Ok_0@)->Ok_0
    &&& record.owner_agent_id == opt_id_value::<AgentId>(row.owner_agent_id->Ok_0)
    &&& record.accepted_by_agent_id == opt_id_value::<AgentId>(row.accepted_by_agent_id->Ok_0)
    &&& Some(record.status) == HandoffStatus::named(row.status->Ok_0@)
    &&& record.notes == row.notes->Ok_0
    &&& texts(record.required_changes@) == strings_parsed(row.required_changes->Ok_0@)->Ok_0
    &&& record.created_at == ts_value(row.created_at->Ok_0@)
    &&& record.updated_at == ts_value(row.updated_at->Ok_0@)
}

/// Reads a handoff from its row.
pub fn row_to_contract(row: HandoffRow) -> (r: Result<HandoffContract, CoreError>)
    ensures
        match contract_fault(row) {
            Some(e) => r is Err && r->Err_0@ == e,
            None => r is Ok && contract_read(row, r->Ok_0),
        },
{
    let id = column(row.id)?;
    let from_work_unit_id = column(row.from_work_unit_id)?;
    let to_work_unit_id = column(row.to_work_unit_id)?;
    let required_artifact_ids = column(row.required_artifact_ids)?;
    let required_state = column(row.required_state)?;
    let checklist = column(row.checklist)?;
    let owner_agent_id = column(row.owner_agent_id)?;
    let accepted_by_agent_id = column(row.accepted_by_agent_id)?;
    let status = column(row.status)?;
    let notes = column(row.notes)?;
    let required_changes = column(row.required_changes)?;
    let created_at = column(row.created_at)?;
    let updated_at = column(row.updated_at)?;
    let status = parse_handoff_status(status.as_str())?;
    let id = parse_id::<HandoffId>(id.as_str())?;
    let from_work_unit_id = parse_id::<WorkUnitId>(from_work_unit_id.as_str())?;
    let to_work_unit_id = parse_id::<WorkUnitId>(to_work_unit_id.as_str())?;
    let required_artifact_ids = parse_strings(required_artifact_ids.as_str())?;
    let checklist = parse_strings(checklist.as_str())?;
    let owner_agent_id = parse_opt_id::<AgentId>(&owner_agent_id)?;
    let accepted_by_agent_id = parse_opt_id::<AgentId>(&accepted_by_agent_id)?;
    let required_changes = parse_strings(required_changes.as_str())?;
    let created_at = parse_ts(created_at.as_str())?;
    let updated_at = parse_ts(updated_at.as_str())?;
    Ok(HandoffContract {
        id,
        from_work_unit_id,
        to_work_unit_id,
        required_artifact_ids,
        required_state,
        checklist,
        owner_agent_id,
        accepted_by_agent_id,
        status,
        notes,
        required_changes,
        created_at,
        updated_at,
    })
}

impl Decode for HandoffRow {
    type Record = HandoffContract;

    open spec fn fault(&self) -> Option<ErrorView> {
        contract_fault(*self)
    }

    open spec fn holds(&self, record: HandoffContract) -> bool {
        contract_read(*self, record)
    }

    fn decode(self) -> (r: Result<HandoffContract, CoreError>) {
        row_to_contract(self)
    }
}

/// The columns of a handoff, in the order in which they are written.
pub open spec fn contract_columns(record: HandoffContract) -> Seq<BoundView> {
    seq![
        sql_id(record.id),
        sql_id(record.from_work_unit_id),
        sql_id(record.to_work_unit_id),
        sql_text(strings_printed(texts(record.required_artifact_ids@))),
        sql_opt_text(opt_text(record.required_state)),
        sql_text(strings_printed(texts(record.checklist@))),
        sql_opt_id(record.owner_agent_id),
        sql_opt_id(record.accepted_by_agent_id),
        sql_text(record.status.text()),
        sql_opt_text(opt_text(record.notes)),
        sql_text(strings_printed(texts(record.required_changes@))),
        sql_time(record.created_at),
        sql_time(record.updated_at),
    ]
}

impl HandoffRow {
    /// Each column of the row holds what is written for it of the record.
    pub open spec fn stores(self, record: HandoffContract) -> bool {
        &&& has_text(self.id, sql_id(record.id))
        &&& has_text(self.from_work_unit_id, sql_id(record.from_work_unit_id))
        &&& has_text(self.to_work_unit_id, sql_id(record.to_work_unit_id))
        &&& has_text(self.required_artifact_ids, sql_text(strings_printed(texts(record.required_artifact_ids@))))
        &&& has_opt_text(self.required_state, sql_opt_text(opt_text(record.required_state)))
        &&& has_text(self.checklist, sql_text(strings_printed(texts(record.checklist@))))
        &&& has_opt_text(self.owner_agent_id, sql_opt_id(record.owner_agent_id))
        &&& has_opt_text(self.accepted_by_agent_id, sql_opt_id(record.accepted_by_agent_id))
        &&& has_text(self.status, sql_text(record.status.text()))
        &&& has_opt_text(self.notes, sql_opt_text(opt_text(record.notes)))
        &&& has_text(self.required_changes, sql_text(strings_printed(texts(record.required_changes@))))
        &&& has_text(self.created_at, sql_time(record.created_at))
        &&& has_text(self.updated_at, sql_time(record.updated_at))
    }
}

impl HandoffContract {
    /// The two records agree in every field.
    pub open spec fn same(self, other: HandoffContract) -> bool {
        &&& self.id == other.id
        &&& self.from_work_unit_id == other.from_work_unit_id
        &&& self.to_work_unit_id == other.to_work_unit_id
        &&& texts(self.required_artifact_ids@) == texts(other.required_artifact_ids@)
        &&& opt_text(self.required_state) == opt_text(other.required_state)
        &&& texts(self.checklist@) == texts(other.checklist@)
        &&& self.owner_agent_id == other.owner_agent_id
        &&& self.accepted_by_agent_id == other.accepted_by_agent_id
        &&& self.status == other.status
        &&& opt_text(self.notes) == opt_text(other.notes)
        &&& texts(self.required_changes@) == texts(other.required_changes@)
        &&& self.created_at == other.created_at
        &&& self.updated_at == other.updated_at
    }

    /// Every point in time of the record has an RFC 3339 text that reads back.
    pub open spec fn is_plain(self) -> bool {
        &&& self.created_at.is_plain()
        &&& self.updated_at.is_plain()
    }
}

// ── the repository ──────────────────────────────────────────────────────────

/// The query for handoffs that a filter picks.
pub fn select_sql(filter: &str) -> (r: String)
    ensures
        r@ == SELECT_HANDOFFS@ + filter@,
{
    concat2(SELECT_HANDOFFS, filter)
}

/// The statement that an event leads to, where there is one.
pub open spec fn handoff_change(event: Event) -> Option<QueryView> {
    match event {
        Event::HandoffRequested { handoff } => Some(
            statement(UPSERT_HANDOFF@, contract_columns(handoff)),
        ),
        Event::HandoffAccepted { handoff_id, by, notes, at } => Some(
            statement(
                ACCEPT@,
                seq![
                    sql_opt_id(by),
                    sql_opt_text(opt_text(notes)),
                    sql_time(at),
                    sql_id(handoff_id),
                ],
            ),
        ),
        Event::HandoffRejected { handoff_id, reason, required_changes, at } => Some(
            statement(
                REJECT@,
                seq![
                    sql_text(reason@),
                    sql_text(strings_printed(texts(required_changes@))),
                    sql_time(at),
                    sql_id(handoff_id),
                ],
            ),
        ),
        _ => None,
    }
}

impl HandoffRepo {
    /// The query for a handoff.
    pub fn get(id: &HandoffId) -> (q: Query)
        ensures
            q@ == statement(SELECT_HANDOFFS@ + "WHERE id = ?"@, seq![sql_id(*id)]),
    {
        Query::new(select_sql("WHERE id = ?").as_str()).id(id)
    }

    /// The query for the handoff from one unit to another.
    pub fn get_by_pair(from: &WorkUnitId, to: &WorkUnitId) -> (q: Query)
        ensures
            q@ == statement(SELECT_HANDOFFS@ + BY_PAIR@, seq![sql_id(*from), sql_id(*to)]),
    {
        Query::new(select_sql(BY_PAIR).as_str()).id(from).id(to)
    }

    /// The query for the handoffs from and to a unit, the last changed first.
    pub fn list_for_work_unit(id: &WorkUnitId) -> (q: Query)
        ensures
            q@ == statement(SELECT_HANDOFFS@ + BY_WORK_UNIT@, seq![sql_id(*id), sql_id(*id)]),
    {
        Query::new(select_sql(BY_WORK_UNIT).as_str()).id(id).id(id)
    }

    /// The statement that writes a handoff. What it writes reads back.
    pub fn upsert(h: &HandoffContract) -> (q: Query)
        ensures
            q@ == statement(UPSERT_HANDOFF@, contract_columns(*h)),
            h.is_plain() ==> forall|row: HandoffRow|
                #[trigger] row.stores(*h) ==> contract_fault(row) is None && forall|record: HandoffContract|
                    contract_read(row, record) ==> record.same(*h),
    {
        Query::new(UPSERT_HANDOFF)
            .id(&h.id)
            .id(&h.from_work_unit_id)
            .id(&h.to_work_unit_id)
            .text(print_strings(&h.required_artifact_ids).as_str())
            .opt_text(&h.required_state)
            .text(print_strings(&h.checklist).as_str())
            .opt_id(&h.owner_agent_id)
            .opt_id(&h.accepted_by_agent_id)
            .text(h.status.as_str())
            .opt_text(&h.notes)
            .text(print_strings(&h.required_changes).as_str())
            .time(&h.created_at)
            .time(&h.updated_at)
    }

    /// The statement that applies an event to the handoffs, where there is one. What is
    /// written of a handoff reads back.
    pub fn apply_event(env: &EventEnvelope) -> (r: Option<Query>)
        ensures
            match handoff_change(env.payload) {
                Some(s) => r is Some && r->Some_0@ == s,
                None => r is None,
            },
            env.payload matches Event::HandoffRequested { handoff } ==> handoff.is_plain()
                ==> forall|row: HandoffRow| #[trigger]
                row.stores(handoff) ==> contract_fault(row) is None && forall|
                record: HandoffContract,
            |
                contract_read(row, record) ==> record.same(handoff),
            env.payload matches Event::HandoffRejected { required_changes, .. } ==> strings_parsed(
                strings_printed(texts(required_changes@)),
            ) == Ok::<Seq<Seq<char>>, Seq<char>>(texts(required_changes@)),
    {
        match &env.payload {
            Event::HandoffRequested { handoff } => Some(HandoffRepo::upsert(handoff)),
            Event::HandoffAccepted { handoff_id, by, notes, at } => {
                let q = Query::new(ACCEPT).opt_id(by).opt_text(notes).time(at).id(handoff_id);
                assert(q@.binds =~= seq![
                    sql_opt_id(*by),
                    sql_opt_text(opt_text(*notes)),
                    sql_time(*at),
                    sql_id(*handoff_id),
                ]);
                Some(q)
            },
            Event::HandoffRejected { handoff_id, reason, required_changes, at } => {
                let changes = print_strings(required_changes);
                let q = Query::new(REJECT)
                    .text(reason.as_str())
                    .text(changes.as_str())
                    .time(at)
                    .id(handoff_id);
                assert(q@.binds =~= seq![
                    sql_text(reason@),
                    sql_text(strings_printed(texts(required_changes@))),
                    sql_time(*at),
                    sql_id(*handoff_id),
                ]);
                Some(q)
            },
            _ => None,
        }
    }
}

// ── laws ────────────────────────────────────────────────────────────────────

/// The stored handoffs.
pub type HandoffTable = Map<HandoffId, HandoffContract>;

/// The handoffs after one was requested: the row of a known one is written anew, but for its
/// units and the time of its creation.
pub open spec fn requested(table: HandoffTable, handoff: HandoffContract) -> HandoffTable {
    if table.dom().contains(handoff.id) {
        let before = table[handoff.id];
        table.insert(
            handoff.id,
            HandoffContract {
                from_work_unit_id: before.from_work_unit_id,
                to_work_unit_id: before.to_work_unit_id,
                created_at: before.created_at,
                ..handoff
            },
        )
    } else {
        table.insert(handoff.id, handoff)
    }
}

/// The handoffs after one was rejected; an unknown one is none.
pub open spec fn rejected(
    table: HandoffTable,
    id: HandoffId,
    reason: String,
    required_changes: Vec<String>,
    at: Timestamp,
) -> HandoffTable {
    if table.dom().contains(id) {
        table.insert(
            id,
            HandoffContract {
                status: HandoffStatus::Rejected,
                notes: Some(reason),
                required_changes,
                updated_at: at,
                ..table[id]
            },
        )
    } else {
        table
    }
}

/// A handoff that is requested again after it was rejected is the same handoff: no row is
/// added, it is open again as the new request says, what was asked of it at the rejection is
/// gone, and its units and the time of its creation are those of the first request.
pub proof fn lemma_new_request_reopens_handoff(
    table: HandoffTable,
    first: HandoffContract,
    reason: String,
    required_changes: Vec<String>,
    at: Timestamp,
    second: HandoffContract,
)
    requires
        !table.dom().contains(first.id),
        second.id == first.id,
        second.status == HandoffStatus::Open,
    ensures
        ({
            let turned_down = rejected(
                requested(table, first),
                first.id,
                reason,
                required_changes,
                at,
            );
            let again = requested(turned_down, second);
            &&& turned_down[first.id].status == HandoffStatus::Rejected
            &&& again.dom() == turned_down.dom()
            &&& again == table.insert(first.id, again[first.id])
            &&& again[first.id].status == HandoffStatus::Open
            &&& again[first.id].required_changes == second.required_changes
            &&& again[first.id].notes == second.notes
            &&& again[first.id].from_work_unit_id == first.from_work_unit_id
            &&& again[first.id].to_work_unit_id == first.to_work_unit_id
            &&& again[first.id].created_at == first.created_at
        }),
{
    let turned_down = rejected(requested(table, first), first.id, reason, required_changes, at);
    let again = requested(turned_down, second);
    assert(again.dom() =~= turned_down.dom());
    assert(again =~= table.insert(first.id, again[first.id]));
}

/// A handoff that is accepted has who accepted it, the notes and the time of the event; one
/// that is rejected has the reason, the changes that are asked for and the time. Each is
/// written to the handoff of the event, and no other event changes one.
pub proof fn lemma_handoff_events_are_written(event: Event)
    ensures
        event matches Event::HandoffRequested { handoff } ==> handoff_change(event) == Some(
            statement(UPSERT_HANDOFF@, contract_columns(handoff)),
        ),
        event matches Event::HandoffAccepted { handoff_id, by, notes, at } ==> handoff_change(
            event,
        ) is Some && handoff_change(event)->Some_0.sql == ACCEPT@ && handoff_change(
            event,
        )->Some_0.binds == seq![
            sql_opt_id(by),
            sql_opt_text(opt_text(notes)),
            sql_time(at),
            sql_id(handoff_id),
        ],
        event matches Event::HandoffRejected { handoff_id, reason, required_changes, at }
            ==> handoff_change(event) is Some && handoff_change(event)->Some_0.sql == REJECT@
            && handoff_change(event)->Some_0.binds == seq![
            sql_text(reason@),
            sql_text(strings_printed(texts(required_changes@))),
            sql_time(at),
            sql_id(handoff_id),
        ],
        handoff_change(event) is Some <==> event is HandoffRequested || event is HandoffAccepted
            || event is HandoffRejected,
{
}

/// Each field of a handoff has a column of its own: what is written of one that changes is
/// written in its column, and the other columns stay.
pub proof fn lemma_handoff_contract_has_a_column_for_each_field(
    record: HandoffContract,
    other: HandoffContract,
)
    ensures
        contract_columns(HandoffContract { id: other.id, ..record })
            == contract_columns(record).update(0, sql_id(other.id)),
        contract_columns(HandoffContract { from_work_unit_id: other.from_work_unit_id, ..record })
            == contract_columns(record).update(1, sql_id(other.from_work_unit_id)),
        contract_columns(HandoffContract { to_work_unit_id: other.to_work_unit_id, ..record })
            == contract_columns(record).update(2, sql_id(other.to_work_unit_id)),
        contract_columns(
            HandoffContract { required_artifact_ids: other.required_artifact_ids, ..record },
        )
            == contract_columns(record).update(
                3,
                sql_text(strings_printed(texts(other.required_artifact_ids@))),
            ),
        contract_columns(HandoffContract { required_state: other.required_state, ..record })
            == contract_columns(record).update(4, sql_opt_text(opt_text(other.required_state))),
        contract_columns(HandoffContract { checklist: other.checklist, ..record })
            == contract_columns(record).update(
                5,
                sql_text(strings_printed(texts(other.checklist@))),
            ),
        contract_columns(HandoffContract { owner_agent_id: other.owner_agent_id, ..record })
            == contract_columns(record).update(6, sql_opt_id(other.owner_agent_id)),
        contract_columns(
            HandoffContract { accepted_by_agent_id: other.accepted_by_agent_id, ..record },
        )
            == contract_columns(record).update(7, sql_opt_id(other.accepted_by_agent_id)),
        contract_columns(HandoffContract { status: other.status, ..record })
            == contract_columns(record).update(8, sql_text(other.status.text())),
        contract_columns(HandoffContract { notes: other.notes, ..record })
            == contract_columns(record).update(9, sql_opt_text(opt_text(other.notes))),
        contract_columns(HandoffContract { required_changes: other.required_changes, ..record })
            == contract_columns(record).update(
                10,
                sql_text(strings_printed(texts(other.required_changes@))),
            ),
        contract_columns(HandoffContract { created_at: other.created_at, ..record })
            == contract_columns(record).update(11, sql_time(other.created_at)),
        contract_columns(HandoffContract { updated_at: other.updated_at, ..record })
            == contract_columns(record).update(12, sql_time(other.updated_at)),
        contract_columns(record).len() == 13,
{
}

/// Each field of a handoff is read from columns of its own: what is read of a row with another
/// value there differs in that field alone.
pub proof fn lemma_handoff_contract_is_read_field_by_field(
    row: HandoffRow,
    record: HandoffContract,
    other_row: HandoffRow,
    other: HandoffContract,
)
    requires
        contract_read(row, record),
        contract_read(other_row, other),
    ensures
        contract_read(
            HandoffRow { id: other_row.id, ..row },
            HandoffContract { id: other.id, ..record },
        ),
        contract_read(
            HandoffRow { from_work_unit_id: other_row.from_work_unit_id, ..row },
            HandoffContract { from_work_unit_id: other.from_work_unit_id, ..record },
        ),
        contract_read(
            HandoffRow { to_work_unit_id: other_row.to_work_unit_id, ..row },
            HandoffContract { to_work_unit_id: other.to_work_unit_id, ..record },
        ),
        contract_read(
            HandoffRow { required_artifact_ids: other_row.required_artifact_ids, ..row },
            HandoffContract { required_artifact_ids: other.required_artifact_ids, ..record },
        ),
        contract_read(
            HandoffRow { required_state: other_row.required_state, ..row },
            HandoffContract { required_state: other.required_state, ..record },
        ),
        contract_read(
            HandoffRow { checklist: other_row.checklist, ..row },
            HandoffContract { checklist: other.checklist, ..record },
        ),
        contract_read(
            HandoffRow { owner_agent_id: other_row.owner_agent_id, ..row },
            HandoffContract { owner_agent_id: other.owner_agent_id, ..record },
        ),
        contract_read(
            HandoffRow { accepted_by_agent_id: other_row.accepted_by_agent_id, ..row },
            HandoffContract { accepted_by_agent_id: other.accepted_by_agent_id, ..record },
        ),
        contract_read(
            HandoffRow { status: other_row.status, ..row },
            HandoffContract { status: other.status, ..record },
        ),
        contract_read(
            HandoffRow { notes: other_row.notes, ..row },
            HandoffContract { notes: other.notes, ..record },
        ),
        contract_read(
            HandoffRow { required_changes: other_row.required_changes, ..row },
            HandoffContract { required_changes: other.required_changes, ..record },
        ),
        contract_read(
            HandoffRow { created_at: other_row.created_at, ..row },
            HandoffContract { created_at: other.created_at, ..record },
        ),
        contract_read(
            HandoffRow { updated_at: other_row.updated_at, ..row },
            HandoffContract { updated_at: other.updated_at, ..record },
        ),
{
}

/// A row stores each field of a handoff in columns of its own: with another value there it
/// stores what differs in that field alone.
pub proof fn lemma_handoff_contract_is_stored_field_by_field(
    row: HandoffRow,
    record: HandoffContract,
    other_row: HandoffRow,
    other: HandoffContract,
)
    requires
        row.stores(record),
        other_row.stores(other),
    ensures
        (HandoffRow { id: other_row.id, ..row }).stores(HandoffContract { id: other.id, ..record }),
        (HandoffRow { from_work_unit_id: other_row.from_work_unit_id, ..row }).stores(
            HandoffContract { from_work_unit_id: other.from_work_unit_id, ..record },
        ),
        (HandoffRow { to_work_unit_id: other_row.to_work_unit_id, ..row }).stores(
            HandoffContract { to_work_unit_id: other.to_work_unit_id, ..record },
        ),
        (HandoffRow { required_artifact_ids: other_row.required_artifact_ids, ..row }).stores(
            HandoffContract { required_artifact_ids: other.required_artifact_ids, ..record },
        ),
        (HandoffRow { required_state: other_row.required_state, ..row }).stores(
            HandoffContract { required_state: other.required_state, ..record },
        ),
        (HandoffRow { checklist: other_row.checklist, ..row }).stores(
            HandoffContract { checklist: other.checklist, ..record },
        ),
        (HandoffRow { owner_agent_id: other_row.owner_agent_id, ..row }).stores(
            HandoffContract { owner_agent_id: other.owner_agent_id, ..record },
        ),
        (HandoffRow { accepted_by_agent_id: other_row.accepted_by_agent_id, ..row }).stores(
            HandoffContract { accepted_by_agent_id: other.accepted_by_agent_id, ..record },
        ),
        (HandoffRow { status: other_row.status, ..row }).stores(
            HandoffContract { status: other.status, ..record },
        ),
        (HandoffRow { notes: other_row.notes, ..row }).stores(
            HandoffContract { notes: other.notes, ..record },
        ),
        (HandoffRow { required_changes: other_row.required_changes, ..row }).stores(
            HandoffContract { required_changes: other.required_changes, ..record },
        ),
        (HandoffRow { created_at: other_row.created_at, ..row }).stores(
            HandoffContract { created_at: other.created_at, ..record },
        ),
        (HandoffRow { updated_at: other_row.updated_at, ..row }).stores(
            HandoffContract { updated_at: other.updated_at, ..record },
        ),
{
}

/// A row of a handoff without a fault says what is read from it: each identifier, time, state
/// and text stands in it as it is read.
pub proof fn lemma_handoff_contract_is_what_the_row_says(row: HandoffRow, record: HandoffContract)
    requires
        (contract_fault(row) is None && contract_read(row, record))
            || (row.fault() is None && row.holds(record)),
    ensures
        row.id is Ok
            && crate::ids::id_parsed::<HandoffId>(row.id->Ok_0@) == Ok::<HandoffId, Seq<char>>(
                record.id,
            ),
        row.from_work_unit_id is Ok
            && crate::ids::id_parsed::<WorkUnitId>(row.from_work_unit_id->Ok_0@)
                == Ok::<WorkUnitId, Seq<char>>(record.from_work_unit_id),
        row.to_work_unit_id is Ok
            && crate::ids::id_parsed::<WorkUnitId>(row.to_work_unit_id->Ok_0@)
                == Ok::<WorkUnitId, Seq<char>>(record.to_work_unit_id),
        row.required_artifact_ids is Ok
            && strings_parsed(row.required_artifact_ids->Ok_0@) == Ok::<Seq<Seq<char>>, Seq<char>>(
                texts(record.required_artifact_ids@),
            ),
        row.required_state is Ok && row.required_state->Ok_0 == record.required_state,
        row.checklist is Ok
            && strings_parsed(row.checklist->Ok_0@) == Ok::<Seq<Seq<char>>, Seq<char>>(
                texts(record.checklist@),
            ),
        row.owner_agent_id is Ok
            && (row.owner_agent_id->Ok_0 is None <==> record.owner_agent_id is None),
        row.owner_agent_id->Ok_0 matches Some(s)
            ==> crate::ids::id_parsed::<AgentId>(s@) == Ok::<AgentId, Seq<char>>(
                record.owner_agent_id->Some_0,
            ),
        row.accepted_by_agent_id is Ok
            && (row.accepted_by_agent_id->Ok_0 is None <==> record.accepted_by_agent_id is None),
        row.accepted_by_agent_id->Ok_0 matches Some(s)
            ==> crate::ids::id_parsed::<AgentId>(s@) == Ok::<AgentId, Seq<char>>(
                record.accepted_by_agent_id->Some_0,
            ),
        row.status is Ok && row.status->Ok_0@ == record.status.text(),
        row.notes is Ok && row.notes->Ok_0 == record.notes,
        row.required_changes is Ok
            && strings_parsed(row.required_changes->Ok_0@) == Ok::<Seq<Seq<char>>, Seq<char>>(
                texts(record.required_changes@),
            ),
        row.created_at is Ok
            && crate::time::rfc3339_parsed(row.created_at->Ok_0@) == Ok::<(i64, u32), Seq<char>>(
                (record.created_at.seconds(), record.created_at.subsec()),
            ),
        row.updated_at is Ok
            && crate::time::rfc3339_parsed(row.updated_at->Ok_0@) == Ok::<(i64, u32), Seq<char>>(
                (record.updated_at.seconds(), record.updated_at.subsec()),
            ),
{
    record.status.lemma_stored_names(row.status->Ok_0@);
    crate::time::lemma_time_is_read_from_its_text(row.created_at->Ok_0@);
    crate::time::lemma_time_is_read_from_its_text(row.updated_at->Ok_0@);
}

/// A text that stands for no value is reported with the text; one that stands for a value is
/// not reported.
pub proof fn lemma_unknown_handoff_status_is_reported(v: HandoffStatus, s: Seq<char>)
    ensures
        handoff_status_fault(v.text()) is None,
        (forall|w: HandoffStatus| #[trigger] w.text() != s) ==> handoff_status_fault(s) == Some(
            ErrorView::Serde("unknown handoff status: "@ + quoted(s)),
        ),
{
    v.lemma_text_names_value();
    v.lemma_stored_names(s);
}

/// A row of a handoff is refused for what is wrong with a column, with the error of that
/// column; where nothing is wrong with any, nothing is refused.
pub proof fn lemma_handoff_contract_is_refused_for_its_columns(row: HandoffRow, other: HandoffRow)
    requires
        contract_fault(row) is None,
    ensures
        contract_fault(HandoffRow { id: other.id, ..row }) == column_fault(other.id).or_fault(
            id_fault::<HandoffId>(other.id->Ok_0@),
        ),
        contract_fault(HandoffRow { from_work_unit_id: other.from_work_unit_id, ..row })
            == column_fault(other.from_work_unit_id).or_fault(
                id_fault::<WorkUnitId>(other.from_work_unit_id->Ok_0@),
            ),
        contract_fault(HandoffRow { to_work_unit_id: other.to_work_unit_id, ..row })
            == column_fault(other.to_work_unit_id).or_fault(
                id_fault::<WorkUnitId>(other.to_work_unit_id->Ok_0@),
            ),
        contract_fault(HandoffRow { required_artifact_ids: other.required_artifact_ids, ..row })
            == column_fault(other.required_artifact_ids).or_fault(
                strings_fault(other.required_artifact_ids->Ok_0@),
            ),
        contract_fault(HandoffRow { required_state: other.required_state, ..row }) == column_fault(
            other.required_state,
        ),
        contract_fault(HandoffRow { checklist: other.checklist, ..row })
            == column_fault(other.checklist).or_fault(strings_fault(other.checklist->Ok_0@)),
        contract_fault(HandoffRow { owner_agent_id: other.owner_agent_id, ..row })
            == column_fault(other.owner_agent_id).or_fault(
                opt_id_fault::<AgentId>(other.owner_agent_id->Ok_0),
            ),
        contract_fault(HandoffRow { accepted_by_agent_id: other.accepted_by_agent_id, ..row })
            == column_fault(other.accepted_by_agent_id).or_fault(
                opt_id_fault::<AgentId>(other.accepted_by_agent_id->Ok_0),
            ),
        contract_fault(HandoffRow { status: other.status, ..row })
            == column_fault(other.status).or_fault(handoff_status_fault(other.status->Ok_0@)),
        contract_fault(HandoffRow { notes: other.notes, ..row }) == column_fault(other.notes),
        contract_fault(HandoffRow { required_changes: other.required_changes, ..row })
            == column_fault(other.required_changes).or_fault(
                strings_fault(other.required_changes->Ok_0@),
            ),
        contract_fault(HandoffRow { created_at: other.created_at, ..row })
            == column_fault(other.created_at).or_fault(ts_fault(other.created_at->Ok_0@)),
        contract_fault(HandoffRow { updated_at: other.updated_at, ..row })
            == column_fault(other.updated_at).or_fault(ts_fault(other.updated_at->Ok_0@)),
{
}

} // verus!
