//! The event log, in the `events` table.
use vstd::prelude::*;

use crate::domain::Actor;
use crate::error::{CoreError, ErrorView};
use crate::events::{Event, EventEnvelope};
use crate::ids::{
    id_fault, id_value, opt_id_fault, opt_id_value, parse_id, parse_opt_id, DeviceId, EventId,
};
use crate::query::{
    sql_actor, sql_id, sql_int, sql_opt_id, sql_text, sql_time, statement, BoundView, Query,
    QueryView,
};
use crate::rows::{
    column, column_fault, has_actor, has_int, has_opt_text, has_text, lemma_sign_change_undone,
    parsed, parsed_fault, Column, Decode, Faults, Parsed,
};
use crate::text::{concat2, placeholder_list, placeholders};
use crate::time::{parse_ts, ts_fault, ts_value};

verus! {

/// The event log.
#[derive(Clone, Copy, Debug)]
pub struct SqliteEventStore;

/// The most events that one statement writes: their values stay within the number of
/// variables that a statement may have.
pub const CHUNK: usize = 3_000;

pub const INSERT_EVENT: &'static str = "INSERT INTO events \
     (event_id, occurred_at, kind, actor_json, payload_json, origin_device_id, origin_seq) \
     VALUES (?, ?, ?, ?, ?, ?, ?)";

pub const INSERT_EVENTS: &'static str = "INSERT INTO events \
     (event_id, occurred_at, kind, actor_json, payload_json, origin_device_id, origin_seq) ";

pub const LOAD_SINCE: &'static str = "SELECT seq, event_id, occurred_at, actor_json, payload_json, \
     origin_device_id, origin_seq \
     FROM events WHERE seq > ? ORDER BY seq ASC LIMIT ?";

pub const LOAD_BY_ID: &'static str = "SELECT seq, event_id, occurred_at, actor_json, payload_json, \
     origin_device_id, origin_seq \
     FROM events WHERE event_id = ? LIMIT 1";

pub const LATEST_SEQ: &'static str = "SELECT COALESCE(MAX(seq), 0) AS max_seq FROM events";

// ── rows ────────────────────────────────────────────────────────────────────

/// A row of the `events` table.
#[derive(Debug, PartialEq, Eq)]
pub struct EventRow {
    pub seq: Column<i64>,
    pub event_id: Column<String>,
    pub occurred_at: Column<String>,
    pub actor_json: Column<Parsed<Actor>>,
    pub payload_json: Column<Parsed<Event>>,
    pub origin_device_id: Column<Option<String>>,
    pub origin_seq: Column<i64>,
}

/// What is wrong with an event row, where something is: the columns and their
/// values are looked at in this order.
pub open spec fn event_fault(row: EventRow) -> Option<ErrorView> {
    column_fault(row.seq).or_fault(
        column_fault(row.event_id),
    ).or_fault(
        column_fault(row.occurred_at),
    ).or_fault(
        column_fault(row.actor_json),
    ).or_fault(
        column_fault(row.payload_json),
    ).or_fault(
        column_fault(row.origin_device_id),
    ).or_fault(
        column_fault(row.origin_seq),
    ).or_fault(
        id_fault::<EventId>(row.event_id->Ok_0@),
    ).or_fault(
        ts_fault(row.occurred_at->Ok_0@),
    ).or_fault(
        parsed_fault(row.actor_json->Ok_0),
    ).or_fault(
        parsed_fault(row.payload_json->Ok_0),
    ).or_fault(
        opt_id_fault::<DeviceId>(row.origin_device_id->Ok_0),
    )
}

/// The record is what a sound event row says.
pub open spec fn event_read(row: EventRow, record: EventEnvelope) -> bool {
    &&& record.seq == row.seq->Ok_0 as u64
    &&& record.id == id_value::<EventId>(row.event_id->Ok_0@)
    &&& record.occurred_at == ts_value(row.occurred_at->Ok_0@)
    &&& record.actor == row.actor_json->Ok_0->Ok_0
    &&& record.payload == row.payload_json->Ok_0->Ok_0
    &&& record.origin_device_id == opt_id_value::<DeviceId>(row.origin_device_id->Ok_0)
    &&& record.origin_seq == row.origin_seq->Ok_0 as u64
}

/// Reads an event from its row.
pub fn parse_row(row: EventRow) -> (r: Result<EventEnvelope, CoreError>)
    ensures
        match event_fault(row) {
            Some(e) => r is Err && r->Err_0@ == e,
            None => r is Ok && event_read(row, r->Ok_0),
        },
{
    let seq = column(row.seq)?;
    let event_id = column(row.event_id)?;
    let occurred_at = column(row.occurred_at)?;
    let actor_json = column(row.actor_json)?;
    let payload_json = column(row.payload_json)?;
    let origin_device_id = column(row.origin_device_id)?;
    let origin_seq = column(row.origin_seq)?;
    let event_id = parse_id::<EventId>(event_id.as_str())?;
    let occurred_at = parse_ts(occurred_at.as_str())?;
    let actor_json = parsed(actor_json)?;
    let payload_json = parsed(payload_json)?;
    let origin_device_id = parse_opt_id::<DeviceId>(&origin_device_id)?;
    Ok(EventEnvelope {
        seq: seq as u64,
        id: event_id,
        occurred_at,
        actor: actor_json,
        payload: payload_json,
        origin_device_id,
        origin_seq: origin_seq as u64,
    })
}

impl Decode for EventRow {
    type Record = EventEnvelope;

    open spec fn fault(&self) -> Option<ErrorView> {
        event_fault(*self)
    }

    open spec fn holds(&self, record: EventEnvelope) -> bool {
        event_read(*self, record)
    }

    fn decode(self) -> (r: Result<EventEnvelope, CoreError>) {
        parse_row(self)
    }
}

/// The columns of an event, in the order in which they are written. The payload is written
/// as its JSON text.
pub open spec fn event_columns(env: EventEnvelope, payload_json: Seq<char>) -> Seq<BoundView> {
    seq![
        sql_id(env.id),
        sql_time(env.occurred_at),
        sql_text(env.payload.kind_text()),
        sql_actor(env.actor),
        sql_text(payload_json),
        sql_opt_id(env.origin_device_id),
        sql_int(env.origin_seq as i64 as int),
    ]
}

impl EventRow {
    /// Each column of the row but its number holds what is written for it of the event.
    pub open spec fn stores(self, env: EventEnvelope) -> bool {
        &&& self.seq is Ok
        &&& has_text(self.event_id, sql_id(env.id))
        &&& has_text(self.occurred_at, sql_time(env.occurred_at))
        &&& has_actor(self.actor_json, sql_actor(env.actor))
        &&& self.payload_json == Ok::<Parsed<Event>, String>(Ok(env.payload))
        &&& has_opt_text(self.origin_device_id, sql_opt_id(env.origin_device_id))
        &&& has_int(self.origin_seq, sql_int(env.origin_seq as i64 as int))
    }
}

/// The envelopes agree in everything but their numbers.
pub open spec fn same_but_seq(a: EventEnvelope, b: EventEnvelope) -> bool {
    &&& a.id == b.id
    &&& a.occurred_at == b.occurred_at
    &&& a.actor@ == b.actor@
    &&& a.origin_device_id == b.origin_device_id
    &&& a.origin_seq == b.origin_seq
    &&& a.payload == b.payload
}

/// An event with the JSON text of its payload.
#[derive(Clone, Debug, PartialEq, Eq)]
pub struct Entry {
    pub env: EventEnvelope,
    pub payload_json: String,
}

/// The envelopes of some entries.
pub open spec fn envelopes_of(entries: Seq<Entry>) -> Seq<EventEnvelope> {
    entries.map_values(|e: Entry| e.env)
}

/// The values of some entries, one after the other.
pub open spec fn entry_binds(entries: Seq<Entry>) -> Seq<BoundView>
    decreases entries.len(),
{
    if entries.len() == 0 {
        seq![]
    } else {
        entry_binds(entries.drop_last()) + event_columns(
            entries.last().env,
            entries.last().payload_json@,
        )
    }
}

/// A tuple of placeholders for the columns of an event.
pub open spec fn event_tuple() -> Seq<char> {
    "("@ + placeholder_list(7, ", "@) + ")"@
}

/// The tuples of placeholders for some events.
pub open spec fn event_tuples(n: nat) -> Seq<char>
    decreases n,
{
    if n == 0 {
        seq![]
    } else if n == 1 {
        event_tuple()
    } else {
        event_tuples((n - 1) as nat) + ", "@ + event_tuple()
    }
}

/// The statement that writes some events.
pub open spec fn chunk_insert(entries: Seq<Entry>) -> QueryView {
    statement(
        INSERT_EVENTS@ + "VALUES "@ + event_tuples(entries.len()),
        entry_binds(entries),
    )
}

/// The envelope with a number.
pub open spec fn numbered(env: EventEnvelope, seq: u64) -> EventEnvelope {
    EventEnvelope { seq, ..env }
}

fn bind_event(q: Query, env: &EventEnvelope, payload_json: &str) -> (r: Query)
    ensures
        r@ == statement(q@.sql, q@.binds + event_columns(*env, payload_json@)),
        env.occurred_at.is_plain() ==> forall|row: EventRow| #[trigger]
            row.stores(*env) ==> event_fault(row) is None && forall|record: EventEnvelope|
                event_read(row, record) ==> same_but_seq(record, *env),
{
    proof {
        lemma_sign_change_undone(env.origin_seq);
    }
    let r = q
        .id(&env.id)
        .time(&env.occurred_at)
        .text(env.kind())
        .actor(&env.actor)
        .text(payload_json)
        .opt_id(&env.origin_device_id)
        .number(env.origin_seq as i64);
    assert(r@.binds =~= q@.binds + event_columns(*env, payload_json@));
    r
}

// ── batches ─────────────────────────────────────────────────────────────────

/// Events that are to be appended, chunk by chunk, and those that have been.
#[derive(Clone, Debug, PartialEq, Eq)]
pub struct Batch {
    pub left: Vec<Entry>,
    pub appended: Vec<EventEnvelope>,
}

/// The next step of a batch.
#[derive(Clone, Debug, PartialEq, Eq)]
pub enum BatchStep {
    /// Write these events, and hand the number of the last of their rows to
    /// [`Batch::inserted`].
    Insert { insert: Query, chunk: Vec<EventEnvelope>, rest: Batch },
    /// All events have been written.
    Done { appended: Vec<EventEnvelope> },
}

impl Batch {
    /// The next step: the next events of those that are left, as many as one statement may
    /// write.
    pub fn next(self) -> (r: BatchStep)
        ensures
            self.left@.len() == 0 ==> r == (BatchStep::Done { appended: self.appended }),
            self.left@.len() > 0 ==> (r matches BatchStep::Insert { insert, chunk, rest } && {
                let n = if self.left@.len() <= CHUNK {
                    self.left@.len() as int
                } else {
                    CHUNK as int
                };
                &&& insert@ == chunk_insert(self.left@.take(n))
                &&& chunk@ == envelopes_of(self.left@.take(n))
                &&& rest.left@ == self.left@.skip(n)
                &&& rest.appended == self.appended
            }),
    {
        let mut left = self.left;
        if left.len() == 0 {
            return BatchStep::Done { appended: self.appended };
        }
        let n: usize = if left.len() <= CHUNK {
            left.len()
        } else {
            CHUNK
        };
        let rest = left.split_off(n);
        assert(left@ =~= self.left@.take(n as int));
        assert(rest@ =~= self.left@.skip(n as int));
        let ghost taken = left@;
        let mut sql = concat2(INSERT_EVENTS, "VALUES ");
        let mut tuples = String::new();
        assert(tuples@ =~= seq![]);
        let mut i: usize = 0;
        let tuple = placeholders(7, ", ");
        while i < n
            invariant
                i <= n,
                tuples@ == event_tuples(i as nat),
                tuple@ == placeholder_list(7, ", "@),
            decreases n - i,
        {
            if i > 0 {
                tuples.append(", ");
            }
            tuples.append("(");
            tuples.append(tuple.as_str());
            tuples.append(")");
            proof {
                if i == 0 {
                    assert(tuples@ =~= event_tuple());
                } else {
                    assert(tuples@ =~= event_tuples(i as nat) + ", "@ + event_tuple());
                }
            }
            i = i + 1;
        }
        sql.append(tuples.as_str());
        let mut insert = Query::new(sql.as_str());
        let mut chunk: Vec<EventEnvelope> = Vec::new();
        for entry in it: left
            invariant
                it.seq() == taken,
                insert@.sql == sql@,
                insert@.binds == entry_binds(taken.take(it.index() as int)),
                chunk@ == envelopes_of(taken.take(it.index() as int)),
        {
            proof {
                assert(taken.take(it.index() + 1).drop_last() =~= taken.take(it.index() as int));
                assert(taken.take(it.index() + 1).last() == entry);
                assert(envelopes_of(taken.take(it.index() + 1)) =~= envelopes_of(
                    taken.take(it.index() as int),
                ).push(entry.env));
            }
            insert = bind_event(insert, &entry.env, entry.payload_json.as_str());
            chunk.push(entry.env);
        }
        assert(taken.take(taken.len() as int) =~= taken);
        BatchStep::Insert { insert, chunk, rest: Batch { left: rest, appended: self.appended } }
    }

    /// Notes that the events of a chunk were written. The rows of one statement are
    /// numbered one after the other, so the number of the last one gives all.
    pub fn inserted(self, chunk: Vec<EventEnvelope>, last_insert_rowid: i64) -> (r: Batch)
        requires
            0 < chunk@.len() <= last_insert_rowid as u64,
        ensures
            r.left == self.left,
            r.appended@ == self.appended@ + numbered_from(
                chunk@,
                (last_insert_rowid as u64 - chunk@.len() + 1) as u64,
            ),
    {
        let last: u64 = last_insert_rowid as u64;
        let count: u64 = chunk.len() as u64;
        let first: u64 = last - count + 1;
        let mut appended = self.appended;
        let ghost before = appended@;
        let ghost whole = chunk@;
        let mut i: u64 = 0;
        for env in it: chunk
            invariant
                it.seq() == whole,
                i == it.index(),
                count == whole.len(),
                first == last - count + 1,
                count <= last,
                appended@ == before + numbered_from(whole, first).take(it.index() as int),
        {
            proof {
                assert(numbered_from(whole, first).take(it.index() + 1) =~= numbered_from(
                    whole,
                    first,
                ).take(it.index() as int).push(
                    numbered(whole[it.index() as int], (first + it.index()) as u64),
                ));
            }
            appended.push(EventEnvelope { seq: first + i, ..env });
            i = i + 1;
        }
        assert(numbered_from(whole, first).take(whole.len() as int) =~= numbered_from(
            whole,
            first,
        ));
        Batch { left: self.left, appended }
    }
}

/// Envelopes that are numbered one after the other.
pub open spec fn numbered_from(chunk: Seq<EventEnvelope>, first: u64) -> Seq<EventEnvelope> {
    Seq::new(chunk.len(), |i: int| numbered(chunk[i], (first + i) as u64))
}

// ── the store ───────────────────────────────────────────────────────────────

impl SqliteEventStore {
    /// The statement that appends an event. What it writes reads back.
    pub fn append(env: &EventEnvelope, payload_json: &str) -> (q: Query)
        ensures
            q@ == statement(INSERT_EVENT@, event_columns(*env, payload_json@)),
            env.occurred_at.is_plain() ==> forall|row: EventRow| #[trigger]
                row.stores(*env) ==> event_fault(row) is None && forall|record: EventEnvelope|
                    event_read(row, record) ==> same_but_seq(record, *env),
    {
        let q = Query::new(INSERT_EVENT);
        let r = bind_event(q, env, payload_json);
        assert(q@.binds + event_columns(*env, payload_json@) =~= event_columns(
            *env,
            payload_json@,
        ));
        r
    }

    /// The event once it has been appended: it is numbered by its row.
    pub fn appended(env: EventEnvelope, last_insert_rowid: i64) -> (r: EventEnvelope)
        ensures
            r == numbered(env, last_insert_rowid as u64),
    {
        EventEnvelope { seq: last_insert_rowid as u64, ..env }
    }

    /// The events that are to be appended together.
    pub fn append_batch(entries: Vec<Entry>) -> (r: Batch)
        ensures
            r.left == entries,
            r.appended@.len() == 0,
    {
        Batch { left: entries, appended: Vec::new() }
    }

    /// The query for the events after a number, in order.
    pub fn load_since(since_seq: u64, limit: usize) -> (q: Query)
        ensures
            q@ == statement(
                LOAD_SINCE@,
                seq![sql_int(since_seq as i64 as int), sql_int(limit as i64 as int)],
            ),
    {
        Query::new(LOAD_SINCE).number(since_seq as i64).number(limit as i64)
    }

    /// The query for an event.
    pub fn load_by_id(id: &EventId) -> (q: Query)
        ensures
            q@ == statement(LOAD_BY_ID@, seq![sql_id(*id)]),
    {
        Query::new(LOAD_BY_ID).id(id)
    }

    /// The query for the number of the last event.
    pub fn latest_seq() -> (q: Query)
        ensures
            q@ == statement(LATEST_SEQ@, seq![]),
    {
        Query::new(LATEST_SEQ)
    }

    /// The number of the last event: nothing has the number zero.
    pub fn read_latest_seq(max_seq: Column<i64>) -> (r: Result<u64, CoreError>)
        ensures
            match column_fault(max_seq) {
                Some(e) => r is Err && r->Err_0@ == e,
                None => r is Ok && r->Ok_0 == max_seq->Ok_0 as u64,
            },
    {
        let seq: i64 = column(max_seq)?;
        Ok(seq as u64)
    }
}

// ── laws ────────────────────────────────────────────────────────────────────

/// The events of a chunk are numbered without gaps, in the order in which they were given,
/// and the last one has the number of the last row. Nothing else of them changes.
pub proof fn lemma_chunk_is_numbered_without_gaps(chunk: Seq<EventEnvelope>, last: u64)
    requires
        0 < chunk.len() <= last,
    ensures
        ({
            let first = (last - chunk.len() + 1) as u64;
            let out = numbered_from(chunk, first);
            &&& out.len() == chunk.len()
            &&& forall|i: int|
                0 <= i < out.len() ==> (#[trigger] out[i]).seq == first + i && out[i]
                    == numbered(chunk[i], out[i].seq)
            &&& forall|i: int, j: int|
                0 <= i < j < out.len() ==> (#[trigger] out[i]).seq < (#[trigger] out[j]).seq
            &&& out.last().seq == last
        }),
{
}

/// The events of a batch: those that have been appended, and those that are left.
pub open spec fn batch_ids(appended: Seq<EventEnvelope>, left: Seq<Entry>) -> Seq<EventId> {
    appended.map_values(|env: EventEnvelope| env.id) + envelopes_of(left).map_values(
        |env: EventEnvelope| env.id,
    )
}

/// A batch loses no event, adds none and keeps their order: this is so with every chunk
/// that is written, whatever number its rows begin with. So in the end all that was given
/// has been appended, in the order in which it was given.
pub proof fn lemma_batch_keeps_every_event(
    appended: Seq<EventEnvelope>,
    left: Seq<Entry>,
    n: int,
    first: u64,
)
    requires
        0 <= n <= left.len(),
    ensures
        batch_ids(
            appended + numbered_from(envelopes_of(left.take(n)), first),
            left.skip(n),
        ) == batch_ids(appended, left),
{
    let chunk = numbered_from(envelopes_of(left.take(n)), first);
    let before = batch_ids(appended, left);
    let after = batch_ids(appended + chunk, left.skip(n));
    assert(after.len() == before.len());
    assert forall|i: int| 0 <= i < after.len() implies after[i] == before[i] by {
        if i < appended.len() {
        } else if i < appended.len() + n {
            assert(chunk[i - appended.len()].id == left[i - appended.len()].env.id);
        } else {
            assert(left.skip(n)[i - appended.len() - n] == left[i - appended.len()]);
        }
    }
    assert(after =~= before);
}

/// No statement of a batch has more variables than a statement may have.
pub proof fn lemma_chunk_fits_in_statement(entries: Seq<Entry>)
    requires
        entries.len() <= CHUNK,
    ensures
        chunk_insert(entries).binds.len() == 7 * entries.len(),
        chunk_insert(entries).binds.len() <= 32_766,
{
    lemma_binds_per_entry(entries);
}

proof fn lemma_binds_per_entry(entries: Seq<Entry>)
    ensures
        entry_binds(entries).len() == 7 * entries.len(),
    decreases entries.len(),
{
    if entries.len() > 0 {
        lemma_binds_per_entry(entries.drop_last());
    }
}

/// An event is numbered by its row, and nothing else of it changes.
pub proof fn lemma_number_is_all_that_changes(env: EventEnvelope, seq: u64)
    ensures
        numbered(env, seq).seq == seq,
        numbered(env, seq).id == env.id,
        numbered(env, seq).occurred_at == env.occurred_at,
        numbered(env, seq).actor == env.actor,
        numbered(env, seq).origin_device_id == env.origin_device_id,
        numbered(env, seq).origin_seq == env.origin_seq,
        numbered(env, seq).payload == env.payload,
{
}

/// An event is written with its identifier, its time, its kind, who caused it, what it says
/// and where it came from, in this order.
pub proof fn lemma_event_is_written_in_full(env: EventEnvelope, payload_json: Seq<char>)
    ensures
        ({
            let columns = event_columns(env, payload_json);
            &&& columns.len() == 7
            &&& columns[0] == sql_id(env.id)
            &&& columns[1] == sql_time(env.occurred_at)
            &&& columns[2] == sql_text(env.payload.kind_text())
            &&& columns[3] == sql_actor(env.actor)
            &&& columns[4] == sql_text(payload_json)
            &&& columns[5] == sql_opt_id(env.origin_device_id)
            &&& columns[6] == sql_int(env.origin_seq as i64 as int)
        }),
{
}

/// The values of the events of a statement stand one after the other, seven for each, in the
/// order of the events.
pub proof fn lemma_values_stand_in_order(entries: Seq<Entry>, i: int)
    requires
        0 <= i < entries.len(),
    ensures
        entry_binds(entries).len() == 7 * entries.len(),
        entry_binds(entries).subrange(7 * i, 7 * i + 7) == event_columns(
            entries[i].env,
            entries[i].payload_json@,
        ),
    decreases entries.len(),
{
    lemma_binds_per_entry(entries);
    lemma_binds_per_entry(entries.drop_last());
    let all = entry_binds(entries);
    let before = entry_binds(entries.drop_last());
    if i == entries.len() - 1 {
        assert(all.subrange(7 * i, 7 * i + 7) =~= event_columns(
            entries[i].env,
            entries[i].payload_json@,
        ));
    } else {
        lemma_values_stand_in_order(entries.drop_last(), i);
        assert(entries.drop_last()[i] == entries[i]);
        assert(all.subrange(7 * i, 7 * i + 7) =~= before.subrange(7 * i, 7 * i + 7));
    }
}

/// A statement for several events has one tuple for each.
pub proof fn lemma_statement_has_a_tuple_for_each_event(n: nat)
    ensures
        event_tuples(n) == crate::text::joined(
            Seq::new(n, |i: int| "("@ + placeholder_list(7, ", "@) + ")"@),
            ", "@,
        ),
    decreases n,
{
    let tuples = Seq::new(n, |i: int| "("@ + placeholder_list(7, ", "@) + ")"@);
    if n > 1 {
        lemma_statement_has_a_tuple_for_each_event((n - 1) as nat);
        assert(tuples.drop_last() =~= Seq::new(
            (n - 1) as nat,
            |i: int| "("@ + placeholder_list(7, ", "@) + ")"@,
        ));
    }
}

/// Each field of an event is read from columns of its own: what is read of a row with another
/// value there differs in that field alone.
pub proof fn lemma_event_envelope_is_read_field_by_field(
    row: EventRow,
    record: EventEnvelope,
    other_row: EventRow,
    other: EventEnvelope,
)
    requires
        event_read(row, record),
        event_read(other_row, other),
    ensures
        event_read(
            EventRow { seq: other_row.seq, ..row },
            EventEnvelope { seq: other.seq, ..record },
        ),
        event_read(
            EventRow { event_id: other_row.event_id, ..row },
            EventEnvelope { id: other.id, ..record },
        ),
        event_read(
            EventRow { occurred_at: other_row.occurred_at, ..row },
            EventEnvelope { occurred_at: other.occurred_at, ..record },
        ),
        event_read(
            EventRow { actor_json: other_row.actor_json, ..row },
            EventEnvelope { actor: other.actor, ..record },
        ),
        event_read(
            EventRow { payload_json: other_row.payload_json, ..row },
            EventEnvelope { payload: other.payload, ..record },
        ),
        event_read(
            EventRow { origin_device_id: other_row.origin_device_id, ..row },
            EventEnvelope { origin_device_id: other.origin_device_id, ..record },
        ),
        event_read(
            EventRow { origin_seq: other_row.origin_seq, ..row },
            EventEnvelope { origin_seq: other.origin_seq, ..record },
        ),
{
}

/// A row of an event without a fault says what is read from it: each identifier, time, state
/// and text stands in it as it is read.
pub proof fn lemma_event_envelope_is_what_the_row_says(row: EventRow, record: EventEnvelope)
    requires
        (event_fault(row) is None && event_read(row, record))
            || (row.fault() is None && row.holds(record)),
    ensures
        row.seq is Ok,
        row.event_id is Ok
            && crate::ids::id_parsed::<EventId>(row.event_id->Ok_0@) == Ok::<EventId, Seq<char>>(
                record.id,
            ),
        row.occurred_at is Ok
            && crate::time::rfc3339_parsed(row.occurred_at->Ok_0@) == Ok::<(i64, u32), Seq<char>>(
                (record.occurred_at.seconds(), record.occurred_at.subsec()),
            ),
        row.actor_json is Ok
            && row.actor_json->Ok_0 is Ok
            && row.actor_json->Ok_0->Ok_0 == record.actor,
        row.payload_json is Ok
            && row.payload_json->Ok_0 is Ok
            && row.payload_json->Ok_0->Ok_0 == record.payload,
        row.origin_device_id is Ok
            && (row.origin_device_id->Ok_0 is None <==> record.origin_device_id is None),
        row.origin_device_id->Ok_0 matches Some(s)
            ==> crate::ids::id_parsed::<DeviceId>(s@) == Ok::<DeviceId, Seq<char>>(
                record.origin_device_id->Some_0,
            ),
        row.origin_seq is Ok,
{
    crate::time::lemma_time_is_read_from_its_text(row.occurred_at->Ok_0@);
}

/// A row of an event is refused for what is wrong with a column, with the error of that
/// column; where nothing is wrong with any, nothing is refused.
pub proof fn lemma_event_envelope_is_refused_for_its_columns(row: EventRow, other: EventRow)
    requires
        event_fault(row) is None,
    ensures
        event_fault(EventRow { seq: other.seq, ..row }) == column_fault(other.seq),
        event_fault(EventRow { event_id: other.event_id, ..row })
            == column_fault(other.event_id).or_fault(id_fault::<EventId>(other.event_id->Ok_0@)),
        event_fault(EventRow { occurred_at: other.occurred_at, ..row })
            == column_fault(other.occurred_at).or_fault(ts_fault(other.occurred_at->Ok_0@)),
        event_fault(EventRow { actor_json: other.actor_json, ..row })
            == column_fault(other.actor_json).or_fault(parsed_fault(other.actor_json->Ok_0)),
        event_fault(EventRow { payload_json: other.payload_json, ..row })
            == column_fault(other.payload_json).or_fault(parsed_fault(other.payload_json->Ok_0)),
        event_fault(EventRow { origin_device_id: other.origin_device_id, ..row })
            == column_fault(other.origin_device_id).or_fault(
                opt_id_fault::<DeviceId>(other.origin_device_id->Ok_0),
            ),
        event_fault(EventRow { origin_seq: other.origin_seq, ..row }) == column_fault(
            other.origin_seq,
        ),
{
}

/// Two envelopes agree in everything but their numbers exactly if the one, numbered as the
/// other, is the other, as far as they are looked at.
pub proof fn lemma_envelopes_agree_but_for_their_numbers(a: EventEnvelope, b: EventEnvelope)
    ensures
        same_but_seq(a, EventEnvelope { seq: b.seq, ..a }),
        same_but_seq(a, b) ==> a.id == b.id && a.occurred_at == b.occurred_at && a.actor@
            == b.actor@ && a.origin_device_id == b.origin_device_id && a.origin_seq == b.origin_seq
            && a.payload == b.payload,
{
}

} // verus!
