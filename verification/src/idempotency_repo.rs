//! Commands that have been processed, in the `processed_command_ids` table, with a filter
//! before it that knows of most commands that they have not been.
use vstd::prelude::*;

use crate::error::{CoreError, ErrorView};
use crate::ids::{
    id_fault, id_value, parse_id, parse_uuid, print_uuid, uuid_parsed, uuid_text, EventId,
};
use crate::query::{sql_id, sql_int, sql_text, sql_time, statement, Query};
use crate::rows::{column, column_fault, Column, Faults};
use crate::time::{difference, is_delta, time_before, Timestamp};

verus! {

/// How many commands the filter is made for.
pub const EXPECTED_COMMANDS: usize = 100_000;

/// The size of the filter: with the expected number of commands in it, it takes one in a
/// hundred others for contained.
pub const FILTER_BITS: usize = 958_512;

pub const ALL_COMMANDS: &'static str = "SELECT client_command_id FROM processed_command_ids";

pub const LOOKUP_COMMAND: &'static str = "SELECT server_event_id, server_event_seq \
     FROM processed_command_ids WHERE client_command_id = ?";

pub const INSERT_COMMAND: &'static str = "INSERT OR IGNORE INTO processed_command_ids \
     (client_command_id, server_event_id, server_event_seq, created_at) \
     VALUES (?, ?, ?, ?)";

pub const RESERVE_COMMAND: &'static str = "INSERT OR IGNORE INTO processed_command_ids \
     (client_command_id, server_event_id, server_event_seq, created_at) \
     VALUES (?, ?, 0, ?)";

pub const COMPLETE_COMMAND: &'static str = "UPDATE processed_command_ids \
     SET server_event_id = ?, server_event_seq = ? \
     WHERE client_command_id = ? AND server_event_seq = 0";

pub const CLEAN_UP: &'static str = "DELETE FROM processed_command_ids WHERE created_at < ?";

// ── the filter ──────────────────────────────────────────────────────────────

/// A `fastbloom::BloomFilter` of UUIDs.
#[verifier::external_body]
pub struct CommandFilter {
    filter: fastbloom::BloomFilter,
}

/// The UUIDs that a filter takes for contained: all that were put into it, and a few more.
pub uninterp spec fn taken_for_contained(filter: CommandFilter) -> Set<u128>;

/// Makes a filter with `fastbloom::BloomFilter::with_num_bits` and `expected_items`, in
/// which nothing is. Claimed is that it takes nothing for contained: with no more than
/// sixteen bits for an item it looks at one or more single bits for each, and none of them
/// is set.
#[verifier::external_body]
fn make_filter(num_bits: usize, expected_items: usize) -> (r: CommandFilter)
    requires
        512 <= num_bits <= 16 * expected_items,
    ensures
        taken_for_contained(r) == Set::<u128>::empty(),
{
    CommandFilter {
        filter: fastbloom::BloomFilter::with_num_bits(num_bits).expected_items(expected_items),
    }
}

/// Asks `fastbloom::BloomFilter::contains` whether the filter takes a UUID for contained.
#[verifier::external_body]
fn filter_contains(filter: &CommandFilter, uuid: u128) -> (r: bool)
    ensures
        r == taken_for_contained(*filter).contains(uuid),
{
    filter.filter.contains(&uuid::Uuid::from_u128(uuid))
}

/// Puts a UUID into the filter with `fastbloom::BloomFilter::insert`. Claimed is that the
/// filter takes it for contained from now on, and that it forgets none that it took for
/// contained: the call only sets bits, and those that `contains` looks at are among them.
#[verifier::external_body]
fn filter_insert(filter: &mut CommandFilter, uuid: u128)
    ensures
        taken_for_contained(*final(filter)).contains(uuid),
        taken_for_contained(*old(filter)).subset_of(taken_for_contained(*final(filter))),
{
    filter.filter.insert(&uuid::Uuid::from_u128(uuid));
}

// ── rows ────────────────────────────────────────────────────────────────────

/// The identifier that stands for the event of a command that is being processed.
pub open spec fn reserved_id() -> EventId {
    EventId { uuid: 0 }
}

/// The identifier that stands for the event of a command that is being processed.
pub fn reserved_event_id() -> (r: EventId)
    ensures
        r == reserved_id(),
{
    EventId { uuid: 0 }
}

/// A row of a processed command.
#[derive(Debug, PartialEq, Eq)]
pub struct CommandRow {
    pub server_event_id: Column<String>,
    pub server_event_seq: Column<i64>,
}

/// What is wrong with the row of a command, where something is.
pub open spec fn command_fault(row: CommandRow) -> Option<ErrorView> {
    column_fault(row.server_event_id).or_fault(column_fault(row.server_event_seq)).or_fault(
        id_fault::<EventId>(row.server_event_id->Ok_0@),
    )
}

/// The event of a command and its number; none while the command is being processed.
pub open spec fn answer(event_id: EventId, event_seq: i64) -> Option<(EventId, u64)> {
    if event_seq <= 0 || event_id == reserved_id() {
        None
    } else {
        Some((event_id, event_seq as u64))
    }
}

// ── the repository ──────────────────────────────────────────────────────────

/// The processed commands.
pub struct IdempotencyRepo {
    pub filter: CommandFilter,
}

impl IdempotencyRepo {
    /// The commands that may have been processed, as far as the filter knows.
    pub open spec fn suspects(self) -> Set<u128> {
        taken_for_contained(self.filter)
    }

    /// A repository with a fresh filter, which suspects no command.
    pub fn new() -> (r: IdempotencyRepo)
        ensures
            r.suspects() == Set::<u128>::empty(),
    {
        IdempotencyRepo { filter: make_filter(FILTER_BITS, EXPECTED_COMMANDS) }
    }

    /// The query for all commands, with which the filter is filled once.
    pub fn warm() -> (q: Query)
        ensures
            q@ == statement(ALL_COMMANDS@, seq![]),
    {
        Query::new(ALL_COMMANDS)
    }

    /// Fills the filter with the commands that were found. What is no UUID is passed over.
    pub fn warmed(&mut self, ids: &Vec<String>)
        ensures
            old(self).suspects().subset_of(final(self).suspects()),
            forall|i: int|
                0 <= i < ids@.len() && uuid_parsed((#[trigger] ids@[i])@) is Ok
                    ==> final(self).suspects().contains(uuid_parsed(ids@[i]@)->Ok_0),
    {
        let ghost before = self.suspects();
        let mut i: usize = 0;
        while i < ids.len()
            invariant
                i <= ids@.len(),
                before.subset_of(self.suspects()),
                forall|j: int|
                    0 <= j < i && uuid_parsed((#[trigger] ids@[j])@) is Ok
                        ==> self.suspects().contains(uuid_parsed(ids@[j]@)->Ok_0),
            decreases ids@.len() - i,
        {
            if let Ok(uuid) = parse_uuid(ids[i].as_str()) {
                self.note(uuid);
            }
            i = i + 1;
        }
    }

    /// Notes in the filter that a command has been recorded.
    pub fn note(&mut self, client_command_id: u128)
        ensures
            old(self).suspects().subset_of(final(self).suspects()),
            final(self).suspects().contains(client_command_id),
    {
        filter_insert(&mut self.filter, client_command_id);
    }

    /// The query for a command. There is none where the filter knows that the command has
    /// not been processed: the answer is nothing.
    pub fn lookup(&self, client_command_id: u128) -> (r: Option<Query>)
        ensures
            self.suspects().contains(client_command_id) ==> r is Some && r->Some_0@ == statement(
                LOOKUP_COMMAND@,
                seq![sql_text(uuid_text(client_command_id))],
            ),
            !self.suspects().contains(client_command_id) ==> r is None,
    {
        if !filter_contains(&self.filter, client_command_id) {
            return None;
        }
        Some(Query::new(LOOKUP_COMMAND).text(print_uuid(client_command_id).as_str()))
    }

    /// The query for the command that a client's event stands for.
    pub fn lookup_event_id(&self, client_event_id: &EventId) -> (r: Option<Query>)
        ensures
            self.suspects().contains(client_event_id.uuid) ==> r is Some && r->Some_0@ == statement(
                LOOKUP_COMMAND@,
                seq![sql_text(uuid_text(client_event_id.uuid))],
            ),
            !self.suspects().contains(client_event_id.uuid) ==> r is None,
    {
        self.lookup(client_event_id.uuid)
    }

    /// The event of a command that was looked up, and its number.
    pub fn found(row: Option<CommandRow>) -> (r: Result<Option<(EventId, u64)>, CoreError>)
        ensures
            match row {
                None => r is Ok && r->Ok_0 is None,
                Some(row) => match command_fault(row) {
                    Some(e) => r is Err && r->Err_0@ == e,
                    None => r is Ok && r->Ok_0 == answer(
                        id_value::<EventId>(row.server_event_id->Ok_0@),
                        row.server_event_seq->Ok_0,
                    ),
                },
            },
    {
        match row {
            None => Ok(None),
            Some(row) => {
                let event_id = column(row.server_event_id)?;
                let event_seq: i64 = column(row.server_event_seq)?;
                let event_id = parse_id::<EventId>(event_id.as_str())?;
                if event_seq <= 0 || event_id == reserved_event_id() {
                    Ok(None)
                } else {
                    Ok(Some((event_id, event_seq as u64)))
                }
            },
        }
    }

    /// The statement that records a processed command, unless it is recorded. Once it has
    /// been executed the command is noted with [`IdempotencyRepo::note`].
    pub fn insert(
        client_command_id: u128,
        event_id: &EventId,
        event_seq: u64,
        now: &Timestamp,
    ) -> (q: Query)
        ensures
            q@ == statement(
                INSERT_COMMAND@,
                seq![
                    sql_text(uuid_text(client_command_id)),
                    sql_id(*event_id),
                    sql_int(event_seq as i64 as int),
                    sql_time(*now),
                ],
            ),
    {
        Query::new(INSERT_COMMAND)
            .text(print_uuid(client_command_id).as_str())
            .id(event_id)
            .number(event_seq as i64)
            .time(now)
    }

    /// The statement that records that a command is being processed, unless it is recorded.
    /// Once it has been executed the command is noted with [`IdempotencyRepo::note`].
    pub fn reserve_event_id(client_event_id: &EventId, now: &Timestamp) -> (q: Query)
        ensures
            q@ == statement(
                RESERVE_COMMAND@,
                seq![sql_text(uuid_text(client_event_id.uuid)), sql_id(reserved_id()), sql_time(*now)],
            ),
    {
        Query::new(RESERVE_COMMAND)
            .text(print_uuid(client_event_id.uuid).as_str())
            .id(&reserved_event_id())
            .time(now)
    }

    /// Whether the command was free to be processed.
    pub fn was_reserved(rows_affected: u64) -> (r: bool)
        ensures
            r == (rows_affected > 0),
    {
        rows_affected > 0
    }

    /// The statement that records the event of a command that was being processed.
    pub fn complete_event_id(client_event_id: &EventId, event_id: &EventId, event_seq: u64) -> (q: Query)
        ensures
            q@ == statement(
                COMPLETE_COMMAND@,
                seq![
                    sql_id(*event_id),
                    sql_int(event_seq as i64 as int),
                    sql_text(uuid_text(client_event_id.uuid)),
                ],
            ),
    {
        Query::new(COMPLETE_COMMAND).id(event_id).number(event_seq as i64).text(
            print_uuid(client_event_id.uuid).as_str(),
        )
    }

    /// The time before which commands of a given age were recorded, where there is one.
    pub fn cutoff(now: &Timestamp, age_secs: i64, age_nanos: u32) -> (r: Option<Timestamp>)
        requires
            is_delta(age_secs as int, age_nanos as int),
        ensures
            match time_before(now.seconds(), now.subsec(), age_secs, age_nanos) {
                Some(t) => r matches Some(p) && p.seconds() == t.0 && p.subsec() == t.1,
                None => r is None,
            },
            now.subsec() < 1_000_000_000 ==> time_before(
                now.seconds(),
                now.subsec(),
                age_secs,
                age_nanos,
            ) == difference(now.seconds(), now.subsec(), age_secs, age_nanos),
    {
        now.earlier(age_secs, age_nanos)
    }

    /// The statement that forgets the commands that were recorded before a time.
    pub fn cleanup_older_than(cutoff: &Timestamp) -> (q: Query)
        ensures
            q@ == statement(CLEAN_UP@, seq![sql_time(*cutoff)]),
            cutoff.is_plain() ==> cutoff.sorts_as_text(),
    {
        Query::new(CLEAN_UP).time(cutoff)
    }
}

// ── laws ────────────────────────────────────────────────────────────────────

/// The recorded commands: for each its event and the number of that.
pub type CommandTable = Map<u128, (EventId, i64)>;

/// The commands after one was recorded, unless it was.
pub open spec fn recorded(
    table: CommandTable,
    command: u128,
    event_id: EventId,
    event_seq: i64,
) -> CommandTable {
    if table.dom().contains(command) {
        table
    } else {
        table.insert(command, (event_id, event_seq))
    }
}

/// The commands after the event of one was recorded that was being processed.
pub open spec fn completed(
    table: CommandTable,
    command: u128,
    event_id: EventId,
    event_seq: i64,
) -> CommandTable {
    if table.dom().contains(command) && table[command].1 == 0 {
        table.insert(command, (event_id, event_seq))
    } else {
        table
    }
}

/// What a lookup answers.
pub open spec fn looked_up(table: CommandTable, command: u128) -> Option<(EventId, u64)> {
    if table.dom().contains(command) {
        answer(table[command].0, table[command].1)
    } else {
        None
    }
}

/// A command that is recorded twice keeps its first event.
pub proof fn lemma_first_record_wins(
    table: CommandTable,
    command: u128,
    first: EventId,
    first_seq: i64,
    second: EventId,
    second_seq: i64,
)
    ensures
        recorded(recorded(table, command, first, first_seq), command, second, second_seq)
            == recorded(table, command, first, first_seq),
        !table.dom().contains(command) && first_seq > 0 && first != reserved_id() ==> looked_up(
            recorded(recorded(table, command, first, first_seq), command, second, second_seq),
            command,
        ) == Some((first, first_seq as u64)),
{
}

/// A command can be reserved once, answers nothing until it is completed, then answers its
/// event, and is not completed a second time.
pub proof fn lemma_reservation_is_completed_once(
    table: CommandTable,
    command: u128,
    event_id: EventId,
    event_seq: i64,
    other: EventId,
    other_seq: i64,
)
    requires
        !table.dom().contains(command),
        event_seq > 0,
        event_id != reserved_id(),
    ensures
        ({
            let reserved = recorded(table, command, reserved_id(), 0);
            let done = completed(reserved, command, event_id, event_seq);
            &&& reserved != table
            &&& recorded(reserved, command, reserved_id(), 0) == reserved
            &&& looked_up(reserved, command) is None
            &&& looked_up(done, command) == Some((event_id, event_seq as u64))
            &&& completed(done, command, other, other_seq) == done
        }),
{
    let reserved = recorded(table, command, reserved_id(), 0);
    assert(reserved.dom().contains(command));
}

/// The filter never hides a recorded command: where it knows all recorded commands and the
/// new one is noted once it is recorded, it still does.
pub proof fn lemma_filter_hides_no_command(
    table: CommandTable,
    before: IdempotencyRepo,
    after: IdempotencyRepo,
    command: u128,
    event_id: EventId,
    event_seq: i64,
)
    requires
        table.dom().subset_of(before.suspects()),
        before.suspects().subset_of(after.suspects()),
        after.suspects().contains(command),
    ensures
        recorded(table, command, event_id, event_seq).dom().subset_of(after.suspects()),
        completed(table, command, event_id, event_seq).dom().subset_of(after.suspects()),
        forall|c: u128|
            !after.suspects().contains(c) ==> #[trigger] looked_up(
                recorded(table, command, event_id, event_seq),
                c,
            ) is None,
{
}

/// A command has an answer once it has an event with a number: the event and the number. The
/// number is above zero, and the event is not the one that stands for a command that is being
/// processed.
pub proof fn lemma_processed_command_has_its_event(event_id: EventId, event_seq: i64)
    ensures
        answer(event_id, event_seq) is Some <==> event_seq > 0 && event_id.uuid != 0,
        answer(event_id, event_seq) matches Some(found) ==> found.0 == event_id && found.1
            == event_seq,
        reserved_id().uuid == 0,
{
    assert(event_id == reserved_id() <==> event_id.uuid == 0);
}

/// The row of a command is sound exactly if its columns could be read and the event in it is
/// an identifier.
pub proof fn lemma_sound_row_of_a_command(row: CommandRow)
    ensures
        command_fault(row) is None <==> row.server_event_id is Ok && row.server_event_seq is Ok
            && crate::ids::id_parsed::<EventId>(row.server_event_id->Ok_0@) is Ok,
{
}

/// A row is refused for what is wrong with a column, with the error of that
/// column; where nothing is wrong with any, nothing is refused.
pub proof fn lemma_command_row_is_refused_for_its_columns(row: CommandRow, other: CommandRow)
    requires
        command_fault(row) is None,
    ensures
        command_fault(CommandRow { server_event_id: other.server_event_id, ..row })
            == column_fault(other.server_event_id).or_fault(
                id_fault::<EventId>(other.server_event_id->Ok_0@),
            ),
        command_fault(CommandRow { server_event_seq: other.server_event_seq, ..row })
            == column_fault(other.server_event_seq),
{
}

} // verus!
