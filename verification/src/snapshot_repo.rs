//! Snapshots of the projections that devices keep, in the `snapshots` table. A device
//! restores the last one and replays the events after it.
use vstd::prelude::*;

use crate::domain::{Comment, Project, Task};
use crate::error::{CoreError, ErrorView};
use crate::query::{sql_int, sql_text, sql_time, statement, Query};
use crate::rows::{
    column, column_fault, has_int, has_text, lemma_sign_change_undone, parsed, parsed_fault, Column,
    Decode, Faults, Parsed,
};
use crate::time::{parse_ts, ts_fault, ts_value, Timestamp};

verus! {

/// What devices keep of the projections.
#[derive(Clone, Debug, PartialEq, Eq)]
pub struct ProjectionSnapshot {
    pub tasks: Vec<Task>,
    pub projects: Vec<Project>,
    pub comments: Vec<Comment>,
}

impl Default for ProjectionSnapshot {
    fn default() -> (r: ProjectionSnapshot)
        ensures
            r.tasks@.len() == 0,
            r.projects@.len() == 0,
            r.comments@.len() == 0,
    {
        ProjectionSnapshot { tasks: Vec::new(), projects: Vec::new(), comments: Vec::new() }
    }
}

/// A snapshot, and the number of the last event that it surely reflects.
#[derive(Clone, Debug, PartialEq, Eq)]
pub struct Snapshot {
    pub id: String,
    pub seq: u64,
    pub created_at: Timestamp,
    pub payload: ProjectionSnapshot,
}

/// The snapshots.
#[derive(Clone, Copy, Debug)]
pub struct SnapshotRepo;

pub const LATEST_SNAPSHOT: &'static str = "SELECT id, seq, created_at, payload_json FROM snapshots \
     ORDER BY seq DESC LIMIT 1";

pub const INSERT_SNAPSHOT: &'static str = "INSERT INTO snapshots (id, seq, created_at, payload_json) \
     VALUES (?, ?, ?, ?)";

pub const PRUNE_SNAPSHOTS: &'static str = "DELETE FROM snapshots WHERE id NOT IN \
     (SELECT id FROM snapshots ORDER BY seq DESC LIMIT ?)";

// ── rows ────────────────────────────────────────────────────────────────────

/// A row of the `snapshots` table.
#[derive(Debug, PartialEq, Eq)]
pub struct SnapshotRow {
    pub id: Column<String>,
    pub seq: Column<i64>,
    pub created_at: Column<String>,
    pub payload_json: Column<Parsed<ProjectionSnapshot>>,
}

/// What is wrong with a snapshot row, where something is: the columns and their
/// values are looked at in this order.
pub open spec fn snapshot_fault(row: SnapshotRow) -> Option<ErrorView> {
    column_fault(row.id).or_fault(
        column_fault(row.seq),
    ).or_fault(
        column_fault(row.created_at),
    ).or_fault(
        column_fault(row.payload_json),
    ).or_fault(
        parsed_fault(row.payload_json->Ok_0),
    ).or_fault(
        ts_fault(row.created_at->Ok_0@),
    )
}

/// The record is what a sound snapshot row says.
pub open spec fn snapshot_read(row: SnapshotRow, record: Snapshot) -> bool {
    &&& record.id == row.id->Ok_0
    &&& record.seq == row.seq->Ok_0 as u64
    &&& record.created_at == ts_value(row.created_at->Ok_0@)
    &&& record.payload == row.payload_json->Ok_0->Ok_0
}

/// Reads a snapshot from its row.
pub fn row_to_snapshot(row: SnapshotRow) -> (r: Result<Snapshot, CoreError>)
    ensures
        match snapshot_fault(row) {
            Some(e) => r is Err && r->Err_0@ == e,
            None => r is Ok && snapshot_read(row, r->Ok_0),
        },
{
    let id = column(row.id)?;
    let seq = column(row.seq)?;
    let created_at = column(row.created_at)?;
    let payload_json = column(row.payload_json)?;
    let payload_json = parsed(payload_json)?;
    let created_at = parse_ts(created_at.as_str())?;
    Ok(Snapshot {
        id,
        seq: seq as u64,
        created_at,
        payload: payload_json,
    })
}

impl Decode for SnapshotRow {
    type Record = Snapshot;

    open spec fn fault(&self) -> Option<ErrorView> {
        snapshot_fault(*self)
    }

    open spec fn holds(&self, record: Snapshot) -> bool {
        snapshot_read(*self, record)
    }

    fn decode(self) -> (r: Result<Snapshot, CoreError>) {
        row_to_snapshot(self)
    }
}

impl SnapshotRow {
    /// Each column of the row holds what is written for it of the snapshot.
    pub open spec fn stores(self, snapshot: Snapshot) -> bool {
        &&& has_text(self.id, sql_text(snapshot.id@))
        &&& has_int(self.seq, sql_int(snapshot.seq as i64 as int))
        &&& has_text(self.created_at, sql_time(snapshot.created_at))
        &&& self.payload_json == Ok::<Parsed<ProjectionSnapshot>, String>(Ok(snapshot.payload))
    }
}

impl Snapshot {
    /// The two snapshots agree in every field.
    pub open spec fn same(self, other: Snapshot) -> bool {
        &&& self.id@ == other.id@
        &&& self.seq == other.seq
        &&& self.created_at == other.created_at
        &&& self.payload == other.payload
    }
}

// ── the repository ──────────────────────────────────────────────────────────

impl SnapshotRepo {
    /// The query for the last snapshot.
    pub fn latest() -> (q: Query)
        ensures
            q@ == statement(LATEST_SNAPSHOT@, seq![]),
    {
        Query::new(LATEST_SNAPSHOT)
    }

    /// A new snapshot and the statement that writes it, with the payload as its JSON text.
    /// What it writes reads back.
    pub fn insert(
        id: String,
        seq: u64,
        created_at: Timestamp,
        payload: ProjectionSnapshot,
        payload_json: &str,
    ) -> (r: (Query, Snapshot))
        ensures
            r.1 == (Snapshot { id, seq, created_at, payload }),
            r.0@ == statement(
                INSERT_SNAPSHOT@,
                seq![
                    sql_text(id@),
                    sql_int(seq as i64 as int),
                    sql_time(created_at),
                    sql_text(payload_json@),
                ],
            ),
            created_at.is_plain() ==> forall|row: SnapshotRow| #[trigger]
                row.stores(r.1) ==> snapshot_fault(row) is None && forall|record: Snapshot|
                    snapshot_read(row, record) ==> record.same(r.1),
    {
        proof {
            lemma_sign_change_undone(seq);
        }
        let q = Query::new(INSERT_SNAPSHOT)
            .text(id.as_str())
            .number(seq as i64)
            .time(&created_at)
            .text(payload_json);
        (q, Snapshot { id, seq, created_at, payload })
    }

    /// The statement that drops all snapshots but the last ones.
    pub fn prune_keep_latest(keep: u32) -> (q: Query)
        ensures
            q@ == statement(PRUNE_SNAPSHOTS@, seq![sql_int(keep as int)]),
    {
        Query::new(PRUNE_SNAPSHOTS).number(keep as i64)
    }
}

// ── laws ────────────────────────────────────────────────────────────────────

/// Each field of a snapshot is read from columns of its own: what is read of a row with
/// another value there differs in that field alone.
pub proof fn lemma_snapshot_is_read_field_by_field(
    row: SnapshotRow,
    record: Snapshot,
    other_row: SnapshotRow,
    other: Snapshot,
)
    requires
        snapshot_read(row, record),
        snapshot_read(other_row, other),
    ensures
        snapshot_read(SnapshotRow { id: other_row.id, ..row }, Snapshot { id: other.id, ..record }),
        snapshot_read(
            SnapshotRow { seq: other_row.seq, ..row },
            Snapshot { seq: other.seq, ..record },
        ),
        snapshot_read(
            SnapshotRow { created_at: other_row.created_at, ..row },
            Snapshot { created_at: other.created_at, ..record },
        ),
        snapshot_read(
            SnapshotRow { payload_json: other_row.payload_json, ..row },
            Snapshot { payload: other.payload, ..record },
        ),
{
}

/// A row of a snapshot without a fault says what is read from it: each identifier, time, state
/// and text stands in it as it is read.
pub proof fn lemma_snapshot_is_what_the_row_says(row: SnapshotRow, record: Snapshot)
    requires
        (snapshot_fault(row) is None && snapshot_read(row, record))
            || (row.fault() is None && row.holds(record)),
    ensures
        row.id is Ok && row.id->Ok_0 == record.id,
        row.seq is Ok,
        row.created_at is Ok
            && crate::time::rfc3339_parsed(row.created_at->Ok_0@) == Ok::<(i64, u32), Seq<char>>(
                (record.created_at.seconds(), record.created_at.subsec()),
            ),
        row.payload_json is Ok
            && row.payload_json->Ok_0 is Ok
            && row.payload_json->Ok_0->Ok_0 == record.payload,
{
    crate::time::lemma_time_is_read_from_its_text(row.created_at->Ok_0@);
}

/// A row of a snapshot is refused for what is wrong with a column, with the error of that
/// column; where nothing is wrong with any, nothing is refused.
pub proof fn lemma_snapshot_is_refused_for_its_columns(row: SnapshotRow, other: SnapshotRow)
    requires
        snapshot_fault(row) is None,
    ensures
        snapshot_fault(SnapshotRow { id: other.id, ..row }) == column_fault(other.id),
        snapshot_fault(SnapshotRow { seq: other.seq, ..row }) == column_fault(other.seq),
        snapshot_fault(SnapshotRow { created_at: other.created_at, ..row })
            == column_fault(other.created_at).or_fault(ts_fault(other.created_at->Ok_0@)),
        snapshot_fault(SnapshotRow { payload_json: other.payload_json, ..row })
            == column_fault(other.payload_json).or_fault(parsed_fault(other.payload_json->Ok_0)),
{
}

} // verus!
