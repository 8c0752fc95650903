//! Paired devices, in the `devices` table.
use vstd::prelude::*;

use crate::error::{CoreError, ErrorView};
use crate::ids::{id_fault, id_value, parse_id, DeviceId, TokenId};
use crate::query::{sql_id, sql_opt_time, sql_text, sql_time, statement, Query};
use crate::rows::{column, column_fault, has_opt_text, has_text, Column, Decode, Faults};
use crate::time::{
    difference, has_four_digits, opt_is_plain, opt_ts_fault, opt_ts_value, parse_opt_ts, parse_ts,
    rfc3339_text, sorts_at, time_before, ts_fault, ts_value, Timestamp,
};

verus! {

/// A paired device. The database does not know whether it is connected.
#[derive(Clone, Debug, PartialEq, Eq)]
pub struct Device {
    pub id: DeviceId,
    pub label: String,
    pub created_at: Timestamp,
    pub last_seen_at: Option<Timestamp>,
    pub revoked_at: Option<Timestamp>,
    pub connected: bool,
}

/// The devices.
#[derive(Clone, Copy, Debug)]
pub struct DeviceRepo;

pub const INSERT_DEVICE: &'static str = "INSERT INTO devices (id, label, created_at, last_seen_at, revoked_at)
             VALUES (?, ?, ?, NULL, NULL)";

pub const BIND_TOKEN: &'static str = "UPDATE tokens SET device_id = ? WHERE id = ?";

pub const LIST_DEVICES: &'static str = "SELECT id, label, created_at, last_seen_at, revoked_at
             FROM devices
             ORDER BY created_at DESC";

pub const REVOKE_DEVICE: &'static str = "UPDATE devices SET revoked_at = COALESCE(revoked_at, ?) WHERE id = ?";

pub const TOUCH_DEVICE: &'static str = "UPDATE devices
             SET last_seen_at = ?
             WHERE id = ?
               AND revoked_at IS NULL
               AND (last_seen_at IS NULL OR last_seen_at <= ?)";

/// How many seconds pass before a device is noted as seen again.
pub const SEEN_AGAIN_AFTER: i64 = 60;

// ── rows ────────────────────────────────────────────────────────────────────

/// A row of the `devices` table.
#[derive(Debug, PartialEq, Eq)]
pub struct DeviceRow {
    pub id: Column<String>,
    pub label: Column<String>,
    pub created_at: Column<String>,
    pub last_seen_at: Column<Option<String>>,
    pub revoked_at: Column<Option<String>>,
}

/// What is wrong with a device row, where something is: the columns and their
/// values are looked at in this order.
pub open spec fn device_fault(row: DeviceRow) -> Option<ErrorView> {
    column_fault(row.id).or_fault(
        column_fault(row.created_at),
    ).or_fault(
        column_fault(row.last_seen_at),
    ).or_fault(
        column_fault(row.revoked_at),
    ).or_fault(
        id_fault::<DeviceId>(row.id->Ok_0@),
    ).or_fault(
        column_fault(row.label),
    ).or_fault(
        ts_fault(row.created_at->Ok_0@),
    ).or_fault(
        opt_ts_fault(row.last_seen_at->Ok_0),
    ).or_fault(
        opt_ts_fault(row.revoked_at->Ok_0),
    )
}

/// The record is what a sound device row says.
pub open spec fn device_read(row: DeviceRow, record: Device) -> bool {
    &&& record.id == id_value::<DeviceId>(row.id->Ok_0@)
    &&& record.label == row.label->Ok_0
    &&& record.created_at == ts_value(row.created_at->Ok_0@)
    &&& record.last_seen_at == opt_ts_value(row.last_seen_at->Ok_0)
    &&& record.revoked_at == opt_ts_value(row.revoked_at->Ok_0)
    &&& !record.connected
}

/// Reads a device from its row.
pub fn row_to_device(row: DeviceRow) -> (r: Result<Device, CoreError>)
    ensures
        match device_fault(row) {
            Some(e) => r is Err && r->Err_0@ == e,
            None => r is Ok && device_read(row, r->Ok_0),
        },
{
    let id = column(row.id)?;
    let created_at = column(row.created_at)?;
    let last_seen_at = column(row.last_seen_at)?;
    let revoked_at = column(row.revoked_at)?;
    let id = parse_id::<DeviceId>(id.as_str())?;
    let label = column(row.label)?;
    let created_at = parse_ts(created_at.as_str())?;
    let last_seen_at = parse_opt_ts(&last_seen_at)?;
    let revoked_at = parse_opt_ts(&revoked_at)?;
    Ok(Device {
        id,
        label,
        created_at,
        last_seen_at,
        revoked_at,
        connected: false,
    })
}

impl Decode for DeviceRow {
    type Record = Device;

    open spec fn fault(&self) -> Option<ErrorView> {
        device_fault(*self)
    }

    open spec fn holds(&self, record: Device) -> bool {
        device_read(*self, record)
    }

    fn decode(self) -> (r: Result<Device, CoreError>) {
        row_to_device(self)
    }
}

impl DeviceRow {
    /// Each column of the row holds what is written for it of the record.
    pub open spec fn stores(self, record: Device) -> bool {
        &&& has_text(self.id, sql_id(record.id))
        &&& has_text(self.label, sql_text(record.label@))
        &&& has_text(self.created_at, sql_time(record.created_at))
        &&& has_opt_text(self.last_seen_at, sql_opt_time(record.last_seen_at))
        &&& has_opt_text(self.revoked_at, sql_opt_time(record.revoked_at))
    }
}

impl Device {
    /// The two records agree in every field.
    pub open spec fn same(self, other: Device) -> bool {
        &&& self.id == other.id
        &&& self.label@ == other.label@
        &&& self.created_at == other.created_at
        &&& self.last_seen_at == other.last_seen_at
        &&& self.revoked_at == other.revoked_at
        &&& self.connected == other.connected
    }

    /// Every point in time of the record has an RFC 3339 text that reads back.
    pub open spec fn is_plain(self) -> bool {
        &&& self.created_at.is_plain()
        &&& opt_is_plain(self.last_seen_at)
        &&& opt_is_plain(self.revoked_at)
    }
}

// ── the repository ──────────────────────────────────────────────────────────

impl DeviceRepo {
    /// A new device and the statement that writes it. What it writes reads back.
    pub fn insert(id: DeviceId, label: &str, now: Timestamp) -> (r: (Query, Device))
        ensures
            r.0@ == statement(INSERT_DEVICE@, seq![sql_id(id), sql_text(label@), sql_time(now)]),
            r.1.id == id,
            r.1.label@ == label@,
            r.1.created_at == now,
            r.1.last_seen_at is None,
            r.1.revoked_at is None,
            !r.1.connected,
            now.is_plain() ==> forall|row: DeviceRow| #[trigger]
                row.stores(r.1) ==> device_fault(row) is None && forall|record: Device|
                    device_read(row, record) ==> record.same(r.1),
    {
        let q = Query::new(INSERT_DEVICE).id(&id).text(label).time(&now);
        let device = Device {
            id,
            label: label.to_owned(),
            created_at: now,
            last_seen_at: None,
            revoked_at: None,
            connected: false,
        };
        (q, device)
    }

    /// The statement that gives a token to a device.
    pub fn bind_token(token_id: &TokenId, device_id: &DeviceId) -> (q: Query)
        ensures
            q@ == statement(BIND_TOKEN@, seq![sql_id(*device_id), sql_id(*token_id)]),
    {
        Query::new(BIND_TOKEN).id(device_id).id(token_id)
    }

    /// The query for all devices, the newest first.
    pub fn list() -> (q: Query)
        ensures
            q@ == statement(LIST_DEVICES@, seq![]),
    {
        Query::new(LIST_DEVICES)
    }

    /// The statement that revokes a device; one that has been revoked keeps the time of
    /// that.
    pub fn revoke(id: &DeviceId, now: &Timestamp) -> (q: Query)
        ensures
            q@ == statement(REVOKE_DEVICE@, seq![sql_time(*now), sql_id(*id)]),
    {
        Query::new(REVOKE_DEVICE).time(now).id(id)
    }

    /// The statement that notes that a device was seen, unless it was revoked or seen within
    /// the last minute. There is none where there was no time a minute ago.
    pub fn touch_last_seen_throttled(id: &DeviceId, now: &Timestamp) -> (r: Option<Query>)
        ensures
            match time_before(now.seconds(), now.subsec(), SEEN_AGAIN_AFTER, 0) {
                Some(t) => r is Some && r->Some_0@ == statement(
                    TOUCH_DEVICE@,
                    seq![sql_time(*now), sql_id(*id), sql_text(rfc3339_text(t.0, t.1))],
                ),
                None => r is None,
            },
            time_before(now.seconds(), now.subsec(), SEEN_AGAIN_AFTER, 0) matches Some(t)
                ==> has_four_digits(t.0 as int) ==> sorts_at(rfc3339_text(t.0, t.1), t.0, t.1),
            now.subsec() < 1_000_000_000 ==> time_before(
                now.seconds(),
                now.subsec(),
                SEEN_AGAIN_AFTER,
                0,
            ) == difference(now.seconds(), now.subsec(), SEEN_AGAIN_AFTER, 0),
    {
        match now.earlier(SEEN_AGAIN_AFTER, 0) {
            Some(cutoff) => {
                let q = Query::new(TOUCH_DEVICE).time(now).id(id).time(&cutoff);
                assert(q@.binds =~= seq![sql_time(*now), sql_id(*id), sql_time(cutoff)]);
                Some(q)
            },
            None => None,
        }
    }

    /// Whether there was a device that was revoked, or noted as seen.
    pub fn was_changed(rows_affected: u64) -> (r: bool)
        ensures
            r == (rows_affected > 0),
    {
        rows_affected > 0
    }
}

// ── laws ────────────────────────────────────────────────────────────────────

/// When a device is revoked at some time.
pub open spec fn revoked(device: Device, at: Timestamp) -> Device {
    Device {
        revoked_at: match device.revoked_at {
            Some(earlier) => Some(earlier),
            None => Some(at),
        },
        ..device
    }
}

/// A device is revoked for good, and the first revocation counts.
pub proof fn lemma_first_revocation_counts(device: Device, first: Timestamp, second: Timestamp)
    ensures
        revoked(device, first).revoked_at is Some,
        revoked(revoked(device, first), second) == revoked(device, first),
{
}

/// A device is revoked from the first time on: a later one changes nothing, and nothing else
/// of the device changes.
pub proof fn lemma_revoked_device_has_a_time(device: Device, at: Timestamp)
    ensures
        device.revoked_at is None ==> revoked(device, at).revoked_at == Some(at),
        device.revoked_at is Some ==> revoked(device, at) == device,
        revoked(device, at) == (Device { revoked_at: revoked(device, at).revoked_at, ..device }),
{
}

/// Each field of a device is read from columns of its own: what is read of a row with another
/// value there differs in that field alone.
pub proof fn lemma_device_is_read_field_by_field(
    row: DeviceRow,
    record: Device,
    other_row: DeviceRow,
    other: Device,
)
    requires
        device_read(row, record),
        device_read(other_row, other),
    ensures
        device_read(DeviceRow { id: other_row.id, ..row }, Device { id: other.id, ..record }),
        device_read(
            DeviceRow { label: other_row.label, ..row },
            Device { label: other.label, ..record },
        ),
        device_read(
            DeviceRow { created_at: other_row.created_at, ..row },
            Device { created_at: other.created_at, ..record },
        ),
        device_read(
            DeviceRow { last_seen_at: other_row.last_seen_at, ..row },
            Device { last_seen_at: other.last_seen_at, ..record },
        ),
        device_read(
            DeviceRow { revoked_at: other_row.revoked_at, ..row },
            Device { revoked_at: other.revoked_at, ..record },
        ),
{
}

/// A row stores each field of a device in columns of its own: with another value there it
/// stores what differs in that field alone.
pub proof fn lemma_device_is_stored_field_by_field(
    row: DeviceRow,
    record: Device,
    other_row: DeviceRow,
    other: Device,
)
    requires
        row.stores(record),
        other_row.stores(other),
    ensures
        (DeviceRow { id: other_row.id, ..row }).stores(Device { id: other.id, ..record }),
        (DeviceRow { label: other_row.label, ..row }).stores(
            Device { label: other.label, ..record },
        ),
        (DeviceRow { created_at: other_row.created_at, ..row }).stores(
            Device { created_at: other.created_at, ..record },
        ),
        (DeviceRow { last_seen_at: other_row.last_seen_at, ..row }).stores(
            Device { last_seen_at: other.last_seen_at, ..record },
        ),
        (DeviceRow { revoked_at: other_row.revoked_at, ..row }).stores(
            Device { revoked_at: other.revoked_at, ..record },
        ),
{
}

/// A row of a device without a fault says what is read from it: each identifier, time, state
/// and text stands in it as it is read.
pub proof fn lemma_device_is_what_the_row_says(row: DeviceRow, record: Device)
    requires
        (device_fault(row) is None && device_read(row, record))
            || (row.fault() is None && row.holds(record)),
    ensures
        row.id is Ok
            && crate::ids::id_parsed::<DeviceId>(row.id->Ok_0@) == Ok::<DeviceId, Seq<char>>(
                record.id,
            ),
        row.label is Ok && row.label->Ok_0 == record.label,
        row.created_at is Ok
            && crate::time::rfc3339_parsed(row.created_at->Ok_0@) == Ok::<(i64, u32), Seq<char>>(
                (record.created_at.seconds(), record.created_at.subsec()),
            ),
        row.last_seen_at is Ok && (row.last_seen_at->Ok_0 is None <==> record.last_seen_at is None),
        row.last_seen_at->Ok_0 matches Some(s)
            ==> crate::time::rfc3339_parsed(s@) == Ok::<(i64, u32), Seq<char>>(
                (record.last_seen_at->Some_0.seconds(), record.last_seen_at->Some_0.subsec()),
            ),
        row.revoked_at is Ok && (row.revoked_at->Ok_0 is None <==> record.revoked_at is None),
        row.revoked_at->Ok_0 matches Some(s)
            ==> crate::time::rfc3339_parsed(s@) == Ok::<(i64, u32), Seq<char>>(
                (record.revoked_at->Some_0.seconds(), record.revoked_at->Some_0.subsec()),
            ),
{
    crate::time::lemma_time_is_read_from_its_text(row.created_at->Ok_0@);
    if row.last_seen_at->Ok_0 is Some {
        crate::time::lemma_time_is_read_from_its_text(row.last_seen_at->Ok_0->Some_0@);
    }
    if row.revoked_at->Ok_0 is Some {
        crate::time::lemma_time_is_read_from_its_text(row.revoked_at->Ok_0->Some_0@);
    }
}

/// A row of a device is refused for what is wrong with a column, with the error of that
/// column; where nothing is wrong with any, nothing is refused.
pub proof fn lemma_device_is_refused_for_its_columns(row: DeviceRow, other: DeviceRow)
    requires
        device_fault(row) is None,
    ensures
        device_fault(DeviceRow { id: other.id, ..row }) == column_fault(other.id).or_fault(
            id_fault::<DeviceId>(other.id->Ok_0@),
        ),
        device_fault(DeviceRow { created_at: other.created_at, ..row })
            == column_fault(other.created_at).or_fault(ts_fault(other.created_at->Ok_0@)),
        device_fault(DeviceRow { last_seen_at: other.last_seen_at, ..row })
            == column_fault(other.last_seen_at).or_fault(opt_ts_fault(other.last_seen_at->Ok_0)),
        device_fault(DeviceRow { revoked_at: other.revoked_at, ..row })
            == column_fault(other.revoked_at).or_fault(opt_ts_fault(other.revoked_at->Ok_0)),
        device_fault(DeviceRow { label: other.label, ..row }) == column_fault(other.label),
{
}

/// A device counts as seen anew once a minute has passed: the time that it is measured by is
/// the same time of the minute before.
pub proof fn lemma_device_is_seen_anew_after_a_minute(secs: i64, nanos: u32)
    requires
        nanos < 1_000_000_000,
    ensures
        difference(secs, nanos, SEEN_AGAIN_AFTER, 0) matches Some(t) ==> t.0 == secs - 60 && t.1
            == nanos,
{
}

} // verus!
