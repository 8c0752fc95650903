//! Notes on runs, in the `run_notes` table.
use vstd::prelude::*;

use crate::domain::{Actor, RunNote};
use crate::error::{CoreError, ErrorView};
use crate::events::{Event, EventEnvelope};
use crate::ids::{id_fault, id_text, id_value, parse_id, RunId, RunNoteId};
use crate::order::{lemma_before_irreflexive, lemma_before_transitive, text_before};
use crate::query::{sql_actor, sql_id, sql_int, sql_text, sql_time, statement, BoundView, Query};
use crate::rows::{
    column, column_fault, has_actor, has_text, parsed, parsed_fault, Column, Decode, Faults, Parsed,
};
use crate::time::{lemma_texts_sort_as_times, on_calendar, parse_ts, ts_fault, ts_value};

verus! {

/// The note projection.
#[derive(Clone, Copy, Debug)]
pub struct RunNoteRepo;

pub const FIND_CURSOR: &'static str = "SELECT created_at FROM run_notes WHERE id = ? AND run_id = ?";

pub const NEXT_PAGE: &'static str = "SELECT id, run_id, body, author_json, created_at \
     FROM run_notes \
     WHERE run_id = ? \
     AND (created_at > ? OR (created_at = ? AND id > ?)) \
     ORDER BY created_at ASC, id ASC LIMIT ?";

pub const FIRST_PAGE: &'static str = "SELECT id, run_id, body, author_json, created_at \
     FROM run_notes \
     WHERE run_id = ? \
     ORDER BY created_at ASC, id ASC LIMIT ?";

pub const GET_NOTE: &'static str = "SELECT id, run_id, body, author_json, created_at \
     FROM run_notes WHERE id = ?";

pub const UPSERT_NOTE: &'static str = "INSERT OR REPLACE INTO run_notes \
     (id, run_id, body, author_json, created_at) \
     VALUES (?, ?, ?, ?, ?)";

// ── rows ────────────────────────────────────────────────────────────────────

/// A row of the `run_notes` table.
#[derive(Debug, PartialEq, Eq)]
pub struct RunNoteRow {
    pub id: Column<String>,
    pub run_id: Column<String>,
    pub body: Column<String>,
    pub author_json: Column<Parsed<Actor>>,
    pub created_at: Column<String>,
}

/// What is wrong with a note row, where something is: the columns and their
/// values are looked at in this order.
pub open spec fn note_fault(row: RunNoteRow) -> Option<ErrorView> {
    column_fault(row.id).or_fault(
        column_fault(row.run_id),
    ).or_fault(
        column_fault(row.body),
    ).or_fault(
        column_fault(row.author_json),
    ).or_fault(
        column_fault(row.created_at),
    ).or_fault(
        id_fault::<RunNoteId>(row.id->Ok_0@),
    ).or_fault(
        id_fault::<RunId>(row.run_id->Ok_0@),
    ).or_fault(
        parsed_fault(row.author_json->Ok_0),
    ).or_fault(
        ts_fault(row.created_at->Ok_0@),
    )
}

/// The record is what a sound note row says.
pub open spec fn note_read(row: RunNoteRow, record: RunNote) -> bool {
    &&& record.id == id_value::<RunNoteId>(row.id->Ok_0@)
    &&& record.run_id == id_value::<RunId>(row.run_id->Ok_0@)
    &&& record.body == row.body->Ok_0
    &&& record.author == row.author_json->Ok_0->Ok_0
    &&& record.created_at == ts_value(row.created_at->Ok_0@)
}

/// Reads a note from its row.
pub fn row_to_note(row: RunNoteRow) -> (r: Result<RunNote, CoreError>)
    ensures
        match note_fault(row) {
            Some(e) => r is Err && r->Err_0@ == e,
            None => r is Ok && note_read(row, r->Ok_0),
        },
{
    let id = column(row.id)?;
    let run_id = column(row.run_id)?;
    let body = column(row.body)?;
    let author_json = column(row.author_json)?;
    let created_at = column(row.created_at)?;
    let id = parse_id::<RunNoteId>(id.as_str())?;
    let run_id = parse_id::<RunId>(run_id.as_str())?;
    let author_json = parsed(author_json)?;
    let created_at = parse_ts(created_at.as_str())?;
    Ok(RunNote {
        id,
        run_id,
        body,
        author: author_json,
        created_at,
    })
}

impl Decode for RunNoteRow {
    type Record = RunNote;

    open spec fn fault(&self) -> Option<ErrorView> {
        note_fault(*self)
    }

    open spec fn holds(&self, record: RunNote) -> bool {
        note_read(*self, record)
    }

    fn decode(self) -> (r: Result<RunNote, CoreError>) {
        row_to_note(self)
    }
}

/// The columns of a note, in the order in which they are written.
pub open spec fn note_columns(record: RunNote) -> Seq<BoundView> {
    seq![
        sql_id(record.id),
        sql_id(record.run_id),
        sql_text(record.body@),
        sql_actor(record.author),
        sql_time(record.created_at),
    ]
}

impl RunNoteRow {
    /// Each column of the row holds what is written for it of the record.
    pub open spec fn stores(self, record: RunNote) -> bool {
        &&& has_text(self.id, sql_id(record.id))
        &&& has_text(self.run_id, sql_id(record.run_id))
        &&& has_text(self.body, sql_text(record.body@))
        &&& has_actor(self.author_json, sql_actor(record.author))
        &&& has_text(self.created_at, sql_time(record.created_at))
    }
}

impl RunNote {
    /// The two records agree in every field.
    pub open spec fn same(self, other: RunNote) -> bool {
        &&& self.id == other.id
        &&& self.run_id == other.run_id
        &&& self.body@ == other.body@
        &&& self.author@ == other.author@
        &&& self.created_at == other.created_at
    }

    /// Every point in time of the record has an RFC 3339 text that reads back.
    pub open spec fn is_plain(self) -> bool {
        &&& self.created_at.is_plain()
    }
}

// ── pages ───────────────────────────────────────────────────────────────────

/// The size of a page: between one and five hundred.
pub open spec fn page_size(limit: u32) -> int {
    if limit < 1 {
        1
    } else if limit > 500 {
        500
    } else {
        limit as int
    }
}

/// The first step to a page of notes.
#[derive(Clone, Debug, PartialEq, Eq)]
pub enum PageStep {
    /// Ask for the page.
    Page { select: Query },
    /// Ask when the note at the cursor was written, and hand it to
    /// [`RunNoteRepo::page_after`].
    Cursor { select: Query },
}

fn clamp_page(limit: u32) -> (r: i64)
    ensures
        r == page_size(limit),
{
    if limit < 1 {
        1
    } else if limit > 500 {
        500
    } else {
        limit as i64
    }
}

impl RunNoteRepo {
    /// The first step to a page of a run's notes, oldest first: the first page, or the one
    /// after the note at the cursor.
    pub fn list_for_run(run_id: &RunId, limit: u32, after: &Option<RunNoteId>) -> (r: PageStep)
        ensures
            match *after {
                Some(after) => r matches PageStep::Cursor { select } && select@ == statement(
                    FIND_CURSOR@,
                    seq![sql_id(after), sql_id(*run_id)],
                ),
                None => r matches PageStep::Page { select } && select@ == statement(
                    FIRST_PAGE@,
                    seq![sql_id(*run_id), sql_int(page_size(limit))],
                ),
            },
    {
        match after {
            Some(after) => {
                let q = Query::new(FIND_CURSOR).id(after).id(run_id);
                assert(q@.binds =~= seq![sql_id(*after), sql_id(*run_id)]);
                PageStep::Cursor { select: q }
            },
            None => {
                let q = Query::new(FIRST_PAGE).id(run_id).number(clamp_page(limit));
                assert(q@.binds =~= seq![sql_id(*run_id), sql_int(page_size(limit))]);
                PageStep::Page { select: q }
            },
        }
    }

    /// The query for the page after the note at the cursor. There is none where there is no
    /// such note: the page is empty.
    pub fn page_after(
        run_id: &RunId,
        limit: u32,
        after: &RunNoteId,
        created_at: Option<Column<String>>,
    ) -> (r: Result<Option<Query>, CoreError>)
        ensures
            match created_at {
                None => r is Ok && r->Ok_0 is None,
                Some(at) => match column_fault(at) {
                    Some(e) => r is Err && r->Err_0@ == e,
                    None => r is Ok && r->Ok_0 is Some && r->Ok_0->Some_0@ == statement(
                        NEXT_PAGE@,
                        seq![
                            sql_id(*run_id),
                            sql_text(at->Ok_0@),
                            sql_text(at->Ok_0@),
                            sql_id(*after),
                            sql_int(page_size(limit)),
                        ],
                    ),
                },
            },
    {
        match created_at {
            None => Ok(None),
            Some(at) => {
                let at = column(at)?;
                let q = Query::new(NEXT_PAGE)
                    .id(run_id)
                    .text(at.as_str())
                    .text(at.as_str())
                    .id(after)
                    .number(clamp_page(limit));
                assert(q@.binds =~= seq![
                    sql_id(*run_id),
                    sql_text(at@),
                    sql_text(at@),
                    sql_id(*after),
                    sql_int(page_size(limit)),
                ]);
                Ok(Some(q))
            },
        }
    }

    /// The query for a note.
    pub fn get(id: &RunNoteId) -> (q: Query)
        ensures
            q@ == statement(GET_NOTE@, seq![sql_id(*id)]),
    {
        Query::new(GET_NOTE).id(id)
    }

    /// The statement that writes a note. What it writes reads back.
    pub fn upsert(note: &RunNote) -> (q: Query)
        ensures
            q@ == statement(UPSERT_NOTE@, note_columns(*note)),
            note.is_plain() ==> forall|row: RunNoteRow|
                #[trigger] row.stores(*note) ==> note_fault(row) is None && forall|record: RunNote|
                    note_read(row, record) ==> record.same(*note),
            note.is_plain() ==> note.created_at.sorts_as_text(),
    {
        Query::new(UPSERT_NOTE)
            .id(&note.id)
            .id(&note.run_id)
            .text(note.body.as_str())
            .actor(&note.author)
            .time(&note.created_at)
    }

    /// The statement that applies an event to the notes, where there is one. What is written
    /// of a note reads back.
    pub fn apply_event(envelope: &EventEnvelope) -> (r: Option<Query>)
        ensures
            match envelope.payload {
                Event::RunNoteAppended { run_id, note_id, body, by_actor, at } => r is Some
                    && r->Some_0@ == statement(
                    UPSERT_NOTE@,
                    note_columns(
                        RunNote { id: note_id, run_id, body, author: by_actor, created_at: at },
                    ),
                ),
                _ => r is None,
            },
            envelope.payload matches Event::RunNoteAppended { run_id, note_id, body, by_actor, at }
                ==> ({
                let note = RunNote { id: note_id, run_id, body, author: by_actor, created_at: at };
                note.is_plain() ==> forall|row: RunNoteRow| #[trigger]
                    row.stores(note) ==> note_fault(row) is None && forall|record: RunNote|
                        note_read(row, record) ==> record.same(note)
            }),
    {
        if let Event::RunNoteAppended { run_id, note_id, body, by_actor, at } = &envelope.payload {
            let note = RunNote {
                id: *note_id,
                run_id: *run_id,
                body: body.clone(),
                author: by_actor.clone(),
                created_at: *at,
            };
            let q = RunNoteRepo::upsert(&note);
            assert(q@.binds =~= note_columns(
                RunNote {
                    id: *note_id,
                    run_id: *run_id,
                    body: *body,
                    author: *by_actor,
                    created_at: *at,
                },
            ));
            Some(q)
        } else {
            None
        }
    }
}

// ── laws ────────────────────────────────────────────────────────────────────

/// A note as the pages are ordered: by the time of its creation, and by its identifier.
pub ghost struct NoteKey {
    pub created_at: Seq<char>,
    pub id: Seq<char>,
}

impl NoteKey {
    /// The note comes after another one. Times and identifiers are compared as they are
    /// held, as texts.
    pub open spec fn comes_after(self, other: NoteKey) -> bool {
        ||| text_before(other.created_at, self.created_at)
        ||| self.created_at == other.created_at && text_before(other.id, self.id)
    }
}

/// The place of a note among the pages.
pub open spec fn note_key(note: RunNote) -> NoteKey {
    NoteKey { created_at: note.created_at.text(), id: id_text(note.id) }
}

/// Notes are ordered by the time of their creation: the later one comes after the earlier
/// one, and notes of one time are ordered by their identifiers.
pub proof fn lemma_notes_are_ordered_by_time(a: RunNote, b: RunNote)
    requires
        a.created_at.is_plain(),
        on_calendar(a.created_at.seconds() as int, a.created_at.subsec() as int),
        b.created_at.sorts_as_text(),
    ensures
        b.created_at.is_before(a.created_at) ==> note_key(a).comes_after(note_key(b)),
        a.created_at.is_before(b.created_at) ==> !note_key(a).comes_after(note_key(b)),
        a.created_at == b.created_at ==> (note_key(a).comes_after(note_key(b)) <==> text_before(
            id_text(b.id),
            id_text(a.id),
        )),
{
    lemma_texts_sort_as_times(a.created_at, b.created_at);
    if a.created_at.is_before(b.created_at) {
        lemma_before_irreflexive(a.created_at.text());
    }
}

/// The notes of a run, in order and each once.
pub open spec fn is_listing(notes: Seq<NoteKey>) -> bool {
    &&& forall|i: int, j: int|
        0 <= i < j < notes.len() ==> (#[trigger] notes[j]).comes_after(#[trigger] notes[i])
    &&& forall|i: int, j: int|
        0 <= i < j < notes.len() ==> (#[trigger] notes[i]).id != (#[trigger] notes[j]).id
}

/// The notes that come after a note.
pub open spec fn notes_after(notes: Seq<NoteKey>, cursor: NoteKey) -> Seq<NoteKey>
    decreases notes.len(),
{
    if notes.len() == 0 {
        seq![]
    } else if notes.last().comes_after(cursor) {
        notes_after(notes.drop_last(), cursor).push(notes.last())
    } else {
        notes_after(notes.drop_last(), cursor)
    }
}

/// The beginning of some notes, as long as a page may be.
pub open spec fn cut_to_page(notes: Seq<NoteKey>, limit: u32) -> Seq<NoteKey> {
    if notes.len() <= page_size(limit) {
        notes
    } else {
        notes.take(page_size(limit))
    }
}

/// A page of a run's notes: the first one, or the one after the note at the cursor. After a
/// note that is none of the run's it is empty.
pub open spec fn page(notes: Seq<NoteKey>, limit: u32, after: Option<Seq<char>>) -> Seq<NoteKey> {
    match after {
        None => cut_to_page(notes, limit),
        Some(id) => if exists|i: int| 0 <= i < notes.len() && (#[trigger] notes[i]).id == id {
            let i = choose|i: int| 0 <= i < notes.len() && (#[trigger] notes[i]).id == id;
            cut_to_page(notes_after(notes, notes[i]), limit)
        } else {
            seq![]
        },
    }
}

/// The notes on the first pages, each of which begins after the last note of those before.
pub open spec fn paged(notes: Seq<NoteKey>, limit: u32, pages: nat) -> Seq<NoteKey>
    decreases pages,
{
    if pages == 0 {
        seq![]
    } else {
        let before = paged(notes, limit, (pages - 1) as nat);
        before + page(
            notes,
            limit,
            if before.len() == 0 {
                None
            } else {
                Some(before.last().id)
            },
        )
    }
}

proof fn lemma_notes_after(notes: Seq<NoteKey>, k: int, m: int)
    requires
        is_listing(notes),
        0 <= k < notes.len(),
        0 <= m <= notes.len(),
    ensures
        notes_after(notes.take(m), notes[k]) == if m <= k + 1 {
            seq![]
        } else {
            notes.subrange(k + 1, m)
        },
    decreases m,
{
    if m > 0 {
        lemma_notes_after(notes, k, m - 1);
        let last = notes[m - 1];
        assert(notes.take(m).drop_last() =~= notes.take(m - 1));
        assert(notes.take(m).last() == last);
        if m - 1 > k {
            assert(last.comes_after(notes[k]));
            if m - 1 == k + 1 {
                assert(Seq::<NoteKey>::empty().push(last) =~= notes.subrange(k + 1, m));
            } else {
                assert(notes.subrange(k + 1, m - 1).push(last) =~= notes.subrange(k + 1, m));
            }
        } else {
            assert(!last.comes_after(notes[k])) by {
                lemma_before_irreflexive(last.created_at);
                lemma_before_irreflexive(last.id);
                if m - 1 < k {
                    assert(notes[k].comes_after(last));
                    if text_before(notes[k].created_at, last.created_at) && text_before(
                        last.created_at,
                        notes[k].created_at,
                    ) {
                        lemma_before_transitive(
                            last.created_at,
                            notes[k].created_at,
                            last.created_at,
                        );
                    }
                    if text_before(notes[k].id, last.id) && text_before(last.id, notes[k].id) {
                        lemma_before_transitive(last.id, notes[k].id, last.id);
                    }
                }
            }
        }
    }
}

/// The page after the last note of a page goes on where that one ended: it holds the next
/// notes, as many as a page may hold.
pub proof fn lemma_next_page_goes_on(notes: Seq<NoteKey>, limit: u32, k: int)
    requires
        is_listing(notes),
        0 <= k < notes.len(),
    ensures
        page(notes, limit, Some(notes[k].id)) == cut_to_page(notes.skip(k + 1), limit),
{
    let id = notes[k].id;
    let i = choose|i: int| 0 <= i < notes.len() && (#[trigger] notes[i]).id == id;
    assert(notes[k].id == id);
    assert(i == k) by {
        if i < k {
            assert(notes[i].id != notes[k].id);
        }
        if k < i {
            assert(notes[k].id != notes[i].id);
        }
    }
    lemma_notes_after(notes, k, notes.len() as int);
    assert(notes.take(notes.len() as int) =~= notes);
    assert(notes_after(notes, notes[k]) =~= notes.skip(k + 1));
}

/// Paging by the last note of each page lists every note of a run exactly once, in order:
/// what the first pages hold is the beginning of the listing, each page that is asked for
/// adds to it while there is more, and as many pages as there are notes hold them all.
pub proof fn lemma_paging_lists_every_note_once(notes: Seq<NoteKey>, limit: u32, pages: nat)
    requires
        is_listing(notes),
    ensures
        paged(notes, limit, pages).len() <= notes.len(),
        paged(notes, limit, pages) == notes.take(paged(notes, limit, pages).len() as int),
        pages <= notes.len() ==> paged(notes, limit, pages).len() >= pages,
        pages >= notes.len() ==> paged(notes, limit, pages) == notes,
    decreases pages,
{
    if pages == 0 {
        assert(notes.take(0) =~= seq![]);
        if notes.len() == 0 {
            assert(notes =~= seq![]);
        }
    } else {
        let before = paged(notes, limit, (pages - 1) as nat);
        lemma_paging_lists_every_note_once(notes, limit, (pages - 1) as nat);
        let m = before.len() as int;
        let next = page(
            notes,
            limit,
            if before.len() == 0 {
                None
            } else {
                Some(before.last().id)
            },
        );
        if m > 0 {
            assert(before.last() == notes[m - 1]);
            lemma_next_page_goes_on(notes, limit, m - 1);
        } else {
            assert(notes.skip(0) =~= notes);
        }
        assert(next == cut_to_page(notes.skip(m), limit));
        let after = paged(notes, limit, pages);
        assert(after == before + next);
        assert(after =~= notes.take(after.len() as int));
        if pages >= notes.len() {
            assert(after.len() == notes.len());
            assert(after =~= notes);
        }
    }
}

/// A page has as many notes as are asked for, but at least one and at most five hundred.
pub proof fn lemma_pages_are_bounded(limit: u32)
    ensures
        1 <= page_size(limit) <= 500,
        1 <= limit <= 500 ==> page_size(limit) == limit,
        limit == 0 ==> page_size(limit) == 1,
        limit > 500 ==> page_size(limit) == 500,
{
}

/// Each field of a note has a column of its own: what is written of one that changes is
/// written in its column, and the other columns stay.
pub proof fn lemma_run_note_has_a_column_for_each_field(record: RunNote, other: RunNote)
    ensures
        note_columns(RunNote { id: other.id, ..record }) == note_columns(record).update(
            0,
            sql_id(other.id),
        ),
        note_columns(RunNote { run_id: other.run_id, ..record }) == note_columns(record).update(
            1,
            sql_id(other.run_id),
        ),
        note_columns(RunNote { body: other.body, ..record }) == note_columns(record).update(
            2,
            sql_text(other.body@),
        ),
        note_columns(RunNote { author: other.author, ..record }) == note_columns(record).update(
            3,
            sql_actor(other.author),
        ),
        note_columns(RunNote { created_at: other.created_at, ..record })
            == note_columns(record).update(4, sql_time(other.created_at)),
        note_columns(record).len() == 5,
{
}

/// Each field of a note is read from columns of its own: what is read of a row with another
/// value there differs in that field alone.
pub proof fn lemma_run_note_is_read_field_by_field(
    row: RunNoteRow,
    record: RunNote,
    other_row: RunNoteRow,
    other: RunNote,
)
    requires
        note_read(row, record),
        note_read(other_row, other),
    ensures
        note_read(RunNoteRow { id: other_row.id, ..row }, RunNote { id: other.id, ..record }),
        note_read(
            RunNoteRow { run_id: other_row.run_id, ..row },
            RunNote { run_id: other.run_id, ..record },
        ),
        note_read(
            RunNoteRow { body: other_row.body, ..row },
            RunNote { body: other.body, ..record },
        ),
        note_read(
            RunNoteRow { author_json: other_row.author_json, ..row },
            RunNote { author: other.author, ..record },
        ),
        note_read(
            RunNoteRow { created_at: other_row.created_at, ..row },
            RunNote { created_at: other.created_at, ..record },
        ),
{
}

/// A row stores each field of a note in columns of its own: with another value there it stores
/// what differs in that field alone.
pub proof fn lemma_run_note_is_stored_field_by_field(
    row: RunNoteRow,
    record: RunNote,
    other_row: RunNoteRow,
    other: RunNote,
)
    requires
        row.stores(record),
        other_row.stores(other),
    ensures
        (RunNoteRow { id: other_row.id, ..row }).stores(RunNote { id: other.id, ..record }),
        (RunNoteRow { run_id: other_row.run_id, ..row }).stores(
            RunNote { run_id: other.run_id, ..record },
        ),
        (RunNoteRow { body: other_row.body, ..row }).stores(RunNote { body: other.body, ..record }),
        (RunNoteRow { author_json: other_row.author_json, ..row }).stores(
            RunNote { author: other.author, ..record },
        ),
        (RunNoteRow { created_at: other_row.created_at, ..row }).stores(
            RunNote { created_at: other.created_at, ..record },
        ),
{
}

/// A row of a note without a fault says what is read from it: each identifier, time, state and
/// text stands in it as it is read.
pub proof fn lemma_run_note_is_what_the_row_says(row: RunNoteRow, record: RunNote)
    requires
        (note_fault(row) is None && note_read(row, record))
            || (row.fault() is None && row.holds(record)),
    ensures
        row.id is Ok
            && crate::ids::id_parsed::<RunNoteId>(row.id->Ok_0@) == Ok::<RunNoteId, Seq<char>>(
                record.id,
            ),
        row.run_id is Ok
            && crate::ids::id_parsed::<RunId>(row.run_id->Ok_0@) == Ok::<RunId, Seq<char>>(
                record.run_id,
            ),
        row.body is Ok && row.body->Ok_0 == record.body,
        row.author_json is Ok
            && row.author_json->Ok_0 is Ok
            && row.author_json->Ok_0->Ok_0 == record.author,
        row.created_at is Ok
            && crate::time::rfc3339_parsed(row.created_at->Ok_0@) == Ok::<(i64, u32), Seq<char>>(
                (record.created_at.seconds(), record.created_at.subsec()),
            ),
{
    crate::time::lemma_time_is_read_from_its_text(row.created_at->Ok_0@);
}

/// A row of a note is refused for what is wrong with a column, with the error of that
/// column; where nothing is wrong with any, nothing is refused.
pub proof fn lemma_run_note_is_refused_for_its_columns(row: RunNoteRow, other: RunNoteRow)
    requires
        note_fault(row) is None,
    ensures
        note_fault(RunNoteRow { id: other.id, ..row }) == column_fault(other.id).or_fault(
            id_fault::<RunNoteId>(other.id->Ok_0@),
        ),
        note_fault(RunNoteRow { run_id: other.run_id, ..row })
            == column_fault(other.run_id).or_fault(id_fault::<RunId>(other.run_id->Ok_0@)),
        note_fault(RunNoteRow { body: other.body, ..row }) == column_fault(other.body),
        note_fault(RunNoteRow { author_json: other.author_json, ..row })
            == column_fault(other.author_json).or_fault(parsed_fault(other.author_json->Ok_0)),
        note_fault(RunNoteRow { created_at: other.created_at, ..row })
            == column_fault(other.created_at).or_fault(ts_fault(other.created_at->Ok_0@)),
{
}

} // verus!
