//! Comments on tasks, in the `comments` table.
use vstd::prelude::*;

use crate::domain::{Actor, Comment, CommentKind, CommentPatch};
use crate::error::{CoreError, ErrorView};
use crate::events::{Event, EventEnvelope};
use crate::ids::{
    id_fault, id_value, opt_id_fault, opt_id_value, parse_id, parse_opt_id, CommentId, ProjectId,
    TaskId,
};
use crate::query::{
    sql_actor, sql_id, sql_int, sql_opt_id, sql_opt_text, sql_opt_time, sql_text, sql_time,
    statement, BoundView, Query,
};
use crate::rows::{
    column, column_fault, has_actor, has_opt_text, has_text, parsed, parsed_fault, Column, Decode,
    Faults, Parsed,
};
use crate::text::{concat2, opt_text};
use crate::time::{
    opt_is_plain, opt_ts_fault, opt_ts_value, parse_opt_ts, parse_ts, ts_fault, ts_value, Timestamp,
};

verus! {

/// The comment projection.
#[derive(Clone, Copy, Debug)]
pub struct CommentRepo;

pub const LIST_COMMENTS: &'static str = "SELECT id, task_id, parent_id, author_json, body, kind, \
     created_at, edited_at, deleted_at \
     FROM comments \
     WHERE task_id = ? AND deleted_at IS NULL \
     ORDER BY created_at ASC";

pub const SEARCH_IN_PROJECT: &'static str = "SELECT c.id, c.task_id, c.parent_id, c.author_json, c.body, c.kind, \
     c.created_at, c.edited_at, c.deleted_at \
     FROM comments c \
     JOIN tasks t ON t.id = c.task_id \
     WHERE c.deleted_at IS NULL AND t.project_id = ? \
     AND c.body LIKE ? ESCAPE '\\' COLLATE NOCASE \
     ORDER BY c.created_at DESC LIMIT ?";

pub const SEARCH_COMMENTS: &'static str = "SELECT id, task_id, parent_id, author_json, body, kind, \
     created_at, edited_at, deleted_at \
     FROM comments \
     WHERE deleted_at IS NULL AND body LIKE ? ESCAPE '\\' COLLATE NOCASE \
     ORDER BY created_at DESC LIMIT ?";

pub const GET_COMMENT: &'static str = "SELECT id, task_id, parent_id, author_json, body, kind, \
     created_at, edited_at, deleted_at \
     FROM comments WHERE id = ?";

pub const UPSERT_COMMENT: &'static str = "INSERT OR REPLACE INTO comments \
     (id, task_id, parent_id, author_json, body, kind, created_at, edited_at, deleted_at) \
     VALUES (?, ?, ?, ?, ?, ?, ?, ?, ?)";

pub const DELETE_COMMENT: &'static str = "UPDATE comments SET deleted_at = ? WHERE id = ?";

// ── rows ────────────────────────────────────────────────────────────────────

/// Why a text is no kind of comment.
pub open spec fn comment_kind_fault(s: Seq<char>) -> Option<ErrorView> {
    if CommentKind::named(s) is Some {
        None
    } else {
        Some(ErrorView::Serde("unknown comment kind: "@ + s))
    }
}

/// Reads a kind of comment.
pub fn parse_comment_kind(s: &str) -> (r: Result<CommentKind, CoreError>)
    ensures
        match comment_kind_fault(s@) {
            Some(e) => r is Err && r->Err_0@ == e,
            None => r is Ok && Some(r->Ok_0) == CommentKind::named(s@),
        },
{
    match CommentKind::parse(s) {
        Some(v) => Ok(v),
        None => Err(CoreError::Serde(concat2("unknown comment kind: ", s))),
    }
}

/// Why an optional text is no optional kind of comment.
pub open spec fn opt_comment_kind_fault(s: Option<String>) -> Option<ErrorView> {
    match s {
        Some(s) => comment_kind_fault(s@),
        None => None,
    }
}

/// The kind of comment that an optional text stands for.
pub open spec fn opt_comment_kind(s: Option<String>) -> Option<CommentKind> {
    match s {
        Some(s) => CommentKind::named(s@),
        None => None,
    }
}

fn parse_opt_comment_kind(s: &Option<String>) -> (r: Result<Option<CommentKind>, CoreError>)
    ensures
        match opt_comment_kind_fault(*s) {
            Some(e) => r is Err && r->Err_0@ == e,
            None => r is Ok && r->Ok_0 == opt_comment_kind(*s),
        },
{
    match s {
        Some(s) => match parse_comment_kind(s.as_str()) {
            Ok(v) => Ok(Some(v)),
            Err(e) => Err(e),
        },
        None => Ok(None),
    }
}

/// The text of an optional kind of comment.
pub open spec fn opt_comment_kind_text(v: Option<CommentKind>) -> Option<Seq<char>> {
    match v {
        Some(v) => Some(v.text()),
        None => None,
    }
}

fn comment_kind_text(v: &Option<CommentKind>) -> (r: Option<String>)
    ensures
        opt_text(r) == opt_comment_kind_text(*v),
        *v matches Some(v) ==> CommentKind::named(v.text()) == Some(v),
{
    match v {
        Some(v) => Some(v.as_str().to_owned()),
        None => None,
    }
}

/// A row of the `comments` table.
#[derive(Debug, PartialEq, Eq)]
pub struct CommentRow {
    pub id: Column<String>,
    pub task_id: Column<String>,
    pub parent_id: Column<Option<String>>,
    pub author_json: Column<Parsed<Actor>>,
    pub body: Column<String>,
    pub kind: Column<Option<String>>,
    pub created_at: Column<String>,
    pub edited_at: Column<Option<String>>,
    pub deleted_at: Column<Option<String>>,
}

/// What is wrong with a comment row, where something is: the columns and their
/// values are looked at in this order.
pub open spec fn comment_fault(row: CommentRow) -> Option<ErrorView> {
    column_fault(row.id).or_fault(
        column_fault(row.task_id),
    ).or_fault(
        column_fault(row.parent_id),
    ).or_fault(
        column_fault(row.author_json),
    ).or_fault(
        column_fault(row.body),
    ).or_fault(
        column_fault(row.kind),
    ).or_fault(
        column_fault(row.created_at),
    ).or_fault(
        column_fault(row.edited_at),
    ).or_fault(
        column_fault(row.deleted_at),
    ).or_fault(
        id_fault::<CommentId>(row.id->Ok_0@),
    ).or_fault(
        id_fault::<TaskId>(row.task_id->Ok_0@),
    ).or_fault(
        opt_id_fault::<CommentId>(row.parent_id->Ok_0),
    ).or_fault(
        parsed_fault(row.author_json->Ok_0),
    ).or_fault(
        opt_comment_kind_fault(row.kind->Ok_0),
    ).or_fault(
        ts_fault(row.created_at->Ok_0@),
    ).or_fault(
        opt_ts_fault(row.edited_at->Ok_0),
    ).or_fault(
        opt_ts_fault(row.deleted_at->Ok_0),
    )
}

/// The record is what a sound comment row says.
pub open spec fn comment_read(row: CommentRow, record: Comment) -> bool {
    &&& record.id == id_value::<CommentId>(row.id->Ok_0@)
    &&& record.task_id == id_value::<TaskId>(row.task_id->Ok_0@)
    &&& record.parent_id == opt_id_value::<CommentId>(row.parent_id->Ok_0)
    &&& record.author == row.author_json->Ok_0->Ok_0
    &&& record.body == row.body->Ok_0
    &&& record.kind == opt_comment_kind(row.kind->Ok_0)
    &&& record.created_at == ts_value(row.created_at->Ok_0@)
    &&& record.edited_at == opt_ts_value(row.edited_at->Ok_0)
    &&& record.deleted_at == opt_ts_value(row.deleted_at->Ok_0)
}

/// Reads a comment from its row.
pub fn row_to_comment(row: CommentRow) -> (r: Result<Comment, CoreError>)
    ensures
        match comment_fault(row) {
            Some(e) => r is Err && r->Err_0@ == e,
            None => r is Ok && comment_read(row, r->Ok_0),
        },
{
    let id = column(row.id)?;
    let task_id = column(row.task_id)?;
    let parent_id = column(row.parent_id)?;
    let author_json = column(row.author_json)?;
    let body = column(row.body)?;
    let kind = column(row.kind)?;
    let created_at = column(row.created_at)?;
    let edited_at = column(row.edited_at)?;
    let deleted_at = column(row.deleted_at)?;
    let id = parse_id::<CommentId>(id.as_str())?;
    let task_id = parse_id::<TaskId>(task_id.as_str())?;
    let parent_id = parse_opt_id::<CommentId>(&parent_id)?;
    let author_json = parsed(author_json)?;
    let kind = parse_opt_comment_kind(&kind)?;
    let created_at = parse_ts(created_at.as_str())?;
    let edited_at = parse_opt_ts(&edited_at)?;
    let deleted_at = parse_opt_ts(&deleted_at)?;
    Ok(Comment {
        id,
        task_id,
        parent_id,
        author: author_json,
        body,
        kind,
        created_at,
        edited_at,
        deleted_at,
    })
}

impl Decode for CommentRow {
    type Record = Comment;

    open spec fn fault(&self) -> Option<ErrorView> {
        comment_fault(*self)
    }

    open spec fn holds(&self, record: Comment) -> bool {
        comment_read(*self, record)
    }

    fn decode(self) -> (r: Result<Comment, CoreError>) {
        row_to_comment(self)
    }
}

/// The columns of a comment, in the order in which they are written.
pub open spec fn comment_columns(record: Comment) -> Seq<BoundView> {
    seq![
        sql_id(record.id),
        sql_id(record.task_id),
        sql_opt_id(record.parent_id),
        sql_actor(record.author),
        sql_text(record.body@),
        sql_opt_text(opt_comment_kind_text(record.kind)),
        sql_time(record.created_at),
        sql_opt_time(record.edited_at),
        sql_opt_time(record.deleted_at),
    ]
}

impl CommentRow {
    /// Each column of the row holds what is written for it of the record.
    pub open spec fn stores(self, record: Comment) -> bool {
        &&& has_text(self.id, sql_id(record.id))
        &&& has_text(self.task_id, sql_id(record.task_id))
        &&& has_opt_text(self.parent_id, sql_opt_id(record.parent_id))
        &&& has_actor(self.author_json, sql_actor(record.author))
        &&& has_text(self.body, sql_text(record.body@))
        &&& has_opt_text(self.kind, sql_opt_text(opt_comment_kind_text(record.kind)))
        &&& has_text(self.created_at, sql_time(record.created_at))
        &&& has_opt_text(self.edited_at, sql_opt_time(record.edited_at))
        &&& has_opt_text(self.deleted_at, sql_opt_time(record.deleted_at))
    }
}

impl Comment {
    /// The two records agree in every field.
    pub open spec fn same(self, other: Comment) -> bool {
        &&& self.id == other.id
        &&& self.task_id == other.task_id
        &&& self.parent_id == other.parent_id
        &&& self.author@ == other.author@
        &&& self.body@ == other.body@
        &&& self.kind == other.kind
        &&& self.created_at == other.created_at
        &&& self.edited_at == other.edited_at
        &&& self.deleted_at == other.deleted_at
    }

    /// Every point in time of the record has an RFC 3339 text that reads back.
    pub open spec fn is_plain(self) -> bool {
        &&& self.created_at.is_plain()
        &&& opt_is_plain(self.edited_at)
        &&& opt_is_plain(self.deleted_at)
    }
}

// ── what events do to comments ──────────────────────────────────────────────

/// The comment with a change: its body is replaced where a new one is given, and it was
/// edited at the given time.
pub open spec fn patched(comment: Comment, patch: CommentPatch, edited_at: Timestamp) -> Comment {
    Comment {
        body: match patch.body {
            Some(body) => body,
            None => comment.body,
        },
        edited_at: Some(edited_at),
        ..comment
    }
}

/// Applies a change to a comment.
pub fn apply_patch(comment: &mut Comment, patch: &CommentPatch, edited_at: Timestamp)
    ensures
        *final(comment) == patched(*old(comment), *patch, edited_at),
{
    if let Some(body) = &patch.body {
        comment.body = body.clone();
    }
    comment.edited_at = Some(edited_at);
}

/// What an event asks of the comments.
#[derive(Clone, Debug, PartialEq, Eq)]
pub enum CommentStep {
    /// The event is none about comments.
    Ignore,
    /// Execute this statement.
    Run { statement: Query },
    /// Load the comment, and execute what [`CommentRepo::loaded`] gives.
    Edit { load: Query },
}

impl CommentRepo {
    /// The query for the comments of a task that have not been deleted, in the order of
    /// their creation.
    pub fn list_for_task(task_id: &TaskId) -> (q: Query)
        ensures
            q@ == statement(LIST_COMMENTS@, seq![sql_id(*task_id)]),
    {
        Query::new(LIST_COMMENTS).id(task_id)
    }

    /// The query for the comments, in a project where one is given, that have not been
    /// deleted and whose body matches a pattern, the newest first.
    pub fn search_body(pattern: &str, project_id: &Option<ProjectId>, limit: usize) -> (q: Query)
        ensures
            q@ == match *project_id {
                Some(p) => statement(
                    SEARCH_IN_PROJECT@,
                    seq![sql_id(p), sql_text(pattern@), sql_int(limit as i64 as int)],
                ),
                None => statement(
                    SEARCH_COMMENTS@,
                    seq![sql_text(pattern@), sql_int(limit as i64 as int)],
                ),
            },
    {
        match project_id {
            Some(p) => {
                let q = Query::new(SEARCH_IN_PROJECT).id(p).text(pattern).number(limit as i64);
                assert(q@.binds =~= seq![
                    sql_id(*p),
                    sql_text(pattern@),
                    sql_int(limit as i64 as int),
                ]);
                q
            },
            None => {
                let q = Query::new(SEARCH_COMMENTS).text(pattern).number(limit as i64);
                assert(q@.binds =~= seq![sql_text(pattern@), sql_int(limit as i64 as int)]);
                q
            },
        }
    }

    /// The query for a comment, deleted or not.
    pub fn get(id: &CommentId) -> (q: Query)
        ensures
            q@ == statement(GET_COMMENT@, seq![sql_id(*id)]),
    {
        Query::new(GET_COMMENT).id(id)
    }

    /// The statement that writes a comment. What it writes reads back.
    pub fn upsert_comment(c: &Comment) -> (q: Query)
        ensures
            q@ == statement(UPSERT_COMMENT@, comment_columns(*c)),
            c.is_plain() ==> forall|row: CommentRow|
                #[trigger] row.stores(*c) ==> comment_fault(row) is None && forall|record: Comment|
                    comment_read(row, record) ==> record.same(*c),
    {
        Query::new(UPSERT_COMMENT)
            .id(&c.id)
            .id(&c.task_id)
            .opt_id(&c.parent_id)
            .actor(&c.author)
            .text(c.body.as_str())
            .opt_text(&comment_kind_text(&c.kind))
            .time(&c.created_at)
            .opt_time(&c.edited_at)
            .opt_time(&c.deleted_at)
    }

    /// The statement that writes the comment that was found, as its edit makes it; none where
    /// no comment was found.
    pub fn loaded(found: Option<Comment>, patch: &CommentPatch, edited_at: Timestamp) -> (r: Option<
        Query,
    >)
        ensures
            match found {
                Some(comment) => r is Some && r->Some_0@ == statement(
                    UPSERT_COMMENT@,
                    comment_columns(patched(comment, *patch, edited_at)),
                ),
                None => r is None,
            },
    {
        match found {
            Some(comment) => {
                let mut comment = comment;
                apply_patch(&mut comment, patch, edited_at);
                Some(CommentRepo::upsert_comment(&comment))
            },
            None => None,
        }
    }

    /// What an event asks of the comments. What is written of a comment reads back.
    pub fn apply_event(envelope: &EventEnvelope) -> (r: CommentStep)
        ensures
            match envelope.payload {
                Event::CommentAdded { comment } => r matches CommentStep::Run { statement: s }
                    && s@ == statement(UPSERT_COMMENT@, comment_columns(comment)),
                Event::CommentEdited { comment_id, .. } => r matches CommentStep::Edit { load }
                    && load@ == statement(GET_COMMENT@, seq![sql_id(comment_id)]),
                Event::CommentDeleted { comment_id, deleted_at, .. } => r matches CommentStep::Run {
                    statement: s,
                } && s@ == statement(
                    DELETE_COMMENT@,
                    seq![sql_time(deleted_at), sql_id(comment_id)],
                ),
                _ => r is Ignore,
            },
            envelope.payload matches Event::CommentAdded { comment } ==> comment.is_plain()
                ==> forall|row: CommentRow| #[trigger]
                row.stores(comment) ==> comment_fault(row) is None && forall|record: Comment|
                    comment_read(row, record) ==> record.same(comment),
    {
        match &envelope.payload {
            Event::CommentAdded { comment } => CommentStep::Run {
                statement: CommentRepo::upsert_comment(comment),
            },
            Event::CommentEdited { comment_id, .. } => CommentStep::Edit {
                load: CommentRepo::get(comment_id),
            },
            Event::CommentDeleted { comment_id, deleted_at, .. } => {
                let q = Query::new(DELETE_COMMENT).time(deleted_at).id(comment_id);
                assert(q@.binds =~= seq![sql_time(*deleted_at), sql_id(*comment_id)]);
                CommentStep::Run { statement: q }
            },
            _ => CommentStep::Ignore,
        }
    }
}

// ── laws ────────────────────────────────────────────────────────────────────

/// A change touches the body and the time of the edit alone, and the last of two changes
/// to the body stands.
pub proof fn lemma_edit_touches_body_alone(
    comment: Comment,
    first: CommentPatch,
    second: CommentPatch,
    at: Timestamp,
    later: Timestamp,
)
    ensures
        patched(comment, first, at).id == comment.id,
        patched(comment, first, at).task_id == comment.task_id,
        patched(comment, first, at).author == comment.author,
        patched(comment, first, at).parent_id == comment.parent_id,
        patched(comment, first, at).kind == comment.kind,
        patched(comment, first, at).created_at == comment.created_at,
        patched(comment, first, at).deleted_at == comment.deleted_at,
        second.body is Some ==> patched(patched(comment, first, at), second, later) == patched(
            comment,
            second,
            later,
        ),
{
}

/// An edit with a body leaves that body, whatever there was before, and one without leaves
/// what was there. The comment was then edited at the time of the edit, so the last edit
/// decides.
pub proof fn lemma_last_edit_decides(
    comment: Comment,
    first: CommentPatch,
    second: CommentPatch,
    then_at: Timestamp,
    now: Timestamp,
)
    ensures
        first.body matches Some(body) ==> patched(comment, first, now).body == body,
        first.body is None ==> patched(comment, first, now).body == comment.body,
        patched(comment, first, now).edited_at == Some(now),
        second.body is Some ==> patched(patched(comment, first, then_at), second, now) == patched(
            comment,
            second,
            now,
        ),
        second.body is None ==> patched(patched(comment, first, then_at), second, now) == patched(
            comment,
            first,
            now,
        ),
{
}

/// Each field of a comment has a column of its own: what is written of one that changes is
/// written in its column, and the other columns stay.
pub proof fn lemma_comment_has_a_column_for_each_field(record: Comment, other: Comment)
    ensures
        comment_columns(Comment { id: other.id, ..record }) == comment_columns(record).update(
            0,
            sql_id(other.id),
        ),
        comment_columns(Comment { task_id: other.task_id, ..record })
            == comment_columns(record).update(1, sql_id(other.task_id)),
        comment_columns(Comment { parent_id: other.parent_id, ..record })
            == comment_columns(record).update(2, sql_opt_id(other.parent_id)),
        comment_columns(Comment { author: other.author, ..record })
            == comment_columns(record).update(3, sql_actor(other.author)),
        comment_columns(Comment { body: other.body, ..record }) == comment_columns(record).update(
            4,
            sql_text(other.body@),
        ),
        comment_columns(Comment { kind: other.kind, ..record }) == comment_columns(record).update(
            5,
            sql_opt_text(opt_comment_kind_text(other.kind)),
        ),
        comment_columns(Comment { created_at: other.created_at, ..record })
            == comment_columns(record).update(6, sql_time(other.created_at)),
        comment_columns(Comment { edited_at: other.edited_at, ..record })
            == comment_columns(record).update(7, sql_opt_time(other.edited_at)),
        comment_columns(Comment { deleted_at: other.deleted_at, ..record })
            == comment_columns(record).update(8, sql_opt_time(other.deleted_at)),
        comment_columns(record).len() == 9,
{
}

/// Each field of a comment is read from columns of its own: what is read of a row with another
/// value there differs in that field alone.
pub proof fn lemma_comment_is_read_field_by_field(
    row: CommentRow,
    record: Comment,
    other_row: CommentRow,
    other: Comment,
)
    requires
        comment_read(row, record),
        comment_read(other_row, other),
    ensures
        comment_read(CommentRow { id: other_row.id, ..row }, Comment { id: other.id, ..record }),
        comment_read(
            CommentRow { task_id: other_row.task_id, ..row },
            Comment { task_id: other.task_id, ..record },
        ),
        comment_read(
            CommentRow { parent_id: other_row.parent_id, ..row },
            Comment { parent_id: other.parent_id, ..record },
        ),
        comment_read(
            CommentRow { author_json: other_row.author_json, ..row },
            Comment { author: other.author, ..record },
        ),
        comment_read(
            CommentRow { body: other_row.body, ..row },
            Comment { body: other.body, ..record },
        ),
        comment_read(
            CommentRow { kind: other_row.kind, ..row },
            Comment { kind: other.kind, ..record },
        ),
        comment_read(
            CommentRow { created_at: other_row.created_at, ..row },
            Comment { created_at: other.created_at, ..record },
        ),
        comment_read(
            CommentRow { edited_at: other_row.edited_at, ..row },
            Comment { edited_at: other.edited_at, ..record },
        ),
        comment_read(
            CommentRow { deleted_at: other_row.deleted_at, ..row },
            Comment { deleted_at: other.deleted_at, ..record },
        ),
{
}

/// A row stores each field of a comment in columns of its own: with another value there it
/// stores what differs in that field alone.
pub proof fn lemma_comment_is_stored_field_by_field(
    row: CommentRow,
    record: Comment,
    other_row: CommentRow,
    other: Comment,
)
    requires
        row.stores(record),
        other_row.stores(other),
    ensures
        (CommentRow { id: other_row.id, ..row }).stores(Comment { id: other.id, ..record }),
        (CommentRow { task_id: other_row.task_id, ..row }).stores(
            Comment { task_id: other.task_id, ..record },
        ),
        (CommentRow { parent_id: other_row.parent_id, ..row }).stores(
            Comment { parent_id: other.parent_id, ..record },
        ),
        (CommentRow { author_json: other_row.author_json, ..row }).stores(
            Comment { author: other.author, ..record },
        ),
        (CommentRow { body: other_row.body, ..row }).stores(Comment { body: other.body, ..record }),
        (CommentRow { kind: other_row.kind, ..row }).stores(Comment { kind: other.kind, ..record }),
        (CommentRow { created_at: other_row.created_at, ..row }).stores(
            Comment { created_at: other.created_at, ..record },
        ),
        (CommentRow { edited_at: other_row.edited_at, ..row }).stores(
            Comment { edited_at: other.edited_at, ..record },
        ),
        (CommentRow { deleted_at: other_row.deleted_at, ..row }).stores(
            Comment { deleted_at: other.deleted_at, ..record },
        ),
{
}

/// A row of a comment without a fault says what is read from it: each identifier, time, state
/// and text stands in it as it is read.
pub proof fn lemma_comment_is_what_the_row_says(row: CommentRow, record: Comment)
    requires
        (comment_fault(row) is None && comment_read(row, record))
            || (row.fault() is None && row.holds(record)),
    ensures
        row.id is Ok
            && crate::ids::id_parsed::<CommentId>(row.id->Ok_0@) == Ok::<CommentId, Seq<char>>(
                record.id,
            ),
        row.task_id is Ok
            && crate::ids::id_parsed::<TaskId>(row.task_id->Ok_0@) == Ok::<TaskId, Seq<char>>(
                record.task_id,
            ),
        row.parent_id is Ok && (row.parent_id->Ok_0 is None <==> record.parent_id is None),
        row.parent_id->Ok_0 matches Some(s)
            ==> crate::ids::id_parsed::<CommentId>(s@) == Ok::<CommentId, Seq<char>>(
                record.parent_id->Some_0,
            ),
        row.author_json is Ok
            && row.author_json->Ok_0 is Ok
            && row.author_json->Ok_0->Ok_0 == record.author,
        row.body is Ok && row.body->Ok_0 == record.body,
        row.kind is Ok && (row.kind->Ok_0 is None <==> record.kind is None),
        row.kind->Ok_0 matches Some(s) ==> s@ == record.kind->Some_0.text(),
        row.created_at is Ok
            && crate::time::rfc3339_parsed(row.created_at->Ok_0@) == Ok::<(i64, u32), Seq<char>>(
                (record.created_at.seconds(), record.created_at.subsec()),
            ),
        row.edited_at is Ok && (row.edited_at->Ok_0 is None <==> record.edited_at is None),
        row.edited_at->Ok_0 matches Some(s)
            ==> crate::time::rfc3339_parsed(s@) == Ok::<(i64, u32), Seq<char>>(
                (record.edited_at->Some_0.seconds(), record.edited_at->Some_0.subsec()),
            ),
        row.deleted_at is Ok && (row.deleted_at->Ok_0 is None <==> record.deleted_at is None),
        row.deleted_at->Ok_0 matches Some(s)
            ==> crate::time::rfc3339_parsed(s@) == Ok::<(i64, u32), Seq<char>>(
                (record.deleted_at->Some_0.seconds(), record.deleted_at->Some_0.subsec()),
            ),
{
    if row.kind->Ok_0 is Some {
        record.kind->Some_0.lemma_stored_names(row.kind->Ok_0->Some_0@);
    }
    crate::time::lemma_time_is_read_from_its_text(row.created_at->Ok_0@);
    if row.edited_at->Ok_0 is Some {
        crate::time::lemma_time_is_read_from_its_text(row.edited_at->Ok_0->Some_0@);
    }
    if row.deleted_at->Ok_0 is Some {
        crate::time::lemma_time_is_read_from_its_text(row.deleted_at->Ok_0->Some_0@);
    }
}

/// A text that stands for no value is reported with the text; one that stands for a value is
/// not reported.
pub proof fn lemma_unknown_comment_kind_is_reported(v: CommentKind, s: Seq<char>)
    ensures
        comment_kind_fault(v.text()) is None,
        (forall|w: CommentKind| #[trigger] w.text() != s) ==> comment_kind_fault(s) == Some(
            ErrorView::Serde("unknown comment kind: "@ + s),
        ),
{
    v.lemma_text_names_value();
    v.lemma_stored_names(s);
}

/// A row of a comment is refused for what is wrong with a column, with the error of that
/// column; where nothing is wrong with any, nothing is refused.
pub proof fn lemma_comment_is_refused_for_its_columns(row: CommentRow, other: CommentRow)
    requires
        comment_fault(row) is None,
    ensures
        comment_fault(CommentRow { id: other.id, ..row }) == column_fault(other.id).or_fault(
            id_fault::<CommentId>(other.id->Ok_0@),
        ),
        comment_fault(CommentRow { task_id: other.task_id, ..row })
            == column_fault(other.task_id).or_fault(id_fault::<TaskId>(other.task_id->Ok_0@)),
        comment_fault(CommentRow { parent_id: other.parent_id, ..row })
            == column_fault(other.parent_id).or_fault(
                opt_id_fault::<CommentId>(other.parent_id->Ok_0),
            ),
        comment_fault(CommentRow { author_json: other.author_json, ..row })
            == column_fault(other.author_json).or_fault(parsed_fault(other.author_json->Ok_0)),
        comment_fault(CommentRow { body: other.body, ..row }) == column_fault(other.body),
        comment_fault(CommentRow { kind: other.kind, ..row }) == column_fault(other.kind).or_fault(
            opt_comment_kind_fault(other.kind->Ok_0),
        ),
        comment_fault(CommentRow { created_at: other.created_at, ..row })
            == column_fault(other.created_at).or_fault(ts_fault(other.created_at->Ok_0@)),
        comment_fault(CommentRow { edited_at: other.edited_at, ..row })
            == column_fault(other.edited_at).or_fault(opt_ts_fault(other.edited_at->Ok_0)),
        comment_fault(CommentRow { deleted_at: other.deleted_at, ..row })
            == column_fault(other.deleted_at).or_fault(opt_ts_fault(other.deleted_at->Ok_0)),
{
}

} // verus!
