//! Relations between tasks, in the `task_relations` table.
use vstd::prelude::*;

use crate::domain::{Actor, Relation, RelationKind};
use crate::error::{CoreError, ErrorView};
use crate::events::Event;
use crate::ids::{id_fault, id_text, id_value, parse_id, print_id, RelationId, TaskId};
use crate::query::{
    bind_ids, id_binds, sql_actor, sql_id, sql_text, sql_time, statement, BoundView, Query,
};
use crate::rows::{
    column, column_fault, has_actor, has_text, parsed, parsed_fault, Column, Decode, Faults, Parsed,
};
use crate::text::{concat2, concat3, contains, contains_text, placeholder_list, placeholders};
use crate::time::{parse_ts, ts_fault, ts_value};

verus! {

/// The relations.
#[derive(Clone, Copy, Debug)]
pub struct RelationRepo;

pub const INSERT_RELATION: &'static str = "INSERT INTO task_relations (id, from_task, to_task, kind, created_at, actor_json) \
     VALUES (?, ?, ?, ?, ?, ?)";

pub const UPDATE_KIND: &'static str = "UPDATE task_relations SET kind = ? WHERE id = ?";

pub const DELETE_RELATION: &'static str = "DELETE FROM task_relations WHERE id = ?";

pub const GET_RELATION: &'static str = "SELECT id, from_task, to_task, kind, created_at, actor_json \
     FROM task_relations WHERE id = ?";

pub const LIST_BY_TASK: &'static str = "SELECT id, from_task, to_task, kind, created_at, actor_json \
     FROM task_relations \
     WHERE from_task = ? OR to_task = ? \
     ORDER BY created_at ASC";

pub const SELECT_FROM_TASKS: &'static str = "SELECT id, from_task, to_task, kind, created_at, actor_json \
     FROM task_relations \
     WHERE from_task IN (";

pub const OR_TO_TASKS: &'static str = ") OR to_task IN (";

pub const BY_CREATION: &'static str = ") \
     ORDER BY created_at ASC";

pub const LIST_BLOCKERS: &'static str = "SELECT id, from_task, to_task, kind, created_at, actor_json \
     FROM task_relations \
     WHERE to_task = ? AND kind = 'blocks' \
     ORDER BY created_at ASC";

pub const LIST_BLOCKED: &'static str = "SELECT id, from_task, to_task, kind, created_at, actor_json \
     FROM task_relations \
     WHERE from_task = ? AND kind = 'blocks' \
     ORDER BY created_at ASC";

pub const UNIQUE_VIOLATION: &'static str = "UNIQUE constraint failed";

// ── rows ────────────────────────────────────────────────────────────────────

/// Why a text is no kind of relation.
pub open spec fn relation_kind_fault(s: Seq<char>) -> Option<ErrorView> {
    if RelationKind::named(s) is Some {
        None
    } else {
        Some(ErrorView::Serde("unknown relation kind: "@ + s))
    }
}

/// Reads a kind of relation.
pub fn parse_relation_kind(s: &str) -> (r: Result<RelationKind, CoreError>)
    ensures
        match relation_kind_fault(s@) {
            Some(e) => r is Err && r->Err_0@ == e,
            None => r is Ok && Some(r->Ok_0) == RelationKind::named(s@),
        },
{
    match RelationKind::parse(s) {
        Some(v) => Ok(v),
        None => Err(CoreError::Serde(concat2("unknown relation kind: ", s))),
    }
}

/// A row of the `task_relations` table.
#[derive(Debug, PartialEq, Eq)]
pub struct RelationRow {
    pub id: Column<String>,
    pub from_task: Column<String>,
    pub to_task: Column<String>,
    pub kind: Column<String>,
    pub created_at: Column<String>,
    pub actor_json: Column<Parsed<Actor>>,
}

/// What is wrong with a relation row, where something is: the columns and their
/// values are looked at in this order.
pub open spec fn relation_fault(row: RelationRow) -> Option<ErrorView> {
    column_fault(row.id).or_fault(
        column_fault(row.from_task),
    ).or_fault(
        column_fault(row.to_task),
    ).or_fault(
        column_fault(row.kind),
    ).or_fault(
        column_fault(row.created_at),
    ).or_fault(
        column_fault(row.actor_json),
    ).or_fault(
        id_fault::<RelationId>(row.id->Ok_0@),
    ).or_fault(
        id_fault::<TaskId>(row.from_task->Ok_0@),
    ).or_fault(
        id_fault::<TaskId>(row.to_task->Ok_0@),
    ).or_fault(
        relation_kind_fault(row.kind->Ok_0@),
    ).or_fault(
        ts_fault(row.created_at->Ok_0@),
    ).or_fault(
        parsed_fault(row.actor_json->Ok_0),
    )
}

/// The record is what a sound relation row says.
pub open spec fn relation_read(row: RelationRow, record: Relation) -> bool {
    &&& record.id == id_value::<RelationId>(row.id->Ok_0@)
    &&& record.from == id_value::<TaskId>(row.from_task->Ok_0@)
    &&& record.to == id_value::<TaskId>(row.to_task->Ok_0@)
    &&& Some(record.kind) == RelationKind::named(row.kind->Ok_0@)
    &&& record.created_at == ts_value(row.created_at->Ok_0@)
    &&& record.created_by == row.actor_json->Ok_0->Ok_0
}

/// Reads a relation from its row.
pub fn row_to_relation(row: RelationRow) -> (r: Result<Relation, CoreError>)
    ensures
        match relation_fault(row) {
            Some(e) => r is Err && r->Err_0@ == e,
            None => r is Ok && relation_read(row, r->Ok_0),
        },
{
    let id = column(row.id)?;
    let from_task = column(row.from_task)?;
    let to_task = column(row.to_task)?;
    let kind = column(row.kind)?;
    let created_at = column(row.created_at)?;
    let actor_json = column(row.actor_json)?;
    let id = parse_id::<RelationId>(id.as_str())?;
    let from_task = parse_id::<TaskId>(from_task.as_str())?;
    let to_task = parse_id::<TaskId>(to_task.as_str())?;
    let kind = parse_relation_kind(kind.as_str())?;
    let created_at = parse_ts(created_at.as_str())?;
    let actor_json = parsed(actor_json)?;
    Ok(Relation {
        id,
        from: from_task,
        to: to_task,
        kind,
        created_at,
        created_by: actor_json,
    })
}

impl Decode for RelationRow {
    type Record = Relation;

    open spec fn fault(&self) -> Option<ErrorView> {
        relation_fault(*self)
    }

    open spec fn holds(&self, record: Relation) -> bool {
        relation_read(*self, record)
    }

    fn decode(self) -> (r: Result<Relation, CoreError>) {
        row_to_relation(self)
    }
}

/// The columns of a relation, in the order in which they are written.
pub open spec fn relation_columns(record: Relation) -> Seq<BoundView> {
    seq![
        sql_id(record.id),
        sql_id(record.from),
        sql_id(record.to),
        sql_text(record.kind.text()),
        sql_time(record.created_at),
        sql_actor(record.created_by),
    ]
}

impl RelationRow {
    /// Each column of the row holds what is written for it of the record.
    pub open spec fn stores(self, record: Relation) -> bool {
        &&& has_text(self.id, sql_id(record.id))
        &&& has_text(self.from_task, sql_id(record.from))
        &&& has_text(self.to_task, sql_id(record.to))
        &&& has_text(self.kind, sql_text(record.kind.text()))
        &&& has_text(self.created_at, sql_time(record.created_at))
        &&& has_actor(self.actor_json, sql_actor(record.created_by))
    }
}

impl Relation {
    /// The two records agree in every field.
    pub open spec fn same(self, other: Relation) -> bool {
        &&& self.id == other.id
        &&& self.from == other.from
        &&& self.to == other.to
        &&& self.kind == other.kind
        &&& self.created_at == other.created_at
        &&& self.created_by@ == other.created_by@
    }

    /// Every point in time of the record has an RFC 3339 text that reads back.
    pub open spec fn is_plain(self) -> bool {
        &&& self.created_at.is_plain()
    }
}

// ── the repository ──────────────────────────────────────────────────────────

/// What the database said when it refused a statement.
#[derive(Clone, Debug, PartialEq, Eq)]
pub struct Refusal {
    /// The whole message.
    pub text: String,
    /// The message of the database itself, where it comes from there.
    pub database: Option<String>,
}

/// The refusal is for a relation that there is already.
pub open spec fn is_duplicate(refusal: Refusal) -> bool {
    refusal.database is Some && contains(refusal.database->Some_0@, UNIQUE_VIOLATION@)
}

/// The text of the query for the relations of some tasks.
pub open spec fn by_task_ids_sql(n: nat) -> Seq<char> {
    SELECT_FROM_TASKS@ + placeholder_list(n, ","@) + OR_TO_TASKS@ + placeholder_list(n, ","@)
        + BY_CREATION@
}

impl RelationRepo {
    /// The statement that writes a relation. What it writes reads back.
    pub fn insert(relation: &Relation) -> (q: Query)
        ensures
            q@ == statement(INSERT_RELATION@, relation_columns(*relation)),
            relation.is_plain() ==> forall|row: RelationRow|
                #[trigger] row.stores(*relation) ==> relation_fault(row) is None && forall|record: Relation|
                    relation_read(row, record) ==> record.same(*relation),
    {
        Query::new(INSERT_RELATION)
            .id(&relation.id)
            .id(&relation.from)
            .id(&relation.to)
            .text(relation.kind.as_str())
            .time(&relation.created_at)
            .actor(&relation.created_by)
    }

    /// The error for a relation that the database refused to write: a conflict where there
    /// is a relation of that kind between the two tasks already.
    pub fn insert_error(relation: &Relation, refusal: Refusal) -> (e: CoreError)
        ensures
            e@ == if is_duplicate(refusal) {
                ErrorView::Conflict(
                    "relation_exists: ("@ + id_text(relation.from) + ", "@ + id_text(relation.to)
                        + ", "@ + relation.kind.text() + ")"@,
                )
            } else {
                ErrorView::Storage(refusal.text@)
            },
    {
        let duplicate = match &refusal.database {
            Some(message) => contains_text(message.as_str(), UNIQUE_VIOLATION),
            None => false,
        };
        if duplicate {
            let mut text = concat3("relation_exists: (", print_id(&relation.from).as_str(), ", ");
            text.append(print_id(&relation.to).as_str());
            text.append(", ");
            text.append(relation.kind.as_str());
            text.append(")");
            CoreError::Conflict(text)
        } else {
            CoreError::Storage(refusal.text)
        }
    }

    /// The statement that changes the kind of a relation.
    pub fn update_kind(id: &RelationId, kind: RelationKind) -> (q: Query)
        ensures
            q@ == statement(UPDATE_KIND@, seq![sql_text(kind.text()), sql_id(*id)]),
    {
        Query::new(UPDATE_KIND).text(kind.as_str()).id(id)
    }

    /// The statement that deletes a relation.
    pub fn delete(id: &RelationId) -> (q: Query)
        ensures
            q@ == statement(DELETE_RELATION@, seq![sql_id(*id)]),
    {
        Query::new(DELETE_RELATION).id(id)
    }

    /// Whether there was a relation that was changed or deleted.
    pub fn was_changed(rows_affected: u64) -> (r: bool)
        ensures
            r == (rows_affected > 0),
    {
        rows_affected > 0
    }

    /// The query for a relation.
    pub fn get(id: &RelationId) -> (q: Query)
        ensures
            q@ == statement(GET_RELATION@, seq![sql_id(*id)]),
    {
        Query::new(GET_RELATION).id(id)
    }

    /// The query for the relations from and to a task.
    pub fn list_by_task(task_id: &TaskId) -> (q: Query)
        ensures
            q@ == statement(LIST_BY_TASK@, seq![sql_id(*task_id), sql_id(*task_id)]),
    {
        Query::new(LIST_BY_TASK).id(task_id).id(task_id)
    }

    /// The query for the relations from and to any of some tasks; none where there are no
    /// tasks, and so no relations.
    pub fn list_by_task_ids(task_ids: &Vec<TaskId>) -> (r: Option<Query>)
        ensures
            task_ids@.len() == 0 ==> r is None,
            task_ids@.len() > 0 ==> r is Some && r->Some_0@ == statement(
                by_task_ids_sql(task_ids@.len()),
                id_binds(task_ids@) + id_binds(task_ids@),
            ),
    {
        if task_ids.len() == 0 {
            return None;
        }
        let marks = placeholders(task_ids.len(), ",");
        let mut sql = concat3(SELECT_FROM_TASKS, marks.as_str(), OR_TO_TASKS);
        sql.append(marks.as_str());
        sql.append(BY_CREATION);
        let q = bind_ids(bind_ids(Query::new(sql.as_str()), task_ids), task_ids);
        assert(q@.binds =~= id_binds(task_ids@) + id_binds(task_ids@));
        Some(q)
    }

    /// The query for the relations by which a task is blocked.
    pub fn list_blockers(task_id: &TaskId) -> (q: Query)
        ensures
            q@ == statement(LIST_BLOCKERS@, seq![sql_id(*task_id)]),
    {
        Query::new(LIST_BLOCKERS).id(task_id)
    }

    /// The query for the relations by which a task blocks others.
    pub fn list_blocks_targets(task_id: &TaskId) -> (q: Query)
        ensures
            q@ == statement(LIST_BLOCKED@, seq![sql_id(*task_id)]),
    {
        Query::new(LIST_BLOCKED).id(task_id)
    }

    /// The statement that applies an event to the relations: there is none, relations are
    /// written by themselves.
    pub fn apply_event(_event: &Event) -> (r: Option<Query>)
        ensures
            r is None,
    {
        None
    }
}

// ── laws ────────────────────────────────────────────────────────────────────

/// A refused relation counts as one that there is already exactly if the database says so:
/// its message holds the words for a key that is taken.
pub proof fn lemma_taken_key_is_a_duplicate(refusal: Refusal, before: Seq<char>, after: Seq<char>)
    ensures
        refusal.database is None ==> !is_duplicate(refusal),
        refusal.database matches Some(message) ==> (message@ == before
            + "UNIQUE constraint failed"@ + after ==> is_duplicate(refusal)),
        refusal.database matches Some(message) ==> (message@.len() == 0 ==> !is_duplicate(refusal)),
{
    reveal_strlit("UNIQUE constraint failed");
    let needle = "UNIQUE constraint failed"@;
    if refusal.database is Some && refusal.database->Some_0@ == before + needle + after {
        crate::text::lemma_needle_is_found_between(before, needle, after);
    }
}

/// The relations of some tasks are asked for with one mark for each task on either side.
pub proof fn lemma_relations_are_asked_for_on_both_sides(n: nat)
    ensures
        ({
            let marks = crate::text::joined(Seq::new(n, |i: int| seq!['?']), ","@);
            by_task_ids_sql(n) == SELECT_FROM_TASKS@ + marks + OR_TO_TASKS@ + marks + BY_CREATION@
        }),
{
    crate::text::lemma_placeholders_are_joined_question_marks(n, ","@);
}

/// Each field of a relation has a column of its own: what is written of one that changes is
/// written in its column, and the other columns stay.
pub proof fn lemma_relation_has_a_column_for_each_field(record: Relation, other: Relation)
    ensures
        relation_columns(Relation { id: other.id, ..record }) == relation_columns(record).update(
            0,
            sql_id(other.id),
        ),
        relation_columns(Relation { from: other.from, ..record })
            == relation_columns(record).update(1, sql_id(other.from)),
        relation_columns(Relation { to: other.to, ..record }) == relation_columns(record).update(
            2,
            sql_id(other.to),
        ),
        relation_columns(Relation { kind: other.kind, ..record })
            == relation_columns(record).update(3, sql_text(other.kind.text())),
        relation_columns(Relation { created_at: other.created_at, ..record })
            == relation_columns(record).update(4, sql_time(other.created_at)),
        relation_columns(Relation { created_by: other.created_by, ..record })
            == relation_columns(record).update(5, sql_actor(other.created_by)),
        relation_columns(record).len() == 6,
{
}

/// Each field of a relation is read from columns of its own: what is read of a row with
/// another value there differs in that field alone.
pub proof fn lemma_relation_is_read_field_by_field(
    row: RelationRow,
    record: Relation,
    other_row: RelationRow,
    other: Relation,
)
    requires
        relation_read(row, record),
        relation_read(other_row, other),
    ensures
        relation_read(RelationRow { id: other_row.id, ..row }, Relation { id: other.id, ..record }),
        relation_read(
            RelationRow { from_task: other_row.from_task, ..row },
            Relation { from: other.from, ..record },
        ),
        relation_read(
            RelationRow { to_task: other_row.to_task, ..row },
            Relation { to: other.to, ..record },
        ),
        relation_read(
            RelationRow { kind: other_row.kind, ..row },
            Relation { kind: other.kind, ..record },
        ),
        relation_read(
            RelationRow { created_at: other_row.created_at, ..row },
            Relation { created_at: other.created_at, ..record },
        ),
        relation_read(
            RelationRow { actor_json: other_row.actor_json, ..row },
            Relation { created_by: other.created_by, ..record },
        ),
{
}

/// A row stores each field of a relation in columns of its own: with another value there it
/// stores what differs in that field alone.
pub proof fn lemma_relation_is_stored_field_by_field(
    row: RelationRow,
    record: Relation,
    other_row: RelationRow,
    other: Relation,
)
    requires
        row.stores(record),
        other_row.stores(other),
    ensures
        (RelationRow { id: other_row.id, ..row }).stores(Relation { id: other.id, ..record }),
        (RelationRow { from_task: other_row.from_task, ..row }).stores(
            Relation { from: other.from, ..record },
        ),
        (RelationRow { to_task: other_row.to_task, ..row }).stores(
            Relation { to: other.to, ..record },
        ),
        (RelationRow { kind: other_row.kind, ..row }).stores(
            Relation { kind: other.kind, ..record },
        ),
        (RelationRow { created_at: other_row.created_at, ..row }).stores(
            Relation { created_at: other.created_at, ..record },
        ),
        (RelationRow { actor_json: other_row.actor_json, ..row }).stores(
            Relation { created_by: other.created_by, ..record },
        ),
{
}

/// A row of a relation without a fault says what is read from it: each identifier, time, state
/// and text stands in it as it is read.
pub proof fn lemma_relation_is_what_the_row_says(row: RelationRow, record: Relation)
    requires
        (relation_fault(row) is None && relation_read(row, record))
            || (row.fault() is None && row.holds(record)),
    ensures
        row.id is Ok
            && crate::ids::id_parsed::<RelationId>(row.id->Ok_0@) == Ok::<RelationId, Seq<char>>(
                record.id,
            ),
        row.from_task is Ok
            && crate::ids::id_parsed::<TaskId>(row.from_task->Ok_0@) == Ok::<TaskId, Seq<char>>(
                record.from,
            ),
        row.to_task is Ok
            && crate::ids::id_parsed::<TaskId>(row.to_task->Ok_0@) == Ok::<TaskId, Seq<char>>(
                record.to,
            ),
        row.kind is Ok && row.kind->Ok_0@ == record.kind.text(),
        row.created_at is Ok
            && crate::time::rfc3339_parsed(row.created_at->Ok_0@) == Ok::<(i64, u32), Seq<char>>(
                (record.created_at.seconds(), record.created_at.subsec()),
            ),
        row.actor_json is Ok
            && row.actor_json->Ok_0 is Ok
            && row.actor_json->Ok_0->Ok_0 == record.created_by,
{
    record.kind.lemma_stored_names(row.kind->Ok_0@);
    crate::time::lemma_time_is_read_from_its_text(row.created_at->Ok_0@);
}

/// A text that stands for no value is reported with the text; one that stands for a value is
/// not reported.
pub proof fn lemma_unknown_relation_kind_is_reported(v: RelationKind, s: Seq<char>)
    ensures
        relation_kind_fault(v.text()) is None,
        (forall|w: RelationKind| #[trigger] w.text() != s) ==> relation_kind_fault(s) == Some(
            ErrorView::Serde("unknown relation kind: "@ + s),
        ),
{
    v.lemma_text_names_value();
    v.lemma_stored_names(s);
}

/// A row of a relation is refused for what is wrong with a column, with the error of that
/// column; where nothing is wrong with any, nothing is refused.
pub proof fn lemma_relation_is_refused_for_its_columns(row: RelationRow, other: RelationRow)
    requires
        relation_fault(row) is None,
    ensures
        relation_fault(RelationRow { id: other.id, ..row }) == column_fault(other.id).or_fault(
            id_fault::<RelationId>(other.id->Ok_0@),
        ),
        relation_fault(RelationRow { from_task: other.from_task, ..row })
            == column_fault(other.from_task).or_fault(id_fault::<TaskId>(other.from_task->Ok_0@)),
        relation_fault(RelationRow { to_task: other.to_task, ..row })
            == column_fault(other.to_task).or_fault(id_fault::<TaskId>(other.to_task->Ok_0@)),
        relation_fault(RelationRow { kind: other.kind, ..row })
            == column_fault(other.kind).or_fault(relation_kind_fault(other.kind->Ok_0@)),
        relation_fault(RelationRow { created_at: other.created_at, ..row })
            == column_fault(other.created_at).or_fault(ts_fault(other.created_at->Ok_0@)),
        relation_fault(RelationRow { actor_json: other.actor_json, ..row })
            == column_fault(other.actor_json).or_fault(parsed_fault(other.actor_json->Ok_0)),
{
}

} // verus!
