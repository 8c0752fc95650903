//! How complex tasks are thought to be, in the `task_complexity_hints` table.
use vstd::prelude::*;

use crate::domain::ComplexityHint;
use crate::error::{CoreError, ErrorView};
use crate::ids::{id_fault, id_value, parse_id, PlanId, TaskId};
use crate::query::{
    sql_id, sql_int, sql_text, sql_time, statement, statements, BoundView, Query, QueryView,
};
use crate::rows::{column, column_fault, has_int, has_text, Column, Decode, Faults};
use crate::time::{parse_ts, ts_fault, ts_value};

verus! {

/// The complexity hints.
#[derive(Clone, Copy, Debug)]
pub struct TaskComplexityRepo;

pub const UPSERT_HINT: &'static str = "INSERT OR REPLACE INTO task_complexity_hints \
     (task_id, score, recommended_subtasks, expansion_hint, reasoning, \
     generated_at, batch_id) \
     VALUES (?, ?, ?, ?, ?, ?, ?)";

pub const GET_HINT: &'static str = "SELECT task_id, score, recommended_subtasks, expansion_hint, reasoning, \
     generated_at, batch_id \
     FROM task_complexity_hints WHERE task_id = ?";

pub const LIST_HINTS: &'static str = "SELECT h.task_id, h.score, h.recommended_subtasks, h.expansion_hint, \
     h.reasoning, h.generated_at, h.batch_id \
     FROM task_complexity_hints h \
     JOIN plan_tasks pt ON pt.task_id = h.task_id \
     WHERE pt.plan_id = ? \
     ORDER BY pt.position ASC";

// ── rows ────────────────────────────────────────────────────────────────────

/// A stored number, brought into the range of a byte.
pub open spec fn byte_value(n: i64) -> u8 {
    if n < 0 {
        0
    } else if n > 255 {
        255
    } else {
        n as u8
    }
}

fn clamp_byte(n: i64) -> (r: u8)
    ensures
        r == byte_value(n),
{
    if n < 0 {
        0
    } else if n > 255 {
        255
    } else {
        n as u8
    }
}

/// A row of the `task_complexity_hints` table.
#[derive(Debug, PartialEq, Eq)]
pub struct HintRow {
    pub task_id: Column<String>,
    pub score: Column<i64>,
    pub recommended_subtasks: Column<i64>,
    pub expansion_hint: Column<String>,
    pub reasoning: Column<String>,
    pub generated_at: Column<String>,
    pub batch_id: Column<String>,
}

/// What is wrong with a hint row, where something is: the columns and their
/// values are looked at in this order.
pub open spec fn hint_fault(row: HintRow) -> Option<ErrorView> {
    column_fault(row.task_id).or_fault(
        column_fault(row.score),
    ).or_fault(
        column_fault(row.recommended_subtasks),
    ).or_fault(
        column_fault(row.expansion_hint),
    ).or_fault(
        column_fault(row.reasoning),
    ).or_fault(
        column_fault(row.generated_at),
    ).or_fault(
        column_fault(row.batch_id),
    ).or_fault(
        id_fault::<TaskId>(row.task_id->Ok_0@),
    ).or_fault(
        ts_fault(row.generated_at->Ok_0@),
    )
}

/// The record is what a sound hint row says.
pub open spec fn hint_read(row: HintRow, record: ComplexityHint) -> bool {
    &&& record.task_id == id_value::<TaskId>(row.task_id->Ok_0@)
    &&& record.score == byte_value(row.score->Ok_0)
    &&& record.recommended_subtasks == byte_value(row.recommended_subtasks->Ok_0)
    &&& record.expansion_hint == row.expansion_hint->Ok_0
    &&& record.reasoning == row.reasoning->Ok_0
    &&& record.generated_at == ts_value(row.generated_at->Ok_0@)
    &&& record.batch_id == row.batch_id->Ok_0
}

/// Reads a hint from its row.
pub fn row_to_hint(row: HintRow) -> (r: Result<ComplexityHint, CoreError>)
    ensures
        match hint_fault(row) {
            Some(e) => r is Err && r->Err_0@ == e,
            None => r is Ok && hint_read(row, r->Ok_0),
        },
{
    let task_id = column(row.task_id)?;
    let score = column(row.score)?;
    let recommended_subtasks = column(row.recommended_subtasks)?;
    let expansion_hint = column(row.expansion_hint)?;
    let reasoning = column(row.reasoning)?;
    let generated_at = column(row.generated_at)?;
    let batch_id = column(row.batch_id)?;
    let task_id = parse_id::<TaskId>(task_id.as_str())?;
    let generated_at = parse_ts(generated_at.as_str())?;
    Ok(ComplexityHint {
        task_id,
        score: clamp_byte(score),
        recommended_subtasks: clamp_byte(recommended_subtasks),
        expansion_hint,
        reasoning,
        generated_at,
        batch_id,
    })
}

impl Decode for HintRow {
    type Record = ComplexityHint;

    open spec fn fault(&self) -> Option<ErrorView> {
        hint_fault(*self)
    }

    open spec fn holds(&self, record: ComplexityHint) -> bool {
        hint_read(*self, record)
    }

    fn decode(self) -> (r: Result<ComplexityHint, CoreError>) {
        row_to_hint(self)
    }
}

/// The columns of a hint, in the order in which they are written.
pub open spec fn hint_columns(record: ComplexityHint) -> Seq<BoundView> {
    seq![
        sql_id(record.task_id),
        sql_int(record.score as int),
        sql_int(record.recommended_subtasks as int),
        sql_text(record.expansion_hint@),
        sql_text(record.reasoning@),
        sql_time(record.generated_at),
        sql_text(record.batch_id@),
    ]
}

impl HintRow {
    /// Each column of the row holds what is written for it of the record.
    pub open spec fn stores(self, record: ComplexityHint) -> bool {
        &&& has_text(self.task_id, sql_id(record.task_id))
        &&& has_int(self.score, sql_int(record.score as int))
        &&& has_int(self.recommended_subtasks, sql_int(record.recommended_subtasks as int))
        &&& has_text(self.expansion_hint, sql_text(record.expansion_hint@))
        &&& has_text(self.reasoning, sql_text(record.reasoning@))
        &&& has_text(self.generated_at, sql_time(record.generated_at))
        &&& has_text(self.batch_id, sql_text(record.batch_id@))
    }
}

impl ComplexityHint {
    /// The two records agree in every field.
    pub open spec fn same(self, other: ComplexityHint) -> bool {
        &&& self.task_id == other.task_id
        &&& self.score == other.score
        &&& self.recommended_subtasks == other.recommended_subtasks
        &&& self.expansion_hint@ == other.expansion_hint@
        &&& self.reasoning@ == other.reasoning@
        &&& self.generated_at == other.generated_at
        &&& self.batch_id@ == other.batch_id@
    }

    /// Every point in time of the record has an RFC 3339 text that reads back.
    pub open spec fn is_plain(self) -> bool {
        &&& self.generated_at.is_plain()
    }
}

// ── the repository ──────────────────────────────────────────────────────────

/// The statement that writes a hint.
pub open spec fn hint_upsert(hint: ComplexityHint) -> QueryView {
    statement(UPSERT_HINT@, hint_columns(hint))
}

impl TaskComplexityRepo {
    /// The statement that writes a hint. What it writes reads back.
    pub fn upsert(hint: &ComplexityHint) -> (q: Query)
        ensures
            q@ == hint_upsert(*hint),
            hint.is_plain() ==> forall|row: HintRow|
                #[trigger] row.stores(*hint) ==> hint_fault(row) is None && forall|record: ComplexityHint|
                    hint_read(row, record) ==> record.same(*hint),
    {
        Query::new(UPSERT_HINT)
            .id(&hint.task_id)
            .number(hint.score as i64)
            .number(hint.recommended_subtasks as i64)
            .text(hint.expansion_hint.as_str())
            .text(hint.reasoning.as_str())
            .time(&hint.generated_at)
            .text(hint.batch_id.as_str())
    }

    /// The statements that write some hints together.
    pub fn upsert_batch(hints: &Vec<ComplexityHint>) -> (r: Vec<Query>)
        ensures
            statements(r@) == hints@.map_values(|hint: ComplexityHint| hint_upsert(hint)),
    {
        let mut out: Vec<Query> = Vec::new();
        let ghost all = hints@.map_values(|hint: ComplexityHint| hint_upsert(hint));
        let mut i: usize = 0;
        while i < hints.len()
            invariant
                i <= hints@.len(),
                all == hints@.map_values(|hint: ComplexityHint| hint_upsert(hint)),
                statements(out@) == all.take(i as int),
            decreases hints@.len() - i,
        {
            let q = TaskComplexityRepo::upsert(&hints[i]);
            let ghost before = out@;
            out.push(q);
            assert(statements(out@) =~= statements(before).push(q@));
            assert(all.take(i + 1) =~= all.take(i as int).push(all[i as int]));
            i = i + 1;
        }
        assert(all.take(hints@.len() as int) =~= all);
        out
    }

    /// The query for the hint of a task.
    pub fn get(task_id: &TaskId) -> (q: Query)
        ensures
            q@ == statement(GET_HINT@, seq![sql_id(*task_id)]),
    {
        Query::new(GET_HINT).id(task_id)
    }

    /// The query for the hints of a plan's tasks, in the order of the plan.
    pub fn list_by_plan(plan_id: &PlanId) -> (q: Query)
        ensures
            q@ == statement(LIST_HINTS@, seq![sql_id(*plan_id)]),
    {
        Query::new(LIST_HINTS).id(plan_id)
    }
}

// ── laws ────────────────────────────────────────────────────────────────────

/// A stored number is read as it is where it fits in a byte; what is below counts as zero, and
/// what is above as the largest byte.
pub proof fn lemma_number_is_brought_into_a_byte(n: i64)
    ensures
        0 <= n <= 255 ==> byte_value(n) == n,
        n < 0 ==> byte_value(n) == 0,
        n > 255 ==> byte_value(n) == 255,
{
}

/// Each field of a hint has a column of its own: what is written of one that changes is
/// written in its column, and the other columns stay.
pub proof fn lemma_complexity_hint_has_a_column_for_each_field(
    record: ComplexityHint,
    other: ComplexityHint,
)
    ensures
        hint_columns(ComplexityHint { task_id: other.task_id, ..record })
            == hint_columns(record).update(0, sql_id(other.task_id)),
        hint_columns(ComplexityHint { score: other.score, ..record })
            == hint_columns(record).update(1, sql_int(other.score as int)),
        hint_columns(ComplexityHint { recommended_subtasks: other.recommended_subtasks, ..record })
            == hint_columns(record).update(2, sql_int(other.recommended_subtasks as int)),
        hint_columns(ComplexityHint { expansion_hint: other.expansion_hint, ..record })
            == hint_columns(record).update(3, sql_text(other.expansion_hint@)),
        hint_columns(ComplexityHint { reasoning: other.reasoning, ..record })
            == hint_columns(record).update(4, sql_text(other.reasoning@)),
        hint_columns(ComplexityHint { generated_at: other.generated_at, ..record })
            == hint_columns(record).update(5, sql_time(other.generated_at)),
        hint_columns(ComplexityHint { batch_id: other.batch_id, ..record })
            == hint_columns(record).update(6, sql_text(other.batch_id@)),
        hint_columns(record).len() == 7,
{
}

/// Each field of a hint is read from columns of its own: what is read of a row with another
/// value there differs in that field alone.
pub proof fn lemma_complexity_hint_is_read_field_by_field(
    row: HintRow,
    record: ComplexityHint,
    other_row: HintRow,
    other: ComplexityHint,
)
    requires
        hint_read(row, record),
        hint_read(other_row, other),
    ensures
        hint_read(
            HintRow { task_id: other_row.task_id, ..row },
            ComplexityHint { task_id: other.task_id, ..record },
        ),
        hint_read(
            HintRow { score: other_row.score, ..row },
            ComplexityHint { score: other.score, ..record },
        ),
        hint_read(
            HintRow { recommended_subtasks: other_row.recommended_subtasks, ..row },
            ComplexityHint { recommended_subtasks: other.recommended_subtasks, ..record },
        ),
        hint_read(
            HintRow { expansion_hint: other_row.expansion_hint, ..row },
            ComplexityHint { expansion_hint: other.expansion_hint, ..record },
        ),
        hint_read(
            HintRow { reasoning: other_row.reasoning, ..row },
            ComplexityHint { reasoning: other.reasoning, ..record },
        ),
        hint_read(
            HintRow { generated_at: other_row.generated_at, ..row },
            ComplexityHint { generated_at: other.generated_at, ..record },
        ),
        hint_read(
            HintRow { batch_id: other_row.batch_id, ..row },
            ComplexityHint { batch_id: other.batch_id, ..record },
        ),
{
}

/// A row stores each field of a hint in columns of its own: with another value there it stores
/// what differs in that field alone.
pub proof fn lemma_complexity_hint_is_stored_field_by_field(
    row: HintRow,
    record: ComplexityHint,
    other_row: HintRow,
    other: ComplexityHint,
)
    requires
        row.stores(record),
        other_row.stores(other),
    ensures
        (HintRow { task_id: other_row.task_id, ..row }).stores(
            ComplexityHint { task_id: other.task_id, ..record },
        ),
        (HintRow { score: other_row.score, ..row }).stores(
            ComplexityHint { score: other.score, ..record },
        ),
        (HintRow { recommended_subtasks: other_row.recommended_subtasks, ..row }).stores(
            ComplexityHint { recommended_subtasks: other.recommended_subtasks, ..record },
        ),
        (HintRow { expansion_hint: other_row.expansion_hint, ..row }).stores(
            ComplexityHint { expansion_hint: other.expansion_hint, ..record },
        ),
        (HintRow { reasoning: other_row.reasoning, ..row }).stores(
            ComplexityHint { reasoning: other.reasoning, ..record },
        ),
        (HintRow { generated_at: other_row.generated_at, ..row }).stores(
            ComplexityHint { generated_at: other.generated_at, ..record },
        ),
        (HintRow { batch_id: other_row.batch_id, ..row }).stores(
            ComplexityHint { batch_id: other.batch_id, ..record },
        ),
{
}

/// A row of a hint without a fault says what is read from it: each identifier, time, state and
/// text stands in it as it is read.
pub proof fn lemma_complexity_hint_is_what_the_row_says(row: HintRow, record: ComplexityHint)
    requires
        (hint_fault(row) is None && hint_read(row, record))
            || (row.fault() is None && row.holds(record)),
    ensures
        row.task_id is Ok
            && crate::ids::id_parsed::<TaskId>(row.task_id->Ok_0@) == Ok::<TaskId, Seq<char>>(
                record.task_id,
            ),
        row.score is Ok,
        row.recommended_subtasks is Ok,
        row.expansion_hint is Ok && row.expansion_hint->Ok_0 == record.expansion_hint,
        row.reasoning is Ok && row.reasoning->Ok_0 == record.reasoning,
        row.generated_at is Ok
            && crate::time::rfc3339_parsed(row.generated_at->Ok_0@) == Ok::<(i64, u32), Seq<char>>(
                (record.generated_at.seconds(), record.generated_at.subsec()),
            ),
        row.batch_id is Ok && row.batch_id->Ok_0 == record.batch_id,
{
    crate::time::lemma_time_is_read_from_its_text(row.generated_at->Ok_0@);
}

/// A row of a hint is refused for what is wrong with a column, with the error of that
/// column; where nothing is wrong with any, nothing is refused.
pub proof fn lemma_complexity_hint_is_refused_for_its_columns(row: HintRow, other: HintRow)
    requires
        hint_fault(row) is None,
    ensures
        hint_fault(HintRow { task_id: other.task_id, ..row })
            == column_fault(other.task_id).or_fault(id_fault::<TaskId>(other.task_id->Ok_0@)),
        hint_fault(HintRow { score: other.score, ..row }) == column_fault(other.score),
        hint_fault(HintRow { recommended_subtasks: other.recommended_subtasks, ..row })
            == column_fault(other.recommended_subtasks),
        hint_fault(HintRow { expansion_hint: other.expansion_hint, ..row }) == column_fault(
            other.expansion_hint,
        ),
        hint_fault(HintRow { reasoning: other.reasoning, ..row }) == column_fault(other.reasoning),
        hint_fault(HintRow { generated_at: other.generated_at, ..row })
            == column_fault(other.generated_at).or_fault(ts_fault(other.generated_at->Ok_0@)),
        hint_fault(HintRow { batch_id: other.batch_id, ..row }) == column_fault(other.batch_id),
{
}

} // verus!
