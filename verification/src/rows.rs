//! Rows as the database hands them out, and how records are read from them.
use vstd::prelude::*;

use crate::domain::Actor;
use crate::error::{CoreError, ErrorView};
use crate::query::BoundView;

verus! {

/// A column of a row: its value, or the driver's message where it has no value of
/// the wanted type.
pub type Column<T> = Result<T, String>;

/// A JSON column whose text is read into a value: the value, or the reader's message.
pub type Parsed<T> = Result<T, String>;

/// The error for a column without a value of the wanted type.
pub open spec fn column_fault<T>(c: Column<T>) -> Option<ErrorView> {
    match c {
        Ok(_) => None,
        Err(message) => Some(ErrorView::Storage(message@)),
    }
}

/// The value of a column.
pub fn column<T>(c: Column<T>) -> (r: Result<T, CoreError>)
    ensures
        match column_fault(c) {
            Some(e) => r is Err && r->Err_0@ == e,
            None => r is Ok && r->Ok_0 == c->Ok_0,
        },
{
    match c {
        Ok(v) => Ok(v),
        Err(message) => Err(CoreError::Storage(message)),
    }
}

/// The error for a JSON text that is not of the wanted form.
pub open spec fn parsed_fault<T>(d: Parsed<T>) -> Option<ErrorView> {
    match d {
        Ok(_) => None,
        Err(message) => Some(ErrorView::Serde(message@)),
    }
}

/// The value that a JSON text was read into.
pub fn parsed<T>(d: Parsed<T>) -> (r: Result<T, CoreError>)
    ensures
        match parsed_fault(d) {
            Some(e) => r is Err && r->Err_0@ == e,
            None => r is Ok && r->Ok_0 == d->Ok_0,
        },
{
    match d {
        Ok(v) => Ok(v),
        Err(message) => Err(CoreError::Serde(message)),
    }
}

/// The error for an optional JSON text that is not of the wanted form.
pub open spec fn opt_parsed_fault<T>(d: Option<Parsed<T>>) -> Option<ErrorView> {
    match d {
        Some(d) => parsed_fault(d),
        None => None,
    }
}

/// The value that an optional JSON text was read into.
pub open spec fn opt_parsed_value<T>(d: Option<Parsed<T>>) -> Option<T> {
    match d {
        Some(d) => Some(d->Ok_0),
        None => None,
    }
}

/// The value that an optional JSON text was read into.
pub fn opt_parsed<T>(d: Option<Parsed<T>>) -> (r: Result<Option<T>, CoreError>)
    ensures
        match opt_parsed_fault(d) {
            Some(e) => r is Err && r->Err_0@ == e,
            None => r is Ok && r->Ok_0 == opt_parsed_value(d),
        },
{
    match d {
        Some(Ok(v)) => Ok(Some(v)),
        Some(Err(message)) => Err(CoreError::Serde(message)),
        None => Ok(None),
    }
}

/// Faults in the order in which they are looked for: the first one counts.
pub trait Faults {
    spec fn or_fault(self, next: Option<ErrorView>) -> Option<ErrorView>;
}

impl Faults for Option<ErrorView> {
    open spec fn or_fault(self, next: Option<ErrorView>) -> Option<ErrorView> {
        if self is Some {
            self
        } else {
            next
        }
    }
}

/// A row from which a record can be read.
pub trait Decode: Sized {
    type Record;

    /// What is wrong with the row, where something is.
    spec fn fault(&self) -> Option<ErrorView>;

    /// The record is what the row says.
    spec fn holds(&self, record: Self::Record) -> bool;

    fn decode(self) -> (r: Result<Self::Record, CoreError>)
        ensures
            match self.fault() {
                Some(e) => r is Err && r->Err_0@ == e,
                None => r is Ok && self.holds(r->Ok_0),
            },
    ;
}

/// `e` is what is wrong with the first row that something is wrong with.
pub open spec fn first_fault<R: Decode>(rows: Seq<R>, e: ErrorView) -> bool {
    exists|i: int|
        #![trigger rows[i]]
        0 <= i < rows.len() && rows[i].fault() == Some(e) && forall|j: int|
            0 <= j < i ==> (#[trigger] rows[j]).fault() is None
}

/// Nothing is wrong with any row.
pub open spec fn all_sound<R: Decode>(rows: Seq<R>) -> bool {
    forall|i: int| 0 <= i < rows.len() ==> (#[trigger] rows[i]).fault() is None
}

/// The records are what the rows say, one for one.
pub open spec fn all_hold<R: Decode>(rows: Seq<R>, records: Seq<R::Record>) -> bool {
    &&& records.len() == rows.len()
    &&& forall|i: int| 0 <= i < rows.len() ==> (#[trigger] rows[i]).holds(records[i])
}

/// Reads the records of a list of rows, in order; the first fault ends it.
pub fn decode_all<R: Decode>(rows: Vec<R>) -> (r: Result<Vec<R::Record>, CoreError>)
    ensures
        match r {
            Ok(records) => all_sound(rows@) && all_hold(rows@, records@),
            Err(e) => first_fault(rows@, e@),
        },
        r is Ok <==> all_sound(rows@),
{
    let mut records: Vec<R::Record> = Vec::new();
    let ghost all = rows@;
    for row in it: rows
        invariant
            it.seq() == all,
            records@.len() == it.index(),
            forall|j: int| 0 <= j < it.index() ==> (#[trigger] all[j]).fault() is None,
            forall|j: int| 0 <= j < it.index() ==> (#[trigger] all[j]).holds(records@[j]),
    {
        assert(row == all[it.index() as int]);
        match row.decode() {
            Ok(record) => {
                records.push(record);
            },
            Err(e) => {
                assert(all[it.index() as int].fault() == Some(e@));
                return Err(e);
            },
        }
    }
    Ok(records)
}

/// Reads the record of a row, where there is a row.
pub fn decode_optional<R: Decode>(row: Option<R>) -> (r: Result<Option<R::Record>, CoreError>)
    ensures
        match row {
            None => r == Ok::<Option<R::Record>, CoreError>(None),
            Some(row) => match row.fault() {
                Some(e) => r is Err && r->Err_0@ == e,
                None => r matches Ok(Some(record)) && row.holds(record),
            },
        },
{
    match row {
        Some(row) => match row.decode() {
            Ok(record) => Ok(Some(record)),
            Err(e) => Err(e),
        },
        None => Ok(None),
    }
}

/// A text column holds the bound value.
pub open spec fn has_text(c: Column<String>, v: BoundView) -> bool {
    c matches Ok(s) && v == BoundView::Text(s@)
}

/// A text column that may be null holds the bound value.
pub open spec fn has_opt_text(c: Column<Option<String>>, v: BoundView) -> bool {
    match c {
        Ok(Some(s)) => v == BoundView::Text(s@),
        Ok(None) => v == BoundView::Null,
        Err(_) => false,
    }
}

/// A number column holds the bound value.
pub open spec fn has_int(c: Column<i64>, v: BoundView) -> bool {
    c matches Ok(n) && v == BoundView::Int(n as int)
}

/// A number column that may be null holds the bound value.
pub open spec fn has_opt_int(c: Column<Option<i64>>, v: BoundView) -> bool {
    match c {
        Ok(Some(n)) => v == BoundView::Int(n as int),
        Ok(None) => v == BoundView::Null,
        Err(_) => false,
    }
}

/// A truth column holds the bound value.
pub open spec fn has_bool(c: Column<bool>, v: BoundView) -> bool {
    c matches Ok(b) && v == BoundView::Bool(b)
}

/// A column of an actor holds the bound value.
pub open spec fn has_actor(c: Column<Parsed<Actor>>, v: BoundView) -> bool {
    c matches Ok(Ok(a)) && v == BoundView::Actor(a@)
}

/// A column of an actor that may be null holds the bound value.
pub open spec fn has_opt_actor(c: Column<Option<Parsed<Actor>>>, v: BoundView) -> bool {
    match c {
        Ok(Some(Ok(a))) => v == BoundView::Actor(a@),
        Ok(None) => v == BoundView::Null,
        _ => false,
    }
}

/// A number taken for unsigned and back keeps its value.
pub proof fn lemma_sign_change_undone(n: u64)
    ensures
        (n as i64) as u64 == n,
{
    assert((n as i64) as u64 == n) by (bit_vector);
}

/// A number that may be null, taken for unsigned.
pub open spec fn opt_unsigned(n: Option<i64>) -> Option<u64> {
    match n {
        Some(n) => Some(n as u64),
        None => None,
    }
}

/// A number that may be null, taken for unsigned.
pub fn opt_u64(n: Option<i64>) -> (r: Option<u64>)
    ensures
        r == opt_unsigned(n),
{
    match n {
        Some(n) => Some(n as u64),
        None => None,
    }
}

/// An unsigned number that may be missing, as the database counts.
pub open spec fn signed_opt(n: Option<u64>) -> Option<i64> {
    match n {
        Some(n) => Some(n as i64),
        None => None,
    }
}

/// An unsigned number that may be missing, as the database counts. It reads back.
pub fn opt_signed(n: Option<u64>) -> (r: Option<i64>)
    ensures
        r == signed_opt(n),
        opt_unsigned(r) == n,
{
    match n {
        Some(n) => {
            proof {
                lemma_sign_change_undone(n);
            }
            Some(n as i64)
        },
        None => None,
    }
}

// ── laws ────────────────────────────────────────────────────────────────────

/// The first fault counts, and there is none where there is none in either place.
pub proof fn lemma_first_fault_counts(first: Option<ErrorView>, next: Option<ErrorView>)
    ensures
        first is Some ==> first.or_fault(next) == first,
        first is None ==> first.or_fault(next) == next,
        first.or_fault(next) is None <==> first is None && next is None,
{
}

/// A column holds a value exactly if it was read and is the value: null is held by none but a
/// column that may be null.
pub proof fn lemma_column_holds_what_it_is(
    text: Column<String>,
    opt: Column<Option<String>>,
    number: Column<i64>,
    opt_number: Column<Option<i64>>,
    v: Seq<char>,
    n: i64,
)
    ensures
        has_text(text, BoundView::Text(v)) <==> text is Ok && text->Ok_0@ == v,
        !has_text(text, BoundView::Null),
        has_opt_text(opt, BoundView::Text(v)) <==> opt is Ok && opt->Ok_0 is Some
            && opt->Ok_0->Some_0@ == v,
        has_opt_text(opt, BoundView::Null) <==> opt is Ok && opt->Ok_0 is None,
        has_int(number, BoundView::Int(n as int)) <==> number is Ok && number->Ok_0 == n,
        has_opt_int(opt_number, BoundView::Int(n as int)) <==> opt_number is Ok
            && opt_number->Ok_0 == Some(n),
        has_opt_int(opt_number, BoundView::Null) <==> opt_number is Ok && opt_number->Ok_0 is None,
{
}

/// Records are read from rows one for one and in their order: those of two lists of rows are
/// those of the first and then those of the second.
pub proof fn lemma_rows_are_read_in_order<R: Decode>(
    rows: Seq<R>,
    more: Seq<R>,
    records: Seq<R::Record>,
    further: Seq<R::Record>,
    row: R,
    record: R::Record,
)
    ensures
        all_hold(seq![row], seq![record]) <==> row.holds(record),
        all_hold(rows, records) ==> rows.len() == records.len(),
        all_hold(rows, records) && all_hold(more, further) ==> all_hold(
            rows + more,
            records + further,
        ),
        records.len() == rows.len() && all_hold(rows + more, records + further) ==> all_hold(
            rows,
            records,
        ) && all_hold(more, further),
{
    if all_hold(seq![row], seq![record]) {
        assert(seq![row][0].holds(seq![record][0]));
    }
    if records.len() == rows.len() && all_hold(rows + more, records + further) {
        assert(further.len() == more.len());
        assert forall|i: int| 0 <= i < rows.len() implies (#[trigger] rows[i]).holds(records[i]) by {
            assert((rows + more)[i].holds((records + further)[i]));
        }
        assert forall|i: int| 0 <= i < more.len() implies (#[trigger] more[i]).holds(further[i]) by {
            assert((rows + more)[rows.len() + i].holds((records + further)[rows.len() + i]));
        }
    }
}

/// Rows are refused for the first one that has a fault, with that fault: rows that come later
/// change nothing, and rows without a fault before it neither.
pub proof fn lemma_first_faulty_row_counts<R: Decode>(rows: Seq<R>, more: Seq<R>, row: R)
    ensures
        forall|e: ErrorView| first_fault(seq![row], e) <==> row.fault() == Some(e),
        forall|e: ErrorView| #[trigger]
            first_fault(rows, e) ==> first_fault(rows + more, e) && !all_sound(rows),
        forall|e: ErrorView| #[trigger]
            first_fault(more, e) && all_sound(rows) ==> first_fault(rows + more, e),
        forall|e: ErrorView, f: ErrorView|
            first_fault(rows, e) && first_fault(rows, f) ==> e == f,
        all_sound(rows + more) <==> all_sound(rows) && all_sound(more),
{
    assert forall|e: ErrorView| row.fault() == Some(e) implies first_fault(seq![row], e) by {
        assert(seq![row][0].fault() == Some(e));
    }
    assert forall|e: ErrorView| #[trigger] first_fault(rows, e) implies first_fault(rows + more, e)
        && !all_sound(rows) by {
        let i = choose|i: int|
            #![trigger rows[i]]
            0 <= i < rows.len() && rows[i].fault() == Some(e) && forall|j: int|
                0 <= j < i ==> (#[trigger] rows[j]).fault() is None;
        assert((rows + more)[i].fault() == Some(e));
        assert forall|j: int| 0 <= j < i implies (#[trigger] (rows + more)[j]).fault() is None by {
            assert(rows[j].fault() is None);
        }
    }
    assert forall|e: ErrorView| #[trigger]
        first_fault(more, e) && all_sound(rows) implies first_fault(rows + more, e) by {
        let i = choose|i: int|
            #![trigger more[i]]
            0 <= i < more.len() && more[i].fault() == Some(e) && forall|j: int|
                0 <= j < i ==> (#[trigger] more[j]).fault() is None;
        let k = rows.len() + i;
        assert((rows + more)[k].fault() == Some(e));
        assert forall|j: int| 0 <= j < k implies (#[trigger] (rows + more)[j]).fault() is None by {
            if j < rows.len() {
                assert(rows[j].fault() is None);
            } else {
                assert(more[j - rows.len()].fault() is None);
            }
        }
    }
    if all_sound(rows + more) {
        assert forall|i: int| 0 <= i < rows.len() implies (#[trigger] rows[i]).fault() is None by {
            assert((rows + more)[i].fault() is None);
        }
        assert forall|i: int| 0 <= i < more.len() implies (#[trigger] more[i]).fault() is None by {
            assert((rows + more)[rows.len() + i].fault() is None);
        }
    }
}

/// A column that could not be read is reported as a fault of the store, and a text in it that
/// could not be parsed as one of the text, each with its message. What could be read and
/// parsed is not reported, nor is a missing text.
pub proof fn lemma_faults_of_columns<T>(c: Column<T>, d: Parsed<T>, o: Option<Parsed<T>>)
    ensures
        c is Ok <==> column_fault(c) is None,
        c matches Err(message) ==> column_fault(c) == Some(ErrorView::Storage(message@)),
        d is Ok <==> parsed_fault(d) is None,
        d matches Err(message) ==> parsed_fault(d) == Some(ErrorView::Serde(message@)),
        o is None ==> opt_parsed_fault(o) is None,
        o matches Some(p) ==> opt_parsed_fault(o) == parsed_fault(p),
{
}

} // verus!
