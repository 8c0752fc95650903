//! SQL statements and the values bound to them.
use vstd::prelude::*;

use crate::domain::{Actor, ActorView, AgentSessionPlanStep, AutoAppendSettings, SessionStepStatus};
use crate::ids::{id_parsed, id_text, print_id, TaskId, TypedId};
use crate::time::{ts_fault, ts_value, Timestamp};

verus! {

/// A value bound to a placeholder of a statement. `Tenths` is a real number, given in
/// tenths. The values from `Actor` on are written as JSON text.
#[derive(Clone, Debug, PartialEq, Eq)]
pub enum Bound {
    Null,
    Text(String),
    Int(i64),
    Bool(bool),
    Tenths(u8),
    Actor(Actor),
    TaskIds(Vec<TaskId>),
    Steps(Vec<AgentSessionPlanStep>),
    AutoAppend(AutoAppendSettings),
}

/// The mathematical model of [`Bound`].
#[verifier::ext_equal]
pub ghost enum BoundView {
    Null,
    Text(Seq<char>),
    Int(int),
    Bool(bool),
    Tenths(int),
    Actor(ActorView),
    TaskIds(Seq<TaskId>),
    Steps(Seq<(Seq<char>, SessionStepStatus)>),
    AutoAppend(AutoAppendSettings),
}

/// The steps of a session as plain values.
pub open spec fn step_views(steps: Seq<AgentSessionPlanStep>) -> Seq<(Seq<char>, SessionStepStatus)> {
    steps.map_values(|s: AgentSessionPlanStep| (s.content@, s.status))
}

impl View for Bound {
    type V = BoundView;

    open spec fn view(&self) -> BoundView {
        match self {
            Bound::Null => BoundView::Null,
            Bound::Text(s) => BoundView::Text(s@),
            Bound::Int(n) => BoundView::Int(*n as int),
            Bound::Bool(b) => BoundView::Bool(*b),
            Bound::Tenths(n) => BoundView::Tenths(*n as int),
            Bound::Actor(a) => BoundView::Actor(a@),
            Bound::TaskIds(ids) => BoundView::TaskIds(ids@),
            Bound::Steps(steps) => BoundView::Steps(step_views(steps@)),
            Bound::AutoAppend(s) => BoundView::AutoAppend(*s),
        }
    }
}

/// A statement with the values of its placeholders, in order.
#[derive(Clone, Debug, PartialEq, Eq)]
pub struct Query {
    pub sql: String,
    pub binds: Vec<Bound>,
}

/// The mathematical model of [`Query`].
#[verifier::ext_equal]
pub ghost struct QueryView {
    pub sql: Seq<char>,
    pub binds: Seq<BoundView>,
}

impl View for Query {
    type V = QueryView;

    open spec fn view(&self) -> QueryView {
        QueryView { sql: self.sql@, binds: self.binds@.map_values(|v: Bound| v@) }
    }
}

/// The statement with this text and these values.
pub open spec fn statement(sql: Seq<char>, binds: Seq<BoundView>) -> QueryView {
    QueryView { sql, binds }
}

/// The statements of a list.
pub open spec fn statements(list: Seq<Query>) -> Seq<QueryView> {
    list.map_values(|q: Query| q@)
}

/// A text.
pub open spec fn sql_text(s: Seq<char>) -> BoundView {
    BoundView::Text(s)
}

/// A text, or null.
pub open spec fn sql_opt_text(s: Option<Seq<char>>) -> BoundView {
    match s {
        Some(s) => BoundView::Text(s),
        None => BoundView::Null,
    }
}

/// A number.
pub open spec fn sql_int(n: int) -> BoundView {
    BoundView::Int(n)
}

/// A number, or null.
pub open spec fn sql_opt_int(n: Option<i64>) -> BoundView {
    match n {
        Some(n) => BoundView::Int(n as int),
        None => BoundView::Null,
    }
}

/// An identifier.
pub open spec fn sql_id<I: TypedId>(id: I) -> BoundView {
    BoundView::Text(id_text(id))
}

/// An identifier, or null.
pub open spec fn sql_opt_id<I: TypedId>(id: Option<I>) -> BoundView {
    match id {
        Some(id) => sql_id(id),
        None => BoundView::Null,
    }
}

/// A point in time.
pub open spec fn sql_time(t: Timestamp) -> BoundView {
    BoundView::Text(t.text())
}

/// A point in time, or null.
pub open spec fn sql_opt_time(t: Option<Timestamp>) -> BoundView {
    match t {
        Some(t) => sql_time(t),
        None => BoundView::Null,
    }
}

/// An actor.
pub open spec fn sql_actor(a: Actor) -> BoundView {
    BoundView::Actor(a@)
}

/// An actor, or null.
pub open spec fn sql_opt_actor(a: Option<Actor>) -> BoundView {
    match a {
        Some(a) => sql_actor(a),
        None => BoundView::Null,
    }
}

impl QueryView {
    /// The statement with one more value bound.
    pub open spec fn and(self, v: BoundView) -> QueryView {
        QueryView { sql: self.sql, binds: self.binds.push(v) }
    }
}

impl Query {
    /// A statement without values.
    pub fn new(sql: &str) -> (q: Query)
        ensures
            q@ == statement(sql@, seq![]),
    {
        let q = Query { sql: sql.to_owned(), binds: Vec::new() };
        assert(q@.binds =~= seq![]);
        q
    }

    /// Binds one more value.
    pub fn bind(self, v: Bound) -> (q: Query)
        ensures
            q@ == self@.and(v@),
    {
        let mut q = self;
        q.binds.push(v);
        assert(q@.binds =~= self@.binds.push(v@));
        q
    }

    /// Binds a text.
    pub fn text(self, s: &str) -> (q: Query)
        ensures
            q@ == self@.and(sql_text(s@)),
    {
        self.bind(Bound::Text(s.to_owned()))
    }

    /// Binds a text, or null.
    pub fn opt_text(self, s: &Option<String>) -> (q: Query)
        ensures
            q@ == self@.and(sql_opt_text(crate::text::opt_text(*s))),
    {
        match s {
            Some(s) => self.text(s.as_str()),
            None => self.bind(Bound::Null),
        }
    }

    /// Binds a number.
    pub fn number(self, n: i64) -> (q: Query)
        ensures
            q@ == self@.and(sql_int(n as int)),
    {
        self.bind(Bound::Int(n))
    }

    /// Binds a number, or null.
    pub fn opt_number(self, n: Option<i64>) -> (q: Query)
        ensures
            q@ == self@.and(sql_opt_int(n)),
    {
        match n {
            Some(n) => self.number(n),
            None => self.bind(Bound::Null),
        }
    }

    /// Binds an identifier, which reads back from its text.
    pub fn id<I: TypedId>(self, id: &I) -> (q: Query)
        ensures
            q@ == self@.and(sql_id(*id)),
            id_parsed::<I>(id_text(*id)) == Ok::<I, Seq<char>>(*id),
    {
        self.bind(Bound::Text(print_id(id)))
    }

    /// Binds an identifier, or null.
    pub fn opt_id<I: TypedId>(self, id: &Option<I>) -> (q: Query)
        ensures
            q@ == self@.and(sql_opt_id(*id)),
            *id matches Some(id) ==> id_parsed::<I>(id_text(id)) == Ok::<I, Seq<char>>(id),
    {
        match id {
            Some(id) => self.id(id),
            None => self.bind(Bound::Null),
        }
    }

    /// Binds a point in time, which reads back from its text, and is compared as its text
    /// is, where it is plain.
    pub fn time(self, t: &Timestamp) -> (q: Query)
        ensures
            q@ == self@.and(sql_time(*t)),
            t.is_plain() ==> ts_fault(t.text()) is None && ts_value(t.text()) == *t,
            t.is_plain() ==> t.sorts_as_text(),
    {
        self.bind(Bound::Text(t.to_rfc3339()))
    }

    /// Binds a point in time, or null.
    pub fn opt_time(self, t: &Option<Timestamp>) -> (q: Query)
        ensures
            q@ == self@.and(sql_opt_time(*t)),
            *t matches Some(t) ==> (t.is_plain() ==> ts_fault(t.text()) is None && ts_value(t.text())
                == t),
    {
        match t {
            Some(t) => self.time(t),
            None => self.bind(Bound::Null),
        }
    }

    /// Binds an actor.
    pub fn actor(self, a: &Actor) -> (q: Query)
        ensures
            q@ == self@.and(sql_actor(*a)),
    {
        self.bind(Bound::Actor(a.clone()))
    }

    /// Binds an actor, or null.
    pub fn opt_actor(self, a: &Option<Actor>) -> (q: Query)
        ensures
            q@ == self@.and(sql_opt_actor(*a)),
    {
        match a {
            Some(a) => self.actor(a),
            None => self.bind(Bound::Null),
        }
    }
}

/// The values for the identifiers of a list.
pub open spec fn id_binds<I: TypedId>(ids: Seq<I>) -> Seq<BoundView> {
    ids.map_values(|id: I| sql_id(id))
}

/// Binds the identifiers of a list, one after the other.
pub fn bind_ids<I: TypedId>(q: Query, ids: &Vec<I>) -> (r: Query)
    ensures
        r@ == statement(q@.sql, q@.binds + id_binds(ids@)),
{
    let ghost head = q@.binds;
    let ghost all = id_binds(ids@);
    let ghost sql = q@.sql;
    let mut r = q;
    let mut i: usize = 0;
    assert(head + all.subrange(0, 0) =~= head);
    while i < ids.len()
        invariant
            i <= ids@.len(),
            all == id_binds(ids@),
            r@.sql == sql,
            r@.binds == head + all.subrange(0, i as int),
        decreases ids@.len() - i,
    {
        r = r.id(&ids[i]);
        assert(head + all.subrange(0, i + 1) =~= (head + all.subrange(0, i as int)).push(
            all[i as int],
        ));
        i = i + 1;
    }
    assert(all.subrange(0, ids@.len() as int) =~= all);
    r
}

// ── laws ────────────────────────────────────────────────────────────────────

/// A value is bound as it is: a text, an identifier and a time as texts, a number as a number,
/// and an actor as an actor. What is missing is null, and what is there is never null.
pub proof fn lemma_values_are_bound_as_they_are<I: TypedId>(
    text: Option<Seq<char>>,
    number: Option<i64>,
    id: Option<I>,
    time: Option<Timestamp>,
    actor: Option<Actor>,
)
    ensures
        text matches Some(s) ==> sql_opt_text(text) == BoundView::Text(s) && sql_text(s)
            == BoundView::Text(s),
        number matches Some(n) ==> sql_opt_int(number) == BoundView::Int(n as int) && sql_int(
            n as int,
        ) == BoundView::Int(n as int),
        id matches Some(i) ==> sql_opt_id(id) == BoundView::Text(id_text(i)) && sql_id(i)
            == BoundView::Text(id_text(i)),
        time matches Some(t) ==> sql_opt_time(time) == BoundView::Text(t.text()) && sql_time(t)
            == BoundView::Text(t.text()),
        actor matches Some(a) ==> sql_opt_actor(actor) == BoundView::Actor(a@) && sql_actor(a)
            == BoundView::Actor(a@),
        text is None <==> sql_opt_text(text) == BoundView::Null,
        number is None <==> sql_opt_int(number) == BoundView::Null,
        id is None <==> sql_opt_id(id) == BoundView::Null,
        time is None <==> sql_opt_time(time) == BoundView::Null,
        actor is None <==> sql_opt_actor(actor) == BoundView::Null,
{
}

/// Values are bound in the order in which they are given.
pub proof fn lemma_values_are_bound_in_order<I: TypedId>(
    q: QueryView,
    v: BoundView,
    ids: Seq<I>,
    i: int,
)
    ensures
        q.and(v).sql == q.sql,
        q.and(v).binds.len() == q.binds.len() + 1,
        q.and(v).binds.last() == v,
        q.and(v).binds.drop_last() == q.binds,
        id_binds(ids).len() == ids.len(),
        0 <= i < ids.len() ==> id_binds(ids)[i] == sql_id(ids[i]),
{
    assert(q.and(v).binds.drop_last() =~= q.binds);
}

} // verus!
