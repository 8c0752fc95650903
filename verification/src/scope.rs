//! The scope of rules and evidence, as two columns hold it: its kind and its identifier.
use vstd::prelude::*;

use crate::domain::RuleScope;
use crate::error::{CoreError, ErrorView};
use crate::ids::{
    id_parsed, id_text, id_value, stored_id, stored_id_fault, PlanId, ProjectId, TaskId, TypedId,
};
use crate::text::{concat2, concat3, text_eq};

verus! {

/// Why there is no identifier for a kind of scope.
pub open spec fn scope_id_fault<I: TypedId>(id: Option<Seq<char>>, kind: Seq<char>) -> Option<
    ErrorView,
> {
    match id {
        None => Some(ErrorView::Storage(kind + " scope missing scope_id"@)),
        Some(s) => stored_id_fault::<I>(s, "bad "@ + kind + " scope id"@),
    }
}

/// Reads the identifier for a kind of scope.
pub fn scope_id<I: TypedId>(id: Option<&str>, kind: &str) -> (r: Result<I, CoreError>)
    ensures
        match scope_id_fault::<I>(opt_str(id), kind@) {
            Some(e) => r is Err && r->Err_0@ == e,
            None => r is Ok && id is Some && r->Ok_0 == id_value::<I>(id->Some_0@),
        },
{
    match id {
        None => Err(CoreError::Storage(concat2(kind, " scope missing scope_id"))),
        Some(s) => stored_id::<I>(s, concat3("bad ", kind, " scope id").as_str()),
    }
}

/// The characters of an optional text.
pub open spec fn opt_str(s: Option<&str>) -> Option<Seq<char>> {
    match s {
        Some(s) => Some(s@),
        None => None,
    }
}

/// Why a kind and an identifier are no scope. The error for a kind that there is not begins
/// with the given text.
pub open spec fn scope_fault(kind: Seq<char>, id: Option<Seq<char>>, unknown: Seq<char>) -> Option<
    ErrorView,
> {
    if kind == "tenant"@ {
        None
    } else if kind == "project"@ {
        scope_id_fault::<ProjectId>(id, kind)
    } else if kind == "plan"@ {
        scope_id_fault::<PlanId>(id, kind)
    } else if kind == "task"@ {
        scope_id_fault::<TaskId>(id, kind)
    } else {
        Some(ErrorView::Storage(unknown + kind))
    }
}

/// The scope that a kind and an identifier stand for.
pub open spec fn scope_value(kind: Seq<char>, id: Option<Seq<char>>) -> RuleScope {
    if kind == "tenant"@ {
        RuleScope::Tenant
    } else if kind == "project"@ {
        RuleScope::Project { id: id_value(id->Some_0) }
    } else if kind == "plan"@ {
        RuleScope::Plan { id: id_value(id->Some_0) }
    } else {
        RuleScope::Task { id: id_value(id->Some_0) }
    }
}

/// Reads a scope from its kind and its identifier.
pub fn parse_scope(kind: &str, id: Option<&str>, unknown: &str) -> (r: Result<RuleScope, CoreError>)
    ensures
        match scope_fault(kind@, opt_str(id), unknown@) {
            Some(e) => r is Err && r->Err_0@ == e,
            None => r is Ok && r->Ok_0 == scope_value(kind@, opt_str(id)),
        },
{
    if text_eq(kind, "tenant") {
        Ok(RuleScope::Tenant)
    } else if text_eq(kind, "project") {
        let id = scope_id::<ProjectId>(id, kind)?;
        Ok(RuleScope::Project { id })
    } else if text_eq(kind, "plan") {
        let id = scope_id::<PlanId>(id, kind)?;
        Ok(RuleScope::Plan { id })
    } else if text_eq(kind, "task") {
        let id = scope_id::<TaskId>(id, kind)?;
        Ok(RuleScope::Task { id })
    } else {
        Err(CoreError::Storage(concat2(unknown, kind)))
    }
}

/// The identifier of the scope, if it has one, is read back from its text.
pub open spec fn id_reads_back(scope: RuleScope) -> bool {
    match scope {
        RuleScope::Tenant => true,
        RuleScope::Project { id } => id_parsed::<ProjectId>(id_text(id)) == Ok::<
            ProjectId,
            Seq<char>,
        >(id),
        RuleScope::Plan { id } => id_parsed::<PlanId>(id_text(id)) == Ok::<PlanId, Seq<char>>(id),
        RuleScope::Task { id } => id_parsed::<TaskId>(id_text(id)) == Ok::<TaskId, Seq<char>>(id),
    }
}

/// A scope is read back from its two columns.
pub proof fn lemma_scope_reads_back(scope: RuleScope, unknown: Seq<char>)
    requires
        id_reads_back(scope),
    ensures
        scope_fault(scope.kind_text(), scope.id_text_of(), unknown) is None,
        scope_value(scope.kind_text(), scope.id_text_of()) == scope,
{
    reveal_strlit("tenant");
    reveal_strlit("project");
    reveal_strlit("plan");
    reveal_strlit("task");
    assert("tenant"@.len() == 6);
    assert("project"@.len() == 7);
    assert("plan"@.len() == 4 && "plan"@[0] == 'p');
    assert("task"@.len() == 4 && "task"@[0] == 't');
}

/// The two columns of a scope; they read back.
pub fn scope_columns(scope: &RuleScope) -> (r: (&'static str, Option<String>))
    ensures
        r.0@ == scope.kind_text(),
        crate::text::opt_text(r.1) == scope.id_text_of(),
        id_reads_back(*scope),
{
    (scope.kind(), scope.id_string())
}

// ── laws ────────────────────────────────────────────────────────────────────

/// A stored scope is one exactly if its kind is known and, but for the tenant, its identifier
/// is there and is one. It is reported otherwise: an unknown kind with the kind, and a missing
/// or a bad identifier with the kind that it should be of.
pub proof fn lemma_scope_is_read_by_kind(
    kind: Seq<char>,
    id: Option<Seq<char>>,
    unknown: Seq<char>,
)
    ensures
        kind == "tenant"@ ==> scope_fault(kind, id, unknown) is None && scope_value(kind, id)
            is Tenant,
        kind == "project"@ ==> (scope_fault(kind, id, unknown) is None <==> id is Some
            && id_parsed::<ProjectId>(id->Some_0) is Ok) && scope_value(kind, id) is Project,
        kind == "plan"@ ==> (scope_fault(kind, id, unknown) is None <==> id is Some && id_parsed::<
            PlanId,
        >(id->Some_0) is Ok) && scope_value(kind, id) is Plan,
        kind == "task"@ ==> (scope_fault(kind, id, unknown) is None <==> id is Some && id_parsed::<
            TaskId,
        >(id->Some_0) is Ok) && scope_value(kind, id) is Task,
        kind != "tenant"@ && kind != "project"@ && kind != "plan"@ && kind != "task"@
            ==> scope_fault(kind, id, unknown) == Some(ErrorView::Storage(unknown + kind)),
        (kind == "project"@ || kind == "plan"@ || kind == "task"@) && id is None ==> scope_fault(
            kind,
            id,
            unknown,
        ) == Some(ErrorView::Storage(kind + " scope missing scope_id"@)),
        scope_fault(kind, id, unknown) is Some && id is Some && (kind == "project"@ || kind
            == "plan"@ || kind == "task"@) ==> scope_fault(kind, id, unknown) == Some(
            ErrorView::Storage("bad "@ + kind + " scope id"@),
        ),
{
    reveal_strlit("tenant");
    reveal_strlit("project");
    reveal_strlit("plan");
    reveal_strlit("task");
    assert("tenant"@.len() == 6 && "project"@.len() == 7 && "plan"@.len() == 4 && "task"@.len()
        == 4);
    assert("plan"@[0] != "task"@[0]);
}

} // verus!
