//! How many tasks and plans a tenant may have.
use vstd::prelude::*;

use crate::domain::DEFAULT_TENANT_ID;
use crate::error::{CoreError, ErrorView};
use crate::ids::ProjectId;
use crate::query::{sql_id, sql_opt_int, sql_text, statement, Query};
use crate::text::text_eq;

verus! {

/// The quotas of tenants.
#[derive(Clone, Copy, Debug)]
pub struct TenantQuotaRepo;

pub const TENANT_OF_PROJECT: &'static str = "SELECT tenant_id FROM projects WHERE id = ?";

pub const MAX_TASKS: &'static str = "SELECT max_tasks FROM tenants WHERE id = ?";

pub const MAX_PLANS: &'static str = "SELECT max_plans FROM tenants WHERE id = ?";

pub const SET_LIMITS: &'static str = "UPDATE tenants \
     SET max_tasks = ?, max_plans = ?, max_storage_mb = ?, updated_at = strftime('%Y-%m-%dT%H:%M:%fZ', 'now') \
     WHERE id = ?";

pub const COUNT_SELF_HOSTED_TASKS: &'static str = "SELECT COUNT(*) FROM tasks t \
     LEFT JOIN projects p ON p.id = t.project_id \
     WHERE t.project_id IS NULL OR p.tenant_id = ?";

pub const COUNT_TENANT_TASKS: &'static str = "SELECT COUNT(*) FROM tasks t \
     JOIN projects p ON p.id = t.project_id \
     WHERE p.tenant_id = ?";

pub const COUNT_TENANT_PLANS: &'static str = "SELECT COUNT(*) FROM plans pl \
     JOIN projects p ON p.id = pl.project_id \
     WHERE p.tenant_id = ?";

/// The first step of a check: which tenant it is about.
#[derive(Clone, Debug, PartialEq, Eq)]
pub enum TenantStep {
    /// It is about this tenant.
    Known { tenant_id: String },
    /// Ask for the tenant of the project, and hand it to [`TenantQuotaRepo::tenant_or_default`].
    Ask { select: Query },
}

/// The tenant that was found, or the default one.
pub open spec fn tenant_found(tenant_id: Option<Option<String>>) -> Seq<char> {
    match tenant_id {
        Some(Some(id)) => id@,
        _ => DEFAULT_TENANT_ID@,
    }
}

/// The limit that was found, where there is one.
pub open spec fn limit_found(limit: Option<Option<i64>>) -> Option<i64> {
    match limit {
        Some(limit) => limit,
        None => None,
    }
}

/// Refuses where as many are there as there may be.
pub fn reject_if_full(resource: &str, limit: i64, current: i64) -> (r: Result<(), CoreError>)
    ensures
        current >= limit ==> r is Err && r->Err_0@ == (ErrorView::QuotaExceeded {
            resource: resource@,
            limit: limit as int,
            current: current as int,
        }),
        current < limit ==> r is Ok,
{
    if current >= limit {
        Err(CoreError::quota_exceeded(resource, limit, current))
    } else {
        Ok(())
    }
}

impl TenantQuotaRepo {
    /// The tenant that a check for a task is about: without a project it is the default one.
    pub fn check_task_quota(project_id: &Option<ProjectId>) -> (r: TenantStep)
        ensures
            match *project_id {
                Some(id) => r matches TenantStep::Ask { select } && select@ == statement(
                    TENANT_OF_PROJECT@,
                    seq![sql_id(id)],
                ),
                None => r matches TenantStep::Known { tenant_id } && tenant_id@
                    == DEFAULT_TENANT_ID@,
            },
    {
        match project_id {
            Some(id) => TenantStep::Ask { select: TenantQuotaRepo::check_plan_quota(id) },
            None => TenantStep::Known { tenant_id: DEFAULT_TENANT_ID.to_owned() },
        }
    }

    /// The query for the tenant that a check for a plan is about.
    pub fn check_plan_quota(project_id: &ProjectId) -> (q: Query)
        ensures
            q@ == statement(TENANT_OF_PROJECT@, seq![sql_id(*project_id)]),
    {
        Query::new(TENANT_OF_PROJECT).id(project_id)
    }

    /// The tenant of a project: the default one where there is no such project, or it has
    /// none.
    pub fn tenant_or_default(tenant_id: Option<Option<String>>) -> (r: String)
        ensures
            r@ == tenant_found(tenant_id),
    {
        match tenant_id {
            Some(Some(id)) => id,
            _ => DEFAULT_TENANT_ID.to_owned(),
        }
    }

    /// The query for a limit of a tenant, by the name of its column.
    pub fn limit_for(tenant_id: &str, column: &str) -> (r: Result<Query, CoreError>)
        ensures
            column@ == "max_tasks"@ ==> r is Ok && r->Ok_0@ == statement(
                MAX_TASKS@,
                seq![sql_text(tenant_id@)],
            ),
            column@ == "max_plans"@ && column@ != "max_tasks"@ ==> r is Ok && r->Ok_0@ == statement(
                MAX_PLANS@,
                seq![sql_text(tenant_id@)],
            ),
            column@ != "max_tasks"@ && column@ != "max_plans"@ ==> r is Err && r->Err_0@
                == ErrorView::Storage("unknown quota column"@),
    {
        if text_eq(column, "max_tasks") {
            Ok(TenantQuotaRepo::task_limit(tenant_id))
        } else if text_eq(column, "max_plans") {
            Ok(TenantQuotaRepo::plan_limit(tenant_id))
        } else {
            Err(CoreError::storage("unknown quota column"))
        }
    }

    /// The query for the limit that a check for a task goes by.
    pub fn task_limit(tenant_id: &str) -> (q: Query)
        ensures
            q@ == statement(MAX_TASKS@, seq![sql_text(tenant_id@)]),
    {
        Query::new(MAX_TASKS).text(tenant_id)
    }

    /// The query for the limit that a check for a plan goes by.
    pub fn plan_limit(tenant_id: &str) -> (q: Query)
        ensures
            q@ == statement(MAX_PLANS@, seq![sql_text(tenant_id@)]),
    {
        Query::new(MAX_PLANS).text(tenant_id)
    }

    /// The query for the number of a tenant's tasks, where there is a limit. The default
    /// tenant has the tasks without a project, too.
    pub fn count_tasks(tenant_id: &str, limit: Option<Option<i64>>) -> (r: Option<(i64, Query)>)
        ensures
            match limit_found(limit) {
                None => r is None,
                Some(limit) => r is Some && r->Some_0.0 == limit && r->Some_0.1@ == if tenant_id@
                    == DEFAULT_TENANT_ID@ {
                    statement(COUNT_SELF_HOSTED_TASKS@, seq![sql_text(DEFAULT_TENANT_ID@)])
                } else {
                    statement(COUNT_TENANT_TASKS@, seq![sql_text(tenant_id@)])
                },
            },
    {
        match limit {
            Some(Some(limit)) => {
                let q = if text_eq(tenant_id, DEFAULT_TENANT_ID) {
                    TenantQuotaRepo::count_self_hosted_tasks()
                } else {
                    TenantQuotaRepo::count_tenant_tasks(tenant_id)
                };
                Some((limit, q))
            },
            _ => None,
        }
    }

    fn count_self_hosted_tasks() -> (q: Query)
        ensures
            q@ == statement(COUNT_SELF_HOSTED_TASKS@, seq![sql_text(DEFAULT_TENANT_ID@)]),
    {
        Query::new(COUNT_SELF_HOSTED_TASKS).text(DEFAULT_TENANT_ID)
    }

    fn count_tenant_tasks(tenant_id: &str) -> (q: Query)
        ensures
            q@ == statement(COUNT_TENANT_TASKS@, seq![sql_text(tenant_id@)]),
    {
        Query::new(COUNT_TENANT_TASKS).text(tenant_id)
    }

    /// The query for the number of a tenant's plans, where there is a limit.
    pub fn count_plans(tenant_id: &str, limit: Option<Option<i64>>) -> (r: Option<(i64, Query)>)
        ensures
            match limit_found(limit) {
                None => r is None,
                Some(limit) => r is Some && r->Some_0.0 == limit && r->Some_0.1@ == statement(
                    COUNT_TENANT_PLANS@,
                    seq![sql_text(tenant_id@)],
                ),
            },
    {
        match limit {
            Some(Some(limit)) => {
                let q = Query::new(COUNT_TENANT_PLANS).text(tenant_id);
                assert(q@.binds =~= seq![sql_text(tenant_id@)]);
                Some((limit, q))
            },
            _ => None,
        }
    }

    /// Refuses another task of a tenant that has as many as it may.
    pub fn admit_task(limit: i64, current: i64) -> (r: Result<(), CoreError>)
        ensures
            current >= limit ==> r is Err && r->Err_0@ == (ErrorView::QuotaExceeded {
                resource: "tasks"@,
                limit: limit as int,
                current: current as int,
            }),
            current < limit ==> r is Ok,
    {
        reject_if_full("tasks", limit, current)
    }

    /// Refuses another plan of a tenant that has as many as it may.
    pub fn admit_plan(limit: i64, current: i64) -> (r: Result<(), CoreError>)
        ensures
            current >= limit ==> r is Err && r->Err_0@ == (ErrorView::QuotaExceeded {
                resource: "plans"@,
                limit: limit as int,
                current: current as int,
            }),
            current < limit ==> r is Ok,
    {
        reject_if_full("plans", limit, current)
    }

    /// The statement that sets the limits of a tenant: none where none is given.
    pub fn set_limits(
        tenant_id: &str,
        max_tasks: Option<i64>,
        max_plans: Option<i64>,
        max_storage_mb: Option<i64>,
    ) -> (q: Query)
        ensures
            q@ == statement(
                SET_LIMITS@,
                seq![
                    sql_opt_int(max_tasks),
                    sql_opt_int(max_plans),
                    sql_opt_int(max_storage_mb),
                    sql_text(tenant_id@),
                ],
            ),
    {
        Query::new(SET_LIMITS).opt_number(max_tasks).opt_number(max_plans).opt_number(
            max_storage_mb,
        ).text(tenant_id)
    }
}

// ── laws ────────────────────────────────────────────────────────────────────

/// Whether one more is let in.
pub open spec fn admitted(limit: Option<i64>, current: int) -> bool {
    match limit {
        Some(limit) => current < limit,
        None => true,
    }
}

/// A tenant never gets over its limit by what is let in one by one, and a tenant without a
/// limit is never refused.
pub proof fn lemma_quota_is_kept(limit: i64, current: int)
    requires
        current <= limit,
    ensures
        admitted(Some(limit), current) ==> current + 1 <= limit,
        admitted(None, current),
{
}

/// The tenant of a project is the one that was found, and the default one where the project is
/// not found or has none. A limit that is not found, or is null, is none.
pub proof fn lemma_what_is_not_found_is_the_default(
    tenant_id: Option<Option<String>>,
    limit: Option<Option<i64>>,
)
    ensures
        tenant_id matches Some(Some(id)) ==> tenant_found(tenant_id) == id@,
        tenant_id is None || tenant_id->Some_0 is None ==> tenant_found(tenant_id)
            == DEFAULT_TENANT_ID@,
        limit matches Some(Some(n)) ==> limit_found(limit) == Some(n),
        limit is None || limit->Some_0 is None ==> limit_found(limit) is None,
{
}

} // verus!
