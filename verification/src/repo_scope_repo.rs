//! Which project a repository belongs to, in the `repo_scopes` table.
use vstd::prelude::*;

use crate::error::{CoreError, ErrorView};
use crate::query::{sql_text, sql_time, statement, Query};
use crate::rows::{column, column_fault, Column, Decode, Faults};
use crate::time::Timestamp;

verus! {

/// The projects of repositories.
#[derive(Clone, Copy, Debug)]
pub struct RepoScopeRepo;

pub const LIST_SCOPES: &'static str = "SELECT scope_path, project_id FROM repo_scopes ORDER BY scope_path";

pub const SET_SCOPE: &'static str = "INSERT OR REPLACE INTO repo_scopes (scope_path, project_id, updated_at) \
     VALUES (?, ?, ?)";

pub const REMOVE_SCOPE: &'static str = "DELETE FROM repo_scopes WHERE scope_path = ?";

/// A row of the `repo_scopes` table.
#[derive(Debug, PartialEq, Eq)]
pub struct ScopeRow {
    pub scope_path: Column<String>,
    pub project_id: Column<String>,
}

impl Decode for ScopeRow {
    type Record = (String, String);

    open spec fn fault(&self) -> Option<ErrorView> {
        column_fault(self.scope_path).or_fault(column_fault(self.project_id))
    }

    open spec fn holds(&self, record: (String, String)) -> bool {
        record.0 == self.scope_path->Ok_0 && record.1 == self.project_id->Ok_0
    }

    fn decode(self) -> (r: Result<(String, String), CoreError>) {
        let scope_path = column(self.scope_path)?;
        let project_id = column(self.project_id)?;
        Ok((scope_path, project_id))
    }
}

impl RepoScopeRepo {
    /// The query for all repositories and their projects, by path.
    pub fn list() -> (q: Query)
        ensures
            q@ == statement(LIST_SCOPES@, seq![]),
    {
        Query::new(LIST_SCOPES)
    }

    /// The statement that gives a repository to a project.
    pub fn set(scope_path: &str, project_id: &str, now: &Timestamp) -> (q: Query)
        ensures
            q@ == statement(
                SET_SCOPE@,
                seq![sql_text(scope_path@), sql_text(project_id@), sql_time(*now)],
            ),
    {
        Query::new(SET_SCOPE).text(scope_path).text(project_id).time(now)
    }

    /// The statement that takes a repository from its project.
    pub fn remove(scope_path: &str) -> (q: Query)
        ensures
            q@ == statement(REMOVE_SCOPE@, seq![sql_text(scope_path@)]),
    {
        Query::new(REMOVE_SCOPE).text(scope_path)
    }
}

} // verus!
