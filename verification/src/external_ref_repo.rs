//! What records are called in other systems, in the `external_refs` table.
use vstd::prelude::*;

use crate::domain::ExternalRef;
use crate::error::{CoreError, ErrorView};
use crate::query::{sql_text, sql_time, statement, Query};
use crate::rows::{column, column_fault, Column, Decode};

verus! {

/// The names in other systems.
#[derive(Clone, Copy, Debug)]
pub struct ExternalRefRepo;

pub const LOOKUP_REF: &'static str = "SELECT internal_id FROM external_refs \
     WHERE tenant = ? AND kind = ? AND external_id = ?";

pub const INSERT_REF: &'static str = "INSERT INTO external_refs (tenant, kind, external_id, internal_id, created_at) \
     VALUES (?, ?, ?, ?, ?)";

/// A row of an identifier.
#[derive(Debug, PartialEq, Eq)]
pub struct InternalIdRow {
    pub internal_id: Column<String>,
}

impl Decode for InternalIdRow {
    type Record = String;

    open spec fn fault(&self) -> Option<ErrorView> {
        column_fault(self.internal_id)
    }

    open spec fn holds(&self, record: String) -> bool {
        record == self.internal_id->Ok_0
    }

    fn decode(self) -> (r: Result<String, CoreError>) {
        column(self.internal_id)
    }
}

impl ExternalRefRepo {
    /// The query for the identifier of what another system calls by a name.
    pub fn lookup(tenant: &str, kind: &str, external_id: &str) -> (q: Query)
        ensures
            q@ == statement(
                LOOKUP_REF@,
                seq![sql_text(tenant@), sql_text(kind@), sql_text(external_id@)],
            ),
    {
        Query::new(LOOKUP_REF).text(tenant).text(kind).text(external_id)
    }

    /// The statement that writes a name. What it writes under a name is looked up under it.
    pub fn insert(ext: &ExternalRef) -> (q: Query)
        ensures
            q@ == statement(
                INSERT_REF@,
                seq![
                    sql_text(ext.tenant@),
                    sql_text(ext.kind@),
                    sql_text(ext.external_id@),
                    sql_text(ext.internal_id@),
                    sql_time(ext.created_at),
                ],
            ),
    {
        Query::new(INSERT_REF)
            .text(ext.tenant.as_str())
            .text(ext.kind.as_str())
            .text(ext.external_id.as_str())
            .text(ext.internal_id.as_str())
            .time(&ext.created_at)
    }
}

} // verus!
