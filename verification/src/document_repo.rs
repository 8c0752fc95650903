//! Documents, in the `documents` table.
use vstd::prelude::*;

use crate::domain::{Document, DocumentKind, DocumentStatus};
use crate::entity_version::{summary_of, update_summary, VersionDraft};
use crate::error::{CoreError, ErrorView};
use crate::events::{Event, EventEnvelope};
use crate::ids::{
    id_fault, id_text, id_value, opt_id_fault, opt_id_value, parse_id, parse_opt_id, print_id,
    DocumentId, ProjectId, TaskId,
};
use crate::json::{opt_model, Json};
use crate::order::text_before;
use crate::query::{
    sql_id, sql_int, sql_opt_id, sql_opt_text, sql_opt_time, sql_text, sql_time, statement,
    statements, BoundView, Query,
};
use crate::rows::{
    column, column_fault, has_int, has_opt_text, has_text, Column, Decode, Faults,
};
use crate::text::{concat2, concat3, copy_opt, opt_text, quote, quoted};
use crate::time::{
    difference, has_four_digits, is_span, opt_is_plain, opt_ts_fault, opt_ts_value, parse_opt_ts,
    parse_ts, rfc3339_text, sorts_at, time_before, ts_fault, ts_value, Timestamp,
};

verus! {

/// The document projection.
#[derive(Clone, Copy, Debug)]
pub struct DocumentRepo;

/// What stands between a document's content and what is appended to it, so that the new
/// block is a paragraph of its own.
pub const APPEND_SEPARATOR: &'static str = "\n\n";

pub const GET_DOCUMENT: &'static str = "SELECT id, project_id, kind, title, content, created_at, updated_at, archived_at, \
     last_read_at, last_read_by, read_count, status, task_id, trigger_kind, consumer \
     FROM documents WHERE id = ?";

pub const LIST_KIND: &'static str = "SELECT id, project_id, kind, title, content, created_at, updated_at, archived_at, \
     last_read_at, last_read_by, read_count, status, task_id, trigger_kind, consumer \
     FROM documents \
     WHERE project_id = ? AND kind = ? \
     ORDER BY created_at ASC, id ASC";

pub const LIST_KIND_LIVE: &'static str = "SELECT id, project_id, kind, title, content, created_at, updated_at, archived_at, \
     last_read_at, last_read_by, read_count, status, task_id, trigger_kind, consumer \
     FROM documents \
     WHERE project_id = ? AND kind = ? AND archived_at IS NULL \
     ORDER BY created_at ASC, id ASC";

pub const LIST_PROJECT: &'static str = "SELECT id, project_id, kind, title, content, created_at, updated_at, archived_at, \
     last_read_at, last_read_by, read_count, status, task_id, trigger_kind, consumer \
     FROM documents \
     WHERE project_id = ? \
     ORDER BY created_at ASC, id ASC";

pub const LIST_PROJECT_LIVE: &'static str = "SELECT id, project_id, kind, title, content, created_at, updated_at, archived_at, \
     last_read_at, last_read_by, read_count, status, task_id, trigger_kind, consumer \
     FROM documents \
     WHERE project_id = ? AND archived_at IS NULL \
     ORDER BY created_at ASC, id ASC";

pub const UPSERT_DOCUMENT: &'static str = "INSERT OR REPLACE INTO documents \
     (id, project_id, kind, title, content, created_at, updated_at, archived_at, \
     last_read_at, last_read_by, read_count, status, task_id, trigger_kind, consumer) \
     VALUES (?, ?, ?, ?, ?, ?, ?, ?, ?, ?, ?, ?, ?, ?, ?)";

pub const MARK_READ: &'static str = "UPDATE documents \
     SET last_read_at = ?, last_read_by = ?, read_count = read_count + 1 \
     WHERE id = ? \
     AND NOT (last_read_by = ? AND last_read_at IS NOT NULL AND last_read_at >= ?) \
     AND NOT EXISTS (SELECT 1 FROM document_reads \
     WHERE document_id = documents.id AND actor = ? AND read_at >= ?)";

pub const NOTE_READ: &'static str = "INSERT INTO document_reads (document_id, actor, read_at) \
     VALUES (?, ?, ?) \
     ON CONFLICT(document_id, actor) DO UPDATE SET read_at = excluded.read_at";

pub const CREATE_READS: &'static str = "CREATE TABLE IF NOT EXISTS document_reads ( \
     document_id TEXT NOT NULL, actor TEXT NOT NULL, read_at TEXT NOT NULL, \
     PRIMARY KEY (document_id, actor))";

pub const NOTE_LAST_READS: &'static str = "INSERT OR IGNORE INTO document_reads (document_id, actor, read_at) \
     SELECT id, last_read_by, last_read_at FROM documents \
     WHERE last_read_by IS NOT NULL AND last_read_at IS NOT NULL";

pub const LIST_UNREAD: &'static str = "SELECT id, project_id, kind, title, content, created_at, updated_at, archived_at, \
     last_read_at, last_read_by, read_count, status, task_id, trigger_kind, consumer \
     FROM documents \
     WHERE project_id = ? AND archived_at IS NULL \
     AND (last_read_at IS NULL OR last_read_at < ?) \
     ORDER BY last_read_at ASC NULLS FIRST, created_at ASC, id ASC";

/// A stored count: what is below zero counts as zero.
pub open spec fn count_value(n: i64) -> u64 {
    if n < 0 {
        0
    } else {
        n as u64
    }
}

/// Why a text is no document status.
pub open spec fn status_fault(s: Seq<char>) -> Option<ErrorView> {
    if DocumentStatus::named(s) is Some {
        None
    } else {
        Some(ErrorView::Serde("unknown document status: "@ + quoted(s)))
    }
}

/// Reads a document status.
pub fn parse_status(s: &str) -> (r: Result<DocumentStatus, CoreError>)
    ensures
        match status_fault(s@) {
            Some(e) => r is Err && r->Err_0@ == e,
            None => r is Ok && Some(r->Ok_0) == DocumentStatus::named(s@),
        },
{
    match DocumentStatus::parse(s) {
        Some(v) => Ok(v),
        None => Err(CoreError::Serde(concat2("unknown document status: ", quote(s).as_str()))),
    }
}

/// Why a text is no document kind.
pub open spec fn kind_fault(s: Seq<char>) -> Option<ErrorView> {
    if DocumentKind::named(s) is Some {
        None
    } else {
        Some(ErrorView::Serde("unknown document kind: "@ + quoted(s)))
    }
}

/// Reads a document kind.
pub fn parse_kind(s: &str) -> (r: Result<DocumentKind, CoreError>)
    ensures
        match kind_fault(s@) {
            Some(e) => r is Err && r->Err_0@ == e,
            None => r is Ok && Some(r->Ok_0) == DocumentKind::named(s@),
        },
{
    match DocumentKind::parse(s) {
        Some(v) => Ok(v),
        None => Err(CoreError::Serde(concat2("unknown document kind: ", quote(s).as_str()))),
    }
}

/// A row of the `documents` table.
#[derive(Debug, PartialEq, Eq)]
pub struct DocumentRow {
    pub id: Column<String>,
    pub project_id: Column<String>,
    pub kind: Column<String>,
    pub title: Column<String>,
    pub content: Column<String>,
    pub created_at: Column<String>,
    pub updated_at: Column<String>,
    pub archived_at: Column<Option<String>>,
    pub last_read_at: Column<Option<String>>,
    pub last_read_by: Column<Option<String>>,
    pub read_count: Column<i64>,
    pub status: Column<String>,
    pub task_id: Column<Option<String>>,
    pub trigger_kind: Column<Option<String>>,
    pub consumer: Column<Option<String>>,
}

/// What is wrong with a document row, where something is: the columns and their
/// values are looked at in this order.
pub open spec fn document_fault(row: DocumentRow) -> Option<ErrorView> {
    column_fault(row.id).or_fault(
        column_fault(row.project_id),
    ).or_fault(
        column_fault(row.kind),
    ).or_fault(
        column_fault(row.title),
    ).or_fault(
        column_fault(row.content),
    ).or_fault(
        column_fault(row.created_at),
    ).or_fault(
        column_fault(row.updated_at),
    ).or_fault(
        column_fault(row.archived_at),
    ).or_fault(
        column_fault(row.last_read_at),
    ).or_fault(
        column_fault(row.last_read_by),
    ).or_fault(
        column_fault(row.read_count),
    ).or_fault(
        column_fault(row.status),
    ).or_fault(
        column_fault(row.task_id),
    ).or_fault(
        column_fault(row.trigger_kind),
    ).or_fault(
        column_fault(row.consumer),
    ).or_fault(
        id_fault::<DocumentId>(row.id->Ok_0@),
    ).or_fault(
        id_fault::<ProjectId>(row.project_id->Ok_0@),
    ).or_fault(
        kind_fault(row.kind->Ok_0@),
    ).or_fault(
        status_fault(row.status->Ok_0@),
    ).or_fault(
        opt_id_fault::<TaskId>(row.task_id->Ok_0),
    ).or_fault(
        opt_ts_fault(row.archived_at->Ok_0),
    ).or_fault(
        opt_ts_fault(row.last_read_at->Ok_0),
    ).or_fault(
        ts_fault(row.created_at->Ok_0@),
    ).or_fault(
        ts_fault(row.updated_at->Ok_0@),
    )
}

/// The record is what a sound document row says.
pub open spec fn document_read(row: DocumentRow, record: Document) -> bool {
    &&& record.id == id_value::<DocumentId>(row.id->Ok_0@)
    &&& record.project_id == id_value::<ProjectId>(row.project_id->Ok_0@)
    &&& Some(record.kind) == DocumentKind::named(row.kind->Ok_0@)
    &&& record.title == row.title->Ok_0
    &&& record.content == row.content->Ok_0
    &&& record.created_at == ts_value(row.created_at->Ok_0@)
    &&& record.updated_at == ts_value(row.updated_at->Ok_0@)
    &&& record.archived_at == opt_ts_value(row.archived_at->Ok_0)
    &&& record.last_read_at == opt_ts_value(row.last_read_at->Ok_0)
    &&& record.last_read_by == row.last_read_by->Ok_0
    &&& record.read_count == count_value(row.read_count->Ok_0)
    &&& Some(record.status) == DocumentStatus::named(row.status->Ok_0@)
    &&& record.task_id == opt_id_value::<TaskId>(row.task_id->Ok_0)
    &&& record.trigger_kind == row.trigger_kind->Ok_0
    &&& record.consumer == row.consumer->Ok_0
}

/// Reads a document from its row.
pub fn row_to_document(row: DocumentRow) -> (r: Result<Document, CoreError>)
    ensures
        match document_fault(row) {
            Some(e) => r is Err && r->Err_0@ == e,
            None => r is Ok && document_read(row, r->Ok_0),
        },
{
    let id = column(row.id)?;
    let project_id = column(row.project_id)?;
    let kind = column(row.kind)?;
    let title = column(row.title)?;
    let content = column(row.content)?;
    let created_at = column(row.created_at)?;
    let updated_at = column(row.updated_at)?;
    let archived_at = column(row.archived_at)?;
    let last_read_at = column(row.last_read_at)?;
    let last_read_by = column(row.last_read_by)?;
    let read_count = column(row.read_count)?;
    let status = column(row.status)?;
    let task_id = column(row.task_id)?;
    let trigger_kind = column(row.trigger_kind)?;
    let consumer = column(row.consumer)?;
    let id = parse_id::<DocumentId>(id.as_str())?;
    let project_id = parse_id::<ProjectId>(project_id.as_str())?;
    let kind = parse_kind(kind.as_str())?;
    let status = parse_status(status.as_str())?;
    let task_id = parse_opt_id::<TaskId>(&task_id)?;
    let archived_at = parse_opt_ts(&archived_at)?;
    let last_read_at = parse_opt_ts(&last_read_at)?;
    let created_at = parse_ts(created_at.as_str())?;
    let updated_at = parse_ts(updated_at.as_str())?;
    Ok(Document {
        id,
        project_id,
        kind,
        title,
        content,
        created_at,
        updated_at,
        archived_at,
        last_read_at,
        last_read_by,
        read_count: if read_count < 0 {
            0
        } else {
            read_count as u64
        },
        status,
        task_id,
        trigger_kind,
        consumer,
    })
}

impl Decode for DocumentRow {
    type Record = Document;

    open spec fn fault(&self) -> Option<ErrorView> {
        document_fault(*self)
    }

    open spec fn holds(&self, record: Document) -> bool {
        document_read(*self, record)
    }

    fn decode(self) -> (r: Result<Document, CoreError>) {
        row_to_document(self)
    }
}

/// The columns of a document, in the order in which they are written.
pub open spec fn document_columns(record: Document) -> Seq<BoundView> {
    seq![
        sql_id(record.id),
        sql_id(record.project_id),
        sql_text(record.kind.text()),
        sql_text(record.title@),
        sql_text(record.content@),
        sql_time(record.created_at),
        sql_time(record.updated_at),
        sql_opt_time(record.archived_at),
        sql_opt_time(record.last_read_at),
        sql_opt_text(opt_text(record.last_read_by)),
        sql_int(record.read_count as i64 as int),
        sql_text(record.status.text()),
        sql_opt_id(record.task_id),
        sql_opt_text(opt_text(record.trigger_kind)),
        sql_opt_text(opt_text(record.consumer)),
    ]
}

impl DocumentRow {
    /// Each column of the row holds what is written for it of the record.
    pub open spec fn stores(self, record: Document) -> bool {
        &&& has_text(self.id, sql_id(record.id))
        &&& has_text(self.project_id, sql_id(record.project_id))
        &&& has_text(self.kind, sql_text(record.kind.text()))
        &&& has_text(self.title, sql_text(record.title@))
        &&& has_text(self.content, sql_text(record.content@))
        &&& has_text(self.created_at, sql_time(record.created_at))
        &&& has_text(self.updated_at, sql_time(record.updated_at))
        &&& has_opt_text(self.archived_at, sql_opt_time(record.archived_at))
        &&& has_opt_text(self.last_read_at, sql_opt_time(record.last_read_at))
        &&& has_opt_text(self.last_read_by, sql_opt_text(opt_text(record.last_read_by)))
        &&& has_int(self.read_count, sql_int(record.read_count as i64 as int))
        &&& has_text(self.status, sql_text(record.status.text()))
        &&& has_opt_text(self.task_id, sql_opt_id(record.task_id))
        &&& has_opt_text(self.trigger_kind, sql_opt_text(opt_text(record.trigger_kind)))
        &&& has_opt_text(self.consumer, sql_opt_text(opt_text(record.consumer)))
    }
}

impl Document {
    /// The two records agree in every field.
    pub open spec fn same(self, other: Document) -> bool {
        &&& self.id == other.id
        &&& self.project_id == other.project_id
        &&& self.kind == other.kind
        &&& self.title@ == other.title@
        &&& self.content@ == other.content@
        &&& self.created_at == other.created_at
        &&& self.updated_at == other.updated_at
        &&& self.archived_at == other.archived_at
        &&& self.last_read_at == other.last_read_at
        &&& opt_text(self.last_read_by) == opt_text(other.last_read_by)
        &&& self.read_count == other.read_count
        &&& self.status == other.status
        &&& self.task_id == other.task_id
        &&& opt_text(self.trigger_kind) == opt_text(other.trigger_kind)
        &&& opt_text(self.consumer) == opt_text(other.consumer)
    }

    /// Every point in time of the record has an RFC 3339 text that reads back, and the
    /// database can count its reads.
    pub open spec fn is_plain(self) -> bool {
        &&& self.read_count <= i64::MAX
        &&& self.created_at.is_plain()
        &&& self.updated_at.is_plain()
        &&& opt_is_plain(self.archived_at)
        &&& opt_is_plain(self.last_read_at)
    }
}


// ── what events make of documents ───────────────────────────────────────────

/// The content of a document with something appended to it.
pub open spec fn appended(content: Seq<char>, append: Seq<char>) -> Seq<char> {
    if content.len() == 0 {
        append
    } else {
        content + APPEND_SEPARATOR@ + append
    }
}

/// The time since when a document is archived, once it has the given state: entering
/// the archive notes it, leaving clears it.
pub open spec fn archived_since(doc: Document, to: DocumentStatus, at: Timestamp) -> Option<
    Timestamp,
> {
    if to == DocumentStatus::Archived {
        match doc.archived_at {
            Some(earlier) => Some(earlier),
            None => Some(at),
        }
    } else {
        None
    }
}

/// The document is what an event makes of a stored one.
pub open spec fn is_document_after(event: Event, doc: Document, after: Document) -> bool {
    match event {
        Event::DocumentContentReplaced { content, at, .. } => after == (Document {
            content,
            updated_at: at,
            ..doc
        }),
        Event::DocumentContentAppended { append, at, .. } => {
            &&& after.content@ == appended(doc.content@, append@)
            &&& after == (Document { content: after.content, updated_at: at, ..doc })
        },
        Event::DocumentRenamed { title, at, .. } => after == (Document {
            title,
            updated_at: at,
            ..doc
        }),
        Event::DocumentArchived { at, .. } => after == (Document {
            archived_at: Some(at),
            status: DocumentStatus::Archived,
            updated_at: at,
            ..doc
        }),
        Event::DocumentStatusChanged { to, at, .. } => after == (Document {
            status: to,
            archived_at: archived_since(doc, to, at),
            updated_at: at,
            ..doc
        }),
        Event::DocumentTaskLinkChanged { task_id, at, .. } => after == (Document {
            task_id,
            updated_at: at,
            ..doc
        }),
        _ => after == doc,
    }
}

/// The stored document that an event changes, where it changes one.
pub open spec fn changed_document_id(event: Event) -> Option<DocumentId> {
    match event {
        Event::DocumentContentReplaced { document_id, .. } => Some(document_id),
        Event::DocumentContentAppended { document_id, .. } => Some(document_id),
        Event::DocumentRenamed { document_id, .. } => Some(document_id),
        Event::DocumentArchived { document_id, .. } => Some(document_id),
        Event::DocumentStatusChanged { document_id, .. } => Some(document_id),
        Event::DocumentTaskLinkChanged { document_id, .. } => Some(document_id),
        _ => None,
    }
}

/// How an event is applied to the documents.
#[derive(Clone, Debug, PartialEq, Eq)]
pub enum DocumentStep {
    /// The event is none about documents.
    Ignore,
    /// Store this document with [`DocumentRepo::write`], with its first version.
    Create { document: Document },
    /// Load the document, and store what [`DocumentRepo::loaded`] makes of what was found,
    /// where that is something, with [`DocumentRepo::write`].
    Change { load: Query },
}

fn copy_document(doc: &Document) -> (r: Document)
    ensures
        r == *doc,
{
    Document {
        id: doc.id,
        project_id: doc.project_id,
        kind: doc.kind,
        title: doc.title.clone(),
        content: doc.content.clone(),
        status: doc.status,
        task_id: doc.task_id,
        trigger_kind: copy_opt(&doc.trigger_kind),
        consumer: copy_opt(&doc.consumer),
        created_at: doc.created_at,
        updated_at: doc.updated_at,
        archived_at: doc.archived_at,
        last_read_at: doc.last_read_at,
        last_read_by: copy_opt(&doc.last_read_by),
        read_count: doc.read_count,
    }
}

/// What is written of a document in one transaction: the document, and the version that the
/// event makes of it.
#[derive(Clone, Debug, PartialEq, Eq)]
pub struct DocumentWrite {
    pub upsert: Query,
    pub version: VersionDraft,
}

/// How a read of a document is marked, in one transaction: the read is counted, and where
/// it did count, it is noted as the reader's last one.
#[derive(Clone, Debug, PartialEq, Eq)]
pub struct ReadMark {
    pub update: Query,
    pub note: Query,
}

impl ReadMark {
    /// The mark is that of a read of a document at a time, which counts unless the reader's
    /// last one was not before `cutoff`.
    pub open spec fn marks(
        self,
        id: DocumentId,
        actor: Seq<char>,
        now: Timestamp,
        cutoff: Seq<char>,
    ) -> bool {
        &&& self.update@ == statement(
            MARK_READ@,
            seq![
                sql_time(now),
                sql_text(actor),
                sql_id(id),
                sql_text(actor),
                sql_text(cutoff),
                sql_text(actor),
                sql_text(cutoff),
            ],
        )
        &&& self.note@ == statement(NOTE_READ@, seq![sql_id(id), sql_text(actor), sql_time(now)])
    }

    /// The step after the update: the statement that notes the read, where it was counted.
    pub fn counted(self, rows_affected: u64) -> (r: Option<Query>)
        ensures
            rows_affected > 0 ==> r == Some(self.note),
            rows_affected == 0 ==> r is None,
    {
        if rows_affected > 0 {
            Some(self.note)
        } else {
            None
        }
    }
}

impl DocumentRepo {
    /// How an event is applied to the documents.
    pub fn apply_event(envelope: &EventEnvelope) -> (r: DocumentStep)
        ensures
            match envelope.payload {
                Event::DocumentCreated { document } => r == (DocumentStep::Create { document }),
                event => match changed_document_id(event) {
                    Some(id) => r matches DocumentStep::Change { load } && load@ == statement(
                        GET_DOCUMENT@,
                        seq![sql_id(id)],
                    ),
                    None => r is Ignore,
                },
            },
    {
        match &envelope.payload {
            Event::DocumentCreated { document } => DocumentStep::Create {
                document: copy_document(document),
            },
            Event::DocumentContentReplaced { document_id, .. } => DocumentStep::Change {
                load: DocumentRepo::get(document_id),
            },
            Event::DocumentContentAppended { document_id, .. } => DocumentStep::Change {
                load: DocumentRepo::get(document_id),
            },
            Event::DocumentRenamed { document_id, .. } => DocumentStep::Change {
                load: DocumentRepo::get(document_id),
            },
            Event::DocumentArchived { document_id, .. } => DocumentStep::Change {
                load: DocumentRepo::get(document_id),
            },
            Event::DocumentStatusChanged { document_id, .. } => DocumentStep::Change {
                load: DocumentRepo::get(document_id),
            },
            Event::DocumentTaskLinkChanged { document_id, .. } => DocumentStep::Change {
                load: DocumentRepo::get(document_id),
            },
            _ => DocumentStep::Ignore,
        }
    }

    /// What an event makes of a stored document.
    pub fn changed(event: &Event, doc: Document) -> (r: Document)
        ensures
            is_document_after(*event, doc, r),
    {
        match event {
            Event::DocumentContentReplaced { content, at, .. } => Document {
                content: content.clone(),
                updated_at: *at,
                ..doc
            },
            Event::DocumentContentAppended { append, at, .. } => {
                let content = if doc.content.as_str().is_empty() {
                    append.clone()
                } else {
                    concat3(doc.content.as_str(), APPEND_SEPARATOR, append.as_str())
                };
                Document { content, updated_at: *at, ..doc }
            },
            Event::DocumentRenamed { title, at, .. } => Document {
                title: title.clone(),
                updated_at: *at,
                ..doc
            },
            Event::DocumentArchived { at, .. } => Document {
                archived_at: Some(*at),
                status: DocumentStatus::Archived,
                updated_at: *at,
                ..doc
            },
            Event::DocumentStatusChanged { to, at, .. } => {
                let archived_at = match (*to == DocumentStatus::Archived, doc.archived_at) {
                    (true, None) => Some(*at),
                    (true, Some(earlier)) => Some(earlier),
                    (false, _) => None,
                };
                Document { status: *to, archived_at, updated_at: *at, ..doc }
            },
            Event::DocumentTaskLinkChanged { task_id, at, .. } => Document {
                task_id: *task_id,
                updated_at: *at,
                ..doc
            },
            _ => doc,
        }
    }

    /// What an event makes of what was found of its document. Of a document that is not
    /// known nothing is made, so nothing is written.
    pub fn loaded(event: &Event, found: Option<Document>) -> (r: Option<Document>)
        ensures
            found is None ==> r is None,
            found matches Some(doc) ==> r is Some && is_document_after(*event, doc, r->Some_0),
    {
        match found {
            Some(doc) => Some(DocumentRepo::changed(event, doc)),
            None => None,
        }
    }

    /// What is written of a document, given its JSON and, where it was known before, the
    /// JSON that it had.
    pub fn write(doc: &Document, before: Option<Json>, after: Json) -> (r: DocumentWrite)
        ensures
            r.upsert@ == statement(UPSERT_DOCUMENT@, document_columns(*doc)),
            r.version.entity_type@ == "document"@,
            r.version.entity_id@ == id_text(doc.id),
            r.version.before == before,
            r.version.after == Some(after),
            r.version.summary@ == summary_of("Document"@, opt_model(before), Some(after.model())),
    {
        DocumentWrite {
            upsert: DocumentRepo::upsert_document(doc),
            version: DocumentRepo::version(&doc.id, before, Some(after)),
        }
    }

    /// The version of a document that may have to be stored.
    pub fn version(document_id: &DocumentId, before: Option<Json>, after: Option<Json>) -> (r:
        VersionDraft)
        ensures
            r.entity_type@ == "document"@,
            r.entity_id@ == id_text(*document_id),
            r.before == before,
            r.after == after,
            r.summary@ == summary_of("Document"@, opt_model(before), opt_model(after)),
    {
        let summary = update_summary("Document", &before, &after);
        VersionDraft {
            entity_type: "document".to_owned(),
            entity_id: print_id(document_id),
            before,
            after,
            summary,
        }
    }

    /// The statement that stores a document. A document that was stored is the document
    /// that its row reads as.
    pub fn upsert_document(doc: &Document) -> (q: Query)
        ensures
            q@ == statement(UPSERT_DOCUMENT@, document_columns(*doc)),
            doc.is_plain() ==> forall|row: DocumentRow|
                #[trigger] row.stores(*doc) ==> document_fault(row) is None && forall|record: Document|
                    document_read(row, record) ==> record.same(*doc),
    {
        Query::new(UPSERT_DOCUMENT)
            .id(&doc.id)
            .id(&doc.project_id)
            .text(doc.kind.as_str())
            .text(doc.title.as_str())
            .text(doc.content.as_str())
            .time(&doc.created_at)
            .time(&doc.updated_at)
            .opt_time(&doc.archived_at)
            .opt_time(&doc.last_read_at)
            .opt_text(&doc.last_read_by)
            .number(doc.read_count as i64)
            .text(doc.status.as_str())
            .opt_id(&doc.task_id)
            .opt_text(&doc.trigger_kind)
            .opt_text(&doc.consumer)
    }

    // ── queries ─────────────────────────────────────────────────────────────

    /// The query for a document.
    pub fn get(id: &DocumentId) -> (q: Query)
        ensures
            q@ == statement(GET_DOCUMENT@, seq![sql_id(*id)]),
    {
        Query::new(GET_DOCUMENT).id(id)
    }

    /// The query for the documents of a project, of one kind where it is given, with or
    /// without the archived ones.
    pub fn list_by_project(
        project_id: &ProjectId,
        kind_filter: &Option<DocumentKind>,
        include_archived: bool,
    ) -> (q: Query)
        ensures
            q@ == match (*kind_filter, include_archived) {
                (Some(kind), true) => statement(
                    LIST_KIND@,
                    seq![sql_id(*project_id), sql_text(kind.text())],
                ),
                (Some(kind), false) => statement(
                    LIST_KIND_LIVE@,
                    seq![sql_id(*project_id), sql_text(kind.text())],
                ),
                (None, true) => statement(LIST_PROJECT@, seq![sql_id(*project_id)]),
                (None, false) => statement(LIST_PROJECT_LIVE@, seq![sql_id(*project_id)]),
            },
    {
        let q = match (kind_filter, include_archived) {
            (Some(kind), true) => Query::new(LIST_KIND).id(project_id).text(kind.as_str()),
            (Some(kind), false) => Query::new(LIST_KIND_LIVE).id(project_id).text(kind.as_str()),
            (None, true) => Query::new(LIST_PROJECT).id(project_id),
            (None, false) => Query::new(LIST_PROJECT_LIVE).id(project_id),
        };
        proof {
            if let Some(kind) = *kind_filter {
                assert(q@.binds =~= seq![sql_id(*project_id), sql_text(kind.text())]);
            } else {
                assert(q@.binds =~= seq![sql_id(*project_id)]);
            }
        }
        q
    }

    /// The statements that make room for the last read of each document by each reader, and
    /// note there the last reads that the documents themselves know of. Where that has been
    /// done before, they change nothing that was noted.
    pub fn track_reads() -> (r: Vec<Query>)
        ensures
            statements(r@) == seq![
                statement(CREATE_READS@, seq![]),
                statement(NOTE_LAST_READS@, seq![]),
            ],
    {
        let mut out: Vec<Query> = Vec::new();
        out.push(Query::new(CREATE_READS));
        out.push(Query::new(NOTE_LAST_READS));
        assert(statements(out@) =~= seq![
            statement(CREATE_READS@, seq![]),
            statement(NOTE_LAST_READS@, seq![]),
        ]);
        out
    }

    /// How a read of a document is marked: it counts, unless the same reader was there
    /// less than `throttle_secs` seconds and `throttle_nanos` nanoseconds before, whoever
    /// else was there meanwhile. Nothing where the calendar does not go back that far. A
    /// span that is too long to count is refused.
    pub fn mark_read(
        id: &DocumentId,
        actor: &str,
        now: &Timestamp,
        throttle_secs: u64,
        throttle_nanos: u32,
    ) -> (r: Result<Option<ReadMark>, CoreError>)
        requires
            throttle_nanos < 1_000_000_000,
        ensures
            !is_span(throttle_secs as int, throttle_nanos as int) ==> r is Err && r->Err_0@
                == ErrorView::Validation(SPAN_TOO_LONG@),
            is_span(throttle_secs as int, throttle_nanos as int) ==> match time_before(
                now.seconds(),
                now.subsec(),
                throttle_secs as i64,
                throttle_nanos,
            ) {
                Some(cutoff) => r matches Ok(Some(mark)) && mark.marks(
                    *id,
                    actor@,
                    *now,
                    rfc3339_text(cutoff.0, cutoff.1),
                ),
                None => r matches Ok(None),
            },
            r matches Ok(Some(_)) ==> ({
                let cutoff = time_before(
                    now.seconds(),
                    now.subsec(),
                    throttle_secs as i64,
                    throttle_nanos,
                )->Some_0;
                has_four_digits(cutoff.0 as int) ==> sorts_at(
                    rfc3339_text(cutoff.0, cutoff.1),
                    cutoff.0,
                    cutoff.1,
                )
            }),
            is_span(throttle_secs as int, throttle_nanos as int) && now.subsec() < 1_000_000_000
                ==> time_before(now.seconds(), now.subsec(), throttle_secs as i64, throttle_nanos)
                == difference(now.seconds(), now.subsec(), throttle_secs as i64, throttle_nanos),
    {
        match DocumentRepo::read_cutoff(now, throttle_secs, throttle_nanos) {
            Err(e) => Err(e),
            Ok(Some(cutoff)) => Ok(Some(DocumentRepo::count_read(id, actor, now, &cutoff))),
            Ok(None) => Ok(None),
        }
    }

    fn read_cutoff(now: &Timestamp, throttle_secs: u64, throttle_nanos: u32) -> (r: Result<
        Option<Timestamp>,
        CoreError,
    >)
        requires
            throttle_nanos < 1_000_000_000,
        ensures
            !is_span(throttle_secs as int, throttle_nanos as int) ==> r is Err && r->Err_0@
                == ErrorView::Validation(SPAN_TOO_LONG@),
            is_span(throttle_secs as int, throttle_nanos as int) ==> match time_before(
                now.seconds(),
                now.subsec(),
                throttle_secs as i64,
                throttle_nanos,
            ) {
                Some(t) => r matches Ok(Some(p)) && p.seconds() == t.0 && p.subsec() == t.1,
                None => r matches Ok(None),
            },
            is_span(throttle_secs as int, throttle_nanos as int) && now.subsec() < 1_000_000_000
                ==> time_before(now.seconds(), now.subsec(), throttle_secs as i64, throttle_nanos)
                == difference(now.seconds(), now.subsec(), throttle_secs as i64, throttle_nanos),
    {
        if throttle_secs > 9_223_372_036_854_775 || (throttle_secs == 9_223_372_036_854_775
            && throttle_nanos > 807_000_000) {
            return Err(CoreError::validation(SPAN_TOO_LONG));
        }
        Ok(now.earlier(throttle_secs as i64, throttle_nanos))
    }

    fn count_read(id: &DocumentId, actor: &str, now: &Timestamp, cutoff: &Timestamp) -> (r:
        ReadMark)
        ensures
            r.marks(*id, actor@, *now, rfc3339_text(cutoff.seconds(), cutoff.subsec())),
            cutoff.is_plain() ==> cutoff.sorts_as_text(),
    {
        let update = Query::new(MARK_READ)
            .time(now)
            .text(actor)
            .id(id)
            .text(actor)
            .time(cutoff)
            .text(actor)
            .time(cutoff);
        let note = Query::new(NOTE_READ).id(id).text(actor).time(now);
        assert(note@.binds =~= seq![sql_id(*id), sql_text(actor@), sql_time(*now)]);
        assert(update@.binds =~= seq![
            sql_time(*now),
            sql_text(actor@),
            sql_id(*id),
            sql_text(actor@),
            sql_time(*cutoff),
            sql_text(actor@),
            sql_time(*cutoff),
        ]);
        ReadMark { update, note }
    }

    /// The query for the live documents of a project that were not read since `cutoff`.
    pub fn list_unread_since(project_id: &ProjectId, cutoff: &Timestamp) -> (q: Query)
        ensures
            q@ == statement(LIST_UNREAD@, seq![sql_id(*project_id), sql_time(*cutoff)]),
            cutoff.is_plain() ==> cutoff.sorts_as_text(),
    {
        Query::new(LIST_UNREAD).id(project_id).time(cutoff)
    }
}

/// Why a span is refused that is longer than 63 bits of milliseconds.
pub const SPAN_TOO_LONG: &'static str = "Source duration value is out of range for the target type";

// ── laws ────────────────────────────────────────────────────────────────────

/// A document is in the archive and has the time since when: whatever event brings it
/// there or out of it, its state and that time agree.
pub open spec fn archive_agrees(doc: Document) -> bool {
    doc.status == DocumentStatus::Archived <==> doc.archived_at is Some
}

/// No event makes a document's state and its archive time disagree.
pub proof fn lemma_archive_stays_in_agreement(event: Event, doc: Document, after: Document)
    requires
        archive_agrees(doc),
        is_document_after(event, doc, after),
    ensures
        archive_agrees(after),
{
}

/// A change of state makes a document's state and its archive time agree, even where
/// they did not before.
pub proof fn lemma_status_change_restores_agreement(event: Event, doc: Document, after: Document)
    requires
        event is DocumentStatusChanged,
        is_document_after(event, doc, after),
    ensures
        archive_agrees(after),
{
}

/// No event changes which document a record is, what kind it is, who has it, when it was
/// created, or what is known of its readers.
pub proof fn lemma_reading_history_is_kept(event: Event, doc: Document, after: Document)
    requires
        is_document_after(event, doc, after),
    ensures
        after.id == doc.id,
        after.project_id == doc.project_id,
        after.kind == doc.kind,
        after.created_at == doc.created_at,
        after.last_read_at == doc.last_read_at,
        after.last_read_by == doc.last_read_by,
        after.read_count == doc.read_count,
{
}

/// What is known of a stored document's readers.
#[verifier::ext_equal]
pub ghost struct Readers {
    pub last_read_at: Option<Seq<char>>,
    pub last_read_by: Option<Seq<char>>,
    pub read_count: int,
    /// The last read of each reader.
    pub reads: Map<Seq<char>, Seq<char>>,
}

/// A read, and the time before which its reader's last one must lie for it to count.
pub ghost struct Read {
    pub actor: Seq<char>,
    pub now: Seq<char>,
    pub cutoff: Seq<char>,
}

impl Readers {
    /// The read does not count: the same reader was there too short a time before. Times
    /// are compared as they are held, as texts.
    pub open spec fn throttles(self, read: Read) -> bool {
        ||| self.last_read_by == Some(read.actor) && self.last_read_at is Some && !text_before(
            self.last_read_at->Some_0,
            read.cutoff,
        )
        ||| self.reads.dom().contains(read.actor) && !text_before(
            self.reads[read.actor],
            read.cutoff,
        )
    }

    /// What is known of the readers after a read was marked.
    pub open spec fn after(self, read: Read) -> Readers {
        if self.throttles(read) {
            self
        } else {
            Readers {
                last_read_at: Some(read.now),
                last_read_by: Some(read.actor),
                read_count: self.read_count + 1,
                reads: self.reads.insert(read.actor, read.now),
            }
        }
    }

    /// What is known of the readers after some reads were marked.
    pub open spec fn after_all(self, reads: Seq<Read>) -> Readers
        decreases reads.len(),
    {
        if reads.len() == 0 {
            self
        } else {
            self.after_all(reads.drop_last()).after(reads.last())
        }
    }
}

/// Reads are throttled for each reader: one within the throttle of the last read by the same
/// reader changes nothing, whoever else was there meanwhile.
pub proof fn lemma_reads_are_throttled_by_reader(
    before: Readers,
    first: Read,
    others: Seq<Read>,
    again: Read,
)
    requires
        !before.throttles(first),
        forall|i: int| 0 <= i < others.len() ==> (#[trigger] others[i]).actor != first.actor,
        again.actor == first.actor,
        !text_before(first.now, again.cutoff),
    ensures
        before.after(first).after_all(others).after(again) == before.after(first).after_all(others),
{
    lemma_others_keep_last_read(before.after(first), others, first.actor);
}

proof fn lemma_others_keep_last_read(before: Readers, others: Seq<Read>, actor: Seq<char>)
    requires
        before.reads.dom().contains(actor),
        forall|i: int| 0 <= i < others.len() ==> (#[trigger] others[i]).actor != actor,
    ensures
        before.after_all(others).reads.dom().contains(actor),
        before.after_all(others).reads[actor] == before.reads[actor],
    decreases others.len(),
{
    if others.len() > 0 {
        assert(others.last().actor != actor);
        lemma_others_keep_last_read(before, others.drop_last(), actor);
    }
}

/// A read by someone who was not there yet always counts.
pub proof fn lemma_new_reader_counts(before: Readers, read: Read)
    requires
        before.last_read_by != Some(read.actor),
        !before.reads.dom().contains(read.actor),
    ensures
        before.after(read).read_count == before.read_count + 1,
        before.after(read).last_read_by == Some(read.actor),
        before.after(read).last_read_at == Some(read.now),
{
}

/// Appending keeps what was there, at the beginning, and ends with what was appended.
pub proof fn lemma_append_keeps_content(content: Seq<char>, append: Seq<char>)
    ensures
        appended(content, append).len() >= content.len() + append.len(),
        appended(content, append).subrange(0, content.len() as int) == content,
        appended(content, append).subrange(
            appended(content, append).len() - append.len(),
            appended(content, append).len() as int,
        ) == append,
{
    let all = appended(content, append);
    assert(all.subrange(0, content.len() as int) =~= content);
    assert(all.subrange(all.len() - append.len(), all.len() as int) =~= append);
}

/// After a change of its link a document has the link that the event carries, and none where
/// the event carries none, whatever link it had: a link that is followed by an unlinking is
/// gone. Nothing else changes but the time of the update.
pub proof fn lemma_link_is_the_one_of_the_event(
    event: Event,
    doc: Document,
    after: Document,
    other: Option<TaskId>,
    elsewhere: Document,
)
    requires
        event is DocumentTaskLinkChanged,
        is_document_after(event, doc, after),
        is_document_after(event, Document { task_id: other, ..doc }, elsewhere),
    ensures
        event->DocumentTaskLinkChanged_task_id is None ==> after.task_id is None,
        event->DocumentTaskLinkChanged_task_id matches Some(id) ==> after.task_id == Some(id),
        after == elsewhere,
        after.updated_at == event->DocumentTaskLinkChanged_at,
        after.title == doc.title && after.content == doc.content && after.status == doc.status,
        after.archived_at == doc.archived_at && after.trigger_kind == doc.trigger_kind,
        after.consumer == doc.consumer,
{
}

/// After two changes of its link a document has the link of the second one.
pub proof fn lemma_last_link_stays(
    link: Event,
    unlink: Event,
    doc: Document,
    linked: Document,
    after: Document,
)
    requires
        link is DocumentTaskLinkChanged,
        unlink is DocumentTaskLinkChanged,
        is_document_after(link, doc, linked),
        is_document_after(unlink, linked, after),
    ensures
        after.task_id == unlink->DocumentTaskLinkChanged_task_id,
        link->DocumentTaskLinkChanged_task_id is Some && unlink->DocumentTaskLinkChanged_task_id
            is None ==> linked.task_id is Some && after.task_id is None,
{
}

/// A document that gets new content has that, whatever it had; one that gets a new title has
/// that. Nothing else changes but the time of the update.
pub proof fn lemma_replacement_is_complete(event: Event, doc: Document, after: Document)
    requires
        event is DocumentContentReplaced || event is DocumentRenamed,
        is_document_after(event, doc, after),
    ensures
        event is DocumentContentReplaced ==> after.content@
            == event->DocumentContentReplaced_content@ && after.title == doc.title
            && after.updated_at == event->DocumentContentReplaced_at,
        event is DocumentRenamed ==> after.title@ == event->DocumentRenamed_title@
            && after.content == doc.content && after.updated_at == event->DocumentRenamed_at,
        after.status == doc.status && after.archived_at == doc.archived_at,
        after.task_id == doc.task_id && after.trigger_kind == doc.trigger_kind,
        after.consumer == doc.consumer,
{
}

/// What is appended to an empty document is its content. To any other it is added behind
/// what was there, as a paragraph of its own: with an empty line between them. Nothing else
/// changes but the time of the update.
pub proof fn lemma_append_joins_entries(event: Event, doc: Document, after: Document)
    requires
        event is DocumentContentAppended,
        is_document_after(event, doc, after),
    ensures
        ({
            let append = event->DocumentContentAppended_append@;
            &&& doc.content@.len() == 0 ==> after.content@ == append
            &&& doc.content@.len() > 0 ==> after.content@ == doc.content@ + seq!['\n', '\n'] + append
            &&& after.updated_at == event->DocumentContentAppended_at
            &&& after.title == doc.title && after.status == doc.status
            &&& after.archived_at == doc.archived_at && after.task_id == doc.task_id
            &&& after.trigger_kind == doc.trigger_kind && after.consumer == doc.consumer
        }),
{
    reveal_strlit("\n\n");
    assert("\n\n"@ =~= seq!['\n', '\n']);
}

/// A document that is archived is in the archive since the time of the event. One whose
/// state is changed has the state that the event names, whatever it had: in the archive it
/// is dated, with the time that it had there or else that of the event, and out of the
/// archive it is not.
pub proof fn lemma_state_is_the_one_of_the_event(event: Event, doc: Document, after: Document)
    requires
        event is DocumentArchived || event is DocumentStatusChanged,
        is_document_after(event, doc, after),
    ensures
        event is DocumentArchived ==> after.status == DocumentStatus::Archived && after.archived_at
            == Some(event->DocumentArchived_at) && after.updated_at == event->DocumentArchived_at,
        event is DocumentStatusChanged ==> {
            let to = event->DocumentStatusChanged_to;
            let at = event->DocumentStatusChanged_at;
            &&& after.status == to
            &&& after.updated_at == at
            &&& to != DocumentStatus::Archived ==> after.archived_at is None
            &&& to == DocumentStatus::Archived && doc.archived_at is None ==> after.archived_at
                == Some(at)
            &&& to == DocumentStatus::Archived && doc.archived_at is Some ==> after.archived_at
                == doc.archived_at
        },
        after.title == doc.title && after.content == doc.content,
        after.task_id == doc.task_id && after.trigger_kind == doc.trigger_kind,
        after.consumer == doc.consumer,
{
}

/// The six kinds of event that change a stored document name it. Any other event leaves every
/// document as it is.
pub proof fn lemma_events_that_change_a_document(event: Event, doc: Document, after: Document)
    requires
        is_document_after(event, doc, after),
    ensures
        event is DocumentContentReplaced ==> changed_document_id(event) == Some(
            event->DocumentContentReplaced_document_id,
        ),
        event is DocumentContentAppended ==> changed_document_id(event) == Some(
            event->DocumentContentAppended_document_id,
        ),
        event is DocumentRenamed ==> changed_document_id(event) == Some(
            event->DocumentRenamed_document_id,
        ),
        event is DocumentArchived ==> changed_document_id(event) == Some(
            event->DocumentArchived_document_id,
        ),
        event is DocumentStatusChanged ==> changed_document_id(event) == Some(
            event->DocumentStatusChanged_document_id,
        ),
        event is DocumentTaskLinkChanged ==> changed_document_id(event) == Some(
            event->DocumentTaskLinkChanged_document_id,
        ),
        !(event is DocumentContentReplaced || event is DocumentContentAppended
            || event is DocumentRenamed || event is DocumentArchived
            || event is DocumentStatusChanged || event is DocumentTaskLinkChanged)
            ==> changed_document_id(event) is None && after == doc,
{
}

/// A read is counted for the document and the reader that it is marked for, at the time that
/// it is marked with, and its note says the same. Marks of two readers, documents, times or
/// cutoffs differ in nothing else.
pub proof fn lemma_mark_says_who_read_what_and_when(
    mark: ReadMark,
    id: DocumentId,
    actor: Seq<char>,
    now: Timestamp,
    cutoff: Seq<char>,
    other: ReadMark,
    other_cutoff: Seq<char>,
)
    requires
        mark.marks(id, actor, now, cutoff),
        other.marks(id, actor, now, other_cutoff),
    ensures
        mark.note@.binds == seq![sql_id(id), sql_text(actor), sql_time(now)],
        other.note@ == mark.note@,
        other.update@.sql == mark.update@.sql,
        mark.update@.binds[0] == sql_time(now),
        mark.update@.binds[1] == sql_text(actor),
        mark.update@.binds[2] == sql_id(id),
        forall|i: int|
            0 <= i < mark.update@.binds.len() && i != 4 && i != 6 ==> #[trigger] other.update@.binds[i]
                == mark.update@.binds[i],
        mark.update@.binds[3] == sql_text(actor) && mark.update@.binds[4] == sql_text(cutoff),
        mark.update@.binds[5] == sql_text(actor) && mark.update@.binds[6] == sql_text(cutoff),
{
}

/// A stored count is read as it is; what is below zero counts as zero.
pub proof fn lemma_count_is_never_negative(n: i64)
    ensures
        n >= 0 ==> count_value(n) as int == n,
        n < 0 ==> count_value(n) == 0,
{
}

/// Each field of a document has a column of its own: what is written of one that changes is
/// written in its column, and the other columns stay.
pub proof fn lemma_document_has_a_column_for_each_field(record: Document, other: Document)
    ensures
        document_columns(Document { id: other.id, ..record }) == document_columns(record).update(
            0,
            sql_id(other.id),
        ),
        document_columns(Document { project_id: other.project_id, ..record })
            == document_columns(record).update(1, sql_id(other.project_id)),
        document_columns(Document { kind: other.kind, ..record })
            == document_columns(record).update(2, sql_text(other.kind.text())),
        document_columns(Document { title: other.title, ..record })
            == document_columns(record).update(3, sql_text(other.title@)),
        document_columns(Document { content: other.content, ..record })
            == document_columns(record).update(4, sql_text(other.content@)),
        document_columns(Document { created_at: other.created_at, ..record })
            == document_columns(record).update(5, sql_time(other.created_at)),
        document_columns(Document { updated_at: other.updated_at, ..record })
            == document_columns(record).update(6, sql_time(other.updated_at)),
        document_columns(Document { archived_at: other.archived_at, ..record })
            == document_columns(record).update(7, sql_opt_time(other.archived_at)),
        document_columns(Document { last_read_at: other.last_read_at, ..record })
            == document_columns(record).update(8, sql_opt_time(other.last_read_at)),
        document_columns(Document { last_read_by: other.last_read_by, ..record })
            == document_columns(record).update(9, sql_opt_text(opt_text(other.last_read_by))),
        document_columns(Document { read_count: other.read_count, ..record })
            == document_columns(record).update(10, sql_int(other.read_count as i64 as int)),
        document_columns(Document { status: other.status, ..record })
            == document_columns(record).update(11, sql_text(other.status.text())),
        document_columns(Document { task_id: other.task_id, ..record })
            == document_columns(record).update(12, sql_opt_id(other.task_id)),
        document_columns(Document { trigger_kind: other.trigger_kind, ..record })
            == document_columns(record).update(13, sql_opt_text(opt_text(other.trigger_kind))),
        document_columns(Document { consumer: other.consumer, ..record })
            == document_columns(record).update(14, sql_opt_text(opt_text(other.consumer))),
        document_columns(record).len() == 15,
{
}

/// Each field of a document is read from columns of its own: what is read of a row with
/// another value there differs in that field alone.
pub proof fn lemma_document_is_read_field_by_field(
    row: DocumentRow,
    record: Document,
    other_row: DocumentRow,
    other: Document,
)
    requires
        document_read(row, record),
        document_read(other_row, other),
    ensures
        document_read(DocumentRow { id: other_row.id, ..row }, Document { id: other.id, ..record }),
        document_read(
            DocumentRow { project_id: other_row.project_id, ..row },
            Document { project_id: other.project_id, ..record },
        ),
        document_read(
            DocumentRow { kind: other_row.kind, ..row },
            Document { kind: other.kind, ..record },
        ),
        document_read(
            DocumentRow { title: other_row.title, ..row },
            Document { title: other.title, ..record },
        ),
        document_read(
            DocumentRow { content: other_row.content, ..row },
            Document { content: other.content, ..record },
        ),
        document_read(
            DocumentRow { created_at: other_row.created_at, ..row },
            Document { created_at: other.created_at, ..record },
        ),
        document_read(
            DocumentRow { updated_at: other_row.updated_at, ..row },
            Document { updated_at: other.updated_at, ..record },
        ),
        document_read(
            DocumentRow { archived_at: other_row.archived_at, ..row },
            Document { archived_at: other.archived_at, ..record },
        ),
        document_read(
            DocumentRow { last_read_at: other_row.last_read_at, ..row },
            Document { last_read_at: other.last_read_at, ..record },
        ),
        document_read(
            DocumentRow { last_read_by: other_row.last_read_by, ..row },
            Document { last_read_by: other.last_read_by, ..record },
        ),
        document_read(
            DocumentRow { read_count: other_row.read_count, ..row },
            Document { read_count: other.read_count, ..record },
        ),
        document_read(
            DocumentRow { status: other_row.status, ..row },
            Document { status: other.status, ..record },
        ),
        document_read(
            DocumentRow { task_id: other_row.task_id, ..row },
            Document { task_id: other.task_id, ..record },
        ),
        document_read(
            DocumentRow { trigger_kind: other_row.trigger_kind, ..row },
            Document { trigger_kind: other.trigger_kind, ..record },
        ),
        document_read(
            DocumentRow { consumer: other_row.consumer, ..row },
            Document { consumer: other.consumer, ..record },
        ),
{
}

/// A row stores each field of a document in columns of its own: with another value there it
/// stores what differs in that field alone.
pub proof fn lemma_document_is_stored_field_by_field(
    row: DocumentRow,
    record: Document,
    other_row: DocumentRow,
    other: Document,
)
    requires
        row.stores(record),
        other_row.stores(other),
    ensures
        (DocumentRow { id: other_row.id, ..row }).stores(Document { id: other.id, ..record }),
        (DocumentRow { project_id: other_row.project_id, ..row }).stores(
            Document { project_id: other.project_id, ..record },
        ),
        (DocumentRow { kind: other_row.kind, ..row }).stores(
            Document { kind: other.kind, ..record },
        ),
        (DocumentRow { title: other_row.title, ..row }).stores(
            Document { title: other.title, ..record },
        ),
        (DocumentRow { content: other_row.content, ..row }).stores(
            Document { content: other.content, ..record },
        ),
        (DocumentRow { created_at: other_row.created_at, ..row }).stores(
            Document { created_at: other.created_at, ..record },
        ),
        (DocumentRow { updated_at: other_row.updated_at, ..row }).stores(
            Document { updated_at: other.updated_at, ..record },
        ),
        (DocumentRow { archived_at: other_row.archived_at, ..row }).stores(
            Document { archived_at: other.archived_at, ..record },
        ),
        (DocumentRow { last_read_at: other_row.last_read_at, ..row }).stores(
            Document { last_read_at: other.last_read_at, ..record },
        ),
        (DocumentRow { last_read_by: other_row.last_read_by, ..row }).stores(
            Document { last_read_by: other.last_read_by, ..record },
        ),
        (DocumentRow { read_count: other_row.read_count, ..row }).stores(
            Document { read_count: other.read_count, ..record },
        ),
        (DocumentRow { status: other_row.status, ..row }).stores(
            Document { status: other.status, ..record },
        ),
        (DocumentRow { task_id: other_row.task_id, ..row }).stores(
            Document { task_id: other.task_id, ..record },
        ),
        (DocumentRow { trigger_kind: other_row.trigger_kind, ..row }).stores(
            Document { trigger_kind: other.trigger_kind, ..record },
        ),
        (DocumentRow { consumer: other_row.consumer, ..row }).stores(
            Document { consumer: other.consumer, ..record },
        ),
{
}

/// A row of a document without a fault says what is read from it: each identifier, time, state
/// and text stands in it as it is read.
pub proof fn lemma_document_is_what_the_row_says(row: DocumentRow, record: Document)
    requires
        (document_fault(row) is None && document_read(row, record))
            || (row.fault() is None && row.holds(record)),
    ensures
        row.id is Ok
            && crate::ids::id_parsed::<DocumentId>(row.id->Ok_0@) == Ok::<DocumentId, Seq<char>>(
                record.id,
            ),
        row.project_id is Ok
            && crate::ids::id_parsed::<ProjectId>(row.project_id->Ok_0@)
                == Ok::<ProjectId, Seq<char>>(record.project_id),
        row.kind is Ok && row.kind->Ok_0@ == record.kind.text(),
        row.title is Ok && row.title->Ok_0 == record.title,
        row.content is Ok && row.content->Ok_0 == record.content,
        row.created_at is Ok
            && crate::time::rfc3339_parsed(row.created_at->Ok_0@) == Ok::<(i64, u32), Seq<char>>(
                (record.created_at.seconds(), record.created_at.subsec()),
            ),
        row.updated_at is Ok
            && crate::time::rfc3339_parsed(row.updated_at->Ok_0@) == Ok::<(i64, u32), Seq<char>>(
                (record.updated_at.seconds(), record.updated_at.subsec()),
            ),
        row.archived_at is Ok && (row.archived_at->Ok_0 is None <==> record.archived_at is None),
        row.archived_at->Ok_0 matches Some(s)
            ==> crate::time::rfc3339_parsed(s@) == Ok::<(i64, u32), Seq<char>>(
                (record.archived_at->Some_0.seconds(), record.archived_at->Some_0.subsec()),
            ),
        row.last_read_at is Ok && (row.last_read_at->Ok_0 is None <==> record.last_read_at is None),
        row.last_read_at->Ok_0 matches Some(s)
            ==> crate::time::rfc3339_parsed(s@) == Ok::<(i64, u32), Seq<char>>(
                (record.last_read_at->Some_0.seconds(), record.last_read_at->Some_0.subsec()),
            ),
        row.last_read_by is Ok && row.last_read_by->Ok_0 == record.last_read_by,
        row.read_count is Ok,
        row.status is Ok && row.status->Ok_0@ == record.status.text(),
        row.task_id is Ok && (row.task_id->Ok_0 is None <==> record.task_id is None),
        row.task_id->Ok_0 matches Some(s)
            ==> crate::ids::id_parsed::<TaskId>(s@) == Ok::<TaskId, Seq<char>>(
                record.task_id->Some_0,
            ),
        row.trigger_kind is Ok && row.trigger_kind->Ok_0 == record.trigger_kind,
        row.consumer is Ok && row.consumer->Ok_0 == record.consumer,
{
    record.kind.lemma_stored_names(row.kind->Ok_0@);
    crate::time::lemma_time_is_read_from_its_text(row.created_at->Ok_0@);
    crate::time::lemma_time_is_read_from_its_text(row.updated_at->Ok_0@);
    if row.archived_at->Ok_0 is Some {
        crate::time::lemma_time_is_read_from_its_text(row.archived_at->Ok_0->Some_0@);
    }
    if row.last_read_at->Ok_0 is Some {
        crate::time::lemma_time_is_read_from_its_text(row.last_read_at->Ok_0->Some_0@);
    }
    record.status.lemma_stored_names(row.status->Ok_0@);
}

/// A text that stands for no value is reported with the text; one that stands for a value is
/// not reported.
pub proof fn lemma_unknown_document_status_is_reported(v: DocumentStatus, s: Seq<char>)
    ensures
        status_fault(v.text()) is None,
        (forall|w: DocumentStatus| #[trigger] w.text() != s) ==> status_fault(s) == Some(
            ErrorView::Serde("unknown document status: "@ + quoted(s)),
        ),
{
    v.lemma_text_names_value();
    v.lemma_stored_names(s);
}

/// A text that stands for no value is reported with the text; one that stands for a value is
/// not reported.
pub proof fn lemma_unknown_document_kind_is_reported(v: DocumentKind, s: Seq<char>)
    ensures
        kind_fault(v.text()) is None,
        (forall|w: DocumentKind| #[trigger] w.text() != s) ==> kind_fault(s) == Some(
            ErrorView::Serde("unknown document kind: "@ + quoted(s)),
        ),
{
    v.lemma_text_names_value();
    v.lemma_stored_names(s);
}

/// A row of a document is refused for what is wrong with a column, with the error of that
/// column; where nothing is wrong with any, nothing is refused.
pub proof fn lemma_document_is_refused_for_its_columns(row: DocumentRow, other: DocumentRow)
    requires
        document_fault(row) is None,
    ensures
        document_fault(DocumentRow { id: other.id, ..row }) == column_fault(other.id).or_fault(
            id_fault::<DocumentId>(other.id->Ok_0@),
        ),
        document_fault(DocumentRow { project_id: other.project_id, ..row })
            == column_fault(other.project_id).or_fault(
                id_fault::<ProjectId>(other.project_id->Ok_0@),
            ),
        document_fault(DocumentRow { kind: other.kind, ..row })
            == column_fault(other.kind).or_fault(kind_fault(other.kind->Ok_0@)),
        document_fault(DocumentRow { title: other.title, ..row }) == column_fault(other.title),
        document_fault(DocumentRow { content: other.content, ..row }) == column_fault(
            other.content,
        ),
        document_fault(DocumentRow { created_at: other.created_at, ..row })
            == column_fault(other.created_at).or_fault(ts_fault(other.created_at->Ok_0@)),
        document_fault(DocumentRow { updated_at: other.updated_at, ..row })
            == column_fault(other.updated_at).or_fault(ts_fault(other.updated_at->Ok_0@)),
        document_fault(DocumentRow { archived_at: other.archived_at, ..row })
            == column_fault(other.archived_at).or_fault(opt_ts_fault(other.archived_at->Ok_0)),
        document_fault(DocumentRow { last_read_at: other.last_read_at, ..row })
            == column_fault(other.last_read_at).or_fault(opt_ts_fault(other.last_read_at->Ok_0)),
        document_fault(DocumentRow { last_read_by: other.last_read_by, ..row }) == column_fault(
            other.last_read_by,
        ),
        document_fault(DocumentRow { read_count: other.read_count, ..row }) == column_fault(
            other.read_count,
        ),
        document_fault(DocumentRow { status: other.status, ..row })
            == column_fault(other.status).or_fault(status_fault(other.status->Ok_0@)),
        document_fault(DocumentRow { task_id: other.task_id, ..row })
            == column_fault(other.task_id).or_fault(opt_id_fault::<TaskId>(other.task_id->Ok_0)),
        document_fault(DocumentRow { trigger_kind: other.trigger_kind, ..row }) == column_fault(
            other.trigger_kind,
        ),
        document_fault(DocumentRow { consumer: other.consumer, ..row }) == column_fault(
            other.consumer,
        ),
{
}

} // verus!
