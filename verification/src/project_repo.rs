//! Projects, in the `projects` table, and the names under which they used to be known.
use vstd::prelude::*;

use crate::domain::{Project, DEFAULT_TENANT_ID};
use crate::error::{CoreError, ErrorView};
use crate::events::{Event, EventEnvelope};
use crate::ids::{id_fault, id_value, parse_id, ProjectId};
use crate::query::{
    sql_id, sql_opt_text, sql_text, sql_time, statement, statements, Bound, BoundView, Query,
    QueryView,
};
use crate::rows::{column, column_fault, has_bool, has_opt_text, has_text, Column, Decode, Faults};
use crate::text::{copy_opt, opt_text};
use crate::time::{parse_ts, ts_fault, ts_value, Timestamp};

verus! {

/// The project projection.
#[derive(Clone, Copy, Debug)]
pub struct ProjectRepo;

pub const LIST_PROJECTS: &'static str = "SELECT id, tenant_id, slug, title, description, triage_enabled, created_at, updated_at \
     FROM projects ORDER BY created_at ASC";

pub const LIST_TENANT_PROJECTS: &'static str = "SELECT id, tenant_id, slug, title, description, triage_enabled, created_at, updated_at \
     FROM projects WHERE tenant_id = ? ORDER BY created_at ASC";

pub const GET_PROJECT: &'static str = "SELECT id, tenant_id, slug, title, description, triage_enabled, created_at, updated_at \
     FROM projects WHERE id = ?";

pub const FIND_BY_SLUG: &'static str = "SELECT id, tenant_id, slug, title, description, triage_enabled, created_at, updated_at FROM ( \
     SELECT 0 AS rank, id, tenant_id, slug, title, description, triage_enabled, created_at, updated_at \
     FROM projects WHERE slug = ? \
     UNION ALL \
     SELECT 1 AS rank, p.id, p.tenant_id, p.slug, p.title, p.description, p.triage_enabled, p.created_at, p.updated_at \
     FROM project_identifier_aliases a \
     JOIN projects p ON p.id = a.project_id \
     WHERE a.alias = ? \
     ) ORDER BY rank ASC LIMIT 1";

pub const DELETE_PROJECT: &'static str = "DELETE FROM projects WHERE id = ?";

pub const SET_TRIAGE: &'static str = "UPDATE projects SET triage_enabled = ?, updated_at = ? WHERE id = ?";

pub const UPSERT_PROJECT: &'static str = "INSERT OR REPLACE INTO projects \
     (id, tenant_id, slug, title, description, triage_enabled, created_at, updated_at) \
     VALUES (?, ?, ?, ?, ?, ?, ?, ?)";

pub const INSERT_ALIAS: &'static str = "INSERT OR IGNORE INTO project_identifier_aliases (alias, project_id, created_at) \
     VALUES (?, ?, ?)";

// ── rows ────────────────────────────────────────────────────────────────────

/// The tenant of a project, as it is written: the default one where none is given.
pub open spec fn tenant_of(project: Project) -> Seq<char> {
    match project.tenant_id {
        Some(tenant_id) => tenant_id@,
        None => DEFAULT_TENANT_ID@,
    }
}

/// A row of the `projects` table.
#[derive(Debug, PartialEq, Eq)]
pub struct ProjectRow {
    pub id: Column<String>,
    pub tenant_id: Column<Option<String>>,
    pub slug: Column<String>,
    pub title: Column<String>,
    pub description: Column<Option<String>>,
    pub triage_enabled: Column<bool>,
    pub created_at: Column<String>,
    pub updated_at: Column<String>,
}

/// What is wrong with a project row, where something is: the columns and their
/// values are looked at in this order.
pub open spec fn project_fault(row: ProjectRow) -> Option<ErrorView> {
    column_fault(row.id).or_fault(
        column_fault(row.slug),
    ).or_fault(
        column_fault(row.tenant_id),
    ).or_fault(
        column_fault(row.title),
    ).or_fault(
        column_fault(row.description),
    ).or_fault(
        column_fault(row.triage_enabled),
    ).or_fault(
        column_fault(row.created_at),
    ).or_fault(
        column_fault(row.updated_at),
    ).or_fault(
        id_fault::<ProjectId>(row.id->Ok_0@),
    ).or_fault(
        ts_fault(row.created_at->Ok_0@),
    ).or_fault(
        ts_fault(row.updated_at->Ok_0@),
    )
}

/// The record is what a sound project row says.
pub open spec fn project_read(row: ProjectRow, record: Project) -> bool {
    &&& record.id == id_value::<ProjectId>(row.id->Ok_0@)
    &&& record.tenant_id == row.tenant_id->Ok_0
    &&& record.slug == row.slug->Ok_0
    &&& record.title == row.title->Ok_0
    &&& record.description == row.description->Ok_0
    &&& record.triage_enabled == row.triage_enabled->Ok_0
    &&& record.created_at == ts_value(row.created_at->Ok_0@)
    &&& record.updated_at == ts_value(row.updated_at->Ok_0@)
}

/// Reads a project from its row.
pub fn row_to_project(row: ProjectRow) -> (r: Result<Project, CoreError>)
    ensures
        match project_fault(row) {
            Some(e) => r is Err && r->Err_0@ == e,
            None => r is Ok && project_read(row, r->Ok_0),
        },
{
    let id = column(row.id)?;
    let slug = column(row.slug)?;
    let tenant_id = column(row.tenant_id)?;
    let title = column(row.title)?;
    let description = column(row.description)?;
    let triage_enabled = column(row.triage_enabled)?;
    let created_at = column(row.created_at)?;
    let updated_at = column(row.updated_at)?;
    let id = parse_id::<ProjectId>(id.as_str())?;
    let created_at = parse_ts(created_at.as_str())?;
    let updated_at = parse_ts(updated_at.as_str())?;
    Ok(Project {
        id,
        tenant_id,
        slug,
        title,
        description,
        triage_enabled,
        created_at,
        updated_at,
    })
}

impl Decode for ProjectRow {
    type Record = Project;

    open spec fn fault(&self) -> Option<ErrorView> {
        project_fault(*self)
    }

    open spec fn holds(&self, record: Project) -> bool {
        project_read(*self, record)
    }

    fn decode(self) -> (r: Result<Project, CoreError>) {
        row_to_project(self)
    }
}

/// The columns of a project, in the order in which they are written.
pub open spec fn project_columns(record: Project) -> Seq<BoundView> {
    seq![
        sql_id(record.id),
        sql_text(tenant_of(record)),
        sql_text(record.slug@),
        sql_text(record.title@),
        sql_opt_text(opt_text(record.description)),
        BoundView::Bool(record.triage_enabled),
        sql_time(record.created_at),
        sql_time(record.updated_at),
    ]
}

impl ProjectRow {
    /// Each column of the row holds what is written for it of the record.
    pub open spec fn stores(self, record: Project) -> bool {
        &&& has_text(self.id, sql_id(record.id))
        &&& has_opt_text(self.tenant_id, sql_text(tenant_of(record)))
        &&& has_text(self.slug, sql_text(record.slug@))
        &&& has_text(self.title, sql_text(record.title@))
        &&& has_opt_text(self.description, sql_opt_text(opt_text(record.description)))
        &&& has_bool(self.triage_enabled, BoundView::Bool(record.triage_enabled))
        &&& has_text(self.created_at, sql_time(record.created_at))
        &&& has_text(self.updated_at, sql_time(record.updated_at))
    }
}

impl Project {
    /// The two records agree in every field; a project without a tenant is one of the
    /// default tenant.
    pub open spec fn same(self, other: Project) -> bool {
        &&& self.id == other.id
        &&& tenant_of(self) == tenant_of(other)
        &&& self.slug@ == other.slug@
        &&& self.title@ == other.title@
        &&& opt_text(self.description) == opt_text(other.description)
        &&& self.triage_enabled == other.triage_enabled
        &&& self.created_at == other.created_at
        &&& self.updated_at == other.updated_at
    }

    /// Every point in time of the record has an RFC 3339 text that reads back.
    pub open spec fn is_plain(self) -> bool {
        &&& self.created_at.is_plain()
        &&& self.updated_at.is_plain()
    }
}

// ── what events do to projects ──────────────────────────────────────────────

/// What an event asks of the projects.
#[derive(Clone, Debug, PartialEq, Eq)]
pub enum ProjectStep {
    /// The event is none about projects.
    Ignore,
    /// Execute this statement.
    Run { statement: Query },
    /// Load the project, and execute what [`ProjectRepo::loaded`] gives.
    Update { load: Query },
}

/// The statement that keeps a name of a project.
pub open spec fn alias_insert(alias: Seq<char>, project_id: ProjectId, at: Timestamp) -> QueryView {
    statement(INSERT_ALIAS@, seq![sql_text(alias), sql_id(project_id), sql_time(at)])
}

/// The project with a new title and description, where they are given.
pub open spec fn changed(
    project: Project,
    title: Option<String>,
    description: Option<Option<String>>,
    at: Timestamp,
) -> Project {
    Project {
        title: match title {
            Some(t) => t,
            None => project.title,
        },
        description: match description {
            Some(d) => d,
            None => project.description,
        },
        updated_at: at,
        ..project
    }
}

/// The names that are kept of a project that gets a new title: its slug, and the slugs of
/// the old title and the new one.
pub open spec fn kept_names(
    project: Project,
    title: Option<String>,
    old_title_slug: Seq<char>,
    new_title_slug: Seq<char>,
    at: Timestamp,
) -> Seq<QueryView> {
    match title {
        Some(_) => seq![
            alias_insert(project.slug@, project.id, at),
            alias_insert(old_title_slug, project.id, at),
            alias_insert(new_title_slug, project.id, at),
        ],
        None => seq![],
    }
}

impl ProjectRepo {
    /// The query for all projects, in the order of their creation.
    pub fn list_all() -> (q: Query)
        ensures
            q@ == statement(LIST_PROJECTS@, seq![]),
    {
        Query::new(LIST_PROJECTS)
    }

    /// The query for the projects of a tenant, in the order of their creation.
    pub fn list_by_tenant(tenant_id: &str) -> (q: Query)
        ensures
            q@ == statement(LIST_TENANT_PROJECTS@, seq![sql_text(tenant_id@)]),
    {
        Query::new(LIST_TENANT_PROJECTS).text(tenant_id)
    }

    /// The query for a project.
    pub fn get(id: &ProjectId) -> (q: Query)
        ensures
            q@ == statement(GET_PROJECT@, seq![sql_id(*id)]),
    {
        Query::new(GET_PROJECT).id(id)
    }

    /// The query for the project with a slug, or that used to be known by it.
    pub fn find_by_slug(slug: &str) -> (q: Query)
        ensures
            q@ == statement(FIND_BY_SLUG@, seq![sql_text(slug@), sql_text(slug@)]),
    {
        Query::new(FIND_BY_SLUG).text(slug).text(slug)
    }

    /// The statement that writes a project. What it writes reads back.
    pub fn upsert_project(project: &Project) -> (q: Query)
        ensures
            q@ == statement(UPSERT_PROJECT@, project_columns(*project)),
            project.is_plain() ==> forall|row: ProjectRow|
                #[trigger] row.stores(*project) ==> project_fault(row) is None && forall|record: Project|
                    project_read(row, record) ==> record.same(*project),
    {
        let tenant_id = match &project.tenant_id {
            Some(tenant_id) => tenant_id.as_str(),
            None => DEFAULT_TENANT_ID,
        };
        Query::new(UPSERT_PROJECT)
            .id(&project.id)
            .text(tenant_id)
            .text(project.slug.as_str())
            .text(project.title.as_str())
            .opt_text(&project.description)
            .bind(Bound::Bool(project.triage_enabled))
            .time(&project.created_at)
            .time(&project.updated_at)
    }

    fn insert_alias(alias: &str, project_id: &ProjectId, created_at: &Timestamp) -> (q: Query)
        ensures
            q@ == alias_insert(alias@, *project_id, *created_at),
    {
        Query::new(INSERT_ALIAS).text(alias).id(project_id).time(created_at)
    }

    /// What an event asks of the projects. What is written of a project reads back.
    pub fn apply_event(envelope: &EventEnvelope) -> (r: ProjectStep)
        ensures
            match envelope.payload {
                Event::ProjectCreated { project } => r matches ProjectStep::Run { statement: s }
                    && s@ == statement(UPSERT_PROJECT@, project_columns(project)),
                Event::ProjectUpdated { project_id, .. } => r matches ProjectStep::Update { load }
                    && load@ == statement(GET_PROJECT@, seq![sql_id(project_id)]),
                Event::ProjectDeleted { project_id } => r matches ProjectStep::Run { statement: s }
                    && s@ == statement(DELETE_PROJECT@, seq![sql_id(project_id)]),
                _ => r is Ignore,
            },
            envelope.payload matches Event::ProjectCreated { project } ==> project.is_plain()
                ==> forall|row: ProjectRow| #[trigger]
                row.stores(project) ==> project_fault(row) is None && forall|record: Project|
                    project_read(row, record) ==> record.same(project),
    {
        match &envelope.payload {
            Event::ProjectCreated { project } => ProjectStep::Run {
                statement: ProjectRepo::upsert_project(project),
            },
            Event::ProjectUpdated { project_id, .. } => ProjectStep::Update {
                load: ProjectRepo::get(project_id),
            },
            Event::ProjectDeleted { project_id } => ProjectStep::Run {
                statement: ProjectRepo::delete(project_id),
            },
            _ => ProjectStep::Ignore,
        }
    }

    /// The statements that an update makes of what was found of its project; none where no
    /// project was found.
    pub fn loaded(
        found: Option<Project>,
        title: &Option<String>,
        description: &Option<Option<String>>,
        old_title_slug: &str,
        new_title_slug: &str,
        occurred_at: &Timestamp,
    ) -> (r: Vec<Query>)
        ensures
            statements(r@) == match found {
                Some(project) => kept_names(
                    project,
                    *title,
                    old_title_slug@,
                    new_title_slug@,
                    *occurred_at,
                ).push(
                    statement(
                        UPSERT_PROJECT@,
                        project_columns(changed(project, *title, *description, *occurred_at)),
                    ),
                ),
                None => Seq::<QueryView>::empty(),
            },
    {
        match found {
            Some(project) => ProjectRepo::updated(
                project,
                title,
                description,
                old_title_slug,
                new_title_slug,
                occurred_at,
            ).0,
            None => {
                let none: Vec<Query> = Vec::new();
                assert(statements(none@) =~= Seq::<QueryView>::empty());
                none
            },
        }
    }

    /// The statements that write a project with a new title or description, and the project
    /// that they write. With a new title its old names are kept.
    pub fn updated(
        project: Project,
        title: &Option<String>,
        description: &Option<Option<String>>,
        old_title_slug: &str,
        new_title_slug: &str,
        occurred_at: &Timestamp,
    ) -> (r: (Vec<Query>, Project))
        ensures
            r.1 == changed(project, *title, *description, *occurred_at),
            statements(r.0@) == kept_names(
                project,
                *title,
                old_title_slug@,
                new_title_slug@,
                *occurred_at,
            ).push(statement(UPSERT_PROJECT@, project_columns(r.1))),
    {
        let ghost given = project;
        let mut project = project;
        let mut out: Vec<Query> = Vec::new();
        if let Some(t) = title {
            out.push(ProjectRepo::insert_alias(project.slug.as_str(), &project.id, occurred_at));
            out.push(ProjectRepo::insert_alias(old_title_slug, &project.id, occurred_at));
            out.push(ProjectRepo::insert_alias(new_title_slug, &project.id, occurred_at));
            project.title = t.clone();
        }
        assert(statements(out@) =~= kept_names(
            given,
            *title,
            old_title_slug@,
            new_title_slug@,
            *occurred_at,
        ));
        if let Some(d) = description {
            project.description = copy_opt(d);
        }
        project.updated_at = *occurred_at;
        let ghost before = out@;
        let upsert = ProjectRepo::upsert_project(&project);
        out.push(upsert);
        assert(statements(out@) =~= statements(before).push(upsert@));
        (out, project)
    }

    /// The statement that deletes a project.
    pub fn delete(id: &ProjectId) -> (q: Query)
        ensures
            q@ == statement(DELETE_PROJECT@, seq![sql_id(*id)]),
    {
        Query::new(DELETE_PROJECT).id(id)
    }

    /// Whether there was a project that was deleted.
    pub fn was_deleted(rows_affected: u64) -> (r: bool)
        ensures
            r == (rows_affected > 0),
    {
        rows_affected > 0
    }

    /// The statement that switches triage on or off.
    pub fn set_triage_enabled(id: &ProjectId, enabled: bool, now: &Timestamp) -> (q: Query)
        ensures
            q@ == statement(SET_TRIAGE@, seq![BoundView::Bool(enabled), sql_time(*now), sql_id(*id)]),
    {
        Query::new(SET_TRIAGE).bind(Bound::Bool(enabled)).time(now).id(id)
    }

    /// The query for the project whose triage was switched; none where there is no such
    /// project.
    pub fn after_triage(rows_affected: u64, id: &ProjectId) -> (r: Option<Query>)
        ensures
            rows_affected == 0 ==> r is None,
            rows_affected != 0 ==> r is Some && r->Some_0@ == statement(
                GET_PROJECT@,
                seq![sql_id(*id)],
            ),
    {
        if rows_affected == 0 {
            return None;
        }
        Some(ProjectRepo::get(id))
    }
}

// ── laws ────────────────────────────────────────────────────────────────────

/// A project keeps its slug, its tenant and the time of its creation, whatever is changed
/// of it, and a change that names nothing changes the time of the last change alone.
pub proof fn lemma_change_keeps_slug(
    project: Project,
    title: Option<String>,
    description: Option<Option<String>>,
    at: Timestamp,
)
    ensures
        changed(project, title, description, at).id == project.id,
        changed(project, title, description, at).slug == project.slug,
        changed(project, title, description, at).tenant_id == project.tenant_id,
        changed(project, title, description, at).created_at == project.created_at,
        changed(project, None, None, at) == (Project { updated_at: at, ..project }),
{
}

/// A project has the title and the description that it was given last; what is not given
/// stays. A description can be taken away. Nothing else changes but the time of the change.
pub proof fn lemma_given_title_and_description_stay(
    project: Project,
    title: Option<String>,
    description: Option<Option<String>>,
    at: Timestamp,
)
    ensures
        ({
            let after = changed(project, title, description, at);
            &&& title matches Some(t) ==> after.title == t
            &&& title is None ==> after.title == project.title
            &&& description == Some(None::<String>) ==> after.description is None
            &&& description matches Some(Some(d)) ==> after.description == Some(d)
            &&& description is None ==> after.description == project.description
            &&& after.updated_at == at
            &&& after.id == project.id
            &&& after.tenant_id == project.tenant_id
            &&& after.slug == project.slug
            &&& after.triage_enabled == project.triage_enabled
            &&& after.created_at == project.created_at
        }),
{
}

/// A project that gets a new title is found under its slug and under those of the old and
/// the new title from then on; without a new title no name is kept.
pub proof fn lemma_names_of_a_retitled_project(
    project: Project,
    title: Option<String>,
    old_title_slug: Seq<char>,
    new_title_slug: Seq<char>,
    at: Timestamp,
)
    ensures
        ({
            let kept = kept_names(project, title, old_title_slug, new_title_slug, at);
            let rest = seq![sql_id(project.id), sql_time(at)];
            &&& title is None ==> kept.len() == 0
            &&& title is Some ==> kept.len() == 3 && forall|i: int|
                0 <= i < 3 ==> (#[trigger] kept[i]).sql == INSERT_ALIAS@ && kept[i].binds.len() == 3
                    && kept[i].binds.skip(1) == rest
            &&& title is Some ==> kept[0].binds[0] == sql_text(project.slug@)
            &&& title is Some ==> kept[1].binds[0] == sql_text(old_title_slug)
            &&& title is Some ==> kept[2].binds[0] == sql_text(new_title_slug)
        }),
{
    let kept = kept_names(project, title, old_title_slug, new_title_slug, at);
    if title is Some {
        assert forall|i: int| 0 <= i < 3 implies (#[trigger] kept[i]).binds.skip(1) == seq![
            sql_id(project.id),
            sql_time(at),
        ] by {
            assert(kept[i].binds.skip(1) =~= seq![sql_id(project.id), sql_time(at)]);
        }
    }
}

/// A project belongs to the tenant that it names, and to the default one where it names none.
pub proof fn lemma_project_belongs_to_a_tenant(project: Project)
    ensures
        project.tenant_id matches Some(tenant) ==> tenant_of(project) == tenant@,
        project.tenant_id is None ==> tenant_of(project) == DEFAULT_TENANT_ID@,
{
}

/// Each field of a project has a column of its own: what is written of one that changes is
/// written in its column, and the other columns stay.
pub proof fn lemma_project_has_a_column_for_each_field(record: Project, other: Project)
    ensures
        project_columns(Project { id: other.id, ..record }) == project_columns(record).update(
            0,
            sql_id(other.id),
        ),
        project_columns(Project { tenant_id: other.tenant_id, ..record })
            == project_columns(record).update(1, sql_text(tenant_of(other))),
        project_columns(Project { slug: other.slug, ..record }) == project_columns(record).update(
            2,
            sql_text(other.slug@),
        ),
        project_columns(Project { title: other.title, ..record }) == project_columns(record).update(
            3,
            sql_text(other.title@),
        ),
        project_columns(Project { description: other.description, ..record })
            == project_columns(record).update(4, sql_opt_text(opt_text(other.description))),
        project_columns(Project { triage_enabled: other.triage_enabled, ..record })
            == project_columns(record).update(5, BoundView::Bool(other.triage_enabled)),
        project_columns(Project { created_at: other.created_at, ..record })
            == project_columns(record).update(6, sql_time(other.created_at)),
        project_columns(Project { updated_at: other.updated_at, ..record })
            == project_columns(record).update(7, sql_time(other.updated_at)),
        project_columns(record).len() == 8,
{
}

/// Each field of a project is read from columns of its own: what is read of a row with another
/// value there differs in that field alone.
pub proof fn lemma_project_is_read_field_by_field(
    row: ProjectRow,
    record: Project,
    other_row: ProjectRow,
    other: Project,
)
    requires
        project_read(row, record),
        project_read(other_row, other),
    ensures
        project_read(ProjectRow { id: other_row.id, ..row }, Project { id: other.id, ..record }),
        project_read(
            ProjectRow { tenant_id: other_row.tenant_id, ..row },
            Project { tenant_id: other.tenant_id, ..record },
        ),
        project_read(
            ProjectRow { slug: other_row.slug, ..row },
            Project { slug: other.slug, ..record },
        ),
        project_read(
            ProjectRow { title: other_row.title, ..row },
            Project { title: other.title, ..record },
        ),
        project_read(
            ProjectRow { description: other_row.description, ..row },
            Project { description: other.description, ..record },
        ),
        project_read(
            ProjectRow { triage_enabled: other_row.triage_enabled, ..row },
            Project { triage_enabled: other.triage_enabled, ..record },
        ),
        project_read(
            ProjectRow { created_at: other_row.created_at, ..row },
            Project { created_at: other.created_at, ..record },
        ),
        project_read(
            ProjectRow { updated_at: other_row.updated_at, ..row },
            Project { updated_at: other.updated_at, ..record },
        ),
{
}

/// A row stores each field of a project in columns of its own: with another value there it
/// stores what differs in that field alone.
pub proof fn lemma_project_is_stored_field_by_field(
    row: ProjectRow,
    record: Project,
    other_row: ProjectRow,
    other: Project,
)
    requires
        row.stores(record),
        other_row.stores(other),
    ensures
        (ProjectRow { id: other_row.id, ..row }).stores(Project { id: other.id, ..record }),
        (ProjectRow { tenant_id: other_row.tenant_id, ..row }).stores(
            Project { tenant_id: other.tenant_id, ..record },
        ),
        (ProjectRow { slug: other_row.slug, ..row }).stores(Project { slug: other.slug, ..record }),
        (ProjectRow { title: other_row.title, ..row }).stores(
            Project { title: other.title, ..record },
        ),
        (ProjectRow { description: other_row.description, ..row }).stores(
            Project { description: other.description, ..record },
        ),
        (ProjectRow { triage_enabled: other_row.triage_enabled, ..row }).stores(
            Project { triage_enabled: other.triage_enabled, ..record },
        ),
        (ProjectRow { created_at: other_row.created_at, ..row }).stores(
            Project { created_at: other.created_at, ..record },
        ),
        (ProjectRow { updated_at: other_row.updated_at, ..row }).stores(
            Project { updated_at: other.updated_at, ..record },
        ),
{
}

/// A row of a project without a fault says what is read from it: each identifier, time, state
/// and text stands in it as it is read.
pub proof fn lemma_project_is_what_the_row_says(row: ProjectRow, record: Project)
    requires
        (project_fault(row) is None && project_read(row, record))
            || (row.fault() is None && row.holds(record)),
    ensures
        row.id is Ok
            && crate::ids::id_parsed::<ProjectId>(row.id->Ok_0@) == Ok::<ProjectId, Seq<char>>(
                record.id,
            ),
        row.tenant_id is Ok && row.tenant_id->Ok_0 == record.tenant_id,
        row.slug is Ok && row.slug->Ok_0 == record.slug,
        row.title is Ok && row.title->Ok_0 == record.title,
        row.description is Ok && row.description->Ok_0 == record.description,
        row.triage_enabled is Ok && row.triage_enabled->Ok_0 == record.triage_enabled,
        row.created_at is Ok
            && crate::time::rfc3339_parsed(row.created_at->Ok_0@) == Ok::<(i64, u32), Seq<char>>(
                (record.created_at.seconds(), record.created_at.subsec()),
            ),
        row.updated_at is Ok
            && crate::time::rfc3339_parsed(row.updated_at->Ok_0@) == Ok::<(i64, u32), Seq<char>>(
                (record.updated_at.seconds(), record.updated_at.subsec()),
            ),
{
    crate::time::lemma_time_is_read_from_its_text(row.created_at->Ok_0@);
    crate::time::lemma_time_is_read_from_its_text(row.updated_at->Ok_0@);
}

/// A row of a project is refused for what is wrong with a column, with the error of that
/// column; where nothing is wrong with any, nothing is refused.
pub proof fn lemma_project_is_refused_for_its_columns(row: ProjectRow, other: ProjectRow)
    requires
        project_fault(row) is None,
    ensures
        project_fault(ProjectRow { id: other.id, ..row }) == column_fault(other.id).or_fault(
            id_fault::<ProjectId>(other.id->Ok_0@),
        ),
        project_fault(ProjectRow { slug: other.slug, ..row }) == column_fault(other.slug),
        project_fault(ProjectRow { tenant_id: other.tenant_id, ..row }) == column_fault(
            other.tenant_id,
        ),
        project_fault(ProjectRow { title: other.title, ..row }) == column_fault(other.title),
        project_fault(ProjectRow { description: other.description, ..row }) == column_fault(
            other.description,
        ),
        project_fault(ProjectRow { triage_enabled: other.triage_enabled, ..row }) == column_fault(
            other.triage_enabled,
        ),
        project_fault(ProjectRow { created_at: other.created_at, ..row })
            == column_fault(other.created_at).or_fault(ts_fault(other.created_at->Ok_0@)),
        project_fault(ProjectRow { updated_at: other.updated_at, ..row })
            == column_fault(other.updated_at).or_fault(ts_fault(other.updated_at->Ok_0@)),
{
}

} // verus!
