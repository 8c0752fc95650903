//! Settings of projects, in the `project_settings` table: one JSON value for each key.
use vstd::prelude::*;

use crate::domain::{AutoAppendSettings, IntakeSourcePolicy};
use crate::error::CoreError;
use crate::events::{Event, EventEnvelope};
use crate::ids::ProjectId;
use crate::query::{
    sql_id, sql_text, sql_time, statement, statements, Bound, BoundView, Query, QueryView,
};
use crate::rows::{
    column, column_fault, opt_parsed, opt_parsed_fault, opt_parsed_value, parsed, parsed_fault,
    Column, Faults, Parsed,
};
use crate::time::Timestamp;

verus! {

pub const AUTO_APPEND_KEY: &'static str = "auto_append";

pub const INTAKE_SOURCE_KEY: &'static str = "intake_source";

pub const GET_SETTING: &'static str = "SELECT value FROM project_settings WHERE project_id = ? AND key = ?";

pub const DELETE_SETTING: &'static str = "DELETE FROM project_settings WHERE project_id = ? AND key = ?";

pub const SET_SETTING: &'static str = "INSERT OR REPLACE INTO project_settings (project_id, key, value, updated_at) \
     VALUES (?, ?, ?, ?)";

/// The settings of projects.
#[derive(Clone, Copy, Debug)]
pub struct ProjectSettingsRepo;

/// The query for a setting.
pub open spec fn setting_query(project_id: ProjectId, key: Seq<char>) -> QueryView {
    statement(GET_SETTING@, seq![sql_id(project_id), sql_text(key)])
}

/// The statement that sets a setting.
pub open spec fn set_setting(
    project_id: ProjectId,
    key: Seq<char>,
    value: BoundView,
    at: Timestamp,
) -> QueryView {
    statement(SET_SETTING@, seq![sql_id(project_id), sql_text(key), value, sql_time(at)])
}

/// The statements for a changed source of intake: nothing where it is not changed.
pub open spec fn intake_change(
    project_id: ProjectId,
    source: Option<Option<IntakeSourcePolicy>>,
    at: Timestamp,
) -> Seq<QueryView> {
    match source {
        None => seq![],
        Some(None) => seq![
            statement(DELETE_SETTING@, seq![sql_id(project_id), sql_text(INTAKE_SOURCE_KEY@)]),
        ],
        Some(Some(policy)) => seq![
            set_setting(project_id, INTAKE_SOURCE_KEY@, sql_text(policy.json@), at),
        ],
    }
}

/// The statements that an event leads to.
pub open spec fn settings_changes(event: Event) -> Seq<QueryView> {
    match event {
        Event::ProjectSettingsChanged { project_id, auto_append, at, intake_source } =>
        intake_change(project_id, intake_source, at) + seq![
            set_setting(project_id, AUTO_APPEND_KEY@, BoundView::AutoAppend(auto_append), at),
        ],
        _ => seq![],
    }
}

impl ProjectSettingsRepo {
    /// The query for what is appended to a project's documents by itself.
    pub fn auto_append(project_id: &ProjectId) -> (q: Query)
        ensures
            q@ == setting_query(*project_id, AUTO_APPEND_KEY@),
    {
        Query::new(GET_SETTING).id(project_id).text(AUTO_APPEND_KEY)
    }

    /// What is appended to a project's documents by itself: everything, where nothing is
    /// set.
    pub fn read_auto_append(row: Option<Column<Parsed<AutoAppendSettings>>>) -> (r: Result<
        AutoAppendSettings,
        CoreError,
    >)
        ensures
            match row {
                None => r is Ok && r->Ok_0 == (AutoAppendSettings {
                    interview: true,
                    human_log: true,
                }),
                Some(value) => match column_fault(value).or_fault(parsed_fault(value->Ok_0)) {
                    Some(e) => r is Err && r->Err_0@ == e,
                    None => r is Ok && r->Ok_0 == value->Ok_0->Ok_0,
                },
            },
    {
        match row {
            None => Ok(AutoAppendSettings::default()),
            Some(value) => {
                let value = column(value)?;
                parsed(value)
            },
        }
    }

    /// The query for where a project's plans come from.
    pub fn intake_source(project_id: &ProjectId) -> (q: Query)
        ensures
            q@ == setting_query(*project_id, INTAKE_SOURCE_KEY@),
    {
        Query::new(GET_SETTING).id(project_id).text(INTAKE_SOURCE_KEY)
    }

    /// Where a project's plans come from: nothing, where nothing is set.
    pub fn read_intake_source(value: Option<Parsed<IntakeSourcePolicy>>) -> (r: Result<
        Option<IntakeSourcePolicy>,
        CoreError,
    >)
        ensures
            match opt_parsed_fault(value) {
                Some(e) => r is Err && r->Err_0@ == e,
                None => r is Ok && r->Ok_0 == opt_parsed_value(value),
            },
    {
        opt_parsed(value)
    }

    /// The statements that apply an event to the settings.
    pub fn apply_event(env: &EventEnvelope) -> (r: Vec<Query>)
        ensures
            statements(r@) == settings_changes(env.payload),
    {
        let mut out: Vec<Query> = Vec::new();
        if let Event::ProjectSettingsChanged { project_id, auto_append, at, intake_source }
            = &env.payload {
            match intake_source {
                None => {},
                Some(None) => {
                    let q = Query::new(DELETE_SETTING).id(project_id).text(INTAKE_SOURCE_KEY);
                    assert(q@.binds =~= seq![sql_id(*project_id), sql_text(INTAKE_SOURCE_KEY@)]);
                    out.push(q);
                },
                Some(Some(policy)) => {
                    let q = Query::new(SET_SETTING)
                        .id(project_id)
                        .text(INTAKE_SOURCE_KEY)
                        .text(policy.json.as_str())
                        .time(at);
                    assert(q@.binds =~= seq![
                        sql_id(*project_id),
                        sql_text(INTAKE_SOURCE_KEY@),
                        sql_text(policy.json@),
                        sql_time(*at),
                    ]);
                    out.push(q);
                },
            }
            assert(statements(out@) =~= intake_change(*project_id, *intake_source, *at));
            let q = Query::new(SET_SETTING)
                .id(project_id)
                .text(AUTO_APPEND_KEY)
                .bind(Bound::AutoAppend(*auto_append))
                .time(at);
            assert(q@.binds =~= seq![
                sql_id(*project_id),
                sql_text(AUTO_APPEND_KEY@),
                BoundView::AutoAppend(*auto_append),
                sql_time(*at),
            ]);
            out.push(q);
        }
        assert(statements(out@) =~= settings_changes(env.payload));
        out
    }
}

// ── laws ────────────────────────────────────────────────────────────────────

/// An event about settings never leaves a project without settings for what is appended,
/// and touches the source of its plans exactly if it names it.
pub proof fn lemma_settings_event_sets_auto_append(event: Event)
    requires
        event is ProjectSettingsChanged,
    ensures
        settings_changes(event).len() == if event->ProjectSettingsChanged_intake_source is None {
            1
        } else {
            2nat
        },
        settings_changes(event).last() == set_setting(
            event->ProjectSettingsChanged_project_id,
            AUTO_APPEND_KEY@,
            BoundView::AutoAppend(event->ProjectSettingsChanged_auto_append),
            event->ProjectSettingsChanged_at,
        ),
{
}

/// A source of intake that is not mentioned is left as it is, one that is taken away is
/// deleted, and one that is given is set as it is given. Settings are written for the project
/// of the event, under their own keys and at the time of the event.
pub proof fn lemma_settings_are_those_of_the_event(event: Event)
    ensures
        ({
            let made = settings_changes(event);
            &&& !(event is ProjectSettingsChanged) ==> made.len() == 0
            &&& event matches Event::ProjectSettingsChanged {
                project_id,
                auto_append,
                at,
                intake_source,
            } ==> {
                &&& made.len() == if intake_source is None {
                    1int
                } else {
                    2
                }
                &&& made.last().sql == SET_SETTING@
                &&& made.last().binds == seq![
                    sql_id(project_id),
                    sql_text(AUTO_APPEND_KEY@),
                    BoundView::AutoAppend(auto_append),
                    sql_time(at),
                ]
                &&& intake_source == Some(None::<IntakeSourcePolicy>) ==> made[0].sql
                    == DELETE_SETTING@ && made[0].binds == seq![
                    sql_id(project_id),
                    sql_text(INTAKE_SOURCE_KEY@),
                ]
                &&& intake_source matches Some(Some(policy)) ==> made[0].sql == SET_SETTING@
                    && made[0].binds == seq![
                    sql_id(project_id),
                    sql_text(INTAKE_SOURCE_KEY@),
                    sql_text(policy.json@),
                    sql_time(at),
                ]
            }
        }),
{
}

/// A setting is asked for by the project and the key under which it is set.
pub proof fn lemma_setting_is_asked_for_as_it_is_set(
    project_id: ProjectId,
    key: Seq<char>,
    value: BoundView,
    at: Timestamp,
)
    ensures
        setting_query(project_id, key).binds == set_setting(project_id, key, value, at).binds.take(
            2,
        ),
        set_setting(project_id, key, value, at).binds[2] == value,
        setting_query(project_id, key).binds == seq![sql_id(project_id), sql_text(key)],
{
    assert(setting_query(project_id, key).binds =~= set_setting(
        project_id,
        key,
        value,
        at,
    ).binds.take(2));
}

} // verus!
