//! Plain values, versions of records and the rules that need no database.

use daruma_storage::activity_repo::{ActivityRepo, ActivityStep, ProjectIdRow, ProjectSource};
use daruma_storage::artifact_repo;
use daruma_storage::audit_finding_repo::{self, entity_key, FindingFilter};
use daruma_storage::capability_profile_repo::Signal;
use daruma_storage::claim_repo::{AgentClaimRepo, ClaimKey, ClaimOutcome};
use daruma_storage::comment_repo::parse_comment_kind;
use daruma_storage::document_repo;
use daruma_storage::domain::{
    Actor, AutoAppendSettings, EvidenceKind, EvidenceReach, NewTask, RuleMode, RuleScope,
    RuleTrigger, Status, Verb,
};
use daruma_storage::entity_version::{
    changed_fields, clamp_limit, field_diff, mark_diff, normalize_entity_id, rollback_update,
    sha256_digest, summary_value, unified_text_diff, update_summary, validate_entity_type, DiffRow,
    EntityVersionRepo, VersionDraft, VersionStep,
};
use daruma_storage::error::CoreError;
use daruma_storage::events::{Event, EventEnvelope};
use daruma_storage::evidence_repo::{
    self, parse_evidence_kind, parse_version, reachable, EvidenceCheck,
};
use daruma_storage::handoff_repo::{self, parse_handoff_status};
use daruma_storage::ids::{
    parse_id, parse_opt_id, print_id, ActivityId, AgentId, ClaimId, DocumentId, EventId, PlanId, ProjectId,
    TaskId,
};
use daruma_storage::json::{parse_json, parse_optional_json, parse_strings, print_json, Json};
use daruma_storage::order::{insert_in_order, text_less};
use daruma_storage::plan_repo::{parse_plan_status, PlanRepo};
use daruma_storage::project_settings_repo::ProjectSettingsRepo;
use daruma_storage::query::{Bound, Query};
use daruma_storage::relation_repo::parse_relation_kind;
use daruma_storage::rows::{self, opt_parsed, parsed};
use daruma_storage::rule_repo::{self, parse_mode, parse_trigger};
use daruma_storage::run_repo::parse_run_status;
use daruma_storage::scope::{parse_scope, scope_columns};
use daruma_storage::session_repo::parse_artifact_kind;
use daruma_storage::task_repo::{parse_priority, parse_status, parse_triage_state};
use daruma_storage::text::{
    contains_text, decimal_text, join, lines, parse_unsigned, placeholders, strip_prefix,
    take_chars,
};
use daruma_storage::time::{parse_opt_ts, parse_ts, Timestamp};

fn json(text: &str) -> Json {
    parse_json(text).unwrap()
}

/// What an object holds under some keys, one within the other.
fn at<'a>(value: &'a Json, path: &[&str]) -> &'a Json {
    path.iter().fold(value, |value, key| match value {
        Json::Object(map) => map.get(key).unwrap_or_else(|| panic!("nothing under {key}")),
        other => panic!("no object: {other:?}"),
    })
}

fn text<'a>(value: &'a Json, path: &[&str]) -> &'a str {
    match at(value, path) {
        Json::Text(s) => s,
        other => panic!("no text: {other:?}"),
    }
}

fn some_time() -> Timestamp {
    Timestamp::new(1_700_000_000, 123_456_789).unwrap()
}

fn envelope(payload: Event) -> EventEnvelope {
    EventEnvelope::new(EventId { uuid: 9 }, some_time(), Actor::User, payload)
}

// ── versions ─────────────────────────────────────────────────────────────────

#[test]
fn task_field_diff_records_changed_values() {
    let before = Some(json(r#"{"title": "old", "status": "todo"}"#));
    let after = Some(json(r#"{"title": "new", "status": "todo"}"#));
    let fields = changed_fields(&before, &after);

    let diff = field_diff(&before, &after, "task_updated", &fields);

    assert_eq!(text(&diff, &["kind"]), "field_json_patch");
    assert_eq!(text(&diff, &["fields", "title", "before"]), "old");
    assert_eq!(text(&diff, &["fields", "title", "after"]), "new");
    assert_eq!(text(&diff, &["metadata", "source"]), "task_updated");
}

#[test]
fn document_content_diff_records_hashes_and_unified_diff() {
    let before = Some(json(r#"{"title": "Human Log", "content": "first\nsecond"}"#));
    let after = Some(json(r#"{"title": "Human Log", "content": "first\nthird"}"#));
    let fields = changed_fields(&before, &after);

    let diff = field_diff(&before, &after, "document_content_replaced", &fields);

    assert_eq!(text(&diff, &["kind"]), "document_text_patch");
    assert_eq!(text(&diff, &["fields", "content", "before_hash"]).len(), 71);
    assert!(text(&diff, &["fields", "content", "unified_diff"]).contains("-second\n+third"));
    assert_eq!(text(&diff, &["metadata", "source"]), "document_content_replaced");
}

#[test]
fn changed_fields_are_sorted_and_named_once() {
    let before = Some(json(r#"{"b": 1, "a": 1, "same": [1, {"x": null}]}"#));
    let after = Some(json(r#"{"a": 2, "c": 3, "same": [1, {"x": null}]}"#));
    assert_eq!(changed_fields(&before, &after), vec!["a", "b", "c"]);
    assert_eq!(changed_fields(&None, &after), vec!["created"]);
    assert_eq!(changed_fields(&before, &None), vec!["deleted"]);
    assert_eq!(changed_fields(&None, &None), Vec::<String>::new());
    assert_eq!(changed_fields(&Some(json("1")), &Some(json("2"))), vec!["value"]);
    assert_eq!(changed_fields(&Some(json("1")), &Some(json("1"))), Vec::<String>::new());
}

#[test]
fn a_diff_of_one_side_holds_that_side() {
    let value = Some(json(r#"{"title": "t"}"#));
    let created = field_diff(&None, &value, "task_created", &changed_fields(&None, &value));
    assert_eq!(text(&created, &["fields", "created", "after", "title"]), "t");
    assert_eq!(at(&created, &["fields", "created", "before"]), &Json::Null);
    let deleted = field_diff(&value, &None, "task_deleted", &changed_fields(&value, &None));
    assert_eq!(text(&deleted, &["fields", "deleted", "before", "title"]), "t");
    assert_eq!(at(&deleted, &["fields", "deleted", "after"]), &Json::Null);
}

#[test]
fn digests_are_those_of_sha256() {
    assert_eq!(
        sha256_digest("abc"),
        "sha256:ba7816bf8f01cfea414140de5dae2223b00361a396177a9cb410ff61f20015ad"
    );
    assert_eq!(
        sha256_digest(""),
        "sha256:e3b0c44298fc1c149afbf4c8996fb92427ae41e4649b934ca495991b7852b855"
    );
}

#[test]
fn unified_diffs_share_the_common_start() {
    assert_eq!(
        unified_text_diff("a\nb\nc", "a\nx\nc\r\n"),
        "--- before\n+++ after\n@@\n a\n-b\n-c\n+x\n+c\n"
    );
    assert_eq!(unified_text_diff("", ""), "--- before\n+++ after\n@@\n");
    assert_eq!(unified_text_diff("same", "same"), "--- before\n+++ after\n@@\n same\n");
}

#[test]
fn summaries_say_what_changed() {
    let summary = |before: &str, after: &str| {
        update_summary("Task", &Some(json(before)), &Some(json(after)))
    };
    assert_eq!(summary(r#"{"a": 1}"#, r#"{"a": 1}"#), "Task unchanged");
    assert_eq!(
        summary(r#"{"title": "a\"b"}"#, r#"{"title": null}"#),
        r#"Task title changed: "a\"b" -> null"#
    );
    assert_eq!(summary(r#"{"n": 1}"#, r#"{"n": [2, true]}"#), "Task n changed: 1 -> [2,true]");
    assert_eq!(summary(r#"{}"#, r#"{"n": false}"#), "Task n changed: null -> false");
    assert_eq!(summary(r#"{"b": 1, "a": 1}"#, r#"{"b": 2, "a": 2}"#), "Task updated: a, b");
    // The length of a text is that of its encoding.
    assert_eq!(
        summary(r#"{"content": "ab"}"#, r#"{"content": "é-é"}"#),
        "Task content changed: +3 characters"
    );
    assert_eq!(
        summary(r#"{"content": "abc"}"#, r#"{"content": "a"}"#),
        "Task content changed: -2 characters"
    );
    assert_eq!(update_summary("Task", &None, &Some(Json::Null)), "Task created");
    assert_eq!(update_summary("Task", &Some(Json::Null), &None), "Task deleted");
    assert_eq!(summary_value(&Json::text("é\n")), r#""é\n""#);
}

#[test]
fn entity_types_and_ids_are_normalized() {
    assert_eq!(validate_entity_type("task"), Ok(()));
    assert_eq!(validate_entity_type("document"), Ok(()));
    assert_eq!(
        validate_entity_type("plan"),
        Err(CoreError::Validation("unknown version entity_type: plan".to_string()))
    );
    assert_eq!(normalize_entity_id("task", "1"), "tsk_1");
    assert_eq!(normalize_entity_id("task", &normalize_entity_id("task", "1")), "tsk_1");
    assert_eq!(normalize_entity_id("document", "1"), "doc_1");
    assert_eq!(normalize_entity_id("document", "tsk_1"), "doc_tsk_1");
    assert_eq!(normalize_entity_id("plan", "1"), "1");
    assert_eq!((clamp_limit(0), clamp_limit(7), clamp_limit(u32::MAX)), (1, 7, 200));

    let query = EntityVersionRepo::list_for_entity("task", "1", 0).unwrap();
    assert_eq!(
        query.binds,
        vec![Bound::Text("task".to_string()), Bound::Text("tsk_1".to_string()), Bound::Int(1)]
    );
    assert!(EntityVersionRepo::list_for_entity("plan", "1", 1).is_err());
    assert!(EntityVersionRepo::get_by_number("plan", "1", 1).is_err());
}

#[test]
fn a_version_is_written_once_per_event() {
    let draft = VersionDraft {
        entity_type: "task".to_string(),
        entity_id: "tsk_1".to_string(),
        before: None,
        after: Some(Json::Null),
        summary: "Task created".to_string(),
    };
    let created = envelope(Event::TaskDeleted { task_id: TaskId { uuid: 1 } });
    assert!(matches!(draft.start(&created), VersionStep::Check { .. }));
    assert!(matches!(draft.after_check(0), VersionStep::Number { .. }));
    assert_eq!(draft.after_check(1), VersionStep::Done);
}

#[test]
fn a_rollback_mark_keeps_the_rest() {
    let marked = mark_diff(json(r#"{"kind": "k", "metadata": {"source": "s"}}"#), "ver_1");
    assert_eq!(text(&marked, &["metadata", "rollback_of_version_id"]), "ver_1");
    assert_eq!(text(&marked, &["metadata", "source"]), "s");
    assert_eq!(text(&marked, &["kind"]), "k");
    let replaced = mark_diff(json(r#"{"metadata": 3}"#), "ver_1");
    assert_eq!(text(&replaced, &["metadata", "rollback_of_version_id"]), "ver_1");

    let row = |diff_json: &str| DiffRow { id: "v".to_string(), diff_json: diff_json.to_string() };
    assert_eq!(rollback_update(&row("[]"), "ver_1"), Ok(None));
    assert!(matches!(rollback_update(&row("{"), "ver_1"), Err(CoreError::Serde(_))));
}

// ── evidence and rules ───────────────────────────────────────────────────────

#[test]
fn reachable_caps_the_chain_per_kind() {
    let p = RuleScope::Project { id: ProjectId { uuid: 1 } };
    let pl = RuleScope::Plan { id: PlanId { uuid: 2 } };
    let t = RuleScope::Task { id: TaskId { uuid: 3 } };

    let full = [RuleScope::Tenant, p.clone(), pl.clone(), t.clone()];
    assert_eq!(reachable(&full, EvidenceReach::Tenant).len(), 4);
    assert_eq!(reachable(&full, EvidenceReach::Project), &full[1..]);
    assert_eq!(reachable(&full, EvidenceReach::Plan), &full[2..]);
    assert_eq!(reachable(&full, EvidenceReach::SelfOnly), &full[3..]);

    // A check of a task with no project and no plan.
    let task_chain = [RuleScope::Tenant, t.clone()];
    assert_eq!(reachable(&task_chain, EvidenceReach::Tenant).len(), 2);
    for reach in [EvidenceReach::Project, EvidenceReach::Plan, EvidenceReach::SelfOnly] {
        assert_eq!(
            reachable(&task_chain, reach),
            &task_chain[1..],
            "a missing level falls back inwards, never outwards: {reach:?}"
        );
    }

    let tenant_only = [RuleScope::Tenant];
    for reach in [
        EvidenceReach::Tenant,
        EvidenceReach::Project,
        EvidenceReach::Plan,
        EvidenceReach::SelfOnly,
    ] {
        assert_eq!(reachable(&tenant_only, reach), &tenant_only[..]);
    }

    let project_chain = [RuleScope::Tenant, p.clone()];
    assert_eq!(
        reachable(&project_chain, EvidenceReach::Plan),
        &project_chain[1..],
        "no plan in the chain → the project, never back out to the tenant"
    );

    let plan_chain = [RuleScope::Tenant, pl.clone(), t.clone()];
    assert_eq!(reachable(&plan_chain, EvidenceReach::Project), &plan_chain[1..]);
    assert_eq!(reachable(&plan_chain, EvidenceReach::Plan), &plan_chain[1..]);
    assert_eq!(reachable(&plan_chain, EvidenceReach::SelfOnly), &plan_chain[2..]);

    assert!(reachable(&[], EvidenceReach::SelfOnly).is_empty());
    assert!(reachable(&[], EvidenceReach::Project).is_empty());
}

#[test]
fn versions_are_numbers_with_an_optional_letter() {
    assert_eq!(parse_version("3"), Some(3));
    assert_eq!(parse_version("v3"), Some(3));
    assert_eq!(parse_version("V03"), Some(3));
    assert_eq!(parse_version("+3"), Some(3));
    assert_eq!(parse_version("18446744073709551615"), Some(u64::MAX));
    assert_eq!(parse_version("18446744073709551616"), None);
    for bad in ["", "v", "vv3", "-1", "3.0", "3 ", "latest", "+"] {
        assert_eq!(parse_version(bad), None, "{bad:?}");
    }
}

#[test]
fn scopes_are_stored_in_two_columns() {
    for scope in [
        RuleScope::Tenant,
        RuleScope::Project { id: ProjectId { uuid: 1 } },
        RuleScope::Plan { id: PlanId { uuid: 2 } },
        RuleScope::Task { id: TaskId { uuid: 3 } },
    ] {
        let (kind, id) = scope_columns(&scope);
        assert_eq!(parse_scope(kind, id.as_deref(), "unknown: "), Ok(scope));
    }
    assert!(parse_scope("galaxy", None, "unknown: ").is_err());
    assert!(parse_scope("task", None, "unknown: ").is_err());
    assert!(parse_scope("task", Some("nonsense"), "unknown: ").is_err());
}

#[test]
fn a_check_is_unsatisfied_by_default() {
    assert_eq!(EvidenceCheck::default(), EvidenceCheck { satisfied: false, reason: None });
    assert_eq!(
        FindingFilter::default(),
        FindingFilter { severity: None, category: None, status: None }
    );
    assert!(RuleMode::Required.strictness() > RuleMode::Recommendation.strictness());
    assert!(RuleMode::Recommendation.strictness() > RuleMode::Off.strictness());
    assert_eq!(EvidenceKind::CompletionNote.reach(), EvidenceReach::SelfOnly);
    assert_eq!(EvidenceKind::DocumentReadAck.reach(), EvidenceReach::Tenant);
}

#[test]
fn selects_end_with_what_they_are_given() {
    for select in [
        artifact_repo::select_sql("WHERE id = ?"),
        audit_finding_repo::select_sql("WHERE id = ?"),
        evidence_repo::select_sql("WHERE id = ?"),
        handoff_repo::select_sql("WHERE id = ?"),
        rule_repo::select_sql("WHERE id = ?"),
    ] {
        assert!(select.starts_with("SELECT id, "), "{select}");
        assert!(select.ends_with(" WHERE id = ?"), "{select}");
    }
    assert_eq!(entity_key(&None::<TaskId>), "");
    assert_eq!(
        entity_key(&Some(TaskId { uuid: 1 })),
        "tsk_00000000-0000-0000-0000-000000000001"
    );
}

// ── what stored texts stand for ──────────────────────────────────────────────

#[test]
fn stored_texts_that_stand_for_nothing_are_reported() {
    let serde = |message: &str| CoreError::Serde(message.to_string());
    let storage = |message: &str| CoreError::Storage(message.to_string());
    assert_eq!(parse_status("x"), Err(serde("unknown status: x")));
    assert_eq!(parse_priority("x"), Err(serde("unknown priority: x")));
    assert_eq!(parse_triage_state("x"), Err(serde("unknown triage_state: x")));
    assert_eq!(parse_plan_status("x"), Err(serde("unknown plan status: x")));
    assert_eq!(parse_run_status("x"), Err(serde("unknown run status: x")));
    assert_eq!(parse_relation_kind("x"), Err(serde("unknown relation kind: x")));
    assert_eq!(parse_artifact_kind("x"), Err(serde("unknown session artifact kind: x")));
    assert_eq!(
        artifact_repo::parse_artifact_status("x"),
        Err(serde("unknown artifact status: x"))
    );
    assert_eq!(
        artifact_repo::parse_artifact_relation_kind("x"),
        Err(serde("unknown artifact relation kind: x"))
    );
    assert_eq!(parse_handoff_status("x"), Err(serde(r#"unknown handoff status: "x""#)));
    assert_eq!(
        document_repo::parse_status("x\""),
        Err(serde(r#"unknown document status: "x\"""#))
    );
    assert_eq!(document_repo::parse_kind("x"), Err(serde(r#"unknown document kind: "x""#)));
    assert_eq!(parse_trigger("x"), Err(storage("unknown rule trigger: x")));
    assert_eq!(parse_mode("x"), Err(storage("unknown rule mode: x")));
    assert_eq!(parse_evidence_kind("x"), Err(storage("unknown evidence kind: x")));
    assert_eq!(
        audit_finding_repo::parse_severity("x"),
        Err(storage("unknown finding severity: x"))
    );
    assert_eq!(
        audit_finding_repo::parse_source("x"),
        Err(storage("unknown finding source: x"))
    );
    assert_eq!(
        audit_finding_repo::parse_status("x"),
        Err(storage("unknown finding status: x"))
    );
    assert!(parse_comment_kind("x").is_err());
}

#[test]
fn stored_texts_name_what_they_stand_for() {
    assert_eq!(parse_status("in_progress"), Ok(Status::InProgress));
    assert_eq!(parse_trigger("task.before_complete"), Ok(RuleTrigger::TaskBeforeComplete));
    assert_eq!(parse_mode("off"), Ok(RuleMode::Off));
    assert_eq!(Status::InReview.as_str(), "in_review");
    assert_eq!(Signal::Completed.tenths(), 10);
    assert_eq!(Signal::Released.tenths(), 4);
    assert_eq!(Signal::Blocked.tenths(), 3);
}

#[test]
fn faults_of_columns_are_told_apart() {
    assert_eq!(rows::column(Ok::<i64, String>(1)), Ok(1));
    assert_eq!(
        rows::column(Err::<i64, String>("gone".to_string())),
        Err(CoreError::Storage("gone".to_string()))
    );
    assert_eq!(
        parsed(Err::<i64, String>("bad".to_string())),
        Err(CoreError::Serde("bad".to_string()))
    );
    assert_eq!(opt_parsed(None::<Result<i64, String>>), Ok(None));
}

#[test]
fn missing_settings_are_on() {
    assert_eq!(
        ProjectSettingsRepo::read_auto_append(None),
        Ok(AutoAppendSettings { interview: true, human_log: true })
    );
    assert_eq!(
        ProjectSettingsRepo::read_auto_append(Some(Ok(Err("bad".to_string())))),
        Err(CoreError::Serde("bad".to_string()))
    );
}

// ── identifiers and times ────────────────────────────────────────────────────

#[test]
fn identifiers_are_printed_with_a_prefix() {
    let task = TaskId { uuid: 0x0123_4567_89ab_cdef_0123_4567_89ab_cdef };
    assert_eq!(print_id(&task), "tsk_01234567-89ab-cdef-0123-456789abcdef");
    assert_eq!(parse_id("tsk_01234567-89ab-cdef-0123-456789abcdef"), Ok(task));
    // The prefix may be missing, and the hyphens too.
    assert_eq!(parse_id("0123456789ABCDEF0123456789abcdef"), Ok(task));
    assert_eq!(print_id(&DocumentId { uuid: 0 }), "doc_00000000-0000-0000-0000-000000000000");
    assert_eq!(print_id(&ClaimId { uuid: 0 }), "clm_00000000-0000-0000-0000-000000000000");
    assert_eq!(print_id(&ProjectId { uuid: 0 }), "prj_00000000-0000-0000-0000-000000000000");
    assert!(matches!(parse_id::<TaskId>("nonsense"), Err(CoreError::Serde(_))));
    assert_eq!(parse_opt_id::<TaskId>(&None), Ok(None));
}

#[test]
fn times_are_printed_as_rfc3339() {
    let t = some_time();
    assert_eq!(t.to_rfc3339(), "2023-11-14T22:13:20.123456789+00:00");
    assert_eq!(parse_ts("2023-11-14T22:13:20.123456789+00:00"), Ok(t));
    assert_eq!(
        parse_ts("2023-11-15T00:13:20Z"),
        Ok(Timestamp::new(1_700_007_200, 0).unwrap())
    );
    assert_eq!(
        parse_ts("2023-11-15T01:13:20+02:00"),
        Ok(Timestamp::new(1_700_003_600, 0).unwrap())
    );
    assert_eq!(Timestamp::new(0, 0).unwrap().to_rfc3339(), "1970-01-01T00:00:00+00:00");
    assert!(matches!(parse_ts("yesterday"), Err(CoreError::Serde(_))));
    assert_eq!(parse_opt_ts(&None), Ok(None));
    assert_eq!((t.unix_seconds(), t.subsec_nanos()), (1_700_000_000, 123_456_789));
}

#[test]
fn leap_seconds_read_back() {
    let leap = Timestamp::new(1_483_228_799, 1_500_000_000).unwrap();
    assert_eq!(leap.to_rfc3339(), "2016-12-31T23:59:60.500+00:00");
    assert_eq!(parse_ts(&leap.to_rfc3339()), Ok(leap));
    // Only the last second of a minute may be one.
    assert_eq!(Timestamp::new(1_483_228_798, 1_500_000_000), None);
}

#[test]
fn times_sort_as_their_texts() {
    let times = [
        (-62_167_219_200, 0),
        (-1, 999_999_999),
        (0, 0),
        (0, 1),
        (0, 1_000),
        (0, 1_000_000),
        (0, 1_000_001),
        (0, 500_000_000),
        (1_483_228_799, 999_999_999),
        (1_483_228_799, 1_000_000_000),
        (1_483_228_799, 1_500_000_000),
        (1_483_228_800, 0),
        (253_402_300_799, 999_999_999),
    ];
    let texts: Vec<String> =
        times.iter().map(|t| Timestamp::new(t.0, t.1).unwrap().to_rfc3339()).collect();
    for (i, a) in texts.iter().enumerate() {
        for (j, b) in texts.iter().enumerate() {
            assert_eq!(text_less(a, b), i < j, "{a} and {b}");
        }
    }
}

#[test]
fn times_move_by_spans() {
    let t = some_time();
    assert_eq!(t.later(1, 900_000_000), Timestamp::new(1_700_000_002, 23_456_789));
    assert_eq!(t.earlier(0, 200_000_000), Timestamp::new(1_699_999_999, 923_456_789));
    assert_eq!(t.later(-1, 0), Timestamp::new(1_699_999_999, 123_456_789));
    let last = Timestamp::new(8_210_266_876_799, 999_999_999).unwrap();
    assert_eq!(last.later(0, 1), None);
    assert_eq!(Timestamp::new(8_210_266_876_800, 0), None);
    assert_eq!(Timestamp::new(0, 2_000_000_000), None);
}

// ── JSON ─────────────────────────────────────────────────────────────────────

#[test]
fn json_is_printed_as_it_is_read() {
    let text = r#"{"a":[1,-2.5,true,null],"b":{"c":"é\n\"q\""}}"#;
    assert_eq!(print_json(&json(text)), text);
    assert_eq!(print_json(&json(" [ 1 , 2 ] ")), "[1,2]");
    assert_eq!(print_json(&json(r#"{"b":1,"a":2}"#)), r#"{"a":2,"b":1}"#);
    assert_eq!(json(r#"{"a":1,"a":2}"#), json(r#"{"a":2}"#));
    assert!(matches!(parse_json("{"), Err(CoreError::Serde(_))));
    assert_eq!(parse_optional_json(&None), Ok(None));
    assert_eq!(parse_optional_json(&Some("1".to_string())), Ok(Some(json("1"))));
}

#[test]
fn json_values_are_compared_by_content() {
    assert!(json(r#"{"a":[1],"b":null}"#).same(&json(r#"{"b":null,"a":[1]}"#)));
    assert!(!json("[1,2]").same(&json("[2,1]")));
    assert!(!json("1").same(&json("1.0")));
    assert!(!json(r#""a""#).same(&json("null")));
    assert!(json("[0.0]").same(&json("[-0.0]")));
    assert_eq!(json(r#"{"a":1,"b":2}"#), json(r#"{"b":2,"a":1}"#));
    assert_ne!(json(r#"{"a":1}"#), json(r#"{"a":1,"b":null}"#));
    let value = json(r#"{"a":[1,{"b":2}]}"#);
    assert_eq!(value.clone(), value);
}

#[test]
fn json_numbers_are_kept_as_they_are() {
    for text in [
        "0",
        "-7",
        "18446744073709551615",
        "-9223372036854775808",
        "0.30000000000000004",
        "-0.0",
        "-2.5",
    ] {
        let value = json(text);
        assert_eq!(print_json(&value), text);
        assert_eq!(print_json(&value.clone()), text);
        match value {
            Json::Number(n) => assert_eq!(n.print(), text),
            other => panic!("no number: {other:?}"),
        }
    }
    let before = Some(json(r#"{"a":0.0,"b":0.5}"#));
    let after = Some(json(r#"{"a":-0.0,"b":0.25}"#));
    assert_eq!(changed_fields(&before, &after), vec!["b"]);
}

#[test]
fn lists_of_texts_are_read() {
    assert_eq!(
        parse_strings(r#"["a", "b\n"]"#),
        Ok(vec!["a".to_string(), "b\n".to_string()])
    );
    assert!(matches!(parse_strings("[1]"), Err(CoreError::Serde(_))));
    assert!(matches!(parse_strings("{}"), Err(CoreError::Serde(_))));
}

// ── texts ────────────────────────────────────────────────────────────────────

#[test]
fn lines_end_at_line_feeds() {
    assert_eq!(lines("a\nb\r\n\nc\r"), vec!["a", "b", "", "c\r"]);
    assert_eq!(lines(""), Vec::<String>::new());
    assert_eq!(lines("\n"), vec![""]);
    assert_eq!(lines("é\nü"), vec!["é", "ü"]);
}

#[test]
fn texts_are_cut_joined_and_searched() {
    assert_eq!(take_chars("héllo", 2), "hé");
    assert_eq!(take_chars("hé", 9), "hé");
    assert_eq!(strip_prefix("tsk_1", "tsk_"), "1");
    assert_eq!(strip_prefix("1", "tsk_"), "1");
    assert_eq!(placeholders(3, ", "), "?, ?, ?");
    assert_eq!(placeholders(0, ", "), "");
    assert_eq!(join(&vec!["a".to_string(), "b".to_string()], ", "), "a, b");
    assert_eq!(decimal_text(0), "0");
    assert_eq!(decimal_text(u64::MAX), "18446744073709551615");
    assert_eq!(parse_unsigned("007"), Some(7));
    assert_eq!(parse_unsigned("x"), None);
    assert!(contains_text("UNIQUE constraint failed: t.a", "UNIQUE constraint failed"));
    assert!(!contains_text("abc", "abd"));
    assert!(contains_text("", ""));
}

#[test]
fn keys_are_ordered_as_their_encoding() {
    assert!(text_less("a", "b"));
    assert!(text_less("a", "ab"));
    assert!(text_less("Z", "a"));
    assert!(text_less("z", "é"));
    assert!(!text_less("a", "a"));
    let mut keys = vec!["a".to_string(), "c".to_string()];
    insert_in_order(&mut keys, "b".to_string());
    insert_in_order(&mut keys, "b".to_string());
    assert_eq!(keys, vec!["a", "b", "c"]);
}

// ── statements ───────────────────────────────────────────────────────────────

#[test]
fn statements_carry_their_values_in_order() {
    let query = Query::new("SELECT ?").text("a").number(1).opt_text(&None).opt_number(Some(2));
    assert_eq!(query.sql, "SELECT ?");
    assert_eq!(
        query.binds,
        vec![Bound::Text("a".to_string()), Bound::Int(1), Bound::Null, Bound::Int(2)]
    );
}

#[test]
fn a_reordering_places_each_task() {
    let plan = PlanId { uuid: 1 };
    let (a, b) = (TaskId { uuid: 2 }, TaskId { uuid: 3 });
    let queries = PlanRepo::reorder(&plan, &vec![b, a]);
    assert_eq!(queries.len(), 2);
    assert_eq!(queries[0].binds[0], Bound::Int(0));
    assert_eq!(queries[0].binds[2], Bound::Text(print_id(&b)));
    assert_eq!(queries[1].binds[0], Bound::Int(1));
    assert_eq!(queries[1].binds[2], Bound::Text(print_id(&a)));
}

// ── activity ─────────────────────────────────────────────────────────────────

#[test]
fn silent_events_write_nothing() {
    for event in [
        Event::PlanModifiedByHuman { plan_id: PlanId { uuid: 1 }, during_run_id: None },
        Event::RunStopRequested { rest: "{}".to_string() },
        Event::FilesReserved { rest: "{}".to_string() },
        Event::ConflictResolved { rest: "{}".to_string() },
        Event::Other { kind: "unit_seen".to_string(), json: "{}".to_string() },
    ] {
        let step = ActivityRepo::apply_event(&envelope(event), ActivityId { uuid: 0 });
        assert_eq!(step, ActivityStep::Done);
    }
}

#[test]
fn entries_say_who_knows_the_project() {
    let task = NewTask {
        id: Some(TaskId { uuid: 1 }),
        project_id: Some(ProjectId { uuid: 2 }),
        title: "t".to_string(),
        description: None,
        status: None,
        priority: None,
        triage_state: None,
        due_at: None,
    };
    let created = ActivityRepo::entry(&Event::TaskCreated { task }).unwrap();
    assert_eq!(created.verb, Verb::Created);
    assert_eq!(created.project, ProjectSource::Known(Some(ProjectId { uuid: 2 })));
    let deleted = ActivityRepo::entry(&Event::TaskDeleted { task_id: TaskId { uuid: 1 } }).unwrap();
    assert_eq!(deleted.project, ProjectSource::OfTask(TaskId { uuid: 1 }));
}

// ── claims ───────────────────────────────────────────────────────────────────

#[test]
fn a_lost_claim_names_the_holder_or_the_asker() {
    let (asker, holder) = (AgentId { uuid: 1 }, AgentId { uuid: 2 });
    let until = some_time();
    let claim_id = ClaimId { uuid: 3 };
    assert_eq!(
        AgentClaimRepo::acquired(1, until, claim_id),
        Some(ClaimOutcome::Acquired { expires_at: until, claim_id })
    );
    assert_eq!(AgentClaimRepo::acquired(0, until, claim_id), None);
    let earlier = until.earlier(5, 0).unwrap();
    assert_eq!(
        AgentClaimRepo::busy(Some((holder, earlier)), asker, until),
        ClaimOutcome::Busy { holder, expires_at: earlier }
    );
    assert_eq!(
        AgentClaimRepo::busy(None, asker, until),
        ClaimOutcome::Busy { holder: asker, expires_at: until }
    );
}

#[test]
fn a_key_that_is_none_is_not_released() {
    let key = ClaimKey {
        agent_id: "x".to_string(),
        task_id: print_id(&TaskId { uuid: 1 }),
        claim_id: print_id(&ClaimId { uuid: 2 }),
    };
    assert!(matches!(key.release_event(), Err(CoreError::Serde(_))));
}

#[test]
fn a_plan_is_not_without_a_project() {
    let plan = Event::PlanArchived { plan_id: PlanId { uuid: 1 }, at: some_time() };
    let task = Event::TaskDeleted { task_id: TaskId { uuid: 1 } };
    for (event, allowed) in [(plan, false), (task, true)] {
        match ActivityRepo::apply_event(&envelope(event), ActivityId { uuid: 3 }) {
            ActivityStep::Lookup { row, .. } => {
                let nothing = Some(ProjectIdRow { project_id: Ok(None) });
                assert_eq!(ActivityRepo::after_lookup(&row, nothing).is_ok(), allowed);
                assert!(ActivityRepo::after_lookup(&row, None).is_ok());
            }
            other => panic!("expected a lookup, got {other:?}"),
        }
    }
}

#[test]
fn ended_tasks_are_named_once() {
    let task_id = TaskId { uuid: 1 };
    let closed = Event::TaskClosed { task_id, by: Actor::User, at: some_time() };
    let events = vec![
        envelope(closed),
        envelope(Event::TaskDeleted { task_id }),
        envelope(Event::TaskDeleted { task_id: TaskId { uuid: 2 } }),
        envelope(Event::RunStopRequested { rest: "{}".to_string() }),
    ];
    assert_eq!(
        AgentClaimRepo::record_task_lifecycle(events).tasks,
        vec![task_id, TaskId { uuid: 2 }]
    );
}
