//! Lifecycle rules, in the `lifecycle_rules` table, and which of them are in force along a
//! chain of scopes.
use vstd::prelude::*;

use crate::domain::{Condition, Requirement, Rule, RuleMode, RuleScope, RuleTrigger};
use crate::error::{CoreError, ErrorView};
use crate::events::{Event, EventEnvelope};
use crate::ids::{id_value, stored_id, stored_id_fault, RuleId};
use crate::order::{
    in_order, lemma_before_irreflexive, lemma_before_total, lemma_before_transitive, text_before,
    text_less,
};
use crate::query::{
    sql_id, sql_int, sql_opt_text, sql_text, sql_time, statement, BoundView, Query, QueryView,
};
use crate::rows::{
    all_hold, all_sound, column, column_fault, decode_all, first_fault, has_int, has_opt_text,
    has_text, opt_parsed, opt_parsed_fault, opt_parsed_value, parsed, parsed_fault, Column, Decode,
    Faults, Parsed,
};
use crate::scope::{lemma_scope_reads_back, parse_scope, scope_columns, scope_fault, scope_value};
use crate::text::{concat2, opt_text, text_eq};
use crate::time::{parse_ts, ts_fault, ts_value};

verus! {

/// The rules.
#[derive(Clone, Copy, Debug)]
pub struct RuleRepo;

pub const SELECT_RULES: &'static str = "SELECT id, rule_key, title, scope_kind, scope_id, trigger, condition, requirement, \
     mode, message, override_allowed, enabled, created_at, updated_at \
     FROM lifecycle_rules ";

pub const UPSERT_RULE: &'static str = "INSERT INTO lifecycle_rules \
     (id, rule_key, title, scope_kind, scope_id, trigger, condition, requirement, \
     mode, message, override_allowed, enabled, created_at, updated_at) \
     VALUES (?, ?, ?, ?, ?, ?, ?, ?, ?, ?, ?, ?, ?, ?) \
     ON CONFLICT(id) DO UPDATE SET \
     rule_key = excluded.rule_key, title = excluded.title, \
     condition = excluded.condition, requirement = excluded.requirement, \
     mode = excluded.mode, message = excluded.message, \
     override_allowed = excluded.override_allowed, enabled = excluded.enabled, \
     updated_at = excluded.updated_at";

pub const DISABLE_RULE: &'static str = "UPDATE lifecycle_rules SET enabled = 0, updated_at = ? WHERE id = ?";

pub const LIST_WITH_ID: &'static str = "WHERE scope_kind = ? AND scope_id = ? ORDER BY rule_key";

pub const LIST_WITHOUT_ID: &'static str = "WHERE scope_kind = ? AND scope_id IS NULL ORDER BY rule_key";

pub const FIRING_WITH_ID: &'static str = "WHERE scope_kind = ? AND scope_id = ? AND trigger = ? \
     AND enabled = 1";

pub const FIRING_WITHOUT_ID: &'static str = "WHERE scope_kind = ? AND scope_id IS NULL AND trigger = ? \
     AND enabled = 1";

// ── rows ────────────────────────────────────────────────────────────────────

fn read_scope(kind: &str, id: &Option<String>) -> (r: Result<RuleScope, CoreError>)
    ensures
        match scope_fault(kind@, opt_text(*id), "unknown rule scope kind: "@) {
            Some(e) => r is Err && r->Err_0@ == e,
            None => r is Ok && r->Ok_0 == scope_value(kind@, opt_text(*id)),
        },
{
    let id = match id {
        Some(id) => Some(id.as_str()),
        None => None,
    };
    parse_scope(kind, id, "unknown rule scope kind: ")
}

/// The JSON text of a condition.
pub open spec fn condition_text(condition: Option<Condition>) -> Option<Seq<char>> {
    match condition {
        Some(c) => Some(c.json@),
        None => None,
    }
}

fn condition_json(condition: &Option<Condition>) -> (r: Option<String>)
    ensures
        opt_text(r) == condition_text(*condition),
{
    match condition {
        Some(c) => Some(c.json.clone()),
        None => None,
    }
}

/// A column of a condition holds the bound text.
pub open spec fn has_condition(c: Column<Option<Parsed<Condition>>>, v: BoundView) -> bool {
    match c {
        Ok(Some(Ok(condition))) => v == sql_text(condition.json@),
        Ok(None) => v == BoundView::Null,
        _ => false,
    }
}

/// A column of a requirement holds the bound text.
pub open spec fn has_requirement(c: Column<Parsed<Requirement>>, v: BoundView) -> bool {
    c matches Ok(Ok(requirement)) && v == sql_text(requirement.json@)
}

/// Why a text is no trigger.
pub open spec fn trigger_fault(s: Seq<char>) -> Option<ErrorView> {
    if RuleTrigger::named(s) is Some {
        None
    } else {
        Some(ErrorView::Storage("unknown rule trigger: "@ + s))
    }
}

/// Reads a trigger.
pub fn parse_trigger(s: &str) -> (r: Result<RuleTrigger, CoreError>)
    ensures
        match trigger_fault(s@) {
            Some(e) => r is Err && r->Err_0@ == e,
            None => r is Ok && Some(r->Ok_0) == RuleTrigger::named(s@),
        },
{
    match RuleTrigger::parse(s) {
        Some(v) => Ok(v),
        None => Err(CoreError::Storage(concat2("unknown rule trigger: ", s))),
    }
}

/// Why a text is no mode.
pub open spec fn mode_fault(s: Seq<char>) -> Option<ErrorView> {
    if RuleMode::named(s) is Some {
        None
    } else {
        Some(ErrorView::Storage("unknown rule mode: "@ + s))
    }
}

/// Reads a mode.
pub fn parse_mode(s: &str) -> (r: Result<RuleMode, CoreError>)
    ensures
        match mode_fault(s@) {
            Some(e) => r is Err && r->Err_0@ == e,
            None => r is Ok && Some(r->Ok_0) == RuleMode::named(s@),
        },
{
    match RuleMode::parse(s) {
        Some(v) => Ok(v),
        None => Err(CoreError::Storage(concat2("unknown rule mode: ", s))),
    }
}

/// A row of the `lifecycle_rules` table.
#[derive(Debug, PartialEq, Eq)]
pub struct RuleRow {
    pub id: Column<String>,
    pub rule_key: Column<String>,
    pub title: Column<String>,
    pub scope_kind: Column<String>,
    pub scope_id: Column<Option<String>>,
    pub trigger: Column<String>,
    pub condition: Column<Option<Parsed<Condition>>>,
    pub requirement: Column<Parsed<Requirement>>,
    pub mode: Column<String>,
    pub message: Column<String>,
    pub override_allowed: Column<i64>,
    pub enabled: Column<i64>,
    pub created_at: Column<String>,
    pub updated_at: Column<String>,
}

/// What is wrong with a rule row, where something is: the columns and their
/// values are looked at in this order.
pub open spec fn rule_fault(row: RuleRow) -> Option<ErrorView> {
    column_fault(row.id).or_fault(
        column_fault(row.scope_kind),
    ).or_fault(
        column_fault(row.scope_id),
    ).or_fault(
        column_fault(row.trigger),
    ).or_fault(
        column_fault(row.condition),
    ).or_fault(
        column_fault(row.requirement),
    ).or_fault(
        column_fault(row.mode),
    ).or_fault(
        column_fault(row.created_at),
    ).or_fault(
        column_fault(row.updated_at),
    ).or_fault(
        scope_fault(row.scope_kind->Ok_0@, opt_text(row.scope_id->Ok_0), "unknown rule scope kind: "@),
    ).or_fault(
        trigger_fault(row.trigger->Ok_0@),
    ).or_fault(
        opt_parsed_fault(row.condition->Ok_0),
    ).or_fault(
        parsed_fault(row.requirement->Ok_0),
    ).or_fault(
        stored_id_fault::<RuleId>(row.id->Ok_0@, "bad rule id"@),
    ).or_fault(
        column_fault(row.rule_key),
    ).or_fault(
        column_fault(row.title),
    ).or_fault(
        mode_fault(row.mode->Ok_0@),
    ).or_fault(
        column_fault(row.message),
    ).or_fault(
        column_fault(row.override_allowed),
    ).or_fault(
        column_fault(row.enabled),
    ).or_fault(
        ts_fault(row.created_at->Ok_0@),
    ).or_fault(
        ts_fault(row.updated_at->Ok_0@),
    )
}

/// The record is what a sound rule row says.
pub open spec fn rule_read(row: RuleRow, record: Rule) -> bool {
    &&& record.id == id_value::<RuleId>(row.id->Ok_0@)
    &&& record.rule_key == row.rule_key->Ok_0
    &&& record.title == row.title->Ok_0
    &&& record.scope == scope_value(row.scope_kind->Ok_0@, opt_text(row.scope_id->Ok_0))
    &&& Some(record.trigger) == RuleTrigger::named(row.trigger->Ok_0@)
    &&& record.condition == opt_parsed_value(row.condition->Ok_0)
    &&& record.requirement == row.requirement->Ok_0->Ok_0
    &&& Some(record.mode) == RuleMode::named(row.mode->Ok_0@)
    &&& record.message == row.message->Ok_0
    &&& record.override_allowed == (row.override_allowed->Ok_0 != 0)
    &&& record.enabled == (row.enabled->Ok_0 != 0)
    &&& record.created_at == ts_value(row.created_at->Ok_0@)
    &&& record.updated_at == ts_value(row.updated_at->Ok_0@)
}

/// Reads a rule from its row.
pub fn row_to_rule(row: RuleRow) -> (r: Result<Rule, CoreError>)
    ensures
        match rule_fault(row) {
            Some(e) => r is Err && r->Err_0@ == e,
            None => r is Ok && rule_read(row, r->Ok_0),
        },
{
    let id = column(row.id)?;
    let scope_kind = column(row.scope_kind)?;
    let scope_id = column(row.scope_id)?;
    let trigger = column(row.trigger)?;
    let condition = column(row.condition)?;
    let requirement = column(row.requirement)?;
    let mode = column(row.mode)?;
    let created_at = column(row.created_at)?;
    let updated_at = column(row.updated_at)?;
    let scope = read_scope(scope_kind.as_str(), &scope_id)?;
    let trigger = parse_trigger(trigger.as_str())?;
    let condition = opt_parsed(condition)?;
    let requirement = parsed(requirement)?;
    let id = stored_id::<RuleId>(id.as_str(), "bad rule id")?;
    let rule_key = column(row.rule_key)?;
    let title = column(row.title)?;
    let mode = parse_mode(mode.as_str())?;
    let message = column(row.message)?;
    let override_allowed = column(row.override_allowed)?;
    let enabled = column(row.enabled)?;
    let created_at = parse_ts(created_at.as_str())?;
    let updated_at = parse_ts(updated_at.as_str())?;
    Ok(
        Rule {
            id,
            rule_key,
            title,
            scope,
            trigger,
            condition,
            requirement,
            mode,
            message,
            override_allowed: override_allowed != 0,
            enabled: enabled != 0,
            created_at,
            updated_at,
        },
    )
}

impl Decode for RuleRow {
    type Record = Rule;

    open spec fn fault(&self) -> Option<ErrorView> {
        rule_fault(*self)
    }

    open spec fn holds(&self, record: Rule) -> bool {
        rule_read(*self, record)
    }

    fn decode(self) -> (r: Result<Rule, CoreError>) {
        row_to_rule(self)
    }
}

/// The columns of a rule, in the order in which they are written.
pub open spec fn rule_columns(record: Rule) -> Seq<BoundView> {
    seq![
        sql_id(record.id),
        sql_text(record.rule_key@),
        sql_text(record.title@),
        sql_text(record.scope.kind_text()),
        sql_opt_text(record.scope.id_text_of()),
        sql_text(record.trigger.text()),
        sql_opt_text(condition_text(record.condition)),
        sql_text(record.requirement.json@),
        sql_text(record.mode.text()),
        sql_text(record.message@),
        sql_int(if record.override_allowed { 1 } else { 0 }),
        sql_int(if record.enabled { 1 } else { 0 }),
        sql_time(record.created_at),
        sql_time(record.updated_at),
    ]
}

impl RuleRow {
    /// Each column of the row holds what is written for it of the record.
    pub open spec fn stores(self, record: Rule) -> bool {
        &&& has_text(self.id, sql_id(record.id))
        &&& has_text(self.rule_key, sql_text(record.rule_key@))
        &&& has_text(self.title, sql_text(record.title@))
        &&& has_text(self.scope_kind, sql_text(record.scope.kind_text()))
        &&& has_opt_text(self.scope_id, sql_opt_text(record.scope.id_text_of()))
        &&& has_text(self.trigger, sql_text(record.trigger.text()))
        &&& has_condition(self.condition, sql_opt_text(condition_text(record.condition)))
        &&& has_requirement(self.requirement, sql_text(record.requirement.json@))
        &&& has_text(self.mode, sql_text(record.mode.text()))
        &&& has_text(self.message, sql_text(record.message@))
        &&& has_int(self.override_allowed, sql_int(if record.override_allowed { 1 } else { 0 }))
        &&& has_int(self.enabled, sql_int(if record.enabled { 1 } else { 0 }))
        &&& has_text(self.created_at, sql_time(record.created_at))
        &&& has_text(self.updated_at, sql_time(record.updated_at))
    }
}

impl Rule {
    /// The two records agree in every field.
    pub open spec fn same(self, other: Rule) -> bool {
        &&& self.id == other.id
        &&& self.rule_key@ == other.rule_key@
        &&& self.title@ == other.title@
        &&& self.scope == other.scope
        &&& self.trigger == other.trigger
        &&& condition_text(self.condition) == condition_text(other.condition)
        &&& self.requirement.json@ == other.requirement.json@
        &&& self.mode == other.mode
        &&& self.message@ == other.message@
        &&& self.override_allowed == other.override_allowed
        &&& self.enabled == other.enabled
        &&& self.created_at == other.created_at
        &&& self.updated_at == other.updated_at
    }

    /// Every point in time of the record has an RFC 3339 text that reads back.
    pub open spec fn is_plain(self) -> bool {
        &&& self.created_at.is_plain()
        &&& self.updated_at.is_plain()
    }
}

// ── the rules in force ──────────────────────────────────────────────────────

/// A rule that is in force so far, and how far inside the chain its scope is.
#[derive(Clone, Debug, PartialEq, Eq)]
pub struct ChosenRule {
    pub depth: usize,
    pub rule: Rule,
}

/// The rules that are in force so far, by their keys.
#[derive(Debug, PartialEq, Eq)]
pub struct ChosenRules {
    entries: Vec<ChosenRule>,
}

/// The rule in force once another one with the same key is found further inside: the other
/// one, unless it weakens a rule that may not be overridden.
pub open spec fn contested(incumbent: ChosenRule, challenger: ChosenRule) -> ChosenRule {
    if incumbent.depth >= challenger.depth {
        incumbent
    } else if challenger.rule.mode.strictness_of() < incumbent.rule.mode.strictness_of()
        && !incumbent.rule.override_allowed {
        incumbent
    } else {
        challenger
    }
}

/// The rules in force once one more is found.
pub open spec fn after_rule(chosen: Map<Seq<char>, ChosenRule>, found: ChosenRule) -> Map<
    Seq<char>,
    ChosenRule,
> {
    let key = found.rule.rule_key@;
    if chosen.dom().contains(key) {
        chosen.insert(key, contested(chosen[key], found))
    } else {
        chosen.insert(key, found)
    }
}

/// The rules in force once those of a scope are found.
pub open spec fn after_rules(
    chosen: Map<Seq<char>, ChosenRule>,
    depth: usize,
    rules: Seq<Rule>,
) -> Map<Seq<char>, ChosenRule>
    decreases rules.len(),
{
    if rules.len() == 0 {
        chosen
    } else {
        after_rule(
            after_rules(chosen, depth, rules.drop_last()),
            ChosenRule { depth, rule: rules.last() },
        )
    }
}

/// The keys of a list of rules.
pub open spec fn keys_of(rules: Seq<Rule>) -> Seq<Seq<char>> {
    rules.map_values(|rule: Rule| rule.rule_key@)
}

spec fn entry_keys(entries: Seq<ChosenRule>) -> Seq<Seq<char>> {
    entries.map_values(|e: ChosenRule| e.rule.rule_key@)
}

/// The place of a key among some entries.
spec fn place(entries: Seq<ChosenRule>, key: Seq<char>) -> int {
    choose|i: int| 0 <= i < entries.len() && (#[trigger] entries[i]).rule.rule_key@ == key
}

spec fn entry_map(entries: Seq<ChosenRule>) -> Map<Seq<char>, ChosenRule> {
    Map::new(
        |key: Seq<char>|
            exists|i: int|
                0 <= i < entries.len() && (#[trigger] entries[i]).rule.rule_key@ == key,
        |key: Seq<char>| entries[place(entries, key)],
    )
}

proof fn lemma_place(entries: Seq<ChosenRule>, i: int)
    requires
        in_order(entry_keys(entries)),
        0 <= i < entries.len(),
    ensures
        place(entries, entries[i].rule.rule_key@) == i,
        entry_map(entries).dom().contains(entries[i].rule.rule_key@),
        entry_map(entries)[entries[i].rule.rule_key@] == entries[i],
{
    let key = entries[i].rule.rule_key@;
    let k = place(entries, key);
    assert(0 <= k < entries.len() && entries[k].rule.rule_key@ == key);
    assert(entry_keys(entries)[i] == key && entry_keys(entries)[k] == key);
    if k != i {
        lemma_before_irreflexive(key);
    }
}

impl ChosenRules {
    #[verifier::type_invariant]
    spec fn wf(self) -> bool {
        in_order(entry_keys(self.entries@))
    }

    /// The rules by their keys.
    pub closed spec fn model(self) -> Map<Seq<char>, ChosenRule> {
        entry_map(self.entries@)
    }

    /// No rule is in force.
    pub fn new() -> (r: ChosenRules)
        ensures
            r.model() == Map::<Seq<char>, ChosenRule>::empty(),
    {
        let r = ChosenRules { entries: Vec::new() };
        assert(r.model() =~= Map::<Seq<char>, ChosenRule>::empty());
        r
    }

    /// Takes one more rule into account.
    fn consider(self, found: ChosenRule) -> (r: ChosenRules)
        ensures
            r.model() == after_rule(self.model(), found),
    {
        proof {
            use_type_invariant(&self);
        }
        let ghost before = self.entries@;
        let ghost key = found.rule.rule_key@;
        let mut entries = self.entries;
        let mut i: usize = 0;
        while i < entries.len() && text_less(
            entries[i].rule.rule_key.as_str(),
            found.rule.rule_key.as_str(),
        )
            invariant
                i <= entries@.len(),
                entries@ == before,
                key == found.rule.rule_key@,
                forall|j: int| 0 <= j < i ==> text_before((#[trigger] before[j]).rule.rule_key@, key),
            decreases entries@.len() - i,
        {
            i = i + 1;
        }
        if i < entries.len() && text_eq(
            entries[i].rule.rule_key.as_str(),
            found.rule.rule_key.as_str(),
        ) {
            proof {
                lemma_place(before, i as int);
            }
            let stays = entries[i].depth >= found.depth || (found.rule.mode.strictness()
                < entries[i].rule.mode.strictness() && !entries[i].rule.override_allowed);
            let ghost winner = contested(before[i as int], found);
            if !stays {
                entries.set(i, found);
            }
            proof {
                let after = entries@;
                assert(after =~= before.update(i as int, winner));
                assert(entry_keys(after) =~= entry_keys(before));
                assert forall|k: Seq<char>| #[trigger]
                    entry_map(after).dom().contains(k) <==> entry_map(before).dom().contains(k) by {
                    if entry_map(after).dom().contains(k) {
                        let j = place(after, k);
                        assert(entry_keys(after)[j] == entry_keys(before)[j]);
                        assert(before[j].rule.rule_key@ == k);
                    }
                    if entry_map(before).dom().contains(k) {
                        let j = place(before, k);
                        assert(entry_keys(after)[j] == entry_keys(before)[j]);
                        assert(after[j].rule.rule_key@ == k);
                    }
                }
                assert forall|k: Seq<char>| #[trigger]
                    entry_map(after).dom().contains(k) implies entry_map(after)[k] == after_rule(
                    entry_map(before),
                    found,
                )[k] by {
                    let j = place(after, k);
                    assert(0 <= j < after.len() && after[j].rule.rule_key@ == k);
                    assert(entry_keys(after)[j] == entry_keys(before)[j]);
                    assert(before[j].rule.rule_key@ == k);
                    lemma_place(before, j);
                    lemma_place(after, j);
                    if k == key {
                        assert(j == i);
                    }
                }
                assert(entry_map(after) =~= after_rule(entry_map(before), found));
            }
            return ChosenRules { entries };
        }
        proof {
            if i < before.len() {
                lemma_before_total(before[i as int].rule.rule_key@, key);
            }
            assert forall|j: int| i <= j < before.len() implies text_before(
                key,
                (#[trigger] before[j]).rule.rule_key@,
            ) by {
                if j > i {
                    assert(text_before(entry_keys(before)[i as int], entry_keys(before)[j]));
                    lemma_before_transitive(
                        key,
                        before[i as int].rule.rule_key@,
                        before[j].rule.rule_key@,
                    );
                }
            }
        }
        entries.insert(i, found);
        proof {
            let after = entries@;
            let n = i as int;
            assert(after =~= before.insert(n, found));
            assert forall|j: int, k: int| 0 <= j < k < after.len() implies text_before(
                #[trigger] entry_keys(after)[j],
                #[trigger] entry_keys(after)[k],
            ) by {
                if j < n && k < n {
                    assert(text_before(entry_keys(before)[j], entry_keys(before)[k]));
                } else if j < n && k == n {
                    assert(after[j] == before[j]);
                } else if j < n {
                    assert(text_before(entry_keys(before)[j], entry_keys(before)[k - 1]));
                } else if j == n {
                    assert(after[k] == before[k - 1]);
                } else {
                    assert(text_before(entry_keys(before)[j - 1], entry_keys(before)[k - 1]));
                }
            }
            assert(!entry_map(before).dom().contains(key)) by {
                if entry_map(before).dom().contains(key) {
                    let j = place(before, key);
                    assert(before[j].rule.rule_key@ == key);
                    lemma_before_irreflexive(key);
                }
            }
            assert forall|k: Seq<char>| #[trigger]
                entry_map(after).dom().contains(k) <==> entry_map(before).dom().contains(k) || k
                == key by {
                if entry_map(after).dom().contains(k) {
                    let j = place(after, k);
                    if j < n {
                        assert(before[j].rule.rule_key@ == k);
                    } else if j > n {
                        assert(before[j - 1].rule.rule_key@ == k);
                    }
                }
                if entry_map(before).dom().contains(k) {
                    let j = place(before, k);
                    if j < n {
                        assert(after[j].rule.rule_key@ == k);
                    } else {
                        assert(after[j + 1].rule.rule_key@ == k);
                    }
                }
                if k == key {
                    assert(after[n].rule.rule_key@ == k);
                }
            }
            assert forall|k: Seq<char>| #[trigger]
                entry_map(after).dom().contains(k) implies entry_map(after)[k] == after_rule(
                entry_map(before),
                found,
            )[k] by {
                let j = place(after, k);
                assert(0 <= j < after.len() && after[j].rule.rule_key@ == k);
                lemma_place(after, j);
                if j < n {
                    assert(after[j] == before[j]);
                    lemma_place(before, j);
                } else if j > n {
                    assert(after[j] == before[j - 1]);
                    lemma_place(before, j - 1);
                }
            }
            assert(entry_map(after) =~= after_rule(entry_map(before), found));
        }
        ChosenRules { entries }
    }

    /// Takes the rules of a scope into account, at its place in the chain.
    pub fn at_scope(self, depth: usize, rules: Vec<Rule>) -> (r: ChosenRules)
        ensures
            r.model() == after_rules(self.model(), depth, rules@),
    {
        let ghost before = self.model();
        let mut out = self;
        for rule in it: rules
            invariant
                it.seq() == rules@,
                out.model() == after_rules(before, depth, rules@.take(it.index() as int)),
        {
            proof {
                assert(rules@.take(it.index() + 1).drop_last() =~= rules@.take(it.index() as int));
                assert(rules@.take(it.index() + 1).last() == rule);
            }
            out = out.consider(ChosenRule { depth, rule });
        }
        assert(rules@.take(rules@.len() as int) =~= rules@);
        out
    }

    /// The rules in force, by their keys in order, without those that are off.
    pub fn effective(self) -> (r: Vec<Rule>)
        ensures
            in_force(self.model(), r@),
    {
        proof {
            use_type_invariant(&self);
        }
        let ghost all = self.entries@;
        let mut out: Vec<Rule> = Vec::new();
        for entry in it: self.entries
            invariant
                it.seq() == all,
                in_order(entry_keys(all)),
                in_order(keys_of(out@)),
                forall|j: int, k: int|
                    0 <= j < out@.len() && it.index() <= k < all.len() ==> text_before(
                        (#[trigger] out@[j]).rule_key@,
                        (#[trigger] all[k]).rule.rule_key@,
                    ),
                forall|j: int|
                    0 <= j < out@.len() ==> exists|k: int|
                        0 <= k < it.index() && (#[trigger] all[k]).rule == #[trigger] out@[j],
                forall|j: int| 0 <= j < out@.len() ==> (#[trigger] out@[j]).mode != RuleMode::Off,
                forall|k: int|
                    0 <= k < it.index() && (#[trigger] all[k]).rule.mode != RuleMode::Off
                        ==> out@.contains(all[k].rule),
        {
            let ghost n = it.index() as int;
            let ghost before = out@;
            assert(all[n] == entry);
            proof {
                assert forall|k: int| n < k < all.len() implies text_before(
                    entry.rule.rule_key@,
                    (#[trigger] all[k]).rule.rule_key@,
                ) by {
                    assert(text_before(entry_keys(all)[n], entry_keys(all)[k]));
                }
            }
            let off = match entry.rule.mode {
                RuleMode::Off => true,
                _ => false,
            };
            if !off {
                out.push(entry.rule);
            }
            proof {
                if !off {
                    assert(out@[before.len() as int] == all[n].rule);
                    assert forall|j: int, k: int| 0 <= j < k < out@.len() implies text_before(
                        #[trigger] keys_of(out@)[j],
                        #[trigger] keys_of(out@)[k],
                    ) by {
                        if k < before.len() {
                            assert(text_before(keys_of(before)[j], keys_of(before)[k]));
                        } else {
                            assert(text_before(before[j].rule_key@, all[n].rule.rule_key@));
                        }
                    }
                    assert forall|k: int|
                        0 <= k < n + 1 && (#[trigger] all[k]).rule.mode
                            != RuleMode::Off implies out@.contains(all[k].rule) by {
                        if k < n {
                            let j = choose|j: int|
                                0 <= j < before.len() && before[j] == all[k].rule;
                            assert(out@[j] == all[k].rule);
                        }
                    }
                    assert forall|j: int| 0 <= j < out@.len() implies exists|k: int|
                        0 <= k < n + 1 && (#[trigger] all[k]).rule == #[trigger] out@[j] by {
                        if j < before.len() {
                            let k = choose|k: int|
                                0 <= k < n && (#[trigger] all[k]).rule == before[j];
                            assert(all[k].rule == out@[j]);
                        } else {
                            assert(all[n].rule == out@[j]);
                        }
                    }
                }
            }
        }
        proof {
            assert forall|rule: Rule| #[trigger]
                out@.contains(rule) <==> rule.mode != RuleMode::Off
                && self.model().dom().contains(rule.rule_key@) && self.model()[rule.rule_key@].rule
                == rule by {
                if out@.contains(rule) {
                    let j = choose|j: int| 0 <= j < out@.len() && out@[j] == rule;
                    let k = choose|k: int|
                        0 <= k < all.len() && (#[trigger] all[k]).rule == out@[j];
                    lemma_place(all, k);
                }
                if rule.mode != RuleMode::Off && self.model().dom().contains(rule.rule_key@)
                    && self.model()[rule.rule_key@].rule == rule {
                    let k = place(all, rule.rule_key@);
                    assert(all[k].rule.rule_key@ == rule.rule_key@);
                    lemma_place(all, k);
                    assert(all[k].rule == rule);
                }
            }
        }
        out
    }
}

/// The rules that some scopes have, in the order of the scopes, decide on the rules in force.
pub open spec fn walked(found: Seq<Seq<Rule>>) -> Map<Seq<char>, ChosenRule>
    decreases found.len(),
{
    if found.len() == 0 {
        Map::<Seq<char>, ChosenRule>::empty()
    } else {
        after_rules(walked(found.drop_last()), (found.len() - 1) as usize, found.last())
    }
}

/// The search for the rules in force along a chain of scopes: the scopes before `depth`
/// have been asked.
pub struct RuleWalk {
    chain: Vec<RuleScope>,
    trigger: RuleTrigger,
    depth: usize,
    chosen: ChosenRules,
}

/// The mathematical model of a search for rules.
#[verifier::ext_equal]
pub ghost struct WalkView {
    pub chain: Seq<RuleScope>,
    pub trigger: RuleTrigger,
    pub depth: nat,
    pub chosen: Map<Seq<char>, ChosenRule>,
}

impl View for RuleWalk {
    type V = WalkView;

    closed spec fn view(&self) -> WalkView {
        WalkView {
            chain: self.chain@,
            trigger: self.trigger,
            depth: self.depth as nat,
            chosen: self.chosen.model(),
        }
    }
}

/// The next step of a search for rules.
pub enum RuleStep {
    /// Ask for the rules of the next scope, and hand them to [`ScopeWalk::answered`].
    Ask { select: Query, scope: ScopeWalk },
    /// All scopes have been asked: these rules are in force.
    Done { rules: Vec<Rule> },
}

/// A search for rules in which a scope is being asked.
pub struct ScopeWalk {
    walk: RuleWalk,
}

impl View for ScopeWalk {
    type V = WalkView;

    closed spec fn view(&self) -> WalkView {
        self.walk@
    }
}

/// The rules are those in force, by their keys in order, without those that are off.
pub open spec fn in_force(chosen: Map<Seq<char>, ChosenRule>, rules: Seq<Rule>) -> bool {
    &&& in_order(keys_of(rules))
    &&& forall|rule: Rule| #[trigger]
        rules.contains(rule) <==> rule.mode != RuleMode::Off && chosen.dom().contains(
            rule.rule_key@,
        ) && chosen[rule.rule_key@].rule == rule
}

impl RuleWalk {
    /// The next step: the next scope of the chain.
    pub fn next(self) -> (r: RuleStep)
        ensures
            if self@.depth < self@.chain.len() {
                r is Ask && r->Ask_select@ == firing_query(
                    self@.chain[self@.depth as int],
                    self@.trigger,
                ) && r->Ask_scope@ == self@
            } else {
                r is Done && in_force(self@.chosen, r->Done_rules@)
            },
    {
        if self.depth < self.chain.len() {
            let select = RuleRepo::firing_rules(&self.chain[self.depth], self.trigger);
            RuleStep::Ask { select, scope: ScopeWalk { walk: self } }
        } else {
            RuleStep::Done { rules: self.chosen.effective() }
        }
    }
}

impl ScopeWalk {
    #[verifier::type_invariant]
    spec fn wf(self) -> bool {
        self.walk.depth < self.walk.chain@.len()
    }

    /// Takes the rules of the scope that was asked into account; the first row that is not
    /// sound ends the search.
    pub fn answered(self, rows: Vec<RuleRow>) -> (r: Result<RuleWalk, CoreError>)
        ensures
            r is Ok <==> all_sound(rows@),
            match r {
                Ok(walk) => exists|rules: Seq<Rule>| #[trigger]
                    all_hold(rows@, rules) && walk@ == (WalkView {
                        depth: self@.depth + 1,
                        chosen: after_rules(self@.chosen, self@.depth as usize, rules),
                        ..self@
                    }) && forall|found: Seq<Seq<Rule>>|
                        #![trigger walked(found)]
                        found.len() == self@.depth && self@.chosen == walked(found)
                            ==> walk@.chosen == walked(found.push(rules)),
                Err(e) => first_fault(rows@, e@),
            },
    {
        proof {
            use_type_invariant(&self);
        }
        let ghost before = self@;
        let rules = decode_all(rows)?;
        let ghost found_here = rules@;
        let walk = self.walk;
        let depth: usize = walk.depth;
        assert(depth < walk.chain.len());
        let chosen = walk.chosen.at_scope(depth, rules);
        let r = RuleWalk { chain: walk.chain, trigger: walk.trigger, depth: depth + 1, chosen };
        proof {
            assert forall|found: Seq<Seq<Rule>>|
                #![trigger walked(found)]
                found.len() == before.depth && before.chosen == walked(found) implies r@.chosen
                == walked(found.push(found_here)) by {
                assert(found.push(found_here).drop_last() =~= found);
            }
            assert(all_hold(rows@, found_here));
        }
        Ok(r)
    }
}

// ── the repository ──────────────────────────────────────────────────────────

/// The query for the enabled rules of a scope that fire on a trigger.
pub open spec fn firing_query(scope: RuleScope, trigger: RuleTrigger) -> QueryView {
    match scope.id_text_of() {
        Some(id) => statement(
            SELECT_RULES@ + FIRING_WITH_ID@,
            seq![sql_text(scope.kind_text()), sql_text(id), sql_text(trigger.text())],
        ),
        None => statement(
            SELECT_RULES@ + FIRING_WITHOUT_ID@,
            seq![sql_text(scope.kind_text()), sql_text(trigger.text())],
        ),
    }
}

/// The query for rules that a filter picks.
pub fn select_sql(tail: &str) -> (r: String)
    ensures
        r@ == SELECT_RULES@ + tail@,
{
    concat2(SELECT_RULES, tail)
}

impl RuleRepo {
    /// The query for a rule.
    pub fn get(id: &RuleId) -> (q: Query)
        ensures
            q@ == statement(SELECT_RULES@ + "WHERE id = ?"@, seq![sql_id(*id)]),
    {
        Query::new(select_sql("WHERE id = ?").as_str()).id(id)
    }

    /// The query for the rules of a scope, by their keys in order.
    pub fn list_for_scope(scope: &RuleScope) -> (q: Query)
        ensures
            q@ == match scope.id_text_of() {
                Some(id) => statement(
                    SELECT_RULES@ + LIST_WITH_ID@,
                    seq![sql_text(scope.kind_text()), sql_text(id)],
                ),
                None => statement(
                    SELECT_RULES@ + LIST_WITHOUT_ID@,
                    seq![sql_text(scope.kind_text())],
                ),
            },
    {
        match scope.id_string() {
            Some(id) => {
                let q = Query::new(select_sql(LIST_WITH_ID).as_str()).text(scope.kind()).text(
                    id.as_str(),
                );
                assert(q@.binds =~= seq![sql_text(scope.kind_text()), sql_text(id@)]);
                q
            },
            None => {
                let q = Query::new(select_sql(LIST_WITHOUT_ID).as_str()).text(scope.kind());
                assert(q@.binds =~= seq![sql_text(scope.kind_text())]);
                q
            },
        }
    }

    /// The search for the rules in force along a chain of scopes, outermost first. Its steps
    /// are those of the [`RuleWalk`].
    pub fn effective_rules(chain: Vec<RuleScope>, trigger: RuleTrigger) -> (r: RuleWalk)
        ensures
            r@ == (WalkView {
                chain: chain@,
                trigger,
                depth: 0,
                chosen: Map::<Seq<char>, ChosenRule>::empty(),
            }),
    {
        RuleWalk { chain, trigger, depth: 0, chosen: ChosenRules::new() }
    }

    /// The query for the enabled rules of a scope that fire on a trigger. Those that are off
    /// are among them: an inner one may switch an outer one off.
    pub fn firing_rules(scope: &RuleScope, trigger: RuleTrigger) -> (q: Query)
        ensures
            q@ == firing_query(*scope, trigger),
    {
        match scope.id_string() {
            Some(id) => {
                let q = Query::new(select_sql(FIRING_WITH_ID).as_str()).text(scope.kind()).text(
                    id.as_str(),
                ).text(trigger.as_str());
                assert(q@.binds =~= seq![
                    sql_text(scope.kind_text()),
                    sql_text(id@),
                    sql_text(trigger.text()),
                ]);
                q
            },
            None => {
                let q = Query::new(select_sql(FIRING_WITHOUT_ID).as_str()).text(scope.kind()).text(
                    trigger.as_str(),
                );
                assert(q@.binds =~= seq![sql_text(scope.kind_text()), sql_text(trigger.text())]);
                q
            },
        }
    }

    /// The statement that writes a rule. What it writes reads back.
    pub fn upsert(rule: &Rule) -> (q: Query)
        ensures
            q@ == statement(UPSERT_RULE@, rule_columns(*rule)),
            rule.is_plain() ==> forall|row: RuleRow|
                #[trigger] row.stores(*rule) ==> rule_fault(row) is None && forall|record: Rule|
                    rule_read(row, record) ==> record.same(*rule),
    {
        let scope = scope_columns(&rule.scope);
        proof {
            lemma_scope_reads_back(rule.scope, "unknown rule scope kind: "@);
        }
        Query::new(UPSERT_RULE)
            .id(&rule.id)
            .text(rule.rule_key.as_str())
            .text(rule.title.as_str())
            .text(scope.0)
            .opt_text(&scope.1)
            .text(rule.trigger.as_str())
            .opt_text(&condition_json(&rule.condition))
            .text(rule.requirement.json.as_str())
            .text(rule.mode.as_str())
            .text(rule.message.as_str())
            .number(if rule.override_allowed { 1 } else { 0 })
            .number(if rule.enabled { 1 } else { 0 })
            .time(&rule.created_at)
            .time(&rule.updated_at)
    }

    /// The statement that applies an event to the rules, where there is one. What is
    /// written of a rule reads back.
    pub fn apply_event(env: &EventEnvelope) -> (r: Option<Query>)
        ensures
            match env.payload {
                Event::RuleCreated { rule } => r is Some && r->Some_0@ == statement(
                    UPSERT_RULE@,
                    rule_columns(rule),
                ),
                Event::RuleUpdated { rule } => r is Some && r->Some_0@ == statement(
                    UPSERT_RULE@,
                    rule_columns(rule),
                ),
                Event::RuleDisabled { rule_id, at } => r is Some && r->Some_0@ == statement(
                    DISABLE_RULE@,
                    seq![sql_time(at), sql_id(rule_id)],
                ),
                _ => r is None,
            },
            env.payload matches Event::RuleCreated { rule } ==> rule.is_plain() ==> forall|
                row: RuleRow,
            | #[trigger]
                row.stores(rule) ==> rule_fault(row) is None && forall|record: Rule|
                    rule_read(row, record) ==> record.same(rule),
            env.payload matches Event::RuleUpdated { rule } ==> rule.is_plain() ==> forall|
                row: RuleRow,
            | #[trigger]
                row.stores(rule) ==> rule_fault(row) is None && forall|record: Rule|
                    rule_read(row, record) ==> record.same(rule),
    {
        match &env.payload {
            Event::RuleCreated { rule } => Some(RuleRepo::upsert(rule)),
            Event::RuleUpdated { rule } => Some(RuleRepo::upsert(rule)),
            Event::RuleDisabled { rule_id, at } => {
                let q = Query::new(DISABLE_RULE).time(at).id(rule_id);
                assert(q@.binds =~= seq![sql_time(*at), sql_id(*rule_id)]);
                Some(q)
            },
            _ => None,
        }
    }
}

// ── laws ────────────────────────────────────────────────────────────────────

/// A rule that may not be overridden is not weakened by the rules of a scope further in:
/// what is in force instead of it is at least as strict. A rule further in may always be
/// stricter.
pub proof fn lemma_weakening_needs_permission(incumbent: ChosenRule, challenger: ChosenRule)
    requires
        incumbent.depth < challenger.depth,
    ensures
        !incumbent.rule.override_allowed ==> contested(
            incumbent,
            challenger,
        ).rule.mode.strictness_of() >= incumbent.rule.mode.strictness_of(),
        incumbent.rule.override_allowed ==> contested(incumbent, challenger) == challenger,
        challenger.rule.mode.strictness_of() >= incumbent.rule.mode.strictness_of() ==> contested(
            incumbent,
            challenger,
        ) == challenger,
{
}

/// The rules of a scope decide on their own keys alone, and each rule in force has its key.
pub proof fn lemma_rules_decide_on_their_keys(
    chosen: Map<Seq<char>, ChosenRule>,
    depth: usize,
    rules: Seq<Rule>,
    key: Seq<char>,
)
    requires
        !keys_of(rules).contains(key),
    ensures
        after_rules(chosen, depth, rules).dom().contains(key) == chosen.dom().contains(key),
        chosen.dom().contains(key) ==> after_rules(chosen, depth, rules)[key] == chosen[key],
    decreases rules.len(),
{
    if rules.len() > 0 {
        let init = rules.drop_last();
        assert(!keys_of(init).contains(key)) by {
            if keys_of(init).contains(key) {
                let i = choose|i: int| 0 <= i < init.len() && keys_of(init)[i] == key;
                assert(keys_of(rules)[i] == key);
            }
        }
        lemma_rules_decide_on_their_keys(chosen, depth, init, key);
        assert(keys_of(rules)[rules.len() - 1] == rules.last().rule_key@);
    }
}

/// A rule further in that switches an inherited rule off, and may, leaves no rule in force
/// under that key.
pub proof fn lemma_off_disables_inherited_rule(
    chosen: Map<Seq<char>, ChosenRule>,
    found: ChosenRule,
)
    requires
        chosen.dom().contains(found.rule.rule_key@),
        chosen[found.rule.rule_key@].depth < found.depth,
        chosen[found.rule.rule_key@].rule.override_allowed,
        found.rule.mode == RuleMode::Off,
    ensures
        after_rule(chosen, found)[found.rule.rule_key@].rule.mode == RuleMode::Off,
{
}

/// Of two rules with one key the one that is in force stays exactly if the other one is no
/// further inside, or would weaken it although it may not be overridden. A mode is weaker
/// than another: off than recommended, and recommended than required.
pub proof fn lemma_contest_of_two_rules(incumbent: ChosenRule, challenger: ChosenRule)
    ensures
        ({
            let old = incumbent.rule.mode;
            let new = challenger.rule.mode;
            let weaker = (new is Off && !(old is Off)) || (new is Recommendation
                && old is Required);
            let stays = challenger.depth <= incumbent.depth || (weaker
                && !incumbent.rule.override_allowed);
            &&& stays ==> contested(incumbent, challenger) == incumbent
            &&& !stays ==> contested(incumbent, challenger) == challenger
        }),
{
}

/// A rule that is found changes what is in force under its own key and under no other: under
/// a key that had none it is in force itself.
pub proof fn lemma_rule_is_found(
    chosen: Map<Seq<char>, ChosenRule>,
    found: ChosenRule,
    key: Seq<char>,
)
    ensures
        ({
            let after = after_rule(chosen, found);
            let own = found.rule.rule_key@;
            &&& after.dom().contains(own)
            &&& key != own ==> (after.dom().contains(key) <==> chosen.dom().contains(key))
            &&& key != own && chosen.dom().contains(key) ==> after[key] == chosen[key]
            &&& !chosen.dom().contains(own) ==> after[own] == found
            &&& chosen.dom().contains(own) ==> after[own] == chosen[own] || after[own] == found
        }),
{
}

/// The rules of a scope are found one after the other, at its depth; those of a chain scope
/// by scope, from the outside in, each at its place in the chain.
pub proof fn lemma_rules_are_found_in_turn(
    chosen: Map<Seq<char>, ChosenRule>,
    depth: usize,
    rules: Seq<Rule>,
    rule: Rule,
    found: Seq<Seq<Rule>>,
)
    ensures
        after_rules(chosen, depth, Seq::<Rule>::empty()) == chosen,
        after_rules(chosen, depth, rules.push(rule)) == after_rule(
            after_rules(chosen, depth, rules),
            ChosenRule { depth, rule },
        ),
        walked(Seq::<Seq<Rule>>::empty()) == Map::<Seq<char>, ChosenRule>::empty(),
        found.len() <= usize::MAX ==> walked(found.push(rules)) == after_rules(
            walked(found),
            found.len() as usize,
            rules,
        ),
{
    assert(rules.push(rule).drop_last() =~= rules);
    assert(found.push(rules).drop_last() =~= found);
}

/// The rules that come out are exactly those in force that are not off, each key once, in
/// the order of the keys.
pub proof fn lemma_rules_that_come_out(
    chosen: Map<Seq<char>, ChosenRule>,
    rules: Seq<Rule>,
    key: Seq<char>,
)
    requires
        in_force(chosen, rules),
        chosen.dom().contains(key),
        chosen[key].rule.rule_key@ == key,
    ensures
        chosen[key].rule.mode is Off ==> !rules.contains(chosen[key].rule),
        !(chosen[key].rule.mode is Off) ==> rules.contains(chosen[key].rule),
        forall|i: int, j: int|
            0 <= i < j < rules.len() ==> text_before(
                (#[trigger] rules[i]).rule_key@,
                (#[trigger] rules[j]).rule_key@,
            ),
        forall|i: int|
            0 <= i < rules.len() ==> chosen.dom().contains((#[trigger] rules[i]).rule_key@)
                && chosen[rules[i].rule_key@].rule == rules[i],
{
    assert(rules.contains(chosen[key].rule) <==> chosen[key].rule.mode != RuleMode::Off
        && chosen.dom().contains(chosen[key].rule.rule_key@)
        && chosen[chosen[key].rule.rule_key@].rule == chosen[key].rule);
    assert forall|i: int, j: int| 0 <= i < j < rules.len() implies text_before(
        (#[trigger] rules[i]).rule_key@,
        (#[trigger] rules[j]).rule_key@,
    ) by {
        assert(text_before(keys_of(rules)[i], keys_of(rules)[j]));
    }
    assert forall|i: int| 0 <= i < rules.len() implies chosen.dom().contains(
        (#[trigger] rules[i]).rule_key@,
    ) && chosen[rules[i].rule_key@].rule == rules[i] by {
        assert(rules.contains(rules[i]));
    }
}

/// The rules of a scope that fire are asked for by the kind of the scope, by what it names,
/// where it names something, and by the trigger.
pub proof fn lemma_firing_rules_are_asked_for_by_scope(scope: RuleScope, trigger: RuleTrigger)
    ensures
        ({
            let q = firing_query(scope, trigger);
            &&& scope is Tenant ==> q.sql == SELECT_RULES@ + FIRING_WITHOUT_ID@ && q.binds == seq![
                sql_text("tenant"@),
                sql_text(trigger.text()),
            ]
            &&& scope matches RuleScope::Project { id } ==> q.sql == SELECT_RULES@
                + FIRING_WITH_ID@ && q.binds == seq![
                sql_text("project"@),
                sql_id(id),
                sql_text(trigger.text()),
            ]
            &&& scope matches RuleScope::Plan { id } ==> q.sql == SELECT_RULES@ + FIRING_WITH_ID@
                && q.binds == seq![sql_text("plan"@), sql_id(id), sql_text(trigger.text())]
            &&& scope matches RuleScope::Task { id } ==> q.sql == SELECT_RULES@ + FIRING_WITH_ID@
                && q.binds == seq![sql_text("task"@), sql_id(id), sql_text(trigger.text())]
        }),
{
}

/// Each field of a rule has a column of its own: what is written of one that changes is
/// written in its column, and the other columns stay.
pub proof fn lemma_rule_has_a_column_for_each_field(record: Rule, other: Rule)
    ensures
        rule_columns(Rule { id: other.id, ..record }) == rule_columns(record).update(
            0,
            sql_id(other.id),
        ),
        rule_columns(Rule { rule_key: other.rule_key, ..record }) == rule_columns(record).update(
            1,
            sql_text(other.rule_key@),
        ),
        rule_columns(Rule { title: other.title, ..record }) == rule_columns(record).update(
            2,
            sql_text(other.title@),
        ),
        rule_columns(Rule { scope: other.scope, ..record })
            == rule_columns(record).update(3, sql_text(other.scope.kind_text())).update(
                4,
                sql_opt_text(other.scope.id_text_of()),
            ),
        rule_columns(Rule { trigger: other.trigger, ..record }) == rule_columns(record).update(
            5,
            sql_text(other.trigger.text()),
        ),
        rule_columns(Rule { condition: other.condition, ..record }) == rule_columns(record).update(
            6,
            sql_opt_text(condition_text(other.condition)),
        ),
        rule_columns(Rule { requirement: other.requirement, ..record })
            == rule_columns(record).update(7, sql_text(other.requirement.json@)),
        rule_columns(Rule { mode: other.mode, ..record }) == rule_columns(record).update(
            8,
            sql_text(other.mode.text()),
        ),
        rule_columns(Rule { message: other.message, ..record }) == rule_columns(record).update(
            9,
            sql_text(other.message@),
        ),
        rule_columns(Rule { override_allowed: other.override_allowed, ..record })
            == rule_columns(record).update(10, sql_int(if other.override_allowed { 1 } else { 0 })),
        rule_columns(Rule { enabled: other.enabled, ..record }) == rule_columns(record).update(
            11,
            sql_int(if other.enabled { 1 } else { 0 }),
        ),
        rule_columns(Rule { created_at: other.created_at, ..record })
            == rule_columns(record).update(12, sql_time(other.created_at)),
        rule_columns(Rule { updated_at: other.updated_at, ..record })
            == rule_columns(record).update(13, sql_time(other.updated_at)),
        rule_columns(record).len() == 14,
{
}

/// Each field of a rule is read from columns of its own: what is read of a row with another
/// value there differs in that field alone.
pub proof fn lemma_rule_is_read_field_by_field(
    row: RuleRow,
    record: Rule,
    other_row: RuleRow,
    other: Rule,
)
    requires
        rule_read(row, record),
        rule_read(other_row, other),
    ensures
        rule_read(RuleRow { id: other_row.id, ..row }, Rule { id: other.id, ..record }),
        rule_read(
            RuleRow { rule_key: other_row.rule_key, ..row },
            Rule { rule_key: other.rule_key, ..record },
        ),
        rule_read(RuleRow { title: other_row.title, ..row }, Rule { title: other.title, ..record }),
        rule_read(
            RuleRow { scope_id: other_row.scope_id, scope_kind: other_row.scope_kind, ..row },
            Rule { scope: other.scope, ..record },
        ),
        rule_read(
            RuleRow { trigger: other_row.trigger, ..row },
            Rule { trigger: other.trigger, ..record },
        ),
        rule_read(
            RuleRow { condition: other_row.condition, ..row },
            Rule { condition: other.condition, ..record },
        ),
        rule_read(
            RuleRow { requirement: other_row.requirement, ..row },
            Rule { requirement: other.requirement, ..record },
        ),
        rule_read(RuleRow { mode: other_row.mode, ..row }, Rule { mode: other.mode, ..record }),
        rule_read(
            RuleRow { message: other_row.message, ..row },
            Rule { message: other.message, ..record },
        ),
        rule_read(
            RuleRow { override_allowed: other_row.override_allowed, ..row },
            Rule { override_allowed: other.override_allowed, ..record },
        ),
        rule_read(
            RuleRow { enabled: other_row.enabled, ..row },
            Rule { enabled: other.enabled, ..record },
        ),
        rule_read(
            RuleRow { created_at: other_row.created_at, ..row },
            Rule { created_at: other.created_at, ..record },
        ),
        rule_read(
            RuleRow { updated_at: other_row.updated_at, ..row },
            Rule { updated_at: other.updated_at, ..record },
        ),
{
}

/// A row stores each field of a rule in columns of its own: with another value there it stores
/// what differs in that field alone.
pub proof fn lemma_rule_is_stored_field_by_field(
    row: RuleRow,
    record: Rule,
    other_row: RuleRow,
    other: Rule,
)
    requires
        row.stores(record),
        other_row.stores(other),
    ensures
        (RuleRow { id: other_row.id, ..row }).stores(Rule { id: other.id, ..record }),
        (RuleRow { rule_key: other_row.rule_key, ..row }).stores(
            Rule { rule_key: other.rule_key, ..record },
        ),
        (RuleRow { title: other_row.title, ..row }).stores(Rule { title: other.title, ..record }),
        (RuleRow { scope_id: other_row.scope_id, scope_kind: other_row.scope_kind, ..row }).stores(
            Rule { scope: other.scope, ..record },
        ),
        (RuleRow { trigger: other_row.trigger, ..row }).stores(
            Rule { trigger: other.trigger, ..record },
        ),
        (RuleRow { condition: other_row.condition, ..row }).stores(
            Rule { condition: other.condition, ..record },
        ),
        (RuleRow { requirement: other_row.requirement, ..row }).stores(
            Rule { requirement: other.requirement, ..record },
        ),
        (RuleRow { mode: other_row.mode, ..row }).stores(Rule { mode: other.mode, ..record }),
        (RuleRow { message: other_row.message, ..row }).stores(
            Rule { message: other.message, ..record },
        ),
        (RuleRow { override_allowed: other_row.override_allowed, ..row }).stores(
            Rule { override_allowed: other.override_allowed, ..record },
        ),
        (RuleRow { enabled: other_row.enabled, ..row }).stores(
            Rule { enabled: other.enabled, ..record },
        ),
        (RuleRow { created_at: other_row.created_at, ..row }).stores(
            Rule { created_at: other.created_at, ..record },
        ),
        (RuleRow { updated_at: other_row.updated_at, ..row }).stores(
            Rule { updated_at: other.updated_at, ..record },
        ),
{
}

/// A row of a rule without a fault says what is read from it: each identifier, time, state and
/// text stands in it as it is read.
pub proof fn lemma_rule_is_what_the_row_says(row: RuleRow, record: Rule)
    requires
        (rule_fault(row) is None && rule_read(row, record))
            || (row.fault() is None && row.holds(record)),
    ensures
        row.id is Ok && crate::ids::id_parsed::<RuleId>(row.id->Ok_0@) == Ok::<RuleId, Seq<char>>(
            record.id,
        ),
        row.rule_key is Ok && row.rule_key->Ok_0 == record.rule_key,
        row.title is Ok && row.title->Ok_0 == record.title,
        row.scope_kind is Ok && row.scope_id is Ok,
        row.trigger is Ok && row.trigger->Ok_0@ == record.trigger.text(),
        row.condition is Ok && (row.condition->Ok_0 is None <==> record.condition is None),
        row.condition->Ok_0 matches Some(v) ==> v is Ok && record.condition == Some(v->Ok_0),
        row.requirement is Ok
            && row.requirement->Ok_0 is Ok
            && row.requirement->Ok_0->Ok_0 == record.requirement,
        row.mode is Ok && row.mode->Ok_0@ == record.mode.text(),
        row.message is Ok && row.message->Ok_0 == record.message,
        row.override_allowed is Ok,
        row.enabled is Ok,
        row.created_at is Ok
            && crate::time::rfc3339_parsed(row.created_at->Ok_0@) == Ok::<(i64, u32), Seq<char>>(
                (record.created_at.seconds(), record.created_at.subsec()),
            ),
        row.updated_at is Ok
            && crate::time::rfc3339_parsed(row.updated_at->Ok_0@) == Ok::<(i64, u32), Seq<char>>(
                (record.updated_at.seconds(), record.updated_at.subsec()),
            ),
{
    record.trigger.lemma_stored_names(row.trigger->Ok_0@);
    record.mode.lemma_stored_names(row.mode->Ok_0@);
    crate::time::lemma_time_is_read_from_its_text(row.created_at->Ok_0@);
    crate::time::lemma_time_is_read_from_its_text(row.updated_at->Ok_0@);
}

/// A text that stands for no value is reported with the text; one that stands for a value is
/// not reported.
pub proof fn lemma_unknown_rule_trigger_is_reported(v: RuleTrigger, s: Seq<char>)
    ensures
        trigger_fault(v.text()) is None,
        (forall|w: RuleTrigger| #[trigger] w.text() != s) ==> trigger_fault(s) == Some(
            ErrorView::Storage("unknown rule trigger: "@ + s),
        ),
{
    v.lemma_text_names_value();
    v.lemma_stored_names(s);
}

/// A text that stands for no value is reported with the text; one that stands for a value is
/// not reported.
pub proof fn lemma_unknown_rule_mode_is_reported(v: RuleMode, s: Seq<char>)
    ensures
        mode_fault(v.text()) is None,
        (forall|w: RuleMode| #[trigger] w.text() != s) ==> mode_fault(s) == Some(
            ErrorView::Storage("unknown rule mode: "@ + s),
        ),
{
    v.lemma_text_names_value();
    v.lemma_stored_names(s);
}

/// A row of a rule is refused for what is wrong with a column, with the error of that
/// column; where nothing is wrong with any, nothing is refused.
pub proof fn lemma_rule_is_refused_for_its_columns(row: RuleRow, other: RuleRow)
    requires
        rule_fault(row) is None,
    ensures
        rule_fault(RuleRow { id: other.id, ..row }) == column_fault(other.id).or_fault(
            stored_id_fault::<RuleId>(other.id->Ok_0@, "bad rule id"@),
        ),
        rule_fault(RuleRow { trigger: other.trigger, ..row })
            == column_fault(other.trigger).or_fault(trigger_fault(other.trigger->Ok_0@)),
        rule_fault(RuleRow { condition: other.condition, ..row })
            == column_fault(other.condition).or_fault(opt_parsed_fault(other.condition->Ok_0)),
        rule_fault(RuleRow { requirement: other.requirement, ..row })
            == column_fault(other.requirement).or_fault(parsed_fault(other.requirement->Ok_0)),
        rule_fault(RuleRow { mode: other.mode, ..row }) == column_fault(other.mode).or_fault(
            mode_fault(other.mode->Ok_0@),
        ),
        rule_fault(RuleRow { created_at: other.created_at, ..row })
            == column_fault(other.created_at).or_fault(ts_fault(other.created_at->Ok_0@)),
        rule_fault(RuleRow { updated_at: other.updated_at, ..row })
            == column_fault(other.updated_at).or_fault(ts_fault(other.updated_at->Ok_0@)),
        rule_fault(RuleRow { rule_key: other.rule_key, ..row }) == column_fault(other.rule_key),
        rule_fault(RuleRow { title: other.title, ..row }) == column_fault(other.title),
        rule_fault(RuleRow { message: other.message, ..row }) == column_fault(other.message),
        rule_fault(RuleRow { override_allowed: other.override_allowed, ..row }) == column_fault(
            other.override_allowed,
        ),
        rule_fault(RuleRow { enabled: other.enabled, ..row }) == column_fault(other.enabled),
{
}

/// A scope that is none is refused for what is wrong with it: an unknown kind with the kind,
/// and a kind whose identifier is missing with the kind, too.
pub proof fn lemma_rule_is_refused_for_its_scope(row: RuleRow, other: RuleRow)
    requires
        rule_fault(row) is None,
        other.scope_kind is Ok,
    ensures
        ({
            let kind = other.scope_kind->Ok_0@;
            let unscoped = RuleRow { scope_kind: other.scope_kind, scope_id: Ok(None), ..row };
            &&& kind != "tenant"@ && kind != "project"@ && kind != "plan"@ && kind != "task"@
                ==> rule_fault(unscoped) == Some(
                ErrorView::Storage("unknown rule scope kind: "@ + kind),
            )
            &&& kind == "tenant"@ ==> rule_fault(unscoped) is None
            &&& kind == "project"@ || kind == "plan"@ || kind == "task"@ ==> rule_fault(unscoped)
                == Some(ErrorView::Storage(kind + " scope missing scope_id"@))
        }),
{
    crate::scope::lemma_scope_is_read_by_kind(
        other.scope_kind->Ok_0@,
        None,
        "unknown rule scope kind: "@,
    );
}

} // verus!
