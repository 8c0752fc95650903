//! Versions of tasks and documents: what each event changed in them.
use vstd::prelude::*;

use crate::domain::Actor;
use crate::error::{CoreError, ErrorView};
use crate::events::EventEnvelope;
use crate::ids::{hex_digit, id_text, VersionId};
use crate::json::{
    compared, is_plain_json, json_fault, json_parsed, json_printed, lemma_plain_json_deeper,
    opt_compared, opt_is_plain_json, opt_json_fault, opt_json_value, opt_model, parse_json,
    parse_optional_json, parse_strings, print_json, print_opt_json, print_strings, printed_opt,
    same_opt, strings_fault, strings_parsed, strings_printed, Json, JsonMap, JsonView, JSON_DEPTH,
};
use crate::order::{in_order, insert_in_order, lemma_order_is_unique, text_before};
use crate::query::{
    sql_actor, sql_id, sql_int, sql_opt_text, sql_text, sql_time, statement, BoundView, Query,
};
use crate::rows::Faults;
use crate::text::{
    begins_with, concat2, concat3, decimal, decimal_text, has_prefix, join, joined, lines, lines_of,
    list_has, opt_text, quote, quoted, text_eq, texts,
};

verus! {

/// A version of a record.
#[derive(Clone, Debug, PartialEq, Eq)]
pub struct EntityVersion {
    pub id: String,
    pub entity_type: String,
    pub entity_id: String,
    pub version_number: i64,
    pub actor: Json,
    pub event_type: String,
    pub reason: Option<String>,
    pub source_event_id: Option<String>,
    pub source_event_seq: Option<i64>,
    pub created_at: String,
    pub before: Option<Json>,
    pub after: Option<Json>,
    pub diff: Json,
    pub changed_fields: Vec<String>,
    pub summary: String,
}

/// The store of versions.
#[derive(Clone, Copy, Debug)]
pub struct EntityVersionRepo;

pub const LIST_FOR_ENTITY: &'static str = "SELECT * FROM entity_versions \
     WHERE entity_type = ? AND entity_id = ? \
     ORDER BY version_number DESC \
     LIMIT ?";

pub const LATEST_VERSIONS: &'static str = "SELECT * FROM entity_versions \
     ORDER BY created_at DESC, id DESC \
     LIMIT ?";

pub const GET_VERSION: &'static str = "SELECT * FROM entity_versions WHERE id = ?";

pub const GET_BY_NUMBER: &'static str = "SELECT * FROM entity_versions \
     WHERE entity_type = ? AND entity_id = ? AND version_number = ?";

pub const DIFFS_OF_EVENT: &'static str = "SELECT id, diff_json FROM entity_versions WHERE source_event_id = ?";

pub const MARK_ROLLBACK: &'static str = "UPDATE entity_versions SET reason = 'rollback', diff_json = ? WHERE id = ?";

pub const COUNT_OF_EVENT: &'static str = "SELECT COUNT(*) FROM entity_versions \
     WHERE entity_type = ? AND entity_id = ? AND source_event_id = ?";

pub const NEXT_NUMBER: &'static str = "SELECT COALESCE(MAX(version_number), 0) + 1 FROM entity_versions \
     WHERE entity_type = ? AND entity_id = ?";

pub const INSERT_VERSION: &'static str = "INSERT INTO entity_versions \
     (id, entity_type, entity_id, version_number, actor_json, actor_kind, actor_id, \
     actor_name, event_type, reason, source_event_id, source_event_seq, created_at, \
     before_json, after_json, diff_json, changed_fields_json, summary) \
     VALUES (?, ?, ?, ?, ?, ?, ?, ?, ?, NULL, ?, ?, ?, ?, ?, ?, ?, ?)";

// ── fields ──────────────────────────────────────────────────────────────────

/// A member of an object; nothing where there is no object or no such member.
pub open spec fn member(j: JsonView, key: Seq<char>) -> Option<JsonView> {
    match j {
        JsonView::Object(map) => if map.dom().contains(key) {
            Some(map[key])
        } else {
            None
        },
        _ => None,
    }
}

/// A member of an object, or null.
pub open spec fn member_or_null(j: JsonView, key: Seq<char>) -> JsonView {
    match member(j, key) {
        Some(value) => value,
        None => JsonView::Null,
    }
}

fn get_member<'a>(j: &'a Json, key: &str) -> (r: Option<&'a Json>)
    ensures
        match r {
            Some(value) => member(j.model(), key@) == Some(value.model()),
            None => member(j.model(), key@) is None,
        },
{
    match j {
        Json::Object(map) => map.get(key),
        _ => None,
    }
}

fn copy_member(j: &Json, key: &str) -> (r: Json)
    ensures
        r.model() == member_or_null(j.model(), key@),
{
    match get_member(j, key) {
        Some(value) => value.copy(),
        None => Json::Null,
    }
}

/// The list names the fields in which two records differ, in order: `created` and
/// `deleted` stand for a record that comes or goes, and `value` for one that is no
/// object.
pub open spec fn names_changes(
    before: Option<JsonView>,
    after: Option<JsonView>,
    fields: Seq<Seq<char>>,
) -> bool {
    match (before, after) {
        (None, Some(_)) => fields == seq!["created"@],
        (Some(_), None) => fields == seq!["deleted"@],
        (None, None) => fields == Seq::<Seq<char>>::empty(),
        (Some(b), Some(a)) => if b is Object && a is Object {
            &&& in_order(fields)
            &&& forall|k: Seq<char>|
                #![trigger fields.contains(k)]
                fields.contains(k) <==> opt_compared(member(b, k)) != opt_compared(member(a, k))
        } else if compared(b) != compared(a) {
            fields == seq!["value"@]
        } else {
            fields == Seq::<Seq<char>>::empty()
        },
    }
}

/// The fields in which two records differ.
pub open spec fn changes_between(before: Option<JsonView>, after: Option<JsonView>) -> Seq<
    Seq<char>,
> {
    choose|fields: Seq<Seq<char>>| names_changes(before, after, fields)
}

/// There is one list of the fields in which two records differ.
pub proof fn lemma_changes_are_unique(
    before: Option<JsonView>,
    after: Option<JsonView>,
    fields: Seq<Seq<char>>,
)
    requires
        names_changes(before, after, fields),
    ensures
        fields == changes_between(before, after),
{
    let chosen = changes_between(before, after);
    assert(names_changes(before, after, chosen));
    if before is Some && after is Some && before->Some_0 is Object && after->Some_0 is Object {
        assert forall|t: Seq<char>| #[trigger] fields.contains(t) <==> chosen.contains(t) by {
            assert(chosen.contains(t) <==> opt_compared(member(before->Some_0, t)) != opt_compared(
                member(after->Some_0, t),
            ));
        }
        lemma_order_is_unique(fields, chosen);
    }
}

fn add_changed(list: Vec<String>, keys: &JsonMap, b: &Json, a: &Json) -> (r: Vec<String>)
    requires
        in_order(texts(list@)),
    ensures
        in_order(texts(r@)),
        forall|k: Seq<char>|
            #![trigger texts(r@).contains(k)]
            texts(r@).contains(k) <==> texts(list@).contains(k) || (keys.model().dom().contains(k)
                && opt_compared(member(b.model(), k)) != opt_compared(member(a.model(), k))),
{
    let mut out = list;
    let mut i: usize = 0;
    while i < keys.len()
        invariant
            i <= keys.size(),
            in_order(texts(out@)),
            forall|k: Seq<char>|
                #![trigger texts(out@).contains(k)]
                texts(out@).contains(k) <==> texts(list@).contains(k) || ((exists|j: int|
                    0 <= j < i && keys.key(j) == k) && opt_compared(member(b.model(), k))
                    != opt_compared(member(a.model(), k))),
        decreases keys.size() - i,
    {
        let ghost before = texts(out@);
        let key = keys.key_at(i);
        let old = get_member(b, key.as_str());
        let new = get_member(a, key.as_str());
        let differs = match (old, new) {
            (Some(x), Some(y)) => !x.same(y),
            (None, None) => false,
            _ => true,
        };
        assert(differs == (opt_compared(member(b.model(), key@)) != opt_compared(
            member(a.model(), key@),
        )));
        if differs {
            insert_in_order(&mut out, key.clone());
        }
        assert(keys.key(i as int) == key@);
        assert forall|k: Seq<char>| #[trigger] texts(out@).contains(k) <==> texts(list@).contains(
            k,
        ) || ((exists|j: int| 0 <= j < i + 1 && keys.key(j) == k) && opt_compared(member(b.model(), k))
            != opt_compared(member(a.model(), k))) by {
            assert(before.contains(k) || !before.contains(k));
            if exists|j: int| 0 <= j < i + 1 && keys.key(j) == k {
                let j = choose|j: int| 0 <= j < i + 1 && keys.key(j) == k;
                if j < i {
                    assert(exists|j: int| 0 <= j < i && keys.key(j) == k);
                } else {
                    assert(k == key@);
                }
            }
        }
        i = i + 1;
    }
    proof {
        keys.lemma_keys();
    }
    out
}

fn singleton(s: &str) -> (r: Vec<String>)
    ensures
        texts(r@) == seq![s@],
{
    let mut out: Vec<String> = Vec::new();
    out.push(s.to_owned());
    assert(texts(out@) =~= seq![s@]);
    out
}

/// The fields in which two records differ, in order and each once.
pub fn changed_fields(before: &Option<Json>, after: &Option<Json>) -> (r: Vec<String>)
    ensures
        names_changes(opt_model(*before), opt_model(*after), texts(r@)),
        texts(r@) == changes_between(opt_model(*before), opt_model(*after)),
{
    let r = match (before, after) {
        (None, Some(_)) => singleton("created"),
        (Some(_), None) => singleton("deleted"),
        (None, None) => Vec::new(),
        (Some(b), Some(a)) => match (b, a) {
            (Json::Object(bm), Json::Object(am)) => {
                let list: Vec<String> = Vec::new();
                assert(forall|k: Seq<char>| !texts(list@).contains(k));
                let list = add_changed(list, bm, b, a);
                let list = add_changed(list, am, b, a);
                list
            },
            _ => if b.same(a) {
                Vec::new()
            } else {
                singleton("value")
            },
        },
    };
    proof {
        if r@.len() == 0 {
            assert(texts(r@) =~= Seq::<Seq<char>>::empty());
        }
        if let (Some(b), Some(a)) = (opt_model(*before), opt_model(*after)) {
            if b is Object && a is Object {
                assert forall|k: Seq<char>| #[trigger] texts(r@).contains(k) <==> opt_compared(
                    member(b, k),
                ) != opt_compared(member(a, k)) by {
                    assert(member(b, k) != member(a, k) ==> b->Object_0.dom().contains(k)
                        || a->Object_0.dom().contains(k));
                }
            }
        }
        assert(names_changes(opt_model(*before), opt_model(*after), texts(r@)));
        lemma_changes_are_unique(opt_model(*before), opt_model(*after), texts(r@));
    }
    r
}

// ── text differences ────────────────────────────────────────────────────────

/// Each line with a mark before it and a line feed behind it.
pub open spec fn marked(mark: char, list: Seq<Seq<char>>) -> Seq<char>
    decreases list.len(),
{
    if list.len() == 0 {
        seq![]
    } else {
        marked(mark, list.drop_last()) + seq![mark] + list.last() + seq!['\n']
    }
}

/// The number of lines that two texts have in common at their beginnings.
pub open spec fn common_lines(a: Seq<Seq<char>>, b: Seq<Seq<char>>) -> nat
    decreases a.len(),
{
    if a.len() > 0 && b.len() > 0 && a[0] == b[0] {
        1 + common_lines(a.skip(1), b.skip(1))
    } else {
        0
    }
}

/// The difference between two texts: the lines that they have in common at their
/// beginnings, then what is left of the first one, then of the second one.
pub open spec fn text_diff(before: Seq<char>, after: Seq<char>) -> Seq<char> {
    let b = lines_of(before);
    let a = lines_of(after);
    let n = common_lines(b, a) as int;
    "--- before\n+++ after\n@@\n"@ + marked(' ', b.subrange(0, n)) + marked(
        '-',
        b.subrange(n, b.len() as int),
    ) + marked('+', a.subrange(n, a.len() as int))
}

proof fn lemma_common_lines(a: Seq<Seq<char>>, b: Seq<Seq<char>>, n: int)
    requires
        0 <= n <= a.len(),
        n <= b.len(),
        forall|i: int| 0 <= i < n ==> a[i] == b[i],
        n < a.len() && n < b.len() ==> a[n] != b[n],
    ensures
        common_lines(a, b) == n,
    decreases a.len(),
{
    if n > 0 {
        assert forall|i: int| 0 <= i < n - 1 implies a.skip(1)[i] == b.skip(1)[i] by {
            assert(a[i + 1] == b[i + 1]);
        }
        lemma_common_lines(a.skip(1), b.skip(1), n - 1);
    }
}

fn append_marked(out: String, mark: &str, Ghost(c): Ghost<char>, list: &Vec<String>, from: usize, to: usize) -> (r:
    String)
    requires
        mark@ == seq![c],
        from <= to <= list@.len(),
    ensures
        r@ == out@ + marked(c, texts(list@).subrange(from as int, to as int)),
{
    let ghost all = texts(list@);
    let mut r = out;
    let mut i: usize = from;
    proof {
        reveal_strlit("\n");
        assert("\n"@ =~= seq!['\n']);
        assert(all.subrange(from as int, from as int) =~= seq![]);
        assert(out@ + marked(c, all.subrange(from as int, from as int)) =~= out@);
    }
    while i < to
        invariant
            from <= i <= to,
            to <= list@.len(),
            all == texts(list@),
            mark@ == seq![c],
            "\n"@ == seq!['\n'],
            r@ == out@ + marked(c, all.subrange(from as int, i as int)),
        decreases to - i,
    {
        proof {
            assert(all.subrange(from as int, i + 1).drop_last() =~= all.subrange(
                from as int,
                i as int,
            ));
            assert(all.subrange(from as int, i + 1).last() == list@[i as int]@);
        }
        let ghost start = r@;
        r.append(mark);
        r.append(list[i].as_str());
        r.append("\n");
        assert(r@ =~= out@ + (marked(c, all.subrange(from as int, i as int)) + seq![c]
            + list@[i as int]@ + seq!['\n']));
        i = i + 1;
    }
    r
}

/// The difference between two texts, line by line.
pub fn unified_text_diff(before: &str, after: &str) -> (r: String)
    ensures
        r@ == text_diff(before@, after@),
{
    let before_lines = lines(before);
    let after_lines = lines(after);
    let ghost b = texts(before_lines@);
    let ghost a = texts(after_lines@);
    let mut n: usize = 0;
    while n < before_lines.len() && n < after_lines.len() && text_eq(
        before_lines[n].as_str(),
        after_lines[n].as_str(),
    )
        invariant
            n <= before_lines@.len(),
            n <= after_lines@.len(),
            b == texts(before_lines@),
            a == texts(after_lines@),
            forall|i: int| 0 <= i < n ==> b[i] == a[i],
        decreases before_lines@.len() - n,
    {
        assert(b[n as int] == before_lines@[n as int]@);
        assert(a[n as int] == after_lines@[n as int]@);
        n = n + 1;
    }
    proof {
        if n < b.len() && n < a.len() {
            assert(b[n as int] == before_lines@[n as int]@);
            assert(a[n as int] == after_lines@[n as int]@);
        }
        lemma_common_lines(b, a, n as int);
        reveal_strlit(" ");
        reveal_strlit("-");
        reveal_strlit("+");
        assert(" "@ =~= seq![' ']);
        assert("-"@ =~= seq!['-']);
        assert("+"@ =~= seq!['+']);
    }
    let out = "--- before\n+++ after\n@@\n".to_owned();
    let out = append_marked(out, " ", Ghost(' '), &before_lines, 0, n);
    let out = append_marked(out, "-", Ghost('-'), &before_lines, n, before_lines.len());
    append_marked(out, "+", Ghost('+'), &after_lines, n, after_lines.len())
}

// ── digests ─────────────────────────────────────────────────────────────────

/// The SHA-256 digest of some bytes.
pub uninterp spec fn sha256(data: Seq<u8>) -> Seq<u8>;

/// Computes a digest with `sha2::Sha256::digest`, a function of the bytes alone. It has
/// 32 bytes.
#[verifier::external_body]
fn digest(data: &[u8]) -> (r: Vec<u8>)
    ensures
        r@ == sha256(data@),
        r@.len() == 32,
{
    <sha2::Sha256 as sha2::Digest>::digest(data).to_vec()
}

/// Two lower-case hexadecimal digits for each byte.
pub open spec fn hex_of(data: Seq<u8>) -> Seq<char> {
    Seq::new(
        2 * data.len(),
        |i: int|
            if i % 2 == 0 {
                hex_digit(data[i / 2] as nat / 16)
            } else {
                hex_digit(data[i / 2] as nat % 16)
            },
    )
}

/// Prints bytes with `hex::encode`: two lower-case hexadecimal digits for each.
#[verifier::external_body]
fn hex_text(data: &Vec<u8>) -> (r: String)
    ensures
        r@ == hex_of(data@),
{
    hex::encode(data)
}

/// What a version keeps of a text: its SHA-256 digest in hexadecimal.
pub open spec fn digest_text(content: Seq<char>) -> Seq<char> {
    "sha256:"@ + hex_of(sha256(vstd::utf8::encode_utf8(content)))
}

/// The digest of a text.
pub fn sha256_digest(content: &str) -> (r: String)
    ensures
        r@ == digest_text(content@),
        r@.len() == 71,
{
    let hex = hex_text(&digest(content.as_bytes()));
    proof {
        reveal_strlit("sha256:");
    }
    concat2("sha256:", hex.as_str())
}

// ── diffs ───────────────────────────────────────────────────────────────────

/// An object with the two given members.
pub open spec fn object2(k1: Seq<char>, v1: JsonView, k2: Seq<char>, v2: JsonView) -> JsonView {
    JsonView::Object(Map::<Seq<char>, JsonView>::empty().insert(k1, v1).insert(k2, v2))
}

/// What a field was and what it is.
pub open spec fn change_of(before: JsonView, after: JsonView) -> JsonView {
    object2("before"@, before, "after"@, after)
}

/// The changes of the given fields, by field.
pub open spec fn changes_of(
    before: JsonView,
    after: JsonView,
    fields: Seq<Seq<char>>,
) -> Map<Seq<char>, JsonView> {
    Map::new(
        |k: Seq<char>| fields.contains(k),
        |k: Seq<char>| change_of(member_or_null(before, k), member_or_null(after, k)),
    )
}

fn change_json(before: Json, after: Json) -> (r: Json)
    ensures
        r.model() == change_of(before.model(), after.model()),
{
    Json::Object(JsonMap::new().with("before", before).with("after", after))
}

/// The changes of the given fields, by field.
pub fn field_changes(before: &Json, after: &Json, fields: &Vec<String>) -> (r: JsonMap)
    ensures
        r.model() == changes_of(before.model(), after.model(), texts(fields@)),
{
    let ghost b = before.model();
    let ghost a = after.model();
    let ghost all = texts(fields@);
    let mut out = JsonMap::new();
    let mut i: usize = 0;
    assert(all.subrange(0, 0) =~= seq![]);
    assert(out.model() =~= changes_of(b, a, all.subrange(0, 0)));
    while i < fields.len()
        invariant
            i <= fields@.len(),
            all == texts(fields@),
            b == before.model(),
            a == after.model(),
            out.model() == changes_of(b, a, all.subrange(0, i as int)),
        decreases fields@.len() - i,
    {
        let key = fields[i].as_str();
        let change = change_json(copy_member(before, key), copy_member(after, key));
        let ghost so_far = out.model();
        out = out.insert(fields[i].clone(), change);
        proof {
            let done = all.subrange(0, i as int);
            let next = all.subrange(0, i + 1);
            assert(next =~= done.push(key@));
            assert forall|k: Seq<char>| next.contains(k) <==> done.contains(k) || k == key@ by {
                if done.contains(k) {
                    let j = choose|j: int| 0 <= j < done.len() && done[j] == k;
                    assert(next[j] == k);
                }
                assert(next[i as int] == key@);
            }
            assert(out.model() =~= changes_of(b, a, next));
        }
        i = i + 1;
    }
    assert(all.subrange(0, fields@.len() as int) =~= all);
    out
}

/// The text of a record's `content`, where it has one.
pub open spec fn content_of(j: JsonView) -> Option<Seq<char>> {
    match member(j, "content"@) {
        Some(JsonView::Text(s)) => Some(s),
        _ => None,
    }
}

/// What a version keeps of a changed text: the digests and the difference.
pub open spec fn text_change(before: Seq<char>, after: Seq<char>) -> JsonView {
    JsonView::Object(
        Map::<Seq<char>, JsonView>::empty().insert(
            "before_hash"@,
            JsonView::Text(digest_text(before)),
        ).insert("after_hash"@, JsonView::Text(digest_text(after))).insert(
            "unified_diff"@,
            JsonView::Text(text_diff(before, after)),
        ),
    )
}

/// A diff document.
pub open spec fn diff_document(
    kind: Seq<char>,
    fields: Map<Seq<char>, JsonView>,
    source: Seq<char>,
) -> JsonView {
    JsonView::Object(
        Map::<Seq<char>, JsonView>::empty().insert("kind"@, JsonView::Text(kind)).insert(
            "fields"@,
            JsonView::Object(fields),
        ).insert(
            "metadata"@,
            JsonView::Object(
                Map::<Seq<char>, JsonView>::empty().insert("source"@, JsonView::Text(source)),
            ),
        ),
    )
}

/// The two records are objects whose `content` is among the changed fields and a text
/// in both.
pub open spec fn is_text_patch(
    before: Option<JsonView>,
    after: Option<JsonView>,
    fields: Seq<Seq<char>>,
) -> bool {
    &&& fields.contains("content"@)
    &&& before is Some && content_of(before->Some_0) is Some
    &&& after is Some && content_of(after->Some_0) is Some
}

/// What a version keeps of the difference between two records. Of a text that was
/// edited it keeps digests and a line by line difference, of any other field the two
/// values.
pub open spec fn diff_of(
    before: Option<JsonView>,
    after: Option<JsonView>,
    source: Seq<char>,
    fields: Seq<Seq<char>>,
) -> JsonView {
    if is_text_patch(before, after, fields) {
        diff_document(
            "document_text_patch"@,
            changes_of(before->Some_0, after->Some_0, fields).insert(
                "content"@,
                text_change(content_of(before->Some_0)->Some_0, content_of(after->Some_0)->Some_0),
            ),
            source,
        )
    } else {
        diff_document(
            "field_json_patch"@,
            match (before, after) {
                (Some(b), Some(a)) => if b is Object && a is Object {
                    changes_of(b, a, fields)
                } else {
                    Map::<Seq<char>, JsonView>::empty()
                },
                (None, Some(a)) => Map::<Seq<char>, JsonView>::empty().insert(
                    "created"@,
                    change_of(JsonView::Null, a),
                ),
                (Some(b), None) => Map::<Seq<char>, JsonView>::empty().insert(
                    "deleted"@,
                    change_of(b, JsonView::Null),
                ),
                (None, None) => Map::<Seq<char>, JsonView>::empty(),
            },
            source,
        )
    }
}

fn get_content(j: &Option<Json>) -> (r: Option<&str>)
    ensures
        match r {
            Some(s) => *j is Some && content_of(j->Some_0.model()) == Some(s@),
            None => *j is None || content_of(j->Some_0.model()) is None,
        },
{
    match j {
        Some(j) => match get_member(j, "content") {
            Some(Json::Text(s)) => Some(s.as_str()),
            _ => None,
        },
        None => None,
    }
}

fn diff_json(kind: &str, fields: JsonMap, source: &str) -> (r: Json)
    ensures
        r.model() == diff_document(kind@, fields.model(), source@),
{
    let metadata = JsonMap::new().with("source", Json::text(source));
    Json::Object(
        JsonMap::new().with("kind", Json::text(kind)).with("fields", Json::Object(fields)).with(
            "metadata",
            Json::Object(metadata),
        ),
    )
}

/// What a version keeps of the difference between two records.
pub fn field_diff(
    before: &Option<Json>,
    after: &Option<Json>,
    source: &str,
    changed_fields: &Vec<String>,
) -> (r: Json)
    ensures
        r.model() == diff_of(
            opt_model(*before),
            opt_model(*after),
            source@,
            texts(changed_fields@),
        ),
{
    if list_has(changed_fields, "content") {
        if let (Some(before_content), Some(after_content)) = (
            get_content(before),
            get_content(after),
        ) {
            if let (Some(b), Some(a)) = (before, after) {
                let change = JsonMap::new().with(
                    "before_hash",
                    Json::Text(sha256_digest(before_content)),
                ).with("after_hash", Json::Text(sha256_digest(after_content))).with(
                    "unified_diff",
                    Json::Text(unified_text_diff(before_content, after_content)),
                );
                let fields = field_changes(b, a, changed_fields).with(
                    "content",
                    Json::Object(change),
                );
                return diff_json("document_text_patch", fields, source);
            }
        }
    }
    let fields = match (before, after) {
        (Some(b), Some(a)) => match (b, a) {
            (Json::Object(_), Json::Object(_)) => field_changes(b, a, changed_fields),
            _ => JsonMap::new(),
        },
        (None, Some(a)) => JsonMap::new().with("created", change_json(Json::Null, a.copy())),
        (Some(b), None) => JsonMap::new().with("deleted", change_json(b.copy(), Json::Null)),
        (None, None) => JsonMap::new(),
    };
    diff_json("field_json_patch", fields, source)
}

// ── summaries ───────────────────────────────────────────────────────────────

/// A value in a summary: a text is quoted, anything else is printed as JSON.
pub open spec fn value_in_summary(j: JsonView) -> Seq<char> {
    match j {
        JsonView::Text(s) => quoted(s),
        JsonView::Null => "null"@,
        other => json_printed(other),
    }
}

/// A value in a summary.
pub fn summary_value(value: &Json) -> (r: String)
    ensures
        r@ == value_in_summary(value.model()),
{
    match value {
        Json::Text(s) => quote(s.as_str()),
        Json::Null => "null".to_owned(),
        _ => print_json(value),
    }
}

/// The length of a record's `content` in bytes; zero where it has none.
pub open spec fn content_len(j: JsonView) -> nat {
    match content_of(j) {
        Some(s) => vstd::utf8::encode_utf8(s).len(),
        None => 0,
    }
}

/// One line on what changed in a record.
pub open spec fn summary_of(
    label: Seq<char>,
    before: Option<JsonView>,
    after: Option<JsonView>,
) -> Seq<char> {
    match (before, after) {
        (None, Some(_)) => label + " created"@,
        (Some(_), None) => label + " deleted"@,
        (None, None) => label + " unchanged"@,
        (Some(b), Some(a)) => {
            let fields = changes_between(before, after);
            if fields.len() == 0 {
                label + " unchanged"@
            } else if fields.len() == 1 && fields[0] == "content"@ {
                if content_len(a) >= content_len(b) {
                    label + " content changed: +"@ + decimal(
                        (content_len(a) - content_len(b)) as nat,
                    ) + " characters"@
                } else {
                    label + " content changed: -"@ + decimal(
                        (content_len(b) - content_len(a)) as nat,
                    ) + " characters"@
                }
            } else if fields.len() == 1 {
                label + " "@ + fields[0] + " changed: "@ + value_in_summary(
                    member_or_null(b, fields[0]),
                ) + " -> "@ + value_in_summary(member_or_null(a, fields[0]))
            } else {
                label + " updated: "@ + joined(fields, ", "@)
            }
        },
    }
}

fn content_bytes(j: &Json) -> (r: usize)
    ensures
        r == content_len(j.model()),
{
    match get_member(j, "content") {
        Some(Json::Text(s)) => {
            let n: usize = s.as_str().as_bytes().len();
            n
        },
        _ => 0,
    }
}

/// One line on what changed in a record.
pub fn update_summary(entity_label: &str, before: &Option<Json>, after: &Option<Json>) -> (r: String)
    ensures
        r@ == summary_of(entity_label@, opt_model(*before), opt_model(*after)),
{
    match (before, after) {
        (None, Some(_)) => concat2(entity_label, " created"),
        (Some(_), None) => concat2(entity_label, " deleted"),
        (None, None) => concat2(entity_label, " unchanged"),
        (Some(b), Some(a)) => {
            let fields = changed_fields(before, after);
            if fields.len() == 0 {
                return concat2(entity_label, " unchanged");
            }
            assert(texts(fields@)[0] == fields@[0]@);
            if fields.len() > 1 {
                return concat3(entity_label, " updated: ", join(&fields, ", ").as_str());
            }
            let field = fields[0].as_str();
            if text_eq(field, "content") {
                let before_len: usize = content_bytes(b);
                let after_len: usize = content_bytes(a);
                let (sign, n) = if after_len >= before_len {
                    (" content changed: +", after_len - before_len)
                } else {
                    (" content changed: -", before_len - after_len)
                };
                let mut out = concat3(entity_label, sign, decimal_text(n as u64).as_str());
                out.append(" characters");
                return out;
            }
            let before_value = copy_member(b, field);
            let after_value = copy_member(a, field);
            let mut out = concat3(entity_label, " ", field);
            out.append(" changed: ");
            out.append(summary_value(&before_value).as_str());
            out.append(" -> ");
            out.append(summary_value(&after_value).as_str());
            out
        },
    }
}

// ── queries ─────────────────────────────────────────────────────────────────

/// Why there are no versions of a type of record.
pub open spec fn entity_type_fault(entity_type: Seq<char>) -> Option<ErrorView> {
    if entity_type == "task"@ || entity_type == "document"@ {
        None
    } else {
        Some(ErrorView::Validation("unknown version entity_type: "@ + entity_type))
    }
}

/// Refuses a type of record that has no versions.
pub fn validate_entity_type(entity_type: &str) -> (r: Result<(), CoreError>)
    ensures
        match entity_type_fault(entity_type@) {
            Some(e) => r is Err && r->Err_0@ == e,
            None => r is Ok,
        },
{
    if text_eq(entity_type, "task") || text_eq(entity_type, "document") {
        Ok(())
    } else {
        Err(CoreError::Validation(concat2("unknown version entity_type: ", entity_type)))
    }
}

/// An identifier with the prefix of its type of record.
pub open spec fn normal_entity_id(entity_type: Seq<char>, entity_id: Seq<char>) -> Seq<char> {
    if entity_type == "task"@ && !begins_with(entity_id, "tsk_"@) {
        "tsk_"@ + entity_id
    } else if entity_type == "document"@ && !begins_with(entity_id, "doc_"@) {
        "doc_"@ + entity_id
    } else {
        entity_id
    }
}

/// Puts the prefix of its type of record before an identifier that lacks it.
pub fn normalize_entity_id(entity_type: &str, entity_id: &str) -> (r: String)
    ensures
        r@ == normal_entity_id(entity_type@, entity_id@),
{
    if text_eq(entity_type, "task") && !has_prefix(entity_id, "tsk_") {
        concat2("tsk_", entity_id)
    } else if text_eq(entity_type, "document") && !has_prefix(entity_id, "doc_") {
        concat2("doc_", entity_id)
    } else {
        entity_id.to_owned()
    }
}

/// An identifier that has its prefix stays as it is: doing it twice is doing it once.
pub proof fn lemma_normalize_is_idempotent(entity_type: Seq<char>, entity_id: Seq<char>)
    ensures
        normal_entity_id(entity_type, normal_entity_id(entity_type, entity_id))
            == normal_entity_id(entity_type, entity_id),
{
    reveal_strlit("task");
    reveal_strlit("document");
    assert("task"@.len() != "document"@.len());
    let t = "tsk_"@ + entity_id;
    let d = "doc_"@ + entity_id;
    assert(t.subrange(0, "tsk_"@.len() as int) =~= "tsk_"@);
    assert(d.subrange(0, "doc_"@.len() as int) =~= "doc_"@);
}

/// The number of versions that a query may ask for.
pub open spec fn clamped(limit: u32) -> int {
    if limit < 1 {
        1
    } else if limit > 200 {
        200
    } else {
        limit as int
    }
}

/// Keeps the number of versions that a query asks for between 1 and 200.
pub fn clamp_limit(limit: u32) -> (r: i64)
    ensures
        r == clamped(limit),
        1 <= r <= 200,
{
    if limit < 1 {
        1
    } else if limit > 200 {
        200
    } else {
        limit as i64
    }
}

impl EntityVersionRepo {
    /// The query for the latest versions of a record.
    pub fn list_for_entity(entity_type: &str, entity_id: &str, limit: u32) -> (r: Result<
        Query,
        CoreError,
    >)
        ensures
            match entity_type_fault(entity_type@) {
                Some(e) => r is Err && r->Err_0@ == e,
                None => r is Ok && r->Ok_0@ == statement(
                    LIST_FOR_ENTITY@,
                    seq![
                        sql_text(entity_type@),
                        sql_text(normal_entity_id(entity_type@, entity_id@)),
                        sql_int(clamped(limit)),
                    ],
                ),
            },
    {
        validate_entity_type(entity_type)?;
        let entity_id = normalize_entity_id(entity_type, entity_id);
        Ok(
            Query::new(LIST_FOR_ENTITY).text(entity_type).text(entity_id.as_str()).number(
                clamp_limit(limit),
            ),
        )
    }

    /// The query for the latest versions of any record.
    pub fn latest(limit: u32) -> (q: Query)
        ensures
            q@ == statement(LATEST_VERSIONS@, seq![sql_int(clamped(limit))]),
    {
        Query::new(LATEST_VERSIONS).number(clamp_limit(limit))
    }

    /// The query for a version.
    pub fn get(id: &str) -> (q: Query)
        ensures
            q@ == statement(GET_VERSION@, seq![sql_text(id@)]),
    {
        Query::new(GET_VERSION).text(id)
    }

    /// The query for a record's version by its number.
    pub fn get_by_number(entity_type: &str, entity_id: &str, version_number: i64) -> (r: Result<
        Query,
        CoreError,
    >)
        ensures
            match entity_type_fault(entity_type@) {
                Some(e) => r is Err && r->Err_0@ == e,
                None => r is Ok && r->Ok_0@ == statement(
                    GET_BY_NUMBER@,
                    seq![
                        sql_text(entity_type@),
                        sql_text(normal_entity_id(entity_type@, entity_id@)),
                        sql_int(version_number as int),
                    ],
                ),
            },
    {
        validate_entity_type(entity_type)?;
        let entity_id = normalize_entity_id(entity_type, entity_id);
        Ok(
            Query::new(GET_BY_NUMBER).text(entity_type).text(entity_id.as_str()).number(
                version_number,
            ),
        )
    }

    /// The query for the diffs of an event, which are then marked one by one with
    /// [`rollback_update`].
    pub fn mark_rollback(source_event_id: &str) -> (q: Query)
        ensures
            q@ == statement(DIFFS_OF_EVENT@, seq![sql_text(source_event_id@)]),
    {
        Query::new(DIFFS_OF_EVENT).text(source_event_id)
    }
}

// ── rollback marks ──────────────────────────────────────────────────────────

/// The `metadata` object of a diff; an empty one where it has none.
pub open spec fn metadata_of(diff: JsonView) -> Map<Seq<char>, JsonView> {
    match member(diff, "metadata"@) {
        Some(JsonView::Object(map)) => map,
        _ => Map::<Seq<char>, JsonView>::empty(),
    }
}

/// A diff that says which version it takes back.
pub open spec fn marked_diff(diff: JsonView, version_id: Seq<char>) -> JsonView {
    JsonView::Object(
        diff->Object_0.insert(
            "metadata"@,
            JsonView::Object(
                metadata_of(diff).insert("rollback_of_version_id"@, JsonView::Text(version_id)),
            ),
        ),
    )
}

/// Says in a diff which version it takes back.
pub fn mark_diff(diff: Json, version_id: &str) -> (r: Json)
    requires
        diff is Object,
    ensures
        r.model() == marked_diff(diff.model(), version_id@),
        metadata_of(r.model())["rollback_of_version_id"@] == JsonView::Text(version_id@),
{
    let metadata = ensure_metadata(&diff);
    let metadata = metadata.with("rollback_of_version_id", Json::text(version_id));
    match diff {
        Json::Object(map) => Json::Object(map.with("metadata", Json::Object(metadata))),
        other => other,
    }
}

/// The `metadata` object of a diff; an empty one where it has none.
pub fn ensure_metadata(diff: &Json) -> (r: JsonMap)
    ensures
        r.model() == metadata_of(diff.model()),
{
    match get_member(diff, "metadata") {
        Some(Json::Object(map)) => map.copy(),
        _ => JsonMap::new(),
    }
}

/// A stored diff.
#[derive(Clone, Debug, PartialEq, Eq)]
pub struct DiffRow {
    pub id: String,
    pub diff_json: String,
}

/// The statement that marks a stored diff as taking back a version; nothing where the
/// stored diff is JSON but no object.
pub fn rollback_update(row: &DiffRow, rollback_of_version_id: &str) -> (r: Result<
    Option<Query>,
    CoreError,
>)
    ensures
        match json_parsed(row.diff_json@) {
            Err(message) => r is Err && r->Err_0@ == ErrorView::Serde(message),
            Ok(diff) => if diff is Object {
                r matches Ok(Some(q)) && q@ == statement(
                    MARK_ROLLBACK@,
                    seq![
                        sql_text(json_printed(marked_diff(diff, rollback_of_version_id@))),
                        sql_text(row.id@),
                    ],
                )
            } else {
                r matches Ok(None)
            },
        },
{
    let diff = parse_json(row.diff_json.as_str())?;
    let is_object = match &diff {
        Json::Object(_) => true,
        _ => false,
    };
    if !is_object {
        return Ok(None);
    }
    let marked = mark_diff(diff, rollback_of_version_id);
    Ok(Some(Query::new(MARK_ROLLBACK).text(print_json(&marked).as_str()).text(row.id.as_str())))
}

// ── storing versions ────────────────────────────────────────────────────────

/// The kind, identifier and name of an actor, as a version keeps them.
pub open spec fn actor_kind(actor: Actor) -> Seq<char> {
    match actor {
        Actor::User => "user"@,
        Actor::Agent { .. } => "agent"@,
    }
}

/// The identifier of an actor's text, where it has one.
pub open spec fn actor_id_text(actor: Actor) -> Option<Seq<char>> {
    match actor {
        Actor::User => None,
        Actor::Agent { id, .. } => Some(id_text(id)),
    }
}

/// The name of an actor, where it has one.
pub open spec fn actor_name(actor: Actor) -> Option<Seq<char>> {
    match actor {
        Actor::User => None,
        Actor::Agent { name, .. } => Some(name@),
    }
}

/// The kind, identifier and name of an actor, as a version keeps them.
pub fn actor_columns(actor: &Actor) -> (r: (&'static str, Option<String>, Option<String>))
    ensures
        r.0@ == actor_kind(*actor),
        opt_text(r.1) == actor_id_text(*actor),
        opt_text(r.2) == actor_name(*actor),
{
    match actor {
        Actor::User => ("user", None, None),
        Actor::Agent { id, name } => ("agent", Some(crate::ids::print_id(id)), Some(name.clone())),
    }
}

/// A version that may have to be stored: the record before and after an event.
#[derive(Clone, Debug, PartialEq, Eq)]
pub struct VersionDraft {
    pub entity_type: String,
    pub entity_id: String,
    pub before: Option<Json>,
    pub after: Option<Json>,
    pub summary: String,
}

/// The next step of storing a version.
#[derive(Clone, Debug, PartialEq, Eq)]
pub enum VersionStep {
    /// There is nothing to store.
    Done,
    /// Ask how many versions of the record the event has.
    Check { count: Query },
    /// Ask for the number of the record's next version.
    Number { next: Query },
}

/// The columns of a version, in the order in which they are written.
pub open spec fn version_columns(
    id: VersionId,
    draft: VersionDraft,
    version_number: i64,
    envelope: EventEnvelope,
) -> Seq<BoundView> {
    let before = opt_model(draft.before);
    let after = opt_model(draft.after);
    let fields = changes_between(before, after);
    seq![
        sql_id(id),
        sql_text(draft.entity_type@),
        sql_text(draft.entity_id@),
        sql_int(version_number as int),
        sql_actor(envelope.actor),
        sql_text(actor_kind(envelope.actor)),
        sql_opt_text(actor_id_text(envelope.actor)),
        sql_opt_text(actor_name(envelope.actor)),
        sql_text(envelope.payload.kind_text()),
        sql_id(envelope.id),
        sql_int(envelope.seq as i64 as int),
        sql_time(envelope.occurred_at),
        sql_opt_text(printed_opt(before)),
        sql_opt_text(printed_opt(after)),
        sql_text(json_printed(diff_of(before, after, envelope.payload.kind_text(), fields))),
        sql_text(strings_printed(fields)),
        sql_text(draft.summary@),
    ]
}

impl VersionDraft {
    /// The record did not change.
    pub open spec fn is_unchanged(self) -> bool {
        opt_compared(opt_model(self.before)) == opt_compared(opt_model(self.after))
    }

    /// The first step of storing a version: none where the record did not change.
    pub fn start(&self, envelope: &EventEnvelope) -> (r: VersionStep)
        ensures
            if self.is_unchanged() {
                r is Done
            } else {
                r matches VersionStep::Check { count } && count@ == statement(
                    COUNT_OF_EVENT@,
                    seq![
                        sql_text(self.entity_type@),
                        sql_text(self.entity_id@),
                        sql_id(envelope.id),
                    ],
                )
            },
    {
        if same_opt(&self.before, &self.after) {
            VersionStep::Done
        } else {
            VersionStep::Check {
                count: Query::new(COUNT_OF_EVENT).text(self.entity_type.as_str()).text(
                    self.entity_id.as_str(),
                ).id(&envelope.id),
            }
        }
    }

    /// The step after the versions of the event were counted: none where there is one.
    pub fn after_check(&self, already_exists: i64) -> (r: VersionStep)
        ensures
            if already_exists > 0 {
                r is Done
            } else {
                r matches VersionStep::Number { next } && next@ == statement(
                    NEXT_NUMBER@,
                    seq![sql_text(self.entity_type@), sql_text(self.entity_id@)],
                )
            },
    {
        if already_exists > 0 {
            VersionStep::Done
        } else {
            VersionStep::Number {
                next: Query::new(NEXT_NUMBER).text(self.entity_type.as_str()).text(
                    self.entity_id.as_str(),
                ),
            }
        }
    }
}

impl VersionDraft {
    /// The record before, the record after and what is kept of their difference have JSON
    /// texts that read back.
    pub open spec fn is_plain(self, source: Seq<char>) -> bool {
        let before = opt_model(self.before);
        let after = opt_model(self.after);
        &&& opt_is_plain_json(before)
        &&& opt_is_plain_json(after)
        &&& is_plain_json(
            diff_of(before, after, source, changes_between(before, after)),
            JSON_DEPTH as nat,
        )
    }
}

/// The statement that stores a version. What it writes reads back.
pub fn insert_entity_version(
    id: &VersionId,
    draft: &VersionDraft,
    version_number: i64,
    envelope: &EventEnvelope,
) -> (q: Query)
    ensures
        q@ == statement(INSERT_VERSION@, version_columns(*id, *draft, version_number, *envelope)),
        draft.is_plain(envelope.payload.kind_text()) ==> forall|row: EntityVersionRow| #[trigger]
            row.stores(*id, *draft, version_number, *envelope) ==> version_fault(row) is None
                && forall|record: EntityVersion|
                version_read(row, record) ==> record.tells(*id, *draft, version_number, *envelope),
{
    let fields = changed_fields(&draft.before, &draft.after);
    let diff = field_diff(&draft.before, &draft.after, envelope.kind(), &fields);
    let (kind, actor_id, actor_name) = actor_columns(&envelope.actor);
    Query::new(INSERT_VERSION)
        .id(id)
        .text(draft.entity_type.as_str())
        .text(draft.entity_id.as_str())
        .number(version_number)
        .actor(&envelope.actor)
        .text(kind)
        .opt_text(&actor_id)
        .opt_text(&actor_name)
        .text(envelope.kind())
        .id(&envelope.id)
        .number(envelope.seq as i64)
        .time(&envelope.occurred_at)
        .opt_text(&print_opt_json(&draft.before))
        .opt_text(&print_opt_json(&draft.after))
        .text(print_json(&diff).as_str())
        .text(print_strings(&fields).as_str())
        .text(draft.summary.as_str())
}

// ── rows ────────────────────────────────────────────────────────────────────

/// A row of the `entity_versions` table.
#[derive(Clone, Debug, PartialEq, Eq)]
pub struct EntityVersionRow {
    pub id: String,
    pub entity_type: String,
    pub entity_id: String,
    pub version_number: i64,
    pub actor_json: String,
    pub event_type: String,
    pub reason: Option<String>,
    pub source_event_id: Option<String>,
    pub source_event_seq: Option<i64>,
    pub created_at: String,
    pub before_json: Option<String>,
    pub after_json: Option<String>,
    pub diff_json: String,
    pub changed_fields_json: String,
    pub summary: String,
}

/// What is wrong with a version row, where something is: its JSON texts are looked at in
/// this order.
pub open spec fn version_fault(row: EntityVersionRow) -> Option<ErrorView> {
    json_fault(row.actor_json@).or_fault(opt_json_fault(row.before_json)).or_fault(
        opt_json_fault(row.after_json),
    ).or_fault(json_fault(row.diff_json@)).or_fault(strings_fault(row.changed_fields_json@))
}

/// The record is what a sound version row says.
pub open spec fn version_read(row: EntityVersionRow, record: EntityVersion) -> bool {
    &&& record.id == row.id
    &&& record.entity_type == row.entity_type
    &&& record.entity_id == row.entity_id
    &&& record.version_number == row.version_number
    &&& record.actor.model() == json_parsed(row.actor_json@)->Ok_0
    &&& record.event_type == row.event_type
    &&& record.reason == row.reason
    &&& record.source_event_id == row.source_event_id
    &&& record.source_event_seq == row.source_event_seq
    &&& record.created_at == row.created_at
    &&& opt_model(record.before) == opt_json_value(row.before_json)
    &&& opt_model(record.after) == opt_json_value(row.after_json)
    &&& record.diff.model() == json_parsed(row.diff_json@)->Ok_0
    &&& texts(record.changed_fields@) == strings_parsed(row.changed_fields_json@)->Ok_0
    &&& record.summary == row.summary
}

impl EntityVersionRow {
    /// Each column of the row holds what is written for it of the version. No reason is
    /// written, and the text of the actor is JSON.
    pub open spec fn stores(
        self,
        id: VersionId,
        draft: VersionDraft,
        version_number: i64,
        envelope: EventEnvelope,
    ) -> bool {
        let before = opt_model(draft.before);
        let after = opt_model(draft.after);
        let fields = changes_between(before, after);
        &&& self.id@ == id_text(id)
        &&& self.entity_type@ == draft.entity_type@
        &&& self.entity_id@ == draft.entity_id@
        &&& self.version_number == version_number
        &&& json_parsed(self.actor_json@) is Ok
        &&& self.event_type@ == envelope.payload.kind_text()
        &&& self.reason is None
        &&& opt_text(self.source_event_id) == Some(id_text(envelope.id))
        &&& self.source_event_seq == Some(envelope.seq as i64)
        &&& self.created_at@ == envelope.occurred_at.text()
        &&& opt_text(self.before_json) == printed_opt(before)
        &&& opt_text(self.after_json) == printed_opt(after)
        &&& self.diff_json@ == json_printed(
            diff_of(before, after, envelope.payload.kind_text(), fields),
        )
        &&& self.changed_fields_json@ == strings_printed(fields)
        &&& self.summary@ == draft.summary@
    }
}

impl EntityVersion {
    /// The version is the one that was stored of an event and what it made of a record.
    pub open spec fn tells(
        self,
        id: VersionId,
        draft: VersionDraft,
        version_number: i64,
        envelope: EventEnvelope,
    ) -> bool {
        let before = opt_model(draft.before);
        let after = opt_model(draft.after);
        let fields = changes_between(before, after);
        &&& self.id@ == id_text(id)
        &&& self.entity_type@ == draft.entity_type@
        &&& self.entity_id@ == draft.entity_id@
        &&& self.version_number == version_number
        &&& self.event_type@ == envelope.payload.kind_text()
        &&& self.reason is None
        &&& opt_text(self.source_event_id) == Some(id_text(envelope.id))
        &&& self.source_event_seq == Some(envelope.seq as i64)
        &&& self.created_at@ == envelope.occurred_at.text()
        &&& opt_model(self.before) == before
        &&& opt_model(self.after) == after
        &&& self.diff.model() == diff_of(before, after, envelope.payload.kind_text(), fields)
        &&& texts(self.changed_fields@) == fields
        &&& self.summary@ == draft.summary@
    }
}

/// Reads a version from its row.
pub fn row_to_entity_version(row: EntityVersionRow) -> (r: Result<EntityVersion, CoreError>)
    ensures
        match version_fault(row) {
            Some(e) => r is Err && r->Err_0@ == e,
            None => r is Ok && version_read(row, r->Ok_0),
        },
{
    let actor = parse_json(row.actor_json.as_str())?;
    let before = parse_optional_json(&row.before_json)?;
    let after = parse_optional_json(&row.after_json)?;
    let diff = parse_json(row.diff_json.as_str())?;
    let changed_fields = parse_strings(row.changed_fields_json.as_str())?;
    Ok(EntityVersion {
        id: row.id,
        entity_type: row.entity_type,
        entity_id: row.entity_id,
        version_number: row.version_number,
        actor,
        event_type: row.event_type,
        reason: row.reason,
        source_event_id: row.source_event_id,
        source_event_seq: row.source_event_seq,
        created_at: row.created_at,
        before,
        after,
        diff,
        changed_fields,
        summary: row.summary,
    })
}

impl crate::rows::Decode for EntityVersionRow {
    type Record = EntityVersion;

    open spec fn fault(&self) -> Option<ErrorView> {
        version_fault(*self)
    }

    open spec fn holds(&self, record: EntityVersion) -> bool {
        version_read(*self, record)
    }

    fn decode(self) -> (r: Result<EntityVersion, CoreError>) {
        row_to_entity_version(self)
    }
}

// ── the history of a record ─────────────────────────────────────────────────

/// A stored version of one record: its number and the event that made it.
pub ghost struct HistoryEntry {
    pub number: int,
    pub event_id: crate::ids::EventId,
}

/// The highest number of a version, or zero.
pub open spec fn last_number(history: Seq<HistoryEntry>) -> int
    decreases history.len(),
{
    if history.len() == 0 {
        0
    } else if history.last().number > last_number(history.drop_last()) {
        history.last().number
    } else {
        last_number(history.drop_last())
    }
}

/// The event has a version of the record.
pub open spec fn has_version(history: Seq<HistoryEntry>, event_id: crate::ids::EventId) -> bool {
    exists|i: int| 0 <= i < history.len() && (#[trigger] history[i]).event_id == event_id
}

/// The history of a record after an event: one more version, with the next number,
/// where the record changed and the event has none yet.
pub open spec fn after_event(
    history: Seq<HistoryEntry>,
    event_id: crate::ids::EventId,
    unchanged: bool,
) -> Seq<HistoryEntry> {
    if unchanged || has_version(history, event_id) {
        history
    } else {
        history.push(HistoryEntry { number: last_number(history) + 1, event_id })
    }
}

/// The versions are numbered from 1 without gaps.
pub open spec fn is_numbered(history: Seq<HistoryEntry>) -> bool {
    forall|i: int| 0 <= i < history.len() ==> (#[trigger] history[i]).number == i + 1
}

proof fn lemma_last_number(history: Seq<HistoryEntry>)
    requires
        is_numbered(history),
    ensures
        last_number(history) == history.len(),
    decreases history.len(),
{
    if history.len() > 0 {
        let shorter = history.drop_last();
        assert forall|i: int| 0 <= i < shorter.len() implies (#[trigger] shorter[i]).number == i
            + 1 by {
            assert(history[i].number == i + 1);
        }
        lemma_last_number(shorter);
        assert(history[history.len() - 1].number == history.len());
    }
}

/// However events follow one another, the versions of a record stay numbered from 1
/// without gaps, each higher than all before it.
pub proof fn lemma_history_stays_numbered(
    history: Seq<HistoryEntry>,
    event_id: crate::ids::EventId,
    unchanged: bool,
)
    requires
        is_numbered(history),
    ensures
        is_numbered(after_event(history, event_id, unchanged)),
{
    lemma_last_number(history);
}

/// Replaying an event stores no second version, and an event that changes nothing
/// stores none.
pub proof fn lemma_one_version_per_event(
    history: Seq<HistoryEntry>,
    event_id: crate::ids::EventId,
    unchanged: bool,
    unchanged_again: bool,
)
    ensures
        after_event(history, event_id, true) == history,
        !unchanged ==> after_event(
            after_event(history, event_id, unchanged),
            event_id,
            unchanged_again,
        ) == after_event(history, event_id, unchanged),
{
    let once = after_event(history, event_id, unchanged);
    if !unchanged && !has_version(history, event_id) {
        assert(once[history.len() as int].event_id == event_id);
    }
}

proof fn lemma_plain_member(j: JsonView, key: Seq<char>, depth: nat)
    requires
        is_plain_json(j, depth),
    ensures
        is_plain_json(member_or_null(j, key), depth),
{
    if member(j, key) is Some {
        lemma_plain_json_deeper(member_or_null(j, key), (depth - 1) as nat, depth);
    }
}

proof fn lemma_plain_change(before: JsonView, after: JsonView, depth: nat)
    requires
        is_plain_json(before, depth),
        is_plain_json(after, depth),
    ensures
        is_plain_json(change_of(before, after), depth + 1),
{
}

proof fn lemma_plain_text_change(before: Seq<char>, after: Seq<char>, depth: nat)
    ensures
        is_plain_json(text_change(before, after), depth + 1),
{
    let parts = text_change(before, after)->Object_0;
    assert forall|k: Seq<char>| #[trigger] parts.dom().contains(k) implies is_plain_json(
        parts[k],
        depth,
    ) by {}
}

proof fn lemma_plain_changes(
    before: JsonView,
    after: JsonView,
    fields: Seq<Seq<char>>,
    depth: nat,
)
    requires
        is_plain_json(before, depth),
        is_plain_json(after, depth),
    ensures
        is_plain_json(JsonView::Object(changes_of(before, after, fields)), depth + 2),
        forall|k: Seq<char>| #[trigger]
            changes_of(before, after, fields).dom().contains(k) ==> is_plain_json(
                changes_of(before, after, fields)[k],
                depth + 1,
            ),
{
    let changes = changes_of(before, after, fields);
    assert forall|k: Seq<char>| #[trigger] changes.dom().contains(k) implies is_plain_json(
        changes[k],
        depth + 1,
    ) by {
        lemma_plain_member(before, k, depth);
        lemma_plain_member(after, k, depth);
        lemma_plain_change(member_or_null(before, k), member_or_null(after, k), depth);
    }
}

proof fn lemma_plain_document(
    kind: Seq<char>,
    fields: Map<Seq<char>, JsonView>,
    source: Seq<char>,
    depth: nat,
)
    requires
        is_plain_json(JsonView::Object(fields), depth),
        depth > 0,
    ensures
        is_plain_json(diff_document(kind, fields, source), depth + 1),
{
    let metadata = Map::<Seq<char>, JsonView>::empty().insert("source"@, JsonView::Text(source));
    assert(is_plain_json(JsonView::Object(metadata), depth)) by {
        assert forall|k: Seq<char>| #[trigger] metadata.dom().contains(k) implies is_plain_json(
            metadata[k],
            (depth - 1) as nat,
        ) by {}
    }
    let parts = diff_document(kind, fields, source)->Object_0;
    assert forall|k: Seq<char>| #[trigger] parts.dom().contains(k) implies is_plain_json(
        parts[k],
        depth,
    ) by {}
}

/// The difference between two records reads back where these are nested three levels less
/// deep than JSON is read, and hold integers as their only numbers: it adds no more than
/// three levels.
pub proof fn lemma_diff_of_plain_records_is_plain(
    before: Option<JsonView>,
    after: Option<JsonView>,
    source: Seq<char>,
    fields: Seq<Seq<char>>,
)
    requires
        before matches Some(b) ==> is_plain_json(b, (JSON_DEPTH - 3) as nat),
        after matches Some(a) ==> is_plain_json(a, (JSON_DEPTH - 3) as nat),
    ensures
        opt_is_plain_json(before),
        opt_is_plain_json(after),
        is_plain_json(diff_of(before, after, source, fields), JSON_DEPTH as nat),
{
    let depth: nat = (JSON_DEPTH - 3) as nat;
    if let Some(b) = before {
        lemma_plain_json_deeper(b, depth, JSON_DEPTH as nat);
    }
    if let Some(a) = after {
        lemma_plain_json_deeper(a, depth, JSON_DEPTH as nat);
    }
    if is_text_patch(before, after, fields) {
        let b = before->Some_0;
        let a = after->Some_0;
        let changes = changes_of(b, a, fields);
        let change = text_change(content_of(b)->Some_0, content_of(a)->Some_0);
        let edited = changes.insert("content"@, change);
        lemma_plain_changes(b, a, fields, depth);
        lemma_plain_text_change(content_of(b)->Some_0, content_of(a)->Some_0, depth);
        assert forall|k: Seq<char>| #[trigger] edited.dom().contains(k) implies is_plain_json(
            edited[k],
            depth + 1,
        ) by {
            if k != "content"@ {
                assert(changes.dom().contains(k));
            }
        }
        assert(is_plain_json(JsonView::Object(edited), depth + 2));
        lemma_plain_document("document_text_patch"@, edited, source, depth + 2);
    } else {
        let none = Map::<Seq<char>, JsonView>::empty();
        assert(is_plain_json(JsonView::Object(none), depth + 2));
        match (before, after) {
            (Some(b), Some(a)) => {
                lemma_plain_changes(b, a, fields, depth);
                if b is Object && a is Object {
                    lemma_plain_document(
                        "field_json_patch"@,
                        changes_of(b, a, fields),
                        source,
                        depth + 2,
                    );
                } else {
                    lemma_plain_document("field_json_patch"@, none, source, depth + 2);
                }
            },
            (None, Some(a)) => {
                lemma_plain_change(JsonView::Null, a, depth);
                let created = none.insert("created"@, change_of(JsonView::Null, a));
                assert(is_plain_json(JsonView::Object(created), depth + 2));
                lemma_plain_document("field_json_patch"@, created, source, depth + 2);
            },
            (Some(b), None) => {
                lemma_plain_change(b, JsonView::Null, depth);
                let deleted = none.insert("deleted"@, change_of(b, JsonView::Null));
                assert(is_plain_json(JsonView::Object(deleted), depth + 2));
                lemma_plain_document("field_json_patch"@, deleted, source, depth + 2);
            },
            (None, None) => {
                lemma_plain_document("field_json_patch"@, none, source, depth + 2);
            },
        }
    }
}

/// The changed fields of two objects are those that one of them has and the other has not,
/// and those whose values differ; each is named once, in order. Where nothing differs none
/// is named, and it does not matter which of the two comes first.
pub proof fn lemma_changed_fields_are_exact(
    before: Map<Seq<char>, JsonView>,
    after: Map<Seq<char>, JsonView>,
    fields: Seq<Seq<char>>,
    back: Seq<Seq<char>>,
)
    requires
        names_changes(Some(JsonView::Object(before)), Some(JsonView::Object(after)), fields),
        names_changes(Some(JsonView::Object(after)), Some(JsonView::Object(before)), back),
    ensures
        forall|k: Seq<char>| #[trigger]
            fields.contains(k) <==> {
                ||| before.dom().contains(k) && !after.dom().contains(k)
                ||| !before.dom().contains(k) && after.dom().contains(k)
                ||| before.dom().contains(k) && after.dom().contains(k) && compared(before[k])
                    != compared(after[k])
            },
        forall|i: int, j: int|
            0 <= i < j < fields.len() ==> text_before(#[trigger] fields[i], #[trigger] fields[j]),
        fields == back,
        before == after ==> fields.len() == 0,
{
    let b = JsonView::Object(before);
    let a = JsonView::Object(after);
    assert forall|k: Seq<char>| #[trigger] fields.contains(k) <==> {
        ||| before.dom().contains(k) && !after.dom().contains(k)
        ||| !before.dom().contains(k) && after.dom().contains(k)
        ||| before.dom().contains(k) && after.dom().contains(k) && compared(before[k]) != compared(
            after[k],
        )
    } by {
        assert(fields.contains(k) <==> opt_compared(member(b, k)) != opt_compared(member(a, k)));
    }
    assert forall|t: Seq<char>| #[trigger] fields.contains(t) <==> back.contains(t) by {
        assert(back.contains(t) <==> opt_compared(member(a, t)) != opt_compared(member(b, t)));
    }
    lemma_order_is_unique(fields, back);
    if before == after && fields.len() > 0 {
        assert(fields.contains(fields[0]));
    }
}

/// A record that comes is named as created, one that goes as deleted, and a value that is no
/// object and changes as a value; where there is nothing, and where such a value stays the
/// same, nothing is named.
pub proof fn lemma_changes_of_whole_records(
    before: Option<JsonView>,
    after: Option<JsonView>,
    fields: Seq<Seq<char>>,
)
    requires
        names_changes(before, after, fields),
    ensures
        before is None && after is Some ==> fields.len() == 1 && fields[0] == "created"@,
        before is Some && after is None ==> fields.len() == 1 && fields[0] == "deleted"@,
        before is None && after is None ==> fields.len() == 0,
        before is Some && after is Some && !(before->Some_0 is Object && after->Some_0 is Object)
            ==> {
            &&& compared(before->Some_0) == compared(after->Some_0) ==> fields.len() == 0
            &&& compared(before->Some_0) != compared(after->Some_0) ==> fields.len() == 1
                && fields[0] == "value"@
        },
{
}

/// Two values of different kinds differ. Texts and truth values differ unless they are the
/// same; lists differ in length or at some place, and objects at some key, or not at all.
pub proof fn lemma_values_are_compared_by_content(a: JsonView, b: JsonView)
    ensures
        a == b ==> compared(a) == compared(b),
        a is Text && b is Text ==> (compared(a) == compared(b) <==> a->Text_0 == b->Text_0),
        a is Bool && b is Bool ==> (compared(a) == compared(b) <==> a->Bool_0 == b->Bool_0),
        compared(a) == compared(b) ==> (a is Null <==> b is Null) && (a is Text <==> b is Text) && (
        a is Bool <==> b is Bool) && (a is Number <==> b is Number) && (a is Array <==> b is Array)
            && (a is Object <==> b is Object),
        a is Array && b is Array && compared(a) == compared(b) ==> a->Array_0.len()
            == b->Array_0.len() && forall|i: int|
            0 <= i < a->Array_0.len() ==> compared(#[trigger] a->Array_0[i]) == compared(
                b->Array_0[i],
            ),
        a is Object && b is Object && compared(a) == compared(b) ==> forall|k: Seq<char>|
            #![trigger a->Object_0.dom().contains(k)]
            (a->Object_0.dom().contains(k) <==> b->Object_0.dom().contains(k)) && (
            a->Object_0.dom().contains(k) ==> compared(a->Object_0[k]) == compared(
                b->Object_0[k],
            )),
{
    if a is Array && b is Array && compared(a) == compared(b) {
        assert(compared(a)->Array_0.len() == compared(b)->Array_0.len());
        assert forall|i: int| 0 <= i < a->Array_0.len() implies compared(#[trigger] a->Array_0[i])
            == compared(b->Array_0[i]) by {
            assert(compared(a)->Array_0[i] == compared(a->Array_0[i]));
            assert(compared(b)->Array_0[i] == compared(b->Array_0[i]));
        }
    }
    if a is Object && b is Object && compared(a) == compared(b) {
        assert forall|k: Seq<char>|
            #![trigger a->Object_0.dom().contains(k)]
            (a->Object_0.dom().contains(k) <==> b->Object_0.dom().contains(k)) && (
            a->Object_0.dom().contains(k) ==> compared(a->Object_0[k]) == compared(
                b->Object_0[k],
            )) by {
            assert(compared(a)->Object_0.dom().contains(k) <==> a->Object_0.dom().contains(k));
            assert(compared(b)->Object_0.dom().contains(k) <==> b->Object_0.dom().contains(k));
            if a->Object_0.dom().contains(k) {
                assert(compared(a)->Object_0[k] == compared(a->Object_0[k]));
                assert(compared(b)->Object_0[k] == compared(b->Object_0[k]));
            }
        }
    }
}

proof fn lemma_diff_keys()
    ensures
        "kind"@ != "fields"@ && "kind"@ != "metadata"@ && "fields"@ != "metadata"@,
        "before"@ != "after"@,
        "before_hash"@ != "after_hash"@ && "before_hash"@ != "unified_diff"@,
        "after_hash"@ != "unified_diff"@,
{
    reveal_strlit("kind");
    reveal_strlit("fields");
    reveal_strlit("metadata");
    reveal_strlit("before");
    reveal_strlit("after");
    reveal_strlit("before_hash");
    reveal_strlit("after_hash");
    reveal_strlit("unified_diff");
    assert("kind"@.len() == 4 && "fields"@.len() == 6 && "metadata"@.len() == 8);
    assert("before"@.len() == 6 && "after"@.len() == 5);
    assert("before_hash"@.len() == 11 && "after_hash"@.len() == 10 && "unified_diff"@.len() == 12);
}

/// What a version keeps of a document whose text was edited: the digest of the text before
/// and that of the text after, each `sha256:` and the hexadecimal digits of the SHA-256 of
/// the text's UTF-8, and the difference from the one to the other. Of every other changed
/// field it keeps the value before and the value after, and it says where it comes from.
pub proof fn lemma_text_patch_keeps_digests_of_both(
    before: Map<Seq<char>, JsonView>,
    after: Map<Seq<char>, JsonView>,
    old: Seq<char>,
    new: Seq<char>,
    source: Seq<char>,
    fields: Seq<Seq<char>>,
)
    requires
        before.dom().contains("content"@) && before["content"@] == JsonView::Text(old),
        after.dom().contains("content"@) && after["content"@] == JsonView::Text(new),
        fields.contains("content"@),
    ensures
        ({
            let diff = diff_of(
                Some(JsonView::Object(before)),
                Some(JsonView::Object(after)),
                source,
                fields,
            )->Object_0;
            let kept = diff["fields"@]->Object_0;
            let content = kept["content"@]->Object_0;
            let metadata = diff["metadata"@]->Object_0;
            &&& diff["kind"@] == JsonView::Text("document_text_patch"@)
            &&& metadata["source"@] == JsonView::Text(source)
            &&& content["before_hash"@] == JsonView::Text(
                "sha256:"@ + hex_of(sha256(vstd::utf8::encode_utf8(old))),
            )
            &&& content["after_hash"@] == JsonView::Text(
                "sha256:"@ + hex_of(sha256(vstd::utf8::encode_utf8(new))),
            )
            &&& content["unified_diff"@] == JsonView::Text(text_diff(old, new))
            &&& forall|k: Seq<char>| #[trigger] kept.dom().contains(k) <==> fields.contains(k)
            &&& forall|k: Seq<char>|
                fields.contains(k) && k != "content"@ ==> {
                    &&& (#[trigger] kept[k])->Object_0["before"@] == if before.dom().contains(k) {
                        before[k]
                    } else {
                        JsonView::Null
                    }
                    &&& kept[k]->Object_0["after"@] == if after.dom().contains(k) {
                        after[k]
                    } else {
                        JsonView::Null
                    }
                }
        }),
{
    lemma_diff_keys();
}

/// The digests of a document's versions form a chain: what a version has after, the next one
/// has before.
pub proof fn lemma_digests_form_a_chain(
    first: Map<Seq<char>, JsonView>,
    second: Map<Seq<char>, JsonView>,
    third: Map<Seq<char>, JsonView>,
    texts: (Seq<char>, Seq<char>, Seq<char>),
    sources: (Seq<char>, Seq<char>),
    fields: Seq<Seq<char>>,
    next_fields: Seq<Seq<char>>,
)
    requires
        first.dom().contains("content"@) && first["content"@] == JsonView::Text(texts.0),
        second.dom().contains("content"@) && second["content"@] == JsonView::Text(texts.1),
        third.dom().contains("content"@) && third["content"@] == JsonView::Text(texts.2),
        fields.contains("content"@),
        next_fields.contains("content"@),
    ensures
        ({
            let one = diff_of(
                Some(JsonView::Object(first)),
                Some(JsonView::Object(second)),
                sources.0,
                fields,
            )->Object_0["fields"@]->Object_0["content"@]->Object_0;
            let next = diff_of(
                Some(JsonView::Object(second)),
                Some(JsonView::Object(third)),
                sources.1,
                next_fields,
            )->Object_0["fields"@]->Object_0["content"@]->Object_0;
            one["after_hash"@] == next["before_hash"@]
        }),
{
    lemma_text_patch_keeps_digests_of_both(first, second, texts.0, texts.1, sources.0, fields);
    lemma_text_patch_keeps_digests_of_both(
        second,
        third,
        texts.1,
        texts.2,
        sources.1,
        next_fields,
    );
}

/// What a version keeps of two objects without an edited text: of each changed field, and of
/// no other, the value before and the value after, null where there is none.
pub proof fn lemma_field_patch_keeps_both_values(
    before: Map<Seq<char>, JsonView>,
    after: Map<Seq<char>, JsonView>,
    source: Seq<char>,
    fields: Seq<Seq<char>>,
)
    requires
        !(fields.contains("content"@) && before.dom().contains("content"@)
            && before["content"@] is Text && after.dom().contains("content"@)
            && after["content"@] is Text),
    ensures
        ({
            let diff = diff_of(
                Some(JsonView::Object(before)),
                Some(JsonView::Object(after)),
                source,
                fields,
            )->Object_0;
            let kept = diff["fields"@]->Object_0;
            &&& diff["kind"@] == JsonView::Text("field_json_patch"@)
            &&& diff["metadata"@]->Object_0["source"@] == JsonView::Text(source)
            &&& forall|k: Seq<char>| #[trigger] kept.dom().contains(k) <==> fields.contains(k)
            &&& forall|k: Seq<char>|
                fields.contains(k) ==> {
                    &&& (#[trigger] kept[k])->Object_0["before"@] == if before.dom().contains(k) {
                        before[k]
                    } else {
                        JsonView::Null
                    }
                    &&& kept[k]->Object_0["after"@] == if after.dom().contains(k) {
                        after[k]
                    } else {
                        JsonView::Null
                    }
                }
        }),
{
    lemma_diff_keys();
}

/// What a version keeps of a record that comes or goes: all of it, as what is there after or
/// before, and null on the other side.
pub proof fn lemma_whole_record_is_kept(
    record: JsonView,
    source: Seq<char>,
    fields: Seq<Seq<char>>,
)
    ensures
        ({
            let created = diff_of(None, Some(record), source, fields)->Object_0;
            let deleted = diff_of(Some(record), None, source, fields)->Object_0;
            let came = created["fields"@]->Object_0["created"@]->Object_0;
            let went = deleted["fields"@]->Object_0["deleted"@]->Object_0;
            &&& created["kind"@] == JsonView::Text("field_json_patch"@)
            &&& deleted["kind"@] == JsonView::Text("field_json_patch"@)
            &&& created["metadata"@]->Object_0["source"@] == JsonView::Text(source)
            &&& deleted["metadata"@]->Object_0["source"@] == JsonView::Text(source)
            &&& came["before"@] == JsonView::Null && came["after"@] == record
            &&& went["before"@] == record && went["after"@] == JsonView::Null
        }),
{
    lemma_diff_keys();
}

/// The difference between two texts begins with its heading. Behind it stand the lines that
/// both begin with, marked with a space, as many as there are; then the other lines of the
/// text before, marked as gone, and those of the text after, marked as come.
pub proof fn lemma_text_diff_shows_both_texts(before: Seq<char>, after: Seq<char>, n: int)
    requires
        0 <= n <= lines_of(before).len(),
        n <= lines_of(after).len(),
        forall|i: int| 0 <= i < n ==> lines_of(before)[i] == lines_of(after)[i],
        n < lines_of(before).len() && n < lines_of(after).len() ==> lines_of(before)[n]
            != lines_of(after)[n],
    ensures
        text_diff(before, after) == "--- before\n+++ after\n@@\n"@ + marked(
            ' ',
            lines_of(before).take(n),
        ) + marked('-', lines_of(before).skip(n)) + marked('+', lines_of(after).skip(n)),
{
    lemma_common_lines(lines_of(before), lines_of(after), n);
    assert(lines_of(before).subrange(0, n) =~= lines_of(before).take(n));
    assert(lines_of(before).subrange(n, lines_of(before).len() as int) =~= lines_of(before).skip(
        n,
    ));
    assert(lines_of(after).subrange(n, lines_of(after).len() as int) =~= lines_of(after).skip(n));
}

/// A line is marked with its mark before it and a line feed behind it, and lines are marked
/// one after the other.
pub proof fn lemma_lines_are_marked_one_by_one(
    mark: char,
    line: Seq<char>,
    first: Seq<Seq<char>>,
    rest: Seq<Seq<char>>,
)
    ensures
        marked(mark, seq![line]) == seq![mark] + line + seq!['\n'],
        marked(mark, first + rest) == marked(mark, first) + marked(mark, rest),
        marked(mark, seq![]) == Seq::<char>::empty(),
    decreases rest.len(),
{
    reveal_with_fuel(marked, 2);
    assert(seq![line].drop_last() =~= Seq::<Seq<char>>::empty());
    assert(marked(mark, seq![line]) =~= seq![mark] + line + seq!['\n']);
    if rest.len() == 0 {
        assert(first + rest =~= first);
        assert(marked(mark, first) + marked(mark, rest) =~= marked(mark, first));
    } else {
        lemma_lines_are_marked_one_by_one(mark, line, first, rest.drop_last());
        assert((first + rest).drop_last() =~= first + rest.drop_last());
        assert((first + rest).last() == rest.last());
        assert(marked(mark, first + rest) =~= marked(mark, first) + marked(mark, rest));
    }
}

/// The digest of a text is `sha256:` and two hexadecimal digits for each byte of the SHA-256
/// of its UTF-8, the higher half of the byte first.
pub proof fn lemma_digest_is_hexadecimal(content: Seq<char>, i: int)
    requires
        0 <= i < sha256(vstd::utf8::encode_utf8(content)).len(),
    ensures
        ({
            let bytes = sha256(vstd::utf8::encode_utf8(content));
            let digest = digest_text(content);
            let n = "sha256:"@.len() as int;
            &&& digest.take(n) == "sha256:"@
            &&& digest.len() == n + 2 * bytes.len()
            &&& digest[n + 2 * i] == hex_digit(bytes[i] as nat / 16)
            &&& digest[n + 2 * i + 1] == hex_digit(bytes[i] as nat % 16)
        }),
{
    let bytes = sha256(vstd::utf8::encode_utf8(content));
    let digest = digest_text(content);
    let n = "sha256:"@.len() as int;
    assert(digest.take(n) =~= "sha256:"@);
    assert((2 * i) % 2 == 0 && (2 * i) / 2 == i);
    assert((2 * i + 1) % 2 == 1 && (2 * i + 1) / 2 == i);
    assert(hex_of(bytes)[2 * i] == hex_digit(bytes[i] as nat / 16));
    assert(hex_of(bytes)[2 * i + 1] == hex_digit(bytes[i] as nat % 16));
}

/// The summary of a change says what became of the record: that it was created, deleted or
/// is unchanged; of one changed field its name and its two values, of several their names;
/// and of a text how many bytes it grew or shrank by.
pub proof fn lemma_summary_says_what_changed(
    label: Seq<char>,
    before: JsonView,
    after: JsonView,
    fields: Seq<Seq<char>>,
)
    requires
        names_changes(Some(before), Some(after), fields),
    ensures
        summary_of(label, None, Some(after)) == label + " created"@,
        summary_of(label, Some(before), None) == label + " deleted"@,
        summary_of(label, None, None) == label + " unchanged"@,
        ({
            let told = summary_of(label, Some(before), Some(after));
            &&& fields.len() == 0 ==> told == label + " unchanged"@
            &&& fields.len() == 1 && fields[0] != "content"@ ==> told == label + " "@ + fields[0]
                + " changed: "@ + value_in_summary(member_or_null(before, fields[0])) + " -> "@
                + value_in_summary(member_or_null(after, fields[0]))
            &&& fields.len() > 1 ==> told == label + " updated: "@ + joined(fields, ", "@)
            &&& fields.len() == 1 && fields[0] == "content"@ ==> {
                let was = content_len(before);
                let is = content_len(after);
                &&& is >= was ==> told == label + " content changed: +"@ + decimal(
                    (is - was) as nat,
                ) + " characters"@
                &&& is < was ==> told == label + " content changed: -"@ + decimal(
                    (was - is) as nat,
                ) + " characters"@
            }
        }),
{
    lemma_changes_are_unique(Some(before), Some(after), fields);
}

/// The values in a summary are told apart by their kind: a text is quoted, null is said, and
/// anything else is the JSON that it is. The length of a text is that of its UTF-8; a record
/// without a text has none.
pub proof fn lemma_values_in_summaries(map: Map<Seq<char>, JsonView>, value: JsonView)
    ensures
        value is Text ==> value_in_summary(value) == quoted(value->Text_0),
        value is Null ==> value_in_summary(value) == "null"@,
        !(value is Text) && !(value is Null) ==> value_in_summary(value) == json_printed(value),
        map.dom().contains("content"@) && map["content"@] is Text ==> content_len(
            JsonView::Object(map),
        ) == vstd::utf8::encode_utf8(map["content"@]->Text_0).len(),
        !(map.dom().contains("content"@) && map["content"@] is Text) ==> content_len(
            JsonView::Object(map),
        ) == 0,
        forall|k: Seq<char>| #[trigger]
            map.dom().contains(k) ==> member_or_null(JsonView::Object(map), k) == map[k],
        forall|k: Seq<char>|
            !map.dom().contains(k) ==> #[trigger] member_or_null(JsonView::Object(map), k)
                == JsonView::Null,
{
}

/// A diff that is marked says which version it takes back, and otherwise says what it said:
/// its other members stay, and so does what else is known of it.
pub proof fn lemma_mark_adds_the_version(
    diff: Map<Seq<char>, JsonView>,
    version_id: Seq<char>,
    again: Seq<char>,
)
    ensures
        ({
            let marked = marked_diff(JsonView::Object(diff), version_id)->Object_0;
            let metadata = marked["metadata"@]->Object_0;
            &&& marked.dom() == diff.dom().insert("metadata"@)
            &&& forall|k: Seq<char>|
                diff.dom().contains(k) && k != "metadata"@ ==> #[trigger] marked[k] == diff[k]
            &&& metadata["rollback_of_version_id"@] == JsonView::Text(version_id)
            &&& diff.dom().contains("metadata"@) && diff["metadata"@] is Object ==> forall|
                k: Seq<char>,
            |
                diff["metadata"@]->Object_0.dom().contains(k) && k != "rollback_of_version_id"@
                    ==> #[trigger] metadata[k] == diff["metadata"@]->Object_0[k]
            &&& marked_diff(JsonView::Object(marked), again) == marked_diff(
                JsonView::Object(diff),
                again,
            )
        }),
{
    let marked = marked_diff(JsonView::Object(diff), version_id)->Object_0;
    let twice = marked_diff(JsonView::Object(marked), again)->Object_0;
    let once = marked_diff(JsonView::Object(diff), again)->Object_0;
    assert(marked.dom() =~= diff.dom().insert("metadata"@));
    assert(twice["metadata"@]->Object_0 =~= once["metadata"@]->Object_0);
    assert(twice =~= once);
}

/// Versions are kept of tasks and of documents, and asking for those of anything else is
/// refused. The identifier of a record is the one that has the prefix of its type.
pub proof fn lemma_versions_are_of_tasks_and_documents(
    entity_type: Seq<char>,
    entity_id: Seq<char>,
)
    ensures
        entity_type_fault(entity_type) is None <==> entity_type == "task"@ || entity_type
            == "document"@,
        entity_type_fault(entity_type) matches Some(e) ==> e == ErrorView::Validation(
            "unknown version entity_type: "@ + entity_type,
        ),
        entity_type == "task"@ && begins_with(entity_id, "tsk_"@) ==> normal_entity_id(
            entity_type,
            entity_id,
        ) == entity_id,
        entity_type == "task"@ && !begins_with(entity_id, "tsk_"@) ==> normal_entity_id(
            entity_type,
            entity_id,
        ) == "tsk_"@ + entity_id,
        entity_type == "document"@ && begins_with(entity_id, "doc_"@) ==> normal_entity_id(
            entity_type,
            entity_id,
        ) == entity_id,
        entity_type == "document"@ && !begins_with(entity_id, "doc_"@) ==> normal_entity_id(
            entity_type,
            entity_id,
        ) == "doc_"@ + entity_id,
{
    reveal_strlit("task");
    reveal_strlit("document");
    assert("task"@.len() != "document"@.len());
}

/// A query asks for as many versions as it is told to, but for one at least and for two
/// hundred at most; to ask for more never gives fewer.
pub proof fn lemma_limit_is_kept_in_range(limit: u32, more: u32)
    requires
        limit <= more,
    ensures
        1 <= clamped(limit) <= clamped(more) <= 200,
        1 <= limit <= 200 ==> clamped(limit) == limit,
        limit > 200 ==> clamped(limit) == 200,
{
}

/// A version says who made it: a user, without a name, or an agent, with its identifier and
/// name.
pub proof fn lemma_version_says_who_made_it(actor: Actor)
    ensures
        actor is User ==> actor_kind(actor) == "user"@ && actor_id_text(actor) is None
            && actor_name(actor) is None,
        actor is Agent ==> actor_kind(actor) == "agent"@ && actor_id_text(actor) == Some(
            id_text(actor->Agent_id),
        ) && actor_name(actor) == Some(actor->Agent_name@),
{
}

/// A record that was not there and is not, and one that is what it was, did not change; any
/// other did.
pub proof fn lemma_draft_tells_changes(draft: VersionDraft)
    ensures
        draft.before is None && draft.after is None ==> draft.is_unchanged(),
        draft.before is None && draft.after is Some ==> !draft.is_unchanged(),
        draft.before is Some && draft.after is None ==> !draft.is_unchanged(),
        draft.before is Some && draft.after is Some ==> (draft.is_unchanged() <==> compared(
            draft.before->Some_0.model(),
        ) == compared(draft.after->Some_0.model())),
{
}

// ── laws ────────────────────────────────────────────────────────────────────

/// Each field of a version is read from columns of its own: what is read of a row with another
/// value there differs in that field alone.
pub proof fn lemma_entity_version_is_read_field_by_field(
    row: EntityVersionRow,
    record: EntityVersion,
    other_row: EntityVersionRow,
    other: EntityVersion,
)
    requires
        version_read(row, record),
        version_read(other_row, other),
    ensures
        version_read(
            EntityVersionRow { id: other_row.id, ..row },
            EntityVersion { id: other.id, ..record },
        ),
        version_read(
            EntityVersionRow { entity_type: other_row.entity_type, ..row },
            EntityVersion { entity_type: other.entity_type, ..record },
        ),
        version_read(
            EntityVersionRow { entity_id: other_row.entity_id, ..row },
            EntityVersion { entity_id: other.entity_id, ..record },
        ),
        version_read(
            EntityVersionRow { version_number: other_row.version_number, ..row },
            EntityVersion { version_number: other.version_number, ..record },
        ),
        version_read(
            EntityVersionRow { actor_json: other_row.actor_json, ..row },
            EntityVersion { actor: other.actor, ..record },
        ),
        version_read(
            EntityVersionRow { event_type: other_row.event_type, ..row },
            EntityVersion { event_type: other.event_type, ..record },
        ),
        version_read(
            EntityVersionRow { reason: other_row.reason, ..row },
            EntityVersion { reason: other.reason, ..record },
        ),
        version_read(
            EntityVersionRow { source_event_id: other_row.source_event_id, ..row },
            EntityVersion { source_event_id: other.source_event_id, ..record },
        ),
        version_read(
            EntityVersionRow { source_event_seq: other_row.source_event_seq, ..row },
            EntityVersion { source_event_seq: other.source_event_seq, ..record },
        ),
        version_read(
            EntityVersionRow { created_at: other_row.created_at, ..row },
            EntityVersion { created_at: other.created_at, ..record },
        ),
        version_read(
            EntityVersionRow { before_json: other_row.before_json, ..row },
            EntityVersion { before: other.before, ..record },
        ),
        version_read(
            EntityVersionRow { after_json: other_row.after_json, ..row },
            EntityVersion { after: other.after, ..record },
        ),
        version_read(
            EntityVersionRow { diff_json: other_row.diff_json, ..row },
            EntityVersion { diff: other.diff, ..record },
        ),
        version_read(
            EntityVersionRow { changed_fields_json: other_row.changed_fields_json, ..row },
            EntityVersion { changed_fields: other.changed_fields, ..record },
        ),
        version_read(
            EntityVersionRow { summary: other_row.summary, ..row },
            EntityVersion { summary: other.summary, ..record },
        ),
{
}

/// A version is written with its identifier, its subject and its number; with who made it, of
/// which kind that is, and the event, its number and its time; and with the record before and
/// after, what differs between them, which fields changed, and the summary.
pub proof fn lemma_version_is_written_in_full(
    id: VersionId,
    draft: VersionDraft,
    version_number: i64,
    envelope: EventEnvelope,
)
    ensures
        ({
            let columns = version_columns(id, draft, version_number, envelope);
            let fields = changes_between(opt_model(draft.before), opt_model(draft.after));
            &&& columns.len() == 17
            &&& columns[0] == sql_id(id)
            &&& columns[1] == sql_text(draft.entity_type@)
            &&& columns[2] == sql_text(draft.entity_id@)
            &&& columns[3] == sql_int(version_number as int)
            &&& columns[4] == sql_actor(envelope.actor)
            &&& columns[5] == sql_text(actor_kind(envelope.actor))
            &&& columns[6] == sql_opt_text(actor_id_text(envelope.actor))
            &&& columns[7] == sql_opt_text(actor_name(envelope.actor))
            &&& columns[8] == sql_text(envelope.payload.kind_text())
            &&& columns[9] == sql_id(envelope.id)
            &&& columns[10] == sql_int(envelope.seq as i64 as int)
            &&& columns[11] == sql_time(envelope.occurred_at)
            &&& draft.before matches Some(before) ==> columns[12] == sql_text(
                json_printed(before.model()),
            )
            &&& draft.after matches Some(after) ==> columns[13] == sql_text(
                json_printed(after.model()),
            )
            &&& draft.before is None ==> columns[12] == sql_opt_text(None)
            &&& draft.after is None ==> columns[13] == sql_opt_text(None)
            &&& columns[14] == sql_text(
                json_printed(
                    diff_of(
                        opt_model(draft.before),
                        opt_model(draft.after),
                        envelope.payload.kind_text(),
                        fields,
                    ),
                ),
            )
            &&& columns[15] == sql_text(strings_printed(fields))
            &&& columns[16] == sql_text(draft.summary@)
        }),
{
}

/// A row of a version without a fault says what is read from it.
pub proof fn lemma_entity_version_is_what_the_row_says(row: EntityVersionRow, record: EntityVersion)
    requires
        version_fault(row) is None,
        version_read(row, record),
    ensures
        record.id == row.id && record.entity_type == row.entity_type,
        record.entity_id == row.entity_id && record.version_number == row.version_number,
        record.event_type == row.event_type && record.reason == row.reason,
        record.source_event_id == row.source_event_id,
        record.source_event_seq == row.source_event_seq,
        record.created_at == row.created_at && record.summary == row.summary,
        json_parsed(row.actor_json@) == Ok::<JsonView, Seq<char>>(record.actor.model()),
        json_parsed(row.diff_json@) == Ok::<JsonView, Seq<char>>(record.diff.model()),
        row.before_json is None <==> record.before is None,
        row.before_json matches Some(text) ==> json_parsed(text@) == Ok::<JsonView, Seq<char>>(
            record.before->Some_0.model(),
        ),
        row.after_json is None <==> record.after is None,
        row.after_json matches Some(text) ==> json_parsed(text@) == Ok::<JsonView, Seq<char>>(
            record.after->Some_0.model(),
        ),
        strings_parsed(row.changed_fields_json@) == Ok::<Seq<Seq<char>>, Seq<char>>(
            texts(record.changed_fields@),
        ),
{
}

/// A row of a version is refused for what is wrong with a column, with the error of that
/// column; where nothing is wrong with any, nothing is refused.
pub proof fn lemma_entity_version_is_refused_for_its_columns(
    row: EntityVersionRow,
    other: EntityVersionRow,
)
    requires
        version_fault(row) is None,
    ensures
        version_fault(EntityVersionRow { actor_json: other.actor_json, ..row }) == json_fault(
            other.actor_json@,
        ),
        version_fault(EntityVersionRow { before_json: other.before_json, ..row }) == opt_json_fault(
            other.before_json,
        ),
        version_fault(EntityVersionRow { after_json: other.after_json, ..row }) == opt_json_fault(
            other.after_json,
        ),
        version_fault(EntityVersionRow { diff_json: other.diff_json, ..row }) == json_fault(
            other.diff_json@,
        ),
        version_fault(EntityVersionRow { changed_fields_json: other.changed_fields_json, ..row })
            == strings_fault(other.changed_fields_json@),
{
}

} // verus!
