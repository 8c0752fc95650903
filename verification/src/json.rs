//! JSON documents as the library looks at them.
use vstd::prelude::*;

use crate::error::{CoreError, ErrorView};
use crate::text::{text_eq, texts};

verus! {

/// A JSON value.
#[derive(Debug)]
pub enum Json {
    Null,
    Bool(bool),
    Number(JsonNumber),
    Text(String),
    Array(Vec<Json>),
    Object(JsonMap),
}

/// What a number counts as where numbers are compared: minus zero is zero.
pub open spec fn number_compared(n: Seq<char>) -> Seq<char> {
    if n == "-0.0"@ {
        "0.0"@
    } else {
        n
    }
}

/// A JSON number. Its model is the text that it is printed with, by which a number is
/// known: an integer is printed without a point and an exponent, any other number with
/// the shortest digits that tell it from its neighbours.
#[derive(Debug)]
pub struct JsonNumber {
    value: serde_json::Value,
}

impl View for JsonNumber {
    type V = Seq<char>;

    closed spec fn view(&self) -> Seq<char> {
        value_model(self.value)->Number_0
    }
}

impl JsonNumber {
    #[verifier::type_invariant]
    spec fn wf(self) -> bool {
        value_model(self.value) is Number
    }

    /// The text that the number is printed with.
    pub fn print(&self) -> (r: String)
        ensures
            r@ == self@,
    {
        proof {
            use_type_invariant(self);
        }
        print_value(&self.value)
    }

    fn copy(&self) -> (r: JsonNumber)
        ensures
            r@ == self@,
    {
        proof {
            use_type_invariant(self);
        }
        JsonNumber { value: copy_value(&self.value) }
    }
}

impl Clone for JsonNumber {
    fn clone(&self) -> (r: Self)
        ensures
            r@ == self@,
    {
        self.copy()
    }
}

/// The members of a JSON object, each key once.
#[derive(Debug)]
pub struct JsonMap {
    entries: Vec<(String, Json)>,
}

/// The mathematical model of [`Json`].
#[verifier::ext_equal]
pub ghost enum JsonView {
    Null,
    Bool(bool),
    Number(Seq<char>),
    Text(Seq<char>),
    Array(Seq<JsonView>),
    Object(Map<Seq<char>, JsonView>),
}

/// What a value counts as where values are compared: the value itself, but for the
/// zeros with a minus sign in it.
pub open spec fn compared(j: JsonView) -> JsonView
    decreases j,
{
    match j {
        JsonView::Number(n) => JsonView::Number(number_compared(n)),
        JsonView::Array(a) => JsonView::Array(
            Seq::new(
                a.len(),
                |i: int|
                    if 0 <= i < a.len() {
                        compared(a[i])
                    } else {
                        JsonView::Null
                    },
            ),
        ),
        JsonView::Object(m) => JsonView::Object(
            Map::new(
                |k: Seq<char>| m.dom().contains(k),
                |k: Seq<char>|
                    if m.dom().contains(k) {
                        compared(m[k])
                    } else {
                        JsonView::Null
                    },
            ),
        ),
        other => other,
    }
}

/// What an optional value counts as where values are compared.
pub open spec fn opt_compared(j: Option<JsonView>) -> Option<JsonView> {
    match j {
        Some(j) => Some(compared(j)),
        None => None,
    }
}

impl Json {
    pub open spec fn model(self) -> JsonView
        decreases self,
    {
        match self {
            Json::Null => JsonView::Null,
            Json::Bool(b) => JsonView::Bool(b),
            Json::Number(n) => JsonView::Number(n@),
            Json::Text(s) => JsonView::Text(s@),
            Json::Array(items) => JsonView::Array(
                Seq::new(
                    items@.len(),
                    |i: int|
                        if 0 <= i < items@.len() {
                            items@[i].model()
                        } else {
                            JsonView::Null
                        },
                ),
            ),
            Json::Object(map) => JsonView::Object(map.model()),
        }
    }
}

impl JsonMap {
    #[verifier::type_invariant]
    spec fn wf(self) -> bool {
        forall|i: int, j: int|
            0 <= i < j < self.entries@.len() ==> (#[trigger] self.entries@[i]).0@ != (
            #[trigger] self.entries@[j]).0@
    }

    spec fn has_at(self, i: int, k: Seq<char>) -> bool {
        0 <= i < self.entries@.len() && self.entries@[i].0@ == k
    }

    pub closed spec fn model(self) -> Map<Seq<char>, JsonView>
        decreases self,
    {
        Map::new(
            |k: Seq<char>| exists|i: int| self.has_at(i, k),
            |k: Seq<char>|
                {
                    let i = choose|i: int| self.has_at(i, k);
                    if 0 <= i < self.entries@.len() {
                        self.entries@[i].1.model()
                    } else {
                        JsonView::Null
                    }
                },
        )
    }

    proof fn lemma_member(self, i: int)
        requires
            self.wf(),
            0 <= i < self.entries@.len(),
        ensures
            self.model().dom().contains(self.entries@[i].0@),
            self.model()[self.entries@[i].0@] == self.entries@[i].1.model(),
    {
        let k = self.entries@[i].0@;
        assert(self.has_at(i, k));
        let j = choose|j: int| self.has_at(j, k);
        assert(self.has_at(j, k));
        assert(i == j) by {
            if i < j {
                assert(self.entries@[i].0@ != self.entries@[j].0@);
            }
            if j < i {
                assert(self.entries@[j].0@ != self.entries@[i].0@);
            }
        }
    }

    proof fn lemma_no_member(self, k: Seq<char>)
        requires
            forall|i: int| 0 <= i < self.entries@.len() ==> (#[trigger] self.entries@[i]).0@ != k,
        ensures
            !self.model().dom().contains(k),
    {
        if self.model().dom().contains(k) {
            let i = choose|i: int| self.has_at(i, k);
            assert(self.has_at(i, k));
            assert(self.entries@[i].0@ == k);
        }
    }

    /// An object without members.
    pub fn new() -> (r: JsonMap)
        ensures
            r.model() == Map::<Seq<char>, JsonView>::empty(),
    {
        let r = JsonMap { entries: Vec::new() };
        assert(r.model() =~= Map::<Seq<char>, JsonView>::empty());
        r
    }

    /// The number of members.
    pub fn len(&self) -> (n: usize)
        ensures
            n == self.size(),
    {
        self.entries.len()
    }

    /// The number of members.
    pub closed spec fn size(self) -> nat {
        self.entries@.len()
    }

    /// The key of the `i`-th member, in no particular order.
    pub closed spec fn key(self, i: int) -> Seq<char> {
        self.entries@[i].0@
    }

    /// A text is a key of the object exactly where it is the key of some member.
    pub proof fn lemma_keys(self)
        ensures
            forall|k: Seq<char>|
                #![trigger self.model().dom().contains(k)]
                self.model().dom().contains(k) <==> exists|i: int|
                    0 <= i < self.size() && self.key(i) == k,
    {
        assert forall|k: Seq<char>| self.model().dom().contains(k) implies exists|i: int|
            0 <= i < self.size() && self.key(i) == k by {
            let i = choose|i: int| self.has_at(i, k);
            assert(self.has_at(i, k));
            assert(self.key(i) == k);
        }
        assert forall|k: Seq<char>|
            (exists|i: int| 0 <= i < self.size() && self.key(i) == k) implies self.model().dom().contains(
            k,
        ) by {
            let i = choose|i: int| 0 <= i < self.size() && self.key(i) == k;
            assert(self.has_at(i, k));
        }
    }

    /// The key of the `i`-th member.
    pub fn key_at(&self, i: usize) -> (r: &String)
        requires
            i < self.size(),
        ensures
            r@ == self.key(i as int),
    {
        &self.entries[i].0
    }

    /// The value of a member, where the object has it.
    pub fn get(&self, key: &str) -> (r: Option<&Json>)
        ensures
            match r {
                Some(value) => self.model().dom().contains(key@) && self.model()[key@]
                    == value.model(),
                None => !self.model().dom().contains(key@),
            },
    {
        proof {
            use_type_invariant(self);
        }
        let mut i: usize = 0;
        while i < self.entries.len()
            invariant
                i <= self.entries@.len(),
                self.wf(),
                forall|j: int| 0 <= j < i ==> (#[trigger] self.entries@[j]).0@ != key@,
            decreases self.entries@.len() - i,
        {
            if text_eq(self.entries[i].0.as_str(), key) {
                proof {
                    self.lemma_member(i as int);
                }
                return Some(&self.entries[i].1);
            }
            i = i + 1;
        }
        proof {
            self.lemma_no_member(key@);
        }
        None
    }

    /// Sets a member, in place of the one with the same key where there is one.
    pub fn insert(self, key: String, value: Json) -> (r: JsonMap)
        ensures
            r.model() == self.model().insert(key@, value.model()),
    {
        proof {
            use_type_invariant(&self);
        }
        let ghost before = self;
        let ghost k = key@;
        let ghost v = value.model();
        let mut entries = self.entries;
        let mut i: usize = 0;
        while i < entries.len()
            invariant
                i <= entries@.len(),
                before.wf(),
                before == self,
                entries@ == before.entries@,
                k == key@,
                v == value.model(),
                forall|j: int| 0 <= j < i ==> (#[trigger] entries@[j]).0@ != k,
            decreases entries@.len() - i,
        {
            if text_eq(entries[i].0.as_str(), key.as_str()) {
                entries.set(i, (key, value));
                let r = JsonMap { entries };
                proof {
                    assert(r.wf());
                    assert forall|q: Seq<char>| r.model().dom().contains(q) <==> before.model().insert(
                        k,
                        v,
                    ).dom().contains(q) by {
                        assert(r.has_at(i as int, k));
                        if before.model().dom().contains(q) {
                            let j = choose|j: int| before.has_at(j, q);
                            assert(before.has_at(j, q));
                            assert(r.has_at(j, q));
                        }
                        if r.model().dom().contains(q) {
                            let j = choose|j: int| r.has_at(j, q);
                            assert(r.has_at(j, q));
                            assert(before.has_at(j, q));
                        }
                    }
                    assert forall|q: Seq<char>| r.model().dom().contains(q) implies r.model()[q]
                        == before.model().insert(k, v)[q] by {
                        let j = choose|j: int| r.has_at(j, q);
                        assert(r.has_at(j, q));
                        r.lemma_member(j);
                        before.lemma_member(j);
                    }
                    assert(r.model() =~= before.model().insert(k, v));
                }
                return r;
            }
            i = i + 1;
        }
        entries.push((key, value));
        let r = JsonMap { entries };
        proof {
            let n = before.entries@.len() as int;
            assert forall|q: Seq<char>| r.model().dom().contains(q) <==> before.model().insert(
                k,
                v,
            ).dom().contains(q) by {
                if before.model().dom().contains(q) {
                    let j = choose|j: int| before.has_at(j, q);
                    assert(before.has_at(j, q));
                    assert(r.has_at(j, q));
                }
                assert(r.has_at(n, k));
                if r.model().dom().contains(q) && q != k {
                    let j = choose|j: int| r.has_at(j, q);
                    assert(r.has_at(j, q));
                    assert(before.has_at(j, q));
                }
            }
            assert forall|q: Seq<char>| r.model().dom().contains(q) implies r.model()[q]
                == before.model().insert(k, v)[q] by {
                let j = choose|j: int| r.has_at(j, q);
                assert(r.has_at(j, q));
                r.lemma_member(j);
                if j < n {
                    before.lemma_member(j);
                }
            }
            assert(r.model() =~= before.model().insert(k, v));
        }
        r
    }

    /// Sets a member, given by a key and a value.
    pub fn with(self, key: &str, value: Json) -> (r: JsonMap)
        ensures
            r.model() == self.model().insert(key@, value.model()),
    {
        self.insert(key.to_owned(), value)
    }

    /// A copy of the object.
    pub fn copy(&self) -> (r: JsonMap)
        ensures
            r.model() == self.model(),
        decreases *self,
    {
        proof {
            use_type_invariant(self);
        }
        let mut entries: Vec<(String, Json)> = Vec::new();
        let mut i: usize = 0;
        while i < self.entries.len()
            invariant
                i <= self.entries@.len(),
                self.wf(),
                entries@.len() == i,
                forall|j: int|
                    0 <= j < i ==> (#[trigger] entries@[j]).0 == self.entries@[j].0
                        && entries@[j].1.model() == self.entries@[j].1.model(),
            decreases self.entries@.len() - i,
        {
            let value = self.entries[i].1.copy();
            entries.push((self.entries[i].0.clone(), value));
            i = i + 1;
        }
        let r = JsonMap { entries };
        proof {
            assert forall|k: Seq<char>| self.model().dom().contains(k) <==> r.model().dom().contains(
                k,
            ) by {
                self.lemma_keys();
                r.lemma_keys();
                assert(forall|j: int| 0 <= j < self.size() ==> r.key(j) == self.key(j));
            }
            assert forall|k: Seq<char>| self.model().dom().contains(k) implies self.model()[k]
                == r.model()[k] by {
                let j = choose|j: int| self.has_at(j, k);
                assert(self.has_at(j, k));
                self.lemma_member(j);
                r.lemma_member(j);
            }
            assert(self.model() =~= r.model());
        }
        r
    }
}

impl Json {
    /// Whether two values are equal.
    pub fn same(&self, other: &Json) -> (r: bool)
        ensures
            r == (compared(self.model()) == compared(other.model())),
    {
        equal_values(&to_value(self), &to_value(other))
    }

    /// A copy of the value.
    pub fn copy(&self) -> (r: Json)
        ensures
            r.model() == self.model(),
        decreases *self,
    {
        match self {
            Json::Null => Json::Null,
            Json::Bool(b) => Json::Bool(*b),
            Json::Number(n) => Json::Number(n.copy()),
            Json::Text(s) => Json::Text(s.clone()),
            Json::Array(items) => {
                let mut out: Vec<Json> = Vec::new();
                let mut i: usize = 0;
                while i < items.len()
                    invariant
                        i <= items@.len(),
                        out@.len() == i,
                        *self == Json::Array(*items),
                        forall|j: int| 0 <= j < i ==> (#[trigger] out@[j]).model() == items@[j].model(),
                    decreases items@.len() - i,
                {
                    assert(decreases_to!(*self => self->Array_0@[i as int]));
                    out.push(items[i].copy());
                    i = i + 1;
                }
                let r = Json::Array(out);
                assert(r.model()->Array_0 =~= self.model()->Array_0);
                r
            },
            Json::Object(map) => Json::Object(map.copy()),
        }
    }

    /// A text value.
    pub fn text(s: &str) -> (r: Json)
        ensures
            r.model() == JsonView::Text(s@),
    {
        Json::Text(s.to_owned())
    }
}

impl Clone for JsonMap {
    fn clone(&self) -> (r: Self)
        ensures
            r.model() == self.model(),
    {
        self.copy()
    }
}

impl Clone for Json {
    fn clone(&self) -> (r: Self)
        ensures
            r.model() == self.model(),
    {
        self.copy()
    }
}

impl PartialEq for Json {
    fn eq(&self, other: &Json) -> (r: bool) {
        self.same(other)
    }
}

impl Eq for Json {

}

impl vstd::std_specs::cmp::PartialEqSpecImpl for Json {
    open spec fn obeys_eq_spec() -> bool {
        true
    }

    open spec fn eq_spec(&self, other: &Json) -> bool {
        compared(self.model()) == compared(other.model())
    }
}

/// The model of an optional value.
pub open spec fn opt_model(j: Option<Json>) -> Option<JsonView> {
    match j {
        Some(j) => Some(j.model()),
        None => None,
    }
}

/// Whether two optional values are equal.
pub fn same_opt(a: &Option<Json>, b: &Option<Json>) -> (r: bool)
    ensures
        r == (opt_compared(opt_model(*a)) == opt_compared(opt_model(*b))),
{
    match (a, b) {
        (None, None) => true,
        (Some(a), Some(b)) => a.same(b),
        _ => false,
    }
}

/// A JSON value as `serde_json` holds it.
#[verifier::external_type_specification]
#[verifier::external_body]
pub struct ExValue(serde_json::Value);

/// What a `serde_json::Value` holds.
pub uninterp spec fn value_model(v: serde_json::Value) -> JsonView;

/// What reading a text as JSON gives: the value, or the reason for refusing it.
pub uninterp spec fn json_parsed(s: Seq<char>) -> Result<JsonView, Seq<char>>;

/// The compact text of a JSON value.
pub uninterp spec fn json_printed(j: JsonView) -> Seq<char>;

/// The text of a number without fraction and exponent.
pub open spec fn is_integer_text(s: Seq<char>) -> bool {
    forall|i: int| 0 <= i < s.len() ==> #[trigger] s[i] == '-' || '0' <= s[i] <= '9'
}

/// The value is nested no deeper than `depth`, and each number in it is an integer.
pub open spec fn is_plain_json(j: JsonView, depth: nat) -> bool
    decreases depth,
{
    match j {
        JsonView::Number(n) => is_integer_text(n),
        JsonView::Array(a) => depth > 0 && forall|i: int|
            0 <= i < a.len() ==> is_plain_json(#[trigger] a[i], (depth - 1) as nat),
        JsonView::Object(m) => depth > 0 && forall|k: Seq<char>| #[trigger]
            m.dom().contains(k) ==> is_plain_json(m[k], (depth - 1) as nat),
        _ => true,
    }
}

/// Each number in the value, where there is one, is an integer, and it is nested no deeper
/// than JSON is read.
pub open spec fn opt_is_plain_json(j: Option<JsonView>) -> bool {
    match j {
        Some(j) => is_plain_json(j, JSON_DEPTH as nat),
        None => true,
    }
}

/// What is nested no deeper than some depth is nested no deeper than a greater one.
pub proof fn lemma_plain_json_deeper(j: JsonView, depth: nat, deeper: nat)
    requires
        is_plain_json(j, depth),
        depth <= deeper,
    ensures
        is_plain_json(j, deeper),
    decreases depth,
{
    match j {
        JsonView::Array(a) => {
            assert forall|i: int| 0 <= i < a.len() implies is_plain_json(
                #[trigger] a[i],
                (deeper - 1) as nat,
            ) by {
                lemma_plain_json_deeper(a[i], (depth - 1) as nat, (deeper - 1) as nat);
            }
        },
        JsonView::Object(m) => {
            assert forall|k: Seq<char>| #[trigger] m.dom().contains(k) implies is_plain_json(
                m[k],
                (deeper - 1) as nat,
            ) by {
                lemma_plain_json_deeper(m[k], (depth - 1) as nat, (deeper - 1) as nat);
            }
        },
        _ => {},
    }
}

/// The depth down to which JSON is read.
pub const JSON_DEPTH: usize = 127;

/// Makes the `serde_json::Value` that holds `j`, member by member.
#[verifier::external_body]
fn to_value(j: &Json) -> (v: serde_json::Value)
    ensures
        value_model(v) == j.model(),
{
    match j {
        Json::Null => serde_json::Value::Null,
        Json::Bool(b) => serde_json::Value::Bool(*b),
        Json::Number(n) => n.value.clone(),
        Json::Text(s) => serde_json::Value::String(s.clone()),
        Json::Array(a) => serde_json::Value::Array(a.iter().map(to_value).collect()),
        Json::Object(m) => serde_json::Value::Object(
            m.entries.iter().map(|(k, v)| (k.clone(), to_value(v))).collect(),
        ),
    }
}

/// The value that a `serde_json::Value` holds, member by member.
#[verifier::external_body]
fn from_value(v: serde_json::Value) -> (j: Json)
    ensures
        j.model() == value_model(v),
{
    match v {
        serde_json::Value::Null => Json::Null,
        serde_json::Value::Bool(b) => Json::Bool(b),
        serde_json::Value::Number(_) => Json::Number(JsonNumber { value: v }),
        serde_json::Value::String(s) => Json::Text(s),
        serde_json::Value::Array(a) => Json::Array(a.into_iter().map(from_value).collect()),
        serde_json::Value::Object(m) => Json::Object(JsonMap {
            entries: m.into_iter().map(|(k, v)| (k, from_value(v))).collect(),
        }),
    }
}

/// Copies a JSON value with `serde_json::Value`'s `Clone`.
#[verifier::external_body]
fn copy_value(v: &serde_json::Value) -> (r: serde_json::Value)
    ensures
        value_model(r) == value_model(*v),
{
    v.clone()
}

/// Compares JSON values with `serde_json::Value`'s `==`: by what they hold, whatever the
/// order of an object's members. An integer is equal to the same integer, any other
/// number to the same number, where minus zero is zero.
#[verifier::external_body]
fn equal_values(a: &serde_json::Value, b: &serde_json::Value) -> (r: bool)
    ensures
        r == (compared(value_model(*a)) == compared(value_model(*b))),
{
    a == b
}

/// Prints a JSON value with `serde_json::Value`'s `Display`: compact JSON, a function
/// of the value alone. Claimed besides: a number is printed as its own text; and where no number in it has a fraction or an
/// exponent, and it is nested no deeper than `serde_json::from_str` reads,
/// `serde_json::from_str` reads the text back as the same value.
#[verifier::external_body]
fn print_value(v: &serde_json::Value) -> (r: String)
    ensures
        r@ == json_printed(value_model(*v)),
        value_model(*v) is Number ==> r@ == value_model(*v)->Number_0,
        is_plain_json(value_model(*v), JSON_DEPTH as nat) ==> json_parsed(r@) is Ok && json_parsed(
            r@,
        )->Ok_0 == value_model(*v),
{
    v.to_string()
}

/// Reads JSON with `serde_json::from_str`. The result, and the message of the error,
/// depend on the text alone.
#[verifier::external_body]
fn parse_value(s: &str) -> (r: Result<serde_json::Value, String>)
    ensures
        match json_parsed(s@) {
            Ok(j) => r is Ok && value_model(r->Ok_0) == j,
            Err(message) => r is Err && r->Err_0@ == message,
        },
{
    serde_json::from_str(s).map_err(|e| e.to_string())
}

/// The compact text of a JSON value.
pub fn print_json(j: &Json) -> (r: String)
    ensures
        r@ == json_printed(j.model()),
        is_plain_json(j.model(), JSON_DEPTH as nat) ==> json_parsed(r@) is Ok && json_parsed(
            r@,
        )->Ok_0 == j.model(),
{
    print_value(&to_value(j))
}

/// The compact text of an optional JSON value.
pub fn print_opt_json(j: &Option<Json>) -> (r: Option<String>)
    ensures
        crate::text::opt_text(r) == printed_opt(opt_model(*j)),
        *j matches Some(v) ==> is_plain_json(v.model(), JSON_DEPTH as nat) ==> json_parsed(
            json_printed(v.model()),
        ) == Ok::<JsonView, Seq<char>>(v.model()),
{
    match j {
        Some(j) => Some(print_json(j)),
        None => None,
    }
}

/// The compact text of an optional JSON value.
pub open spec fn printed_opt(j: Option<JsonView>) -> Option<Seq<char>> {
    match j {
        Some(j) => Some(json_printed(j)),
        None => None,
    }
}

/// Why a text is no JSON.
pub open spec fn json_fault(s: Seq<char>) -> Option<ErrorView> {
    match json_parsed(s) {
        Ok(_) => None,
        Err(message) => Some(ErrorView::Serde(message)),
    }
}

/// Reads a JSON value.
pub fn parse_json(s: &str) -> (r: Result<Json, CoreError>)
    ensures
        match json_fault(s@) {
            Some(e) => r is Err && r->Err_0@ == e,
            None => r is Ok && r->Ok_0.model() == json_parsed(s@)->Ok_0,
        },
{
    match parse_value(s) {
        Ok(v) => Ok(from_value(v)),
        Err(message) => Err(CoreError::Serde(message)),
    }
}

/// Why an optional text is no JSON.
pub open spec fn opt_json_fault(s: Option<String>) -> Option<ErrorView> {
    match s {
        Some(s) => json_fault(s@),
        None => None,
    }
}

/// The value that an optional JSON text stands for.
pub open spec fn opt_json_value(s: Option<String>) -> Option<JsonView> {
    match s {
        Some(s) => Some(json_parsed(s@)->Ok_0),
        None => None,
    }
}

/// Reads a JSON value out of a column that may be null.
pub fn parse_optional_json(s: &Option<String>) -> (r: Result<Option<Json>, CoreError>)
    ensures
        match opt_json_fault(*s) {
            Some(e) => r is Err && r->Err_0@ == e,
            None => r is Ok && opt_model(r->Ok_0) == opt_json_value(*s),
        },
{
    match s {
        Some(s) => match parse_json(s.as_str()) {
            Ok(j) => Ok(Some(j)),
            Err(e) => Err(e),
        },
        None => Ok(None),
    }
}

/// The JSON text of a list of texts.
pub uninterp spec fn strings_printed(list: Seq<Seq<char>>) -> Seq<char>;

/// What reading a text as a JSON list of texts gives: the list, or the reason for
/// refusing it.
pub uninterp spec fn strings_parsed(s: Seq<char>) -> Result<Seq<Seq<char>>, Seq<char>>;

/// Prints a list of texts with `serde_json::to_string`, a function of the texts alone
/// that cannot fail for them. Claimed besides: `serde_json::from_str` reads the text
/// back as the same list.
#[verifier::external_body]
pub(crate) fn print_strings(list: &Vec<String>) -> (r: String)
    ensures
        r@ == strings_printed(texts(list@)),
        strings_parsed(r@) is Ok && strings_parsed(r@)->Ok_0 == texts(list@),
{
    serde_json::to_string(list).unwrap()
}

/// Reads a list of texts with `serde_json::from_str`. The result, and the message of
/// the error, depend on the text alone.
#[verifier::external_body]
pub(crate) fn read_strings(s: &str) -> (r: Result<Vec<String>, String>)
    ensures
        match strings_parsed(s@) {
            Ok(list) => r is Ok && texts(r->Ok_0@) == list,
            Err(message) => r is Err && r->Err_0@ == message,
        },
{
    serde_json::from_str(s).map_err(|e| e.to_string())
}

/// Why a text is no JSON list of texts.
pub open spec fn strings_fault(s: Seq<char>) -> Option<ErrorView> {
    match strings_parsed(s) {
        Ok(_) => None,
        Err(message) => Some(ErrorView::Serde(message)),
    }
}

/// Reads a JSON list of texts out of a column.
pub fn parse_strings(s: &str) -> (r: Result<Vec<String>, CoreError>)
    ensures
        match strings_fault(s@) {
            Some(e) => r is Err && r->Err_0@ == e,
            None => r is Ok && texts(r->Ok_0@) == strings_parsed(s@)->Ok_0,
        },
{
    match read_strings(s) {
        Ok(list) => Ok(list),
        Err(message) => Err(CoreError::Serde(message)),
    }
}

// ── laws ────────────────────────────────────────────────────────────────────

/// Values are equal if they hold the same; texts and truth values only if they are the same, and
/// values of different sorts never are.
pub proof fn lemma_equal_values_hold_the_same(a: Json, b: Json)
    ensures
        ({
            let equal = vstd::std_specs::cmp::PartialEqSpec::eq_spec(&a, &b);
            &&& equal == vstd::std_specs::cmp::PartialEqSpec::eq_spec(&b, &a)
            &&& a.model() == b.model() ==> equal
            &&& a is Text && b is Text ==> (equal <==> a->Text_0@ == b->Text_0@)
            &&& a is Bool && b is Bool ==> (equal <==> a->Bool_0 == b->Bool_0)
            &&& a is Null ==> (equal <==> b is Null)
            &&& equal && a is Text ==> b is Text
            &&& equal && a is Bool ==> b is Bool
            &&& equal && a is Number ==> b is Number
            &&& equal && a is Array ==> b is Array && a->Array_0@.len() == b->Array_0@.len()
            &&& equal && a is Object ==> b is Object
        }),
{
    if a is Array && b is Array && compared(a.model()) == compared(b.model()) {
        assert(compared(a.model())->Array_0.len() == compared(b.model())->Array_0.len());
    }
}

} // verus!
