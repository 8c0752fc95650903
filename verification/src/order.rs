//! The order of texts, and lists of texts kept in it.
use vstd::prelude::*;

use crate::text::{text_eq, texts};

verus! {

/// `a` comes before `b`: at the first character in which they differ `a` has the
/// smaller one, or `a` is the beginning of `b`.
pub open spec fn text_before(a: Seq<char>, b: Seq<char>) -> bool
    decreases a.len(),
{
    if b.len() == 0 {
        false
    } else if a.len() == 0 {
        true
    } else if a[0] != b[0] {
        a[0] < b[0]
    } else {
        text_before(a.skip(1), b.skip(1))
    }
}

/// No text comes before itself.
pub proof fn lemma_before_irreflexive(a: Seq<char>)
    ensures
        !text_before(a, a),
    decreases a.len(),
{
    if a.len() > 0 {
        lemma_before_irreflexive(a.skip(1));
    }
}

/// The order of texts is transitive.
pub proof fn lemma_before_transitive(a: Seq<char>, b: Seq<char>, c: Seq<char>)
    requires
        text_before(a, b),
        text_before(b, c),
    ensures
        text_before(a, c),
    decreases a.len(),
{
    if a.len() > 0 && a[0] == b[0] && b[0] == c[0] {
        lemma_before_transitive(a.skip(1), b.skip(1), c.skip(1));
    }
}

/// Of two different texts one comes before the other.
pub proof fn lemma_before_total(a: Seq<char>, b: Seq<char>)
    ensures
        a == b || text_before(a, b) || text_before(b, a),
    decreases a.len(),
{
    if a.len() == 0 && b.len() == 0 {
        assert(a =~= b);
    } else if a.len() > 0 && b.len() > 0 && a[0] == b[0] {
        lemma_before_total(a.skip(1), b.skip(1));
        if a.skip(1) == b.skip(1) {
            assert(a =~= seq![a[0]] + a.skip(1));
            assert(b =~= seq![b[0]] + b.skip(1));
        }
    }
}

/// Whether `a` comes before `b`.
pub fn text_less(a: &str, b: &str) -> (r: bool)
    ensures
        r == text_before(a@, b@),
{
    let n: usize = a.unicode_len();
    let m: usize = b.unicode_len();
    let mut i: usize = 0;
    assert(a@.skip(0) =~= a@);
    assert(b@.skip(0) =~= b@);
    while i < n && i < m
        invariant
            i <= n,
            i <= m,
            n == a@.len(),
            m == b@.len(),
            text_before(a@, b@) == text_before(a@.skip(i as int), b@.skip(i as int)),
        decreases n - i,
    {
        let c = a.get_char(i);
        let d = b.get_char(i);
        if c != d {
            return c < d;
        }
        assert(a@.skip(i as int).skip(1) =~= a@.skip(i + 1));
        assert(b@.skip(i as int).skip(1) =~= b@.skip(i + 1));
        i = i + 1;
    }
    i < m
}

/// Each text of the list comes before all that follow it.
pub open spec fn in_order(list: Seq<Seq<char>>) -> bool {
    forall|i: int, j: int| 0 <= i < j < list.len() ==> text_before(#[trigger] list[i], #[trigger] list[j])
}

/// Puts `s` into an ordered list at its place, unless it is there already.
pub fn insert_in_order(list: &mut Vec<String>, s: String)
    requires
        in_order(texts(old(list)@)),
    ensures
        in_order(texts(final(list)@)),
        forall|t: Seq<char>|
            #![trigger texts(final(list)@).contains(t)]
            texts(final(list)@).contains(t) <==> texts(old(list)@).contains(t) || t == s@,
{
    let ghost before = texts(list@);
    let mut i: usize = 0;
    while i < list.len() && text_less(list[i].as_str(), s.as_str())
        invariant
            i <= list.len(),
            list@ == old(list)@,
            before == texts(list@),
            forall|j: int| 0 <= j < i ==> text_before(#[trigger] before[j], s@),
        decreases list.len() - i,
    {
        assert(before[i as int] == list@[i as int]@);
        i = i + 1;
    }
    if i < list.len() {
        assert(before[i as int] == list@[i as int]@);
        if text_eq(list[i].as_str(), s.as_str()) {
            assert(before.contains(s@));
            return;
        }
        proof {
            lemma_before_total(before[i as int], s@);
        }
    }
    list.insert(i, s);
    proof {
        let after = texts(list@);
        assert(after =~= before.insert(i as int, s@));
        assert forall|j: int, k: int| 0 <= j < k < after.len() implies text_before(
            #[trigger] after[j],
            #[trigger] after[k],
        ) by {
            if j < i && k > i {
                assert(after[j] == before[j] && after[k] == before[k - 1]);
            } else if j < i && k < i {
                assert(after[j] == before[j] && after[k] == before[k]);
            } else if j > i {
                assert(after[j] == before[j - 1] && after[k] == before[k - 1]);
            } else if j < i && k == i {
                assert(after[j] == before[j] && after[k] == s@);
            } else {
                assert(after[j] == s@ && after[k] == before[k - 1]);
                if k - 1 > i {
                    assert(text_before(before[i as int], before[k - 1]));
                    lemma_before_transitive(s@, before[i as int], before[k - 1]);
                }
            }
        }
        assert forall|t: Seq<char>| #[trigger] after.contains(t) <==> before.contains(t) || t == s@ by {
            if after.contains(t) {
                let k = choose|k: int| 0 <= k < after.len() && after[k] == t;
                if k < i {
                    assert(before[k] == t);
                } else if k > i {
                    assert(before[k - 1] == t);
                }
            }
            if before.contains(t) {
                let k = choose|k: int| 0 <= k < before.len() && before[k] == t;
                if k < i {
                    assert(after[k] == t);
                } else {
                    assert(after[k + 1] == t);
                }
            }
            if t == s@ {
                assert(after[i as int] == t);
            }
        }
    }
}

/// Two ordered lists of the same texts are the same list.
pub proof fn lemma_order_is_unique(a: Seq<Seq<char>>, b: Seq<Seq<char>>)
    requires
        in_order(a),
        in_order(b),
        forall|t: Seq<char>| #[trigger] a.contains(t) <==> b.contains(t),
    ensures
        a == b,
    decreases a.len(),
{
    if a.len() == 0 {
        if b.len() > 0 {
            assert(b.contains(b[0]));
            assert(a.contains(b[0]));
        }
        assert(a =~= b);
    } else {
        assert(a.contains(a[0]));
        assert(b.contains(a[0]));
        let k = choose|k: int| 0 <= k < b.len() && b[k] == a[0];
        assert(b.contains(b[0]));
        assert(a.contains(b[0]));
        let l = choose|l: int| 0 <= l < a.len() && a[l] == b[0];
        if k > 0 {
            assert(text_before(b[0], b[k]));
            if l > 0 {
                assert(text_before(a[0], a[l]));
                lemma_before_transitive(a[0], b[0], a[0]);
            }
            lemma_before_irreflexive(a[0]);
        }
        let a1 = a.skip(1);
        let b1 = b.skip(1);
        assert forall|t: Seq<char>| #[trigger] a1.contains(t) <==> b1.contains(t) by {
            if a1.contains(t) {
                let i = choose|i: int| 0 <= i < a1.len() && a1[i] == t;
                assert(a[i + 1] == t);
                assert(a.contains(t));
                assert(text_before(a[0], a[i + 1]));
                lemma_before_irreflexive(a[0]);
                let j = choose|j: int| 0 <= j < b.len() && b[j] == t;
                assert(b1[j - 1] == t);
            }
            if b1.contains(t) {
                let i = choose|i: int| 0 <= i < b1.len() && b1[i] == t;
                assert(b[i + 1] == t);
                assert(b.contains(t));
                assert(a.contains(t));
                assert(text_before(b[0], b[i + 1]));
                lemma_before_irreflexive(b[0]);
                let j = choose|j: int| 0 <= j < a.len() && a[j] == t;
                assert(a1[j - 1] == t);
            }
        }
        lemma_order_is_unique(a1, b1);
        assert(a =~= seq![a[0]] + a1);
        assert(b =~= seq![b[0]] + b1);
    }
}

/// Texts are ordered as in a dictionary: the one with the smaller character at the first
/// place where they differ comes first, and the beginning of a text comes before it.
pub proof fn lemma_order_is_that_of_a_dictionary(
    start: Seq<char>,
    a: char,
    rest_a: Seq<char>,
    b: char,
    rest_b: Seq<char>,
)
    ensures
        a < b ==> text_before(start + seq![a] + rest_a, start + seq![b] + rest_b),
        a < b ==> !text_before(start + seq![b] + rest_b, start + seq![a] + rest_a),
        text_before(start, start + seq![a] + rest_a),
        !text_before(start + seq![a] + rest_a, start),
    decreases start.len(),
{
    let x = start + seq![a] + rest_a;
    let y = start + seq![b] + rest_b;
    if start.len() > 0 {
        lemma_order_is_that_of_a_dictionary(start.skip(1), a, rest_a, b, rest_b);
        assert(x.skip(1) =~= start.skip(1) + seq![a] + rest_a);
        assert(y.skip(1) =~= start.skip(1) + seq![b] + rest_b);
    }
}

} // verus!
