//! Text helpers: equality, prefixes, decimal numbers, joined lists and lines.
use vstd::prelude::*;

verus! {

/// Whether two texts hold the same characters.
pub fn text_eq(a: &str, b: &str) -> (r: bool)
    ensures
        r == (a@ == b@),
{
    a.to_owned() == b.to_owned()
}

/// `prefix` is the beginning of `s`.
pub open spec fn begins_with(s: Seq<char>, prefix: Seq<char>) -> bool {
    prefix.len() <= s.len() && s.subrange(0, prefix.len() as int) == prefix
}

/// `s` without `prefix`, where it begins with it; else `s` itself.
pub open spec fn without_prefix(s: Seq<char>, prefix: Seq<char>) -> Seq<char> {
    if begins_with(s, prefix) {
        s.subrange(prefix.len() as int, s.len() as int)
    } else {
        s
    }
}

/// Whether `s` begins with `prefix`.
pub fn has_prefix(s: &str, prefix: &str) -> (r: bool)
    ensures
        r == begins_with(s@, prefix@),
{
    let n: usize = prefix.unicode_len();
    if n <= s.unicode_len() {
        text_eq(s.substring_char(0, n), prefix)
    } else {
        false
    }
}

/// `s` with a leading `prefix` taken off, where there is one.
pub fn strip_prefix<'a>(s: &'a str, prefix: &str) -> (r: &'a str)
    ensures
        r@ == without_prefix(s@, prefix@),
{
    if has_prefix(s, prefix) {
        s.substring_char(prefix.unicode_len(), s.unicode_len())
    } else {
        s
    }
}

/// Taking a prefix off a text that was put together with it gives the rest back.
pub proof fn lemma_without_prefix_undoes(prefix: Seq<char>, rest: Seq<char>)
    ensures
        without_prefix(prefix + rest, prefix) == rest,
{
    assert((prefix + rest).subrange(0, prefix.len() as int) =~= prefix);
    assert((prefix + rest).subrange(prefix.len() as int, (prefix + rest).len() as int) =~= rest);
}

/// The first `n` characters of `s`, or all of them where there are fewer.
pub open spec fn first_chars(s: Seq<char>, n: nat) -> Seq<char> {
    if s.len() <= n {
        s
    } else {
        s.subrange(0, n as int)
    }
}

/// The first `n` characters of `s`.
pub fn take_chars(s: &str, n: usize) -> (r: String)
    ensures
        r@ == first_chars(s@, n as nat),
{
    if s.unicode_len() <= n {
        s.to_owned()
    } else {
        s.substring_char(0, n).to_owned()
    }
}

/// Two texts, one after the other.
pub fn concat2(a: &str, b: &str) -> (r: String)
    ensures
        r@ == a@ + b@,
{
    let mut out = a.to_owned();
    out.append(b);
    out
}

/// Three texts, one after the other.
pub fn concat3(a: &str, b: &str, c: &str) -> (r: String)
    ensures
        r@ == a@ + b@ + c@,
{
    let mut out = a.to_owned();
    out.append(b);
    out.append(c);
    out
}

/// The decimal digit `d`.
pub open spec fn digit_char(d: nat) -> char {
    (('0' as nat) + d) as char
}

/// The decimal notation of `n`, without leading zeros.
pub open spec fn decimal(n: nat) -> Seq<char>
    decreases n,
{
    if n < 10 {
        seq![digit_char(n)]
    } else {
        decimal(n / 10).push(digit_char(n % 10))
    }
}

fn digit_text(d: u64) -> (r: &'static str)
    requires
        d < 10,
    ensures
        r@ == seq![digit_char(d as nat)],
{
    proof {
        reveal_strlit("0");
        reveal_strlit("1");
        reveal_strlit("2");
        reveal_strlit("3");
        reveal_strlit("4");
        reveal_strlit("5");
        reveal_strlit("6");
        reveal_strlit("7");
        reveal_strlit("8");
        reveal_strlit("9");
    }
    let r = match d {
        0 => "0",
        1 => "1",
        2 => "2",
        3 => "3",
        4 => "4",
        5 => "5",
        6 => "6",
        7 => "7",
        8 => "8",
        _ => "9",
    };
    assert(r@ =~= seq![digit_char(d as nat)]);
    r
}

/// The decimal notation of an unsigned number.
pub fn decimal_text(n: u64) -> (r: String)
    ensures
        r@ == decimal(n as nat),
    decreases n,
{
    if n < 10 {
        digit_text(n).to_owned()
    } else {
        let mut out = decimal_text(n / 10);
        out.append(digit_text(n % 10));
        proof {
            assert(decimal(n as nat) =~= decimal((n / 10) as nat) + seq![digit_char((n % 10) as nat)]);
        }
        out
    }
}

/// Whether `c` is one of the ten decimal digits.
pub open spec fn is_digit(c: char) -> bool {
    '0' <= c <= '9'
}

/// The number that a run of decimal digits stands for.
pub open spec fn digits_value(s: Seq<char>) -> nat
    decreases s.len(),
{
    if s.len() == 0 {
        0
    } else {
        10 * digits_value(s.drop_last()) + (s.last() as nat - '0' as nat) as nat
    }
}

/// The number that an optional `+` and at least one decimal digit stand for,
/// where it fits in 64 bits; nothing for any other text.
pub open spec fn unsigned_value(s: Seq<char>) -> Option<u64> {
    let digits = without_prefix(s, seq!['+']);
    if digits.len() > 0 && (forall|i: int| 0 <= i < digits.len() ==> is_digit(#[trigger] digits[i]))
        && digits_value(digits) <= u64::MAX {
        Some(digits_value(digits) as u64)
    } else {
        None
    }
}

proof fn lemma_digits_value_grows(s: Seq<char>, k: int)
    requires
        0 <= k <= s.len(),
    ensures
        digits_value(s.subrange(0, k)) <= digits_value(s),
    decreases s.len() - k,
{
    if k == s.len() {
        assert(s.subrange(0, k) =~= s);
    } else {
        lemma_digits_value_grows(s, k + 1);
        assert(s.subrange(0, k + 1).drop_last() =~= s.subrange(0, k));
    }
}

/// Reads an unsigned decimal number: an optional `+`, then digits.
pub fn parse_unsigned(s: &str) -> (r: Option<u64>)
    ensures
        r == unsigned_value(s@),
{
    proof {
        reveal_strlit("+");
        assert("+"@ =~= seq!['+']);
    }
    let digits = strip_prefix(s, "+");
    let n: usize = digits.unicode_len();
    if n == 0 {
        return None;
    }
    let mut value: u64 = 0;
    let mut i: usize = 0;
    while i < n
        invariant
            i <= n,
            n == digits@.len(),
            digits@ == without_prefix(s@, seq!['+']),
            value == digits_value(digits@.subrange(0, i as int)),
            forall|j: int| 0 <= j < i ==> is_digit(#[trigger] digits@[j]),
        decreases n - i,
    {
        let c = digits.get_char(i);
        if c < '0' || c > '9' {
            return None;
        }
        let d: u64 = c as u64 - '0' as u64;
        proof {
            assert(digits@.subrange(0, i + 1).drop_last() =~= digits@.subrange(0, i as int));
            lemma_digits_value_grows(digits@, i + 1);
        }
        if value > (u64::MAX - d) / 10 {
            return None;
        }
        value = value * 10 + d;
        i = i + 1;
    }
    assert(digits@.subrange(0, n as int) =~= digits@);
    Some(value)
}

/// `n` question marks with `sep` between them: the placeholders of an SQL list.
pub open spec fn placeholder_list(n: nat, sep: Seq<char>) -> Seq<char>
    decreases n,
{
    if n == 0 {
        seq![]
    } else if n == 1 {
        "?"@
    } else {
        placeholder_list((n - 1) as nat, sep) + sep + "?"@
    }
}

/// The placeholders of an SQL list of `n` values.
pub fn placeholders(n: usize, sep: &str) -> (r: String)
    ensures
        r@ == placeholder_list(n as nat, sep@),
{
    let mut out = String::new();
    let mut i: usize = 0;
    while i < n
        invariant
            i <= n,
            out@ == placeholder_list(i as nat, sep@),
        decreases n - i,
    {
        if i > 0 {
            out.append(sep);
            out.append("?");
        } else {
            out.append("?");
            assert(out@ =~= "?"@);
        }
        i = i + 1;
    }
    out
}

/// The characters of each text of a list.
pub open spec fn texts(v: Seq<String>) -> Seq<Seq<char>> {
    v.map_values(|s: String| s@)
}

/// The texts of a list, one after the other, with `sep` between them.
pub open spec fn joined(parts: Seq<Seq<char>>, sep: Seq<char>) -> Seq<char>
    decreases parts.len(),
{
    if parts.len() == 0 {
        seq![]
    } else if parts.len() == 1 {
        parts[0]
    } else {
        joined(parts.drop_last(), sep) + sep + parts.last()
    }
}

/// Joins the texts of a list with `sep` between them.
pub fn join(parts: &Vec<String>, sep: &str) -> (r: String)
    ensures
        r@ == joined(texts(parts@), sep@),
{
    let mut out = String::new();
    let mut i: usize = 0;
    while i < parts.len()
        invariant
            i <= parts.len(),
            out@ == joined(texts(parts@).subrange(0, i as int), sep@),
        decreases parts.len() - i,
    {
        proof {
            let before = texts(parts@).subrange(0, i as int);
            let after = texts(parts@).subrange(0, i + 1);
            assert(after.drop_last() =~= before);
            assert(after.last() == parts@[i as int]@);
        }
        if i > 0 {
            out.append(sep);
            out.append(parts[i].as_str());
        } else {
            out.append(parts[i].as_str());
            assert(out@ =~= parts@[0]@);
        }
        i = i + 1;
    }
    assert(texts(parts@).subrange(0, parts.len() as int) =~= texts(parts@));
    out
}

/// Whether a list of texts holds `s`.
pub fn list_has(list: &Vec<String>, s: &str) -> (r: bool)
    ensures
        r == texts(list@).contains(s@),
{
    let mut i: usize = 0;
    while i < list.len()
        invariant
            i <= list.len(),
            forall|j: int| 0 <= j < i ==> (#[trigger] texts(list@)[j]) != s@,
        decreases list.len() - i,
    {
        if text_eq(list[i].as_str(), s) {
            assert(texts(list@)[i as int] == s@);
            return true;
        }
        i = i + 1;
    }
    false
}

/// A copy of an optional text.
pub fn copy_opt(s: &Option<String>) -> (r: Option<String>)
    ensures
        r == *s,
{
    match s {
        Some(s) => Some(s.clone()),
        None => None,
    }
}

/// The characters of an optional text.
pub open spec fn opt_text(s: Option<String>) -> Option<Seq<char>> {
    match s {
        Some(s) => Some(s@),
        None => None,
    }
}

/// The quoted and escaped form of a text: what `{:?}` prints of it.
pub uninterp spec fn quoted(s: Seq<char>) -> Seq<char>;

/// Prints `s` as `{:?}` does. That the result is `quoted(s)`, a function of the
/// characters alone, is taken from the standard library's `Debug` for `str`.
#[verifier::external_body]
pub(crate) fn quote(s: &str) -> (r: String)
    ensures
        r@ == quoted(s@),
{
    format!("{s:?}")
}

/// Splits `s` at its first line feed, as `str::split_once` does: the parts before
/// and after it, or nothing where there is none.
#[verifier::external_body]
pub(crate) fn split_at_line_feed(s: &str) -> (r: Option<(&str, &str)>)
    ensures
        r is None <==> !s@.contains('\n'),
        r matches Some(parts) ==> !parts.0@.contains('\n') && s@ == parts.0@.push('\n') + parts.1@,
{
    s.split_once('\n')
}

/// `line` without a carriage return at its end.
pub open spec fn without_return(line: Seq<char>) -> Seq<char> {
    if line.len() > 0 && line.last() == '\r' {
        line.drop_last()
    } else {
        line
    }
}

/// The lines of a text. A line ends with a line feed, or a carriage return and a
/// line feed, that is not part of it; the last one needs no line feed.
pub open spec fn lines_of(s: Seq<char>) -> Seq<Seq<char>>
    decreases s.len(),
{
    if s.len() == 0 {
        seq![]
    } else if s.contains('\n') {
        let k = s.index_of_first('\n')->Some_0;
        if 0 <= k < s.len() {
            seq![without_return(s.subrange(0, k))] + lines_of(s.subrange(k + 1, s.len() as int))
        } else {
            seq![]
        }
    } else {
        seq![s]
    }
}

fn drop_return(line: &str) -> (r: &str)
    ensures
        r@ == without_return(line@),
{
    let n: usize = line.unicode_len();
    if n > 0 && line.get_char(n - 1) == '\r' {
        line.substring_char(0, n - 1)
    } else {
        line
    }
}

/// The lines of a text, in order.
pub fn lines(s: &str) -> (r: Vec<String>)
    ensures
        texts(r@) == lines_of(s@),
{
    let mut out: Vec<String> = Vec::new();
    let mut rest: &str = s;
    while !rest.is_empty()
        invariant
            texts(out@) + lines_of(rest@) == lines_of(s@),
        decreases rest@.len(),
    {
        let ghost done = texts(out@);
        let ghost whole = rest@;
        match split_at_line_feed(rest) {
            Some((line, tail)) => {
                proof {
                    let k = line@.len() as int;
                    assert(whole[k] == '\n');
                    assert(forall|j: int| 0 <= j < k ==> whole[j] == line@[j]);
                    assert(forall|j: int| 0 <= j < k ==> whole[j] != '\n') by {
                        assert forall|j: int| 0 <= j < k implies whole[j] != '\n' by {
                            if line@[j] == '\n' {
                                assert(line@.contains('\n'));
                            }
                        }
                    }
                    whole.index_of_first_ensures('\n');
                    assert(whole.index_of_first('\n') == Some(k));
                    assert(whole.subrange(0, k) =~= line@);
                    assert(whole.subrange(k + 1, whole.len() as int) =~= tail@);
                }
                out.push(drop_return(line).to_owned());
                assert(texts(out@) =~= done.push(without_return(line@)));
                rest = tail;
                assert(texts(out@) + lines_of(rest@) =~= done + lines_of(whole));
            },
            None => {
                out.push(rest.to_owned());
                assert(texts(out@) =~= done.push(rest@));
                assert(lines_of(whole) == seq![whole]);
                assert(texts(out@) =~= lines_of(s@));
                return out;
            },
        }
    }
    assert(texts(out@) =~= lines_of(s@));
    out
}

/// `needle` stands somewhere in `s`.
pub open spec fn contains(s: Seq<char>, needle: Seq<char>) -> bool {
    exists|i: int|
        0 <= i && i + needle.len() <= s.len() && #[trigger] s.subrange(i, i + needle.len())
            == needle
}

/// Whether `needle` stands somewhere in `s`.
pub fn contains_text(s: &str, needle: &str) -> (r: bool)
    ensures
        r == contains(s@, needle@),
{
    let n: usize = s.unicode_len();
    let m: usize = needle.unicode_len();
    if m > n {
        return false;
    }
    let last: usize = n - m;
    let mut i: usize = 0;
    while !text_eq(s.substring_char(i, i + m), needle)
        invariant
            i <= last,
            last + m == n,
            n == s@.len(),
            m == needle@.len(),
            forall|j: int| 0 <= j < i ==> #[trigger] s@.subrange(j, j + m) != needle@,
        decreases last - i,
    {
        if i == last {
            return false;
        }
        i = i + 1;
    }
    assert(s@.subrange(i as int, i + m) == needle@);
    true
}

// ── laws ────────────────────────────────────────────────────────────────────

/// A number is found again from its decimal digits: with a plus sign before them or without
/// one. Every character of its notation is a digit, and there is at least one.
pub proof fn lemma_decimal_reads_back(n: nat)
    ensures
        decimal(n).len() > 0,
        forall|i: int| 0 <= i < decimal(n).len() ==> '0' <= #[trigger] decimal(n)[i] <= '9',
        digits_value(decimal(n)) == n,
        n <= u64::MAX ==> unsigned_value(decimal(n)) == Some(n as u64),
        n <= u64::MAX ==> unsigned_value(seq!['+'] + decimal(n)) == Some(n as u64),
        n > u64::MAX ==> unsigned_value(decimal(n)) is None,
    decreases n,
{
    let d = decimal(n);
    if n < 10 {
        assert(d.drop_last() =~= Seq::<char>::empty());
        assert(digits_value(d.drop_last()) == 0);
    } else {
        lemma_decimal_reads_back(n / 10);
        assert(d.drop_last() =~= decimal(n / 10));
        assert(digits_value(d.drop_last()) == n / 10);
    }
    assert(d[0] != '+');
    assert(!begins_with(d, seq!['+'])) by {
        if begins_with(d, seq!['+']) {
            assert(d.subrange(0, 1)[0] == seq!['+'][0]);
        }
    }
    lemma_without_prefix_undoes(seq!['+'], d);
}

/// A text with anything but digits in it, or without any, is no number.
pub proof fn lemma_only_digits_are_a_number(s: Seq<char>)
    ensures
        s.len() == 0 ==> unsigned_value(s) is None,
        s.len() > 0 && s[0] != '+' ==> (unsigned_value(s) is Some ==> forall|i: int|
            0 <= i < s.len() ==> '0' <= #[trigger] s[i] <= '9'),
        s.len() > 0 && s[0] != '+' && unsigned_value(s) is Some ==> unsigned_value(s)->Some_0
            == digits_value(s),
{
    if begins_with(s, seq!['+']) {
        assert(s.subrange(0, 1)[0] == seq!['+'][0]);
    }
}

/// Joined texts stand one after the other, with the separator between any two: so a list
/// that is cut in two is joined as its two parts are.
pub proof fn lemma_join_of_two_parts(
    first: Seq<Seq<char>>,
    rest: Seq<Seq<char>>,
    sep: Seq<char>,
    one: Seq<char>,
)
    ensures
        joined(Seq::<Seq<char>>::empty(), sep).len() == 0,
        joined(seq![one], sep) == one,
        first.len() > 0 && rest.len() > 0 ==> joined(first + rest, sep) == joined(first, sep) + sep
            + joined(rest, sep),
    decreases rest.len(),
{
    if first.len() > 0 && rest.len() > 0 {
        let all = first + rest;
        assert(all.drop_last() =~= first + rest.drop_last());
        assert(all.last() == rest.last());
        if rest.len() == 1 {
            assert(first + rest.drop_last() =~= first);
            assert(rest[0] == rest.last());
        } else {
            lemma_join_of_two_parts(first, rest.drop_last(), sep, one);
            assert(joined(all, sep) =~= joined(first, sep) + sep + joined(rest, sep));
        }
    }
}

/// A list of placeholders has one question mark for each value, with the separator between
/// any two: it is as many joined question marks.
pub proof fn lemma_placeholders_are_joined_question_marks(n: nat, sep: Seq<char>)
    ensures
        placeholder_list(n, sep) == joined(Seq::new(n, |i: int| seq!['?']), sep),
    decreases n,
{
    reveal_strlit("?");
    assert("?"@ =~= seq!['?']);
    let marks = Seq::new(n, |i: int| seq!['?']);
    if n > 1 {
        lemma_placeholders_are_joined_question_marks((n - 1) as nat, sep);
        assert(marks.drop_last() =~= Seq::new((n - 1) as nat, |i: int| seq!['?']));
    }
}

/// The first characters of a text are its beginning, as long as is asked for, or all of it.
pub proof fn lemma_first_characters_are_the_beginning(s: Seq<char>, n: nat)
    ensures
        first_chars(s, n).len() == if s.len() <= n {
            s.len()
        } else {
            n
        },
        forall|i: int| 0 <= i < first_chars(s, n).len() ==> #[trigger] first_chars(s, n)[i] == s[i],
{
}

/// A text begins with its prefix exactly if it is the prefix and something behind it, and
/// stripping it leaves that.
pub proof fn lemma_prefix_is_the_beginning(s: Seq<char>, prefix: Seq<char>, rest: Seq<char>)
    ensures
        begins_with(prefix + rest, prefix),
        without_prefix(prefix + rest, prefix) == rest,
        begins_with(s, prefix) ==> prefix + without_prefix(s, prefix) == s,
        !begins_with(s, prefix) ==> without_prefix(s, prefix) == s,
{
    lemma_without_prefix_undoes(prefix, rest);
    assert((prefix + rest).subrange(0, prefix.len() as int) =~= prefix);
    if begins_with(s, prefix) {
        assert(prefix + without_prefix(s, prefix) =~= s);
    }
}

/// The lines of a text are those that line feeds end: a line, a line feed and more are that
/// line, without a carriage return at its end, and the lines of the rest. A text without a
/// line feed is one line, and no text is none.
pub proof fn lemma_line_feeds_end_lines(line: Seq<char>, rest: Seq<char>)
    requires
        !line.contains('\n'),
    ensures
        lines_of(Seq::<char>::empty()).len() == 0,
        line.len() > 0 ==> lines_of(line) == seq![line],
        lines_of(line + seq!['\n'] + rest) == (if line.len() > 0 && line.last() == '\r' {
            seq![line.drop_last()]
        } else {
            seq![line]
        }) + lines_of(rest),
{
    let s = line + seq!['\n'] + rest;
    let k = line.len() as int;
    assert(s[k] == '\n');
    assert(s.contains('\n'));
    assert forall|j: int| 0 <= j < k implies s[j] != '\n' by {
        assert(s[j] == line[j]);
        if line[j] == '\n' {
            assert(line.contains('\n'));
        }
    }
    s.index_of_first_ensures('\n');
    assert(s.index_of_first('\n') == Some(k));
    assert(s.subrange(0, k) =~= line);
    assert(s.subrange(k + 1, s.len() as int) =~= rest);
}

/// A text stands in another one exactly if that is something, the text, and something more.
pub proof fn lemma_needle_is_found_between(before: Seq<char>, needle: Seq<char>, after: Seq<char>)
    ensures
        contains(before + needle + after, needle),
        needle.len() > 0 ==> !contains(Seq::<char>::empty(), needle),
{
    let s = before + needle + after;
    let i = before.len() as int;
    assert(s.subrange(i, i + needle.len()) =~= needle);
}

} // verus!
