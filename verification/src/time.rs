//! Points in time, to the nanosecond, and their RFC 3339 form.
use vstd::prelude::*;

use crate::error::{CoreError, ErrorView};
use crate::order::text_before;

verus! {

/// The seconds since 1970 that a calendar date can be found for, with a number of
/// nanoseconds. Only in the last second of a minute may these exceed a second: that
/// is how a leap second is written.
pub open spec fn on_calendar(secs: int, nanos: int) -> bool {
    &&& -8_334_601_228_800 <= secs <= 8_210_266_876_799
    &&& 0 <= nanos < 2_000_000_000
    &&& nanos < 1_000_000_000 || secs % 60 == 59
}

/// A point in time (UTC).
#[derive(Clone, Copy, Debug, PartialEq, Eq, Structural)]
pub struct Timestamp {
    secs: i64,
    nanos: u32,
}

/// What reading an RFC 3339 text gives: seconds and nanoseconds since 1970 (UTC),
/// or the reason for refusing it.
pub uninterp spec fn rfc3339_parsed(s: Seq<char>) -> Result<(i64, u32), Seq<char>>;

/// The RFC 3339 text of a point in time.
pub uninterp spec fn rfc3339_text(secs: i64, nanos: u32) -> Seq<char>;

/// The point in time a span before another one.
pub uninterp spec fn time_before(secs: i64, nanos: u32, span_secs: i64, span_nanos: u32) -> Option<
    (i64, u32),
>;

/// A non-negative span that can be counted in milliseconds with 63 bits.
pub open spec fn is_span(secs: int, nanos: int) -> bool {
    &&& 0 <= nanos < 1_000_000_000
    &&& 0 <= secs < 9_223_372_036_854_775 || (secs == 9_223_372_036_854_775 && nanos <= 807_000_000)
}

/// A point in time less a span, outside leap seconds, where that is on the calendar.
pub open spec fn difference(secs: i64, nanos: u32, span_secs: i64, span_nanos: u32) -> Option<
    (i64, u32),
> {
    let total = (secs - span_secs) * 1_000_000_000 + nanos - span_nanos;
    let result_secs = total / 1_000_000_000;
    let result_nanos = total % 1_000_000_000;
    if on_calendar(result_secs, result_nanos) {
        Some((result_secs as i64, result_nanos as u32))
    } else {
        None
    }
}

/// The point in time a span after another one.
pub uninterp spec fn time_after(secs: i64, nanos: u32, span_secs: i64, span_nanos: u32) -> Option<
    (i64, u32),
>;

/// A span, forward or backward, that can be counted in milliseconds with 63 bits. The
/// nanoseconds count forward.
pub open spec fn is_delta(secs: int, nanos: int) -> bool {
    &&& is_span(if secs < 0 { 0 } else { secs }, nanos)
    &&& -9_223_372_036_854_776 < secs || (secs == -9_223_372_036_854_776 && nanos >= 193_000_000)
}

/// A point in time and a span, outside leap seconds, where their sum is on the calendar.
pub open spec fn sum(secs: i64, nanos: u32, span_secs: i64, span_nanos: u32) -> Option<(i64, u32)> {
    let total = (secs + span_secs) * 1_000_000_000 + nanos + span_nanos;
    let result_secs = total / 1_000_000_000;
    let result_nanos = total % 1_000_000_000;
    if on_calendar(result_secs, result_nanos) {
        Some((result_secs as i64, result_nanos as u32))
    } else {
        None
    }
}

/// The second lies in the years 0 to 9999, which have four digits.
pub open spec fn has_four_digits(secs: int) -> bool {
    -62_167_219_200 <= secs <= 253_402_300_799
}

/// The first point in time comes before the second one.
pub open spec fn is_earlier(secs: i64, nanos: u32, other_secs: i64, other_nanos: u32) -> bool {
    secs < other_secs || (secs == other_secs && nanos < other_nanos)
}

/// Among the texts of the years 0 to 9999 the text has the place that the point in time
/// has among the times: those of earlier times come before it, those of later ones after
/// it.
pub open spec fn sorts_at(text: Seq<char>, secs: i64, nanos: u32) -> bool {
    forall|s: i64, n: u32|
        #![trigger rfc3339_text(s, n)]
        on_calendar(s as int, n as int) && has_four_digits(s as int) ==> {
            &&& text_before(rfc3339_text(s, n), text) <==> is_earlier(s, n, secs, nanos)
            &&& text_before(text, rfc3339_text(s, n)) <==> is_earlier(secs, nanos, s, n)
        }
}

/// Prints a point in time with `chrono::DateTime::to_rfc3339`; the text depends on
/// the point in time alone. Claimed besides, in the years 0 to 9999:
/// `chrono::DateTime::parse_from_rfc3339` reads the text back as the same point in time; and
/// the texts are ordered as the times are, for every part down to the seconds is printed with
/// a fixed number of digits, and `+`, which follows the last digit of a fraction or the
/// seconds, comes before `.` and the digits. A leap second is printed, and read, as second 60.
#[verifier::external_body]
pub(crate) fn print_rfc3339(secs: i64, nanos: u32) -> (r: String)
    requires
        on_calendar(secs as int, nanos as int),
    ensures
        r@ == rfc3339_text(secs, nanos),
        has_four_digits(secs as int) ==> rfc3339_parsed(r@) is Ok && rfc3339_parsed(r@)->Ok_0 == (
            secs,
            nanos,
        ),
        has_four_digits(secs as int) ==> sorts_at(r@, secs, nanos),
{
    chrono::DateTime::from_timestamp(secs, nanos).unwrap().to_rfc3339()
}

/// Reads a point in time with `chrono::DateTime::parse_from_rfc3339`, turned to UTC.
/// The result, and the message of the error, depend on the text alone.
#[verifier::external_body]
pub(crate) fn parse_rfc3339(s: &str) -> (r: Result<(i64, u32), String>)
    ensures
        match rfc3339_parsed(s@) {
            Ok(t) => r is Ok && r->Ok_0 == t,
            Err(message) => r is Err && r->Err_0@ == message,
        },
        r matches Ok(t) ==> on_calendar(t.0 as int, t.1 as int),
{
    chrono::DateTime::parse_from_rfc3339(s)
        .map(|t| (t.timestamp(), t.timestamp_subsec_nanos()))
        .map_err(|e| e.to_string())
}

/// Goes back in time with `chrono::DateTime::checked_sub_signed`; the result depends
/// on the arguments alone. Claimed besides: where the start is no leap second, it is
/// the difference, and there is none exactly where that is off the calendar.
#[verifier::external_body]
pub(crate) fn subtract_span(secs: i64, nanos: u32, span_secs: i64, span_nanos: u32) -> (r: Option<
    (i64, u32),
>)
    requires
        on_calendar(secs as int, nanos as int),
        is_delta(span_secs as int, span_nanos as int),
    ensures
        r == time_before(secs, nanos, span_secs, span_nanos),
        r matches Some(t) ==> on_calendar(t.0 as int, t.1 as int),
        nanos < 1_000_000_000 ==> r == difference(secs, nanos, span_secs, span_nanos),
{
    let span = chrono::TimeDelta::new(span_secs, span_nanos).unwrap();
    chrono::DateTime::from_timestamp(secs, nanos)
        .unwrap()
        .checked_sub_signed(span)
        .map(|t| (t.timestamp(), t.timestamp_subsec_nanos()))
}

/// Goes forward in time with `chrono::DateTime::checked_add_signed`; the result depends
/// on the arguments alone. Claimed besides: where the start is no leap second, it is
/// the sum, and there is none exactly where that is off the calendar.
#[verifier::external_body]
pub(crate) fn add_span(secs: i64, nanos: u32, span_secs: i64, span_nanos: u32) -> (r: Option<
    (i64, u32),
>)
    requires
        on_calendar(secs as int, nanos as int),
        is_delta(span_secs as int, span_nanos as int),
    ensures
        r == time_after(secs, nanos, span_secs, span_nanos),
        r matches Some(t) ==> on_calendar(t.0 as int, t.1 as int),
        nanos < 1_000_000_000 ==> r == sum(secs, nanos, span_secs, span_nanos),
{
    let span = chrono::TimeDelta::new(span_secs, span_nanos).unwrap();
    chrono::DateTime::from_timestamp(secs, nanos)
        .unwrap()
        .checked_add_signed(span)
        .map(|t| (t.timestamp(), t.timestamp_subsec_nanos()))
}

impl Timestamp {
    #[verifier::type_invariant]
    spec fn wf(self) -> bool {
        on_calendar(self.secs as int, self.nanos as int)
    }

    /// Whole seconds since 1970.
    pub closed spec fn seconds(self) -> i64 {
        self.secs
    }

    /// Nanoseconds within the second.
    pub closed spec fn subsec(self) -> u32 {
        self.nanos
    }

    /// The RFC 3339 text.
    pub open spec fn text(self) -> Seq<char> {
        rfc3339_text(self.seconds(), self.subsec())
    }

    /// The point in time lies where RFC 3339 has a text for it that reads back: in
    /// the years 0 to 9999.
    pub open spec fn is_plain(self) -> bool {
        has_four_digits(self.seconds() as int)
    }

    /// The point in time comes before the other one.
    pub open spec fn is_before(self, other: Timestamp) -> bool {
        is_earlier(self.seconds(), self.subsec(), other.seconds(), other.subsec())
    }

    /// To compare the texts of this and another point in time of the years 0 to 9999 is to
    /// compare the times.
    pub open spec fn sorts_as_text(self) -> bool {
        sorts_at(self.text(), self.seconds(), self.subsec())
    }

    /// The point in time so many seconds and nanoseconds after 1970, where there is one.
    pub fn new(secs: i64, nanos: u32) -> (r: Option<Timestamp>)
        ensures
            r is Some <==> on_calendar(secs as int, nanos as int),
            r matches Some(t) ==> t.seconds() == secs && t.subsec() == nanos,
    {
        if -8_334_601_228_800 <= secs && secs <= 8_210_266_876_799 && nanos < 2_000_000_000 {
            if nanos < 1_000_000_000 {
                return Some(Timestamp { secs, nanos });
            }
            // Shifted by whole minutes so that the remainder is taken of a positive number.
            let shifted: u64 = (secs + 8_334_601_228_800) as u64;
            if shifted % 60 == 59 {
                return Some(Timestamp { secs, nanos });
            }
        }
        None
    }

    /// Whole seconds since 1970.
    pub fn unix_seconds(&self) -> (r: i64)
        ensures
            r == self.seconds(),
    {
        self.secs
    }

    /// Nanoseconds within the second.
    pub fn subsec_nanos(&self) -> (r: u32)
        ensures
            r == self.subsec(),
    {
        self.nanos
    }

    /// The RFC 3339 text.
    pub fn to_rfc3339(&self) -> (r: String)
        ensures
            r@ == self.text(),
            self.is_plain() ==> ts_fault(r@) is None && ts_value(r@) == *self,
            self.is_plain() ==> self.sorts_as_text(),
    {
        proof {
            use_type_invariant(self);
            lemma_ts_value_is(*self);
        }
        print_rfc3339(self.secs, self.nanos)
    }

    /// The point in time `span_secs` seconds and `span_nanos` nanoseconds earlier,
    /// where there is one.
    pub fn earlier(&self, span_secs: i64, span_nanos: u32) -> (r: Option<Timestamp>)
        requires
            is_delta(span_secs as int, span_nanos as int),
        ensures
            match time_before(self.seconds(), self.subsec(), span_secs, span_nanos) {
                Some(t) => r matches Some(p) && p.seconds() == t.0 && p.subsec() == t.1,
                None => r is None,
            },
            self.subsec() < 1_000_000_000 ==> time_before(
                self.seconds(),
                self.subsec(),
                span_secs,
                span_nanos,
            ) == difference(self.seconds(), self.subsec(), span_secs, span_nanos),
    {
        proof {
            use_type_invariant(self);
        }
        match subtract_span(self.secs, self.nanos, span_secs, span_nanos) {
            Some((secs, nanos)) => Some(Timestamp { secs, nanos }),
            None => None,
        }
    }

    /// The point in time `span_secs` seconds and `span_nanos` nanoseconds later, where
    /// there is one.
    pub fn later(&self, span_secs: i64, span_nanos: u32) -> (r: Option<Timestamp>)
        requires
            is_delta(span_secs as int, span_nanos as int),
        ensures
            match time_after(self.seconds(), self.subsec(), span_secs, span_nanos) {
                Some(t) => r matches Some(p) && p.seconds() == t.0 && p.subsec() == t.1,
                None => r is None,
            },
            self.subsec() < 1_000_000_000 ==> time_after(
                self.seconds(),
                self.subsec(),
                span_secs,
                span_nanos,
            ) == sum(self.seconds(), self.subsec(), span_secs, span_nanos),
    {
        proof {
            use_type_invariant(self);
        }
        match add_span(self.secs, self.nanos, span_secs, span_nanos) {
            Some((secs, nanos)) => Some(Timestamp { secs, nanos }),
            None => None,
        }
    }
}

/// The point in time with the given seconds and nanoseconds.
pub closed spec fn timestamp_at(secs: i64, nanos: u32) -> Timestamp {
    Timestamp { secs, nanos }
}

/// Why a text is no RFC 3339 point in time.
pub open spec fn ts_fault(s: Seq<char>) -> Option<ErrorView> {
    match rfc3339_parsed(s) {
        Ok(_) => None,
        Err(message) => Some(ErrorView::Serde(message)),
    }
}

/// The point in time that an RFC 3339 text stands for.
pub open spec fn ts_value(s: Seq<char>) -> Timestamp {
    timestamp_at(rfc3339_parsed(s)->Ok_0.0, rfc3339_parsed(s)->Ok_0.1)
}

proof fn lemma_ts_value_is(t: Timestamp)
    ensures
        rfc3339_parsed(t.text()) == Ok::<(i64, u32), Seq<char>>((t.seconds(), t.subsec()))
            ==> ts_value(t.text()) == t,
{
}

/// Points in time of the years 0 to 9999 that are compared as texts are compared as times.
pub proof fn lemma_texts_sort_as_times(a: Timestamp, b: Timestamp)
    requires
        a.is_plain(),
        on_calendar(a.seconds() as int, a.subsec() as int),
        b.sorts_as_text(),
    ensures
        text_before(a.text(), b.text()) <==> a.is_before(b),
        text_before(b.text(), a.text()) <==> b.is_before(a),
{
}

/// Reads an RFC 3339 text into a UTC point in time.
pub fn parse_ts(s: &str) -> (r: Result<Timestamp, CoreError>)
    ensures
        match ts_fault(s@) {
            Some(e) => r is Err && r->Err_0@ == e,
            None => r == Ok::<Timestamp, CoreError>(ts_value(s@)),
        },
{
    match parse_rfc3339(s) {
        Ok((secs, nanos)) => Ok(Timestamp { secs, nanos }),
        Err(message) => Err(CoreError::Serde(message)),
    }
}

/// Why an optional text is no optional point in time.
pub open spec fn opt_ts_fault(s: Option<String>) -> Option<ErrorView> {
    match s {
        Some(s) => ts_fault(s@),
        None => None,
    }
}

/// The point in time that an optional text stands for.
pub open spec fn opt_ts_value(s: Option<String>) -> Option<Timestamp> {
    match s {
        Some(s) => Some(ts_value(s@)),
        None => None,
    }
}

/// Reads a point in time out of a column that may be null.
pub fn parse_opt_ts(s: &Option<String>) -> (r: Result<Option<Timestamp>, CoreError>)
    ensures
        match opt_ts_fault(*s) {
            Some(e) => r is Err && r->Err_0@ == e,
            None => r == Ok::<Option<Timestamp>, CoreError>(opt_ts_value(*s)),
        },
{
    match s {
        Some(s) => match parse_ts(s.as_str()) {
            Ok(t) => Ok(Some(t)),
            Err(e) => Err(e),
        },
        None => Ok(None),
    }
}

/// An optional point in time that reads back.
pub open spec fn opt_is_plain(t: Option<Timestamp>) -> bool {
    match t {
        Some(t) => t.is_plain(),
        None => true,
    }
}

// ── laws ────────────────────────────────────────────────────────────────────

/// A point in time that is read from a text is the one that the text stands for.
pub proof fn lemma_time_is_read_from_its_text(s: Seq<char>)
    ensures
        rfc3339_parsed(s) is Ok ==> rfc3339_parsed(s) == Ok::<(i64, u32), Seq<char>>(
            (ts_value(s).seconds(), ts_value(s).subsec()),
        ),
        ts_fault(s) is None <==> rfc3339_parsed(s) is Ok,
{
}

/// What lies a span before a point in time has that point in time the span after it, and the
/// other way round.
pub proof fn lemma_spans_are_undone(secs: i64, nanos: u32, span_secs: i64, span_nanos: u32)
    requires
        on_calendar(secs as int, nanos as int),
        nanos < 1_000_000_000,
        span_nanos < 1_000_000_000,
    ensures
        difference(secs, nanos, span_secs, span_nanos) matches Some(t) ==> sum(
            t.0,
            t.1,
            span_secs,
            span_nanos,
        ) == Some((secs, nanos)),
        sum(secs, nanos, span_secs, span_nanos) matches Some(t) ==> difference(
            t.0,
            t.1,
            span_secs,
            span_nanos,
        ) == Some((secs, nanos)),
        difference(secs, nanos, 0, 0) == Some((secs, nanos)),
        sum(secs, nanos, 0, 0) == Some((secs, nanos)),
{
}

/// Of two points in time that differ exactly one comes before the other; seconds decide, and
/// nanoseconds where the seconds are the same.
pub proof fn lemma_one_time_is_earlier(secs: i64, nanos: u32, other_secs: i64, other_nanos: u32)
    ensures
        is_earlier(secs, nanos, other_secs, other_nanos) ==> !is_earlier(
            other_secs,
            other_nanos,
            secs,
            nanos,
        ),
        secs < other_secs ==> is_earlier(secs, nanos, other_secs, other_nanos),
        secs == other_secs && nanos < other_nanos ==> is_earlier(
            secs,
            nanos,
            other_secs,
            other_nanos,
        ),
        is_earlier(secs, nanos, other_secs, other_nanos) || is_earlier(
            other_secs,
            other_nanos,
            secs,
            nanos,
        ) || (secs == other_secs && nanos == other_nanos),
{
}

} // verus!
