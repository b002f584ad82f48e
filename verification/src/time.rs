//! Instants on the UTC time line and the window that events are filtered by.

use chrono::DateTime;
use chrono::TimeDelta;
use chrono::Utc;
use std::time::Duration;
use vstd::prelude::*;

verus! {

/// Whether `chrono::DateTime::<Utc>::from_timestamp` has a date and time for
/// this count of seconds since the Unix epoch and this nanosecond part.
pub uninterp spec fn utc_timestamp_exists(secs: i64, nanos: u32) -> bool;

/// The text that chrono prints for the naive local date and time of the UTC
/// instant with this timestamp.
pub uninterp spec fn naive_local_text(secs: i64, nanos: u32) -> Seq<char>;

/// Calls `chrono::DateTime::<Utc>::from_timestamp` and tells whether it
/// returned a date and time. Nothing is claimed of which timestamps chrono
/// accepts: the answer is only given its name.
#[verifier::external_body]
fn timestamp_exists(secs: i64, nanos: u32) -> (r: bool)
    ensures
        r == utc_timestamp_exists(secs, nanos),
{
    DateTime::<Utc>::from_timestamp(secs, nanos).is_some()
}

/// Calls `chrono::DateTime::<Utc>::naive_local` on the instant that
/// `from_timestamp` gives, and prints it with the `Display` of
/// `chrono::NaiveDateTime`. The text is only given its name. The timestamp
/// has to be one that chrono accepts; the offset of UTC is zero, so
/// `naive_local` cannot leave chrono's range.
#[verifier::external_body]
fn format_naive_local(secs: i64, nanos: u32) -> (r: String)
    requires
        utc_timestamp_exists(secs, nanos),
    ensures
        r@ == naive_local_text(secs, nanos),
{
    DateTime::<Utc>::from_timestamp(secs, nanos).unwrap().naive_local().to_string()
}

/// The timestamp that chrono gets when it takes a span of so many seconds
/// and nanoseconds away from the UTC instant with this timestamp; none
/// where chrono cannot hold the span or the result.
pub uninterp spec fn utc_minus(secs: i64, nanos: u32, span_secs: u64, span_nanos: u32) -> Option<
    (i64, u32),
>;

/// One timestamp is strictly earlier than the other: by the seconds, then
/// by the nanoseconds.
pub open spec fn timestamp_before(secs: i64, nanos: u32, other_secs: i64, other_nanos: u32) -> bool {
    secs < other_secs || (secs == other_secs && nanos < other_nanos)
}

/// Gives the timestamp of `chrono::DateTime::<Utc>::MIN_UTC`, which chrono
/// documents as the minimum possible UTC date and time: it is a timestamp
/// that chrono accepts, and none that chrono accepts is earlier.
#[verifier::external_body]
fn earliest_timestamp() -> (r: (i64, u32))
    ensures
        utc_timestamp_exists(r.0, r.1),
        forall|secs: i64, nanos: u32| #[trigger]
            utc_timestamp_exists(secs, nanos) ==> !timestamp_before(secs, nanos, r.0, r.1),
{
    (DateTime::<Utc>::MIN_UTC.timestamp(), DateTime::<Utc>::MIN_UTC.timestamp_subsec_nanos())
}

/// Calls `chrono::DateTime::checked_sub_signed` on the instant that
/// `from_timestamp` gives, with the span turned into chrono's own by
/// `chrono::TimeDelta::from_std`; there is no result where either of the
/// two has none. The result is only given its name. It is a timestamp that
/// chrono accepts, by the round trip that chrono documents for
/// `from_timestamp`, and it is not later than the instant that the span was
/// taken from, as the span is not negative. The nanoseconds of the span
/// stay under one second, as `std::time::Duration::new` would else carry
/// them over.
#[verifier::external_body]
fn timestamp_minus(secs: i64, nanos: u32, span_secs: u64, span_nanos: u32) -> (r: Option<
    (i64, u32),
>)
    requires
        utc_timestamp_exists(secs, nanos),
        span_nanos < 1_000_000_000,
    ensures
        r == utc_minus(secs, nanos, span_secs, span_nanos),
        r matches Some(t) ==> utc_timestamp_exists(t.0, t.1),
        r matches Some(t) ==> !timestamp_before(secs, nanos, t.0, t.1),
{
    let span = TimeDelta::from_std(Duration::new(span_secs, span_nanos)).ok()?;
    let then = DateTime::<Utc>::from_timestamp(secs, nanos).unwrap().checked_sub_signed(span)?;
    Some((then.timestamp(), then.timestamp_subsec_nanos()))
}

/// A length of time that is not negative: whole seconds, and nanoseconds
/// under one second.
#[derive(Clone, Copy, Debug, PartialEq, Eq, Structural)]
pub struct Span {
    secs: u64,
    nanos: u32,
}

impl Span {
    #[verifier::type_invariant]
    spec fn normal(self) -> bool {
        self.nanos < 1_000_000_000
    }

    /// The whole seconds.
    pub closed spec fn spec_secs(self) -> u64 {
        self.secs
    }

    /// The nanoseconds beyond the whole seconds.
    pub closed spec fn spec_subsec_nanos(self) -> u32 {
        self.nanos
    }

    /// The span of so many seconds and nanoseconds, where the nanoseconds
    /// stay under one second.
    pub fn new(secs: u64, nanos: u32) -> (r: Option<Span>)
        ensures
            r is Some <==> nanos < 1_000_000_000,
            r matches Some(span) ==> span.spec_secs() == secs && span.spec_subsec_nanos() == nanos,
    {
        if nanos < 1_000_000_000 {
            Some(Span { secs, nanos })
        } else {
            None
        }
    }

    /// The span of so many seconds and nanoseconds that are known to stay
    /// under one second.
    pub(crate) fn from_normal(secs: u64, nanos: u32) -> (r: Span)
        requires
            nanos < 1_000_000_000,
        ensures
            r.spec_secs() == secs,
            r.spec_subsec_nanos() == nanos,
    {
        Span { secs, nanos }
    }

    /// The whole seconds.
    pub fn secs(&self) -> (r: u64)
        ensures
            r == self.spec_secs(),
    {
        self.secs
    }

    /// The nanoseconds beyond the whole seconds.
    pub fn subsec_nanos(&self) -> (r: u32)
        ensures
            r == self.spec_subsec_nanos(),
            r < 1_000_000_000,
    {
        proof {
            use_type_invariant(self);
        }
        self.nanos
    }
}

/// A point on the UTC time line, held as the seconds since the Unix epoch
/// and the nanoseconds since the last whole second. Every value is one that
/// chrono can represent.
#[derive(Clone, Copy, Debug, PartialEq, Eq, Structural)]
pub struct Instant {
    secs: i64,
    nanos: u32,
}

impl Instant {
    /// Seconds since the Unix epoch.
    pub closed spec fn spec_timestamp(self) -> i64 {
        self.secs
    }

    /// Nanoseconds since the last whole second.
    pub closed spec fn spec_subsec_nanos(self) -> u32 {
        self.nanos
    }

    /// Strictly earlier: by the seconds, then by the nanoseconds.
    pub open spec fn is_before(self, other: Instant) -> bool {
        self.spec_timestamp() < other.spec_timestamp() || (self.spec_timestamp()
            == other.spec_timestamp() && self.spec_subsec_nanos() < other.spec_subsec_nanos())
    }

    /// Chrono has a date and time for the instant. This holds of every
    /// instant that a program holds.
    #[verifier::type_invariant]
    pub open spec fn is_representable(self) -> bool {
        utc_timestamp_exists(self.spec_timestamp(), self.spec_subsec_nanos())
    }

    /// No instant that chrono can represent is before this one.
    pub open spec fn is_earliest(self) -> bool {
        forall|secs: i64, nanos: u32| #[trigger]
            utc_timestamp_exists(secs, nanos) ==> !timestamp_before(
                secs,
                nanos,
                self.spec_timestamp(),
                self.spec_subsec_nanos(),
            )
    }

    /// What stands for a timestamp where every timestamp must have an
    /// instant: the instant of the timestamp itself, else the last instant
    /// of its second, else the earliest instant.
    pub open spec fn is_lossy_of(self, secs: i64, nanos: u32) -> bool {
        if utc_timestamp_exists(secs, nanos) {
            self.spec_timestamp() == secs && self.spec_subsec_nanos() == nanos
        } else if utc_timestamp_exists(secs, 999_999_999) {
            self.spec_timestamp() == secs && self.spec_subsec_nanos() == 999_999_999
        } else {
            self.is_earliest()
        }
    }

    /// The instant that lies a span before this one, where chrono has one.
    pub open spec fn spec_checked_sub(self, span: Span) -> Option<(i64, u32)> {
        utc_minus(
            self.spec_timestamp(),
            self.spec_subsec_nanos(),
            span.spec_secs(),
            span.spec_subsec_nanos(),
        )
    }

    /// The text of the instant in a report.
    pub open spec fn spec_local_text(self) -> Seq<char> {
        naive_local_text(self.spec_timestamp(), self.spec_subsec_nanos())
    }

    /// The instant with this timestamp, if chrono has one.
    pub fn from_timestamp(secs: i64, nanos: u32) -> (r: Option<Instant>)
        ensures
            r is Some <==> utc_timestamp_exists(secs, nanos),
            r matches Some(t) ==> t.spec_timestamp() == secs && t.spec_subsec_nanos() == nanos,
    {
        if timestamp_exists(secs, nanos) {
            Some(Instant { secs, nanos })
        } else {
            None
        }
    }

    /// The earliest instant that chrono can represent.
    pub fn earliest() -> (r: Instant)
        ensures
            r.is_representable(),
            r.is_earliest(),
    {
        let (secs, nanos) = earliest_timestamp();
        Instant { secs, nanos }
    }

    /// The instant with this timestamp. Where chrono has none, it is the
    /// last instant that chrono has in the same second; where chrono has none
    /// in that second either, it is the earliest instant.
    pub fn from_timestamp_lossy(secs: i64, nanos: u32) -> (r: Instant)
        ensures
            r.is_representable(),
            r.is_lossy_of(secs, nanos),
    {
        if timestamp_exists(secs, nanos) {
            Instant { secs, nanos }
        } else if timestamp_exists(secs, 999_999_999) {
            Instant { secs, nanos: 999_999_999 }
        } else {
            Instant::earliest()
        }
    }

    /// The instant that lies a span before this one, where chrono has one.
    /// It is never later than this one.
    pub fn checked_sub(&self, span: &Span) -> (r: Option<Instant>)
        ensures
            r is Some <==> self.spec_checked_sub(*span) is Some,
            r matches Some(then) ==> self.spec_checked_sub(*span) == Some(
                (then.spec_timestamp(), then.spec_subsec_nanos()),
            ),
            r matches Some(then) ==> !self.is_before(then),
    {
        proof {
            use_type_invariant(self);
            use_type_invariant(span);
        }
        match timestamp_minus(self.secs, self.nanos, span.secs, span.nanos) {
            Some((secs, nanos)) => Some(Instant { secs, nanos }),
            None => None,
        }
    }

    /// Seconds since the Unix epoch.
    pub fn timestamp(&self) -> (r: i64)
        ensures
            r == self.spec_timestamp(),
            utc_timestamp_exists(r, self.spec_subsec_nanos()),
    {
        proof {
            use_type_invariant(self);
        }
        self.secs
    }

    /// Nanoseconds since the last whole second.
    pub fn timestamp_subsec_nanos(&self) -> (r: u32)
        ensures
            r == self.spec_subsec_nanos(),
    {
        self.nanos
    }

    /// Whether this instant is strictly earlier than the other.
    pub fn before(&self, other: &Instant) -> (r: bool)
        ensures
            r == self.is_before(*other),
    {
        self.secs < other.secs || (self.secs == other.secs && self.nanos < other.nanos)
    }

    /// The naive local date and time of the instant, as text.
    pub fn local_text(&self) -> (r: String)
        ensures
            r@ == self.spec_local_text(),
    {
        proof {
            use_type_invariant(self);
        }
        format_naive_local(self.secs, self.nanos)
    }
}

/// Two instants with the same timestamp are the same instant.
pub proof fn lemma_instant_by_timestamp(a: Instant, b: Instant)
    requires
        a.spec_timestamp() == b.spec_timestamp(),
        a.spec_subsec_nanos() == b.spec_subsec_nanos(),
    ensures
        a == b,
{
}

/// There is one earliest instant only.
pub proof fn lemma_earliest_is_one(a: Instant, b: Instant)
    requires
        a.is_representable(),
        a.is_earliest(),
        b.is_representable(),
        b.is_earliest(),
    ensures
        a == b,
{
}

/// A window on the time line. A bound that is absent leaves that side open;
/// a bound that is present is itself outside the window.
#[derive(Clone, Copy, Debug)]
pub struct TimeRange {
    pub start: Option<Instant>,
    pub end: Option<Instant>,
}

impl TimeRange {
    /// Strictly after the start, where there is one, and strictly before the
    /// end, where there is one.
    pub open spec fn spec_contains(self, time: Instant) -> bool {
        &&& self.start matches Some(start) ==> start.is_before(time)
        &&& self.end matches Some(end) ==> time.is_before(end)
    }

    /// Whether the instant lies inside the window.
    pub fn contains(&self, time: &Instant) -> (r: bool)
        ensures
            r == self.spec_contains(*time),
            self.start is None && self.end is None ==> r,
            self.start is Some && self.end is None ==> (r <==> self.start->0.is_before(*time)),
            self.start is None && self.end is Some ==> (r <==> time.is_before(self.end->0)),
            self.start is Some && self.end is Some ==> (r <==> self.start->0.is_before(*time)
                && time.is_before(self.end->0)),
    {
        if let Some(start) = &self.start {
            if !start.before(time) {
                return false;
            }
        }
        if let Some(end) = &self.end {
            if !time.before(end) {
                return false;
            }
        }
        true
    }
}

} // verus!
