//! Instants on the UTC time line and the spans of time between them.
//!
//! A [`Timestamp`] is a count of seconds since 1970-01-01T00:00:00Z together
//! with a count of nanoseconds into that second. Every `Timestamp` lies in
//! the range of dates that `chrono::DateTime<Utc>` can hold, so it can always
//! be written out as an RFC 3339 date and time. A [`Duration`] is a signed
//! count of nanoseconds, kept to the range of `chrono::Duration`.

use vstd::prelude::*;

verus! {

/// Seconds since the epoch of the first instant a [`Timestamp`] can hold
/// (the start of 1 January of the year -262143).
pub const MIN_TIMESTAMP_SECS: i64 = -8_334_601_228_800;

/// Seconds since the epoch of the last second a [`Timestamp`] can hold
/// (the end of 31 December of the year 262142).
pub const MAX_TIMESTAMP_SECS: i64 = 8_210_266_876_799;

/// Nanoseconds in one second.
pub const NANOS_PER_SEC: u32 = 1_000_000_000;

/// The longest [`Duration`], in nanoseconds: `i64::MAX` milliseconds.
pub const MAX_DURATION_NANOS: i128 = 9_223_372_036_854_775_807_000_000;

/// Whether a span of `nanos` nanoseconds is one that a [`Duration`] can hold.
pub open spec fn duration_in_range(nanos: int) -> bool {
    -MAX_DURATION_NANOS <= nanos <= MAX_DURATION_NANOS
}

/// Whether `secs` seconds and `nanos` nanoseconds since the epoch name an
/// instant that a [`Timestamp`] can hold.
pub open spec fn timestamp_in_range(secs: int, nanos: int) -> bool {
    &&& MIN_TIMESTAMP_SECS <= secs <= MAX_TIMESTAMP_SECS
    &&& 0 <= nanos < NANOS_PER_SEC
}

/// The RFC 3339 text that `chrono` writes for the instant `secs` seconds and
/// `nanos` nanoseconds after the epoch, in UTC.
pub uninterp spec fn rfc3339_text(secs: int, nanos: int) -> Seq<char>;

/// An instant on the UTC time line, with nanosecond resolution.
#[derive(Clone, Copy, Debug, PartialEq, Eq, Structural)]
pub struct Timestamp {
    secs: i64,
    nanos: u32,
}

/// A span of time, forwards or backwards, with nanosecond resolution.
#[derive(Clone, Copy, Debug, PartialEq, Eq, Structural)]
pub struct Duration {
    nanos: i128,
}

impl Duration {
    #[verifier::type_invariant]
    spec fn in_range(self) -> bool {
        duration_in_range(self.nanos as int)
    }

    /// The span in nanoseconds; negative where it leads backwards.
    pub closed spec fn spec_nanos(self) -> int {
        self.nanos as int
    }

    /// Whether the span lies in the range that every executable `Duration`
    /// is kept to.
    pub open spec fn wf(self) -> bool {
        duration_in_range(self.spec_nanos())
    }

    /// No time at all.
    pub fn zero() -> (r: Duration)
        ensures
            r.spec_nanos() == 0,
            r.wf(),
    {
        Duration { nanos: 0 }
    }

    /// A span of `nanos` nanoseconds, or `None` where that is out of range.
    pub fn from_nanos(nanos: i128) -> (r: Option<Duration>)
        ensures
            r is Some <==> duration_in_range(nanos as int),
            r matches Some(d) ==> d.spec_nanos() == nanos && d.wf(),
    {
        if -MAX_DURATION_NANOS <= nanos && nanos <= MAX_DURATION_NANOS {
            Some(Duration { nanos })
        } else {
            None
        }
    }

    /// A span of `seconds` seconds, or `None` where that is out of range.
    pub fn try_seconds(seconds: i64) -> (r: Option<Duration>)
        ensures
            r is Some <==> duration_in_range(seconds * 1_000_000_000),
            r matches Some(d) ==> d.spec_nanos() == seconds * 1_000_000_000 && d.wf(),
    {
        Duration::from_nanos((seconds as i128) * 1_000_000_000)
    }

    /// A span of `minutes` minutes, or `None` where that is out of range.
    pub fn try_minutes(minutes: i64) -> (r: Option<Duration>)
        ensures
            r is Some <==> duration_in_range(minutes * 60_000_000_000),
            r matches Some(d) ==> d.spec_nanos() == minutes * 60_000_000_000 && d.wf(),
    {
        Duration::from_nanos((minutes as i128) * 60_000_000_000)
    }

    /// A span of `hours` hours, or `None` where that is out of range.
    pub fn try_hours(hours: i64) -> (r: Option<Duration>)
        ensures
            r is Some <==> duration_in_range(hours * 3_600_000_000_000),
            r matches Some(d) ==> d.spec_nanos() == hours * 3_600_000_000_000 && d.wf(),
    {
        Duration::from_nanos((hours as i128) * 3_600_000_000_000)
    }

    /// A span of `seconds` seconds.
    pub fn seconds(seconds: i64) -> (r: Duration)
        requires
            duration_in_range(seconds * 1_000_000_000),
        ensures
            r.spec_nanos() == seconds * 1_000_000_000,
            r.wf(),
    {
        Duration { nanos: (seconds as i128) * 1_000_000_000 }
    }

    /// A span of `minutes` minutes.
    pub fn minutes(minutes: i64) -> (r: Duration)
        requires
            duration_in_range(minutes * 60_000_000_000),
        ensures
            r.spec_nanos() == minutes * 60_000_000_000,
            r.wf(),
    {
        Duration { nanos: (minutes as i128) * 60_000_000_000 }
    }

    /// A span of `hours` hours.
    pub fn hours(hours: i64) -> (r: Duration)
        requires
            duration_in_range(hours * 3_600_000_000_000),
        ensures
            r.spec_nanos() == hours * 3_600_000_000_000,
            r.wf(),
    {
        Duration { nanos: (hours as i128) * 3_600_000_000_000 }
    }

    /// The span in nanoseconds; negative where it leads backwards.
    pub fn total_nanos(&self) -> (r: i128)
        ensures
            r == self.spec_nanos(),
            self.wf(),
    {
        proof {
            use_type_invariant(self);
        }
        self.nanos
    }

    /// The two spans one after the other, or `None` where that is out of
    /// range.
    pub fn checked_add(&self, other: &Duration) -> (r: Option<Duration>)
        ensures
            r is Some <==> duration_in_range(self.spec_nanos() + other.spec_nanos()),
            r matches Some(d) ==> d.spec_nanos() == self.spec_nanos() + other.spec_nanos()
                && d.wf(),
    {
        proof {
            use_type_invariant(self);
            use_type_invariant(other);
        }
        Duration::from_nanos(self.nanos + other.nanos)
    }
}

impl Timestamp {
    #[verifier::type_invariant]
    spec fn in_range(self) -> bool {
        timestamp_in_range(self.secs as int, self.nanos as int)
    }

    /// Whole seconds since the epoch; negative before it.
    pub closed spec fn spec_secs(self) -> int {
        self.secs as int
    }

    /// Nanoseconds since the last whole second.
    pub closed spec fn spec_nanos(self) -> int {
        self.nanos as int
    }

    /// Whether the instant lies in the range that every executable
    /// `Timestamp` is kept to.
    pub open spec fn wf(self) -> bool {
        timestamp_in_range(self.spec_secs(), self.spec_nanos())
    }

    /// Nanoseconds since the epoch.
    pub open spec fn total_nanos(self) -> int {
        self.spec_secs() * (NANOS_PER_SEC as int) + self.spec_nanos()
    }

    /// The instant `secs` seconds and `nanos` nanoseconds after the epoch,
    /// or `None` where that lies outside the supported range of dates or
    /// `nanos` is not below one billion.
    pub fn new(secs: i64, nanos: u32) -> (r: Option<Timestamp>)
        ensures
            r is Some <==> timestamp_in_range(secs as int, nanos as int),
            r matches Some(t) ==> t.spec_secs() == secs && t.spec_nanos() == nanos && t.wf(),
    {
        if MIN_TIMESTAMP_SECS <= secs && secs <= MAX_TIMESTAMP_SECS && nanos < NANOS_PER_SEC {
            Some(Timestamp { secs, nanos })
        } else {
            None
        }
    }

    /// The current instant, read from the system clock.
    pub fn now() -> (r: Timestamp)
        ensures
            r.wf(),
    {
        let (secs, nanos) = utc_now();
        Timestamp { secs, nanos }
    }

    /// Whole seconds since the epoch; negative before it.
    pub fn secs(&self) -> (r: i64)
        ensures
            r == self.spec_secs(),
            self.wf(),
    {
        proof {
            use_type_invariant(self);
        }
        self.secs
    }

    /// Nanoseconds since the last whole second.
    pub fn subsec_nanos(&self) -> (r: u32)
        ensures
            r == self.spec_nanos(),
            self.wf(),
    {
        proof {
            use_type_invariant(self);
        }
        self.nanos
    }

    /// Nanoseconds since the epoch.
    pub fn nanos_since_epoch(&self) -> (r: i128)
        ensures
            r == self.total_nanos(),
            self.wf(),
    {
        proof {
            use_type_invariant(self);
        }
        (self.secs as i128) * 1_000_000_000 + (self.nanos as i128)
    }

    /// The instant that lies `span` after `self`, or `None` where that is
    /// outside the supported range of dates.
    pub fn checked_add(&self, span: &Duration) -> (r: Option<Timestamp>)
        ensures
            r is Some <==> nanos_in_range(self.total_nanos() + span.spec_nanos()),
            r matches Some(t) ==> t.total_nanos() == self.total_nanos() + span.spec_nanos()
                && t.wf(),
    {
        let total: i128 = self.nanos_since_epoch() + span.total_nanos();
        let secs: i128 = match total.checked_div_euclid(1_000_000_000) {
            Some(q) => q,
            None => 0,
        };
        let nanos: i128 = total - secs * 1_000_000_000;
        if (MIN_TIMESTAMP_SECS as i128) <= secs && secs <= (MAX_TIMESTAMP_SECS as i128) {
            Some(Timestamp { secs: secs as i64, nanos: nanos as u32 })
        } else {
            None
        }
    }

    /// The span from `earlier` to `self`; negative where `earlier` is the
    /// later of the two.
    pub fn duration_since(&self, earlier: &Timestamp) -> (r: Duration)
        ensures
            r.spec_nanos() == self.total_nanos() - earlier.total_nanos(),
            r.wf(),
    {
        Duration { nanos: self.nanos_since_epoch() - earlier.nanos_since_epoch() }
    }

    /// Whether `self` is strictly later than `other`.
    pub fn is_after(&self, other: &Timestamp) -> (r: bool)
        ensures
            r == (self.total_nanos() > other.total_nanos()),
    {
        proof {
            use_type_invariant(self);
            use_type_invariant(other);
        }
        self.secs > other.secs || (self.secs == other.secs && self.nanos > other.nanos)
    }

    /// The instant as an RFC 3339 date and time with a `+00:00` offset.
    pub fn to_rfc3339(&self) -> (r: String)
        ensures
            r@ == rfc3339_text(self.spec_secs(), self.spec_nanos()),
    {
        proof {
            use_type_invariant(self);
        }
        format_rfc3339(self.secs, self.nanos)
    }
}

/// Whether `nanos` nanoseconds since the epoch name an instant that a
/// [`Timestamp`] can hold.
pub open spec fn nanos_in_range(nanos: int) -> bool {
    MIN_TIMESTAMP_SECS * 1_000_000_000 <= nanos < (MAX_TIMESTAMP_SECS + 1) * 1_000_000_000
}

/// Whole seconds from `start` to `now`; zero where `now` is not after `start`.
pub open spec fn elapsed_seconds_spec(start: Timestamp, now: Timestamp) -> int {
    let nanos = now.total_nanos() - start.total_nanos();
    if nanos <= 0 {
        0
    } else {
        nanos / (NANOS_PER_SEC as int)
    }
}

/// Whole minutes from `start` to `now`; zero where `now` is not after `start`.
pub open spec fn elapsed_minutes_spec(start: Timestamp, now: Timestamp) -> int {
    elapsed_seconds_spec(start, now) / 60
}

/// Whole seconds from `start` to `now`. A `now` before `start` counts as no
/// time elapsed.
pub fn elapsed_seconds(start: &Timestamp, now: &Timestamp) -> (r: u64)
    ensures
        r == elapsed_seconds_spec(*start, *now),
{
    proof {
        use_type_invariant(start);
        use_type_invariant(now);
    }
    let whole: i128 = now.secs as i128 - start.secs as i128;
    let nanos: i128 = whole * 1_000_000_000 + (now.nanos as i128 - start.nanos as i128);
    if nanos <= 0 {
        0
    } else {
        (nanos / 1_000_000_000) as u64
    }
}

/// Whole minutes from `start` to `now`. A `now` before `start` counts as no
/// time elapsed.
pub fn elapsed_minutes(start: &Timestamp, now: &Timestamp) -> (r: u64)
    ensures
        r == elapsed_minutes_spec(*start, *now),
{
    elapsed_seconds(start, now) / 60
}

/// Reads the system clock through `chrono::Utc::now` and takes the result
/// apart with `DateTime::timestamp` and `DateTime::timestamp_subsec_nanos`.
///
/// The contract claims only that the reading is a date `chrono` can hold
/// with a nanosecond part below one billion, which is how `Utc::now` builds
/// it. `Utc::now` panics where the system clock reads before the epoch.
#[verifier::external_body]
fn utc_now() -> (r: (i64, u32))
    ensures
        timestamp_in_range(r.0 as int, r.1 as int),
{
    let now = chrono::Utc::now();
    (now.timestamp(), now.timestamp_subsec_nanos())
}

/// Formats an instant with `chrono::DateTime::<Utc>::from_timestamp` and
/// `DateTime::to_rfc3339`.
///
/// `from_timestamp` yields a date for every input in range, and the text
/// written for it depends on the two numbers alone; the contract gives that
/// text the name [`rfc3339_text`].
#[verifier::external_body]
fn format_rfc3339(secs: i64, nanos: u32) -> (r: String)
    requires
        timestamp_in_range(secs as int, nanos as int),
    ensures
        r@ == rfc3339_text(secs as int, nanos as int),
{
    match chrono::DateTime::from_timestamp(secs, nanos) {
        Some(instant) => instant.to_rfc3339(),
        None => String::new(),
    }
}

} // verus!
