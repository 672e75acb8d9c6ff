//! Points in time, as whole seconds and nanoseconds since the Unix epoch, and
//! the whole seconds that lie between two of them.

use vstd::prelude::*;

verus! {

/// Seconds since the epoch of the earliest point in time that can be held.
pub const MIN_SECS: i64 = -8_334_601_228_800;

/// Seconds since the epoch of the last second that can be held.
pub const MAX_SECS: i64 = 8_210_266_876_799;

/// Nanoseconds in one second.
pub const NANOS_PER_SEC: u32 = 1_000_000_000;

/// A point in time on the UTC time line.
///
/// `nanos` may reach into a second billion during a leap second, which is
/// always the sixtieth second of its minute.
#[derive(Clone, Copy, Debug, PartialEq, Eq, Structural)]
pub struct Timestamp {
    /// Whole seconds since 1970-01-01T00:00:00Z.
    pub secs: i64,
    /// Nanoseconds past `secs`.
    pub nanos: u32,
}

/// The whole seconds from `earlier` to `later`, rounded towards zero and
/// negative where `later` comes first.
///
/// A leap second that one of the two is in counts when the other lies in
/// another second of the day, as if no other leap second lay between them.
pub open spec fn seconds_between(later: Timestamp, earlier: Timestamp) -> int {
    let later_in_day = later.secs as int % 86_400;
    let earlier_in_day = earlier.secs as int % 86_400;
    let leap: int = if later_in_day > earlier_in_day && earlier.nanos >= 1_000_000_000 {
        1
    } else if later_in_day < earlier_in_day && later.nanos >= 1_000_000_000 {
        -1
    } else {
        0
    };
    let frac = later.nanos as int - earlier.nanos as int;
    let whole = later.secs as int - earlier.secs as int + leap + frac / 1_000_000_000;
    if whole < 0 && frac % 1_000_000_000 > 0 {
        whole + 1
    } else {
        whole
    }
}

/// What the text reads as when taken as an RFC 3339 date and time, if it is one.
pub uninterp spec fn rfc3339_instant(text: Seq<char>) -> Option<Timestamp>;

/// The point in time written as an RFC 3339 date and time in UTC.
pub uninterp spec fn rfc3339_of(t: Timestamp) -> Seq<char>;

impl Timestamp {
    /// The point in time lies in the range of dates that the calendar covers,
    /// and its nanoseconds are those of an ordinary or of a leap second.
    pub open spec fn representable(self) -> bool {
        &&& MIN_SECS <= self.secs <= MAX_SECS
        &&& self.nanos < 2_000_000_000
        &&& (self.nanos >= 1_000_000_000 ==> self.secs as int % 60 == 59)
    }

    /// `self` lies strictly before `other`: seconds decide, nanoseconds break ties.
    pub open spec fn before(self, other: Timestamp) -> bool {
        self.secs < other.secs || (self.secs == other.secs && self.nanos < other.nanos)
    }

    /// Whether the point in time is one that the calendar covers.
    pub fn is_representable(&self) -> (r: bool)
        ensures
            r == self.representable(),
    {
        if self.secs < MIN_SECS || self.secs > MAX_SECS || self.nanos >= 2_000_000_000 {
            return false;
        }
        if self.nanos < NANOS_PER_SEC {
            return true;
        }
        let shifted: i64 = self.secs - MIN_SECS;
        shifted % 60 == 59
    }

    /// The time on the clock of the machine.
    pub fn now() -> (r: Timestamp)
        ensures
            r.representable(),
            r.nanos < NANOS_PER_SEC,
    {
        read_clock()
    }

    /// Whether `self` lies strictly before `other`.
    pub fn is_before(&self, other: &Timestamp) -> (r: bool)
        ensures
            r == self.before(*other),
    {
        self.secs < other.secs || (self.secs == other.secs && self.nanos < other.nanos)
    }

    /// The point in time lies in a year that is written with four digits:
    /// one from 0 to 9999.
    pub open spec fn four_digit_year(self) -> bool {
        self.representable() && FIRST_WRITTEN_SECS <= self.secs <= LAST_WRITTEN_SECS
    }
}

/// Seconds since the epoch of the first second of the year 0.
pub const FIRST_WRITTEN_SECS: i64 = -62_167_219_200;

/// Seconds since the epoch of the last second of the year 9999.
pub const LAST_WRITTEN_SECS: i64 = 253_402_300_799;

/// The later of two optional points in time; an absent one never wins.
pub open spec fn latest(a: Option<Timestamp>, b: Timestamp) -> Timestamp {
    match a {
        Some(t) => if t.before(b) { b } else { t },
        None => b,
    }
}

/// `chrono::DateTime::signed_duration_since` followed by
/// `chrono::TimeDelta::num_seconds`, on the two points in time rebuilt with
/// `chrono::DateTime::from_timestamp`.
///
/// Trusted: the result is the difference that `seconds_between` writes out,
/// which follows the subtraction of dates and of times of day in chrono,
/// leap second rule included. Both arguments must be representable, or the
/// rebuilding fails.
#[verifier::external_body]
pub(crate) fn whole_seconds_between(later: Timestamp, earlier: Timestamp) -> (r: i64)
    requires
        later.representable(),
        earlier.representable(),
    ensures
        r == seconds_between(later, earlier),
{
    let a = chrono::DateTime::from_timestamp(later.secs, later.nanos).unwrap();
    let b = chrono::DateTime::from_timestamp(earlier.secs, earlier.nanos).unwrap();
    a.signed_duration_since(b).num_seconds()
}

/// `chrono::DateTime::parse_from_rfc3339`, with the result taken apart by
/// `timestamp` and `timestamp_subsec_nanos`.
///
/// Trusted: the outcome depends on the text alone and is absent exactly when
/// chrono rejects the text; what chrono accepts is a date and time of its own
/// calendar, so it is representable.
#[verifier::external_body]
pub(crate) fn read_rfc3339(text: &str) -> (r: Option<Timestamp>)
    ensures
        r == rfc3339_instant(text@),
        r matches Some(t) ==> t.representable(),
{
    match chrono::DateTime::parse_from_rfc3339(text) {
        Ok(parsed) => Some(
            Timestamp { secs: parsed.timestamp(), nanos: parsed.timestamp_subsec_nanos() },
        ),
        Err(_) => None,
    }
}

/// `chrono::Utc::now`, with the result taken apart by `timestamp` and
/// `timestamp_subsec_nanos`.
///
/// Trusted: the clock of the machine shows a point in time of the
/// calendar, and never one within a leap second: what it shows is a count
/// of seconds with less than a second on top. chrono gives up on a clock
/// that is set before 1970.
#[verifier::external_body]
pub(crate) fn read_clock() -> (r: Timestamp)
    ensures
        r.representable(),
        r.nanos < NANOS_PER_SEC,
{
    let now = chrono::Utc::now();
    Timestamp { secs: now.timestamp(), nanos: now.timestamp_subsec_nanos() }
}

/// `chrono::DateTime::to_rfc3339`, on the point in time rebuilt with
/// `chrono::DateTime::from_timestamp`.
///
/// Trusted: the text depends on the point in time alone. Of a year from 0
/// to 9999 it holds the four digits of the year, the month, the day, the
/// time of day with second 60 for a leap second and every nanosecond that
/// is not zero, and the offset of UTC, so that reading it gives the point
/// in time back; other years are written with a sign, which is not read.
/// The argument must be representable, or the rebuilding fails.
#[verifier::external_body]
pub(crate) fn write_rfc3339(t: Timestamp) -> (r: String)
    requires
        t.representable(),
    ensures
        r@ == rfc3339_of(t),
        t.four_digit_year() ==> rfc3339_instant(r@) == Some(t),
{
    chrono::DateTime::from_timestamp(t.secs, t.nanos).unwrap().to_rfc3339()
}

} // verus!
