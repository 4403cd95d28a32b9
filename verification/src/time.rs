//! Plain-value models of UTC instants, times of day and calendar dates, and the
//! calendar arithmetic the booking rules take from `chrono`.
use vstd::prelude::*;

verus! {

/// Earliest Unix timestamp (seconds) that a `chrono::DateTime<Utc>` can hold.
pub const MIN_TIMESTAMP_SECS: i64 = -8334601228800i64;

/// Latest Unix timestamp (seconds) that a `chrono::DateTime<Utc>` can hold.
pub const MAX_TIMESTAMP_SECS: i64 = 8210266876799i64;

/// Largest magnitude, in seconds, of a `chrono::TimeDelta` built from whole seconds
/// (`i64::MAX` milliseconds, truncated to seconds).
pub const MAX_DELTA_SECS: i64 = 9223372036854775i64;

/// Seconds in a day.
pub const SECS_PER_DAY: u32 = 86400u32;

/// One second in nanoseconds.
pub const NANOS_PER_SEC: u32 = 1_000_000_000u32;

/// An instant in UTC: `secs` is the Unix timestamp and `nanos` the nanoseconds past
/// it. As in `chrono`, `nanos` in `1e9..2e9` marks a leap second, which can only
/// follow second 59 of a minute.
#[derive(Clone, Copy, Debug, PartialEq, Eq, Structural)]
pub struct UtcInstant {
    pub secs: i64,
    pub nanos: u32,
}

/// A time of day: seconds from midnight and the nanoseconds past them (`nanos` in
/// `1e9..2e9` marks a leap second, as in `chrono::NaiveTime`).
#[derive(Clone, Copy, Debug, PartialEq, Eq, Structural)]
pub struct TimeOfDay {
    pub secs: u32,
    pub nanos: u32,
}

/// A day of the proleptic Gregorian calendar, numbered as `chrono` does:
/// January 1 of year 1 is day 1.
#[derive(Clone, Copy, Debug, PartialEq, Eq, Structural)]
pub struct CalendarDate {
    pub days_from_ce: i32,
}

/// Whether `d` is a whole-second shift that a `chrono::TimeDelta` can hold.
pub open spec fn delta_in_range(d: int) -> bool {
    -MAX_DELTA_SECS <= d <= MAX_DELTA_SECS
}

impl UtcInstant {
    /// The values a `chrono::DateTime<Utc>` can take.
    pub open spec fn valid(self) -> bool {
        &&& MIN_TIMESTAMP_SECS <= self.secs <= MAX_TIMESTAMP_SECS
        &&& self.nanos < 2 * NANOS_PER_SEC
        &&& self.nanos >= NANOS_PER_SEC ==> self.secs % 60 == 59
    }

    /// Chronological order: `self` is not later than `other`.
    pub open spec fn not_after(self, other: UtcInstant) -> bool {
        self.secs < other.secs || (self.secs == other.secs && self.nanos <= other.nanos)
    }

    /// Chronological order: `self` is strictly earlier than `other`.
    pub open spec fn earlier(self, other: UtcInstant) -> bool {
        self.secs < other.secs || (self.secs == other.secs && self.nanos < other.nanos)
    }

    /// Seconds part of the instant `d` whole seconds away from `self`, as `chrono`
    /// computes `DateTime + TimeDelta`: a shift that leaves a leap second drops it.
    pub open spec fn shifted_secs(self, d: int) -> int {
        if self.nanos >= NANOS_PER_SEC && d < 0 {
            self.secs + 1 + d
        } else {
            self.secs + d
        }
    }

    /// Nanoseconds part of the instant `d` whole seconds away from `self`.
    pub open spec fn shifted_nanos(self, d: int) -> int {
        if self.nanos >= NANOS_PER_SEC && d != 0 {
            self.nanos - NANOS_PER_SEC
        } else {
            self.nanos as int
        }
    }

    /// The instant `d` whole seconds away from `self`.
    pub open spec fn shifted(self, d: int) -> UtcInstant {
        UtcInstant { secs: self.shifted_secs(d) as i64, nanos: self.shifted_nanos(d) as u32 }
    }

    /// Whether the shift of `self` by `d` whole seconds stays within `chrono`'s range.
    pub open spec fn can_shift(self, d: int) -> bool {
        &&& delta_in_range(d)
        &&& MIN_TIMESTAMP_SECS <= self.shifted_secs(d) <= MAX_TIMESTAMP_SECS
    }

    /// Whether `self` is not later than `other`.
    pub fn is_at_or_before(&self, other: &UtcInstant) -> (r: bool)
        ensures
            r == self.not_after(*other),
    {
        self.secs < other.secs || (self.secs == other.secs && self.nanos <= other.nanos)
    }

    /// Whether `self` is strictly earlier than `other`.
    pub fn is_before(&self, other: &UtcInstant) -> (r: bool)
        ensures
            r == self.earlier(*other),
    {
        self.secs < other.secs || (self.secs == other.secs && self.nanos < other.nanos)
    }
}

impl TimeOfDay {
    /// The values a `chrono::NaiveTime` can take.
    pub open spec fn valid(self) -> bool {
        &&& self.secs < SECS_PER_DAY
        &&& self.nanos < 2 * NANOS_PER_SEC
        &&& self.nanos >= NANOS_PER_SEC ==> self.secs % 60 == 59
    }

    /// Order within a day: `self` is not later than `other`.
    pub open spec fn not_after(self, other: TimeOfDay) -> bool {
        self.secs < other.secs || (self.secs == other.secs && self.nanos <= other.nanos)
    }

    /// Order within a day: `self` is strictly earlier than `other`.
    pub open spec fn earlier(self, other: TimeOfDay) -> bool {
        self.secs < other.secs || (self.secs == other.secs && self.nanos < other.nanos)
    }

    /// `chrono::NaiveTime::overflowing_add_signed` for a shift of `d` whole seconds:
    /// the time of day reached and the seconds of the whole days passed over.
    pub open spec fn wrapping_shift(self, d: int) -> (TimeOfDay, int) {
        if self.nanos >= NANOS_PER_SEC && d == 0 {
            (self, 0)
        } else {
            let secs: int = if self.nanos >= NANOS_PER_SEC && d < 0 {
                self.secs + 1
            } else {
                self.secs as int
            };
            let nanos: int = if self.nanos >= NANOS_PER_SEC {
                self.nanos - NANOS_PER_SEC
            } else {
                self.nanos as int
            };
            let total = secs + d;
            let in_day = total % (SECS_PER_DAY as int);
            (TimeOfDay { secs: in_day as u32, nanos: nanos as u32 }, total - in_day)
        }
    }

    /// Whether `self` is not later than `other`.
    pub fn is_at_or_before(&self, other: &TimeOfDay) -> (r: bool)
        ensures
            r == self.not_after(*other),
    {
        self.secs < other.secs || (self.secs == other.secs && self.nanos <= other.nanos)
    }

    /// Whether `self` is strictly earlier than `other`.
    pub fn is_before(&self, other: &TimeOfDay) -> (r: bool)
        ensures
            r == self.earlier(*other),
    {
        self.secs < other.secs || (self.secs == other.secs && self.nanos < other.nanos)
    }
}

/// Smallest day number of a `chrono::NaiveDate`.
pub const MIN_DAYS_FROM_CE: i32 = -95746129i32;

/// Largest day number of a `chrono::NaiveDate`.
pub const MAX_DAYS_FROM_CE: i32 = 95745399i32;

impl CalendarDate {
    /// The days a `chrono::NaiveDate` can hold.
    pub open spec fn valid(self) -> bool {
        MIN_DAYS_FROM_CE <= self.days_from_ce <= MAX_DAYS_FROM_CE
    }

    /// Day of the week counted from Monday = 0. Day 1 (January 1 of year 1 in the
    /// proleptic Gregorian calendar) is a Monday.
    pub open spec fn weekday_index(self) -> int {
        (self.days_from_ce - 1) % 7
    }
}

/// `DateTime<Utc> + TimeDelta::minutes(minutes)` in `chrono`: the instant
/// `60 * minutes` seconds later, leaving a leap second as `shifted` describes.
#[verifier::external_body]
pub(crate) fn add_minutes(at: UtcInstant, minutes: i64) -> (r: UtcInstant)
    requires
        at.valid(),
        at.can_shift(60 * minutes),
    ensures
        r.valid(),
        r == at.shifted(60 * minutes),
{
    let start = chrono::DateTime::<chrono::Utc>::from_timestamp(at.secs, at.nanos).unwrap();
    let moved = start + chrono::TimeDelta::minutes(minutes);
    UtcInstant { secs: moved.timestamp(), nanos: moved.timestamp_subsec_nanos() }
}

/// `DateTime<Utc> - TimeDelta::hours(hours)` in `chrono`: the instant
/// `3600 * hours` seconds earlier, leaving a leap second as `shifted` describes.
#[verifier::external_body]
pub(crate) fn subtract_hours(at: UtcInstant, hours: i64) -> (r: UtcInstant)
    requires
        at.valid(),
        at.can_shift(-3600 * hours),
    ensures
        r.valid(),
        r == at.shifted(-3600 * hours),
{
    let start = chrono::DateTime::<chrono::Utc>::from_timestamp(at.secs, at.nanos).unwrap();
    let moved = start - chrono::TimeDelta::hours(hours);
    UtcInstant { secs: moved.timestamp(), nanos: moved.timestamp_subsec_nanos() }
}

/// `NaiveTime::overflowing_add_signed(TimeDelta::minutes(minutes))` in `chrono`:
/// the time of day reached and the seconds of the whole days passed over.
#[verifier::external_body]
pub(crate) fn add_minutes_wrapping(t: TimeOfDay, minutes: i64) -> (r: (TimeOfDay, i64))
    requires
        t.valid(),
        delta_in_range(60 * minutes),
    ensures
        r.0.valid(),
        (r.0, r.1 as int) == t.wrapping_shift(60 * minutes),
{
    let time = chrono::NaiveTime::from_num_seconds_from_midnight_opt(t.secs, t.nanos).unwrap();
    let (moved, overflow) = time.overflowing_add_signed(chrono::TimeDelta::minutes(minutes));
    (TimeOfDay { secs: chrono::Timelike::num_seconds_from_midnight(&moved), nanos: chrono::Timelike::nanosecond(&moved) }, overflow)
}

/// `date.weekday().num_days_from_monday()` in `chrono`.
#[verifier::external_body]
pub(crate) fn weekday_from_monday(date: CalendarDate) -> (r: u32)
    requires
        date.valid(),
    ensures
        r == date.weekday_index(),
{
    let day = chrono::NaiveDate::from_num_days_from_ce_opt(date.days_from_ce).unwrap();
    chrono::Datelike::weekday(&day).num_days_from_monday()
}


/// `chrono::Utc::now()`: the current instant. It depends on the clock, so only
/// that it is a valid instant is stated.
#[verifier::external_body]
pub(crate) fn current_instant() -> (r: UtcInstant)
    ensures
        r.valid(),
{
    let now = chrono::Utc::now();
    UtcInstant { secs: now.timestamp(), nanos: now.timestamp_subsec_nanos() }
}

} // verus!
