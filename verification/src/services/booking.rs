//! Booking holds, the platform commission split, and cancellation refunds.
use vstd::prelude::*;

use crate::ids::{is_random_uuid, new_random_id};
use crate::services::availability::{any_blocking_overlap, day_slots, lemma_day_slots_shape, range_taken, ActiveBooking, AvailabilityExceptionInput, OpeningWindow};
use crate::time::{add_minutes, subtract_hours, CalendarDate, TimeOfDay, UtcInstant};

verus! {

/// Rust's `/` on integers: the quotient rounded toward zero.
pub open spec fn div_toward_zero(a: int, b: int) -> int
    recommends
        b > 0,
{
    if a >= 0 {
        a / b
    } else {
        -((-a) / b)
    }
}

/// The platform's part of `amount_minor` at `commission_bps` basis points.
pub open spec fn commission_of(amount_minor: int, commission_bps: int) -> int {
    div_toward_zero(amount_minor * commission_bps, 10_000)
}

/// Whether `commission_bps` is a rate in basis points (0 to 10000).
pub open spec fn valid_commission_rate(commission_bps: int) -> bool {
    0 <= commission_bps <= 10_000
}

/// Why a booking request was refused.
#[derive(Clone, Copy, Debug, PartialEq, Eq, Structural)]
pub enum BookingError {
    InvalidAmount,
    InvalidTimeRange,
    SlotUnavailable,
    InvalidCommissionRate,
    CancellationPolicyOutOfBounds,
    InvalidRefundPercent,
}

impl BookingError {
    /// The message shown for this error.
    pub fn message(&self) -> (r: String)
        ensures
            r@ == self.spec_message(),
    {
        match self {
            BookingError::InvalidAmount => "booking amount must be positive".to_string(),
            BookingError::InvalidTimeRange => "booking end time must be after start time".to_string(),
            BookingError::SlotUnavailable => "slot is already held or booked".to_string(),
            BookingError::InvalidCommissionRate => "commission basis points must be between 0 and 10000".to_string(),
            BookingError::CancellationPolicyOutOfBounds => "cancellation cutoff is outside platform bounds".to_string(),
            BookingError::InvalidRefundPercent => "refund percent must be between 0 and 100".to_string(),
        }
    }

    /// The message shown for this error.
    pub open spec fn spec_message(&self) -> Seq<char> {
        match self {
            BookingError::InvalidAmount => "booking amount must be positive"@,
            BookingError::InvalidTimeRange => "booking end time must be after start time"@,
            BookingError::SlotUnavailable => "slot is already held or booked"@,
            BookingError::InvalidCommissionRate => "commission basis points must be between 0 and 10000"@,
            BookingError::CancellationPolicyOutOfBounds => "cancellation cutoff is outside platform bounds"@,
            BookingError::InvalidRefundPercent => "refund percent must be between 0 and 100"@,
        }
    }
}

/// The platform commission on `amount_minor` at `commission_bps` basis points,
/// rounded toward zero; refused unless the rate is between 0 and 10000.
pub fn calculate_commission(amount_minor: i64, commission_bps: i64) -> (r: Result<i64, BookingError>)
    requires
        valid_commission_rate(commission_bps as int) ==> i64::MIN <= amount_minor * commission_bps <= i64::MAX,
    ensures
        r == (if valid_commission_rate(commission_bps as int) {
            Ok::<i64, BookingError>(commission_of(amount_minor as int, commission_bps as int) as i64)
        } else {
            Err::<i64, BookingError>(BookingError::InvalidCommissionRate)
        }),
{
    if !(0 <= commission_bps && commission_bps <= 10_000) {
        return Err(BookingError::InvalidCommissionRate);
    }
    Ok(amount_minor * commission_bps / 10_000)
}

/// A commission at a valid rate on a non-negative amount is between zero and the
/// amount, so the manager's share is never negative.
pub proof fn lemma_commission_within_amount(amount_minor: int, commission_bps: int)
    requires
        amount_minor >= 0,
        valid_commission_rate(commission_bps),
    ensures
        0 <= commission_of(amount_minor, commission_bps) <= amount_minor,
        0 <= amount_minor - commission_of(amount_minor, commission_bps) <= amount_minor,
{
    assert(0 <= amount_minor * commission_bps <= amount_minor * 10_000) by (nonlinear_arith)
        requires
            amount_minor >= 0,
            0 <= commission_bps <= 10_000;
    assert((amount_minor * commission_bps) / 10_000 <= amount_minor) by (nonlinear_arith)
        requires
            0 <= amount_minor * commission_bps <= amount_minor * 10_000;
}

/// The settings a booking hold is made with.
#[derive(Clone, Debug, PartialEq, Eq)]
pub struct BookingEngine {
    pub hold_minutes: i64,
    pub platform_commission_bps: i64,
    pub default_currency: String,
}

/// A pending booking that holds a slot until `hold_expires_at`.
#[derive(Clone, Debug, PartialEq, Eq)]
pub struct BookingHold {
    pub id: u128,
    pub field_id: i64,
    pub player_id: i64,
    pub date: CalendarDate,
    pub start_time: TimeOfDay,
    pub end_time: TimeOfDay,
    pub amount_minor: i64,
    pub currency: String,
    pub commission_minor: i64,
    pub manager_share_minor: i64,
    pub hold_expires_at: UtcInstant,
}

/// The check `create_hold` makes before it builds a hold: `Ok` when the hold is made.
pub open spec fn hold_decision(
    commission_bps: int,
    start_time: TimeOfDay,
    end_time: TimeOfDay,
    amount_minor: int,
    bookings: Seq<ActiveBooking>,
    now: UtcInstant,
) -> Result<(), BookingError> {
    if amount_minor <= 0 {
        Err(BookingError::InvalidAmount)
    } else if end_time.not_after(start_time) {
        Err(BookingError::InvalidTimeRange)
    } else if range_taken(bookings, now, start_time, end_time) {
        Err(BookingError::SlotUnavailable)
    } else if !valid_commission_rate(commission_bps) {
        Err(BookingError::InvalidCommissionRate)
    } else {
        Ok(())
    }
}

impl BookingEngine {
    /// An engine with the given hold length, commission rate and currency.
    pub fn new(hold_minutes: i64, platform_commission_bps: i64, default_currency: String) -> (r: Self)
        ensures
            r.hold_minutes == hold_minutes,
            r.platform_commission_bps == platform_commission_bps,
            r.default_currency@ == default_currency@,
    {
        BookingEngine { hold_minutes, platform_commission_bps, default_currency }
    }

    /// The checks a hold must pass, in order: a positive amount, a non-empty time
    /// range, a slot that no confirmed booking or live hold takes, and a valid
    /// commission rate; `Ok` when all pass, else the first failure.
    pub fn check_hold(
        &self,
        start_time: TimeOfDay,
        end_time: TimeOfDay,
        amount_minor: i64,
        active_bookings: &[ActiveBooking],
        now: UtcInstant,
    ) -> (r: Result<(), BookingError>)
        ensures
            r == hold_decision(self.platform_commission_bps as int, start_time, end_time, amount_minor as int, active_bookings@, now),
    {
        if amount_minor <= 0 {
            return Err(BookingError::InvalidAmount);
        }
        if end_time.is_at_or_before(&start_time) {
            return Err(BookingError::InvalidTimeRange);
        }
        if any_blocking_overlap(active_bookings, now, start_time, end_time) {
            return Err(BookingError::SlotUnavailable);
        }
        if !(0 <= self.platform_commission_bps && self.platform_commission_bps <= 10_000) {
            return Err(BookingError::InvalidCommissionRate);
        }
        Ok(())
    }

    /// Holds `[start_time, end_time)` on `date` for the player, splitting the amount
    /// into the platform commission and the manager's share; the hold expires
    /// `hold_minutes` after `now`. Refused for a non-positive amount, an empty or
    /// reversed time range, a slot taken by a confirmed booking or live hold, or an
    /// invalid commission rate, checked in that order.
    pub fn create_hold(
        &self,
        field_id: i64,
        player_id: i64,
        date: CalendarDate,
        start_time: TimeOfDay,
        end_time: TimeOfDay,
        amount_minor: i64,
        active_bookings: &[ActiveBooking],
        now: UtcInstant,
    ) -> (r: Result<BookingHold, BookingError>)
        requires
            now.valid(),
            hold_decision(self.platform_commission_bps as int, start_time, end_time, amount_minor as int, active_bookings@, now) is Ok ==> {
                &&& amount_minor * self.platform_commission_bps <= i64::MAX
                &&& now.can_shift(60 * self.hold_minutes)
            },
        ensures
            match hold_decision(self.platform_commission_bps as int, start_time, end_time, amount_minor as int, active_bookings@, now) {
                Err(e) => r == Err::<BookingHold, BookingError>(e),
                Ok(_) => r matches Ok(hold) && {
                    &&& is_random_uuid(hold.id)
                    &&& hold.field_id == field_id
                    &&& hold.player_id == player_id
                    &&& hold.date == date
                    &&& hold.start_time == start_time
                    &&& hold.end_time == end_time
                    &&& hold.amount_minor == amount_minor
                    &&& hold.currency@ == self.default_currency@
                    &&& hold.commission_minor == commission_of(amount_minor as int, self.platform_commission_bps as int)
                    &&& hold.manager_share_minor == amount_minor - hold.commission_minor
                    &&& hold.hold_expires_at == now.shifted(60 * self.hold_minutes)
                },
            },
    {
        if let Err(e) = self.check_hold(start_time, end_time, amount_minor, active_bookings, now) {
            return Err(e);
        }
        let commission_minor = match calculate_commission(amount_minor, self.platform_commission_bps) {
            Ok(c) => c,
            Err(e) => return Err(e),
        };
        proof {
            lemma_commission_within_amount(amount_minor as int, self.platform_commission_bps as int);
        }
        let manager_share_minor = amount_minor - commission_minor;
        Ok(BookingHold {
            id: new_random_id(),
            field_id,
            player_id,
            date,
            start_time,
            end_time,
            amount_minor,
            currency: self.default_currency.clone(),
            commission_minor,
            manager_share_minor,
            hold_expires_at: add_minutes(now, self.hold_minutes),
        })
    }

    /// Whether a hold expiring at `hold_expires_at` has lapsed at `now`.
    pub fn expire_pending_hold(&self, hold_expires_at: UtcInstant, now: UtcInstant) -> (r: bool)
        ensures
            r == hold_expires_at.not_after(now),
    {
        hold_expires_at.is_at_or_before(&now)
    }
}

/// A manager's cancellation terms: how many hours before the start a cancellation
/// still earns a refund, and what percent of the amount it refunds.
#[derive(Clone, Copy, Debug, PartialEq, Eq, Structural)]
pub struct CancellationPolicy {
    pub cutoff_hours: i64,
    pub refund_percent: i64,
}

/// Whether a booking may be cancelled and what is refunded to the wallet.
#[derive(Clone, Copy, Debug, PartialEq, Eq, Structural)]
pub struct CancellationDecision {
    pub allowed: bool,
    pub refund_to_wallet_minor: i64,
}

/// The refund a policy grants on `amount_minor`.
pub open spec fn refund_of(amount_minor: int, refund_percent: int) -> int {
    div_toward_zero(amount_minor * refund_percent, 100)
}

impl CancellationPolicy {
    /// A cutoff within the platform's bounds and a percent between 0 and 100.
    pub open spec fn within(self, min_hours: int, max_hours: int) -> bool {
        &&& min_hours <= self.cutoff_hours <= max_hours
        &&& 0 <= self.refund_percent <= 100
    }

    /// The policy unchanged when its cutoff lies within `[min_hours, max_hours]` and
    /// its refund percent within `[0, 100]`; otherwise the first rule it breaks.
    pub fn validate(self, min_hours: i64, max_hours: i64) -> (r: Result<Self, BookingError>)
        ensures
            r == (if self.cutoff_hours < min_hours || self.cutoff_hours > max_hours {
                Err::<Self, BookingError>(BookingError::CancellationPolicyOutOfBounds)
            } else if !(0 <= self.refund_percent <= 100) {
                Err::<Self, BookingError>(BookingError::InvalidRefundPercent)
            } else {
                Ok::<Self, BookingError>(self)
            }),
    {
        if self.cutoff_hours < min_hours || self.cutoff_hours > max_hours {
            return Err(BookingError::CancellationPolicyOutOfBounds);
        }
        if !(0 <= self.refund_percent && self.refund_percent <= 100) {
            return Err(BookingError::InvalidRefundPercent);
        }
        Ok(self)
    }

    /// The instant before which a cancellation still earns the refund.
    pub open spec fn cutoff(self, booking_start: UtcInstant) -> UtcInstant {
        booking_start.shifted(-3600 * self.cutoff_hours)
    }

    /// Cancelling at `now` is allowed before the booking starts; it refunds
    /// `refund_percent` percent of the amount (rounded toward zero) when `now` is
    /// no later than `cutoff_hours` before the start, and nothing after that.
    /// A negative amount is refused.
    pub fn decide(self, booking_start: UtcInstant, now: UtcInstant, amount_minor: i64) -> (r: Result<CancellationDecision, BookingError>)
        requires
            booking_start.valid(),
            amount_minor >= 0 ==> booking_start.can_shift(-3600 * self.cutoff_hours),
            amount_minor >= 0 && now.not_after(self.cutoff(booking_start))
                ==> i64::MIN <= amount_minor * self.refund_percent <= i64::MAX,
        ensures
            r == (if amount_minor < 0 {
                Err::<CancellationDecision, BookingError>(BookingError::InvalidAmount)
            } else {
                Ok::<CancellationDecision, BookingError>(CancellationDecision {
                    allowed: now.earlier(booking_start),
                    refund_to_wallet_minor: if now.not_after(self.cutoff(booking_start)) {
                        refund_of(amount_minor as int, self.refund_percent as int) as i64
                    } else {
                        0
                    },
                })
            }),
    {
        if amount_minor < 0 {
            return Err(BookingError::InvalidAmount);
        }
        let cutoff = subtract_hours(booking_start, self.cutoff_hours);
        let refund_to_wallet_minor = if now.is_at_or_before(&cutoff) {
            amount_minor * self.refund_percent / 100
        } else {
            0
        };
        Ok(CancellationDecision { allowed: now.is_before(&booking_start), refund_to_wallet_minor })
    }
}

/// Under a policy with a refund percent between 0 and 100, a cancellation never
/// refunds more than was paid, nor a negative amount.
pub proof fn lemma_refund_within_amount(amount_minor: int, refund_percent: int)
    requires
        amount_minor >= 0,
        0 <= refund_percent <= 100,
    ensures
        0 <= refund_of(amount_minor, refund_percent) <= amount_minor,
{
    assert(0 <= amount_minor * refund_percent <= amount_minor * 100) by (nonlinear_arith)
        requires
            amount_minor >= 0,
            0 <= refund_percent <= 100;
    assert((amount_minor * refund_percent) / 100 <= amount_minor) by (nonlinear_arith)
        requires
            0 <= amount_minor * refund_percent <= amount_minor * 100;
}


/// A slot that the day's availability reports free can be held: for a positive
/// amount at a valid commission rate, under the same bookings and at the same
/// instant, `create_hold` on that slot's start and end is not refused.
pub proof fn lemma_available_slot_can_be_held(
    date: CalendarDate,
    slot_minutes: int,
    windows: Seq<OpeningWindow>,
    exception: Option<AvailabilityExceptionInput>,
    bookings: Seq<ActiveBooking>,
    now: UtcInstant,
    i: int,
    commission_bps: int,
    amount_minor: int,
)
    requires
        forall|k: int| 0 <= k < windows.len() ==> (#[trigger] windows[k]).opens_at.valid(),
        exception matches Some(e) ==> (e.opens_at matches Some(o) ==> o.valid()),
        0 <= i < day_slots(date, slot_minutes, windows, exception, bookings, now).len(),
        day_slots(date, slot_minutes, windows, exception, bookings, now)[i].available,
        amount_minor > 0,
        valid_commission_rate(commission_bps),
    ensures
        ({
            let slot = day_slots(date, slot_minutes, windows, exception, bookings, now)[i];
            hold_decision(commission_bps, slot.start_time, slot.end_time, amount_minor, bookings, now) is Ok
        }),
{
    lemma_day_slots_shape(date, slot_minutes, windows, exception, bookings, now);
    let slot = day_slots(date, slot_minutes, windows, exception, bookings, now)[i];
    assert(slot.start_time.earlier(slot.end_time));
}

/// A range that some booking blocking at `now` shares time with can never be
/// held: for a positive amount over a non-empty range the hold is refused as
/// `SlotUnavailable`, however little the two ranges overlap.
pub proof fn lemma_taken_range_cannot_be_held(
    commission_bps: int,
    start_time: TimeOfDay,
    end_time: TimeOfDay,
    amount_minor: int,
    bookings: Seq<ActiveBooking>,
    now: UtcInstant,
    j: int,
)
    requires
        amount_minor > 0,
        start_time.earlier(end_time),
        0 <= j < bookings.len(),
        bookings[j].blocks_at(now),
        start_time.earlier(bookings[j].end_time),
        bookings[j].start_time.earlier(end_time),
    ensures
        hold_decision(commission_bps, start_time, end_time, amount_minor, bookings, now) == Err::<(), BookingError>(BookingError::SlotUnavailable),
{
    assert(bookings[j].overlaps_range(start_time, end_time));
}

/// A hold that is made overlaps no booking that blocks at `now`; in particular it
/// overlaps no confirmed booking.
pub proof fn lemma_held_range_is_free(
    commission_bps: int,
    start_time: TimeOfDay,
    end_time: TimeOfDay,
    amount_minor: int,
    bookings: Seq<ActiveBooking>,
    now: UtcInstant,
)
    requires
        hold_decision(commission_bps, start_time, end_time, amount_minor, bookings, now) is Ok,
    ensures
        forall|j: int| 0 <= j < bookings.len() && (#[trigger] bookings[j]).blocks_at(now)
            ==> !(start_time.earlier(bookings[j].end_time) && bookings[j].start_time.earlier(end_time)),
        forall|j: int| 0 <= j < bookings.len() && (#[trigger] bookings[j]).confirmed
            ==> !(start_time.earlier(bookings[j].end_time) && bookings[j].start_time.earlier(end_time)),
{
    assert forall|j: int| 0 <= j < bookings.len() && (#[trigger] bookings[j]).blocks_at(now)
        implies !(start_time.earlier(bookings[j].end_time) && bookings[j].start_time.earlier(end_time)) by {
        if start_time.earlier(bookings[j].end_time) && bookings[j].start_time.earlier(end_time) {
            assert(bookings[j].overlaps_range(start_time, end_time));
        }
    }
    assert forall|j: int| 0 <= j < bookings.len() && (#[trigger] bookings[j]).confirmed
        implies !(start_time.earlier(bookings[j].end_time) && bookings[j].start_time.earlier(end_time)) by {
        assert(bookings[j].blocks_at(now));
    }
}

} // verus!

