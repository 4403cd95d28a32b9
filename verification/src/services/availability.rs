//! Slot availability for a field on a given day.
use vstd::prelude::*;

use crate::time::{weekday_from_monday, add_minutes_wrapping, delta_in_range, CalendarDate, TimeOfDay, UtcInstant, NANOS_PER_SEC, SECS_PER_DAY};

verus! {

/// The hours a field opens on one day of the week (Monday = 0).
#[derive(Clone, Copy, Debug, PartialEq, Eq, Structural)]
pub struct OpeningWindow {
    pub weekday: u32,
    pub opens_at: TimeOfDay,
    pub closes_at: TimeOfDay,
}

/// A one-day override of the opening hours; with neither time the field is closed.
#[derive(Clone, Copy, Debug, PartialEq, Eq, Structural)]
pub struct AvailabilityExceptionInput {
    pub date: CalendarDate,
    pub opens_at: Option<TimeOfDay>,
    pub closes_at: Option<TimeOfDay>,
}

/// A booking or hold already made on the field for the day.
#[derive(Clone, Copy, Debug, PartialEq, Eq, Structural)]
pub struct ActiveBooking {
    pub start_time: TimeOfDay,
    pub end_time: TimeOfDay,
    pub hold_expires_at: Option<UtcInstant>,
    pub confirmed: bool,
}

/// One bookable slot and whether it is free.
#[derive(Clone, Copy, Debug, PartialEq, Eq, Structural)]
pub struct SlotState {
    pub start_time: TimeOfDay,
    pub end_time: TimeOfDay,
    pub available: bool,
}

impl ActiveBooking {
    /// A confirmed booking, or a hold that has not yet expired at `now`, takes its slot.
    pub open spec fn blocks_at(self, now: UtcInstant) -> bool {
        self.confirmed || (self.hold_expires_at matches Some(expires_at) && now.earlier(expires_at))
    }

    /// The booking shares some time with `[start, end)`.
    pub open spec fn overlaps_range(self, start: TimeOfDay, end: TimeOfDay) -> bool {
        start.earlier(self.end_time) && self.start_time.earlier(end)
    }

    /// Whether this booking takes its slot at `now`.
    pub fn blocks_availability(&self, now: UtcInstant) -> (r: bool)
        ensures
            r == self.blocks_at(now),
    {
        self.confirmed || match self.hold_expires_at {
            Some(expires_at) => now.is_before(&expires_at),
            None => false,
        }
    }

    /// Whether this booking shares some time with `[start, end)`.
    pub fn overlaps(&self, start: TimeOfDay, end: TimeOfDay) -> (r: bool)
        ensures
            r == self.overlaps_range(start, end),
    {
        start.is_before(&self.end_time) && self.start_time.is_before(&end)
    }
}

/// Some booking that takes its slot at `now` overlaps `[start, end)`.
pub open spec fn range_taken(bookings: Seq<ActiveBooking>, now: UtcInstant, start: TimeOfDay, end: TimeOfDay) -> bool {
    exists|i: int| 0 <= i < bookings.len() && #[trigger] bookings[i].blocks_at(now) && bookings[i].overlaps_range(start, end)
}

/// Whether some booking that takes its slot at `now` overlaps `[start, end)`.
pub fn any_blocking_overlap(bookings: &[ActiveBooking], now: UtcInstant, start: TimeOfDay, end: TimeOfDay) -> (r: bool)
    ensures
        r == range_taken(bookings@, now, start, end),
{
    let mut i: usize = 0;
    while i < bookings.len()
        invariant
            i <= bookings@.len(),
            forall|j: int| 0 <= j < i ==> !(#[trigger] bookings@[j].blocks_at(now) && bookings@[j].overlaps_range(start, end)),
        decreases bookings@.len() - i,
    {
        if bookings[i].blocks_availability(now) && bookings[i].overlaps(start, end) {
            return true;
        }
        i = i + 1;
    }
    false
}

/// A time of day as one number, increasing with the order of times.
pub open spec fn time_value(t: TimeOfDay) -> int {
    t.secs * (2 * NANOS_PER_SEC) + t.nanos
}

/// One past the largest `time_value` of a valid time of day.
pub open spec fn time_value_limit() -> int {
    SECS_PER_DAY * (2 * NANOS_PER_SEC)
}

/// The slots of length `step` seconds laid from `cursor` until the next one would end
/// after `closes`, pass midnight, or not move forward.
pub open spec fn slots_from(cursor: TimeOfDay, closes: TimeOfDay, step: int, bookings: Seq<ActiveBooking>, now: UtcInstant) -> Seq<SlotState>
    decreases time_value_limit() - time_value(cursor) when cursor.valid() && step > 0
{
    let (end, overflow) = cursor.wrapping_shift(step);
    if overflow != 0 || closes.earlier(end) || end.not_after(cursor) {
        Seq::empty()
    } else {
        seq![SlotState { start_time: cursor, end_time: end, available: !range_taken(bookings, now, cursor, end) }]
            + slots_from(end, closes, step, bookings, now)
    }
}

/// The window of the first opening window for `weekday`.
pub open spec fn window_for_weekday(windows: Seq<OpeningWindow>, weekday: int) -> Option<(TimeOfDay, TimeOfDay)>
    decreases windows.len(),
{
    if windows.len() == 0 {
        None
    } else if windows[0].weekday == weekday {
        Some((windows[0].opens_at, windows[0].closes_at))
    } else {
        window_for_weekday(windows.drop_first(), weekday)
    }
}

/// The day's window once the exception, if any, is applied.
pub open spec fn resolved_window(base: Option<(TimeOfDay, TimeOfDay)>, exception: Option<AvailabilityExceptionInput>) -> Option<(TimeOfDay, TimeOfDay)> {
    match exception {
        Some(e) => match (e.opens_at, e.closes_at) {
            (None, None) => None,
            (Some(o), Some(c)) => Some((o, c)),
            _ => base,
        },
        None => base,
    }
}

/// The slots `availability_for_date` lays out.
pub open spec fn day_slots(
    date: CalendarDate,
    slot_minutes: int,
    windows: Seq<OpeningWindow>,
    exception: Option<AvailabilityExceptionInput>,
    bookings: Seq<ActiveBooking>,
    now: UtcInstant,
) -> Seq<SlotState> {
    if slot_minutes <= 0 {
        Seq::empty()
    } else {
        match resolved_window(window_for_weekday(windows, date.weekday_index()), exception) {
            None => Seq::empty(),
            Some((opens, closes)) => slots_from(opens, closes, 60 * slot_minutes, bookings, now),
        }
    }
}

fn find_window(windows: &[OpeningWindow], weekday: u32) -> (r: Option<(TimeOfDay, TimeOfDay)>)
    ensures
        r == window_for_weekday(windows@, weekday as int),
{
    let mut i: usize = 0;
    assert(windows@.skip(0) =~= windows@);
    while i < windows.len()
        invariant
            i <= windows@.len(),
            window_for_weekday(windows@, weekday as int) == window_for_weekday(windows@.skip(i as int), weekday as int),
        decreases windows@.len() - i,
    {
        assert(windows@.skip(i as int).drop_first() =~= windows@.skip(i + 1));
        if windows[i].weekday == weekday {
            return Some((windows[i].opens_at, windows[i].closes_at));
        }
        i = i + 1;
    }
    None
}

fn resolve_window(base_window: Option<(TimeOfDay, TimeOfDay)>, exception: Option<&AvailabilityExceptionInput>) -> (r: Option<(TimeOfDay, TimeOfDay)>)
    ensures
        r == resolved_window(base_window, match exception { Some(e) => Some(*e), None => None }),
{
    match exception {
        Some(e) => match (e.opens_at, e.closes_at) {
            (None, None) => None,
            (Some(opens_at), Some(closes_at)) => Some((opens_at, closes_at)),
            _ => base_window,
        },
        None => base_window,
    }
}

/// The day's opening hours: those of the first window for the date's weekday,
/// unless the exception replaces them (both times given) or closes the day
/// (neither given).
pub fn day_window(date: CalendarDate, opening_windows: &[OpeningWindow], exception: Option<&AvailabilityExceptionInput>) -> (r: Option<(TimeOfDay, TimeOfDay)>)
    requires
        date.valid(),
    ensures
        r == resolved_window(
            window_for_weekday(opening_windows@, date.weekday_index()),
            match exception { Some(e) => Some(*e), None => None },
        ),
{
    let weekday = weekday_from_monday(date);
    let base_window = find_window(opening_windows, weekday);
    resolve_window(base_window, exception)
}

/// The slots of `slot_minutes` minutes from the day's opening time to its closing
/// time, each marked available unless a confirmed booking or unexpired hold
/// overlaps it. No slots when `slot_minutes` is not positive or the field is closed.
pub fn availability_for_date(
    date: CalendarDate,
    slot_minutes: i64,
    opening_windows: &[OpeningWindow],
    exception: Option<&AvailabilityExceptionInput>,
    active_bookings: &[ActiveBooking],
    now: UtcInstant,
) -> (slots: Vec<SlotState>)
    requires
        date.valid(),
        slot_minutes > 0 && resolved_window(
            window_for_weekday(opening_windows@, date.weekday_index()),
            match exception { Some(e) => Some(*e), None => None },
        ) is Some ==> delta_in_range(60 * slot_minutes),
        forall|i: int| 0 <= i < opening_windows@.len() ==> (#[trigger] opening_windows@[i]).opens_at.valid(),
        exception matches Some(e) ==> (e.opens_at matches Some(o) ==> o.valid()),
    ensures
        slots@ == day_slots(
            date,
            slot_minutes as int,
            opening_windows@,
            match exception { Some(e) => Some(*e), None => None },
            active_bookings@,
            now,
        ),
{
    if slot_minutes <= 0 {
        return Vec::new();
    }
    let window = day_window(date, opening_windows, exception);
    let (opens_at, closes_at) = match window {
        Some(w) => w,
        None => return Vec::new(),
    };
    proof {
        if window_for_weekday(opening_windows@, date.weekday_index()) is Some {
            lemma_window_opens_valid(opening_windows@, date.weekday_index());
        }
    }
    let ghost step: int = 60 * slot_minutes;
    let mut slots: Vec<SlotState> = Vec::new();
    let mut cursor = opens_at;
    loop
        invariant
            cursor.valid(),
            step == 60 * slot_minutes,
            slot_minutes > 0,
            delta_in_range(step),
            slots_from(opens_at, closes_at, step, active_bookings@, now)
                == slots@ + slots_from(cursor, closes_at, step, active_bookings@, now),
        ensures
            slots@ == slots_from(opens_at, closes_at, step, active_bookings@, now),
        decreases time_value_limit() - time_value(cursor),
    {
        let (end_time, overflow_days) = add_minutes_wrapping(cursor, slot_minutes);
        if overflow_days != 0 || closes_at.is_before(&end_time) || end_time.is_at_or_before(&cursor) {
            assert(slots_from(cursor, closes_at, step, active_bookings@, now) =~= Seq::<SlotState>::empty());
            assert(slots@ + Seq::<SlotState>::empty() =~= slots@);
            break;
        }
        let available = !any_blocking_overlap(active_bookings, now, cursor, end_time);
        let slot = SlotState { start_time: cursor, end_time, available };
        proof {
            assert(slots_from(cursor, closes_at, step, active_bookings@, now)
                == seq![slot] + slots_from(end_time, closes_at, step, active_bookings@, now));
            assert(slots@ + (seq![slot] + slots_from(end_time, closes_at, step, active_bookings@, now))
                =~= slots@.push(slot) + slots_from(end_time, closes_at, step, active_bookings@, now));
        }
        slots.push(slot);
        cursor = end_time;
    }
    slots
}

/// The opening time of the window found for a weekday is one of the windows' own.
proof fn lemma_window_opens_valid(windows: Seq<OpeningWindow>, weekday: int)
    requires
        forall|i: int| 0 <= i < windows.len() ==> (#[trigger] windows[i]).opens_at.valid(),
        window_for_weekday(windows, weekday) is Some,
    ensures
        window_for_weekday(windows, weekday).unwrap().0.valid(),
    decreases windows.len(),
{
    if windows[0].weekday != weekday {
        assert forall|i: int| 0 <= i < windows.drop_first().len() implies (#[trigger] windows.drop_first()[i]).opens_at.valid() by {
            assert(windows.drop_first()[i] == windows[i + 1]);
        }
        lemma_window_opens_valid(windows.drop_first(), weekday);
    }
}


/// The slots laid from `cursor` start there, follow one another without gaps, each
/// ends after it starts and no later than `closes`, and each is available exactly
/// when no booking that blocks at `now` overlaps it.
pub proof fn lemma_slots_from_shape(
    cursor: TimeOfDay,
    closes: TimeOfDay,
    step: int,
    bookings: Seq<ActiveBooking>,
    now: UtcInstant,
)
    requires
        cursor.valid(),
        step > 0,
    ensures
        ({
            let slots = slots_from(cursor, closes, step, bookings, now);
            &&& slots.len() > 0 ==> slots[0].start_time == cursor
            &&& forall|i: int| #![trigger slots[i]] 0 <= i < slots.len() ==> {
                &&& slots[i].start_time.earlier(slots[i].end_time)
                &&& slots[i].end_time.not_after(closes)
                &&& slots[i].available == !range_taken(bookings, now, slots[i].start_time, slots[i].end_time)
                &&& i + 1 < slots.len() ==> slots[i].end_time == slots[i + 1].start_time
            }
        }),
    decreases time_value_limit() - time_value(cursor),
{
    let (end, overflow) = cursor.wrapping_shift(step);
    if overflow != 0 || closes.earlier(end) || end.not_after(cursor) {
    } else {
        assert(end.valid());
        lemma_slots_from_shape(end, closes, step, bookings, now);
        let rest = slots_from(end, closes, step, bookings, now);
        let slots = slots_from(cursor, closes, step, bookings, now);
        assert forall|i: int| #![trigger slots[i]] 0 <= i < slots.len() implies {
            &&& slots[i].start_time.earlier(slots[i].end_time)
            &&& slots[i].end_time.not_after(closes)
            &&& slots[i].available == !range_taken(bookings, now, slots[i].start_time, slots[i].end_time)
            &&& i + 1 < slots.len() ==> slots[i].end_time == slots[i + 1].start_time
        } by {
            if i > 0 {
                assert(slots[i] == rest[i - 1]);
                if i + 1 < slots.len() {
                    assert(slots[i + 1] == rest[i]);
                }
            } else if i + 1 < slots.len() {
                assert(slots[1] == rest[0]);
            }
        }
    }
}

/// Every slot of the day lies inside the day's window, starts where the previous
/// one ended, and is available exactly when no confirmed booking or unexpired hold
/// overlaps it.
pub proof fn lemma_day_slots_shape(
    date: CalendarDate,
    slot_minutes: int,
    windows: Seq<OpeningWindow>,
    exception: Option<AvailabilityExceptionInput>,
    bookings: Seq<ActiveBooking>,
    now: UtcInstant,
)
    requires
        forall|i: int| 0 <= i < windows.len() ==> (#[trigger] windows[i]).opens_at.valid(),
        exception matches Some(e) ==> (e.opens_at matches Some(o) ==> o.valid()),
    ensures
        ({
            let slots = day_slots(date, slot_minutes, windows, exception, bookings, now);
            &&& slots.len() > 0 ==> (resolved_window(window_for_weekday(windows, date.weekday_index()), exception) matches Some(w)
                && slots[0].start_time == w.0)
            &&& forall|i: int| #![trigger slots[i]] 0 <= i < slots.len() ==> {
                &&& slots[i].start_time.earlier(slots[i].end_time)
                &&& (resolved_window(window_for_weekday(windows, date.weekday_index()), exception) matches Some(w)
                    && slots[i].end_time.not_after(w.1))
                &&& slots[i].available == !range_taken(bookings, now, slots[i].start_time, slots[i].end_time)
                &&& i + 1 < slots.len() ==> slots[i].end_time == slots[i + 1].start_time
            }
        }),
{
    if slot_minutes > 0 {
        let base = window_for_weekday(windows, date.weekday_index());
        if base is Some {
            lemma_window_opens_valid(windows, date.weekday_index());
        }
        if let Some((opens, closes)) = resolved_window(base, exception) {
            lemma_slots_from_shape(opens, closes, 60 * slot_minutes, bookings, now);
        }
    }
}

/// A confirmed booking takes its slot at every instant, whatever hold expiry it
/// may still carry from before it was paid.
pub proof fn lemma_confirmed_booking_always_blocks(booking: ActiveBooking, now: UtcInstant)
    requires
        booking.confirmed,
    ensures
        booking.blocks_at(now),
{
}

/// No slot of the day that shares time with a confirmed booking is reported
/// available, at any instant and whatever hold expiry the booking carries.
pub proof fn lemma_slot_of_confirmed_booking_is_taken(
    date: CalendarDate,
    slot_minutes: int,
    windows: Seq<OpeningWindow>,
    exception: Option<AvailabilityExceptionInput>,
    bookings: Seq<ActiveBooking>,
    now: UtcInstant,
    i: int,
    j: int,
)
    requires
        forall|k: int| 0 <= k < windows.len() ==> (#[trigger] windows[k]).opens_at.valid(),
        exception matches Some(e) ==> (e.opens_at matches Some(o) ==> o.valid()),
        0 <= i < day_slots(date, slot_minutes, windows, exception, bookings, now).len(),
        0 <= j < bookings.len(),
        bookings[j].confirmed,
        day_slots(date, slot_minutes, windows, exception, bookings, now)[i].start_time.earlier(bookings[j].end_time),
        bookings[j].start_time.earlier(day_slots(date, slot_minutes, windows, exception, bookings, now)[i].end_time),
    ensures
        !day_slots(date, slot_minutes, windows, exception, bookings, now)[i].available,
{
    lemma_day_slots_shape(date, slot_minutes, windows, exception, bookings, now);
    let slot = day_slots(date, slot_minutes, windows, exception, bookings, now)[i];
    assert(bookings[j].blocks_at(now) && bookings[j].overlaps_range(slot.start_time, slot.end_time));
    assert(range_taken(bookings, now, slot.start_time, slot.end_time));
}

} // verus!
