//! Calendar days, counted from the first of January 1970.

use vstd::prelude::*;
use crate::duration::Duration;

verus! {

/// The number of seconds in a day.
pub const DAY_SECONDS: i64 = 86_400;

/// The first day that a [`Day`] can hold: the second of January of the year
/// 262144 BCE, one day after the start of the calendar this crate's dates
/// convert to.
pub const FIRST_DAY: i32 = -96_465_291;

/// The last day that a [`Day`] can hold: the thirtieth of December of the
/// year 262142, one day before the end of that calendar.
pub const LAST_DAY: i32 = 95_026_235;

/// A calendar day of the proleptic Gregorian calendar. Every day has a day
/// before it and a day after it that the underlying calendar can still
/// name, which is why the range stops one day short of the calendar's at
/// either end.
#[derive(Clone, Copy, Debug, PartialEq, Eq)]
pub struct Day {
    epoch_days: i32,
}

impl View for Day {
    type V = int;

    /// The number of days since the first of January 1970.
    closed spec fn view(&self) -> int {
        self.epoch_days as int
    }
}

impl Day {
    #[verifier::type_invariant]
    spec fn in_calendar(self) -> bool {
        FIRST_DAY <= self.epoch_days <= LAST_DAY
    }

    /// The day that lies `epoch_days` days after the first of January 1970
    /// (before it, for a negative count), or `None` outside the range from
    /// [`FIRST_DAY`] to [`LAST_DAY`].
    pub fn from_epoch_days(epoch_days: i32) -> (day: Option<Day>)
        ensures
            day is Some <==> FIRST_DAY <= epoch_days <= LAST_DAY,
            day matches Some(d) ==> d@ == epoch_days,
    {
        if FIRST_DAY <= epoch_days && epoch_days <= LAST_DAY {
            Some(Day { epoch_days })
        } else {
            None
        }
    }

    /// The number of days since the first of January 1970.
    pub fn epoch_days(&self) -> (n: i32)
        ensures
            n == self@,
            FIRST_DAY <= n <= LAST_DAY,
    {
        proof {
            use_type_invariant(self);
        }
        self.epoch_days
    }

    /// The next day, or `None` after the last one.
    pub fn succ(&self) -> (next: Option<Day>)
        ensures
            next is Some <==> self@ < LAST_DAY,
            next matches Some(d) ==> d@ == self@ + 1,
    {
        proof {
            use_type_invariant(self);
        }
        if self.epoch_days < LAST_DAY {
            Some(Day { epoch_days: self.epoch_days + 1 })
        } else {
            None
        }
    }

    /// The day before, or `None` before the first one.
    pub fn pred(&self) -> (previous: Option<Day>)
        ensures
            previous is Some <==> self@ > FIRST_DAY,
            previous matches Some(d) ==> d@ == self@ - 1,
    {
        proof {
            use_type_invariant(self);
        }
        if self.epoch_days > FIRST_DAY {
            Some(Day { epoch_days: self.epoch_days - 1 })
        } else {
            None
        }
    }
}

/// The time of day of `instant`, an instant in seconds since the start of
/// 1970: the seconds since the last midnight at or before it.
pub fn time_of_day(instant: i64) -> (seconds: i64)
    ensures
        seconds == instant as int % DAY_SECONDS as int,
        0 <= seconds < DAY_SECONDS,
{
    let rest = instant % DAY_SECONDS;
    if rest < 0 {
        rest + DAY_SECONDS
    } else {
        rest
    }
}

/// How much later in the day `later` falls than `earlier`, two instants that
/// may lie on different days: the difference of their times of day, which
/// is negative where `later` comes earlier in its day.
pub fn clock_shift(earlier: i64, later: i64) -> (shift: Duration)
    ensures
        shift@ == later as int % DAY_SECONDS as int - earlier as int % DAY_SECONDS as int,
{
    Duration::between(time_of_day(earlier), time_of_day(later)).unwrap()
}

} // verus!
