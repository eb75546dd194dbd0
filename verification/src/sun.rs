//! Sunrise and sunset of a day, as a sun-event provider answered for them,
//! and the scan of the coming year for its shortest and longest day.
//!
//! Nothing here asks the provider. The caller does, day by day, and hands
//! in what it was told: an instant in seconds since the start of 1970, or
//! nothing where the sun does not rise or does not set on that day.

use vstd::prelude::*;
use crate::calendar::{Day, DAY_SECONDS, LAST_DAY};
use crate::duration::Duration;
use crate::year::{seconds_of, summarizes, year_stats, YearStats};

verus! {

/// Where the sunrise asked for on day `day` can fall: on the day itself or,
/// far enough east, on the day before.
pub open spec fn sunrise_window(day: int, instant: int) -> bool {
    (day - 1) * DAY_SECONDS <= instant < (day + 1) * DAY_SECONDS
}

/// Where the sunset asked for on day `day` can fall: on the day itself or,
/// far enough west, on the day after.
pub open spec fn sunset_window(day: int, instant: int) -> bool {
    day * DAY_SECONDS <= instant < (day + 2) * DAY_SECONDS
}

/// The length of a day can be anything a [`DaySample`] allows: from just
/// over a day below zero to just under three days.
pub open spec fn possible_day_length(seconds: int) -> bool {
    -DAY_SECONDS < seconds < 3 * DAY_SECONDS
}

/// Sunrise and sunset of one day at one place, as instants in seconds since
/// the start of 1970. The sunrise lies in the day's [`sunrise_window`], the
/// sunset in its [`sunset_window`].
#[derive(Clone, Copy, Debug, PartialEq, Eq)]
pub struct DaySample {
    day: Day,
    sunrise: i64,
    sunset: i64,
}

impl DaySample {
    #[verifier::type_invariant]
    spec fn in_window(self) -> bool {
        &&& sunrise_window(self.day@, self.sunrise as int)
        &&& sunset_window(self.day@, self.sunset as int)
    }

    /// The day the sample was taken for.
    pub closed spec fn spec_day(&self) -> Day {
        self.day
    }

    /// The instant of the sunrise.
    pub closed spec fn spec_sunrise(&self) -> i64 {
        self.sunrise
    }

    /// The instant of the sunset.
    pub closed spec fn spec_sunset(&self) -> i64 {
        self.sunset
    }

    /// The time from sunrise to sunset, in seconds.
    pub open spec fn length(&self) -> int {
        self.sunset() - self.sunrise()
    }

    /// The sample of `day` with the given instants, or `None` where one of
    /// them lies outside its window.
    pub fn new(day: Day, sunrise: i64, sunset: i64) -> (sample: Option<DaySample>)
        ensures
            sample is Some <==> sunrise_window(day@, sunrise as int) && sunset_window(
                day@,
                sunset as int,
            ),
            sample matches Some(s) ==> s.day() == day && s.sunrise() == sunrise && s.sunset()
                == sunset,
    {
        let d: i64 = day.epoch_days() as i64;
        if (d - 1) * DAY_SECONDS <= sunrise && sunrise < (d + 1) * DAY_SECONDS && d * DAY_SECONDS
            <= sunset && sunset < (d + 2) * DAY_SECONDS {
            Some(DaySample { day, sunrise, sunset })
        } else {
            None
        }
    }

    #[verifier::when_used_as_spec(spec_day)]
    pub fn day(&self) -> (day: Day)
        ensures
            day == self.spec_day(),
    {
        self.day
    }

    #[verifier::when_used_as_spec(spec_sunrise)]
    pub fn sunrise(&self) -> (instant: i64)
        ensures
            instant == self.spec_sunrise(),
            sunrise_window(self.spec_day()@, instant as int),
    {
        proof {
            use_type_invariant(self);
        }
        self.sunrise
    }

    #[verifier::when_used_as_spec(spec_sunset)]
    pub fn sunset(&self) -> (instant: i64)
        ensures
            instant == self.spec_sunset(),
            sunset_window(self.spec_day()@, instant as int),
    {
        proof {
            use_type_invariant(self);
        }
        self.sunset
    }

    /// The time from sunrise to sunset.
    pub fn day_length(&self) -> (length: Duration)
        ensures
            length@ == self.length(),
            possible_day_length(length@),
    {
        proof {
            use_type_invariant(self);
        }
        let length = Duration::between(self.sunrise, self.sunset);
        length.unwrap()
    }
}

/// Pairs what the provider answered for the sunrise and for the sunset of
/// `day` into the day's sample, sunrise first, each instant as it came.
/// There is no sample where either answer is missing: the sun does not
/// rise or does not set on that day. Nor is there one for an answer that
/// lies outside the days on which the event of `day` can fall.
pub fn sunrise_sunset(day: Day, sunrise: Option<i64>, sunset: Option<i64>) -> (sample: Option<
    DaySample,
>)
    ensures
        sample is Some <==> {
            &&& sunrise matches Some(rise)
            &&& sunset matches Some(set)
            &&& sunrise_window(day@, rise as int)
            &&& sunset_window(day@, set as int)
        },
        sample matches Some(s) ==> s.day() == day && Some(s.sunrise()) == sunrise && Some(
            s.sunset(),
        ) == sunset,
{
    match (sunrise, sunset) {
        (Some(rise), Some(set)) => DaySample::new(day, rise, set),
        _ => None,
    }
}

/// The number of days that a scan covers: a leap year's worth, so that a
/// whole solar year lies inside it wherever the scan starts.
pub const WINDOW_DAYS: usize = 366;

/// Why a scan of the coming year gave no statistics.
#[derive(Clone, Copy, Debug, PartialEq, Eq)]
pub enum ScanError {
    /// The window of days runs past the last day of the calendar.
    PastCalendar,
    /// The sun does not rise or does not set on this day of the window.
    NoSunEvent(Day),
}

/// The window that starts with `today` ends within the calendar.
pub open spec fn window_in_calendar(today: Day) -> bool {
    today@ + WINDOW_DAYS - 1 <= LAST_DAY
}

/// The days of the window that starts with `today`, in order: `today` and
/// the days after it, [`WINDOW_DAYS`] in all. These are the days to ask the
/// provider for.
pub fn scan_window(today: Day) -> (result: Result<Vec<Day>, ScanError>)
    ensures
        result is Ok <==> window_in_calendar(today),
        result matches Err(error) ==> error == ScanError::PastCalendar,
        result matches Ok(days) ==> days@.len() == WINDOW_DAYS && forall|i: int|
            0 <= i < WINDOW_DAYS ==> (#[trigger] days@[i])@ == today@ + i,
{
    if today.epoch_days() > LAST_DAY - (WINDOW_DAYS as i32 - 1) {
        return Err(ScanError::PastCalendar);
    }
    let mut days: Vec<Day> = Vec::new();
    let mut date = today;
    while days.len() < WINDOW_DAYS
        invariant
            days@.len() <= WINDOW_DAYS,
            window_in_calendar(today),
            days@.len() < WINDOW_DAYS ==> date@ == today@ + days@.len(),
            forall|i: int| 0 <= i < days@.len() ==> (#[trigger] days@[i])@ == today@ + i,
        decreases WINDOW_DAYS - days@.len(),
    {
        days.push(date);
        if days.len() < WINDOW_DAYS {
            date = date.succ().unwrap();
        }
    }
    Ok(days)
}

/// `answers` holds what the provider answered for the days of the window
/// that starts with `today`, in order: its `i`-th entry is for the `i`-th
/// day from `today`, and `current` is what it answered when asked for
/// `today` once more.
pub open spec fn answers_window(
    today: Day,
    answers: Seq<Option<DaySample>>,
    current: Option<DaySample>,
) -> bool {
    &&& answers.len() == WINDOW_DAYS
    &&& forall|i: int|
        0 <= i < answers.len() ==> (#[trigger] answers[i] matches Some(s) ==> s.day()@ == today@
            + i)
    &&& current matches Some(s) ==> s.day() == today
}

/// Every day of the window has its sample.
pub open spec fn all_answered(answers: Seq<Option<DaySample>>) -> bool {
    forall|i: int| 0 <= i < answers.len() ==> #[trigger] answers[i] is Some
}

/// The day lengths of a window of which every day has its sample.
pub open spec fn lengths_of(answers: Seq<Option<DaySample>>) -> Seq<int> {
    Seq::new(answers.len(), |i: int| answers[i]->0.length())
}

/// Scans the provider's answers for the [`WINDOW_DAYS`] days that start
/// with `today` for the shortest and the longest day, and places the length
/// of `current`, today's second answer, between the two.
///
/// The scan fails where the window runs past the calendar, whatever the
/// answers. Otherwise it fails on the first day of the window without a
/// sample; with all of them there, it fails on `today` where the second
/// answer is missing. No statistics are made of a window with a gap.
pub fn pct_year_progress(today: Day, answers: &[Option<DaySample>], current: Option<DaySample>) -> (
    result: Result<YearStats, ScanError>)
    requires
        answers_window(today, answers@, current),
    ensures
        (result matches Err(ScanError::PastCalendar)) <==> !window_in_calendar(today),
        result is Ok <==> window_in_calendar(today) && all_answered(answers@) && current is Some,
        result matches Err(ScanError::NoSunEvent(day)) ==> {
            let gap = day@ - today@;
            &&& 0 <= gap < WINDOW_DAYS
            &&& forall|i: int| 0 <= i < gap ==> #[trigger] answers@[i] is Some
            &&& answers@[gap] is None || (gap == 0 && all_answered(answers@) && current is None)
        },
        result matches Ok(stats) ==> summarizes(
            stats,
            lengths_of(answers@),
            current->0.length(),
        ) && stats.min@ <= stats.max@,
{
    if today.epoch_days() > LAST_DAY - (WINDOW_DAYS as i32 - 1) {
        return Err(ScanError::PastCalendar);
    }
    let mut window: Vec<Duration> = Vec::new();
    let mut date = today;
    while window.len() < WINDOW_DAYS
        invariant
            answers@.len() == WINDOW_DAYS,
            window@.len() <= WINDOW_DAYS,
            window_in_calendar(today),
            window@.len() < WINDOW_DAYS ==> date@ == today@ + window@.len(),
            forall|i: int| 0 <= i < window@.len() ==> #[trigger] answers@[i] is Some,
            forall|i: int|
                0 <= i < window@.len() ==> (#[trigger] window@[i])@ == answers@[i]->0.length(),
        decreases WINDOW_DAYS - window@.len(),
    {
        match answers[window.len()] {
            Some(sample) => window.push(sample.day_length()),
            None => return Err(ScanError::NoSunEvent(date)),
        }
        if window.len() < WINDOW_DAYS {
            date = date.succ().unwrap();
        }
    }
    let length = match current {
        Some(sample) => sample.day_length(),
        None => return Err(ScanError::NoSunEvent(today)),
    };
    assert(seconds_of(window@) =~= lengths_of(answers@));
    Ok(year_stats(window.as_slice(), length))
}

} // verus!
