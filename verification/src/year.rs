//! The shortest and the longest day of a window of day lengths, and where
//! one day's length sits between the two.

use vstd::prelude::*;
use crate::bar::Fraction;
use crate::duration::Duration;

verus! {

/// What a scan of a window of days yields.
#[derive(Clone, Copy, Debug, PartialEq, Eq)]
pub struct YearStats {
    /// The shortest day length of the window.
    pub min: Duration,
    /// The longest day length of the window.
    pub max: Duration,
    /// How far the current day length has come from the shortest toward the
    /// longest, or `None` where the two are equal and no position exists.
    pub progress: Option<Fraction>,
}

/// The lengths of a window of days, in seconds.
pub open spec fn seconds_of(window: Seq<Duration>) -> Seq<int> {
    window.map_values(|d: Duration| d@)
}

/// `m` occurs in `lengths` and nothing in `lengths` is below it.
pub open spec fn is_least(m: int, lengths: Seq<int>) -> bool {
    &&& exists|i: int| 0 <= i < lengths.len() && lengths[i] == m
    &&& forall|i: int| 0 <= i < lengths.len() ==> m <= lengths[i]
}

/// `m` occurs in `lengths` and nothing in `lengths` is above it.
pub open spec fn is_greatest(m: int, lengths: Seq<int>) -> bool {
    &&& exists|i: int| 0 <= i < lengths.len() && lengths[i] == m
    &&& forall|i: int| 0 <= i < lengths.len() ==> lengths[i] <= m
}

/// `progress` is the position of `current` between `least` and `greatest`:
/// the distance from `least` over the whole distance, and nothing where the
/// whole distance is zero. Nothing is clamped: a `current` outside the two
/// has a ratio below zero or above one.
pub open spec fn is_position(progress: Option<Fraction>, current: int, least: int, greatest: int)
    -> bool {
    match progress {
        Some(ratio) => {
            &&& greatest != least
            &&& ratio.numerator == current - least
            &&& ratio.denominator == greatest - least
        },
        None => greatest == least,
    }
}

/// `stats` is what the window `lengths` and the length `current` give.
pub open spec fn summarizes(stats: YearStats, lengths: Seq<int>, current: int) -> bool {
    &&& is_least(stats.min@, lengths)
    &&& is_greatest(stats.max@, lengths)
    &&& is_position(stats.progress, current, stats.min@, stats.max@)
}

/// Scans a window of day lengths for its shortest and longest day, and
/// places `current` between the two.
pub fn year_stats(window: &[Duration], current: Duration) -> (stats: YearStats)
    requires
        window@.len() >= 1,
    ensures
        summarizes(stats, seconds_of(window@), current@),
        stats.min@ <= stats.max@,
        stats.progress matches Some(ratio) ==> ratio.denominator > 0,
{
    let ghost lengths = seconds_of(window@);
    let mut min = window[0];
    let mut max = window[0];
    let mut i: usize = 1;
    assert(lengths.take(1)[0] == window[0]@);
    while i < window.len()
        invariant
            1 <= i <= window@.len(),
            lengths == seconds_of(window@),
            is_least(min@, lengths.take(i as int)),
            is_greatest(max@, lengths.take(i as int)),
        decreases window@.len() - i,
    {
        let length = window[i];
        let ghost seen = lengths.take(i as int);
        let ghost grown = lengths.take(i + 1);
        proof {
            let at_min = choose|k: int| 0 <= k < seen.len() && seen[k] == min@;
            let at_max = choose|k: int| 0 <= k < seen.len() && seen[k] == max@;
            assert(grown[at_min] == min@ && grown[at_max] == max@);
            assert(grown[i as int] == length@);
            assert forall|k: int| 0 <= k < i implies grown[k] == seen[k] by {}
        }
        if length.num_seconds() < min.num_seconds() {
            min = length;
        }
        if length.num_seconds() > max.num_seconds() {
            max = length;
        }
        i += 1;
    }
    assert(lengths.take(i as int) == lengths);
    let span = max.num_seconds() - min.num_seconds();
    let progress = if span == 0 {
        None
    } else {
        Some(Fraction::new(current.num_seconds() - min.num_seconds(), span))
    };
    YearStats { min, max, progress }
}

/// A window has one shortest and one longest length, so the statistics of
/// a window depend on nothing but the lengths in it and the current length:
/// two scans of the same lengths agree.
pub proof fn lemma_stats_determined(a: YearStats, b: YearStats, lengths: Seq<int>, current: int)
    requires
        summarizes(a, lengths, current),
        summarizes(b, lengths, current),
    ensures
        a.min@ == b.min@,
        a.max@ == b.max@,
        a.progress == b.progress,
{
}

/// In the statistics of a window the shortest length is never above the
/// longest, and a current length taken from the window lies between them:
/// its progress, where there is one, is a ratio between zero and one.
pub proof fn lemma_stats_ordered(stats: YearStats, lengths: Seq<int>, current: int)
    requires
        summarizes(stats, lengths, current),
    ensures
        stats.min@ <= stats.max@,
        lengths.contains(current) ==> stats.min@ <= current <= stats.max@,
        stats.progress matches Some(ratio) ==> ratio.denominator > 0,
        lengths.contains(current) ==> (stats.progress matches Some(ratio)
            ==> ratio.in_unit_range()),
{
}

} // verus!
