//! Signed spans of time in whole seconds.

use vstd::prelude::*;

verus! {

/// The largest magnitude, in seconds, that a [`Duration`] holds. Sums and
/// differences of two durations therefore always fit in an `i64`.
pub const MAX_SECONDS: i64 = 9_223_372_036_854_775;

/// `a / b` rounded toward zero, for a positive `b`.
pub open spec fn div_toward_zero(a: int, b: int) -> int {
    if a >= 0 {
        a / b
    } else {
        -((-a) / b)
    }
}

/// What is left of `a` after `div_toward_zero(a, b)` whole parts: it has the
/// sign of `a`, or is zero.
pub open spec fn rem_toward_zero(a: int, b: int) -> int {
    a - b * div_toward_zero(a, b)
}

/// The magnitude of `a`.
pub open spec fn magnitude(a: int) -> nat {
    if a >= 0 {
        a as nat
    } else {
        (-a) as nat
    }
}

/// A signed span of time with a resolution of one second. It may be
/// negative: the difference between a shorter day and a longer one is.
#[derive(Clone, Copy, Debug, PartialEq, Eq)]
pub struct Duration {
    seconds: i64,
}

impl View for Duration {
    type V = int;

    /// The span in seconds.
    closed spec fn view(&self) -> int {
        self.seconds as int
    }
}

impl Duration {
    #[verifier::type_invariant]
    spec fn in_range(self) -> bool {
        -MAX_SECONDS <= self.seconds <= MAX_SECONDS
    }

    /// The span in whole minutes, rounded toward zero.
    pub open spec fn minutes(self) -> int {
        div_toward_zero(self@, 60)
    }

    /// The span of `seconds` seconds, or `None` where the magnitude exceeds
    /// [`MAX_SECONDS`].
    pub fn try_seconds(seconds: i64) -> (d: Option<Duration>)
        ensures
            d is Some <==> -MAX_SECONDS <= seconds <= MAX_SECONDS,
            d matches Some(span) ==> span@ == seconds,
    {
        if -MAX_SECONDS <= seconds && seconds <= MAX_SECONDS {
            Some(Duration { seconds })
        } else {
            None
        }
    }

    /// The span from `earlier` to `later`, two counts of seconds on one
    /// scale, or `None` where the magnitude of the difference exceeds
    /// [`MAX_SECONDS`].
    pub fn between(earlier: i64, later: i64) -> (d: Option<Duration>)
        ensures
            d is Some <==> -MAX_SECONDS <= later - earlier <= MAX_SECONDS,
            d matches Some(span) ==> span@ == later - earlier,
    {
        match later.checked_sub(earlier) {
            Some(seconds) => Duration::try_seconds(seconds),
            None => None,
        }
    }

    /// This span less `other`, or `None` where the magnitude of the
    /// difference exceeds [`MAX_SECONDS`].
    pub fn checked_sub(&self, other: &Duration) -> (d: Option<Duration>)
        ensures
            d is Some <==> -MAX_SECONDS <= self@ - other@ <= MAX_SECONDS,
            d matches Some(span) ==> span@ == self@ - other@,
    {
        proof {
            use_type_invariant(self);
            use_type_invariant(other);
        }
        Duration::try_seconds(self.seconds - other.seconds)
    }

    /// The span in seconds.
    pub fn num_seconds(&self) -> (s: i64)
        ensures
            s == self@,
            -MAX_SECONDS <= s <= MAX_SECONDS,
    {
        proof {
            use_type_invariant(self);
        }
        self.seconds
    }

    /// The span in whole minutes, rounded toward zero.
    pub fn num_minutes(&self) -> (m: i64)
        ensures
            m == self.minutes(),
    {
        proof {
            use_type_invariant(self);
        }
        self.seconds / 60
    }
}

} // verus!
