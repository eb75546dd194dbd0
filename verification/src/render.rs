//! Compact renderings of time spans: hours and minutes for a day length,
//! signed minutes and seconds for the change from one day to the next.

use vstd::prelude::*;
use crate::duration::{div_toward_zero, magnitude, rem_toward_zero, Duration};
use crate::text::{
    decimal, integer, is_numeral, lemma_decimal_is_numeral, numeral_value, push_decimal,
    push_integer, push_signed_integer, signed_integer,
};

verus! {

/// A span of `minutes` whole minutes as hours and minutes: `2h 5m` from an
/// hour on, in either direction, and `45m` below that. Hours and minutes
/// come from dividing the minute count, rounding toward zero.
pub open spec fn hr_min_text(minutes: int) -> Seq<char> {
    if magnitude(minutes) >= 60 {
        integer(div_toward_zero(minutes, 60)) + seq!['h', ' '] + integer(
            rem_toward_zero(minutes, 60),
        ) + seq!['m']
    } else {
        integer(minutes) + seq!['m']
    }
}

/// A span of `seconds` seconds as signed minutes and seconds: `+3m 7s` from
/// a minute on, in either direction, and `-42s` below that. The sign is
/// always written, and stands on the first number only.
pub open spec fn min_sec_text(seconds: int) -> Seq<char> {
    let minutes = div_toward_zero(seconds, 60);
    if magnitude(minutes) >= 1 {
        signed_integer(minutes) + seq!['m', ' '] + decimal(magnitude(seconds) % 60) + seq![
            's',
        ]
    } else {
        signed_integer(seconds) + seq!['s']
    }
}

/// Renders a span as hours and minutes, dropping the seconds.
pub fn fmt_hr_min(duration: Duration) -> (text: String)
    ensures
        text@ == hr_min_text(duration.minutes()),
{
    let minutes = duration.num_minutes();
    let mut text = String::new();
    if minutes >= 60 || minutes <= -60 {
        push_integer(&mut text, minutes / 60);
        text.push('h');
        text.push(' ');
        push_integer(&mut text, minutes % 60);
        text.push('m');
    } else {
        push_integer(&mut text, minutes);
        text.push('m');
    }
    text
}

/// Renders a span as signed minutes and seconds.
pub fn fmt_min_sec(duration: Duration) -> (text: String)
    ensures
        text@ == min_sec_text(duration@),
        text@.len() >= 3,
        text@[0] == (if duration@ < 0 { '-' } else { '+' }),
{
    let minutes = duration.num_minutes();
    let seconds = duration.num_seconds();
    let mut text = String::new();
    if minutes >= 1 || minutes <= -1 {
        push_signed_integer(&mut text, minutes);
        text.push('m');
        text.push(' ');
        let within_minute = if seconds < 0 {
            (-seconds) % 60
        } else {
            seconds % 60
        };
        push_decimal(&mut text, within_minute as u64);
        text.push('s');
    } else {
        push_signed_integer(&mut text, seconds);
        text.push('s');
    }
    proof {
        lemma_min_sec_signed(duration@);
    }
    text
}

/// The signed rendering always starts with a sign, `-` exactly for the
/// spans below zero, and a number and a unit follow it.
pub proof fn lemma_min_sec_signed(seconds: int)
    ensures
        min_sec_text(seconds).len() >= 3,
        min_sec_text(seconds)[0] == (if seconds < 0 { '-' } else { '+' }),
{
    let minutes = div_toward_zero(seconds, 60);
    lemma_decimal_is_numeral(magnitude(minutes));
    lemma_decimal_is_numeral(magnitude(seconds));
}

/// A span of zero renders as `+0s`.
pub proof fn lemma_min_sec_zero()
    ensures
        min_sec_text(0) == seq!['+', '0', 's'],
{
    assert(decimal(0) == seq!['0']);
    assert(min_sec_text(0) == seq!['+'] + seq!['0'] + seq!['s']);
}

/// For a span that is not negative, the rendering is a numeral and `m`
/// below an hour, and from an hour on a numeral, `h`, a blank, a numeral and
/// `m`, where sixty times the first number plus the second gives the minute
/// count.
pub proof fn lemma_hr_min_shape(duration: Duration)
    requires
        duration@ >= 0,
    ensures
        duration.minutes() < 60 ==> exists|m: Seq<char>|
            {
                &&& #[trigger] is_numeral(m)
                &&& numeral_value(m) == duration.minutes()
                &&& hr_min_text(duration.minutes()) == m + seq!['m']
            },
        duration.minutes() >= 60 ==> exists|h: Seq<char>, m: Seq<char>|
            #![trigger is_numeral(h), is_numeral(m)]
            {
                &&& is_numeral(h)
                &&& is_numeral(m)
                &&& numeral_value(h) * 60 + numeral_value(m) == duration.minutes()
                &&& hr_min_text(duration.minutes()) == h + seq!['h', ' '] + m + seq!['m']
            },
{
    let minutes = duration.minutes();
    if minutes < 60 {
        let m = decimal(minutes as nat);
        lemma_decimal_is_numeral(minutes as nat);
        assert(hr_min_text(minutes) == m + seq!['m']);
    } else {
        let h = decimal((minutes / 60) as nat);
        let m = decimal((minutes % 60) as nat);
        lemma_decimal_is_numeral((minutes / 60) as nat);
        lemma_decimal_is_numeral((minutes % 60) as nat);
        assert(hr_min_text(minutes) == h + seq!['h', ' '] + m + seq!['m']);
    }
}

} // verus!
