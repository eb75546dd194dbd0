use daylight::duration::MAX_SECONDS;
use daylight::text::{digit, magnitude_of, push_decimal, push_integer, push_signed_integer};
use daylight::{fmt_hr_min, fmt_min_sec, Duration};

fn span(seconds: i64) -> Duration {
    Duration::try_seconds(seconds).unwrap()
}

#[test]
fn hours_and_minutes() {
    assert_eq!(fmt_hr_min(span(0)), "0m");
    assert_eq!(fmt_hr_min(span(59)), "0m");
    assert_eq!(fmt_hr_min(span(60)), "1m");
    assert_eq!(fmt_hr_min(span(59 * 60 + 59)), "59m");
    assert_eq!(fmt_hr_min(span(3600)), "1h 0m");
    assert_eq!(fmt_hr_min(span(2 * 3600 + 5 * 60 + 30)), "2h 5m");
    assert_eq!(fmt_hr_min(span(14 * 3600 + 27 * 60)), "14h 27m");
    assert_eq!(fmt_hr_min(span(100 * 3600 + 59 * 60 + 59)), "100h 59m");
}

#[test]
fn hours_and_minutes_below_zero() {
    assert_eq!(fmt_hr_min(span(-59)), "0m");
    assert_eq!(fmt_hr_min(span(-5 * 60)), "-5m");
    assert_eq!(fmt_hr_min(span(-59 * 60 - 59)), "-59m");
    assert_eq!(fmt_hr_min(span(-3600)), "-1h 0m");
    assert_eq!(fmt_hr_min(span(-90 * 60)), "-1h -30m");
}

#[test]
fn hours_and_minutes_add_up() {
    let mut seconds: i64 = 0;
    while seconds < 400_000 {
        let text = fmt_hr_min(span(seconds));
        let minutes = seconds / 60;
        let body = text.strip_suffix('m').unwrap();
        if minutes < 60 {
            assert!(!body.is_empty() && body.chars().all(|c| c.is_ascii_digit()));
            assert_eq!(body.parse::<i64>().unwrap(), minutes);
        } else {
            let (h, m) = body.split_once("h ").unwrap();
            assert!(!h.is_empty() && h.chars().all(|c| c.is_ascii_digit()));
            assert!(!m.is_empty() && m.chars().all(|c| c.is_ascii_digit()));
            assert_eq!(h.parse::<i64>().unwrap() * 60 + m.parse::<i64>().unwrap(), minutes);
        }
        seconds += 37;
    }
}

#[test]
fn signed_minutes_and_seconds() {
    assert_eq!(fmt_min_sec(span(0)), "+0s");
    assert_eq!(fmt_min_sec(span(1)), "+1s");
    assert_eq!(fmt_min_sec(span(-1)), "-1s");
    assert_eq!(fmt_min_sec(span(59)), "+59s");
    assert_eq!(fmt_min_sec(span(-30)), "-30s");
    assert_eq!(fmt_min_sec(span(-59)), "-59s");
    assert_eq!(fmt_min_sec(span(60)), "+1m 0s");
    assert_eq!(fmt_min_sec(span(-60)), "-1m 0s");
    assert_eq!(fmt_min_sec(span(187)), "+3m 7s");
    assert_eq!(fmt_min_sec(span(-90)), "-1m 30s");
    assert_eq!(fmt_min_sec(span(3600)), "+60m 0s");
    assert_eq!(fmt_min_sec(span(-3725)), "-62m 5s");
}

#[test]
fn signed_rendering_always_starts_with_a_sign() {
    for seconds in -4000..4000i64 {
        let text = fmt_min_sec(span(seconds));
        let sign = text.chars().next().unwrap();
        assert_eq!(sign, if seconds < 0 { '-' } else { '+' });
        assert!(text.ends_with('s'));
    }
}

#[test]
fn rendering_at_the_bounds() {
    assert_eq!(fmt_hr_min(span(MAX_SECONDS)), "2562047788015h 12m");
    assert_eq!(fmt_hr_min(span(-MAX_SECONDS)), "-2562047788015h -12m");
    assert_eq!(fmt_min_sec(span(MAX_SECONDS)), "+153722867280912m 55s");
    assert_eq!(fmt_min_sec(span(-MAX_SECONDS)), "-153722867280912m 55s");
}

#[test]
fn duration_bounds() {
    assert!(Duration::try_seconds(MAX_SECONDS).is_some());
    assert!(Duration::try_seconds(-MAX_SECONDS).is_some());
    assert!(Duration::try_seconds(MAX_SECONDS + 1).is_none());
    assert!(Duration::try_seconds(-MAX_SECONDS - 1).is_none());
    assert!(Duration::try_seconds(i64::MIN).is_none());
    assert!(Duration::try_seconds(i64::MAX).is_none());
    assert_eq!(span(12345).num_seconds(), 12345);
    assert_eq!(span(-12345).num_seconds(), -12345);
}

#[test]
fn minutes_round_toward_zero() {
    assert_eq!(span(119).num_minutes(), 1);
    assert_eq!(span(120).num_minutes(), 2);
    assert_eq!(span(-119).num_minutes(), -1);
    assert_eq!(span(-120).num_minutes(), -2);
    assert_eq!(span(-1).num_minutes(), 0);
}

#[test]
fn minutes_agree_with_chrono() {
    for seconds in [-7265i64, -3600, -61, -60, -59, -1, 0, 1, 59, 60, 61, 3600, 7265] {
        let theirs = chrono::Duration::seconds(seconds);
        assert_eq!(span(seconds).num_minutes(), theirs.num_minutes());
        assert_eq!(span(seconds).num_seconds(), theirs.num_seconds());
    }
}

#[test]
fn differences() {
    assert_eq!(Duration::between(100, 250), Some(span(150)));
    assert_eq!(Duration::between(250, 100), Some(span(-150)));
    assert_eq!(Duration::between(i64::MIN, i64::MAX), None);
    assert_eq!(Duration::between(i64::MAX, i64::MIN), None);
    assert_eq!(Duration::between(0, MAX_SECONDS), Some(span(MAX_SECONDS)));
    assert_eq!(Duration::between(-1, MAX_SECONDS), None);

    assert_eq!(span(500).checked_sub(&span(200)), Some(span(300)));
    assert_eq!(span(200).checked_sub(&span(500)), Some(span(-300)));
    assert_eq!(span(MAX_SECONDS).checked_sub(&span(-1)), None);
    assert_eq!(span(-MAX_SECONDS).checked_sub(&span(1)), None);
    assert_eq!(span(MAX_SECONDS).checked_sub(&span(MAX_SECONDS)), Some(span(0)));
}

#[test]
fn numerals() {
    let mut out = String::new();
    push_decimal(&mut out, 0);
    assert_eq!(out, "0");
    push_decimal(&mut out, 9);
    push_decimal(&mut out, 10);
    push_decimal(&mut out, 1234567890);
    assert_eq!(out, "09101234567890");

    let mut out = String::from("x");
    push_decimal(&mut out, u64::MAX);
    assert_eq!(out, "x18446744073709551615");

    let mut out = String::new();
    push_integer(&mut out, -42);
    push_integer(&mut out, 0);
    push_integer(&mut out, 7);
    assert_eq!(out, "-4207");

    let mut out = String::new();
    push_integer(&mut out, i64::MIN);
    assert_eq!(out, "-9223372036854775808");

    let mut out = String::new();
    push_signed_integer(&mut out, -42);
    push_signed_integer(&mut out, 0);
    push_signed_integer(&mut out, 7);
    assert_eq!(out, "-42+0+7");

    assert_eq!(magnitude_of(i64::MIN), 9223372036854775808);
    assert_eq!(magnitude_of(-1), 1);
    assert_eq!(magnitude_of(5), 5);

    let digits: String = (0..10u8).map(digit).collect();
    assert_eq!(digits, "0123456789");
}
