use daylight::{year_stats, Duration, Fraction, YearStats};

fn span(seconds: i64) -> Duration {
    Duration::try_seconds(seconds).unwrap()
}

fn window(lengths: &[i64]) -> Vec<Duration> {
    lengths.iter().map(|s| span(*s)).collect()
}

/// Day lengths that grow for half a year and then shrink again, as at a
/// middle latitude: from ten hours up to fourteen and back.
fn rising_then_falling() -> Vec<i64> {
    let mut lengths = Vec::new();
    for day in 0..366i64 {
        let from_turn = if day <= 183 { day } else { 366 - day };
        lengths.push(36_000 + from_turn * 80);
    }
    lengths
}

#[test]
fn progress_is_the_share_of_the_way_from_shortest_to_longest() {
    let lengths = rising_then_falling();
    let today = lengths[40];
    let stats = year_stats(&window(&lengths), span(today));

    let least = *lengths.iter().min().unwrap();
    let greatest = *lengths.iter().max().unwrap();
    assert_eq!(least, 36_000);
    assert_eq!(greatest, 36_000 + 183 * 80);
    assert_eq!(stats.min, span(least));
    assert_eq!(stats.max, span(greatest));
    assert_eq!(stats.progress, Some(Fraction::new(today - least, greatest - least)));
    assert_eq!(stats.progress, Some(Fraction::new(3_200, 14_640)));

    let ratio = stats.progress.unwrap();
    let expected = (today - least) as f64 / (greatest - least) as f64;
    assert_eq!(ratio.numerator as f64 / ratio.denominator as f64, expected);
}

#[test]
fn documented_example_is_a_quarter() {
    // Shortest day ten hours, longest fourteen, today eleven.
    let stats = year_stats(&window(&[43_200, 36_000, 50_400, 39_600]), span(39_600));
    assert_eq!(stats.min, span(36_000));
    assert_eq!(stats.max, span(50_400));
    assert_eq!(stats.progress, Some(Fraction::new(3_600, 14_400)));
}

#[test]
fn shortest_is_never_above_longest() {
    let mut seed: i64 = 12345;
    for _ in 0..200 {
        let mut lengths = Vec::new();
        for _ in 0..366 {
            seed = (seed * 1_103_515_245 + 12_345) % 2_147_483_648;
            lengths.push(seed % 200_000 - 50_000);
        }
        let stats = year_stats(&window(&lengths), span(lengths[0]));
        assert!(stats.min.num_seconds() <= stats.max.num_seconds());
        assert_eq!(stats.min.num_seconds(), *lengths.iter().min().unwrap());
        assert_eq!(stats.max.num_seconds(), *lengths.iter().max().unwrap());
        match stats.progress {
            Some(ratio) => assert!(ratio.is_in_unit_range()),
            None => assert_eq!(stats.min, stats.max),
        }
    }
}

#[test]
fn same_window_same_statistics() {
    let lengths = window(&rising_then_falling());
    let first: YearStats = year_stats(&lengths, span(40_000));
    let second: YearStats = year_stats(&lengths, span(40_000));
    assert_eq!(first, second);
}

#[test]
fn window_without_variation_has_no_progress() {
    let stats = year_stats(&window(&[43_200; 366]), span(43_200));
    assert_eq!(stats.min, span(43_200));
    assert_eq!(stats.max, span(43_200));
    assert_eq!(stats.progress, None);

    let stats = year_stats(&window(&[43_200]), span(50_000));
    assert_eq!(stats.progress, None);
}

#[test]
fn extremes_at_either_end_of_the_window() {
    let stats = year_stats(&window(&[5, 4, 3, 2, 1]), span(5));
    assert_eq!((stats.min, stats.max), (span(1), span(5)));
    assert_eq!(stats.progress, Some(Fraction::new(4, 4)));

    let stats = year_stats(&window(&[1, 2, 3, 4, 5]), span(1));
    assert_eq!((stats.min, stats.max), (span(1), span(5)));
    assert_eq!(stats.progress, Some(Fraction::new(0, 4)));

    let stats = year_stats(&window(&[2, 7, 7, 2, -3, -3]), span(2));
    assert_eq!((stats.min, stats.max), (span(-3), span(7)));
    assert_eq!(stats.progress, Some(Fraction::new(5, 10)));
}

#[test]
fn current_length_outside_the_window_is_not_clamped() {
    let stats = year_stats(&window(&[100, 200, 300]), span(50));
    assert_eq!(stats.progress, Some(Fraction::new(-50, 200)));
    let stats = year_stats(&window(&[100, 200, 300]), span(400));
    assert_eq!(stats.progress, Some(Fraction::new(300, 200)));
    assert!(!stats.progress.unwrap().is_in_unit_range());
    assert_eq!(stats.progress.unwrap().clamped(), Fraction::new(200, 200));
}
