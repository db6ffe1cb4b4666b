use nnsdk::TimeSpan;

#[test]
fn constructors_count_nanoseconds() {
    assert_eq!(TimeSpan::from_nanos(17).as_nanos(), 17);
    assert_eq!(TimeSpan::from_micros(3).as_nanos(), 3_000);
    assert_eq!(TimeSpan::from_millis(3).as_nanos(), 3_000_000);
    assert_eq!(TimeSpan::from_secs(3).as_nanos(), 3_000_000_000);
}

#[test]
fn conversions_round_down() {
    let t = TimeSpan::from_nanos(5_678_901_234);
    assert_eq!(t.as_micros(), 5_678_901);
    assert_eq!(t.as_millis(), 5_678);
    assert_eq!(t.as_secs(), 5);
    assert_eq!(TimeSpan::from_nanos(999).as_micros(), 0);
}

#[test]
fn largest_seconds_that_fit() {
    let secs = u64::MAX / 1_000_000_000;
    assert_eq!(TimeSpan::from_secs(secs).as_secs(), secs);
}
