use audioforge::timebase::{rescale, rescale_ts, try_rescale, try_rescale_ts, TimeBase, NO_TIMESTAMP};

#[test]
fn rescale_milliseconds_to_samples() {
    let ms = TimeBase::new(1, 1000);
    let hz = TimeBase::new(1, 44100);
    // 1 ms is 44.1 sample ticks; rounds to the nearest tick.
    assert_eq!(rescale(1, ms, hz), 44);
    assert_eq!(rescale(2, ms, hz), 88);
    assert_eq!(rescale(1000, ms, hz), 44100);
}

#[test]
fn rescale_rounds_ties_away_from_zero() {
    let half = TimeBase::new(1, 2);
    let unit = TimeBase::new(1, 1);
    assert_eq!(rescale(1, half, unit), 1);
    assert_eq!(rescale(-1, half, unit), -1);
    assert_eq!(rescale(3, half, unit), 2);
    assert_eq!(rescale(-3, half, unit), -2);
}

#[test]
fn rescale_identity_between_equal_bases() {
    let hz = TimeBase::new(1, 44100);
    assert_eq!(rescale(88200, hz, hz), 88200);
    assert_eq!(rescale(-7, hz, hz), -7);
    assert_eq!(rescale(0, hz, hz), 0);
}

#[test]
fn rescale_general_rational_bases() {
    let from = TimeBase::new(3, 7);
    let to = TimeBase::new(2, 5);
    // 10 ticks of 3/7 s = 30/7 s = (30/7)*(5/2) = 75/7 = 10.71... ticks of 2/5 s.
    assert_eq!(rescale(10, from, to), 11);
}

#[test]
fn rescale_ts_passes_boundary_timestamps_through() {
    let ms = TimeBase::new(1, 1000);
    let hz = TimeBase::new(1, 48000);
    assert_eq!(rescale_ts(NO_TIMESTAMP, ms, hz), NO_TIMESTAMP);
    assert_eq!(rescale_ts(i64::MAX, ms, hz), i64::MAX);
    assert_eq!(rescale_ts(1, ms, hz), 48);
    assert_eq!(try_rescale_ts(NO_TIMESTAMP, ms, hz), Some(NO_TIMESTAMP));
    assert_eq!(try_rescale_ts(i64::MAX, ms, hz), Some(i64::MAX));
    assert_eq!(try_rescale_ts(1, ms, hz), Some(48));
    let coarse = TimeBase::new(2_000_000_000, 1);
    let fine = TimeBase::new(1, 2_000_000_000);
    assert_eq!(try_rescale_ts(i64::MAX - 1, coarse, fine), None);
}

#[test]
fn try_rescale_reports_overflow() {
    let coarse = TimeBase::new(2_000_000_000, 1);
    let fine = TimeBase::new(1, 2_000_000_000);
    // i64::MAX ticks of 2e9 s each cannot be expressed in 0.5 ns ticks.
    assert_eq!(try_rescale(i64::MAX, coarse, fine), None);
    assert_eq!(try_rescale(i64::MIN + 1, coarse, fine), None);
    let hz = TimeBase::new(1, 44100);
    assert_eq!(try_rescale(88200, hz, hz), Some(88200));
}

#[test]
fn per_sample_time_base() {
    let tb = TimeBase::per_sample(44100);
    assert_eq!(tb.num, 1);
    assert_eq!(tb.den, 44100);
}
