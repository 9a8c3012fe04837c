use frameloop::clock::FrameClock;

#[test]
fn first_tick_delta_is_zero_sentinel() {
    // Regardless of the absolute value of the first timestamp.
    let mut c = FrameClock::new();
    assert_eq!(c.tick(0), 0);

    let mut c = FrameClock::new();
    assert_eq!(c.tick(123_456), 0);

    let mut c = FrameClock::new();
    assert_eq!(c.tick(u64::MAX), 0);
}

#[test]
fn monotone_ticks_measure_exact_differences() {
    let mut c = FrameClock::new();
    assert_eq!(c.tick(100), 0);
    assert_eq!(c.tick(116), 16);
    assert_eq!(c.tick(150), 34);
    assert_eq!(c.tick(150), 0);
}

#[test]
fn clock_regression_clamps_to_zero() {
    let mut c = FrameClock::new();
    assert_eq!(c.tick(100), 0);
    assert_eq!(c.tick(40), 0);
    // The regressed timestamp becomes the new reference point.
    assert_eq!(c.tick(50), 10);
}

#[test]
fn delta_for_reads_without_recording() {
    let mut c = FrameClock::new();
    c.record(1000);
    assert_eq!(c.delta_for(1016), 16);
    // Nothing was recorded by the read, so the reference is unchanged.
    assert_eq!(c.delta_for(1032), 32);
    assert_eq!(c.tick(1032), 32);
}
