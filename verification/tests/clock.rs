use cubic::FrameClock;

#[test]
fn first_tick_has_zero_delta_and_no_sleep() {
    let clock = FrameClock::new(60_000);
    let (delta, sleep) = clock.begin_tick(123_456_789);
    assert_eq!(delta, 0);
    assert_eq!(sleep, 0);
}

#[test]
fn interval_for_60_hz_is_16_667_ms_rounded_down() {
    let clock = FrameClock::new(60_000);
    assert_eq!(clock.interval_nanos(), 16_666_666);
    let float_interval_nanos = 1.0_f64 / 60.0 * 1_000_000_000.0;
    assert_eq!(clock.interval_nanos(), float_interval_nanos as u64);
}

#[test]
fn one_millihertz_rate_gives_a_thousand_second_interval() {
    let clock = FrameClock::new(1);
    assert_eq!(clock.interval_nanos(), 1_000_000_000_000);
}

#[test]
fn fast_frame_sleeps_the_remaining_budget() {
    let mut clock = FrameClock::new(60_000);
    clock.end_tick(1_000);
    let (delta, sleep) = clock.begin_tick(5_001_000);
    assert_eq!(delta, 5_000_000);
    assert_eq!(sleep, 16_666_666 - 5_000_000);
    assert_eq!(delta + sleep, clock.interval_nanos());
}

#[test]
fn slow_frame_does_not_sleep() {
    let mut clock = FrameClock::new(60_000);
    clock.end_tick(0);
    let (delta, sleep) = clock.begin_tick(20_000_000);
    assert_eq!(delta, 20_000_000);
    assert_eq!(sleep, 0);
}

#[test]
fn exactly_on_budget_frame_does_not_sleep() {
    let mut clock = FrameClock::new(60_000);
    clock.end_tick(0);
    let (delta, sleep) = clock.begin_tick(16_666_666);
    assert_eq!(delta, 16_666_666);
    assert_eq!(sleep, 0);
}

#[test]
fn planned_ticks_stay_at_least_one_interval_apart() {
    let mut clock = FrameClock::new(250_000);
    let interval = clock.interval_nanos();
    let mut now = 0_u64;
    clock.end_tick(now);
    for step in [100_u64, 4_000_000, 1, 500_000, 10_000_000] {
        now += step;
        let (delta, sleep) = clock.begin_tick(now);
        assert!(delta + sleep >= interval);
        assert!(sleep <= interval);
        now += sleep;
        clock.end_tick(now);
    }
}

#[test]
fn non_advancing_instant_counts_as_zero_elapsed() {
    let mut clock = FrameClock::new(60_000);
    clock.end_tick(1_000_000);
    let (delta, sleep) = clock.begin_tick(999_999);
    assert_eq!(delta, 0);
    assert_eq!(sleep, clock.interval_nanos());
}
