use rgy::clock::{ClockDivider, PrescaledTimer, Timer};

#[test]
fn test_timer_interval() {
    let mut timer = Timer::enabled();

    timer.set_interval(3);

    assert!(!timer.tick());
    assert!(!timer.tick());
    assert!(timer.tick());
    assert!(!timer.tick());
    assert!(!timer.tick());
    assert!(timer.tick());
    assert!(!timer.tick());
    assert!(!timer.tick());
    assert!(timer.tick());

    timer.set_interval(2);

    assert!(!timer.tick());
    assert!(timer.tick());
    assert!(!timer.tick());
    assert!(timer.tick());
    assert!(!timer.tick());
    assert!(timer.tick());

    timer.set_interval(1);

    assert!(timer.tick());
    assert!(timer.tick());
    assert!(timer.tick());
    assert!(timer.tick());
    assert!(timer.tick());
    assert!(timer.tick());
}

#[test]
fn test_timer_enable_disable() {
    let mut timer = Timer::enabled();

    timer.set_interval(2);

    timer.disable();

    for _ in 0..10 {
        assert!(!timer.tick());
    }

    timer.enable();

    assert!(!timer.tick());
    assert!(timer.tick());
    assert!(!timer.tick());

    timer.disable();

    for _ in 0..10 {
        assert!(!timer.tick());
    }

    timer.enable();

    assert!(timer.tick());
    assert!(!timer.tick());
    assert!(timer.tick());

    timer.disable();

    for _ in 0..10 {
        assert!(!timer.tick());
    }

    timer.enable();

    assert!(!timer.tick());
    assert!(timer.tick());
    assert!(!timer.tick());
    assert!(timer.tick());

    timer = Timer::disabled();

    for _ in 0..10 {
        assert!(!timer.tick());
    }
}

#[test]
fn test_timer_expires_in() {
    let mut timer = Timer::enabled();

    timer.set_interval(3);

    assert_eq!(timer.expires_in(), 3);
    assert!(!timer.tick());
    assert_eq!(timer.expires_in(), 2);
    assert!(!timer.tick());
    assert_eq!(timer.expires_in(), 1);
    assert!(timer.tick());
    assert_eq!(timer.expires_in(), 3);
    assert!(!timer.tick());
    assert_eq!(timer.expires_in(), 2);
    assert!(!timer.tick());
    assert_eq!(timer.expires_in(), 1);
    assert!(timer.tick());
}

#[test]
fn test_timer_zero_interval() {
    let mut timer = Timer::enabled();

    for _ in 0..10 {
        assert!(!timer.tick());
    }

    timer.set_interval(0);

    for _ in 0..10 {
        assert!(!timer.tick());
    }
}

#[test]
fn test_timer_reset() {
    let mut timer = Timer::enabled();

    timer.set_interval(3);

    assert_eq!(timer.expires_in(), 3);
    assert!(!timer.tick());

    timer.reset();

    assert_eq!(timer.expires_in(), 0);

    for _ in 0..10 {
        assert!(!timer.tick());
    }

    assert_eq!(timer.expires_in(), 0);

    timer.set_interval(2);

    assert!(!timer.tick());
    assert!(timer.tick());
    assert!(!timer.tick());
    assert!(timer.tick());
    assert!(!timer.tick());
    assert!(timer.tick());
}

#[test]
fn timer_counter_can_be_set() {
    let mut timer = Timer::enabled();
    timer.set_interval(4);
    timer.set_counter(2);
    assert_eq!(timer.counter(), 2);
    assert_eq!(timer.expires_in(), 2);
    assert!(!timer.tick());
    assert!(timer.tick());
    assert_eq!(timer.counter(), 0);
}

#[test]
fn clock_divider_counts_target_ticks() {
    // 4194304 Hz CPU clock divided down to 1048576 Hz: 4 cycles per tick.
    let mut divider = ClockDivider::new(1_048_576);
    assert_eq!(divider.step(3), 0);
    assert_eq!(divider.step(1), 1);
    assert_eq!(divider.step(9), 2);
    assert!(!divider.step_one(2));
    assert!(divider.step_one(1));
    divider.reset();
    assert_eq!(divider.step(3), 0);
    divider.set_target_clock_rate(4_194_304);
    assert_eq!(divider.step(2), 2);
}

#[test]
fn prescaled_timer_fires_every_interval_ticks() {
    // DIV-like: 16384 Hz ticks (every 256 CPU cycles), expiring every 4 ticks.
    let mut timer = PrescaledTimer::builder()
        .enable()
        .frequency(16384)
        .interval(4)
        .build();
    let mut fired = 0;
    for i in 1..=16 {
        let f = timer.step(256);
        if f {
            fired += 1;
            assert_eq!(i % 4, 0);
        }
    }
    assert_eq!(fired, 4);
    timer.set_counter(3);
    assert_eq!(timer.counter(), 3);
    assert!(timer.step(256));
    timer.disable();
    for _ in 0..8 {
        assert!(!timer.step(256));
    }
}
