use factory_core::clock::{
    only_on_tick, TickClock, CLOCK_UNITS_PER_SECOND, PROGRESS_ONE, QUARTER_SPEED_TICK, TICK_SPEED,
};

#[test]
fn new_clock_has_no_progress_and_no_tick() {
    let clock = TickClock::new();
    assert_eq!(clock.get_tick_progress(), 0);
    assert!(!clock.is_tick_this_frame());
    assert!(!only_on_tick(&clock));
}

#[test]
fn default_clock_equals_new_clock() {
    let clock = TickClock::default();
    assert_eq!(clock.get_tick_progress(), 0);
    assert!(!clock.is_tick_this_frame());
}

#[test]
fn tick_is_one_sixth_of_a_second() {
    assert_eq!(TICK_SPEED * 6, CLOCK_UNITS_PER_SECOND);
    assert_eq!(QUARTER_SPEED_TICK, TICK_SPEED * 4);
}

#[test]
fn short_frames_accumulate_without_tick() {
    let mut clock = TickClock::new();
    let mut last = clock.get_tick_progress();
    for dt in [1_000_000u64, 5_000_000, 0, 20_000_000, 33_999_999] {
        clock.advance(dt);
        assert!(!clock.is_tick_this_frame());
        let now = clock.get_tick_progress();
        assert!(now >= last);
        last = now;
    }
    // 59_999_999 of 60_000_000 units: just short of a whole tick.
    assert_eq!(last, 999_999);
}

#[test]
fn frame_of_exactly_one_tick_ticks_and_resets() {
    let mut clock = TickClock::new();
    clock.advance(TICK_SPEED);
    assert!(clock.is_tick_this_frame());
    assert_eq!(clock.get_tick_progress(), 0);
}

#[test]
fn three_thirds_of_a_tick_tick_once() {
    let mut clock = TickClock::new();
    let third = TICK_SPEED / 3;
    clock.advance(third);
    assert!(!clock.is_tick_this_frame());
    clock.advance(third);
    assert!(!clock.is_tick_this_frame());
    clock.advance(third);
    assert!(clock.is_tick_this_frame());
    assert_eq!(clock.get_tick_progress(), 0);
}

#[test]
fn tenth_of_a_second_frames_tick_once_in_three() {
    let mut clock = TickClock::new();
    let dt = CLOCK_UNITS_PER_SECOND / 10;
    let mut ticks = Vec::new();
    for _ in 0..3 {
        clock.advance(dt);
        ticks.push(clock.is_tick_this_frame());
    }
    // 0.2 s already passes the tick boundary at 1/6 s.
    assert_eq!(ticks, vec![false, true, false]);
    // 0.3 s is 0.1333 s past the tick boundary: 0.8 of a tick.
    assert_eq!(clock.get_tick_progress(), 800_000);
    assert!(clock.get_tick_progress() < PROGRESS_ONE);
}

#[test]
fn tick_flag_clears_on_the_next_short_frame() {
    let mut clock = TickClock::new();
    clock.advance(TICK_SPEED + 1);
    assert!(clock.is_tick_this_frame());
    clock.advance(1);
    assert!(!clock.is_tick_this_frame());
    assert_eq!(clock.get_tick_progress(), 0);
}

#[test]
fn long_frame_signals_a_single_tick_and_drops_whole_ticks() {
    let mut clock = TickClock::new();
    clock.advance(TICK_SPEED * 5 / 2);
    assert!(clock.is_tick_this_frame());
    assert_eq!(clock.get_tick_progress(), 500_000);
}

#[test]
fn largest_frame_does_not_overflow() {
    let mut clock = TickClock::new();
    clock.advance(TICK_SPEED - 1);
    clock.advance(u64::MAX);
    assert!(clock.is_tick_this_frame());
    // (TICK_SPEED - 1 + u64::MAX) mod TICK_SPEED, computed in u128.
    let expected = ((TICK_SPEED as u128 - 1 + u64::MAX as u128) % TICK_SPEED as u128) as u64;
    assert_eq!(
        clock.get_tick_progress(),
        expected * PROGRESS_ONE / TICK_SPEED
    );
}

#[test]
fn quarter_speed_clock_needs_four_times_as_long() {
    let mut clock = TickClock::new_quarter_speed();
    clock.advance(TICK_SPEED);
    assert!(!clock.is_tick_this_frame());
    assert_eq!(clock.get_tick_progress(), 250_000);
    clock.advance(TICK_SPEED * 3);
    assert!(clock.is_tick_this_frame());
    assert_eq!(clock.get_tick_progress(), 0);
}
