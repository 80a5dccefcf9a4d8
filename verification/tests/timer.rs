use untitled_physics_simulator::timer::{advance_world_time, WorldTimer};

const SECOND: u64 = 1_000_000_000;

#[test]
fn new_timer_starts_at_zero() {
    let timer = WorldTimer::new(SECOND, SECOND / 10);
    assert_eq!(timer.tick_count, 0);
    assert_eq!(timer.dt, SECOND / 10);
    assert_eq!(timer.simulation_end_time, SECOND);
    assert_eq!(timer.elapsed_nanos(), 0);
    assert!(!timer.is_finished());
}

#[test]
fn advance_adds_one_timestep() {
    let mut timer = WorldTimer::new(SECOND, 250);
    advance_world_time(&mut timer);
    assert_eq!(timer.tick_count, 1);
    assert_eq!(timer.elapsed_nanos(), 250);
    assert_eq!(timer.now(), 250);
    advance_world_time(&mut timer);
    advance_world_time(&mut timer);
    assert_eq!(timer.tick_count, 3);
    assert_eq!(timer.elapsed_nanos(), 750);
    assert_eq!(timer.dt, 250);
    assert_eq!(timer.simulation_end_time, SECOND);
}

#[test]
fn one_second_at_a_tenth_ends_on_tick_eleven() {
    let mut timer = WorldTimer::new(SECOND, SECOND / 10);
    let mut first_terminal = 0;
    for tick in 1..=20u64 {
        advance_world_time(&mut timer);
        if timer.is_finished() && first_terminal == 0 {
            first_terminal = tick;
        }
        assert_eq!(timer.is_finished(), tick >= 11);
    }
    assert_eq!(first_terminal, 11);
}

#[test]
fn time_equal_to_the_duration_is_not_terminal() {
    let mut timer = WorldTimer::new(1000, 100);
    for _ in 0..10 {
        advance_world_time(&mut timer);
    }
    assert_eq!(timer.elapsed_nanos(), 1000);
    assert!(!timer.is_finished());
    advance_world_time(&mut timer);
    assert_eq!(timer.elapsed_nanos(), 1100);
    assert!(timer.is_finished());
}

#[test]
fn first_terminal_tick_is_quotient_plus_one() {
    for (end, dt) in [(0u64, 1u64), (1, 1), (10, 3), (9, 3), (7, 10), (1000, 1)] {
        let mut timer = WorldTimer::new(end, dt);
        let mut tick = 0u64;
        while !timer.is_finished() {
            advance_world_time(&mut timer);
            tick += 1;
        }
        assert_eq!(tick, end / dt + 1);
    }
}

#[test]
fn zero_timestep_never_ends() {
    let mut timer = WorldTimer::new(5, 0);
    for _ in 0..100 {
        assert!(timer.may_advance());
        advance_world_time(&mut timer);
        assert!(!timer.is_finished());
    }
    assert_eq!(timer.elapsed_nanos(), 0);
}

#[test]
fn clock_that_would_overflow_may_not_advance() {
    let timer = WorldTimer { simulation_end_time: 1, tick_count: 1, dt: u64::MAX };
    assert!(!timer.may_advance());
    let timer = WorldTimer { simulation_end_time: 1, tick_count: 0, dt: u64::MAX };
    assert!(timer.may_advance());
    let timer = WorldTimer { simulation_end_time: 1, tick_count: u64::MAX, dt: 0 };
    assert!(!timer.may_advance());
    let timer = WorldTimer { simulation_end_time: 1, tick_count: u64::MAX, dt: u64::MAX };
    assert_eq!(timer.elapsed_nanos(), (u64::MAX as u128) * (u64::MAX as u128));
    assert!(timer.is_finished());
}
