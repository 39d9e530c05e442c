use mujoco_app::mode::PhysicsRunningState;
use mujoco_app::scheduler::{PhysicsScheduler, Tick, PAUSED_SLEEP_NANOS};

const TIMESTEP: u64 = 2_000_000;

#[test]
fn zero_timestep_is_refused() {
    assert!(PhysicsScheduler::new(0, 0).is_none());
    assert!(PhysicsScheduler::new(17, 0).is_none());
}

#[test]
fn new_scheduler_starts_at_the_given_instant() {
    let s = PhysicsScheduler::new(123, TIMESTEP).unwrap();
    assert_eq!(s.last_updated(), 123);
    assert_eq!(s.timestep(), TIMESTEP);
}

#[test]
fn paused_resets_marker_and_sleeps_a_millisecond() {
    let mut s = PhysicsScheduler::new(0, TIMESTEP).unwrap();
    let tick = s.poll(PhysicsRunningState::Paused, 9_999_999);
    assert_eq!(tick, Tick { steps: 0, sleep_nanos: 1_000_000, resync: false });
    assert_eq!(PAUSED_SLEEP_NANOS, 1_000_000);
    assert_eq!(s.last_updated(), 9_999_999);
    assert_eq!(s.timestep(), TIMESTEP);
}

#[test]
fn rate_limited_takes_floor_of_elapsed_over_timestep() {
    let mut s = PhysicsScheduler::new(1_000, TIMESTEP).unwrap();
    let tick = s.poll(PhysicsRunningState::RateLimited, 1_000 + 10_000_000);
    assert_eq!(tick, Tick { steps: 5, sleep_nanos: TIMESTEP, resync: false });
    assert_eq!(s.last_updated(), 1_000 + 5 * TIMESTEP);
}

#[test]
fn rate_limited_keeps_the_remainder() {
    let mut s = PhysicsScheduler::new(0, TIMESTEP).unwrap();
    let tick = s.poll(PhysicsRunningState::RateLimited, 7_500_000);
    assert_eq!(tick.steps, 3);
    // the marker moves by whole steps, not to the clock's reading
    assert_eq!(s.last_updated(), 6_000_000);
    let tick = s.poll(PhysicsRunningState::RateLimited, 8_000_000);
    assert_eq!(tick.steps, 1);
    assert_eq!(s.last_updated(), 8_000_000);
}

#[test]
fn rate_limited_with_less_than_a_timestep_takes_no_step() {
    let mut s = PhysicsScheduler::new(500, TIMESTEP).unwrap();
    let tick = s.poll(PhysicsRunningState::RateLimited, 500 + TIMESTEP - 1);
    assert_eq!(tick, Tick { steps: 0, sleep_nanos: TIMESTEP, resync: false });
    assert_eq!(s.last_updated(), 500);
}

#[test]
fn rate_limited_with_clock_before_marker_takes_no_step() {
    let mut s = PhysicsScheduler::new(5_000_000, TIMESTEP).unwrap();
    let tick = s.poll(PhysicsRunningState::RateLimited, 1_000_000);
    assert_eq!(tick.steps, 0);
    assert_eq!(s.last_updated(), 5_000_000);
}

#[test]
fn rate_limited_at_the_end_of_the_clock_does_not_overflow() {
    let mut s = PhysicsScheduler::new(0, 3).unwrap();
    let tick = s.poll(PhysicsRunningState::RateLimited, u64::MAX);
    assert_eq!(tick.steps, u64::MAX / 3);
    assert_eq!(s.last_updated(), (u64::MAX / 3) * 3);
}

#[test]
fn uncapped_takes_one_step_without_sleep_and_asks_for_resync() {
    let mut s = PhysicsScheduler::new(40, TIMESTEP).unwrap();
    let tick = s.poll(PhysicsRunningState::Uncapped, 1_000_000_000);
    assert_eq!(tick, Tick { steps: 1, sleep_nanos: 0, resync: true });
    assert_eq!(s.last_updated(), 40);
    s.resync(1_000_000_123);
    assert_eq!(s.last_updated(), 1_000_000_123);
    assert_eq!(s.timestep(), TIMESTEP);
}

#[test]
fn short_polls_add_up_to_one_long_poll() {
    let start: u64 = 77;
    let end: u64 = start + 1_000_000_000;
    let mut many = PhysicsScheduler::new(start, TIMESTEP).unwrap();
    let mut total: u64 = 0;
    let mut now = start;
    // polls 700 microseconds apart, which is less than one timestep
    while now < end {
        now = if end - now < 700_000 { end } else { now + 700_000 };
        total += many.poll(PhysicsRunningState::RateLimited, now).steps;
    }
    let mut one = PhysicsScheduler::new(start, TIMESTEP).unwrap();
    let single = one.poll(PhysicsRunningState::RateLimited, end).steps;
    assert_eq!(single, 500);
    assert_eq!(total, single);
    assert_eq!(many.last_updated(), one.last_updated());
    assert_eq!(one.last_updated(), start + 500 * TIMESTEP);
}

#[test]
fn pause_of_any_length_is_not_caught_up() {
    let mut s = PhysicsScheduler::new(0, TIMESTEP).unwrap();
    assert_eq!(s.poll(PhysicsRunningState::RateLimited, 4_000_000).steps, 2);
    // an hour in pause, looked at once a second
    let hour: u64 = 3_600_000_000_000;
    let mut now: u64 = 4_000_000;
    while now < hour {
        now += 1_000_000_000;
        assert_eq!(s.poll(PhysicsRunningState::Paused, now).steps, 0);
    }
    assert_eq!(s.last_updated(), now);
    // the mode leaves pause: nothing is owed at the same instant, and only
    // the time since the last paused look counts afterwards
    assert_eq!(s.poll(PhysicsRunningState::RateLimited, now).steps, 0);
    assert_eq!(s.poll(PhysicsRunningState::RateLimited, now + 1_999_999).steps, 0);
    assert_eq!(s.poll(PhysicsRunningState::RateLimited, now + 6_000_000).steps, 3);
}

#[test]
fn rate_limited_after_uncapped_counts_from_the_resync() {
    let mut s = PhysicsScheduler::new(0, TIMESTEP).unwrap();
    let tick = s.poll(PhysicsRunningState::Uncapped, 50_000_000);
    assert!(tick.resync);
    s.resync(50_000_400);
    // the mode is now rate-limited: the accumulator starts from the resync
    let tick = s.poll(PhysicsRunningState::RateLimited, 50_000_400 + 4_100_000);
    assert_eq!(tick, Tick { steps: 2, sleep_nanos: TIMESTEP, resync: false });
    assert_eq!(s.last_updated(), 50_000_400 + 4_000_000);
}
