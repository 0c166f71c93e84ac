use idle_proxy::clock::ActivityClock;
use idle_proxy::watchdog::{TickAction, Watchdog, WatchdogState};

#[test]
fn new_watchdog_is_running() {
    let watchdog = Watchdog::new(900_000);
    assert_eq!(watchdog.state(), WatchdogState::Running);
    assert_eq!(watchdog.idle_timeout(), 900_000);
}

#[test]
fn tick_within_the_timeout_changes_nothing() {
    let clock = ActivityClock::new(0);
    let mut watchdog = Watchdog::new(2_000);
    assert_eq!(watchdog.tick(&clock, 1_000), TickAction::Continue);
    assert_eq!(watchdog.state(), WatchdogState::Running);
    assert_eq!(watchdog.idle_timeout(), 2_000);
}

#[test]
fn tick_at_exactly_the_timeout_does_not_terminate() {
    let clock = ActivityClock::new(500);
    let mut watchdog = Watchdog::new(2_000);
    assert_eq!(watchdog.tick(&clock, 2_500), TickAction::Continue);
    assert_eq!(watchdog.state(), WatchdogState::Running);
}

#[test]
fn tick_one_past_the_timeout_terminates() {
    let clock = ActivityClock::new(500);
    let mut watchdog = Watchdog::new(2_000);
    assert_eq!(watchdog.tick(&clock, 2_501), TickAction::Terminate);
    assert_eq!(watchdog.state(), WatchdogState::Terminating);
}

#[test]
fn terminating_is_terminal_and_asks_only_once() {
    let mut clock = ActivityClock::new(0);
    let mut watchdog = Watchdog::new(10);
    assert_eq!(watchdog.tick(&clock, 11), TickAction::Terminate);
    assert_eq!(watchdog.tick(&clock, 12), TickAction::Continue);
    assert_eq!(watchdog.state(), WatchdogState::Terminating);
    clock.touch(13);
    assert_eq!(watchdog.tick(&clock, 13), TickAction::Continue);
    assert_eq!(watchdog.state(), WatchdogState::Terminating);
}

#[test]
fn tick_before_the_last_touch_sees_no_idle_time() {
    let clock = ActivityClock::new(5_000);
    let mut watchdog = Watchdog::new(0);
    assert_eq!(watchdog.tick(&clock, 4_000), TickAction::Continue);
    assert_eq!(watchdog.tick(&clock, 5_000), TickAction::Continue);
    assert_eq!(watchdog.tick(&clock, 5_001), TickAction::Terminate);
}

#[test]
fn default_timeout_fires_after_fifteen_minutes() {
    let clock = ActivityClock::new(0);
    let mut watchdog = Watchdog::new(idle_proxy::config::DEFAULT_IDLE_TIMEOUT_MS);
    assert_eq!(watchdog.tick(&clock, 900_000), TickAction::Continue);
    assert_eq!(watchdog.tick(&clock, 900_999), TickAction::Terminate);
}

#[test]
fn requests_within_the_timeout_keep_the_watchdog_running() {
    let mut clock = ActivityClock::new(0);
    let mut watchdog = Watchdog::new(2_000);
    let mut now: u64 = 0;
    for _ in 0..50 {
        now += 1_000;
        assert_eq!(watchdog.tick(&clock, now), TickAction::Continue);
        now += 1_000;
        assert_eq!(watchdog.tick(&clock, now), TickAction::Continue);
        clock.touch(now);
    }
    assert_eq!(watchdog.state(), WatchdogState::Running);
}

#[test]
fn idle_run_ends_within_one_tick_of_the_deadline() {
    let clock = ActivityClock::new(300);
    let mut watchdog = Watchdog::new(2_500);
    let interval: u64 = 1_000;
    let deadline: u64 = 300 + 2_500;
    let mut now: u64 = 0;
    let mut ended_at: Option<u64> = None;
    for _ in 0..10 {
        now += interval;
        if watchdog.tick(&clock, now) == TickAction::Terminate {
            ended_at = Some(now);
            break;
        }
    }
    let ended_at = ended_at.unwrap();
    assert_eq!(ended_at, 3_000);
    assert!(ended_at > deadline);
    assert!(ended_at <= deadline + interval);
}
