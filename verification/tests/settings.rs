use xpalm::config::{server_args, ConfigError, ConsoleArgs, ServerArgs};
use xpalm::throttle::ConnectionThrottle;
use xpalm::watchdog::{IdleWatchdog, WatchdogAction, WatchdogEvent};

fn empty() -> ConsoleArgs {
    ConsoleArgs {
        port: None,
        polling_rate: None,
        authorization_period: None,
        connect_cooldown: None,
        idle_kick: None,
    }
}

#[test]
fn defaults() {
    assert_eq!(
        ServerArgs::from_console(empty()),
        ServerArgs {
            port: 45784,
            polling_rate: 8,
            authorization_period: 30000,
            connect_cooldown: 10000,
            idle_kick: 3000,
        }
    );
}

#[test]
fn given_settings_are_kept() {
    let args = ConsoleArgs {
        port: Some(9000),
        polling_rate: Some(1000),
        authorization_period: Some(1),
        connect_cooldown: Some(0),
        idle_kick: Some(123),
    };
    assert_eq!(
        server_args(args),
        Ok(ServerArgs {
            port: 9000,
            polling_rate: 1,
            authorization_period: 1,
            connect_cooldown: 0,
            idle_kick: 123,
        })
    );
    let slow = ConsoleArgs { polling_rate: Some(1), ..empty() };
    assert_eq!(server_args(slow).unwrap().polling_rate, 1000);
    let odd = ConsoleArgs { polling_rate: Some(333), ..empty() };
    assert_eq!(server_args(odd).unwrap().polling_rate, 3);
}

#[test]
fn polling_rate_bounds() {
    for rate in [0u64, 1001, u64::MAX] {
        let args = ConsoleArgs { polling_rate: Some(rate), ..empty() };
        assert_eq!(server_args(args), Err(ConfigError::InvalidPollingRate));
    }
    for rate in 1..=1000u64 {
        let args = ConsoleArgs { polling_rate: Some(rate), ..empty() };
        let period = server_args(args).unwrap().polling_rate;
        assert!((1..=1000).contains(&period));
    }
}

#[test]
fn throttle_first_request_allowed() {
    let mut t = ConnectionThrottle::new();
    assert!(t.register(7, 100, 50));
    assert!(t.register(8, 100, 50));
}

#[test]
fn throttle_within_cooldown_refused_and_renewed() {
    let mut t = ConnectionThrottle::new();
    assert!(t.register(7, 100, 50));
    assert!(!t.register(7, 150, 50));
    // the refused request started the cooldown anew
    assert!(!t.register(7, 190, 50));
    assert!(t.register(7, 241, 50));
}

#[test]
fn throttle_after_cooldown_allowed() {
    let mut t = ConnectionThrottle::new();
    assert!(t.register(1, 0, 10));
    assert!(t.register(1, 11, 10));
    assert!(!t.register(1, 21, 10));
}

#[test]
fn throttle_clients_independent() {
    let mut t = ConnectionThrottle::new();
    assert!(t.register(1, 0, 10));
    assert!(t.register(2, 1, 10));
    assert!(!t.register(1, 5, 10));
}

#[test]
fn throttle_clock_going_back_counts_as_no_time() {
    let mut t = ConnectionThrottle::new();
    assert!(t.register(1, 1000, 0));
    assert!(!t.register(1, 10, 0));
}

#[test]
fn watchdog_kicks_idle_client() {
    let mut w = IdleWatchdog::new(3000, 0);
    assert_eq!(w.deadline(), 3000);
    assert_eq!(w.step(WatchdogEvent::TimerFired { now: 2999 }), WatchdogAction::WaitUntil(3000));
    assert_eq!(w.step(WatchdogEvent::TimerFired { now: 3000 }), WatchdogAction::Kick);
}

#[test]
fn watchdog_heartbeat_rearms() {
    let mut w = IdleWatchdog::new(3000, 0);
    assert_eq!(w.step(WatchdogEvent::Fed { now: 2500 }), WatchdogAction::WaitUntil(5500));
    assert_eq!(w.last_fed, 2500);
    assert_eq!(w.step(WatchdogEvent::TimerFired { now: 3000 }), WatchdogAction::WaitUntil(5500));
    assert_eq!(w.step(WatchdogEvent::TimerFired { now: 5500 }), WatchdogAction::Kick);
}

#[test]
fn watchdog_deadline_saturates() {
    let w = IdleWatchdog::new(u128::MAX, 5);
    assert_eq!(w.deadline(), u128::MAX);
    let mut w = IdleWatchdog::new(10, 100);
    assert_eq!(w.step(WatchdogEvent::TimerFired { now: 50 }), WatchdogAction::WaitUntil(110));
}
