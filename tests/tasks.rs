use latency_probe::config::{WATCHDOG_PET_INTERVAL_MS, WATCHDOG_TIMEOUT_MS};
use latency_probe::scheduler::{boot, boot_with, next_tier, BootError, SpawnError, TaskKind, TaskPool, Tier};
use latency_probe::ticker::PeriodicTicker;
use latency_probe::watchdog::{KeeperAction, KeeperError, Watchdog, WatchdogKeeper};

#[test]
fn stall_longer_than_timeout_resets() {
    let mut k = WatchdogKeeper::new(WATCHDOG_TIMEOUT_MS, WATCHDOG_PET_INTERVAL_MS).unwrap();
    let s = k.start(0);
    assert_eq!(s.action, KeeperAction::Unleash);
    assert_eq!(s.wake_at, 10_000);
    let s = k.on_wake(10_000);
    assert_eq!(s.action, KeeperAction::Pet);
    assert_eq!(s.wake_at, 20_000);
    // the low tier stalls for 25 s from here on
    let stall_end = 10_000 + 25_000;
    let reset = k.dog.resets_at().unwrap();
    assert_eq!(reset, 30_000);
    assert!(reset < stall_end);
    assert!(!k.dog.is_expired(29_999));
    assert!(k.dog.is_expired(30_000));
}

#[test]
fn nominal_keeper_keeps_watchdog_alive() {
    let mut k = WatchdogKeeper::new(WATCHDOG_TIMEOUT_MS, WATCHDOG_PET_INTERVAL_MS).unwrap();
    let mut wake = k.start(0).wake_at;
    for _ in 0..10 {
        let now = wake + 5;
        assert!(!k.dog.is_expired(now));
        wake = k.on_wake(now).wake_at;
    }
}

#[test]
fn keeper_rejects_bad_timing() {
    assert_eq!(WatchdogKeeper::new(0, 0).unwrap_err(), KeeperError::ZeroTimeout);
    assert_eq!(WatchdogKeeper::new(10, 10).unwrap_err(), KeeperError::IntervalTooLong);
    assert!(WatchdogKeeper::new(10, 9).is_ok());
}

#[test]
fn unarmed_watchdog_never_resets() {
    let mut d = Watchdog::new(5);
    assert!(!d.is_expired(1_000));
    assert_eq!(d.resets_at(), None);
    d.unleash(3);
    assert_eq!(d.resets_at(), Some(8));
    d.pet(6);
    assert!(!d.is_expired(10));
    assert!(d.is_expired(11));
}

#[test]
fn ticker_deadlines_do_not_drift() {
    let mut t = PeriodicTicker::every(0, 20);
    assert!(!t.poll(19));
    assert!(t.poll(23));
    assert_eq!(t.next_deadline, 40);
    assert!(t.poll(95));
    assert_eq!(t.next_deadline, 60);
    assert!(t.poll(95));
    assert!(t.poll(95));
    assert_eq!(t.next_deadline, 100);
    assert!(!t.poll(95));
    assert_eq!(t.fires, 4);
}

#[test]
fn boot_fills_both_pools() {
    let b = boot().unwrap();
    assert_eq!(b.high.tasks, vec![TaskKind::Response]);
    assert_eq!(b.low.tasks, vec![TaskKind::Stimulus, TaskKind::Heartbeat, TaskKind::Keeper]);
    assert_eq!(b.high_priority, 6);
}

#[test]
fn boot_aborts_on_capacity_mismatch() {
    assert_eq!(boot_with(0, 3).unwrap_err(), BootError::PoolExhausted(Tier::High));
    assert_eq!(boot_with(2, 3).unwrap_err(), BootError::CapacityMismatch(Tier::High));
    assert_eq!(boot_with(1, 2).unwrap_err(), BootError::PoolExhausted(Tier::Low));
    assert_eq!(boot_with(1, 4).unwrap_err(), BootError::CapacityMismatch(Tier::Low));
}

#[test]
fn spawn_into_full_pool_fails() {
    let mut p = TaskPool::new(Tier::High, 1);
    assert_eq!(p.spawn(TaskKind::Response), Ok(()));
    assert!(p.is_full());
    assert_eq!(p.spawn(TaskKind::Response), Err(SpawnError::Busy));
    assert_eq!(p.tasks.len(), 1);
}

#[test]
fn high_tier_served_first() {
    assert_eq!(next_tier(true, true), Some(Tier::High));
    assert_eq!(next_tier(false, true), Some(Tier::Low));
    assert_eq!(next_tier(false, false), None);
}
