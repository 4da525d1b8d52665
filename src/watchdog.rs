//! The hardware deadman switch and the low-tier task that keeps it alive.
use vstd::prelude::*;

verus! {

/// A countdown with a fixed timeout. Once armed it cannot be disarmed; the
/// device resets when `timeout` ticks pass without a refresh.
#[derive(Clone, Copy, Debug, PartialEq, Eq, Structural)]
pub struct Watchdog {
    pub timeout: u64,
    pub armed: bool,
    pub last_refresh: u64,
}

impl Watchdog {
    /// At tick `now` the countdown has run out and the device is reset.
    pub open spec fn expired(self, now: int) -> bool {
        self.armed && now >= self.last_refresh + self.timeout
    }

    /// An unarmed watchdog with the given timeout.
    pub fn new(timeout: u64) -> (r: Watchdog)
        requires
            timeout > 0,
        ensures
            r.timeout == timeout,
            !r.armed,
            r.last_refresh == 0,
    {
        Watchdog { timeout, armed: false, last_refresh: 0 }
    }

    /// Arms the countdown at tick `now`.
    pub fn unleash(&mut self, now: u64)
        ensures
            final(self).timeout == old(self).timeout,
            final(self).armed,
            final(self).last_refresh == now,
    {
        self.armed = true;
        self.last_refresh = now;
    }

    /// Refreshes the countdown at tick `now`; an armed watchdog stays armed.
    pub fn pet(&mut self, now: u64)
        ensures
            final(self).timeout == old(self).timeout,
            final(self).armed == old(self).armed,
            final(self).last_refresh == now,
    {
        self.last_refresh = now;
    }

    /// Whether the device has been reset by tick `now`.
    pub fn is_expired(&self, now: u64) -> (r: bool)
        ensures
            r == self.expired(now as int),
    {
        self.armed && now as u128 >= self.last_refresh as u128 + self.timeout as u128
    }

    /// The tick at which the device resets unless refreshed before, or
    /// `None` while unarmed.
    pub fn resets_at(&self) -> (r: Option<u64>)
        requires
            self.last_refresh + self.timeout <= u64::MAX,
        ensures
            r is Some <==> self.armed,
            r matches Some(t) ==> t == self.last_refresh + self.timeout && self.expired(t as int)
                && !self.expired(t - 1),
    {
        if self.armed {
            Some(self.last_refresh + self.timeout)
        } else {
            None
        }
    }
}

/// A refresh that came less than a timeout ago keeps an armed watchdog from
/// resetting the device; once a whole timeout passes without one, the reset
/// has happened, at the latest one timeout after the last refresh.
pub proof fn lemma_reset_iff_silent_for_timeout(dog: Watchdog, now: int)
    requires
        dog.armed,
    ensures
        dog.expired(now) <==> now - dog.last_refresh >= dog.timeout,
        dog.expired(dog.last_refresh + dog.timeout),
{
}

/// What the keeper asks the firmware to do to the watchdog.
#[derive(Clone, Copy, Debug, PartialEq, Eq, Structural)]
pub enum KeeperAction {
    Unleash,
    Pet,
}

/// The keeper's decision: an action on the watchdog, then sleep until
/// `wake_at`.
#[derive(Clone, Copy, Debug, PartialEq, Eq, Structural)]
pub struct KeeperStep {
    pub action: KeeperAction,
    pub wake_at: u64,
}

/// The deadman-switch supervisor: arms the watchdog once, then refreshes it
/// after every sleep of `interval` ticks.
#[derive(Clone, Copy, Debug, PartialEq, Eq, Structural)]
pub struct WatchdogKeeper {
    pub dog: Watchdog,
    pub interval: u64,
}

/// Why a keeper cannot be built.
#[derive(Clone, Copy, Debug, PartialEq, Eq, Structural)]
pub enum KeeperError {
    /// The timeout is zero.
    ZeroTimeout,
    /// The sleep between refreshes is not strictly shorter than the timeout.
    IntervalTooLong,
}

impl WatchdogKeeper {
    /// The sleep is strictly shorter than the timeout.
    pub open spec fn wf(self) -> bool {
        0 < self.dog.timeout && self.interval < self.dog.timeout
    }

    /// A keeper for a watchdog with `timeout`, refreshing every `interval`.
    pub fn new(timeout: u64, interval: u64) -> (r: Result<WatchdogKeeper, KeeperError>)
        ensures
            r is Err <==> timeout == 0 || interval >= timeout,
            r == Err::<WatchdogKeeper, KeeperError>(KeeperError::ZeroTimeout) <==> timeout == 0,
            r matches Ok(k) ==> {
                &&& k.wf()
                &&& k.dog.timeout == timeout
                &&& !k.dog.armed
                &&& k.interval == interval
            },
    {
        if timeout == 0 {
            Err(KeeperError::ZeroTimeout)
        } else if interval >= timeout {
            Err(KeeperError::IntervalTooLong)
        } else {
            Ok(WatchdogKeeper { dog: Watchdog::new(timeout), interval })
        }
    }

    /// The task starts at tick `now`: arm the watchdog, then sleep.
    pub fn start(&mut self, now: u64) -> (r: KeeperStep)
        requires
            old(self).wf(),
            now + old(self).interval <= u64::MAX,
        ensures
            final(self).wf(),
            final(self).interval == old(self).interval,
            final(self).dog.timeout == old(self).dog.timeout,
            final(self).dog.armed,
            final(self).dog.last_refresh == now,
            r.action == KeeperAction::Unleash,
            r.wake_at == now + old(self).interval,
    {
        self.dog.unleash(now);
        KeeperStep { action: KeeperAction::Unleash, wake_at: now + self.interval }
    }

    /// The sleep ended at tick `now`: refresh the watchdog, then sleep again.
    pub fn on_wake(&mut self, now: u64) -> (r: KeeperStep)
        requires
            old(self).wf(),
            now + old(self).interval <= u64::MAX,
        ensures
            final(self).wf(),
            final(self).interval == old(self).interval,
            final(self).dog.timeout == old(self).dog.timeout,
            final(self).dog.armed == old(self).dog.armed,
            final(self).dog.last_refresh == now,
            r.action == KeeperAction::Pet,
            r.wake_at == now + old(self).interval,
    {
        self.dog.pet(now);
        KeeperStep { action: KeeperAction::Pet, wake_at: now + self.interval }
    }
}

/// Under nominal operation the keeper wakes at most `jitter` ticks late, and
/// its sleep plus that lateness stays under the timeout: then each refresh
/// follows the one before it by strictly less than the timeout, and the
/// watchdog does not reset the device before the next refresh.
pub proof fn lemma_nominal_keeper_never_resets(k: WatchdogKeeper, jitter: int, next: int)
    requires
        k.wf(),
        k.dog.armed,
        jitter >= 0,
        k.interval + jitter < k.dog.timeout,
        k.dog.last_refresh + k.interval <= next <= k.dog.last_refresh + k.interval + jitter,
    ensures
        next - k.dog.last_refresh < k.dog.timeout,
        forall|t: int| t <= next ==> !k.dog.expired(t),
{
}

} // verus!
