//! The idle watchdog of a client: every heartbeat rearms it, and a client
//! that sends none for the idle-kick time is kicked.

use vstd::prelude::*;

use crate::throttle::elapsed;

verus! {

/// What the watchdog hears of.
#[derive(Debug, Clone, Copy, PartialEq, Eq, Structural)]
pub enum WatchdogEvent {
    /// The client sent a heartbeat at `now`.
    Fed { now: u128 },
    /// The timer set for the last deadline went off at `now`.
    TimerFired { now: u128 },
}

/// What to do after an event.
#[derive(Debug, Clone, Copy, PartialEq, Eq, Structural)]
pub enum WatchdogAction {
    /// Wait for a heartbeat, or for the timer at this deadline.
    WaitUntil(u128),
    /// Kick the client.
    Kick,
}

/// When a client last fed at `last_fed` is due to be kicked (the largest time
/// where the sum does not fit).
pub open spec fn spec_deadline(last_fed: u128, idle_kick: u128) -> u128 {
    if last_fed + idle_kick <= u128::MAX {
        (last_fed + idle_kick) as u128
    } else {
        u128::MAX
    }
}

/// Whether a client last fed at `last_fed` has been idle for `idle_kick` by
/// `now`.
pub open spec fn spec_expired(last_fed: u128, idle_kick: u128, now: u128) -> bool {
    elapsed(last_fed, now) >= idle_kick
}

/// The watchdog of one client, times in a unit of the caller's choice.
#[derive(Debug, Clone, Copy, PartialEq, Eq, Structural)]
pub struct IdleWatchdog {
    /// How long a client may stay idle.
    pub idle_kick: u128,
    /// When the client last fed the watchdog (or connected).
    pub last_fed: u128,
}

impl IdleWatchdog {
    /// A watchdog for a client that connected at `now`.
    pub fn new(idle_kick: u128, now: u128) -> (r: Self)
        ensures
            r.idle_kick == idle_kick,
            r.last_fed == now,
    {
        IdleWatchdog { idle_kick, last_fed: now }
    }

    /// When the client is due to be kicked, barring a heartbeat.
    pub fn deadline(&self) -> (r: u128)
        ensures
            r == spec_deadline(self.last_fed, self.idle_kick),
    {
        if self.last_fed <= u128::MAX - self.idle_kick {
            self.last_fed + self.idle_kick
        } else {
            u128::MAX
        }
    }

    /// Takes an event and says what to do: a heartbeat rearms the watchdog; a
    /// timer that goes off once the client has been idle for the idle-kick
    /// time kicks it, and one that goes off early waits on.
    pub fn step(&mut self, event: WatchdogEvent) -> (r: WatchdogAction)
        ensures
            final(self).idle_kick == old(self).idle_kick,
            match event {
                WatchdogEvent::Fed { now } => {
                    &&& final(self).last_fed == now
                    &&& r == WatchdogAction::WaitUntil(spec_deadline(now, old(self).idle_kick))
                },
                WatchdogEvent::TimerFired { now } => {
                    &&& final(self).last_fed == old(self).last_fed
                    &&& r == if spec_expired(old(self).last_fed, old(self).idle_kick, now) {
                        WatchdogAction::Kick
                    } else {
                        WatchdogAction::WaitUntil(
                            spec_deadline(old(self).last_fed, old(self).idle_kick),
                        )
                    }
                },
            },
    {
        match event {
            WatchdogEvent::Fed { now } => {
                self.last_fed = now;
                WatchdogAction::WaitUntil(self.deadline())
            },
            WatchdogEvent::TimerFired { now } => {
                let idle = if now >= self.last_fed {
                    now - self.last_fed
                } else {
                    0
                };
                if idle >= self.idle_kick {
                    WatchdogAction::Kick
                } else {
                    WatchdogAction::WaitUntil(self.deadline())
                }
            },
        }
    }
}

/// A client that fed the watchdog at `fed` is not kicked before the idle-kick
/// time has passed.
pub proof fn lemma_not_kicked_early(idle_kick: u128, fed: u128, now: u128)
    requires
        fed <= now,
        now - fed < idle_kick,
    ensures
        !spec_expired(fed, idle_kick, now),
{
}

/// A client that fed the watchdog at `fed` is kicked when the timer goes off
/// at its deadline, where the deadline is reachable.
pub proof fn lemma_kicked_at_deadline(idle_kick: u128, fed: u128)
    requires
        fed + idle_kick <= u128::MAX,
    ensures
        spec_expired(fed, idle_kick, spec_deadline(fed, idle_kick)),
{
}

/// A client counts as idle for good once the idle-kick time has passed since
/// it last fed the watchdog: at every time from then on, not only at the
/// deadline; before then it does not. (A clock read before the feeding time
/// counts as no time passed.)
pub proof fn lemma_expiry_exact(idle_kick: u128, fed: u128, now: u128)
    ensures
        fed <= now ==> (spec_expired(fed, idle_kick, now) <==> now - fed >= idle_kick),
        now < fed ==> (spec_expired(fed, idle_kick, now) <==> idle_kick == 0),
{
}

/// Expiry does not wear off: a client idle by `earlier` is still idle at any
/// later time.
pub proof fn lemma_expiry_monotone(idle_kick: u128, fed: u128, earlier: u128, later: u128)
    requires
        fed <= earlier <= later,
        spec_expired(fed, idle_kick, earlier),
    ensures
        spec_expired(fed, idle_kick, later),
{
}

/// The deadline is the idle-kick time after the last feeding: the client is
/// idle there, and at no time from the feeding up to it.
pub proof fn lemma_deadline_is_first_expiry(idle_kick: u128, fed: u128, t: u128)
    requires
        fed + idle_kick <= u128::MAX,
    ensures
        spec_deadline(fed, idle_kick) == fed + idle_kick,
        spec_expired(fed, idle_kick, spec_deadline(fed, idle_kick)),
        fed <= t < spec_deadline(fed, idle_kick) ==> !spec_expired(fed, idle_kick, t),
{
}

} // verus!
