//! The cancellable, resettable delay primitive behind both loops, as an
//! explicit state machine: a deadline plus a registry of suspended
//! waiters. `set` and `wake` move the deadline and release every waiter
//! currently registered — never a subset; a waiter that polls and finds
//! the deadline reached is released at once, one that finds it pending
//! registers itself and suspends. The async plumbing that parks tasks and
//! calls wakers drives these transitions from outside; every transition
//! itself is decided here.
use vstd::prelude::*;

verus! {

/// Timer state: the current deadline (an instant in the caller's clock,
/// milliseconds) and the identities of the suspended waiters.
pub struct HalfSleep {
    deadline: u64,
    waiters: Vec<u64>,
}

impl HalfSleep {
    /// The instant at which pending sleeps resolve.
    pub closed spec fn deadline(&self) -> u64 {
        self.deadline
    }

    /// Waiters currently registered, in registration order.
    pub closed spec fn waiters(&self) -> Seq<u64> {
        self.waiters@
    }

    /// The deadline has been reached at instant `now`.
    pub open spec fn expired(&self, now: u64) -> bool {
        now >= self.deadline()
    }

    /// A fresh timer is born expired: the first sleep on it resolves
    /// immediately until someone arms it with `set`.
    pub fn new() -> (timer: Self)
        ensures
            timer.deadline() == 0,
            timer.waiters() == Seq::<u64>::empty(),
            forall|now: u64| timer.expired(now),
    {
        HalfSleep { deadline: 0, waiters: Vec::new() }
    }

    /// Arm the timer `duration_ms` past `now` (saturating) and release
    /// every currently registered waiter: each released waiter re-polls
    /// and picks up the new deadline rather than resolving a second time.
    pub fn set(&mut self, now: u64, duration_ms: u64) -> (released: Vec<u64>)
        ensures
            final(self).deadline() == if now + duration_ms <= u64::MAX {
                (now + duration_ms) as u64
            } else {
                u64::MAX
            },
            released@ == old(self).waiters(),
            final(self).waiters() == Seq::<u64>::empty(),
    {
        self.deadline = if duration_ms <= u64::MAX - now {
            now + duration_ms
        } else {
            u64::MAX
        };
        let mut released: Vec<u64> = Vec::new();
        core::mem::swap(&mut released, &mut self.waiters);
        released
    }

    /// Force immediate expiry: move the deadline to `now` and release
    /// every waiter. Equivalent to `set(now, 0)`; used to interrupt an
    /// in-flight wait when a control event arrives.
    pub fn wake(&mut self, now: u64) -> (released: Vec<u64>)
        ensures
            final(self).deadline() == now,
            final(self).expired(now),
            released@ == old(self).waiters(),
            final(self).waiters() == Seq::<u64>::empty(),
    {
        self.set(now, 0)
    }

    /// One waiter polls at instant `now`: it is released exactly when the
    /// deadline is reached (releasing everyone registered with it);
    /// otherwise it registers itself and suspends.
    pub fn poll(&mut self, now: u64, waiter: u64) -> (released: bool)
        ensures
            released == old(self).expired(now),
            final(self).deadline() == old(self).deadline(),
            released ==> final(self).waiters() == Seq::<u64>::empty(),
            !released ==> final(self).waiters() == old(self).waiters().push(waiter),
    {
        if now >= self.deadline {
            self.waiters = Vec::new();
            true
        } else {
            self.waiters.push(waiter);
            false
        }
    }
}

/// Once woken at instant `now`, the timer stays expired at every later
/// instant until re-armed: a sleep still in progress resolves at its very
/// next poll, within one bounded tick. Together with `wake`'s guarantee
/// that the released batch is the whole waiter registry, no concurrent
/// waiter is ever starved: a second waiter on the same timer leaves in
/// the same batch as the first.
pub proof fn lemma_wake_resolves_pending_sleeps(timer: &HalfSleep, now: u64, later: u64)
    requires
        timer.deadline() <= now <= later,
    ensures
        timer.expired(later),
{
}

} // verus!
