//! The exclusive lock: a guard flag and the protected value.
//!
//! The guard flag is the sole arbiter of access.  An acquirer moves the guard
//! from `Unlocked` to `Locked` with `try_acquire` (the compare-and-set of the
//! runtime lock), works on the value through `value_ref` / `value_mut` (legal
//! only while the guard is held), and gives the lock back with `release`.
//! `with_lock` packages one whole critical section: acquire, run the caller's
//! action on the value, release.

use vstd::prelude::*;

verus! {

/// The two states of the guard flag.
#[derive(Clone, Copy, Debug, PartialEq, Eq, Structural)]
pub enum GuardState {
    /// Nobody holds the lock; an acquisition attempt succeeds.
    Unlocked,
    /// Somebody holds the lock; an acquisition attempt fails.
    Locked,
}

/// An exclusive lock around a value of type `T`.
pub struct Mutex<T> {
    guard: GuardState,
    value: T,
}

impl<T> Mutex<T> {
    /// The guard's current state.
    pub closed spec fn guard_state(self) -> GuardState {
        self.guard
    }

    /// The protected value.
    pub closed spec fn stored(self) -> T {
        self.value
    }

    /// Nobody holds the lock.
    pub open spec fn is_unlocked(self) -> bool {
        self.guard_state() is Unlocked
    }

    /// Somebody holds the lock.
    pub open spec fn is_locked(self) -> bool {
        self.guard_state() is Locked
    }

    /// A new lock: guard `Unlocked`, protected value `t`.
    pub fn new(t: T) -> (m: Mutex<T>)
        ensures
            m.is_unlocked(),
            m.stored() == t,
    {
        Mutex { guard: GuardState::Unlocked, value: t }
    }

    /// One acquisition attempt: the compare-and-set on the guard.  It succeeds
    /// exactly when the guard was `Unlocked`, and then moves it to `Locked`;
    /// on failure nothing changes.  Either way the value is untouched.
    pub fn try_acquire(&mut self) -> (acquired: bool)
        ensures
            acquired == old(self).is_unlocked(),
            acquired ==> final(self).is_locked(),
            !acquired ==> final(self).guard_state() == old(self).guard_state(),
            final(self).stored() == old(self).stored(),
    {
        match self.guard {
            GuardState::Unlocked => {
                self.guard = GuardState::Locked;
                true
            }
            GuardState::Locked => false,
        }
    }

    /// Give the lock back: the guard moves from `Locked` to `Unlocked`, the
    /// value is untouched.  Only the holder may release, so the guard must be
    /// `Locked`; afterwards it no longer is, so a second release of the same
    /// acquisition is ruled out.
    pub fn release(&mut self)
        requires
            old(self).is_locked(),
        ensures
            final(self).is_unlocked(),
            final(self).stored() == old(self).stored(),
    {
        self.guard = GuardState::Unlocked;
    }

    /// Read the protected value.  Mediated access: only while the guard is
    /// held.
    pub fn value_ref(&self) -> (v: &T)
        requires
            self.is_locked(),
        ensures
            *v == self.stored(),
    {
        &self.value
    }

    /// Exclusive mutable access to the protected value.  Mediated access:
    /// only while the guard is held, and the guard stays held while the
    /// borrow lives.
    pub fn value_mut(&mut self) -> (v: &mut T)
        requires
            old(self).is_locked(),
        ensures
            *v == old(self).stored(),
            final(self).stored() == *final(v),
            final(self).guard_state() == old(self).guard_state(),
    {
        &mut self.value
    }

    /// One whole critical section: acquire the lock, run `action` with
    /// exclusive access to the value, release the lock, hand back `action`'s
    /// result.  Afterwards the lock is free again, whatever path `action`
    /// took, and the stored value is exactly what `action` left behind.
    ///
    /// The guard must be free on entry: a lock this thread already holds
    /// would never be released by anybody else, and the acquisition — which
    /// retries until the guard frees — would spin forever.
    pub fn with_lock<R, F: FnOnce(&mut T) -> R>(&mut self, action: F) -> (r: R)
        requires
            old(self).is_unlocked(),
            forall|v: &mut T|
                mut_ref_current(v) == old(self).stored() ==> call_requires(action, (v,)),
        ensures
            final(self).is_unlocked(),
            exists|v: &mut T|
                mut_ref_current(v) == old(self).stored()
                    && mut_ref_future(v) == final(self).stored()
                    && call_ensures(action, (v,), r),
    {
        // The guard was free, so the one attempt succeeds; the runtime shell
        // of this protocol retries the compare-and-set, yielding the
        // processor between attempts, until another thread's release frees
        // the guard.
        let acquired = self.try_acquire();
        assert(acquired);
        let v = self.value_mut();
        let r = action(v);
        self.release();
        r
    }

    /// The guard's state, readable at run time.
    pub fn locked(&self) -> (b: bool)
        ensures
            b == self.is_locked(),
    {
        match self.guard {
            GuardState::Unlocked => false,
            GuardState::Locked => true,
        }
    }
}

} // verus!
