//! The spinlock itself: one flag, one payload, one access operation.
//!
//! `Mutex<T>` is verified over an exclusive model of the lock word: the flag
//! is a boolean field and each method states exactly the transition the
//! matching atomic operation performs. Under exclusive access there is no
//! contention, so the compare-and-swap of `with_lock` cannot be refused; the
//! policy a contended caller follows while it waits is fixed, and verified,
//! in [`crate::protocol`], and the shared-memory front end drives real
//! atomics with it.

use vstd::prelude::*;

verus! {

/// A spinlock guarding a payload of type `T`.
///
/// The flag has two values: `false` is unlocked, `true` is locked. The flag
/// gates the payload: only the caller that took the flag may touch `v`, and
/// the payload leaves the critical section exactly as the caller's function
/// left it.
pub struct Mutex<T> {
    locked: bool,
    v: T,
}

impl<T> Mutex<T> {
    /// The state flag: `true` while some caller is inside the critical
    /// section.
    pub closed spec fn locked(&self) -> bool {
        self.locked
    }

    /// The payload the lock guards.
    pub closed spec fn value(&self) -> T {
        self.v
    }

    /// Creates a new, unlocked spinlock owning `t` as its payload.
    pub fn new(t: T) -> (m: Mutex<T>)
        ensures
            !m.locked(),
            m.value() == t,
    {
        Mutex { locked: false, v: t }
    }

    /// One compare-and-swap of the flag, unlocked to locked.
    ///
    /// Succeeds exactly when the flag was clear; a refused attempt changes
    /// nothing. Either way the flag is set afterwards — on refusal because
    /// some other caller already holds it — and the payload is untouched.
    pub fn try_acquire(&mut self) -> (acquired: bool)
        ensures
            acquired == !old(self).locked(),
            final(self).locked(),
            final(self).value() == old(self).value(),
    {
        if self.locked {
            false
        } else {
            self.locked = true;
            true
        }
    }

    /// One plain read of the flag, as the cheap probe of the busy-wait loop.
    pub fn is_locked(&self) -> (r: bool)
        ensures
            r == self.locked(),
    {
        self.locked
    }

    /// Clears the flag, ending the critical section. Only the holder may
    /// release; the payload is untouched.
    pub fn release(&mut self)
        requires
            old(self).locked(),
        ensures
            !final(self).locked(),
            final(self).value() == old(self).value(),
    {
        self.locked = false;
    }

    /// The sole access operation: takes the lock, runs `f` with exclusive
    /// mutable access to the payload, releases, and hands back exactly what
    /// `f` returned.
    ///
    /// A caller already holding the lock is excluded by the precondition: in
    /// shared memory such a call spins against its own flag forever, so the
    /// lock must be free for the call to be owed a return at all.
    pub fn with_lock<R, F: FnOnce(&mut T) -> R>(&mut self, f: F) -> (r: R)
        requires
            !old(self).locked(),
            forall|m: &mut T| mut_ref_current(m) == old(self).value() ==> call_requires(f, (m,)),
        ensures
            !final(self).locked(),
            exists|m: &mut T|
                mut_ref_current(m) == old(self).value()
                    && mut_ref_future(m) == final(self).value()
                    && call_ensures(f, (m,), r),
    {
        let acquired = self.try_acquire();
        assert(acquired);
        let r = f(&mut self.v);
        self.release();
        r
    }
}

} // verus!
