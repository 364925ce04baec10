//! A try-lock cell for state shared between the one thread of control and its
//! re-entrant visitors (interrupt-context or panic-time printing).
//!
//! Taking the lock while it is already held fails immediately with
//! [`LockError`] rather than deadlocking. Here the exclusivity is realized by
//! ownership transfer: locking checks the value out of the cell into a guard,
//! and unlocking checks it back in, so the locked state is exactly "the value
//! is out on loan".

use vstd::prelude::*;
use vstd::pervasive::unreached;

verus! {

/// A failure to lock the cell because it was already locked.
#[derive(Clone, Copy, PartialEq, Eq, Structural, Debug)]
pub struct LockError;

/// A cell whose contents can be checked out by at most one holder at a time.
pub struct CsRefCell<T> {
    /// The value, present exactly while nobody holds the lock.
    pub slot: Option<T>,
}

/// An active borrow of a [`CsRefCell`]: the checked-out value.
pub struct CsRefCellGuard<T> {
    pub value: T,
}

impl<T> CsRefCell<T> {
    /// Is the value currently checked out?
    pub open spec fn is_locked(self) -> bool {
        self.slot is None
    }

    /// Create a new, unlocked cell.
    pub fn new(value: T) -> (r: CsRefCell<T>)
        ensures
            r.slot == Some(value),
            !r.is_locked(),
    {
        CsRefCell { slot: Some(value) }
    }

    /// Try and grab the lock: it fails, changing nothing, exactly when the
    /// lock is already taken.
    pub fn try_lock(&mut self) -> (r: Result<CsRefCellGuard<T>, LockError>)
        ensures
            old(self).is_locked() ==> r is Err && final(self).slot == old(self).slot,
            !old(self).is_locked() ==> match r {
                Ok(guard) => Some(guard.value) == old(self).slot && final(self).is_locked(),
                Err(_) => false,
            },
    {
        match self.slot.take() {
            Some(value) => Ok(CsRefCellGuard { value }),
            None => Err(LockError),
        }
    }

    /// Lock the cell. Locking an already-locked cell is a re-entrancy bug in
    /// the caller, so it is ruled out rather than handled.
    pub fn lock(&mut self) -> (r: CsRefCellGuard<T>)
        requires
            !old(self).is_locked(),
        ensures
            Some(r.value) == old(self).slot,
            final(self).is_locked(),
    {
        match self.slot.take() {
            Some(value) => CsRefCellGuard { value },
            None => unreached(),
        }
    }

    /// Return a checked-out value, releasing the lock.
    pub fn unlock(&mut self, guard: CsRefCellGuard<T>)
        requires
            old(self).is_locked(),
        ensures
            final(self).slot == Some(guard.value),
            !final(self).is_locked(),
    {
        self.slot = Some(guard.value);
    }
}

} // verus!
