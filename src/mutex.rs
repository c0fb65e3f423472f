//! The guard over the single shared hardware state.
//!
//! Contention is never waited out: taking a guard that is already held is a
//! reentrancy fault. `try_lock` reports it as a value; `lock` is only callable
//! where the guard is known to be free.

use vstd::prelude::*;

verus! {

/// Why a guard could not be taken.
#[derive(Clone, Copy, Debug, PartialEq, Eq, Structural)]
pub enum LockError {
    /// The guard is already held by an enclosing scope.
    Reentrant,
}

/// A mutual-exclusion cell.
///
/// While the cell is locked its contents live in the one `NeoMutexGuard` that
/// was handed out; the flag and the emptiness of the slot always agree.
pub struct NeoMutex<T> {
    locked: bool,
    value: Option<T>,
}

/// Exclusive access to the contents of a locked `NeoMutex`.
///
/// Give it back with `NeoMutex::unlock` to release the cell.
pub struct NeoMutexGuard<T> {
    value: T,
}

/// What the cell holds: `Some(v)` when it is free and holds `v`, `None` while a
/// guard is out.
pub open spec fn free_with<T>(v: T) -> Option<T> {
    Some(v)
}

/// The state after an attempt to take the guard of a cell in state `s`, and
/// the attempt's outcome (the contents that were handed out, or the fault).
pub open spec fn lock_step<T>(s: Option<T>) -> (Option<T>, Result<T, LockError>) {
    match s {
        Some(v) => (None, Ok(v)),
        None => (None, Err(LockError::Reentrant)),
    }
}

/// The state after a guard holding `v` is given back.
pub open spec fn unlock_step<T>(v: T) -> Option<T> {
    Some(v)
}

impl<T> NeoMutex<T> {
    /// Locking flag and slot agree.
    pub closed spec fn wf(&self) -> bool {
        self.locked <==> self.value is None
    }

    /// `None` while locked, else the contents.
    pub closed spec fn view(&self) -> Option<T> {
        self.value
    }

    /// Whether a guard is out.
    pub open spec fn is_locked(&self) -> bool {
        self@ is None
    }

    /// Create a new cell holding `value`. It starts unlocked.
    pub fn new(value: T) -> (r: NeoMutex<T>)
        ensures
            r.wf(),
            r@ == free_with(value),
    {
        NeoMutex { locked: false, value: Some(value) }
    }

    /// Whether a guard is out.
    pub fn locked(&self) -> (r: bool)
        requires
            self.wf(),
        ensures
            r == self.is_locked(),
    {
        self.locked
    }

    /// Try to take the guard.
    ///
    /// On a cell that is already locked this is a reentrancy fault: the cell is
    /// left as it was and `Err(LockError::Reentrant)` comes back, every time.
    pub fn try_lock(&mut self) -> (r: Result<NeoMutexGuard<T>, LockError>)
        requires
            old(self).wf(),
        ensures
            final(self).wf(),
            final(self)@ == lock_step(old(self)@).0,
            match r {
                Ok(g) => lock_step(old(self)@).1 == Ok::<T, LockError>(g@),
                Err(e) => lock_step(old(self)@).1 == Err::<T, LockError>(e),
            },
    {
        if self.locked {
            return Err(LockError::Reentrant);
        }
        self.locked = true;
        match self.value.take() {
            Some(v) => Ok(NeoMutexGuard { value: v }),
            None => {
                proof {
                    assert(false);
                }
                Err(LockError::Reentrant)
            },
        }
    }

    /// Take the guard of a cell that is known to be free.
    ///
    /// Taking it while it is held is a fault, which callers must rule out
    /// first (see `try_lock`).
    pub fn lock(&mut self) -> (g: NeoMutexGuard<T>)
        requires
            old(self).wf(),
            !old(self).is_locked(),
        ensures
            final(self).wf(),
            final(self).is_locked(),
            lock_step(old(self)@).1 == Ok::<T, LockError>(g@),
    {
        self.locked = true;
        let v = self.value.take().unwrap();
        NeoMutexGuard { value: v }
    }

    /// Give a guard back, releasing the cell with the guard's contents.
    pub fn unlock(&mut self, guard: NeoMutexGuard<T>)
        requires
            old(self).wf(),
            old(self).is_locked(),
        ensures
            final(self).wf(),
            final(self)@ == unlock_step(guard@),
    {
        self.value = Some(guard.value);
        self.locked = false;
    }
}

impl<T> NeoMutexGuard<T> {
    /// The contents held by this guard.
    pub closed spec fn view(&self) -> T {
        self.value
    }

    /// Read access to the contents.
    pub fn get(&self) -> (r: &T)
        ensures
            *r == self@,
    {
        &self.value
    }

    /// Write access to the contents.
    pub fn get_mut(&mut self) -> (r: &mut T)
        ensures
            *r == old(self)@,
            final(self)@ == *final(r),
    {
        &mut self.value
    }
}

/// Releasing a guard always makes the cell available again: after any
/// acquisition and release, the next acquisition succeeds and hands out what
/// was put back.
pub proof fn lemma_release_restores<T>(s: Option<T>, put_back: T)
    requires
        s is Some,
    ensures
        lock_step(s).1 is Ok,
        lock_step(unlock_step(put_back)).1 == Ok::<T, LockError>(put_back),
        !(lock_step(unlock_step(put_back)).0 is Some),
{
}

/// Acquiring a held cell is a fault, the same one every time, and leaves the
/// cell held.
pub proof fn lemma_reentry_faults<T>(s: Option<T>)
    requires
        s is None,
    ensures
        lock_step(s) == (None::<T>, Err::<T, LockError>(LockError::Reentrant)),
{
}

} // verus!
