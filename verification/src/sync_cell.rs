//! A cell with closure-scoped access behind a lock.
//!
//! The lock guards no data of its own and is held exactly while a closure runs
//! on the value. No guard is ever handed out, so the lock cannot stay held
//! after the closure has returned. An access never waits: where the lock is
//! held it reports [`LockError::Held`] at once, and the caller decides whether
//! and how to wait before it asks again. A closure that panics poisons the
//! lock, and every later access reports [`LockError::Poisoned`].

use crate::unsafe_sync_cell::UnsafeSyncCell;
use std::sync::Mutex;
use std::sync::MutexGuard;
use vstd::prelude::*;

verus! {

/// `std::sync::Mutex`, carried as an opaque value.
#[verifier::external_type_specification]
#[verifier::external_body]
#[verifier::reject_recursive_types(T)]
pub struct ExMutex<T: ?Sized>(Mutex<T>);

/// `std::sync::MutexGuard`, carried as an opaque value.
#[verifier::external_type_specification]
#[verifier::external_body]
#[verifier::reject_recursive_types(T)]
pub struct ExMutexGuard<'a, T: ?Sized + 'a>(MutexGuard<'a, T>);

/// Why an access did not run.
#[derive(Clone, Copy, Debug, PartialEq, Eq, Structural)]
pub enum LockError {
    /// A closure panicked while the lock was held.
    Poisoned,
    /// The lock is held at this moment, by another access of this thread or
    /// of any other.
    Held,
}

/// `Mutex::new` on the unit value: a lock that nobody holds. Nothing is
/// claimed of it.
#[verifier::external_body]
fn new_lock() -> Mutex<()> {
    Mutex::new(())
}

/// `Mutex::try_lock`: takes the lock if it is free and answers at once in any
/// case; it never waits, also where the calling thread holds the lock
/// itself. The guard releases the lock when it is dropped, also while a panic
/// unwinds. A lock that was held during a panic answers with an error that
/// carries the guard; the guard is dropped here with the error, so the lock is
/// free again and only the fact is reported. Which of the three comes back
/// depends on what this and other threads did before, so nothing is claimed
/// of it.
#[verifier::external_body]
fn try_acquire<'a>(lock: &'a Mutex<()>) -> Result<MutexGuard<'a, ()>, LockError> {
    match lock.try_lock() {
        Ok(guard) => Ok(guard),
        Err(std::sync::TryLockError::Poisoned(_)) => Err(LockError::Poisoned),
        Err(std::sync::TryLockError::WouldBlock) => Err(LockError::Held),
    }
}

/// Runs `f` on the value of `inner` once a lock has been asked for: `access`
/// is the answer. With the guard, `f` runs while the guard lives and its
/// result comes back; with an error, `f` does not run and the error comes
/// back as it is.
pub fn with_access<'a, T, R, F: FnOnce(&T) -> R>(
    inner: &UnsafeSyncCell<T>,
    access: Result<MutexGuard<'a, ()>, LockError>,
    f: F,
) -> (r: Result<R, LockError>)
    requires
        f.requires((&inner.value(),)),
    ensures
        access is Ok <==> r is Ok,
        r matches Ok(out) ==> inner.with_allows(f, out),
        access matches Err(e) ==> r == Err::<R, LockError>(e),
{
    match access {
        Ok(_held) => Ok(inner.with(f)),
        Err(e) => Err(e),
    }
}

/// Runs `f` on the value of `inner`, which it may change, once a lock has been
/// asked for: `access` is the answer. With the guard, `f` runs while the guard
/// lives, its result comes back and `inner` holds what `f` left; with an
/// error, `f` does not run, the value stays and the error comes back as it is.
pub fn with_mut_access<'a, T, R, F: FnOnce(&mut T) -> R>(
    inner: &mut UnsafeSyncCell<T>,
    access: Result<MutexGuard<'a, ()>, LockError>,
    f: F,
) -> (r: Result<R, LockError>)
    requires
        forall|v: &mut T| *v == old(inner).value() ==> f.requires((v,)),
    ensures
        access is Ok <==> r is Ok,
        r matches Ok(out) ==> exists|v: &mut T|
            {
                &&& *v == old(inner).value()
                &&& *final(v) == final(inner).value()
                &&& f.ensures((v,), out)
            },
        access matches Err(e) ==> r == Err::<R, LockError>(e),
        r is Err ==> final(inner).value() == old(inner).value(),
{
    match access {
        Ok(_held) => Ok(inner.with_mut(f)),
        Err(e) => Err(e),
    }
}

/// A value and the lock that every access passes.
pub struct SyncCell<T> {
    inner: UnsafeSyncCell<T>,
    lock: Mutex<()>,
}

impl<T> SyncCell<T> {
    /// The value that the cell owns.
    pub closed spec fn value(&self) -> T {
        self.inner.value()
    }

    /// Wraps `value` behind a fresh lock.
    pub fn new(value: T) -> (cell: SyncCell<T>)
        ensures
            cell.value() == value,
    {
        SyncCell { inner: UnsafeSyncCell::new(value), lock: new_lock() }
    }

    /// Whether `r` is something that [`SyncCell::with`] may return for `f`: a
    /// result of `f` on the value of this cell, or either error.
    pub open spec fn with_allows<R, F: FnOnce(&T) -> R>(
        &self,
        f: F,
        r: Result<R, LockError>,
    ) -> bool {
        r matches Ok(out) ==> f.ensures((&self.value(),), out)
    }

    /// Asks for the lock without waiting. Where it is free, takes it, runs `f`
    /// on the value, releases it, and hands back what `f` returned. Where it
    /// is held, also by an access of this thread that is still running, `f`
    /// does not run and `Held` comes back at once. Where a closure panicked
    /// under it, `f` does not run and `Poisoned` comes back.
    pub fn with<R, F: FnOnce(&T) -> R>(&self, f: F) -> (r: Result<R, LockError>)
        requires
            f.requires((&self.value(),)),
        ensures
            self.with_allows(f, r),
    {
        let access = try_acquire(&self.lock);
        with_access(&self.inner, access, f)
    }

    /// Asks for the lock without waiting. Where it is free, takes it, runs `f`
    /// on the value, which it may change, releases it, and hands back what `f`
    /// returned: the cell then holds what `f` left. Where the lock is held or
    /// poisoned, `f` does not run, the value stays and the error says which.
    pub fn with_mut<R, F: FnOnce(&mut T) -> R>(&mut self, f: F) -> (r: Result<R, LockError>)
        requires
            forall|v: &mut T| *v == old(self).value() ==> f.requires((v,)),
        ensures
            r matches Ok(out) ==> exists|v: &mut T|
                {
                    &&& *v == old(self).value()
                    &&& *final(v) == final(self).value()
                    &&& f.ensures((v,), out)
                },
            r is Err ==> final(self).value() == old(self).value(),
    {
        let access = try_acquire(&self.lock);
        with_mut_access(&mut self.inner, access, f)
    }

    /// Unwraps the value. The lock is not taken: whoever can give the cell away
    /// is alone with it.
    pub fn into_inner(self) -> (value: T)
        ensures
            value == self.value(),
    {
        self.inner.into_inner()
    }
}

/// What a cell behind a lock hands back as the result of a closure, a cell
/// without a lock that holds the same value may hand back too: the lock decides
/// whether the closure runs, and adds nothing to what it returns.
pub proof fn law_lock_adds_nothing<T, R, F: FnOnce(&T) -> R>(
    locked: SyncCell<T>,
    plain: UnsafeSyncCell<T>,
    f: F,
    out: R,
)
    requires
        locked.value() == plain.value(),
        locked.with_allows(f, Ok(out)),
    ensures
        plain.with_allows(f, out),
{
}

} // verus!
