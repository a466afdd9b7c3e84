//! A cell with closure-scoped access and no lock.

use vstd::prelude::*;

verus! {

/// An owner of a value that is reached only inside a closure, with no lock
/// taken: the exclusion that a lock would give is for the caller to provide.
/// Here it is the borrow itself: a writer holds the cell exclusively.
pub struct UnsafeSyncCell<T> {
    value: T,
}

impl<T> UnsafeSyncCell<T> {
    /// The value that the cell owns.
    pub closed spec fn value(&self) -> T {
        self.value
    }

    /// Wraps `value`.
    pub fn new(value: T) -> (cell: UnsafeSyncCell<T>)
        ensures
            cell.value() == value,
    {
        UnsafeSyncCell { value }
    }

    /// Whether `out` is something that `f` may return when it is run on the
    /// value of this cell.
    pub open spec fn with_allows<R, F: FnOnce(&T) -> R>(&self, f: F, out: R) -> bool {
        f.ensures((&self.value(),), out)
    }

    /// Runs `f` on the value and hands back what it returns.
    pub fn with<R, F: FnOnce(&T) -> R>(&self, f: F) -> (out: R)
        requires
            f.requires((&self.value(),)),
        ensures
            self.with_allows(f, out),
    {
        f(&self.value)
    }

    /// Runs `f` on the value, which it may change, and hands back what it
    /// returns: the cell then holds what `f` left.
    pub fn with_mut<R, F: FnOnce(&mut T) -> R>(&mut self, f: F) -> (out: R)
        requires
            forall|v: &mut T| *v == old(self).value() ==> f.requires((v,)),
        ensures
            exists|v: &mut T|
                {
                    &&& *v == old(self).value()
                    &&& *final(v) == final(self).value()
                    &&& f.ensures((v,), out)
                },
    {
        f(&mut self.value)
    }

    /// Unwraps the value.
    pub fn into_inner(self) -> (value: T)
        ensures
            value == self.value(),
    {
        self.value
    }
}

} // verus!
