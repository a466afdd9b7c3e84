//! Cells and future adapters that apply no affinity policy.

use std::future::Future;
use vstd::prelude::*;

verus! {

/// A transparent owner of a value, with nothing stored beside it.
///
/// No operation checks anything: that an access is made from a thread on
/// which the value may be touched is for the caller to guarantee.
pub struct UnsafeSendCell<T> {
    value: T,
}

impl<T> UnsafeSendCell<T> {
    /// The value that the cell owns.
    pub closed spec fn value(&self) -> T {
        self.value
    }

    /// The cell that owns `value`.
    pub closed spec fn spec_new_unchecked(value: T) -> UnsafeSendCell<T> {
        UnsafeSendCell { value }
    }

    /// The cell that owns `value` holds `value`.
    pub proof fn lemma_spec_new_unchecked(value: T)
        ensures
            Self::spec_new_unchecked(value).value() == value,
    {
    }

    /// Wraps `value`.
    pub fn new_unchecked(value: T) -> (cell: UnsafeSendCell<T>)
        ensures
            cell == Self::spec_new_unchecked(value),
            cell.value() == value,
    {
        UnsafeSendCell { value }
    }

    /// The value, by shared reference.
    pub fn get(&self) -> (r: &T)
        ensures
            *r == self.value(),
    {
        &self.value
    }

    /// The value, by exclusive reference: what the caller leaves behind the
    /// reference is what the cell holds afterwards.
    pub fn get_mut(&mut self) -> (r: &mut T)
        ensures
            *r == old(self).value(),
            final(self).value() == *final(r),
    {
        &mut self.value
    }

    /// Unwraps the value.
    pub fn into_inner(self) -> (value: T)
        ensures
            value == self.value(),
    {
        self.value
    }
}

impl<T: Future> UnsafeSendCell<T> {
    /// Turns a cell that owns a computation into an adapter that advances it.
    pub fn into_future(self) -> (future: UnsafeSendFuture<T>)
        ensures
            future.computation() == self.value(),
    {
        UnsafeSendFuture { inner: self }
    }
}

/// An unfinished computation behind no affinity policy: advancing it checks
/// nothing, and the adapter stores nothing beside the computation.
pub struct UnsafeSendFuture<T> {
    inner: UnsafeSendCell<T>,
}

impl<T: Future> UnsafeSendFuture<T> {
    /// The computation in its present state.
    pub closed spec fn computation(&self) -> T {
        self.inner.value()
    }

    /// Advances the computation by one `step` and hands back what the step
    /// yields, unchanged. The step is whatever advances a `T`; the adapter adds
    /// nothing to it and takes nothing from it.
    pub fn poll<R, F: FnOnce(&mut T) -> R>(&mut self, step: F) -> (outcome: R)
        requires
            forall|c: &mut T| *c == old(self).computation() ==> step.requires((c,)),
        ensures
            exists|c: &mut T|
                {
                    &&& *c == old(self).computation()
                    &&& *final(c) == final(self).computation()
                    &&& step.ensures((c,), outcome)
                },
    {
        step(self.inner.get_mut())
    }
}

} // verus!
