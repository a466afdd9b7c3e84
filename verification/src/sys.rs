//! Thread identities.

use vstd::prelude::*;

verus! {

/// The identity of one thread of execution.
///
/// An identity is an opaque token: two of them are equal exactly when they
/// stand for the same thread. The embedding program hands every thread one
/// token for its lifetime; where there is a single thread only, every caller
/// presents the same token and each affinity check passes.
#[derive(Clone, Copy, Debug, PartialEq, Eq, Structural, Hash)]
pub struct ThreadId {
    raw: u64,
}

impl View for ThreadId {
    type V = u64;

    closed spec fn view(&self) -> u64 {
        self.raw
    }
}

impl ThreadId {
    /// The identity that stands for the token `raw`.
    pub fn from_raw(raw: u64) -> (id: ThreadId)
        ensures
            id@ == raw,
    {
        ThreadId { raw }
    }

    /// The token behind this identity.
    pub fn as_raw(&self) -> (raw: u64)
        ensures
            raw == self@,
    {
        self.raw
    }
}

/// Whether `a` and `b` name the same thread.
pub fn identity_equals(a: ThreadId, b: ThreadId) -> (same: bool)
    ensures
        same == (a == b),
        same == (a@ == b@),
{
    a.raw == b.raw
}

} // verus!
