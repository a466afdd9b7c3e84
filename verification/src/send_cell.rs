//! Cells and future adapters that admit an access only from the thread that
//! made them.
//!
//! A [`SendCell`] records the identity of the thread it is made on. Every
//! checked operation is handed the identity of the thread that calls it and is
//! owed only where the two agree; [`SendCell::check`] is the test to make
//! beforehand, and its error is the [`AffinityViolation`] to fail with. The
//! `try_*` operations make the test themselves and hand back either what was
//! asked for or the violation, with the cell untouched. The `*_unchecked`
//! operations take no identity and test nothing.

use crate::sys::ThreadId;
use crate::unsafe_send_cell::UnsafeSendCell;
use std::future::Future;
use vstd::prelude::*;
use vstd::string::StringExecFns;

verus! {

/// What was being attempted when an affinity check was made.
#[derive(Clone, Copy, Debug, PartialEq, Eq, Structural)]
pub enum Operation {
    /// Reading or writing the wrapped value.
    Access,
    /// Unwrapping the value.
    IntoInner,
    /// Dropping a cell whose value has teardown of its own.
    Drop,
    /// Advancing a wrapped computation.
    Poll,
}

/// An operation was attempted from a thread other than the one recorded in the
/// cell. It is a programming error: the caller is expected to stop, not to
/// retry.
#[derive(Clone, Copy, Debug, PartialEq, Eq, Structural)]
pub struct AffinityViolation {
    /// What was attempted.
    pub operation: Operation,
    /// The thread recorded in the cell.
    pub owner: ThreadId,
    /// The thread that made the attempt.
    pub caller: ThreadId,
}

/// The outcome of testing `caller` against `owner` for `operation`: nothing to
/// report where they agree, the violation where they differ.
pub open spec fn verdict(operation: Operation, owner: ThreadId, caller: ThreadId) -> Result<
    (),
    AffinityViolation,
> {
    if caller == owner {
        Ok(())
    } else {
        Err(AffinityViolation { operation, owner, caller })
    }
}

/// The outcome of testing a drop: a value without teardown of its own may be
/// dropped anywhere, any other only on the owning thread.
pub open spec fn drop_verdict(needs_drop: bool, owner: ThreadId, caller: ThreadId) -> Result<
    (),
    AffinityViolation,
> {
    if needs_drop {
        verdict(Operation::Drop, owner, caller)
    } else {
        Ok(())
    }
}

/// The text of a violation of `operation` on a cell whose value is of the type
/// that `wrapped` names.
pub open spec fn message_text(operation: Operation, wrapped: Seq<char>) -> Seq<char> {
    match operation {
        Operation::Access => "Access SendCell<"@ + wrapped + "> from incorrect thread"@,
        Operation::IntoInner => "Unwrap SendCell<"@ + wrapped + "> from incorrect thread"@,
        Operation::Drop => "Drop SendCell<"@ + wrapped + "> from incorrect thread"@,
        Operation::Poll => "SendFuture<"@ + wrapped + "> polled from incorrect thread"@,
    }
}

/// Tests `caller` against `owner`.
pub fn check_affinity(operation: Operation, owner: ThreadId, caller: ThreadId) -> (r: Result<
    (),
    AffinityViolation,
>)
    ensures
        r == verdict(operation, owner, caller),
{
    if caller == owner {
        Ok(())
    } else {
        Err(AffinityViolation { operation, owner, caller })
    }
}

impl AffinityViolation {
    /// The violation in words, naming the wrapped type.
    pub fn message(&self, wrapped: &str) -> (text: String)
        ensures
            text@ == message_text(self.operation, wrapped@),
    {
        let mut text = match self.operation {
            Operation::Access => "Access SendCell<".to_owned(),
            Operation::IntoInner => "Unwrap SendCell<".to_owned(),
            Operation::Drop => "Drop SendCell<".to_owned(),
            Operation::Poll => "SendFuture<".to_owned(),
        };
        text.append(wrapped);
        match self.operation {
            Operation::Poll => text.append("> polled from incorrect thread"),
            _ => text.append("> from incorrect thread"),
        }
        text
    }
}

/// `std::mem::needs_drop`: whether dropping a `T` may run any code. Nothing is
/// claimed of the answer; callers are verified for both.
#[verifier::external_body]
fn needs_drop_of<T>() -> bool {
    std::mem::needs_drop::<T>()
}

/// A value together with the identity of the thread that wrapped it.
pub struct SendCell<T> {
    inner: UnsafeSendCell<T>,
    thread_id: ThreadId,
}

impl<T> SendCell<T> {
    /// The wrapped value.
    pub closed spec fn value(&self) -> T {
        self.inner.value()
    }

    /// The thread recorded when the cell was made.
    pub closed spec fn owner(&self) -> ThreadId {
        self.thread_id
    }

    /// The cell that holds `value` for the thread `owner`.
    pub closed spec fn spec_new(value: T, owner: ThreadId) -> SendCell<T> {
        SendCell { inner: UnsafeSendCell::spec_new_unchecked(value), thread_id: owner }
    }

    /// The cell that holds `value` for `owner` has that value and that owner.
    pub proof fn lemma_spec_new(value: T, owner: ThreadId)
        ensures
            Self::spec_new(value, owner).value() == value,
            Self::spec_new(value, owner).owner() == owner,
    {
        UnsafeSendCell::lemma_spec_new_unchecked(value);
    }

    /// Wraps `t` for the thread `current`, which is the thread that calls.
    pub fn new(t: T, current: ThreadId) -> (cell: SendCell<T>)
        ensures
            cell == Self::spec_new(t, current),
            cell.value() == t,
            cell.owner() == current,
    {
        proof {
            Self::lemma_spec_new(t, current);
        }
        SendCell { inner: UnsafeSendCell::new_unchecked(t), thread_id: current }
    }

    /// Tests whether the thread `current` may perform `operation` on this cell.
    /// The cell is not touched.
    pub fn check(&self, operation: Operation, current: ThreadId) -> (r: Result<
        (),
        AffinityViolation,
    >)
        ensures
            r == verdict(operation, self.owner(), current),
    {
        check_affinity(operation, self.thread_id, current)
    }

    /// The value, with no test made.
    pub fn get_unchecked(&self) -> (r: &T)
        ensures
            *r == self.value(),
    {
        self.inner.get()
    }

    /// The value, for the owning thread.
    pub fn get(&self, current: ThreadId) -> (r: &T)
        requires
            current == self.owner(),
        ensures
            *r == self.value(),
    {
        self.get_unchecked()
    }

    /// Tests the thread `current` and reads the value in one step: the value
    /// for the owning thread, the violation for any other, which gets no
    /// reference.
    pub fn try_get(&self, current: ThreadId) -> (r: Result<&T, AffinityViolation>)
        ensures
            r is Ok <==> current == self.owner(),
            r matches Ok(v) ==> *v == self.value(),
            r matches Err(e) ==> verdict(Operation::Access, self.owner(), current) == Err::<
                (),
                AffinityViolation,
            >(e),
    {
        match self.check(Operation::Access, current) {
            Ok(()) => Ok(self.get(current)),
            Err(e) => Err(e),
        }
    }

    /// The value by exclusive reference, with no test made.
    pub fn get_unchecked_mut(&mut self) -> (r: &mut T)
        ensures
            *r == old(self).value(),
            final(self).value() == *final(r),
            final(self).owner() == old(self).owner(),
    {
        self.inner.get_mut()
    }

    /// The value by exclusive reference, for the owning thread. What the caller
    /// leaves behind the reference is what the cell holds afterwards; the owner
    /// stays.
    pub fn get_mut(&mut self, current: ThreadId) -> (r: &mut T)
        requires
            current == old(self).owner(),
        ensures
            *r == old(self).value(),
            final(self).value() == *final(r),
            final(self).owner() == old(self).owner(),
    {
        self.get_unchecked_mut()
    }

    /// Tests the thread `current` and borrows the value exclusively in one
    /// step. For the owning thread, what the caller leaves behind the
    /// reference is what the cell holds afterwards. Any other thread gets the
    /// violation and no reference, and the cell stays as it was.
    pub fn try_get_mut(&mut self, current: ThreadId) -> (r: Result<&mut T, AffinityViolation>)
        ensures
            r is Ok <==> current == old(self).owner(),
            r matches Ok(v) ==> *v == old(self).value() && final(self).value() == *final(v),
            final(self).owner() == old(self).owner(),
            r matches Err(e) ==> *final(self) == *old(self) && verdict(
                Operation::Access,
                old(self).owner(),
                current,
            ) == Err::<(), AffinityViolation>(e),
    {
        match self.check(Operation::Access, current) {
            Ok(()) => Ok(self.get_mut(current)),
            Err(e) => Err(e),
        }
    }

    /// Unwraps the value, with no test made.
    pub fn into_unchecked_inner(self) -> (t: T)
        ensures
            t == self.value(),
    {
        self.inner.into_inner()
    }

    /// Unwraps the value, for the owning thread.
    pub fn into_inner(self, current: ThreadId) -> (t: T)
        requires
            current == self.owner(),
        ensures
            t == self.value(),
    {
        self.into_unchecked_inner()
    }

    /// Tests the thread `current` and unwraps the value in one step: the value
    /// for the owning thread; for any other the violation and the cell itself,
    /// untouched, so that the value is not given away.
    pub fn try_into_inner(self, current: ThreadId) -> (r: Result<
        T,
        (AffinityViolation, SendCell<T>),
    >)
        ensures
            r is Ok <==> current == self.owner(),
            r matches Ok(t) ==> t == self.value(),
            r matches Err(refused) ==> refused.1 == self && verdict(
                Operation::IntoInner,
                self.owner(),
                current,
            ) == Err::<(), AffinityViolation>(refused.0),
    {
        match self.check(Operation::IntoInner, current) {
            Ok(()) => Ok(self.into_inner(current)),
            Err(e) => Err((e, self)),
        }
    }

    /// The cell that holds `new` for the owner of this one.
    pub open spec fn spec_preserving_cell_thread<U>(&self, new: U) -> SendCell<U> {
        SendCell::spec_new(new, self.owner())
    }

    /// Wraps `new` for the thread recorded in this cell, whichever thread
    /// calls. That `new` may be used on that thread is for the caller to know.
    pub fn preserving_cell_thread<U>(&self, new: U) -> (cell: SendCell<U>)
        ensures
            cell == self.spec_preserving_cell_thread(new),
            cell.value() == new,
            cell.owner() == self.owner(),
    {
        proof {
            SendCell::lemma_spec_new(new, self.owner());
        }
        SendCell { inner: UnsafeSendCell::new_unchecked(new), thread_id: self.thread_id }
    }

    /// A second cell with a copy of the value and the same owner.
    pub fn copying(&self) -> (copy: SendCell<T>) where T: Copy
        ensures
            copy == self.spec_preserving_cell_thread(self.value()),
            copy.value() == self.value(),
            copy.owner() == self.owner(),
    {
        self.preserving_cell_thread(*self.get_unchecked())
    }

    /// Tests a drop by the thread `current`, given whether the value has
    /// teardown of its own.
    pub fn check_drop_with(&self, needs_drop: bool, current: ThreadId) -> (r: Result<
        (),
        AffinityViolation,
    >)
        ensures
            r == drop_verdict(needs_drop, self.owner(), current),
    {
        if needs_drop {
            self.check(Operation::Drop, current)
        } else {
            Ok(())
        }
    }

    /// Tests a drop by the thread `current`. The owning thread may always drop;
    /// another thread may where `T` has no teardown of its own.
    pub fn check_drop(&self, current: ThreadId) -> (r: Result<(), AffinityViolation>)
        ensures
            exists|needs_drop: bool| r == drop_verdict(needs_drop, self.owner(), current),
            current == self.owner() ==> r is Ok,
    {
        let needs_drop = needs_drop_of::<T>();
        self.check_drop_with(needs_drop, current)
    }
}

impl<T: Future> SendCell<T> {
    /// Turns a cell that owns a computation into an adapter that advances it,
    /// with the same owner.
    pub fn into_future(self) -> (future: SendFuture<T>)
        ensures
            future.computation() == self.value(),
            future.owner() == self.owner(),
    {
        SendFuture { inner: self.inner, thread_id: self.thread_id }
    }
}

/// An unfinished computation together with the identity of the thread that
/// wrapped it. The adapter may move to any thread; the computation is advanced
/// only on its own.
pub struct SendFuture<T> {
    inner: UnsafeSendCell<T>,
    thread_id: ThreadId,
}

impl<T: Future> SendFuture<T> {
    /// The computation in its present state.
    pub closed spec fn computation(&self) -> T {
        self.inner.value()
    }

    /// The thread recorded when the computation was wrapped.
    pub closed spec fn owner(&self) -> ThreadId {
        self.thread_id
    }

    /// Tests whether the thread `current` may advance the computation. The
    /// computation is not touched.
    pub fn check(&self, current: ThreadId) -> (r: Result<(), AffinityViolation>)
        ensures
            r == verdict(Operation::Poll, self.owner(), current),
    {
        check_affinity(Operation::Poll, self.thread_id, current)
    }

    /// Advances the computation by one `step`, for the owning thread, and hands
    /// back what the step yields, unchanged: the outcome and the state left
    /// behind are those of applying `step` to the computation itself.
    pub fn poll<R, F: FnOnce(&mut T) -> R>(&mut self, current: ThreadId, step: F) -> (outcome: R)
        requires
            current == old(self).owner(),
            forall|c: &mut T| *c == old(self).computation() ==> step.requires((c,)),
        ensures
            final(self).owner() == old(self).owner(),
            exists|c: &mut T|
                {
                    &&& *c == old(self).computation()
                    &&& *final(c) == final(self).computation()
                    &&& step.ensures((c,), outcome)
                },
    {
        step(self.inner.get_mut())
    }

    /// Tests the thread `current` and advances the computation in one step.
    /// For the owning thread the outcome and the state left behind are those of
    /// applying `step` to the computation itself. For any other thread `step`
    /// does not run, the computation stays as it was, and the violation comes
    /// back.
    pub fn try_poll<R, F: FnOnce(&mut T) -> R>(&mut self, current: ThreadId, step: F) -> (r:
        Result<R, AffinityViolation>)
        requires
            forall|c: &mut T| *c == old(self).computation() ==> step.requires((c,)),
        ensures
            r is Ok <==> current == old(self).owner(),
            final(self).owner() == old(self).owner(),
            r matches Ok(outcome) ==> exists|c: &mut T|
                {
                    &&& *c == old(self).computation()
                    &&& *final(c) == final(self).computation()
                    &&& step.ensures((c,), outcome)
                },
            r matches Err(e) ==> *final(self) == *old(self) && verdict(
                Operation::Poll,
                old(self).owner(),
                current,
            ) == Err::<(), AffinityViolation>(e),
    {
        match self.check(current) {
            Ok(()) => Ok(self.poll(current, step)),
            Err(e) => Err(e),
        }
    }
}

/// A cell made on a thread reads back the value it was made with, admits
/// every checked operation of that thread, and refuses every checked operation
/// of any other thread with the violation that names both.
pub proof fn law_access_follows_creation<T>(
    value: T,
    creator: ThreadId,
    caller: ThreadId,
    operation: Operation,
)
    ensures
        SendCell::spec_new(value, creator).value() == value,
        caller == creator ==> verdict(
            operation,
            SendCell::spec_new(value, creator).owner(),
            caller,
        ) is Ok,
        caller != creator ==> verdict(
            operation,
            SendCell::spec_new(value, creator).owner(),
            caller,
        ) == Err::<(), AffinityViolation>(
            (AffinityViolation { operation, owner: creator, caller }),
        ),
{
    SendCell::lemma_spec_new(value, creator);
}

/// Unwrapping a cell on the thread that made it is admitted and gives back the
/// value it was made with.
pub proof fn law_round_trip<T>(value: T, creator: ThreadId)
    ensures
        verdict(Operation::IntoInner, SendCell::spec_new(value, creator).owner(), creator) is Ok,
        SendCell::spec_new(value, creator).value() == value,
{
    SendCell::lemma_spec_new(value, creator);
}

/// A copy of a cell reads the same value as the cell, and the owning thread
/// may read and drop the two in any order: neither check depends on the other
/// cell.
pub proof fn law_copy_is_independent<T>(cell: SendCell<T>, needs_drop: bool)
    ensures
        ({
            let copy = cell.spec_preserving_cell_thread(cell.value());
            &&& copy.value() == cell.value()
            &&& copy.owner() == cell.owner()
            &&& verdict(Operation::Access, copy.owner(), cell.owner()) is Ok
            &&& drop_verdict(needs_drop, copy.owner(), cell.owner()) is Ok
            &&& drop_verdict(needs_drop, cell.owner(), cell.owner()) is Ok
        }),
{
    SendCell::lemma_spec_new(cell.value(), cell.owner());
}

/// A cell without a policy holds what a checked cell made with the same value
/// holds, whichever thread made the checked one: where the checked operations
/// are admitted, both read alike.
pub proof fn law_unchecked_reads_alike<T>(value: T, creator: ThreadId)
    ensures
        UnsafeSendCell::spec_new_unchecked(value).value() == SendCell::spec_new(
            value,
            creator,
        ).value(),
{
    UnsafeSendCell::lemma_spec_new_unchecked(value);
    SendCell::lemma_spec_new(value, creator);
}

/// A drop from a thread other than the owner is refused exactly when the value
/// has teardown of its own.
pub proof fn law_drop_checks_teardown_only<T>(
    cell: SendCell<T>,
    needs_drop: bool,
    caller: ThreadId,
)
    requires
        caller != cell.owner(),
    ensures
        drop_verdict(needs_drop, cell.owner(), caller) is Err <==> needs_drop,
        needs_drop ==> drop_verdict(needs_drop, cell.owner(), caller) == Err::<
            (),
            AffinityViolation,
        >((AffinityViolation { operation: Operation::Drop, owner: cell.owner(), caller })),
{
}

} // verus!
