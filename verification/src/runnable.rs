//! The handle through which a scheduled task is run.

use core::marker::PhantomData;
use vstd::prelude::*;

verus! {

use crate::state::{has_flag, lemma_has_flag_is_bit_test, AWAITER, CLOSED, COMPLETED, SCHEDULED};

/// Futures of at least this many bytes are placed on the heap on their own
/// before the task is allocated.
pub const LARGE_FUTURE_SIZE: usize = 2048;

/// Whether a future of type `F` is boxed before the task is allocated.
pub fn boxes_future<F>() -> (r: bool)
    ensures
        r == (vstd::layout::size_of::<F>() >= LARGE_FUTURE_SIZE),
{
    core::mem::size_of::<F>() >= LARGE_FUTURE_SIZE
}

/// A handle to a runnable task.
///
/// Every spawned task has a single `Runnable` handle, which only exists when
/// the task is scheduled for running. The handle refers to the task by the
/// address of its allocation, which is never zero.
pub struct Runnable<D = ()> {
    ptr: usize,
    _marker: PhantomData<D>,
}

impl<D> View for Runnable<D> {
    type V = usize;

    /// The address of the task this handle refers to.
    closed spec fn view(&self) -> usize {
        self.ptr
    }
}

impl<D> Runnable<D> {
    #[verifier::type_invariant]
    spec fn non_null(self) -> bool {
        self.ptr != 0
    }

    /// Consumes the `Runnable`, returning the address of the task.
    ///
    /// The address must eventually be turned back into a `Runnable` with
    /// [`Runnable::from_raw`] so that the task's resources are freed.
    pub fn into_raw(self) -> (r: usize)
        ensures
            r == self@,
            r != 0,
    {
        proof {
            use_type_invariant(&self);
        }
        self.ptr
    }

    /// Constructs a `Runnable` from the address of a task, as returned by
    /// [`Runnable::into_raw`].
    pub fn from_raw(ptr: usize) -> (r: Runnable<D>)
        requires
            ptr != 0,
        ensures
            r@ == ptr,
    {
        Runnable { ptr, _marker: PhantomData }
    }
}

/// Dropping a runnable cancels its task. Given the state word it observed, this
/// returns `None` when the task is already completed or closed (there is nothing
/// to cancel), and otherwise the word to store in its place: the same word with
/// `CLOSED` set.
pub fn cancel_on_drop(state: usize) -> (r: Option<usize>)
    ensures
        r is None <==> has_flag(state, COMPLETED) || has_flag(state, CLOSED),
        r is None <==> state & (COMPLETED | CLOSED) != 0,
        r matches Some(next) ==> next == state | CLOSED,
{
    proof {
        assert(state & (COMPLETED | CLOSED) != 0 <==> (state & COMPLETED != 0 || state & CLOSED != 0))
            by (bit_vector);
    }
    if state & (COMPLETED | CLOSED) != 0 {
        None
    } else {
        Some(state | CLOSED)
    }
}

/// After dropping the future, a runnable clears `SCHEDULED`; given the word as it
/// was before that, this tells whether the awaiter must be notified.
pub fn notify_on_drop(state: usize) -> (r: bool)
    ensures
        r == has_flag(state, AWAITER),
        r == (state & AWAITER != 0),
{
    state & AWAITER != 0
}

/// The word a drop stores to close the task carries `CLOSED`, so a second
/// cancellation finds nothing to do, and every other bit is as it was.
pub proof fn lemma_close_keeps_other_bits(state: usize)
    ensures
        has_flag(state | CLOSED, CLOSED),
        (state | CLOSED) & !CLOSED == state & !CLOSED,
{
    assert((state | CLOSED) & CLOSED != 0) by (bit_vector);
    assert((state | CLOSED) & !CLOSED == state & !CLOSED) by (bit_vector);
}

/// Dropping a runnable leaves its task cancelled: closed or completed, and no
/// longer scheduled. Whether it completed and whether an awaiter is registered
/// do not change.
pub proof fn lemma_drop_cancels(state: usize)
    ensures
        ({
            let closed = if has_flag(state, COMPLETED) || has_flag(state, CLOSED) {
                state
            } else {
                state | CLOSED
            };
            let after = closed & !SCHEDULED;
            &&& has_flag(after, COMPLETED) || has_flag(after, CLOSED)
            &&& !has_flag(after, SCHEDULED)
            &&& has_flag(after, COMPLETED) == has_flag(state, COMPLETED)
            &&& has_flag(after, AWAITER) == has_flag(state, AWAITER)
        }),
{
    let closed = if state & COMPLETED != 0 || state & CLOSED != 0 {
        state
    } else {
        state | CLOSED
    };
    assert({
        let after = closed & !SCHEDULED;
        &&& (after & COMPLETED != 0 || after & CLOSED != 0)
        &&& after & SCHEDULED == 0
        &&& (after & COMPLETED != 0) == (state & COMPLETED != 0)
        &&& (after & AWAITER != 0) == (state & AWAITER != 0)
    }) by (bit_vector)
        requires
            closed == if state & COMPLETED != 0 || state & CLOSED != 0 {
                state
            } else {
                state | CLOSED
            },
    ;
}

/// Whether dropping a runnable cancels its task depends on `COMPLETED` and
/// `CLOSED` alone: two words that agree on those bits get the same answer, and a
/// word with neither bit is cancelled whatever its other bits hold.
pub proof fn lemma_cancel_reads_only_finish_bits(s: usize, t: usize)
    ensures
        s & (COMPLETED | CLOSED) == t & (COMPLETED | CLOSED) ==> ((has_flag(s, COMPLETED)
            || has_flag(s, CLOSED)) <==> (has_flag(t, COMPLETED) || has_flag(t, CLOSED))),
        s & COMPLETED == 0 && s & CLOSED == 0 ==> !has_flag(s, COMPLETED) && !has_flag(s, CLOSED),
        s & COMPLETED != 0 ==> has_flag(s, COMPLETED),
        s & CLOSED != 0 ==> has_flag(s, CLOSED),
{
    lemma_has_flag_is_bit_test(s, COMPLETED);
    lemma_has_flag_is_bit_test(s, CLOSED);
    lemma_has_flag_is_bit_test(t, COMPLETED);
    lemma_has_flag_is_bit_test(t, CLOSED);
    assert(s & (COMPLETED | CLOSED) == t & (COMPLETED | CLOSED) ==> ((s & COMPLETED != 0 || s
        & CLOSED != 0) <==> (t & COMPLETED != 0 || t & CLOSED != 0))) by (bit_vector);
}

/// Whether dropping a runnable notifies the awaiter depends on `AWAITER` alone:
/// a word with that bit set is notified and a word without it is not, whatever
/// its other bits hold.
pub proof fn lemma_notify_reads_only_awaiter_bit(s: usize, t: usize)
    ensures
        s & AWAITER != 0 ==> has_flag(s, AWAITER),
        s & AWAITER == 0 ==> !has_flag(s, AWAITER),
        s & AWAITER == t & AWAITER ==> has_flag(s, AWAITER) == has_flag(t, AWAITER),
{
    lemma_has_flag_is_bit_test(s, AWAITER);
    lemma_has_flag_is_bit_test(t, AWAITER);
}

} // verus!
