//! Bits of a task's state word that a runnable handle reads and writes.

use vstd::prelude::*;

verus! {

/// The task is scheduled for running.
pub const SCHEDULED: usize = 1 << 0;

/// The future has completed.
pub const COMPLETED: usize = 1 << 2;

/// The task is closed: its future will not be polled again.
pub const CLOSED: usize = 1 << 3;

/// A task handle is waiting for the output and must be notified.
pub const AWAITER: usize = 1 << 5;

/// `flag` is set in `state`.
pub open spec fn has_flag(state: usize, flag: usize) -> bool {
    state & flag != 0
}

/// A flag is present exactly when the word shares a bit with it; no other bit
/// of the word has any say.
pub proof fn lemma_has_flag_is_bit_test(state: usize, flag: usize)
    ensures
        has_flag(state, flag) <==> state & flag != 0,
        has_flag(state, flag) <==> has_flag(state & flag, flag),
{
    assert((state & flag != 0) <==> ((state & flag) & flag != 0)) by (bit_vector);
}

/// The four flags are distinct single bits, so setting or clearing one never
/// touches another.
pub proof fn lemma_flags_are_distinct_bits()
    ensures
        SCHEDULED != 0 && SCHEDULED & ((SCHEDULED - 1) as usize) == 0,
        COMPLETED != 0 && COMPLETED & ((COMPLETED - 1) as usize) == 0,
        CLOSED != 0 && CLOSED & ((CLOSED - 1) as usize) == 0,
        AWAITER != 0 && AWAITER & ((AWAITER - 1) as usize) == 0,
        SCHEDULED & COMPLETED == 0,
        SCHEDULED & CLOSED == 0,
        SCHEDULED & AWAITER == 0,
        COMPLETED & CLOSED == 0,
        COMPLETED & AWAITER == 0,
        CLOSED & AWAITER == 0,
{
    assert(SCHEDULED != 0 && SCHEDULED & ((SCHEDULED - 1) as usize) == 0) by (bit_vector);
    assert(COMPLETED != 0 && COMPLETED & ((COMPLETED - 1) as usize) == 0) by (bit_vector);
    assert(CLOSED != 0 && CLOSED & ((CLOSED - 1) as usize) == 0) by (bit_vector);
    assert(AWAITER != 0 && AWAITER & ((AWAITER - 1) as usize) == 0) by (bit_vector);
    assert(SCHEDULED & COMPLETED == 0 && SCHEDULED & CLOSED == 0 && SCHEDULED & AWAITER == 0)
        by (bit_vector);
    assert(COMPLETED & CLOSED == 0 && COMPLETED & AWAITER == 0 && CLOSED & AWAITER == 0)
        by (bit_vector);
}

} // verus!
