//! The per-device decode state: one hold bit for each of the eight hat axes.
//!
//! Bit `i` is set while hat axis `i` is held in its positive direction; a
//! reading of zero on that axis clears it.
use vstd::prelude::*;

verus! {

/// Number of hat axes tracked by the decode state.
pub const HAT_AXES: u8 = 8;

/// Whether the hold bit of hat axis `axis` is set in `state`.
pub open spec fn held(state: u8, axis: u8) -> bool {
    state & (1u8 << axis) != 0
}

/// `state` with the hold bit of `axis` set.
pub open spec fn with_held(state: u8, axis: u8) -> u8 {
    state | (1u8 << axis)
}

/// `state` with the hold bit of `axis` cleared.
pub open spec fn without_held(state: u8, axis: u8) -> u8 {
    state & !(1u8 << axis)
}

/// Setting the hold bit of one axis sets it and leaves the other axes alone.
pub proof fn lemma_with_held(state: u8, axis: u8, other: u8)
    requires
        axis < 8,
        other < 8,
    ensures
        held(with_held(state, axis), axis),
        other != axis ==> held(with_held(state, axis), other) == held(state, other),
{
    assert((state | (1u8 << axis)) & (1u8 << axis) != 0) by (bit_vector)
        requires
            axis < 8,
    ;
    assert(other != axis ==> ((state | (1u8 << axis)) & (1u8 << other) != 0) == (state & (1u8
        << other) != 0)) by (bit_vector)
        requires
            axis < 8,
            other < 8,
    ;
}

/// Clearing the hold bit of one axis clears it and leaves the other axes alone.
pub proof fn lemma_without_held(state: u8, axis: u8, other: u8)
    requires
        axis < 8,
        other < 8,
    ensures
        !held(without_held(state, axis), axis),
        without_held(without_held(state, axis), axis) == without_held(state, axis),
        other != axis ==> held(without_held(state, axis), other) == held(state, other),
{
    assert((state & !(1u8 << axis)) & (1u8 << axis) == 0) by (bit_vector)
        requires
            axis < 8,
    ;
    assert((state & !(1u8 << axis)) & !(1u8 << axis) == state & !(1u8 << axis)) by (bit_vector);
    assert(other != axis ==> ((state & !(1u8 << axis)) & (1u8 << other) != 0) == (state & (1u8
        << other) != 0)) by (bit_vector)
        requires
            axis < 8,
            other < 8,
    ;
}

/// Records that hat axis `offset` is held in its positive direction.
pub(crate) fn apply_bitmask_greater(state: &mut u8, offset: u8)
    requires
        offset < HAT_AXES,
    ensures
        *final(state) == with_held(*old(state), offset),
{
    let mask: u8 = 1u8 << offset;
    *state = *state | mask;
}

/// Clears the hold bit of hat axis `offset` and returns whether it was set.
pub(crate) fn apply_bitmask_eq(state: &mut u8, offset: u8) -> (was_held: bool)
    requires
        offset < HAT_AXES,
    ensures
        was_held == held(*old(state), offset),
        *final(state) == without_held(*old(state), offset),
{
    let mask: u8 = 1u8 << offset;
    let out = *state & mask != 0;
    *state = *state & !mask;
    out
}

} // verus!
