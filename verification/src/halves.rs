//! The two halves of a counter reading and the tick value they stand for.

use vstd::prelude::*;

verus! {

/// Number of bits that each register contributes to a tick value.
pub const HALF_BITS: u32 = 32;

/// Selects the bits of a 64-bit register that belong to a tick value.
pub const HALF_MASK: u64 = 0xFFFF_FFFF;

/// Number of values that one half can take: two to the power of `HALF_BITS`.
pub const HALF_SPAN: u64 = 0x1_0000_0000;

/// Whether `half` can be one half of a tick value: a number of `HALF_BITS` bits.
pub open spec fn is_half(half: int) -> bool {
    0 <= half < HALF_SPAN
}

/// The tick value whose upper half is `high` and whose lower half is `low`.
pub open spec fn tick_value(high: int, low: int) -> int {
    high * HALF_SPAN + low
}

/// What a 64-bit register contributes to a tick value: its low `HALF_BITS` bits.
pub open spec fn half_of(register: u64) -> int {
    register as int % HALF_SPAN as int
}

/// Joins the two registers of a counter reading on a target whose registers are
/// 64 bits wide.
///
/// Only the low 32 bits of each register are part of the reading. Whatever the
/// registers hold above them is dropped: from `low` by the mask, from `high` by
/// the shift.
pub fn join_registers(high: u64, low: u64) -> (ticks: u64)
    ensures
        ticks == tick_value(half_of(high), half_of(low)),
        ticks == (high << HALF_BITS) | (low & HALF_MASK),
{
    assert((high << HALF_BITS) | (low & HALF_MASK) == (high % HALF_SPAN) * HALF_SPAN + low
        % HALF_SPAN) by (bit_vector);
    (high << HALF_BITS) | (low & HALF_MASK)
}

/// Joins the two registers of a counter reading on a target whose registers are
/// 32 bits wide.
///
/// Each register is one half as it stands, so nothing is masked: both are
/// widened, and the upper one is moved into place.
pub fn join_halves(high: u32, low: u32) -> (ticks: u64)
    ensures
        ticks == tick_value(high as int, low as int),
        ticks == ((high as u64) << HALF_BITS) | (low as u64),
{
    assert(((high as u64) << HALF_BITS) | (low as u64) == high * HALF_SPAN + low) by (bit_vector);
    ((high as u64) << HALF_BITS) | (low as u64)
}

} // verus!
