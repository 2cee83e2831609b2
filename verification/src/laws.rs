//! What holds of every tick value that the joining functions return.

use crate::halves::{half_of, is_half, tick_value, HALF_BITS, HALF_MASK, HALF_SPAN};
use vstd::prelude::*;

verus! {

/// What a register contributes is a half, and it is what the mask leaves of the
/// register: bits above the low 32 never reach a tick value.
pub proof fn lemma_half_is_masked(register: u64)
    ensures
        is_half(half_of(register)),
        half_of(register) == register & HALF_MASK,
{
    assert(register % HALF_SPAN == register & HALF_MASK) by (bit_vector);
}

/// Two halves always fit: their tick value is a 64-bit number.
pub proof fn lemma_tick_value_fits(high: int, low: int)
    requires
        is_half(high),
        is_half(low),
    ensures
        0 <= tick_value(high, low) <= u64::MAX,
{
}

/// Both register widths give the same tick value: a reading taken from 32-bit
/// registers equals the reading taken from 64-bit registers that hold the same
/// halves.
pub proof fn lemma_widths_agree(high: u32, low: u32)
    ensures
        tick_value(half_of(high as u64), half_of(low as u64)) == tick_value(
            high as int,
            low as int,
        ),
{
}

/// A tick value gives both halves back: the upper one by the shift, the lower
/// one by the mask. So two readings with the same tick value have the same
/// halves.
pub proof fn lemma_halves_read_back(high: u64, low: u64, ticks: u64)
    requires
        ticks == tick_value(half_of(high), half_of(low)),
    ensures
        ticks >> HALF_BITS == half_of(high),
        ticks & HALF_MASK == half_of(low),
{
    let upper: u64 = high & HALF_MASK;
    let lower: u64 = low & HALF_MASK;
    lemma_half_is_masked(high);
    lemma_half_is_masked(low);
    assert((ticks >> HALF_BITS) == upper && (ticks & HALF_MASK) == lower) by (bit_vector)
        requires
            upper <= HALF_MASK,
            lower <= HALF_MASK,
            ticks == upper * HALF_SPAN + lower,
    ;
}

/// Tick values are ordered as their halves are, the upper half first. So if the
/// counter does not run backwards between two readings, neither do the tick
/// values joined from them.
pub proof fn lemma_order_follows_halves(high: int, low: int, later_high: int, later_low: int)
    requires
        is_half(high),
        is_half(low),
        is_half(later_high),
        is_half(later_low),
    ensures
        tick_value(high, low) <= tick_value(later_high, later_low) <==> (high < later_high || (high
            == later_high && low <= later_low)),
        tick_value(high, low) == tick_value(later_high, later_low) <==> (high == later_high && low
            == later_low),
{
}

} // verus!
