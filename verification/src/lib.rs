//! Assembling readings of the x86 time-stamp counter.
//!
//! The processor returns the 64-bit counter in two registers, the upper half in
//! one and the lower half in the other. This crate holds the rule by which the
//! two halves become one tick value, for registers that are 64 bits wide and for
//! registers that are 32 bits wide, together with the facts a caller may rely on:
//! that both rules give the same value, that bits above the low 32 of a register
//! never reach the result, that each half can be read back from the value, and
//! that the value orders readings as the counter itself does.
//!
//! Reading the counter is left to the caller: it takes an instruction that only
//! the target processor can execute.

pub mod halves;
pub mod laws;
