//! What the embedding host supplies to the machine.
//!
//! Two things cannot be computed by the verified core: the meaning of a
//! syscall, which is owned entirely by the host, and IEEE-754 float
//! arithmetic, which the core carries only as 32- and 64-bit bit patterns.
//! Both are reached through this trait; the core states what holds of its
//! own state whatever these calls return.

use vstd::prelude::*;

verus! {

/// The operations an embedding host provides.
///
/// Float operands arrive as IEEE-754 bit patterns: single precision for the
/// 32-bit words, double precision for the 64-bit results of `float_multiply`
/// and `float_divide`. The core never promises anything about the values
/// these calls return.
pub trait Host {
    /// The host syscall bridge: `(code, argument) -> result`, with fully
    /// host-defined semantics. The machine never interprets code or result.
    fn syscall(&mut self, code: u32, argument: i32) -> i32;

    /// The single-precision sum of the two operand bit patterns, as bits.
    fn float_add(&self, a_bits: u32, b_bits: u32) -> u32;

    /// The single-precision negation of the operand bit pattern, as bits.
    fn float_negate(&self, a_bits: u32) -> u32;

    /// The double-precision product of the two single-precision operand
    /// bit patterns, as the 64 bits of the result.
    fn float_multiply(&self, a_bits: u32, b_bits: u32) -> u64;

    /// The double-precision quotient (first operand over second) of the two
    /// single-precision operand bit patterns, as the 64 bits of the result.
    fn float_divide(&self, a_bits: u32, b_bits: u32) -> u64;

    /// A signed comparison outcome for the two single-precision operand bit
    /// patterns: positive, negative or zero as the first compares greater,
    /// less or equal.
    fn float_compare(&self, a_bits: u32, b_bits: u32) -> i32;
}

} // verus!
