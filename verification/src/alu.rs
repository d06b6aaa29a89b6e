//! The arithmetic-logic unit: a two-slot (most-recent/previous) accumulator
//! per numeric mode, producing double-width results in the `hi`/`lo`
//! registers and a signed comparison outcome.
//!
//! Integer arithmetic is computed here and fully specified; it wraps modulo
//! 2^32 (a `hi` register holds the bit pattern of the wrapped result).
//! Float operands are carried as IEEE-754 bit patterns and the arithmetic
//! itself is supplied by the host (see `crate::host`), so nothing is claimed
//! about the numeric value a float operation leaves in `hi`/`lo` beyond
//! which registers it touches.
//!
//! Two design points are deliberately fixed here and documented:
//! - the mode switch is bit-preserving: the operand bit patterns are copied
//!   unchanged between the integer and float slots, only retyped;
//! - `cmp` compares the most recently pushed operand against the previous
//!   one in the current mode, leaving a signed tri-state outcome.

use vstd::prelude::*;
use crate::bits::{wrap32, wrap64, sx32, hi32_of, lo32_of};
use crate::bits::{bits_to_i32, i32_to_bits, wrap_i64_to_u32, i64_to_bits, split64};
use crate::bits::lemma_wrap32_small;
use crate::host::Host;

verus! {

/// The numeric mode the ALU is in.
#[derive(Clone, Copy, PartialEq, Eq, Structural, Debug)]
pub enum AluMode {
    Int,
    Float,
}

/// Error for an integer division whose divisor is zero.
pub struct DivideByZero;

/// The sign of `a - b` as a tri-state outcome.
pub open spec fn sign_cmp(a: int, b: int) -> i32 {
    if a > b {
        1i32
    } else if a < b {
        -1i32
    } else {
        0i32
    }
}

/// The quotient of `a` over `b`, truncated toward zero.
pub open spec fn abs_of(x: int) -> int {
    if x >= 0 {
        x
    } else {
        -x
    }
}

/// Truncated (toward zero) integer division, the convention the divide
/// opcode uses.
pub open spec fn tdiv(a: int, b: int) -> int {
    if (a >= 0) == (b >= 0) {
        abs_of(a) / abs_of(b)
    } else {
        -(abs_of(a) / abs_of(b))
    }
}

/// The two-slot accumulator.
#[derive(Clone, Copy, PartialEq, Eq, Structural, Debug)]
pub struct ALU {
    /// Most recently pushed integer operand.
    pub value_a_int: i32,
    /// Previously pushed integer operand.
    pub value_b_int: i32,
    /// Most recently pushed float operand, as IEEE-754 bits.
    pub value_a_float_bits: u32,
    /// Previously pushed float operand, as IEEE-754 bits.
    pub value_b_float_bits: u32,
    /// Signed comparison outcome left by `cmp`.
    pub compare_result: i32,
    /// Upper half of the last double-width result.
    pub hi: u32,
    /// Lower half of the last double-width result.
    pub lo: u32,
    pub mode: AluMode,
}

/// True when the operand slots, the mode and the comparison outcome of `y`
/// are those of `x` (only `hi`/`lo` may differ).
pub open spec fn alu_operands_kept(x: ALU, y: ALU) -> bool {
    &&& y.value_a_int == x.value_a_int
    &&& y.value_b_int == x.value_b_int
    &&& y.value_a_float_bits == x.value_a_float_bits
    &&& y.value_b_float_bits == x.value_b_float_bits
    &&& y.mode == x.mode
    &&& y.compare_result == x.compare_result
}

/// The ALU after a push of the bus word `bits` in the current mode: the
/// most-recent slot shifts into the previous one. In float mode the bus
/// word is reinterpreted as an IEEE-754 bit pattern, not converted.
pub open spec fn alu_pushed(a: ALU, bits: u32) -> ALU {
    if a.mode is Int {
        ALU { value_b_int: a.value_a_int, value_a_int: sx32(bits) as i32, ..a }
    } else {
        ALU { value_b_float_bits: a.value_a_float_bits, value_a_float_bits: bits, ..a }
    }
}

impl ALU {
    /// A fresh ALU: all registers zero, integer mode.
    pub fn new() -> (r: ALU)
        ensures
            r == (ALU {
                value_a_int: 0i32,
                value_b_int: 0i32,
                value_a_float_bits: 0u32,
                value_b_float_bits: 0u32,
                compare_result: 0i32,
                hi: 0u32,
                lo: 0u32,
                mode: AluMode::Int,
            }),
    {
        ALU {
            value_a_int: 0,
            value_b_int: 0,
            value_a_float_bits: 0,
            value_b_float_bits: 0,
            compare_result: 0,
            hi: 0,
            lo: 0,
            mode: AluMode::Int,
        }
    }

    /// Switches to float mode, preserving the operand bits: the float slots
    /// receive the two's-complement bit patterns of the integer slots.
    pub fn set_mode_float(&mut self)
        ensures
            *final(self) == (ALU {
                mode: AluMode::Float,
                value_a_float_bits: wrap32(old(self).value_a_int as int),
                value_b_float_bits: wrap32(old(self).value_b_int as int),
                ..*old(self)
            }),
    {
        self.value_a_float_bits = i32_to_bits(self.value_a_int);
        self.value_b_float_bits = i32_to_bits(self.value_b_int);
        self.mode = AluMode::Float;
    }

    /// Switches to integer mode, preserving the operand bits: the integer
    /// slots receive the signed readings of the float bit patterns.
    pub fn set_mode_int(&mut self)
        ensures
            *final(self) == (ALU {
                mode: AluMode::Int,
                value_a_int: sx32(old(self).value_a_float_bits) as i32,
                value_b_int: sx32(old(self).value_b_float_bits) as i32,
                ..*old(self)
            }),
    {
        self.value_a_int = bits_to_i32(self.value_a_float_bits);
        self.value_b_int = bits_to_i32(self.value_b_float_bits);
        self.mode = AluMode::Int;
    }

    /// Pushes the bus word in the current mode.
    pub fn push_value(&mut self, bits: u32)
        ensures
            *final(self) == alu_pushed(*old(self), bits),
    {
        match self.mode {
            AluMode::Int => {
                self.value_b_int = self.value_a_int;
                self.value_a_int = bits_to_i32(bits);
            },
            AluMode::Float => {
                self.value_b_float_bits = self.value_a_float_bits;
                self.value_a_float_bits = bits;
            },
        }
    }

    /// `hi` receives most-recent + previous in the current mode (the bit
    /// pattern of the sum modulo 2^32 in integer mode); `lo` is zeroed.
    pub fn add<H: Host>(&mut self, host: &H)
        ensures
            alu_operands_kept(*old(self), *final(self)),
            final(self).lo == 0,
            old(self).mode is Int ==> final(self).hi == wrap32(
                old(self).value_a_int as int + old(self).value_b_int as int,
            ),
    {
        match self.mode {
            AluMode::Int => {
                let s: i64 = self.value_a_int as i64 + self.value_b_int as i64;
                self.hi = wrap_i64_to_u32(s);
            },
            AluMode::Float => {
                self.hi = host.float_add(self.value_a_float_bits, self.value_b_float_bits);
            },
        }
        self.lo = 0;
    }

    /// `hi` receives the negation of the most recent operand in the current
    /// mode; `lo` is zeroed.
    pub fn negate<H: Host>(&mut self, host: &H)
        ensures
            alu_operands_kept(*old(self), *final(self)),
            final(self).lo == 0,
            old(self).mode is Int ==> final(self).hi == wrap32(-(old(self).value_a_int as int)),
    {
        match self.mode {
            AluMode::Int => {
                let s: i64 = -(self.value_a_int as i64);
                self.hi = wrap_i64_to_u32(s);
            },
            AluMode::Float => {
                self.hi = host.float_negate(self.value_a_float_bits);
            },
        }
        self.lo = 0;
    }

    /// The double-width product of the two operands, split across `hi`
    /// (upper 32 bits) and `lo` (lower 32 bits). In float mode the host
    /// computes the product in double precision and its 64-bit pattern is
    /// split the same way.
    pub fn multiply<H: Host>(&mut self, host: &H)
        ensures
            alu_operands_kept(*old(self), *final(self)),
            old(self).mode is Int ==> {
                let p = wrap64(old(self).value_a_int as int * old(self).value_b_int as int);
                final(self).hi == hi32_of(p) && final(self).lo == lo32_of(p)
            },
    {
        match self.mode {
            AluMode::Int => {
                proof {
                    let a = self.value_a_int as int;
                    let b = self.value_b_int as int;
                    assert(i64::MIN <= a * b <= i64::MAX) by (nonlinear_arith)
                        requires
                            -0x8000_0000 <= a < 0x8000_0000,
                            -0x8000_0000 <= b < 0x8000_0000,
                    ;
                }
                let p: i64 = self.value_a_int as i64 * self.value_b_int as i64;
                let bits = i64_to_bits(p);
                let (hi, lo) = split64(bits);
                self.hi = hi;
                self.lo = lo;
            },
            AluMode::Float => {
                let bits = host.float_multiply(self.value_a_float_bits, self.value_b_float_bits);
                let (hi, lo) = split64(bits);
                self.hi = hi;
                self.lo = lo;
            },
        }
    }

    /// Integer mode: the truncated quotient most-recent / previous goes to
    /// `hi` as its bit pattern, `lo` is zeroed, and a zero divisor is a
    /// `DivideByZero` fault that leaves the ALU unchanged. Float mode: the
    /// host computes the quotient in double precision and its 64-bit
    /// pattern is split across `hi`/`lo`; it never faults.
    pub fn divide<H: Host>(&mut self, host: &H) -> (r: Result<(), DivideByZero>)
        ensures
            alu_operands_kept(*old(self), *final(self)),
            old(self).mode is Int && old(self).value_b_int == 0 ==> r is Err && *final(self)
                == *old(self),
            old(self).mode is Int && old(self).value_b_int != 0 ==> r is Ok && final(self).hi
                == wrap32(tdiv(old(self).value_a_int as int, old(self).value_b_int as int))
                && final(self).lo == 0,
            old(self).mode is Float ==> r is Ok,
    {
        match self.mode {
            AluMode::Int => {
                if self.value_b_int == 0 {
                    return Err(DivideByZero);
                }
                let a = self.value_a_int;
                let b = self.value_b_int;
                let mag_a: u32 = if a < 0 {
                    (-(a as i64)) as u32
                } else {
                    a as u32
                };
                let mag_b: u32 = if b < 0 {
                    (-(b as i64)) as u32
                } else {
                    b as u32
                };
                let uq: u32 = mag_a / mag_b;
                if (a < 0) != (b < 0) {
                    self.hi = wrap_i64_to_u32(-(uq as i64));
                } else {
                    proof {
                        lemma_wrap32_small(uq as int);
                    }
                    self.hi = uq;
                }
                self.lo = 0;
                Ok(())
            },
            AluMode::Float => {
                let bits = host.float_divide(self.value_a_float_bits, self.value_b_float_bits);
                let (hi, lo) = split64(bits);
                self.hi = hi;
                self.lo = lo;
                Ok(())
            },
        }
    }

    /// Compares the most recently pushed operand against the previous one
    /// in the current mode, leaving the signed outcome in `compare_result`.
    /// In float mode the outcome comes from the host.
    pub fn cmp<H: Host>(&mut self, host: &H)
        ensures
            final(self).value_a_int == old(self).value_a_int,
            final(self).value_b_int == old(self).value_b_int,
            final(self).value_a_float_bits == old(self).value_a_float_bits,
            final(self).value_b_float_bits == old(self).value_b_float_bits,
            final(self).mode == old(self).mode,
            final(self).hi == old(self).hi,
            final(self).lo == old(self).lo,
            old(self).mode is Int ==> final(self).compare_result == sign_cmp(
                old(self).value_a_int as int,
                old(self).value_b_int as int,
            ),
    {
        match self.mode {
            AluMode::Int => {
                self.compare_result = if self.value_a_int > self.value_b_int {
                    1
                } else if self.value_a_int < self.value_b_int {
                    -1
                } else {
                    0
                };
            },
            AluMode::Float => {
                self.compare_result = host.float_compare(
                    self.value_a_float_bits,
                    self.value_b_float_bits,
                );
            },
        }
    }
}

} // verus!
