//! 32- and 64-bit words and their two's-complement readings.
//!
//! A storage cell is a 32-bit word that is read as an unsigned value, a
//! signed value, or an address depending on the opcode that touches it.
//! Everything here is total: out-of-range results wrap modulo the word size.

use vstd::prelude::*;
use vstd::arithmetic::div_mod::lemma_add_mod_noop;
use vstd::arithmetic::div_mod::lemma_fundamental_div_mod;
use vstd::arithmetic::div_mod::lemma_mod_bound;
use vstd::arithmetic::div_mod::lemma_mod_multiples_vanish;
use vstd::arithmetic::div_mod::lemma_small_mod;

verus! {

/// The value `x` reduced modulo 2^32, as a 32-bit word.
pub open spec fn wrap32(x: int) -> u32 {
    (x % 0x1_0000_0000) as u32
}

/// The value `x` reduced modulo 2^64, as a 64-bit word.
pub open spec fn wrap64(x: int) -> u64 {
    (x % 0x1_0000_0000_0000_0000) as u64
}

/// The signed (two's-complement) reading of a 32-bit word.
pub open spec fn sx32(u: u32) -> int {
    if u < 0x8000_0000 {
        u as int
    } else {
        u as int - 0x1_0000_0000
    }
}

/// The upper 32 bits of a 64-bit word.
pub open spec fn hi32_of(bits: u64) -> u32 {
    (bits as int / 0x1_0000_0000) as u32
}

/// The lower 32 bits of a 64-bit word.
pub open spec fn lo32_of(bits: u64) -> u32 {
    (bits as int % 0x1_0000_0000) as u32
}

/// Reducing modulo 2^32 keeps values below 2^32 unchanged.
pub proof fn lemma_wrap32_small(x: int)
    requires
        0 <= x < 0x1_0000_0000,
    ensures
        wrap32(x) == x,
{
    lemma_small_mod(x as nat, 0x1_0000_0000nat);
}

/// Shifting the argument by 2^32 does not change its reduction modulo 2^32.
pub proof fn lemma_wrap32_shift(x: int)
    ensures
        wrap32(x + 0x1_0000_0000) == wrap32(x),
        wrap32(x - 0x1_0000_0000) == wrap32(x),
{
    lemma_mod_multiples_vanish(1, x, 0x1_0000_0000);
    lemma_mod_multiples_vanish(-1, x, 0x1_0000_0000);
}

/// Reducing modulo 2^64 keeps values below 2^64 unchanged.
pub proof fn lemma_wrap64_small(x: int)
    requires
        0 <= x < 0x1_0000_0000_0000_0000,
    ensures
        wrap64(x) == x,
{
    lemma_small_mod(x as nat, 0x1_0000_0000_0000_0000nat);
}

/// Shifting the argument by 2^64 does not change its reduction modulo 2^64.
pub proof fn lemma_wrap64_shift(x: int)
    ensures
        wrap64(x + 0x1_0000_0000_0000_0000) == wrap64(x),
{
    lemma_mod_multiples_vanish(1, x, 0x1_0000_0000_0000_0000);
}

/// A wrapped value may be wrapped again after adding a small amount.
pub proof fn lemma_wrap32_add_again(x: int, y: int)
    requires
        0 <= y < 0x1_0000_0000,
    ensures
        wrap32(wrap32(x) as int + y) == wrap32(x + y),
{
    lemma_mod_bound(x, 0x1_0000_0000);
    lemma_small_mod(y as nat, 0x1_0000_0000nat);
    lemma_add_mod_noop(x, y, 0x1_0000_0000);
}

/// Reinterprets a 32-bit word as a signed integer.
pub fn bits_to_i32(u: u32) -> (r: i32)
    ensures
        r as int == sx32(u),
{
    if u < 0x8000_0000 {
        u as i32
    } else {
        ((u as i64) - 0x1_0000_0000i64) as i32
    }
}

/// The 32-bit word whose two's-complement reading is `v`.
pub fn i32_to_bits(v: i32) -> (r: u32)
    ensures
        r == wrap32(v as int),
        sx32(r) == v as int,
{
    if v >= 0 {
        proof {
            lemma_wrap32_small(v as int);
        }
        v as u32
    } else {
        proof {
            lemma_wrap32_shift(v as int);
            lemma_wrap32_small(v as int + 0x1_0000_0000);
        }
        ((v as i64) + 0x1_0000_0000i64) as u32
    }
}

/// Adds two 32-bit words modulo 2^32.
pub fn wrap_add_u32(a: u32, b: u32) -> (r: u32)
    ensures
        r == wrap32(a as int + b as int),
{
    proof {
        if a as int + b as int > u32::MAX as int {
            lemma_wrap32_shift(a as int + b as int - 0x1_0000_0000);
            lemma_wrap32_small(a as int + b as int - 0x1_0000_0000);
        } else {
            lemma_wrap32_small(a as int + b as int);
        }
    }
    a.wrapping_add(b)
}

/// Adds a signed offset (given as its bit pattern) to a word, modulo 2^32.
pub fn wrap_add_signed(base: u32, off: u32) -> (r: u32)
    ensures
        r == wrap32(base as int + sx32(off)),
{
    proof {
        if off >= 0x8000_0000 {
            lemma_wrap32_shift(base as int + sx32(off));
        }
    }
    wrap_add_u32(base, off)
}

/// Reduces a signed 64-bit value modulo 2^32.
pub fn wrap_i64_to_u32(x: i64) -> (r: u32)
    requires
        -0x1_0000_0000 <= x < 0x1_0000_0000,
    ensures
        r == wrap32(x as int),
{
    if x >= 0 {
        proof {
            lemma_wrap32_small(x as int);
        }
        x as u32
    } else {
        proof {
            lemma_wrap32_shift(x as int);
            lemma_wrap32_small(x as int + 0x1_0000_0000);
        }
        (x + 0x1_0000_0000i64) as u32
    }
}

/// The 64-bit two's-complement bit pattern of a signed 64-bit value.
pub fn i64_to_bits(v: i64) -> (r: u64)
    ensures
        r == wrap64(v as int),
{
    if v >= 0 {
        proof {
            lemma_wrap64_small(v as int);
        }
        v as u64
    } else {
        proof {
            lemma_wrap64_shift(v as int);
            lemma_wrap64_small(v as int + 0x1_0000_0000_0000_0000);
        }
        ((v as i128) + 0x1_0000_0000_0000_0000i128) as u64
    }
}

/// Splits a 64-bit word into its upper and lower 32-bit halves.
pub fn split64(bits: u64) -> (r: (u32, u32))
    ensures
        r.0 == hi32_of(bits),
        r.1 == lo32_of(bits),
{
    proof {
        lemma_fundamental_div_mod(bits as int, 0x1_0000_0000);
        lemma_mod_bound(bits as int, 0x1_0000_0000);
    }
    let hi = (bits / 0x1_0000_0000u64) as u32;
    let lo = (bits % 0x1_0000_0000u64) as u32;
    (hi, lo)
}

} // verus!
