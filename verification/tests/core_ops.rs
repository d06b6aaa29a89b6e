//! Unit tests for words, memory and the ALU.

use softcpu::alu::{ALU, AluMode};
use softcpu::bits::{bits_to_i32, i32_to_bits, split64, wrap_add_signed, wrap_add_u32};
use softcpu::host::Host;
use softcpu::memory::{AddressSpace, MemoryBlock, MEM_SIZE};

/// A host with native float arithmetic and a canned syscall result.
struct TestHost {
    calls: Vec<(u32, i32)>,
    syscall_result: i32,
}

impl TestHost {
    fn new() -> TestHost {
        TestHost { calls: Vec::new(), syscall_result: 0 }
    }
}

impl Host for TestHost {
    fn syscall(&mut self, code: u32, argument: i32) -> i32 {
        self.calls.push((code, argument));
        self.syscall_result
    }

    fn float_add(&self, a_bits: u32, b_bits: u32) -> u32 {
        (f32::from_bits(a_bits) + f32::from_bits(b_bits)).to_bits()
    }

    fn float_negate(&self, a_bits: u32) -> u32 {
        (-f32::from_bits(a_bits)).to_bits()
    }

    fn float_multiply(&self, a_bits: u32, b_bits: u32) -> u64 {
        ((f32::from_bits(a_bits) as f64) * (f32::from_bits(b_bits) as f64)).to_bits()
    }

    fn float_divide(&self, a_bits: u32, b_bits: u32) -> u64 {
        ((f32::from_bits(a_bits) as f64) / (f32::from_bits(b_bits) as f64)).to_bits()
    }

    fn float_compare(&self, a_bits: u32, b_bits: u32) -> i32 {
        let x = f32::from_bits(a_bits);
        let y = f32::from_bits(b_bits);
        if x > y {
            1
        } else if x < y {
            -1
        } else {
            0
        }
    }
}

#[test]
fn bit_reinterpretation_round_trips() {
    assert_eq!(i32_to_bits(-1), 0xFFFF_FFFF);
    assert_eq!(i32_to_bits(5), 5);
    assert_eq!(bits_to_i32(0x8000_0000), i32::MIN);
    assert_eq!(bits_to_i32(i32_to_bits(-123456)), -123456);
}

#[test]
fn wrapping_addition() {
    assert_eq!(wrap_add_u32(u32::MAX, 1), 0);
    assert_eq!(wrap_add_u32(10, 20), 30);
    assert_eq!(wrap_add_signed(10, i32_to_bits(-3)), 7);
    assert_eq!(wrap_add_signed(0, i32_to_bits(-1)), u32::MAX);
}

#[test]
fn split64_halves() {
    let (hi, lo) = split64(0x1234_5678_9ABC_DEF0);
    assert_eq!(hi, 0x1234_5678);
    assert_eq!(lo, 0x9ABC_DEF0);
}

#[test]
fn memory_block_is_zeroed() {
    let b = MemoryBlock::new();
    assert_eq!(b.memory.len(), MEM_SIZE);
    assert!(b.memory.iter().all(|&c| c == 0));
}

#[test]
fn write_then_read_returns_value() {
    let mut a = AddressSpace::empty();
    a.grow();
    assert!(a.write(7, 99).is_ok());
    assert_eq!(a.read(7), 99);
    assert_eq!(a.read(8), 0);
}

#[test]
fn read_beyond_regions_is_zero() {
    let mut a = AddressSpace::empty();
    a.grow();
    assert_eq!(a.read(MEM_SIZE as u32), 0);
    assert_eq!(a.read(u32::MAX), 0);
}

#[test]
fn write_beyond_regions_is_region_fault() {
    let mut a = AddressSpace::empty();
    a.grow();
    assert!(a.write(MEM_SIZE as u32, 5).is_err());
    assert_eq!(a.read(MEM_SIZE as u32), 0);
    assert_eq!(a.region_count(), 1);
}

#[test]
fn grow_appends_zeroed_region() {
    let mut a = AddressSpace::empty();
    a.grow();
    assert!(a.write(3, 1).is_ok());
    a.grow();
    assert_eq!(a.region_count(), 2);
    assert_eq!(a.read(MEM_SIZE as u32 + 5), 0);
    assert_eq!(a.read(3), 1);
    assert!(a.write(MEM_SIZE as u32, 77).is_ok());
    assert_eq!(a.read(MEM_SIZE as u32), 77);
}

#[test]
fn alu_int_add() {
    let h = TestHost::new();
    let mut alu = ALU::new();
    alu.push_value(5);
    alu.push_value(3);
    assert_eq!(alu.value_a_int, 3);
    assert_eq!(alu.value_b_int, 5);
    alu.add(&h);
    assert_eq!(alu.hi, 8);
    assert_eq!(alu.lo, 0);
}

#[test]
fn alu_int_add_wraps() {
    let h = TestHost::new();
    let mut alu = ALU::new();
    alu.push_value(i32_to_bits(i32::MAX));
    alu.push_value(1);
    alu.add(&h);
    assert_eq!(alu.hi, 0x8000_0000);
    assert_eq!(alu.lo, 0);
}

#[test]
fn alu_int_negate() {
    let h = TestHost::new();
    let mut alu = ALU::new();
    alu.push_value(9);
    alu.negate(&h);
    assert_eq!(bits_to_i32(alu.hi), -9);
    assert_eq!(alu.lo, 0);
}

#[test]
fn alu_int_multiply_small_product() {
    let h = TestHost::new();
    let mut alu = ALU::new();
    alu.push_value(6);
    alu.push_value(7);
    alu.multiply(&h);
    assert_eq!(alu.hi, 0);
    assert_eq!(alu.lo, 42);
}

#[test]
fn alu_int_multiply_wide_product() {
    let h = TestHost::new();
    let mut alu = ALU::new();
    alu.push_value(0x10000);
    alu.push_value(0x10000);
    alu.multiply(&h);
    assert_eq!(alu.hi, 1);
    assert_eq!(alu.lo, 0);
}

#[test]
fn alu_int_multiply_negative() {
    let h = TestHost::new();
    let mut alu = ALU::new();
    alu.push_value(i32_to_bits(-1));
    alu.push_value(1);
    alu.multiply(&h);
    assert_eq!(alu.hi, 0xFFFF_FFFF);
    assert_eq!(alu.lo, 0xFFFF_FFFF);
}

#[test]
fn alu_int_divide_truncates() {
    let h = TestHost::new();
    let mut alu = ALU::new();
    alu.push_value(2);
    alu.push_value(7);
    assert!(alu.divide(&h).is_ok());
    assert_eq!(alu.hi, 3);
    assert_eq!(alu.lo, 0);

    let mut alu = ALU::new();
    alu.push_value(2);
    alu.push_value(i32_to_bits(-7));
    assert!(alu.divide(&h).is_ok());
    assert_eq!(bits_to_i32(alu.hi), -3);
    assert_eq!(alu.lo, 0);
}

#[test]
fn alu_int_divide_by_zero_is_fault() {
    let h = TestHost::new();
    let mut alu = ALU::new();
    alu.push_value(5);
    let before = alu;
    assert!(alu.divide(&h).is_err());
    assert_eq!(alu, before);
}

#[test]
fn alu_int_compare() {
    let h = TestHost::new();
    let mut alu = ALU::new();
    alu.push_value(3);
    alu.push_value(5);
    alu.cmp(&h);
    assert_eq!(alu.compare_result, 1);
    alu.push_value(1);
    alu.cmp(&h);
    assert_eq!(alu.compare_result, -1);
}

#[test]
fn alu_mode_switch_preserves_bits() {
    let mut alu = ALU::new();
    alu.push_value(i32_to_bits(-1));
    alu.set_mode_float();
    assert_eq!(alu.mode, AluMode::Float);
    assert_eq!(alu.value_a_float_bits, 0xFFFF_FFFF);
    alu.set_mode_int();
    assert_eq!(alu.mode, AluMode::Int);
    assert_eq!(alu.value_a_int, -1);
}

#[test]
fn alu_float_push_is_reinterpretation() {
    let mut alu = ALU::new();
    alu.set_mode_float();
    alu.push_value(3.5f32.to_bits());
    assert_eq!(f32::from_bits(alu.value_a_float_bits), 3.5);
}

#[test]
fn alu_float_add() {
    let h = TestHost::new();
    let mut alu = ALU::new();
    alu.set_mode_float();
    alu.push_value(1.5f32.to_bits());
    alu.push_value(2.25f32.to_bits());
    alu.add(&h);
    assert_eq!(f32::from_bits(alu.hi), 3.75);
    assert_eq!(alu.lo, 0);
}

#[test]
fn alu_float_multiply_double_width() {
    let h = TestHost::new();
    let mut alu = ALU::new();
    alu.set_mode_float();
    alu.push_value(1.5f32.to_bits());
    alu.push_value(2.0f32.to_bits());
    alu.multiply(&h);
    let bits = ((alu.hi as u64) << 32) | (alu.lo as u64);
    assert_eq!(f64::from_bits(bits), 3.0);
}

#[test]
fn alu_float_compare() {
    let h = TestHost::new();
    let mut alu = ALU::new();
    alu.set_mode_float();
    alu.push_value(2.5f32.to_bits());
    alu.push_value(1.5f32.to_bits());
    alu.cmp(&h);
    assert_eq!(alu.compare_result, -1);
}
