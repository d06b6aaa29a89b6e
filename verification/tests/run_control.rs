//! Scenario tests for the processor and the run-control entry points.

use softcpu::bits::{bits_to_i32, i32_to_bits};
use softcpu::host::Host;
use softcpu::memory::MEM_SIZE;
use softcpu::processor::ProcessorStatus;
use softcpu::program::{
    Continue, Program, RemoveBreakpoint, SetBreakpoint, StepOver, disable_breakpoints,
    enable_breakpoints, initialize, run,
};

const BUDGET: u64 = 1_000_000;

struct TestHost {
    calls: Vec<(u32, i32)>,
    syscall_result: i32,
}

impl TestHost {
    fn new() -> TestHost {
        TestHost { calls: Vec::new(), syscall_result: 0 }
    }
}

impl Host for TestHost {
    fn syscall(&mut self, code: u32, argument: i32) -> i32 {
        self.calls.push((code, argument));
        self.syscall_result
    }

    fn float_add(&self, a_bits: u32, b_bits: u32) -> u32 {
        (f32::from_bits(a_bits) + f32::from_bits(b_bits)).to_bits()
    }

    fn float_negate(&self, a_bits: u32) -> u32 {
        (-f32::from_bits(a_bits)).to_bits()
    }

    fn float_multiply(&self, a_bits: u32, b_bits: u32) -> u64 {
        ((f32::from_bits(a_bits) as f64) * (f32::from_bits(b_bits) as f64)).to_bits()
    }

    fn float_divide(&self, a_bits: u32, b_bits: u32) -> u64 {
        ((f32::from_bits(a_bits) as f64) / (f32::from_bits(b_bits) as f64)).to_bits()
    }

    fn float_compare(&self, a_bits: u32, b_bits: u32) -> i32 {
        let x = f32::from_bits(a_bits);
        let y = f32::from_bits(b_bits);
        if x > y {
            1
        } else if x < y {
            -1
        } else {
            0
        }
    }
}

/// An initialized program with `words` written from address 1 (where the
/// instruction pointer starts).
fn load(words: &[u32]) -> Program {
    let mut p = Program::new();
    initialize(&mut p);
    let mut addr: u32 = 1;
    for w in words {
        assert!(p.processor.address_space.write(addr, *w).is_ok());
        addr += 1;
    }
    p
}

fn mem(p: &Program, addr: u32) -> u32 {
    p.processor.address_space.read(addr)
}

#[test]
fn initialize_allocates_first_region() {
    let mut p = Program::new();
    assert_eq!(p.processor.status, ProcessorStatus::Empty);
    assert_eq!(p.processor.address_space.region_count(), 0);
    initialize(&mut p);
    assert_eq!(p.processor.status, ProcessorStatus::NotStarted);
    assert_eq!(p.processor.address_space.region_count(), 1);
    assert_eq!(p.processor.next, 1);
}

#[test]
fn status_codes_are_stable() {
    assert_eq!(ProcessorStatus::Paused.code(), 0);
    assert_eq!(ProcessorStatus::Halted.code(), 1);
    assert_eq!(ProcessorStatus::NotStarted.code(), 2);
    assert_eq!(ProcessorStatus::Running.code(), 3);
    assert_eq!(ProcessorStatus::Empty.code(), 4);
    assert_eq!(ProcessorStatus::Faulted.code(), 5);
}

#[test]
fn load_immediate_advances_by_operand_count_plus_one() {
    let mut h = TestHost::new();
    let mut p = load(&[20, 7, 16]);
    assert!(Continue(&mut p, &mut h, BUDGET));
    assert_eq!(p.processor.bus, 7);
    // li consumed one operand (1 -> 3); halt consumed none (3 -> 4)
    assert_eq!(p.processor.next, 4);
    assert_eq!(p.processor.status, ProcessorStatus::Halted);
}

#[test]
fn add_scenario_leaves_sum_in_hi_only() {
    let mut h = TestHost::new();
    let mut p = load(&[20, 5, 5, 20, 3, 5, 6, 16]);
    assert!(Continue(&mut p, &mut h, BUDGET));
    assert_eq!(p.processor.alu.hi, 8);
    assert_eq!(p.processor.alu.lo, 0);
    // the add writes only ALU registers, not the bus
    assert_eq!(p.processor.bus, 3);
    assert_eq!(p.processor.status, ProcessorStatus::Halted);
}

#[test]
fn multiply_scenario_product_fits_in_lo() {
    let mut h = TestHost::new();
    let mut p = load(&[20, 6, 5, 20, 7, 5, 8, 16]);
    assert!(Continue(&mut p, &mut h, BUDGET));
    assert_eq!(p.processor.alu.hi, 0);
    assert_eq!(p.processor.alu.lo, 42);
}

#[test]
fn divide_scenario_quotient_in_hi() {
    let mut h = TestHost::new();
    let mut p = load(&[20, 2, 5, 20, 7, 5, 9, 16]);
    assert!(Continue(&mut p, &mut h, BUDGET));
    assert_eq!(p.processor.alu.hi, 3);
    assert_eq!(p.processor.alu.lo, 0);
}

#[test]
fn divide_by_zero_faults_and_is_recoverable() {
    let mut h = TestHost::new();
    // push 3 (divisor slot stays 0), divide, then a halt
    let mut p = load(&[20, 3, 5, 9, 16]);
    assert!(Continue(&mut p, &mut h, BUDGET));
    assert_eq!(p.processor.status, ProcessorStatus::Faulted);
    // the fault moved past the divide; resuming reaches the halt
    assert_eq!(p.processor.next, 5);
    assert!(Continue(&mut p, &mut h, BUDGET));
    assert_eq!(p.processor.status, ProcessorStatus::Halted);
}

#[test]
fn lo_and_hi_move_to_bus() {
    let mut h = TestHost::new();
    let mut p = load(&[20, 6, 5, 20, 7, 5, 8, 23, 16]);
    assert!(Continue(&mut p, &mut h, BUDGET));
    assert_eq!(p.processor.bus, 42);

    let mut p = load(&[20, 6, 5, 20, 7, 5, 8, 24, 16]);
    assert!(Continue(&mut p, &mut h, BUDGET));
    assert_eq!(p.processor.bus, 0);
}

#[test]
fn jump_adds_signed_bus_with_no_extra_advance() {
    let mut h = TestHost::new();
    // bus = 5, then jump: pointer 3 + 5 = 8; halt waits there
    let mut p = load(&[20, 5, 10, 0, 0, 0, 0, 16]);
    assert!(Continue(&mut p, &mut h, BUDGET));
    assert_eq!(p.processor.status, ProcessorStatus::Halted);
    assert_eq!(p.processor.next, 9);
}

#[test]
fn jump_with_negative_offset() {
    let mut h = TestHost::new();
    // bus = -1; the jump at 3 lands on 3 - 1 = 2, where the cell holds the
    // bits of -1: an unknown opcode, so the machine faults with the
    // pointer kept on that word.
    let mut p = load(&[20, i32_to_bits(-1), 10]);
    assert!(Continue(&mut p, &mut h, BUDGET));
    assert_eq!(p.processor.status, ProcessorStatus::Faulted);
    assert_eq!(p.processor.next, 2);
}

#[test]
fn relative_load_and_store() {
    let mut h = TestHost::new();
    // load relative: at 1, operand 4 -> cell 1 + 4 = 5 holds 42
    let mut p = load(&[3, 4, 16, 0, 42]);
    assert!(Continue(&mut p, &mut h, BUDGET));
    assert_eq!(p.processor.bus, 42);

    // store relative: bus = 55, at 3 operand 6 -> target 3 + 6 = 9
    let mut p = load(&[20, 55, 4, 6, 16]);
    assert!(Continue(&mut p, &mut h, BUDGET));
    assert_eq!(mem(&p, 9), 55);
}

#[test]
fn absolute_load_and_store() {
    let mut h = TestHost::new();
    let mut p = load(&[18, 6, 16, 0, 0, 99]);
    assert!(Continue(&mut p, &mut h, BUDGET));
    assert_eq!(p.processor.bus, 99);

    let mut p = load(&[20, 88, 19, 7, 16]);
    assert!(Continue(&mut p, &mut h, BUDGET));
    assert_eq!(mem(&p, 7), 88);
}

#[test]
fn relative_pointer_load_takes_one_extra_indirection() {
    let mut h = TestHost::new();
    // at 1: operand 4 -> cell 5 holds 7 -> target 1 + 7 = 8 holds 1234
    let mut p = load(&[1, 4, 16, 0, 7, 0, 0, 1234]);
    assert!(Continue(&mut p, &mut h, BUDGET));
    assert_eq!(p.processor.bus, 1234);
}

#[test]
fn relative_pointer_store_takes_one_extra_indirection() {
    let mut h = TestHost::new();
    // bus = 77; at 3: operand 5 -> cell 3 + 5 = 8 holds 7 -> target 3 + 7 = 10
    let mut p = load(&[20, 77, 2, 5, 16, 0, 0, 7]);
    assert!(Continue(&mut p, &mut h, BUDGET));
    assert_eq!(mem(&p, 10), 77);
}

#[test]
fn store_beyond_regions_faults_without_writing() {
    let mut h = TestHost::new();
    let far = MEM_SIZE as u32 + 100;
    let mut p = load(&[20, 5, 19, far, 16]);
    assert!(Continue(&mut p, &mut h, BUDGET));
    assert_eq!(p.processor.status, ProcessorStatus::Faulted);
    assert_eq!(mem(&p, far), 0);
    // the fault is recoverable: the next continue reaches the halt
    assert!(Continue(&mut p, &mut h, BUDGET));
    assert_eq!(p.processor.status, ProcessorStatus::Halted);
}

#[test]
fn unknown_opcode_faults_and_keeps_pointer() {
    let mut h = TestHost::new();
    let mut p = load(&[99]);
    assert!(Continue(&mut p, &mut h, BUDGET));
    assert_eq!(p.processor.status, ProcessorStatus::Faulted);
    assert_eq!(p.processor.next, 1);
    // resuming refetches the same bad word and faults again
    assert!(Continue(&mut p, &mut h, BUDGET));
    assert_eq!(p.processor.status, ProcessorStatus::Faulted);
    assert_eq!(p.processor.next, 1);
}

#[test]
fn grow_opcode_appends_region() {
    let mut h = TestHost::new();
    let mut p = load(&[14, 16]);
    assert_eq!(p.processor.address_space.region_count(), 1);
    assert!(Continue(&mut p, &mut h, BUDGET));
    assert_eq!(p.processor.address_space.region_count(), 2);
    assert_eq!(mem(&p, MEM_SIZE as u32), 0);
}

#[test]
fn syscall_passes_bus_and_operand_and_result_overwrites_bus() {
    let mut h = TestHost::new();
    h.syscall_result = -1;
    let mut p = load(&[20, 42, 15, 7, 16]);
    assert!(Continue(&mut p, &mut h, BUDGET));
    assert_eq!(h.calls, vec![(42u32, 7i32)]);
    assert_eq!(bits_to_i32(p.processor.bus), -1);
}

#[test]
fn conditional_branch_taken() {
    let mut h = TestHost::new();
    // push 5 then 3: most recent 3, previous 5 -> outcome -1, blz taken:
    // pointer 7 + offset 2 + advance 2 = 11, halt there
    let mut p = load(&[20, 5, 5, 20, 3, 5, 12, 2, 16, 0, 16]);
    assert!(Continue(&mut p, &mut h, BUDGET));
    assert_eq!(p.processor.alu.compare_result, -1);
    assert_eq!(p.processor.status, ProcessorStatus::Halted);
    assert_eq!(p.processor.next, 12);
}

#[test]
fn conditional_branch_not_taken() {
    let mut h = TestHost::new();
    // same operands but bgz: outcome -1 is not positive -> fall through to 9
    let mut p = load(&[20, 5, 5, 20, 3, 5, 11, 2, 16, 0, 16]);
    assert!(Continue(&mut p, &mut h, BUDGET));
    assert_eq!(p.processor.status, ProcessorStatus::Halted);
    assert_eq!(p.processor.next, 10);
}

#[test]
fn branch_on_equal() {
    let mut h = TestHost::new();
    // push 4 twice: outcome 0, bez taken -> 7 + 2 + 2 = 11
    let mut p = load(&[20, 4, 5, 20, 4, 5, 13, 2, 16, 0, 16]);
    assert!(Continue(&mut p, &mut h, BUDGET));
    assert_eq!(p.processor.next, 12);
}

#[test]
fn pause_opcode_stops_resumably() {
    let mut h = TestHost::new();
    let mut p = load(&[17, 16]);
    assert!(Continue(&mut p, &mut h, BUDGET));
    assert_eq!(p.processor.status, ProcessorStatus::Paused);
    assert_eq!(p.processor.next, 2);
    assert!(Continue(&mut p, &mut h, BUDGET));
    assert_eq!(p.processor.status, ProcessorStatus::Halted);
}

#[test]
fn breakpoint_stops_before_instruction_and_removal_resumes() {
    let mut h = TestHost::new();
    let mut p = load(&[20, 1, 20, 2, 16]);
    SetBreakpoint(&mut p, 3);
    enable_breakpoints(&mut p);
    assert!(Continue(&mut p, &mut h, BUDGET));
    assert_eq!(p.processor.status, ProcessorStatus::Paused);
    assert_eq!(p.processor.next, 3);
    // the instruction at 3 has not executed
    assert_eq!(p.processor.bus, 1);
    RemoveBreakpoint(&mut p, 3);
    assert!(Continue(&mut p, &mut h, BUDGET));
    assert_eq!(p.processor.bus, 2);
    assert_eq!(p.processor.status, ProcessorStatus::Halted);
}

#[test]
fn disabled_breakpoints_do_not_stop() {
    let mut h = TestHost::new();
    let mut p = load(&[20, 1, 20, 2, 16]);
    SetBreakpoint(&mut p, 3);
    enable_breakpoints(&mut p);
    disable_breakpoints(&mut p);
    assert!(Continue(&mut p, &mut h, BUDGET));
    assert_eq!(p.processor.status, ProcessorStatus::Halted);
    assert_eq!(p.processor.bus, 2);
}

#[test]
fn breakpoint_edits_are_idempotent() {
    let mut h = TestHost::new();
    let mut p = load(&[20, 1, 20, 2, 16]);
    SetBreakpoint(&mut p, 3);
    SetBreakpoint(&mut p, 3);
    enable_breakpoints(&mut p);
    RemoveBreakpoint(&mut p, 3);
    RemoveBreakpoint(&mut p, 3);
    // a second remove is harmless and the set really is empty
    assert!(Continue(&mut p, &mut h, BUDGET));
    assert_eq!(p.processor.status, ProcessorStatus::Halted);
}

#[test]
fn step_over_from_not_started_pauses_after_one_instruction() {
    let mut h = TestHost::new();
    let mut p = load(&[20, 9, 16]);
    assert_eq!(p.processor.status, ProcessorStatus::NotStarted);
    StepOver(&mut p, &mut h);
    // exactly one instruction ran, and the status was forced to Paused
    assert_eq!(p.processor.bus, 9);
    assert_eq!(p.processor.next, 3);
    assert_eq!(p.processor.status, ProcessorStatus::Paused);
}

#[test]
fn step_over_from_paused_runs_one_step() {
    let mut h = TestHost::new();
    let mut p = load(&[17, 20, 9, 16]);
    assert!(Continue(&mut p, &mut h, BUDGET));
    assert_eq!(p.processor.status, ProcessorStatus::Paused);
    StepOver(&mut p, &mut h);
    assert_eq!(p.processor.bus, 9);
    assert_eq!(p.processor.next, 4);
    // the single step left no stop reason, so the status is untouched
    assert_eq!(p.processor.status, ProcessorStatus::Paused);
}

#[test]
fn step_over_elsewhere_is_a_no_op() {
    let mut h = TestHost::new();
    let mut p = load(&[16]);
    assert!(Continue(&mut p, &mut h, BUDGET));
    assert_eq!(p.processor.status, ProcessorStatus::Halted);
    let next_before = p.processor.next;
    StepOver(&mut p, &mut h);
    assert_eq!(p.processor.status, ProcessorStatus::Halted);
    assert_eq!(p.processor.next, next_before);
}

#[test]
fn continue_from_halted_or_empty_executes_nothing() {
    let mut h = TestHost::new();
    let mut p = load(&[16]);
    assert!(Continue(&mut p, &mut h, BUDGET));
    let next_before = p.processor.next;
    assert!(Continue(&mut p, &mut h, BUDGET));
    assert_eq!(p.processor.status, ProcessorStatus::Halted);
    assert_eq!(p.processor.next, next_before);

    let mut empty = Program::new();
    assert!(Continue(&mut empty, &mut h, BUDGET));
    assert_eq!(empty.processor.status, ProcessorStatus::Empty);
    assert_eq!(empty.processor.next, 1);
}

#[test]
fn exhausted_budget_leaves_machine_running_and_resumable() {
    let mut h = TestHost::new();
    // bus stays 0, so the jump spins on its own address forever
    let mut p = load(&[10]);
    assert!(!run(&mut p, &mut h, 10));
    assert_eq!(p.processor.status, ProcessorStatus::Running);
    assert_eq!(p.processor.next, 1);
    // the machine is still resumable
    assert!(!Continue(&mut p, &mut h, 10));
    assert_eq!(p.processor.status, ProcessorStatus::Running);
}

#[test]
fn negate_opcode_negates_most_recent_operand() {
    let mut h = TestHost::new();
    // li 9, push, negate, move hi to bus
    let mut p = load(&[20, 9, 5, 7, 24, 16]);
    assert!(Continue(&mut p, &mut h, BUDGET));
    assert_eq!(bits_to_i32(p.processor.bus), -9);
    assert_eq!(p.processor.alu.lo, 0);
}

#[test]
fn float_mode_pipeline_adds_through_the_host() {
    let mut h = TestHost::new();
    let x = 1.5f32.to_bits();
    let y = 2.25f32.to_bits();
    // to float mode, li x, push, li y, push, add, move hi to bus
    let mut p = load(&[21, 20, x, 5, 20, y, 5, 6, 24, 16]);
    assert!(Continue(&mut p, &mut h, BUDGET));
    assert_eq!(f32::from_bits(p.processor.bus), 3.75);
    assert_eq!(p.processor.status, ProcessorStatus::Halted);
}

#[test]
fn pause_advances_past_the_pause_opcode() {
    let mut h = TestHost::new();
    // step over a pause: status comes from the step itself
    let mut p = load(&[17, 17, 16]);
    assert!(Continue(&mut p, &mut h, BUDGET));
    assert_eq!(p.processor.next, 2);
    StepOver(&mut p, &mut h);
    assert_eq!(p.processor.status, ProcessorStatus::Paused);
    assert_eq!(p.processor.next, 3);
}
