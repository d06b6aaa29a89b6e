//! The fetch-decode-execute core: bus register, instruction pointer,
//! per-step operand bookkeeping, addressing-mode resolution and opcode
//! dispatch. A processor owns one address space and one ALU.
//!
//! Each step: reset the per-step counters, fetch the opcode word at the
//! instruction pointer, dispatch, and — unless the opcode suppressed the
//! automatic advance — move the pointer past the opcode and the operands it
//! consumed. The whole step is captured by the relation [`step_rel`].
//!
//! Addressing is orthogonal over two axes: absolute versus relative to the
//! instruction pointer, and direct value versus one level of pointer
//! indirection. All pointer arithmetic wraps modulo 2^32.
//!
//! Faults are local: an unknown opcode, an integer divide by zero or a
//! write beyond the allocated regions leave the processor `Faulted`; they
//! never panic and never touch memory. The unknown opcode keeps the
//! instruction pointer where it is, so a broken program can never run past
//! the bad word; the arithmetic and region faults move past the faulting
//! instruction, so the host may resume.

use vstd::prelude::*;
use crate::alu::{ALU, AluMode, alu_operands_kept, alu_pushed, sign_cmp, tdiv};
use crate::bits::{hi32_of, lo32_of, sx32, wrap32, wrap64};
use crate::bits::{bits_to_i32, i32_to_bits, wrap_add_signed, wrap_add_u32};
use crate::bits::lemma_wrap32_add_again;
use crate::host::Host;
use crate::memory::{AddressSpace, RegionFault, MEM_SIZE};
use crate::memory::{addressable_size, read_at, region_index, write_at, zero_region};

verus! {

/// The exclusive execution states of a processor.
#[derive(Clone, Copy, PartialEq, Eq, Structural, Debug)]
pub enum ProcessorStatus {
    /// Stopped but resumable.
    Paused,
    /// Terminal: a halt opcode was executed.
    Halted,
    /// Initialized, never executed.
    NotStarted,
    /// Transient, only visible mid-run.
    Running,
    /// No address space allocated yet.
    Empty,
    /// A fault was reported: unknown opcode, integer divide by zero, or a
    /// write beyond the allocated regions.
    Faulted,
}

impl ProcessorStatus {
    /// The stable numeric encoding hosts expect.
    pub fn code(&self) -> (r: u32)
        ensures
            r == match *self {
                ProcessorStatus::Paused => 0u32,
                ProcessorStatus::Halted => 1u32,
                ProcessorStatus::NotStarted => 2u32,
                ProcessorStatus::Running => 3u32,
                ProcessorStatus::Empty => 4u32,
                ProcessorStatus::Faulted => 5u32,
            },
    {
        match self {
            ProcessorStatus::Paused => 0,
            ProcessorStatus::Halted => 1,
            ProcessorStatus::NotStarted => 2,
            ProcessorStatus::Running => 3,
            ProcessorStatus::Empty => 4,
            ProcessorStatus::Faulted => 5,
        }
    }
}

/// Why a step asks the run loop to stop, or `Run` to keep going.
#[derive(Clone, Copy, PartialEq, Eq, Structural, Debug)]
pub enum StopCode {
    Pause,
    Halt,
    Fault,
    Run,
}

/// The fetch-decode-execute core.
pub struct Processor {
    /// The single transfer register connecting memory, ALU and operands.
    pub bus: u32,
    pub alu: ALU,
    /// The instruction pointer.
    pub next: u32,
    pub status: ProcessorStatus,
    pub address_space: AddressSpace,
    /// Operands consumed by the opcode executing in the current step.
    pub per_step_params: u32,
    /// Set when the executing opcode suppresses the automatic advance.
    pub per_step_dont_move: bool,
}

/// The opcode word a step of `p` would fetch.
pub open spec fn opcode_of(p: Processor) -> u32 {
    read_at(p.address_space@, p.next)
}

/// The first operand word of the instruction at `p`'s pointer.
pub open spec fn operand1(p: Processor) -> u32 {
    read_at(p.address_space@, wrap32(p.next as int + 1))
}

/// The address `off` words (signed) from `p`'s instruction pointer.
pub open spec fn rel_target(p: Processor, off: u32) -> u32 {
    wrap32(p.next as int + sx32(off))
}

/// `p` after the normal end-of-step advance for an opcode that consumed
/// `k` operands.
pub open spec fn stepped(p: Processor, k: u32) -> Processor {
    Processor {
        next: wrap32(p.next as int + k as int + 1),
        per_step_params: k,
        per_step_dont_move: false,
        ..p
    }
}

/// Frame of an ALU arithmetic opcode: only the `hi`/`lo` registers may
/// change, and the pointer moves one word.
pub open spec fn arith_framed(pre: Processor, post: Processor) -> bool {
    &&& post.bus == pre.bus
    &&& post.status == pre.status
    &&& post.address_space == pre.address_space
    &&& post.next == wrap32(pre.next as int + 1)
    &&& post.per_step_params == 0
    &&& !post.per_step_dont_move
    &&& alu_operands_kept(pre.alu, post.alu)
}

/// Outcome of a store opcode aimed at address `tgt`: the write lands, or a
/// region fault is reported and nothing is written.
pub open spec fn stored(pre: Processor, post: Processor, rc: StopCode, tgt: u32) -> bool {
    &&& post.bus == pre.bus
    &&& post.alu == pre.alu
    &&& post.next == wrap32(pre.next as int + 2)
    &&& post.per_step_params == 1
    &&& !post.per_step_dont_move
    &&& if region_index(tgt) < pre.address_space@.len() {
        &&& post.address_space@ == write_at(pre.address_space@, tgt, pre.bus)
        &&& post.status == pre.status
        &&& rc == StopCode::Run
    } else {
        &&& post.address_space == pre.address_space
        &&& post.status == ProcessorStatus::Faulted
        &&& rc == StopCode::Fault
    }
}

/// Outcome of a conditional branch opcode (`op` one of 11, 12, 13): the
/// comparison runs first; a taken branch offsets the pointer by the operand
/// before the normal advance applies on top.
pub open spec fn branched(pre: Processor, post: Processor, op: u32) -> bool {
    let off = operand1(pre);
    let taken = if op == 11 {
        post.alu.compare_result > 0
    } else if op == 12 {
        post.alu.compare_result < 0
    } else {
        post.alu.compare_result == 0
    };
    &&& post.bus == pre.bus
    &&& post.status == pre.status
    &&& post.address_space == pre.address_space
    &&& post.alu.value_a_int == pre.alu.value_a_int
    &&& post.alu.value_b_int == pre.alu.value_b_int
    &&& post.alu.value_a_float_bits == pre.alu.value_a_float_bits
    &&& post.alu.value_b_float_bits == pre.alu.value_b_float_bits
    &&& post.alu.mode == pre.alu.mode
    &&& post.alu.hi == pre.alu.hi
    &&& post.alu.lo == pre.alu.lo
    &&& (pre.alu.mode is Int ==> post.alu.compare_result == sign_cmp(
        pre.alu.value_a_int as int,
        pre.alu.value_b_int as int,
    ))
    &&& post.next == if taken {
        wrap32(pre.next as int + sx32(off) + 2)
    } else {
        wrap32(pre.next as int + 2)
    }
    &&& post.per_step_params == 1
    &&& !post.per_step_dont_move
}

/// One fetch-decode-execute step, as a relation between the processor
/// before and after and the stop code the step reported.
///
/// Where an opcode reaches the host (a syscall, or float arithmetic), the
/// relation states what holds of the processor whatever the host returned.
pub open spec fn step_rel(pre: Processor, post: Processor, rc: StopCode) -> bool {
    let m = pre.address_space@;
    let op = opcode_of(pre);
    &&& post.address_space.wf()
    &&& if op == 0 {
        // no-op
        post == stepped(pre, 0) && rc == StopCode::Run
    } else if op == 1 {
        // load via relative pointer: one extra indirection
        let ptr = read_at(m, rel_target(pre, operand1(pre)));
        post == stepped(Processor { bus: read_at(m, rel_target(pre, ptr)), ..pre }, 1) && rc
            == StopCode::Run
    } else if op == 2 {
        // store via relative pointer
        let ptr = read_at(m, rel_target(pre, operand1(pre)));
        stored(pre, post, rc, rel_target(pre, ptr))
    } else if op == 3 {
        // load via relative address
        post == stepped(Processor { bus: read_at(m, rel_target(pre, operand1(pre))), ..pre }, 1)
            && rc == StopCode::Run
    } else if op == 4 {
        // store via relative address
        stored(pre, post, rc, rel_target(pre, operand1(pre)))
    } else if op == 5 {
        // push the bus word to the ALU
        post == stepped(Processor { alu: alu_pushed(pre.alu, pre.bus), ..pre }, 0) && rc
            == StopCode::Run
    } else if op == 6 {
        // add
        &&& arith_framed(pre, post)
        &&& post.alu.lo == 0
        &&& (pre.alu.mode is Int ==> post.alu.hi == wrap32(
            pre.alu.value_a_int as int + pre.alu.value_b_int as int,
        ))
        &&& rc == StopCode::Run
    } else if op == 7 {
        // negate
        &&& arith_framed(pre, post)
        &&& post.alu.lo == 0
        &&& (pre.alu.mode is Int ==> post.alu.hi == wrap32(-(pre.alu.value_a_int as int)))
        &&& rc == StopCode::Run
    } else if op == 8 {
        // multiply, double-width result split across hi/lo
        &&& arith_framed(pre, post)
        &&& (pre.alu.mode is Int ==> {
            let p = wrap64(pre.alu.value_a_int as int * pre.alu.value_b_int as int);
            post.alu.hi == hi32_of(p) && post.alu.lo == lo32_of(p)
        })
        &&& rc == StopCode::Run
    } else if op == 9 {
        // divide, most recent over previous
        if pre.alu.mode is Int && pre.alu.value_b_int == 0 {
            post == (Processor {
                status: ProcessorStatus::Faulted,
                next: wrap32(pre.next as int + 1),
                per_step_params: 0u32,
                per_step_dont_move: false,
                ..pre
            }) && rc == StopCode::Fault
        } else {
            &&& arith_framed(pre, post)
            &&& (pre.alu.mode is Int ==> post.alu.hi == wrap32(
                tdiv(pre.alu.value_a_int as int, pre.alu.value_b_int as int),
            ) && post.alu.lo == 0)
            &&& rc == StopCode::Run
        }
    } else if op == 10 {
        // unconditional jump: the bus holds the signed offset and the
        // automatic advance is suppressed
        post == (Processor {
            next: wrap32(pre.next as int + sx32(pre.bus)),
            per_step_params: 0u32,
            per_step_dont_move: true,
            ..pre
        }) && rc == StopCode::Run
    } else if op == 11 || op == 12 || op == 13 {
        // conditional relative jumps on the comparison outcome
        branched(pre, post, op) && rc == StopCode::Run
    } else if op == 14 {
        // grow: append one zeroed region
        &&& post.address_space@ == m.push(zero_region())
        &&& post.bus == pre.bus
        &&& post.alu == pre.alu
        &&& post.status == pre.status
        &&& post.next == wrap32(pre.next as int + 1)
        &&& post.per_step_params == 0
        &&& !post.per_step_dont_move
        &&& rc == StopCode::Run
    } else if op == 15 {
        // syscall: the host result overwrites the bus
        &&& post.alu == pre.alu
        &&& post.status == pre.status
        &&& post.address_space == pre.address_space
        &&& post.next == wrap32(pre.next as int + 2)
        &&& post.per_step_params == 1
        &&& !post.per_step_dont_move
        &&& rc == StopCode::Run
    } else if op == 16 {
        // halt: terminal
        post == (Processor {
            status: ProcessorStatus::Halted,
            next: wrap32(pre.next as int + 1),
            per_step_params: 0u32,
            per_step_dont_move: false,
            ..pre
        }) && rc == StopCode::Halt
    } else if op == 17 {
        // pause: stops the run loop but stays resumable
        post == (Processor {
            status: ProcessorStatus::Paused,
            next: wrap32(pre.next as int + 1),
            per_step_params: 0u32,
            per_step_dont_move: false,
            ..pre
        }) && rc == StopCode::Pause
    } else if op == 18 {
        // load via absolute address
        post == stepped(Processor { bus: read_at(m, operand1(pre)), ..pre }, 1) && rc
            == StopCode::Run
    } else if op == 19 {
        // store via absolute address
        stored(pre, post, rc, operand1(pre))
    } else if op == 20 {
        // load immediate
        post == stepped(Processor { bus: operand1(pre), ..pre }, 1) && rc == StopCode::Run
    } else if op == 21 {
        // ALU to float mode, bits preserved
        post == stepped(Processor {
            alu: ALU {
                mode: AluMode::Float,
                value_a_float_bits: wrap32(pre.alu.value_a_int as int),
                value_b_float_bits: wrap32(pre.alu.value_b_int as int),
                ..pre.alu
            },
            ..pre
        }, 0) && rc == StopCode::Run
    } else if op == 22 {
        // ALU to int mode, bits preserved
        post == stepped(Processor {
            alu: ALU {
                mode: AluMode::Int,
                value_a_int: sx32(pre.alu.value_a_float_bits) as i32,
                value_b_int: sx32(pre.alu.value_b_float_bits) as i32,
                ..pre.alu
            },
            ..pre
        }, 0) && rc == StopCode::Run
    } else if op == 23 {
        // ALU lo to bus
        post == stepped(Processor { bus: pre.alu.lo, ..pre }, 0) && rc == StopCode::Run
    } else if op == 24 {
        // ALU hi to bus
        post == stepped(Processor { bus: pre.alu.hi, ..pre }, 0) && rc == StopCode::Run
    } else {
        // unknown opcode: fault, pointer kept on the bad word
        post == (Processor {
            status: ProcessorStatus::Faulted,
            per_step_params: 0u32,
            per_step_dont_move: true,
            ..pre
        }) && rc == StopCode::Fault
    }
}

impl Processor {
    pub open spec fn wf(&self) -> bool {
        self.address_space.wf()
    }

    /// A fresh processor: no regions allocated, pointer on address 1,
    /// status `Empty`.
    pub fn new() -> (r: Processor)
        ensures
            r.wf(),
            r.bus == 0,
            r.next == 1,
            r.status is Empty,
            r.address_space@.len() == 0,
            r.alu == (ALU {
                value_a_int: 0i32,
                value_b_int: 0i32,
                value_a_float_bits: 0u32,
                value_b_float_bits: 0u32,
                compare_result: 0i32,
                hi: 0u32,
                lo: 0u32,
                mode: AluMode::Int,
            }),
            r.per_step_params == 0,
            !r.per_step_dont_move,
    {
        Processor {
            bus: 0,
            alu: ALU::new(),
            next: 1,
            status: ProcessorStatus::Empty,
            address_space: AddressSpace::empty(),
            per_step_params: 0,
            per_step_dont_move: false,
        }
    }

    /// The current instruction pointer.
    pub fn get_instruction_pointer(&self) -> (r: u32)
        ensures
            r == self.next,
    {
        self.next
    }

    /// Reads the next operand word of the executing instruction and counts
    /// it as consumed.
    fn get_param(&mut self) -> (param: u32)
        requires
            old(self).wf(),
            old(self).per_step_params < 1000,
        ensures
            *final(self) == (Processor {
                per_step_params: (old(self).per_step_params + 1) as u32,
                ..*old(self)
            }),
            param == read_at(
                old(self).address_space@,
                wrap32(old(self).next as int + old(self).per_step_params as int + 1),
            ),
    {
        let loc = wrap_add_u32(self.next, self.per_step_params + 1);
        let param = self.address_space.read(loc);
        self.per_step_params = self.per_step_params + 1;
        param
    }

    /// Clears the per-step counters at the start of a step.
    fn reset_per_step(&mut self)
        ensures
            *final(self) == (Processor {
                per_step_params: 0u32,
                per_step_dont_move: false,
                ..*old(self)
            }),
    {
        self.per_step_params = 0;
        self.per_step_dont_move = false;
    }

    /// Opcode 1: bus receives the cell one extra indirection away, both
    /// hops relative to the instruction pointer.
    fn load_location_relative_pointer(&mut self, offset: u32)
        requires
            old(self).wf(),
        ensures
            ({
                let m = old(self).address_space@;
                let ptr = read_at(m, rel_target(*old(self), offset));
                *final(self) == (Processor {
                    bus: read_at(m, rel_target(*old(self), ptr)),
                    ..*old(self)
                })
            }),
    {
        let first = wrap_add_signed(self.next, offset);
        let ptr = self.address_space.read(first);
        let tgt = wrap_add_signed(self.next, ptr);
        self.bus = self.address_space.read(tgt);
    }

    /// Writes the bus to `tgt`, reporting a region fault (and writing
    /// nothing) when `tgt` lies beyond the allocated regions.
    fn store_bus_to(&mut self, tgt: u32) -> (r: Result<(), RegionFault>)
        requires
            old(self).wf(),
        ensures
            final(self).wf(),
            final(self).bus == old(self).bus,
            final(self).alu == old(self).alu,
            final(self).next == old(self).next,
            final(self).status == old(self).status,
            final(self).per_step_params == old(self).per_step_params,
            final(self).per_step_dont_move == old(self).per_step_dont_move,
            region_index(tgt) < old(self).address_space@.len() ==> r is Ok && final(self).address_space@ == write_at(old(self).address_space@, tgt, old(self).bus),
            region_index(tgt) >= old(self).address_space@.len() ==> r is Err && final(self).address_space == old(self).address_space,
    {
        let value = self.bus;
        self.address_space.write(tgt, value)
    }

    /// Opcode 2: stores the bus through a relative pointer.
    fn set_location_relative_pointer(&mut self, offset: u32) -> (r: Result<(), RegionFault>)
        requires
            old(self).wf(),
        ensures
            ({
                let m = old(self).address_space@;
                let ptr = read_at(m, rel_target(*old(self), offset));
                let tgt = rel_target(*old(self), ptr);
                &&& final(self).wf()
                &&& final(self).bus == old(self).bus
                &&& final(self).alu == old(self).alu
                &&& final(self).next == old(self).next
                &&& final(self).status == old(self).status
                &&& final(self).per_step_params == old(self).per_step_params
                &&& final(self).per_step_dont_move == old(self).per_step_dont_move
                &&& region_index(tgt) < m.len() ==> r is Ok && final(self).address_space@
                    == write_at(m, tgt, old(self).bus)
                &&& region_index(tgt) >= m.len() ==> r is Err && final(self).address_space == old(self).address_space
            }),
    {
        let first = wrap_add_signed(self.next, offset);
        let ptr = self.address_space.read(first);
        let tgt = wrap_add_signed(self.next, ptr);
        self.store_bus_to(tgt)
    }

    /// Opcode 3: bus receives the cell at the relative address.
    fn load_location_relative(&mut self, offset: u32)
        requires
            old(self).wf(),
        ensures
            *final(self) == (Processor {
                bus: read_at(old(self).address_space@, rel_target(*old(self), offset)),
                ..*old(self)
            }),
    {
        let tgt = wrap_add_signed(self.next, offset);
        self.bus = self.address_space.read(tgt);
    }

    /// Opcode 4: stores the bus at the relative address.
    fn set_location_relative(&mut self, offset: u32) -> (r: Result<(), RegionFault>)
        requires
            old(self).wf(),
        ensures
            ({
                let tgt = rel_target(*old(self), offset);
                let m = old(self).address_space@;
                &&& final(self).wf()
                &&& final(self).bus == old(self).bus
                &&& final(self).alu == old(self).alu
                &&& final(self).next == old(self).next
                &&& final(self).status == old(self).status
                &&& final(self).per_step_params == old(self).per_step_params
                &&& final(self).per_step_dont_move == old(self).per_step_dont_move
                &&& region_index(tgt) < m.len() ==> r is Ok && final(self).address_space@
                    == write_at(m, tgt, old(self).bus)
                &&& region_index(tgt) >= m.len() ==> r is Err && final(self).address_space == old(self).address_space
            }),
    {
        let tgt = wrap_add_signed(self.next, offset);
        self.store_bus_to(tgt)
    }

    /// Opcode 18: bus receives the cell at the absolute address.
    fn load_location(&mut self, location: u32)
        requires
            old(self).wf(),
        ensures
            *final(self) == (Processor {
                bus: read_at(old(self).address_space@, location),
                ..*old(self)
            }),
    {
        self.bus = self.address_space.read(location);
    }

    /// Opcode 20: the operand value goes directly to the bus.
    fn load_immediate(&mut self, value: u32)
        ensures
            *final(self) == (Processor { bus: value, ..*old(self) }),
    {
        self.bus = value;
    }

    /// Opcode 10: the bus holds a signed offset; the pointer jumps there.
    fn jump(&mut self)
        ensures
            *final(self) == (Processor {
                next: wrap32(old(self).next as int + sx32(old(self).bus)),
                ..*old(self)
            }),
    {
        self.next = wrap_add_signed(self.next, self.bus);
    }

    /// Opcodes 11-13 share this shape: run the comparison, then offset the
    /// pointer by the operand when `taken` says so.
    /// Opcode 11: branch when the comparison outcome is positive.
    fn bgz<H: Host>(&mut self, host: &H, relative: u32)
        requires
            old(self).wf(),
        ensures
            branch_stepped(*old(self), *final(self), relative),
            final(self).next == if final(self).alu.compare_result > 0 {
                wrap32(old(self).next as int + sx32(relative))
            } else {
                old(self).next
            },
    {
        self.alu.cmp(host);
        if self.alu.compare_result > 0 {
            self.next = wrap_add_signed(self.next, relative);
        }
    }

    /// Opcode 12: branch when the comparison outcome is negative.
    fn blz<H: Host>(&mut self, host: &H, relative: u32)
        requires
            old(self).wf(),
        ensures
            branch_stepped(*old(self), *final(self), relative),
            final(self).next == if final(self).alu.compare_result < 0 {
                wrap32(old(self).next as int + sx32(relative))
            } else {
                old(self).next
            },
    {
        self.alu.cmp(host);
        if self.alu.compare_result < 0 {
            self.next = wrap_add_signed(self.next, relative);
        }
    }

    /// Opcode 13: branch when the comparison outcome is zero.
    fn bez<H: Host>(&mut self, host: &H, relative: u32)
        requires
            old(self).wf(),
        ensures
            branch_stepped(*old(self), *final(self), relative),
            final(self).next == if final(self).alu.compare_result == 0 {
                wrap32(old(self).next as int + sx32(relative))
            } else {
                old(self).next
            },
    {
        self.alu.cmp(host);
        if self.alu.compare_result == 0 {
            self.next = wrap_add_signed(self.next, relative);
        }
    }

    /// Opcode 14: appends one zeroed region to the address space.
    fn add_region(&mut self)
        requires
            old(self).wf(),
        ensures
            final(self).wf(),
            final(self).address_space@ == old(self).address_space@.push(zero_region()),
            final(self).bus == old(self).bus,
            final(self).alu == old(self).alu,
            final(self).next == old(self).next,
            final(self).status == old(self).status,
            final(self).per_step_params == old(self).per_step_params,
            final(self).per_step_dont_move == old(self).per_step_dont_move,
    {
        self.address_space.grow();
    }

    /// Opcode 15: passes `(bus, argument)` to the host bridge; the result
    /// overwrites the bus. Nothing is promised of the value that arrives.
    fn syscall<H: Host>(&mut self, host: &mut H, argument: u32)
        ensures
            final(self).alu == old(self).alu,
            final(self).next == old(self).next,
            final(self).status == old(self).status,
            final(self).address_space == old(self).address_space,
            final(self).per_step_params == old(self).per_step_params,
            final(self).per_step_dont_move == old(self).per_step_dont_move,
    {
        let code = self.bus;
        let result = host.syscall(code, bits_to_i32(argument));
        self.bus = i32_to_bits(result);
    }

    /// One fetch-decode-execute step. See [`step_rel`] for everything it
    /// does; it never panics, and every fault is surfaced as a status.
    pub fn step<H: Host>(&mut self, host: &mut H) -> (rc: StopCode)
        requires
            old(self).wf(),
        ensures
            final(self).wf(),
            step_rel(*old(self), *final(self), rc),
    {
        let ghost pre = *self;
        self.reset_per_step();
        let op = self.address_space.read(self.next);
        let mut rc = StopCode::Run;
        match op {
            0 => {},
            1 => {
                let param = self.get_param();
                self.load_location_relative_pointer(param);
            },
            2 => {
                let param = self.get_param();
                let r = self.set_location_relative_pointer(param);
                if r.is_err() {
                    rc = StopCode::Fault;
                    self.status = ProcessorStatus::Faulted;
                }
            },
            3 => {
                let param = self.get_param();
                self.load_location_relative(param);
            },
            4 => {
                let param = self.get_param();
                let r = self.set_location_relative(param);
                if r.is_err() {
                    rc = StopCode::Fault;
                    self.status = ProcessorStatus::Faulted;
                }
            },
            5 => {
                let bus = self.bus;
                self.alu.push_value(bus);
            },
            6 => {
                self.alu.add(host);
            },
            7 => {
                self.alu.negate(host);
            },
            8 => {
                self.alu.multiply(host);
            },
            9 => {
                let r = self.alu.divide(host);
                if r.is_err() {
                    rc = StopCode::Fault;
                    self.status = ProcessorStatus::Faulted;
                }
            },
            10 => {
                self.jump();
                self.per_step_dont_move = true;
            },
            11 => {
                let param = self.get_param();
                self.bgz(host, param);
                proof {
                    lemma_wrap32_add_again(pre.next as int + sx32(param), 2);
                }
            },
            12 => {
                let param = self.get_param();
                self.blz(host, param);
                proof {
                    lemma_wrap32_add_again(pre.next as int + sx32(param), 2);
                }
            },
            13 => {
                let param = self.get_param();
                self.bez(host, param);
                proof {
                    lemma_wrap32_add_again(pre.next as int + sx32(param), 2);
                }
            },
            14 => {
                self.add_region();
            },
            15 => {
                let param = self.get_param();
                self.syscall(host, param);
            },
            16 => {
                rc = StopCode::Halt;
                self.status = ProcessorStatus::Halted;
            },
            17 => {
                rc = StopCode::Pause;
                self.status = ProcessorStatus::Paused;
            },
            18 => {
                let param = self.get_param();
                self.load_location(param);
            },
            19 => {
                let param = self.get_param();
                let r = self.store_bus_to(param);
                if r.is_err() {
                    rc = StopCode::Fault;
                    self.status = ProcessorStatus::Faulted;
                }
            },
            20 => {
                let param = self.get_param();
                self.load_immediate(param);
            },
            21 => {
                self.alu.set_mode_float();
            },
            22 => {
                self.alu.set_mode_int();
            },
            23 => {
                let v = self.alu.lo;
                self.bus = v;
            },
            24 => {
                let v = self.alu.hi;
                self.bus = v;
            },
            _ => {
                rc = StopCode::Fault;
                self.status = ProcessorStatus::Faulted;
                self.per_step_dont_move = true;
            },
        }
        if !self.per_step_dont_move {
            let k = self.per_step_params;
            self.next = wrap_add_u32(self.next, k + 1);
        }
        rc
    }
}

/// Frame of the conditional branch handlers: everything but the comparison
/// outcome and the pointer is kept, and in integer mode the outcome is the
/// sign of most-recent minus previous.
pub open spec fn branch_stepped(pre: Processor, post: Processor, relative: u32) -> bool {
    &&& post.bus == pre.bus
    &&& post.status == pre.status
    &&& post.address_space == pre.address_space
    &&& post.per_step_params == pre.per_step_params
    &&& post.per_step_dont_move == pre.per_step_dont_move
    &&& post.alu.value_a_int == pre.alu.value_a_int
    &&& post.alu.value_b_int == pre.alu.value_b_int
    &&& post.alu.value_a_float_bits == pre.alu.value_a_float_bits
    &&& post.alu.value_b_float_bits == pre.alu.value_b_float_bits
    &&& post.alu.mode == pre.alu.mode
    &&& post.alu.hi == pre.alu.hi
    &&& post.alu.lo == pre.alu.lo
    &&& (pre.alu.mode is Int ==> post.alu.compare_result == sign_cmp(
        pre.alu.value_a_int as int,
        pre.alu.value_b_int as int,
    ))
}

/// How many operand words each defined opcode consumes.
pub open spec fn operand_count(op: u32) -> u32 {
    if op == 1 || op == 2 || op == 3 || op == 4 || op == 11 || op == 12 || op == 13 || op == 15
        || op == 18 || op == 19 || op == 20 {
        1u32
    } else {
        0u32
    }
}

/// Whether `op` is one of the defined opcodes.
pub open spec fn is_defined_opcode(op: u32) -> bool {
    op <= 24
}

/// Every defined opcode with `k` operands — excluding the unconditional
/// jump, and a conditional branch only when it is not taken — advances the
/// instruction pointer by exactly `k + 1` (modulo 2^32). This holds also
/// for the faulting divide and the faulting stores.
pub proof fn lemma_step_advance(pre: Processor, post: Processor, rc: StopCode)
    requires
        step_rel(pre, post, rc),
        is_defined_opcode(opcode_of(pre)),
        opcode_of(pre) != 10,
        opcode_of(pre) == 11 ==> post.alu.compare_result <= 0,
        opcode_of(pre) == 12 ==> post.alu.compare_result >= 0,
        opcode_of(pre) == 13 ==> post.alu.compare_result != 0,
    ensures
        post.next == wrap32(pre.next as int + operand_count(opcode_of(pre)) as int + 1),
{
}

/// The unconditional jump sets the pointer to `pointer + signed(bus)` and
/// performs no additional advance; nothing else changes.
pub proof fn lemma_jump_sets_pointer(pre: Processor, post: Processor, rc: StopCode)
    requires
        step_rel(pre, post, rc),
        opcode_of(pre) == 10,
    ensures
        post.next == wrap32(pre.next as int + sx32(pre.bus)),
        post.bus == pre.bus,
        post.alu == pre.alu,
        post.status == pre.status,
        post.address_space@ == pre.address_space@,
        rc == StopCode::Run,
{
}

/// After a grow opcode the region count rises by one, the new region's
/// index equals the prior count and it is all zeroes, and the addressable
/// size grows by exactly one region.
pub proof fn lemma_grow_opcode(pre: Processor, post: Processor, rc: StopCode)
    requires
        step_rel(pre, post, rc),
        opcode_of(pre) == 14,
    ensures
        post.address_space@.len() == pre.address_space@.len() + 1,
        post.address_space@[pre.address_space@.len() as int] == zero_region(),
        forall|i: int| 0 <= i < pre.address_space@.len() ==> post.address_space@[i]
            == pre.address_space@[i],
        addressable_size(post.address_space@) == addressable_size(pre.address_space@) + MEM_SIZE,
{
}

} // verus!
