//! Run control and the debugger: a program owns a processor, a breakpoint
//! set and an enable flag, and offers `Continue` and `StepOver` as the only
//! two execution entry points.
//!
//! A breakpoint stops the run loop *before* the instruction at its address
//! executes ("stop-before" semantics): the processor is left `Paused` with
//! the pointer still on that address, and the instruction is skipped for
//! that call.
//!
//! A bytecode stream lacking both breakpoints and a pause or halt opcode
//! never stops on its own; that liveness hazard is deliberate and is made
//! explicit here by the `max_steps` budget of [`run`]: the loop gives
//! control back to the host once the budget is spent, leaving the
//! processor `Running` and resumable, and a caller passes as large a
//! budget as it likes.

use vstd::prelude::*;
use crate::alu::{ALU, AluMode};
use crate::host::Host;
use crate::memory::zero_region;
use crate::processor::{Processor, ProcessorStatus, StopCode, step_rel};

verus! {

/// A processor together with its debugger state.
pub struct Program {
    pub processor: Processor,
    /// The breakpoint set: membership semantics, insert and remove
    /// idempotent.
    pub breakpoints: Vec<u32>,
    /// Whether breakpoint checks occur; independent of processor status.
    pub breakpoints_enabled: bool,
}

impl Program {
    pub open spec fn wf(&self) -> bool {
        self.processor.wf()
    }

    /// Whether address `a` currently has a breakpoint.
    pub open spec fn has_bp(&self, a: u32) -> bool {
        self.breakpoints@.contains(a)
    }

    /// A fresh program: empty processor, no breakpoints, checks disabled.
    pub fn new() -> (r: Program)
        ensures
            r.wf(),
            r.processor.status is Empty,
            r.processor.address_space@.len() == 0,
            r.processor.next == 1,
            r.processor.bus == 0,
            r.processor.alu == (ALU {
                value_a_int: 0i32,
                value_b_int: 0i32,
                value_a_float_bits: 0u32,
                value_b_float_bits: 0u32,
                compare_result: 0i32,
                hi: 0u32,
                lo: 0u32,
                mode: AluMode::Int,
            }),
            r.processor.per_step_params == 0,
            !r.processor.per_step_dont_move,
            !r.breakpoints_enabled,
            forall|a: u32| !r.has_bp(a),
    {
        Program { processor: Processor::new(), breakpoints: Vec::new(), breakpoints_enabled: false }
    }
}

/// Whether `v` holds `point`.
fn contains_bp(v: &Vec<u32>, point: u32) -> (r: bool)
    ensures
        r == v@.contains(point),
{
    let mut i: usize = 0;
    while i < v.len()
        invariant
            i <= v@.len(),
            forall|j: int| 0 <= j < i ==> v@[j] != point,
        decreases v@.len() - i,
    {
        if v[i] == point {
            proof {
                assert(v@[i as int] == point);
            }
            return true;
        }
        i = i + 1;
    }
    false
}

/// Allocates the first region and readies the processor: status becomes
/// `NotStarted`.
pub fn initialize(program: &mut Program)
    requires
        old(program).wf(),
    ensures
        final(program).wf(),
        final(program).processor.status is NotStarted,
        final(program).processor.address_space@ == old(program).processor.address_space@.push(
            zero_region(),
        ),
        final(program).processor.bus == old(program).processor.bus,
        final(program).processor.next == old(program).processor.next,
        final(program).processor.alu == old(program).processor.alu,
        final(program).breakpoints@ == old(program).breakpoints@,
        final(program).breakpoints_enabled == old(program).breakpoints_enabled,
{
    program.processor.address_space.grow();
    program.processor.status = ProcessorStatus::NotStarted;
}

/// Adds a breakpoint at `point`; idempotent, legal in any status.
pub fn SetBreakpoint(program: &mut Program, point: u32)
    requires
        old(program).wf(),
    ensures
        final(program).wf(),
        final(program).processor == old(program).processor,
        final(program).breakpoints_enabled == old(program).breakpoints_enabled,
        forall|a: u32| final(program).has_bp(a) <==> (old(program).has_bp(a) || a == point),
{
    if !contains_bp(&program.breakpoints, point) {
        let ghost before = program.breakpoints@;
        program.breakpoints.push(point);
        proof {
            assert forall|a: u32| program.breakpoints@.contains(a) <==> (before.contains(a) || a
                == point) by {
                if before.contains(a) {
                    let j = choose|j: int| 0 <= j < before.len() && before[j] == a;
                    assert(program.breakpoints@[j] == a);
                }
                if a == point {
                    assert(program.breakpoints@[before.len() as int] == a);
                }
                if program.breakpoints@.contains(a) {
                    let j = choose|j: int|
                        0 <= j < program.breakpoints@.len() && program.breakpoints@[j] == a;
                    if j < before.len() {
                        assert(before[j] == a);
                    }
                }
            }
        }
    }
}

/// Removes the breakpoint at `point`; idempotent, legal in any status.
pub fn RemoveBreakpoint(program: &mut Program, point: u32)
    requires
        old(program).wf(),
    ensures
        final(program).wf(),
        final(program).processor == old(program).processor,
        final(program).breakpoints_enabled == old(program).breakpoints_enabled,
        forall|a: u32| final(program).has_bp(a) <==> (old(program).has_bp(a) && a != point),
{
    let ghost orig = program.breakpoints@;
    let mut kept: Vec<u32> = Vec::new();
    let mut i: usize = 0;
    while i < program.breakpoints.len()
        invariant
            i <= program.breakpoints@.len(),
            program.breakpoints@ == orig,
            forall|a: u32| kept@.contains(a) ==> a != point,
            forall|a: u32| kept@.contains(a) ==> orig.contains(a),
            forall|j: int| 0 <= j < i && orig[j] != point ==> kept@.contains(orig[j]),
        decreases program.breakpoints@.len() - i,
    {
        let x = program.breakpoints[i];
        if x != point {
            let ghost kept_before = kept@;
            kept.push(x);
            proof {
                assert forall|a: u32| kept@.contains(a) implies (kept_before.contains(a) || a
                    == x) by {
                    let j = choose|j: int| 0 <= j < kept@.len() && kept@[j] == a;
                    if j < kept_before.len() {
                        assert(kept_before[j] == a);
                    }
                }
                assert(kept@[kept_before.len() as int] == x);
                assert forall|a: u32| kept@.contains(a) implies a != point by {
                    assert(kept_before.contains(a) || a == x);
                }
                assert forall|a: u32| kept@.contains(a) implies orig.contains(a) by {
                    assert(kept_before.contains(a) || a == x);
                    if !kept_before.contains(a) {
                        assert(orig[i as int] == a);
                    }
                }
                assert forall|j: int| 0 <= j < i + 1 && orig[j] != point implies kept@.contains(
                    orig[j],
                ) by {
                    if j < i {
                        assert(kept_before.contains(orig[j]));
                        let jj = choose|jj: int|
                            0 <= jj < kept_before.len() && kept_before[jj] == orig[j];
                        assert(kept@[jj] == orig[j]);
                    } else {
                        assert(kept@[kept_before.len() as int] == orig[j]);
                    }
                }
            }
        }
        i = i + 1;
    }
    program.breakpoints = kept;
    proof {
        assert forall|a: u32| program.breakpoints@.contains(a) <==> (orig.contains(a) && a
            != point) by {
            if orig.contains(a) && a != point {
                let j = choose|j: int| 0 <= j < orig.len() && orig[j] == a;
                assert(program.breakpoints@.contains(orig[j]));
            }
        }
    }
}

/// Turns breakpoint checking on.
pub fn enable_breakpoints(program: &mut Program)
    ensures
        *final(program) == (Program { breakpoints_enabled: true, ..*old(program) }),
{
    program.breakpoints_enabled = true;
}

/// Turns breakpoint checking off.
pub fn disable_breakpoints(program: &mut Program)
    ensures
        *final(program) == (Program { breakpoints_enabled: false, ..*old(program) }),
{
    program.breakpoints_enabled = false;
}

/// One run-loop iteration, as a relation: either a breakpoint at the
/// current pointer stops the loop before anything executes, or the
/// processor performs one [`step_rel`] step and the loop stops exactly
/// when the step said so.
pub open spec fn prog_step_rel(pre: Program, post: Program, stop: bool) -> bool {
    &&& post.breakpoints@ == pre.breakpoints@
    &&& post.breakpoints_enabled == pre.breakpoints_enabled
    &&& if pre.breakpoints_enabled && pre.has_bp(pre.processor.next) {
        stop && post.processor == (Processor { status: ProcessorStatus::Paused, ..pre.processor })
    } else {
        exists|rc: StopCode|
            #[trigger] step_rel(pre.processor, post.processor, rc) && (stop == (rc
                != StopCode::Run))
    }
}

/// One run-loop iteration: checks for a breakpoint at the pointer (stopping
/// before the instruction there executes), else steps the processor once.
/// Returns whether the run loop must stop.
pub fn step<H: Host>(program: &mut Program, host: &mut H) -> (stop: bool)
    requires
        old(program).wf(),
    ensures
        final(program).wf(),
        prog_step_rel(*old(program), *final(program), stop),
{
    if program.breakpoints_enabled {
        if contains_bp(&program.breakpoints, program.processor.get_instruction_pointer()) {
            program.processor.status = ProcessorStatus::Paused;
            return true;
        }
    }
    let rc = program.processor.step(host);
    match rc {
        StopCode::Run => false,
        _ => true,
    }
}

/// The stop code names the status a stopping step leaves behind; a step
/// that keeps running leaves the status alone.
pub proof fn lemma_step_rel_status(pre: Processor, post: Processor, rc: StopCode)
    requires
        step_rel(pre, post, rc),
    ensures
        rc == StopCode::Halt ==> post.status is Halted,
        rc == StopCode::Pause ==> post.status is Paused,
        rc == StopCode::Fault ==> post.status is Faulted,
        rc == StopCode::Run ==> post.status == pre.status,
{
}

/// `p` as the run loop sees it on entry: its processor set `Running`.
pub open spec fn running(p: Program) -> Program {
    Program { processor: (Processor { status: ProcessorStatus::Running, ..p.processor }), ..p }
}

/// A chain of states, each consecutive pair one non-stopping run-loop
/// iteration apart (see [`prog_step_rel`]).
pub open spec fn is_run_chain(chain: Seq<Program>) -> bool {
    forall|i: int|
        0 <= i < chain.len() - 1 ==> prog_step_rel(chain[i], #[trigger] chain[i + 1], false)
}

/// `n` run-loop iterations, none of which stopped, lead from `pre` to
/// `post`: some chain of `n + 1` states joins them. [`lemma_runs_to_zero`]
/// and [`lemma_runs_to_snoc`] build such chains.
pub open spec fn runs_to(pre: Program, post: Program, n: nat) -> bool {
    exists|chain: Seq<Program>|
        {
            &&& #[trigger] is_run_chain(chain)
            &&& chain.len() == n + 1
            &&& chain.first() == pre
            &&& chain.last() == post
        }
}

/// The empty chain: zero iterations lead from a state to itself.
pub proof fn lemma_runs_to_zero(pre: Program)
    ensures
        runs_to(pre, pre, 0),
{
    let chain = seq![pre];
    assert(is_run_chain(chain));
    assert(chain.first() == pre && chain.last() == pre);
}

/// A chain grows by one non-stopping iteration at its end.
pub proof fn lemma_runs_to_snoc(pre: Program, mid: Program, post: Program, n: nat)
    requires
        runs_to(pre, mid, n),
        prog_step_rel(mid, post, false),
    ensures
        runs_to(pre, post, n + 1),
{
    let chain = choose|chain: Seq<Program>|
        {
            &&& #[trigger] is_run_chain(chain)
            &&& chain.len() == n + 1
            &&& chain.first() == pre
            &&& chain.last() == mid
        };
    let longer = chain.push(post);
    assert forall|i: int| 0 <= i < longer.len() - 1 implies prog_step_rel(
        longer[i],
        #[trigger] longer[i + 1],
        false,
    ) by {
        if i < chain.len() - 1 {
            assert(longer[i] == chain[i]);
            assert(longer[i + 1] == chain[i + 1]);
        } else {
            assert(longer[i] == chain[chain.len() - 1]);
            assert(longer[i + 1] == post);
        }
    }
    assert(is_run_chain(longer));
    assert(longer.len() == n + 2);
    assert(longer.first() == pre);
    assert(longer.last() == post);
}

/// Drives the processor until a breakpoint match, a pause or halt opcode,
/// a fault, or the end of the `max_steps` budget. A no-op when the status
/// is `Halted` or `Empty`; otherwise the final state is reached from the
/// entry state by a chain of run-loop iterations ([`runs_to`]), closed by
/// a stopping iteration when the machine came to rest. Returns whether it
/// did (false only when the budget ran out, with the processor left
/// `Running` and resumable).
#[verifier::rlimit(100)]
pub fn run<H: Host>(program: &mut Program, host: &mut H, max_steps: u64) -> (rested: bool)
    requires
        old(program).wf(),
    ensures
        final(program).wf(),
        final(program).breakpoints@ == old(program).breakpoints@,
        final(program).breakpoints_enabled == old(program).breakpoints_enabled,
        old(program).processor.status is Halted || old(program).processor.status is Empty
            ==> rested && *final(program) == *old(program),
        rested && !(old(program).processor.status is Halted || old(program).processor.status
            is Empty) ==> (final(program).processor.status is Paused || final(program).processor.status is Halted || final(program).processor.status is Faulted),
        !rested ==> final(program).processor.status is Running,
        !(old(program).processor.status is Halted || old(program).processor.status is Empty)
            && rested ==> exists|k: nat, mid: Program|
            k < max_steps && #[trigger] runs_to(running(*old(program)), mid, k) && prog_step_rel(
                mid,
                *final(program),
                true,
            ),
        !(old(program).processor.status is Halted || old(program).processor.status is Empty)
            && !rested ==> runs_to(running(*old(program)), *final(program), max_steps as nat),
        !(old(program).processor.status is Halted || old(program).processor.status is Empty)
            && old(program).breakpoints_enabled && old(program).has_bp(old(program).processor.next)
            && max_steps >= 1 ==> rested && final(program).processor == (Processor {
            status: ProcessorStatus::Paused,
            ..old(program).processor
        }),
{
    let stopped = match program.processor.status {
        ProcessorStatus::Halted | ProcessorStatus::Empty => true,
        _ => false,
    };
    if stopped {
        return true;
    }
    program.processor.status = ProcessorStatus::Running;
    proof {
        assert(*program == running(*old(program)));
        lemma_runs_to_zero(*program);
    }
    let mut remaining: u64 = max_steps;
    while remaining > 0
        invariant
            program.wf(),
            !(old(program).processor.status is Halted),
            !(old(program).processor.status is Empty),
            program.breakpoints@ == old(program).breakpoints@,
            program.breakpoints_enabled == old(program).breakpoints_enabled,
            program.processor.status is Running,
            remaining <= max_steps,
            runs_to(running(*old(program)), *program, (max_steps - remaining) as nat),
            (old(program).breakpoints_enabled && old(program).has_bp(
                old(program).processor.next,
            )) ==> program.processor == (Processor {
                status: ProcessorStatus::Running,
                ..old(program).processor
            }) && remaining == max_steps,
        decreases remaining,
    {
        let ghost before = *program;
        let ghost k: nat = (max_steps - remaining) as nat;
        let stop = step(program, host);
        proof {
            if !(before.breakpoints_enabled && before.has_bp(before.processor.next)) {
                let rc = choose|rc: StopCode|
                    #[trigger] step_rel(before.processor, program.processor, rc) && (stop == (rc
                        != StopCode::Run));
                lemma_step_rel_status(before.processor, program.processor, rc);
            }
        }
        if stop {
            proof {
                assert(k < max_steps);
                assert(runs_to(running(*old(program)), before, k));
                assert(prog_step_rel(before, *program, true));
            }
            return true;
        }
        proof {
            lemma_runs_to_snoc(running(*old(program)), before, *program, k);
        }
        remaining = remaining - 1;
    }
    false
}

/// The `continue` entry point: see [`run`].
pub fn Continue<H: Host>(program: &mut Program, host: &mut H, max_steps: u64) -> (rested: bool)
    requires
        old(program).wf(),
    ensures
        final(program).wf(),
        final(program).breakpoints@ == old(program).breakpoints@,
        final(program).breakpoints_enabled == old(program).breakpoints_enabled,
        old(program).processor.status is Halted || old(program).processor.status is Empty
            ==> rested && *final(program) == *old(program),
        rested && !(old(program).processor.status is Halted || old(program).processor.status
            is Empty) ==> (final(program).processor.status is Paused || final(program).processor.status is Halted || final(program).processor.status is Faulted),
        !rested ==> final(program).processor.status is Running,
        !(old(program).processor.status is Halted || old(program).processor.status is Empty)
            && rested ==> exists|k: nat, mid: Program|
            k < max_steps && #[trigger] runs_to(running(*old(program)), mid, k) && prog_step_rel(
                mid,
                *final(program),
                true,
            ),
        !(old(program).processor.status is Halted || old(program).processor.status is Empty)
            && !rested ==> runs_to(running(*old(program)), *final(program), max_steps as nat),
        !(old(program).processor.status is Halted || old(program).processor.status is Empty)
            && old(program).breakpoints_enabled && old(program).has_bp(old(program).processor.next)
            && max_steps >= 1 ==> rested && final(program).processor == (Processor {
            status: ProcessorStatus::Paused,
            ..old(program).processor
        }),
{
    run(program, host, max_steps)
}

/// One step was taken from `pre` to `mid`, and then the status was forced
/// to `Paused`, giving `post`.
pub open spec fn stepped_then_paused(pre: Program, mid: Program, post: Program, stop: bool) -> bool {
    &&& prog_step_rel(pre, mid, stop)
    &&& post == (Program {
        processor: (Processor { status: ProcessorStatus::Paused, ..mid.processor }),
        ..mid
    })
}

/// The `step over` entry point. From `Paused` (or a recoverable fault) it
/// executes exactly one run-loop iteration, breakpoint check included.
/// From `NotStarted` it executes exactly one iteration and then forces the
/// status to `Paused`, so a caller never free-runs past the very first
/// instruction. In any other status it is a no-op.
pub fn StepOver<H: Host>(program: &mut Program, host: &mut H)
    requires
        old(program).wf(),
    ensures
        final(program).wf(),
        final(program).breakpoints@ == old(program).breakpoints@,
        final(program).breakpoints_enabled == old(program).breakpoints_enabled,
        old(program).processor.status is Paused || old(program).processor.status is Faulted
            ==> exists|stop: bool| #[trigger] prog_step_rel(*old(program), *final(program), stop),
        old(program).processor.status is NotStarted ==> (exists|mid: Program, stop: bool|
            #[trigger] stepped_then_paused(*old(program), mid, *final(program), stop)) && final(program).processor.status is Paused,
        old(program).processor.status is Halted || old(program).processor.status is Empty || old(program).processor.status is Running ==> *final(program) == *old(program),
{
    match program.processor.status {
        ProcessorStatus::Paused | ProcessorStatus::Faulted => {
            let _stop = step(program, host);
        },
        ProcessorStatus::NotStarted => {
            let ghost pre = *program;
            let stop = step(program, host);
            let ghost mid = *program;
            program.processor.status = ProcessorStatus::Paused;
            proof {
                assert(stepped_then_paused(pre, mid, *program, stop));
            }
        },
        _ => {},
    }
}

} // verus!
