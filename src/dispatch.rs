//! The timer-interrupt dispatcher: it saves the preempted task's context
//! from the interrupt frame and the register save area, asks the scheduler
//! for the next task and writes that task's context back in their place, so
//! that the interrupt return resumes the next task.
//!
//! The caller owns the hardware side: it locks the task table (failing to
//! lock it is fatal), hands over the frame and the save area, performs the
//! port writes returned and panics on an error.

use crate::clock::Clock;
use crate::interrupts::{ExceptionStackFrame, KEYBOARD_VECTOR, TIMER_VECTOR};
use crate::pic::{eoi_for, eoi_sequence, EOI, PIC1_CMD_IO_PORT};
use crate::pit::Pit;
use crate::port::PortWrite;
use crate::tasks::{save_frame, TaskEntry, TaskRegisters, TaskStateInformation};
use vstd::prelude::*;

verus! {

/// Why the dispatcher refused to return from the interrupt.
#[derive(Clone, Copy, Debug, PartialEq, Eq, Structural)]
pub enum DispatchError {
    /// The frame to return into has interrupts disabled: the system would
    /// never be preempted again.
    InterruptsDisabled,
}

/// The task has run on its own stack: the incoming stack pointer or frame
/// pointer lies within it.
pub open spec fn has_started(task: TaskEntry, esf: ExceptionStackFrame, regs: TaskRegisters) -> bool {
    task.stack.spec_contains(esf.stack_pointer) || task.stack.spec_contains(regs.rbp)
}

/// `task`, marked blocked when the incoming stack pointer lies outside its
/// stack.
pub open spec fn check_overflow(task: TaskEntry, esf: ExceptionStackFrame) -> TaskEntry {
    if task.stack.spec_contains(esf.stack_pointer) {
        task
    } else {
        TaskEntry { blocked: true, ..task }
    }
}

/// The effect of one dispatch on the task table, the interrupt frame and
/// the register save area, from `tsi`, `esf`, `regs` to `tsi2`, `esf2`,
/// `regs2`.
pub open spec fn dispatched<const N: usize>(
    tsi: TaskStateInformation<N>,
    esf: ExceptionStackFrame,
    regs: TaskRegisters,
    tsi2: TaskStateInformation<N>,
    esf2: ExceptionStackFrame,
    regs2: TaskRegisters,
) -> bool {
    let cur = tsi.current_task as int;
    let task = tsi.tasks@[cur];
    let next = TaskStateInformation::<N>::successor(cur);
    if !has_started(task, esf, regs) {
        &&& tsi2 == tsi
        &&& esf2 == task.esf
        &&& regs2 == task.registers
    } else if next == cur {
        &&& tsi2.tasks@ == tsi.tasks@.update(cur, check_overflow(task, esf))
        &&& tsi2.current_task == cur
        &&& tsi2.next_task == cur
        &&& esf2 == esf
        &&& regs2 == regs
    } else {
        &&& tsi2.tasks@ == tsi.tasks@.update(
            cur,
            TaskEntry { registers: regs, ..save_frame(check_overflow(task, esf), esf) },
        )
        &&& tsi2.current_task == next
        &&& tsi2.next_task == next
        &&& esf2 == tsi.tasks@[next].esf
        &&& regs2 == tsi.tasks@[next].registers
    }
}

/// Saves the preempted context into the current task and installs the next
/// task's context in the interrupt frame `esf` and the save area `registers`.
///
/// A task that has not yet run on its own stack is resumed from its stored
/// entry instead. An incoming stack pointer outside the task's stack marks
/// it blocked. The result is an error exactly when the outgoing frame has
/// interrupts disabled.
pub fn manage_tasks<const N: usize>(
    tsi: &mut TaskStateInformation<N>,
    esf: &mut ExceptionStackFrame,
    registers: &mut TaskRegisters,
) -> (r: Result<(), DispatchError>)
    requires
        old(tsi).wf(),
    ensures
        final(tsi).wf(),
        dispatched(*old(tsi), *old(esf), *old(registers), *final(tsi), *final(esf), *final(registers)),
        r is Ok <==> final(esf).spec_interrupts_enabled(),
{
    let ghost tsi0 = *tsi;
    let ghost esf0 = *esf;
    let ghost regs0 = *registers;
    let ghost cur = tsi.current_task as int;
    let ghost task = tsi0.tasks@[cur];
    let stack = tsi.get_current_task().get_stack();
    let started = stack.contains(registers.rbp) || stack.contains(esf.stack_pointer);
    if !started {
        *esf = tsi.get_current_task().esf;
        *registers = tsi.get_current_task().registers;
    } else {
        if !stack.contains(esf.stack_pointer) {
            tsi.get_current_task_mut().blocked = true;
        }
        assert(tsi.tasks@ =~= tsi0.tasks@.update(cur, check_overflow(task, esf0)));
        if tsi.schedule_next() {
            tsi.get_current_task_mut().registers = *registers;
            *esf = *tsi.mangle_esf_for_next(esf);
            *registers = tsi.get_current_task().registers;
            assert(tsi.tasks@ =~= tsi0.tasks@.update(
                cur,
                TaskEntry { registers: regs0, ..save_frame(check_overflow(task, esf0), esf0) },
            ));
        }
    }
    assert(dispatched(tsi0, esf0, regs0, *tsi, *esf, *registers));
    if !esf.interrupts_enabled() {
        return Err(DispatchError::InterruptsDisabled);
    }
    Ok(())
}

/// The timer interrupt: counts the tick, dispatches and acknowledges the
/// interrupt at the primary PIC.
///
/// On success the writes returned are the single end-of-interrupt for the
/// timer vector; on an error the caller must not return from the interrupt.
pub fn timer_interrupt<const N: usize>(
    clock: &mut Pit,
    tsi: &mut TaskStateInformation<N>,
    esf: &mut ExceptionStackFrame,
    registers: &mut TaskRegisters,
) -> (r: Result<Vec<PortWrite>, DispatchError>)
    requires
        old(clock).clock_wf(),
        old(tsi).wf(),
    ensures
        final(clock).clock_wf(),
        final(clock).ticks as int == (old(clock).ticks + 1) % 0x1_0000_0000_0000_0000,
        final(clock).frequency == old(clock).frequency,
        final(clock).resolution == old(clock).resolution,
        final(clock).channel == old(clock).channel,
        final(clock).divisor == old(clock).divisor,
        final(tsi).wf(),
        dispatched(*old(tsi), *old(esf), *old(registers), *final(tsi), *final(esf), *final(registers)),
        match r {
            Ok(w) => w@ == eoi_sequence(TIMER_VECTOR as int) && final(esf).spec_interrupts_enabled(),
            Err(e) => e == DispatchError::InterruptsDisabled && !final(esf).spec_interrupts_enabled(),
        },
{
    clock.tick();
    match manage_tasks(tsi, esf, registers) {
        Ok(()) => Ok(eoi_for(TIMER_VECTOR as isize)),
        Err(e) => Err(e),
    }
}

/// The keyboard interrupt's acknowledgement: the single end-of-interrupt
/// for the keyboard vector at the primary PIC.
pub fn keyboard_interrupt() -> (r: Vec<PortWrite>)
    ensures
        r@ == eoi_sequence(KEYBOARD_VECTOR as int),
{
    eoi_for(KEYBOARD_VECTOR as isize)
}

/// Where the boot code jumps to enter the current task for the first time:
/// the frame pointer (the top of the task's stack), the stack pointer and
/// the instruction pointer of its stored frame.
pub fn initial_context<const N: usize>(tsi: &TaskStateInformation<N>) -> (r: (usize, usize, usize))
    requires
        tsi.wf(),
    ensures
        r == (
            tsi.tasks@[tsi.current_task as int].stack.top,
            tsi.tasks@[tsi.current_task as int].esf.stack_pointer,
            tsi.tasks@[tsi.current_task as int].esf.instruction_pointer,
        ),
{
    let te = tsi.get_current_task();
    (te.stack.top, te.esf.stack_pointer, te.esf.instruction_pointer)
}

/// Round-robin order: over successive dispatches of tasks that have started,
/// the current task runs through `i, (i + 1) mod N, (i + 2) mod N, ...`.
///
/// `tables[j]`, `frames[j]` and `saved[j]` are the task table, the incoming
/// frame and the incoming save area of the `j`-th dispatch, which leaves
/// `tables[j + 1]`, `out_frames[j]` and `out_saved[j]`.
pub proof fn lemma_round_robin_sequence<const N: usize>(
    tables: Seq<TaskStateInformation<N>>,
    frames: Seq<ExceptionStackFrame>,
    saved: Seq<TaskRegisters>,
    out_frames: Seq<ExceptionStackFrame>,
    out_saved: Seq<TaskRegisters>,
)
    requires
        N > 0,
        tables.len() == frames.len() + 1,
        saved.len() == frames.len(),
        out_frames.len() == frames.len(),
        out_saved.len() == frames.len(),
        tables[0].wf(),
        forall|j: int|
            0 <= j < frames.len() ==> {
                &&& has_started(
                    tables[j].tasks@[tables[j].current_task as int],
                    #[trigger] frames[j],
                    saved[j],
                )
                &&& dispatched(tables[j], frames[j], saved[j], tables[j + 1], out_frames[j], out_saved[j])
            },
    ensures
        forall|j: int|
            0 <= j < tables.len() ==> (#[trigger] tables[j]).current_task == (
            tables[0].current_task + j) % (N as int),
{
    assert forall|j: int| 0 <= j < tables.len() implies (#[trigger] tables[j]).current_task == (
    tables[0].current_task + j) % (N as int) by {
        lemma_round_robin_prefix(tables, frames, saved, out_frames, out_saved, j);
    }
}

proof fn lemma_round_robin_prefix<const N: usize>(
    tables: Seq<TaskStateInformation<N>>,
    frames: Seq<ExceptionStackFrame>,
    saved: Seq<TaskRegisters>,
    out_frames: Seq<ExceptionStackFrame>,
    out_saved: Seq<TaskRegisters>,
    j: int,
)
    requires
        N > 0,
        tables.len() == frames.len() + 1,
        saved.len() == frames.len(),
        out_frames.len() == frames.len(),
        out_saved.len() == frames.len(),
        tables[0].wf(),
        forall|j: int|
            0 <= j < frames.len() ==> {
                &&& has_started(
                    tables[j].tasks@[tables[j].current_task as int],
                    #[trigger] frames[j],
                    saved[j],
                )
                &&& dispatched(tables[j], frames[j], saved[j], tables[j + 1], out_frames[j], out_saved[j])
            },
        0 <= j < tables.len(),
    ensures
        tables[j].wf(),
        tables[j].current_task == (tables[0].current_task + j) % (N as int),
    decreases j,
{
    if j == 0 {
        vstd::arithmetic::div_mod::lemma_small_mod(tables[0].current_task as nat, N as nat);
    } else {
        lemma_round_robin_prefix(tables, frames, saved, out_frames, out_saved, j - 1);
        let _ = frames[j - 1];
        let c0 = tables[0].current_task as int;
        let x = c0 + j - 1;
        vstd::arithmetic::div_mod::lemma_add_mod_noop(x, 1, N as int);
        vstd::arithmetic::div_mod::lemma_add_mod_noop(x % (N as int), 1, N as int);
        vstd::arithmetic::div_mod::lemma_mod_twice(x, N as int);
        vstd::arithmetic::div_mod::lemma_mod_bound(c0 + j, N as int);
    }
}

/// When the scheduler keeps the current task, a dispatch returns through the
/// incoming frame and save area unchanged.
pub proof fn lemma_no_switch_keeps_frame<const N: usize>(
    tsi: TaskStateInformation<N>,
    esf: ExceptionStackFrame,
    regs: TaskRegisters,
    tsi2: TaskStateInformation<N>,
    esf2: ExceptionStackFrame,
    regs2: TaskRegisters,
)
    requires
        tsi.wf(),
        has_started(tsi.tasks@[tsi.current_task as int], esf, regs),
        dispatched(tsi, esf, regs, tsi2, esf2, regs2),
        tsi2.next_task == tsi.current_task,
    ensures
        esf2 == esf,
        regs2 == regs,
        tsi2.current_task == tsi.current_task,
{
}

/// When the scheduler picks another task, a dispatch stores the incoming
/// instruction pointer, stack pointer and flags (and save area) for the
/// preempted task, returns through the frame stored for the next task and
/// makes that task current.
pub proof fn lemma_switch_swaps_context<const N: usize>(
    tsi: TaskStateInformation<N>,
    esf: ExceptionStackFrame,
    regs: TaskRegisters,
    tsi2: TaskStateInformation<N>,
    esf2: ExceptionStackFrame,
    regs2: TaskRegisters,
)
    requires
        tsi.wf(),
        has_started(tsi.tasks@[tsi.current_task as int], esf, regs),
        dispatched(tsi, esf, regs, tsi2, esf2, regs2),
        tsi2.next_task != tsi.current_task,
    ensures
        tsi2.tasks@[tsi.current_task as int].esf.instruction_pointer == esf.instruction_pointer,
        tsi2.tasks@[tsi.current_task as int].esf.stack_pointer == esf.stack_pointer,
        tsi2.tasks@[tsi.current_task as int].esf.cpu_flags == esf.cpu_flags,
        tsi2.tasks@[tsi.current_task as int].registers == regs,
        esf2 == tsi.tasks@[tsi2.next_task as int].esf,
        regs2 == tsi.tasks@[tsi2.next_task as int].registers,
        tsi2.current_task == tsi2.next_task,
{
}

/// An interrupt of the primary PIC (vectors 0x20 to 0x27, the timer and the
/// keyboard among them) is acknowledged by exactly one end-of-interrupt
/// command, to the primary PIC.
pub proof fn lemma_primary_eoi_is_single(vector: int)
    requires
        0x20 <= vector < 0x28,
    ensures
        eoi_sequence(vector) == seq![PortWrite { port: PIC1_CMD_IO_PORT, value: EOI }],
{
}

} // verus!
