//! The task table: per-task saved context and the round-robin scheduler.

use crate::interrupts::ExceptionStackFrame;
use vstd::prelude::*;

verus! {

/// The task table of the kernel: a boot task and two workers.
pub type TaskEntrySlice = [TaskEntry; 3];

/// The address range `[bottom, top)` of a task's stack; `top` is the initial
/// stack pointer, the stack grows down.
#[derive(Clone, Copy, Debug, PartialEq, Eq, Structural)]
pub struct Stack {
    pub bottom: usize,
    pub top: usize,
}

impl Stack {
    /// `addr` lies within the stack.
    pub open spec fn spec_contains(self, addr: usize) -> bool {
        self.bottom <= addr < self.top
    }

    /// Whether `addr` lies within the stack.
    pub fn contains(&self, addr: usize) -> (r: bool)
        ensures
            r == self.spec_contains(addr),
    {
        self.bottom <= addr && addr < self.top
    }
}

/// The general-purpose registers the interrupt prologue saves, in the order
/// they lie in memory.
#[derive(Clone, Copy, Debug, PartialEq, Eq, Structural)]
pub struct TaskRegisters {
    pub rax: usize,
    pub rbx: usize,
    pub rcx: usize,
    pub rdx: usize,
    pub rsi: usize,
    pub rdi: usize,
    pub r8: usize,
    pub r9: usize,
    pub r10: usize,
    pub r11: usize,
    pub r12: usize,
    pub r13: usize,
    pub r14: usize,
    pub r15: usize,
    pub rbp: usize,
}

impl TaskRegisters {
    /// All registers zero.
    pub open spec fn spec_empty() -> TaskRegisters {
        TaskRegisters {
            rax: 0,
            rbx: 0,
            rcx: 0,
            rdx: 0,
            rsi: 0,
            rdi: 0,
            r8: 0,
            r9: 0,
            r10: 0,
            r11: 0,
            r12: 0,
            r13: 0,
            r14: 0,
            r15: 0,
            rbp: 0,
        }
    }

    /// A register set with every register zero.
    pub fn empty() -> (r: TaskRegisters)
        ensures
            r == Self::spec_empty(),
    {
        TaskRegisters {
            rbp: 0,
            r15: 0,
            r14: 0,
            r13: 0,
            r12: 0,
            r11: 0,
            r10: 0,
            r8: 0,
            r9: 0,
            rdi: 0,
            rsi: 0,
            rdx: 0,
            rcx: 0,
            rbx: 0,
            rax: 0,
        }
    }
}

/// Everything the kernel keeps of one task.
#[derive(Clone, Copy)]
pub struct TaskEntry {
    pub name: &'static str,
    /// The frame the task resumes with.
    pub esf: ExceptionStackFrame,
    pub stack: Stack,
    /// The registers the task resumes with.
    pub registers: TaskRegisters,
    /// Set when the task's stack pointer was found outside its stack.
    pub blocked: bool,
}

impl TaskEntry {
    /// The task's stack range.
    pub fn get_stack(&self) -> (r: Stack)
        ensures
            r == self.stack,
    {
        self.stack
    }
}

/// The task table with the index of the running task and of the one chosen
/// to run next.
pub struct TaskStateInformation<const N: usize> {
    pub current_task: usize,
    pub next_task: usize,
    pub tasks: [TaskEntry; N],
}

impl<const N: usize> TaskStateInformation<N> {
    /// Both indices lie within the table.
    pub open spec fn wf(&self) -> bool {
        &&& self.current_task < N
        &&& self.next_task < N
    }

    /// The task that follows `i` in round-robin order.
    pub open spec fn successor(i: int) -> int {
        (i + 1) % (N as int)
    }

    /// Whether both indices lie within the table.
    pub fn is_valid(&self) -> (r: bool)
        ensures
            r == self.wf(),
    {
        self.current_task < N && self.next_task < N
    }

    /// A table over `tasks` whose boot task, task 0, is current.
    pub fn new(tasks: [TaskEntry; N]) -> (r: Self)
        requires
            N > 0,
        ensures
            r.wf(),
            r.current_task == 0,
            r.next_task == 0,
            r.tasks@ == tasks@,
    {
        TaskStateInformation { current_task: 0, next_task: 0, tasks: tasks }
    }

    /// Chooses the task after the current one in round-robin order.
    /// Returns whether that is another task than the current one.
    pub fn schedule_next(&mut self) -> (switch: bool)
        requires
            old(self).wf(),
        ensures
            final(self).wf(),
            final(self).next_task == Self::successor(old(self).current_task as int),
            final(self).current_task == old(self).current_task,
            final(self).tasks@ == old(self).tasks@,
            switch == (final(self).next_task != final(self).current_task),
    {
        self.next_task = (self.current_task + 1) % self.tasks.len();
        self.next_task != self.current_task
    }

    /// The entry of the running task.
    pub fn get_current_task(&self) -> (r: &TaskEntry)
        requires
            self.wf(),
        ensures
            *r == self.tasks@[self.current_task as int],
    {
        &self.tasks[self.current_task]
    }

    /// The entry of the running task, for modification.
    pub fn get_current_task_mut(&mut self) -> (r: &mut TaskEntry)
        requires
            old(self).wf(),
        ensures
            *r == old(self).tasks@[old(self).current_task as int],
            final(self).current_task == old(self).current_task,
            final(self).next_task == old(self).next_task,
            final(self).tasks@ == old(self).tasks@.update(old(self).current_task as int, *final(r)),
    {
        &mut self.tasks[self.current_task]
    }

    /// Records the preempted frame `esf` (instruction pointer, stack pointer,
    /// flags) as the current task's resume frame, makes the chosen next task
    /// current and returns the frame it resumes with.
    pub fn mangle_esf_for_next(&mut self, esf: &ExceptionStackFrame) -> (r: &ExceptionStackFrame)
        requires
            old(self).wf(),
        ensures
            final(self).wf(),
            final(self).tasks@ == old(self).tasks@.update(
                old(self).current_task as int,
                save_frame(old(self).tasks@[old(self).current_task as int], *esf),
            ),
            final(self).current_task == old(self).next_task,
            final(self).next_task == old(self).next_task,
            *r == final(self).tasks@[old(self).next_task as int].esf,
    {
        let cur = self.current_task;
        let mut entry = self.tasks[cur];
        entry.esf.instruction_pointer = esf.instruction_pointer;
        entry.esf.stack_pointer = esf.stack_pointer;
        entry.esf.cpu_flags = esf.cpu_flags;
        self.tasks[cur] = entry;
        self.current_task = self.next_task;
        &self.tasks[self.next_task].esf
    }
}

/// `task` with the instruction pointer, stack pointer and flags of its resume
/// frame taken from `esf`; its segments stay as they were.
pub open spec fn save_frame(task: TaskEntry, esf: ExceptionStackFrame) -> TaskEntry {
    TaskEntry {
        esf: ExceptionStackFrame {
            instruction_pointer: esf.instruction_pointer,
            stack_pointer: esf.stack_pointer,
            cpu_flags: esf.cpu_flags,
            ..task.esf
        },
        ..task
    }
}

/// One scheduling round as the contracts of `schedule_next` and
/// `mangle_esf_for_next` describe it: `t` is scheduled into `m`, then the
/// frame `esf` is recorded, leaving `t2` and returning `ret`.
pub open spec fn scheduling_round<const N: usize>(
    t: TaskStateInformation<N>,
    m: TaskStateInformation<N>,
    esf: ExceptionStackFrame,
    t2: TaskStateInformation<N>,
    ret: ExceptionStackFrame,
) -> bool {
    &&& m.wf()
    &&& m.next_task == TaskStateInformation::<N>::successor(t.current_task as int)
    &&& m.current_task == t.current_task
    &&& m.tasks@ == t.tasks@
    &&& t2.wf()
    &&& t2.tasks@ == m.tasks@.update(
        m.current_task as int,
        save_frame(m.tasks@[m.current_task as int], esf),
    )
    &&& t2.current_task == m.next_task
    &&& t2.next_task == m.next_task
    &&& ret == t2.tasks@[m.next_task as int].esf
}

/// Round-robin order of repeated rounds of `schedule_next` followed by
/// `mangle_esf_for_next`: starting from current task `i`, after round `j`
/// the current task is `(i + j) mod N`, and round `j` returns the frame
/// stored for that task (with two tasks or more, the frame it had before
/// the round).
///
/// `tables[j]` is the table before round `j`, `mids[j]` the table after its
/// `schedule_next`, `frames[j]` the frame handed to its
/// `mangle_esf_for_next` and `returned[j]` the frame that call returns.
pub proof fn lemma_rounds_follow_round_robin<const N: usize>(
    tables: Seq<TaskStateInformation<N>>,
    mids: Seq<TaskStateInformation<N>>,
    frames: Seq<ExceptionStackFrame>,
    returned: Seq<ExceptionStackFrame>,
)
    requires
        N > 0,
        tables.len() == mids.len() + 1,
        frames.len() == mids.len(),
        returned.len() == mids.len(),
        tables[0].wf(),
        forall|j: int|
            0 <= j < mids.len() ==> scheduling_round(
                tables[j],
                #[trigger] mids[j],
                frames[j],
                tables[j + 1],
                returned[j],
            ),
    ensures
        forall|j: int|
            0 <= j < tables.len() ==> (#[trigger] tables[j]).current_task == (
            tables[0].current_task + j) % (N as int),
        forall|j: int|
            0 <= j < mids.len() ==> #[trigger] returned[j] == tables[j + 1].tasks@[(
            tables[0].current_task + j + 1) % (N as int)].esf,
        N > 1 ==> forall|j: int|
            0 <= j < mids.len() ==> #[trigger] returned[j] == tables[j].tasks@[(
            tables[0].current_task + j + 1) % (N as int)].esf,
{
    assert forall|j: int| 0 <= j < tables.len() implies (#[trigger] tables[j]).current_task == (
    tables[0].current_task + j) % (N as int) by {
        lemma_rounds_prefix(tables, mids, frames, returned, j);
    }
    assert forall|j: int| 0 <= j < mids.len() implies #[trigger] returned[j] == tables[j
        + 1].tasks@[(tables[0].current_task + j + 1) % (N as int)].esf by {
        let _ = mids[j];
        lemma_rounds_prefix(tables, mids, frames, returned, j + 1);
    }
    if N > 1 {
        assert forall|j: int| 0 <= j < mids.len() implies #[trigger] returned[j] == tables[j].tasks@[(
        tables[0].current_task + j + 1) % (N as int)].esf by {
            let _ = mids[j];
            lemma_rounds_prefix(tables, mids, frames, returned, j);
            lemma_rounds_prefix(tables, mids, frames, returned, j + 1);
            let c = tables[j].current_task as int;
            assert(c < N);
            vstd::arithmetic::div_mod::lemma_mod_bound(c + 1, N as int);
            if c + 1 < N {
                vstd::arithmetic::div_mod::lemma_small_mod((c + 1) as nat, N as nat);
            } else {
                vstd::arithmetic::div_mod::lemma_mod_self_0(N as int);
            }
            assert(mids[j].next_task != c);
        }
    }
}

proof fn lemma_rounds_prefix<const N: usize>(
    tables: Seq<TaskStateInformation<N>>,
    mids: Seq<TaskStateInformation<N>>,
    frames: Seq<ExceptionStackFrame>,
    returned: Seq<ExceptionStackFrame>,
    j: int,
)
    requires
        N > 0,
        tables.len() == mids.len() + 1,
        frames.len() == mids.len(),
        returned.len() == mids.len(),
        tables[0].wf(),
        forall|j: int|
            0 <= j < mids.len() ==> scheduling_round(
                tables[j],
                #[trigger] mids[j],
                frames[j],
                tables[j + 1],
                returned[j],
            ),
        0 <= j < tables.len(),
    ensures
        tables[j].wf(),
        tables[j].current_task == (tables[0].current_task + j) % (N as int),
    decreases j,
{
    if j == 0 {
        vstd::arithmetic::div_mod::lemma_small_mod(tables[0].current_task as nat, N as nat);
    } else {
        lemma_rounds_prefix(tables, mids, frames, returned, j - 1);
        let _ = mids[j - 1];
        let x = tables[0].current_task + j - 1;
        vstd::arithmetic::div_mod::lemma_add_mod_noop(x, 1, N as int);
        vstd::arithmetic::div_mod::lemma_add_mod_noop(x % (N as int), 1, N as int);
        vstd::arithmetic::div_mod::lemma_mod_twice(x, N as int);
    }
}

} // verus!
