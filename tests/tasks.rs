use preempt_kernel::dispatch::{
    initial_context, keyboard_interrupt, manage_tasks, timer_interrupt, DispatchError,
};
use preempt_kernel::interrupts::{
    vector_gate, ExceptionStackFrame, FrameShape, GateType, HandlerKind,
};
use preempt_kernel::clock::Clock;
use preempt_kernel::pit::new;
use preempt_kernel::port::PortWrite;
use preempt_kernel::tasks::{
    Stack, TaskEntry, TaskEntrySlice, TaskRegisters, TaskStateInformation,
};
use preempt_kernel::workload::{fill_stack, ge};

const IPS: [usize; 3] = [0x10_0000, 0x20_0000, 0x30_0000];

fn stack_of(i: usize) -> Stack {
    Stack { bottom: 0x80_0000 + i * 0x2000, top: 0x80_0000 + (i + 1) * 0x2000 }
}

fn seeded(i: usize) -> TaskEntry {
    let stack = stack_of(i);
    TaskEntry {
        name: "task",
        esf: ExceptionStackFrame {
            instruction_pointer: IPS[i],
            code_segment: 0x8,
            cpu_flags: 0x200202,
            stack_pointer: stack.top,
            stack_segment: 0x10,
        },
        stack,
        registers: TaskRegisters::empty(),
        blocked: false,
    }
}

fn table() -> TaskStateInformation<3> {
    let tasks: TaskEntrySlice = [seeded(0), seeded(1), seeded(2)];
    TaskStateInformation::new(tasks)
}

/// The frame and save area of a task that has been running on its stack.
fn running_in(i: usize, ip: usize) -> (ExceptionStackFrame, TaskRegisters) {
    let s = stack_of(i);
    let esf = ExceptionStackFrame {
        instruction_pointer: ip,
        code_segment: 0x8,
        cpu_flags: 0x200246,
        stack_pointer: s.top - 0x100,
        stack_segment: 0x10,
    };
    let mut regs = TaskRegisters::empty();
    regs.rax = 0x1000 + i;
    regs.rbp = s.top - 0x40;
    (esf, regs)
}

#[test]
fn lib_it_works() {
    let t = table();
    assert_eq!(t.current_task, 0);
    assert_eq!(t.next_task, 0);
    assert_eq!(t.get_current_task().esf.instruction_pointer, IPS[0]);
}

#[test]
fn registers_empty_is_zero() {
    let r = TaskRegisters::empty();
    assert_eq!(r.rax + r.rbx + r.rcx + r.rdx + r.rsi + r.rdi, 0);
    assert_eq!(r.r8 + r.r9 + r.r10 + r.r11 + r.r12 + r.r13 + r.r14 + r.r15 + r.rbp, 0);
}

#[test]
fn stack_contains_is_half_open() {
    let s = Stack { bottom: 100, top: 200 };
    assert!(!s.contains(99));
    assert!(s.contains(100));
    assert!(s.contains(199));
    assert!(!s.contains(200));
    assert_eq!(seeded(1).get_stack(), stack_of(1));
}

#[test]
fn schedule_next_round_robin() {
    let mut t = table();
    for i in 0..3usize {
        t.current_task = i;
        assert!(t.schedule_next());
        assert_eq!(t.next_task, (i + 1) % 3);
        assert_eq!(t.current_task, i);
    }
}

#[test]
fn schedule_next_single_task_stays() {
    let mut t = TaskStateInformation::new([seeded(0)]);
    assert!(!t.schedule_next());
    assert_eq!(t.next_task, 0);
}

#[test]
fn current_task_mut_changes_entry() {
    let mut t = table();
    t.current_task = 2;
    t.get_current_task_mut().blocked = true;
    assert!(t.tasks[2].blocked);
    assert!(!t.tasks[0].blocked && !t.tasks[1].blocked);
}

#[test]
fn mangle_esf_saves_and_returns_next() {
    let mut t = table();
    t.next_task = 1;
    let (esf, _) = running_in(0, 0x10_0042);
    let next = *t.mangle_esf_for_next(&esf);
    assert_eq!(next, seeded(1).esf);
    assert_eq!(t.current_task, 1);
    let saved = t.tasks[0].esf;
    assert_eq!(saved.instruction_pointer, 0x10_0042);
    assert_eq!(saved.stack_pointer, esf.stack_pointer);
    assert_eq!(saved.cpu_flags, 0x200246);
    assert_eq!(saved.code_segment, 0x8);
    assert_eq!(saved.stack_segment, 0x10);
}

#[test]
fn three_ticks_dispatch_one_two_zero() {
    let mut clock = new(0, 0x52);
    let mut t = table();
    let mut dispatched = Vec::new();
    let mut first_frames = Vec::new();
    let mut running = 0usize;
    for tick in 0..3usize {
        let (mut esf, mut regs) = running_in(running, IPS[running] + 0x10 + tick);
        let writes = timer_interrupt(&mut clock, &mut t, &mut esf, &mut regs).unwrap();
        assert_eq!(writes, vec![PortWrite { port: 0x20, value: 0x20 }]);
        running = t.current_task;
        dispatched.push(running);
        first_frames.push((esf.instruction_pointer, esf.stack_pointer, regs));
    }
    assert_eq!(dispatched, vec![1, 2, 0]);
    assert_eq!(first_frames[0], (IPS[1], stack_of(1).top, TaskRegisters::empty()));
    assert_eq!(first_frames[1], (IPS[2], stack_of(2).top, TaskRegisters::empty()));
    // task 0 resumes where it was preempted on the first tick
    assert_eq!(first_frames[2].0, IPS[0] + 0x10);
    assert_eq!(first_frames[2].2.rax, 0x1000);
    assert_eq!(clock.ticks().unwrap().0, 3);
}

#[test]
fn tick_with_interrupt_flag_returns_enabled() {
    let mut clock = new(0, 0x52);
    let mut t = table();
    let (mut esf, mut regs) = running_in(0, 0x10_0100);
    esf.cpu_flags = 0x200202;
    let r = timer_interrupt(&mut clock, &mut t, &mut esf, &mut regs);
    assert!(r.is_ok());
    assert_ne!(esf.cpu_flags & 0x200, 0);
}

#[test]
fn stack_overflow_marks_blocked_then_advances() {
    let mut t = table();
    let (mut esf, mut regs) = running_in(0, 0x10_0100);
    esf.stack_pointer = stack_of(0).bottom - 8;
    let r = manage_tasks(&mut t, &mut esf, &mut regs);
    assert!(r.is_ok());
    assert!(t.tasks[0].blocked);
    assert_eq!(t.current_task, 1);
    assert_eq!(esf, seeded(1).esf);
}

#[test]
fn not_started_task_resumes_stored_entry() {
    let mut t = table();
    let mut esf = ExceptionStackFrame {
        instruction_pointer: 0x5555,
        code_segment: 0x8,
        cpu_flags: 0x202,
        stack_pointer: 0x10,
        stack_segment: 0x10,
    };
    let mut regs = TaskRegisters::empty();
    regs.rbp = 0x20;
    let r = manage_tasks(&mut t, &mut esf, &mut regs);
    assert!(r.is_ok());
    assert_eq!(t.current_task, 0);
    assert_eq!(esf, seeded(0).esf);
    assert_eq!(regs, TaskRegisters::empty());
    assert!(!t.tasks[0].blocked);
}

#[test]
fn single_task_keeps_frame() {
    let mut t = TaskStateInformation::new([seeded(0)]);
    let (mut esf, mut regs) = running_in(0, 0x10_0200);
    let (esf0, regs0) = (esf, regs);
    assert!(manage_tasks(&mut t, &mut esf, &mut regs).is_ok());
    assert_eq!(esf, esf0);
    assert_eq!(regs, regs0);
    assert_eq!(t.current_task, 0);
}

#[test]
fn interrupts_disabled_is_an_error() {
    let mut t = table();
    t.tasks[1].esf.cpu_flags = 0x2;
    let mut clock = new(0, 0x52);
    let (mut esf, mut regs) = running_in(0, 0x10_0300);
    let r = timer_interrupt(&mut clock, &mut t, &mut esf, &mut regs);
    assert_eq!(r, Err(DispatchError::InterruptsDisabled));
}

#[test]
fn keyboard_acknowledges_primary() {
    assert_eq!(keyboard_interrupt(), vec![PortWrite { port: 0x20, value: 0x20 }]);
}

#[test]
fn boot_enters_current_task() {
    let t = table();
    assert_eq!(initial_context(&t), (stack_of(0).top, stack_of(0).top, IPS[0]));
}

#[test]
fn vector_map() {
    for v in [0u8, 1, 2, 3, 4, 5, 6, 7, 18] {
        let g = vector_gate(v).unwrap();
        assert_eq!(g.handler, HandlerKind::Fatal);
        assert_eq!(g.frame, FrameShape::NoErrorCode);
        assert_eq!(g.gate, GateType::Trap);
    }
    for v in [8u8, 10, 11, 12, 13, 14, 17] {
        let g = vector_gate(v).unwrap();
        assert_eq!(g.handler, HandlerKind::Fatal);
        assert_eq!(g.frame, FrameShape::ErrorCode);
    }
    let timer = vector_gate(0x20).unwrap();
    assert_eq!(timer.handler, HandlerKind::Timer);
    assert_eq!(timer.gate, GateType::Interrupt);
    assert_eq!(vector_gate(0x21).unwrap().handler, HandlerKind::Keyboard);
    for v in [9u8, 15, 16, 19, 31, 34, 255] {
        assert!(vector_gate(v).is_none());
    }
}

#[test]
fn ge_compares_and_subtracts() {
    assert_eq!(ge(5, 3), (true, 2));
    assert_eq!(ge(3, 5), (false, -2));
    assert_eq!(ge(4, 4), (true, 0));
}

#[test]
fn fill_stack_returns_depth() {
    assert_eq!(fill_stack(0, 100), 100);
    assert_eq!(fill_stack(7, 3), 7);
}

#[test]
fn scheduling_rounds_follow_round_robin() {
    let mut t = table();
    t.current_task = 1;
    let mut currents = Vec::new();
    let mut returned = Vec::new();
    for round in 0..6usize {
        assert!(t.schedule_next());
        let (esf, _) = running_in(t.current_task, 0x40_0000 + round);
        let next = *t.mangle_esf_for_next(&esf);
        currents.push(t.current_task);
        returned.push(next.instruction_pointer);
    }
    assert_eq!(currents, vec![2, 0, 1, 2, 0, 1]);
    // first visits return the seeded frames, later ones the recorded frames
    assert_eq!(returned[0], IPS[2]);
    assert_eq!(returned[1], IPS[0]);
    assert_eq!(returned[2], 0x40_0000);
    assert_eq!(returned[3], 0x40_0001);
}
