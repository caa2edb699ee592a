//! Core of a small preemptive multitasking kernel: the clock, the PIT and PIC
//! programming sequences, the task table, the round-robin scheduler and the
//! timer-interrupt dispatcher, each with a machine-checked contract.
//!
//! Everything that touches the hardware (port I/O, loading the IDT, enabling
//! interrupts, the global locks) is left to the caller, which receives plain
//! values from this crate (the bytes to write to which port, the frame to
//! return into) and performs them.

pub mod clock;
pub mod port;
pub mod pit;
pub mod pic;
pub mod interrupts;
pub mod tasks;
pub mod dispatch;
pub mod workload;
