//! The frames the CPU pushes on interrupt entry.

use vstd::prelude::*;

verus! {

/// The interrupt-enable bit of RFLAGS.
pub const RFLAGS_IF: u64 = 0x200;

/// The five words the CPU pushes on interrupt entry without a privilege
/// change, in memory order.
#[derive(Clone, Copy, Debug, PartialEq, Eq, Structural)]
pub struct ExceptionStackFrame {
    /// The instruction executed when the handler returns.
    pub instruction_pointer: usize,
    /// The code segment selector, padded with zeros.
    pub code_segment: u64,
    /// The flags register before the interrupt handler was invoked.
    pub cpu_flags: u64,
    /// The stack pointer at the time of the interrupt.
    pub stack_pointer: usize,
    /// The stack segment selector at the time of the interrupt.
    pub stack_segment: u64,
}

/// The frame of the exceptions that push an error code (8, 10 to 14, 17):
/// the error code followed by the ordinary frame.
#[derive(Clone, Copy, Debug, PartialEq, Eq, Structural)]
pub struct ErrorExceptionStackFrame {
    /// The error code pushed by the CPU.
    pub error_code: u64,
    /// The instruction executed when the handler returns.
    pub instruction_pointer: usize,
    /// The code segment selector, padded with zeros.
    pub code_segment: u64,
    /// The flags register before the interrupt handler was invoked.
    pub cpu_flags: u64,
    /// The stack pointer at the time of the interrupt.
    pub stack_pointer: usize,
    /// The stack segment selector at the time of the interrupt.
    pub stack_segment: u64,
}

impl ExceptionStackFrame {
    /// Interrupts are enabled in the flags this frame returns with.
    pub open spec fn spec_interrupts_enabled(self) -> bool {
        self.cpu_flags & RFLAGS_IF != 0
    }

    /// Whether returning through this frame re-enables interrupts.
    pub fn interrupts_enabled(&self) -> (r: bool)
        ensures
            r == self.spec_interrupts_enabled(),
    {
        self.cpu_flags & RFLAGS_IF != 0
    }
}

/// Code segment selector of every gate.
pub const KERNEL_CODE_SELECTOR: u16 = 0x08;

/// Vector of the timer interrupt after the PIC remap.
pub const TIMER_VECTOR: u8 = 0x20;

/// Vector of the keyboard interrupt after the PIC remap.
pub const KEYBOARD_VECTOR: u8 = 0x21;

/// Whether the CPU pushes an error code before the frame.
#[derive(Clone, Copy, Debug, PartialEq, Eq, Structural)]
pub enum FrameShape {
    NoErrorCode,
    ErrorCode,
}

/// Descriptor type: an interrupt gate clears IF on entry, a trap gate leaves
/// it as it was.
#[derive(Clone, Copy, Debug, PartialEq, Eq, Structural)]
pub enum GateType {
    Interrupt,
    Trap,
}

/// What the handler of a vector does.
#[derive(Clone, Copy, Debug, PartialEq, Eq, Structural)]
pub enum HandlerKind {
    /// Reports the exception and halts.
    Fatal,
    /// Counts the tick and dispatches.
    Timer,
    /// Reads and echoes a scancode.
    Keyboard,
}

/// What is installed at one vector (always ring 0, code segment
/// `KERNEL_CODE_SELECTOR`).
#[derive(Clone, Copy, Debug, PartialEq, Eq, Structural)]
pub struct GateSpec {
    pub handler: HandlerKind,
    pub frame: FrameShape,
    pub gate: GateType,
}

/// The CPU exceptions that get a fatal handler: 0 to 8, 10 to 14, 17, 18.
pub open spec fn is_handled_exception(vector: u8) -> bool {
    vector <= 8 || (10 <= vector <= 14) || vector == 17 || vector == 18
}

/// The exceptions that push an error code: 8, 10 to 14, 17.
pub open spec fn pushes_error_code(vector: u8) -> bool {
    vector == 8 || (10 <= vector <= 14) || vector == 17
}

/// The vector map the kernel boots with; `None` leaves the vector missing.
pub open spec fn spec_vector_gate(vector: u8) -> Option<GateSpec> {
    if is_handled_exception(vector) {
        Some(
            GateSpec {
                handler: HandlerKind::Fatal,
                frame: if pushes_error_code(vector) {
                    FrameShape::ErrorCode
                } else {
                    FrameShape::NoErrorCode
                },
                gate: GateType::Trap,
            },
        )
    } else if vector == TIMER_VECTOR {
        Some(
            GateSpec {
                handler: HandlerKind::Timer,
                frame: FrameShape::NoErrorCode,
                gate: GateType::Interrupt,
            },
        )
    } else if vector == KEYBOARD_VECTOR {
        Some(
            GateSpec {
                handler: HandlerKind::Keyboard,
                frame: FrameShape::NoErrorCode,
                gate: GateType::Trap,
            },
        )
    } else {
        None
    }
}

/// Returns the descriptor to install at `vector`, if any.
pub fn vector_gate(vector: u8) -> (r: Option<GateSpec>)
    ensures
        r == spec_vector_gate(vector),
{
    let handled = vector <= 8 || (10 <= vector && vector <= 14) || vector == 17 || vector == 18;
    if handled {
        let error_code = vector == 8 || (10 <= vector && vector <= 14) || vector == 17;
        let frame = if error_code {
            FrameShape::ErrorCode
        } else {
            FrameShape::NoErrorCode
        };
        Some(GateSpec { handler: HandlerKind::Fatal, frame: frame, gate: GateType::Trap })
    } else if vector == TIMER_VECTOR {
        Some(
            GateSpec {
                handler: HandlerKind::Timer,
                frame: FrameShape::NoErrorCode,
                gate: GateType::Interrupt,
            },
        )
    } else if vector == KEYBOARD_VECTOR {
        Some(
            GateSpec {
                handler: HandlerKind::Keyboard,
                frame: FrameShape::NoErrorCode,
                gate: GateType::Trap,
            },
        )
    } else {
        None
    }
}

} // verus!
