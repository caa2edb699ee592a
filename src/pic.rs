//! The 8259A interrupt controller pair: remapping IRQs away from the CPU
//! exception vectors and acknowledging serviced interrupts.
//!
//! Reads of the current masks and the writes themselves are performed by the
//! caller; this module says which bytes go to which port, in which order.

use crate::pit::{channel_port, gen_command, program_sequence, COMMAND_PORT};
use crate::port::PortWrite;
use vstd::prelude::*;

verus! {

/// Command port of the primary PIC.
pub const PIC1_CMD_IO_PORT: u16 = 0x0020;

/// Command port of the secondary PIC.
pub const PIC2_CMD_IO_PORT: u16 = 0x00A0;

/// Data (mask) port of the primary PIC.
pub const PIC1_DATA_IO_PORT: u16 = 0x0021;

/// Data (mask) port of the secondary PIC.
pub const PIC2_DATA_IO_PORT: u16 = 0x00A1;

/// Initialisation command word 1: ICW4 needed, cascade mode.
pub const ICW1: u8 = 0x11;

/// Initialisation command word 4: 8086 mode.
pub const ICW4: u8 = 0x1;

/// First vector of the primary PIC after remapping.
pub const PIC1_VECTOR_OFFSET: u8 = 0x20;

/// First vector of the secondary PIC after remapping.
pub const PIC2_VECTOR_OFFSET: u8 = 0x28;

/// The end-of-interrupt command.
pub const EOI: u8 = 0x20;

/// Input frequency of the interval timer in Hz.
pub const PIT_BASE_FREQUENCY: u32 = 1193182;

/// The remap sequence that restores the masks `pic1_mask` and `pic2_mask`
/// read beforehand from the two data ports.
pub open spec fn remap_sequence(pic1_mask: u8, pic2_mask: u8) -> Seq<PortWrite> {
    seq![
        PortWrite { port: PIC1_CMD_IO_PORT, value: ICW1 },
        PortWrite { port: PIC2_CMD_IO_PORT, value: ICW1 },
        PortWrite { port: PIC1_DATA_IO_PORT, value: PIC1_VECTOR_OFFSET },
        PortWrite { port: PIC2_DATA_IO_PORT, value: PIC2_VECTOR_OFFSET },
        PortWrite { port: PIC1_DATA_IO_PORT, value: 4 },
        PortWrite { port: PIC2_DATA_IO_PORT, value: 2 },
        PortWrite { port: PIC1_DATA_IO_PORT, value: ICW4 },
        PortWrite { port: PIC2_DATA_IO_PORT, value: ICW4 },
        PortWrite { port: PIC1_DATA_IO_PORT, value: pic1_mask },
        PortWrite { port: PIC2_DATA_IO_PORT, value: pic2_mask },
    ]
}

/// The acknowledgement for `interrupt_number`: both controllers for vectors
/// of the secondary PIC, the primary alone for its own vectors, nothing for
/// any other vector.
pub open spec fn eoi_sequence(interrupt_number: int) -> Seq<PortWrite> {
    if interrupt_number >= PIC2_VECTOR_OFFSET {
        seq![
            PortWrite { port: PIC2_CMD_IO_PORT, value: EOI },
            PortWrite { port: PIC1_CMD_IO_PORT, value: EOI },
        ]
    } else if interrupt_number >= PIC1_VECTOR_OFFSET {
        seq![PortWrite { port: PIC1_CMD_IO_PORT, value: EOI }]
    } else {
        seq![]
    }
}

/// Remaps the IRQs of the primary PIC to vectors 0x20..0x28 and those of the
/// secondary PIC to 0x28..0x30, cascaded through IRQ 2, in 8086 mode.
///
/// `pic1_mask` and `pic2_mask` are the bytes read from `PIC1_DATA_IO_PORT`
/// and `PIC2_DATA_IO_PORT` just before; the sequence ends by restoring them.
pub fn remap(pic1_mask: u8, pic2_mask: u8) -> (r: Vec<PortWrite>)
    ensures
        r@ == remap_sequence(pic1_mask, pic2_mask),
{
    let mut r: Vec<PortWrite> = Vec::new();
    // initialize both PICs
    r.push(PortWrite { port: PIC1_CMD_IO_PORT, value: ICW1 });
    r.push(PortWrite { port: PIC2_CMD_IO_PORT, value: ICW1 });
    // vector offsets
    r.push(PortWrite { port: PIC1_DATA_IO_PORT, value: PIC1_VECTOR_OFFSET });
    r.push(PortWrite { port: PIC2_DATA_IO_PORT, value: PIC2_VECTOR_OFFSET });
    // tell PIC1 about PIC2 at IRQ2 (0000 0100)
    r.push(PortWrite { port: PIC1_DATA_IO_PORT, value: 4 });
    // tell PIC2 its cascade identity (0000 0010)
    r.push(PortWrite { port: PIC2_DATA_IO_PORT, value: 2 });
    // set both PICs to 8086 mode
    r.push(PortWrite { port: PIC1_DATA_IO_PORT, value: ICW4 });
    r.push(PortWrite { port: PIC2_DATA_IO_PORT, value: ICW4 });
    // restore masks
    r.push(PortWrite { port: PIC1_DATA_IO_PORT, value: pic1_mask });
    r.push(PortWrite { port: PIC2_DATA_IO_PORT, value: pic2_mask });
    assert(r@ =~= remap_sequence(pic1_mask, pic2_mask));
    r
}

/// Returns the writes that acknowledge `interrupt_number` at the PIC(s).
pub fn eoi_for(interrupt_number: isize) -> (r: Vec<PortWrite>)
    ensures
        r@ == eoi_sequence(interrupt_number as int),
{
    if interrupt_number >= 40 {
        let r = vec![
            PortWrite { port: PIC2_CMD_IO_PORT, value: EOI },
            PortWrite { port: PIC1_CMD_IO_PORT, value: EOI },
        ];
        assert(r@ =~= eoi_sequence(interrupt_number as int));
        r
    } else if interrupt_number >= 32 {
        let r = vec![PortWrite { port: PIC1_CMD_IO_PORT, value: EOI }];
        assert(r@ =~= eoi_sequence(interrupt_number as int));
        r
    } else {
        let r: Vec<PortWrite> = Vec::new();
        assert(r@ =~= eoi_sequence(interrupt_number as int));
        r
    }
}

/// Programs `channel` of the interval timer as rate generator with
/// `divisor`: the mode command byte to the command port, then the low and
/// the high byte of the divisor to the channel's data port.
pub fn set_pit_divisor(channel: usize, divisor: u16) -> (r: Vec<PortWrite>)
    requires
        channel <= 2,
    ensures
        r@ == program_sequence(channel as u8, divisor),
{
    let channel = channel as u8;
    let lobyte = (divisor & 0xFF) as u8;
    let hibyte = ((divisor >> 8) & 0xFF) as u8;
    assert(divisor & 0xFF == divisor % 256) by (bit_vector);
    assert((divisor >> 8) & 0xFF == divisor / 256) by (bit_vector);
    let port = channel_port(channel);
    let r = vec![
        PortWrite { port: COMMAND_PORT, value: gen_command(channel) },
        PortWrite { port: port, value: lobyte },
        PortWrite { port: port, value: hibyte },
    ];
    assert(r@ =~= program_sequence(channel, divisor));
    r
}

} // verus!
