use preempt_kernel::pic::{
    eoi_for, remap, set_pit_divisor, PIC1_DATA_IO_PORT, PIC2_DATA_IO_PORT,
};
use preempt_kernel::pit::channel_port;
use preempt_kernel::port::PortWrite;

fn w(port: u16, value: u8) -> PortWrite {
    PortWrite { port, value }
}

#[test]
fn test_channel_io_ports_arr() {
    assert_eq!(channel_port(0), 0x40);
    assert_eq!(channel_port(1), 0x41);
    assert_eq!(channel_port(2), 0x42);
}

#[test]
fn remap_wire_sequence() {
    assert_eq!(PIC1_DATA_IO_PORT, 0x21);
    assert_eq!(PIC2_DATA_IO_PORT, 0xA1);
    let old1 = 0xB8;
    let old2 = 0x8E;
    assert_eq!(
        remap(old1, old2),
        vec![
            w(0x20, 0x11),
            w(0xA0, 0x11),
            w(0x21, 0x20),
            w(0xA1, 0x28),
            w(0x21, 0x04),
            w(0xA1, 0x02),
            w(0x21, 0x01),
            w(0xA1, 0x01),
            w(0x21, old1),
            w(0xA1, old2),
        ]
    );
}

#[test]
fn eoi_primary_vectors() {
    assert_eq!(eoi_for(32), vec![w(0x20, 0x20)]);
    assert_eq!(eoi_for(33), vec![w(0x20, 0x20)]);
    assert_eq!(eoi_for(39), vec![w(0x20, 0x20)]);
}

#[test]
fn eoi_secondary_vectors() {
    assert_eq!(eoi_for(40), vec![w(0xA0, 0x20), w(0x20, 0x20)]);
    assert_eq!(eoi_for(47), vec![w(0xA0, 0x20), w(0x20, 0x20)]);
}

#[test]
fn eoi_other_vectors() {
    assert!(eoi_for(0).is_empty());
    assert!(eoi_for(31).is_empty());
    assert!(eoi_for(-1).is_empty());
}

#[test]
fn pit_divisor_bytes() {
    assert_eq!(set_pit_divisor(0, 0x71ae), vec![w(0x43, 0x34), w(0x40, 0xae), w(0x40, 0x71)]);
    assert_eq!(set_pit_divisor(0, 1), vec![w(0x43, 0x34), w(0x40, 0x01), w(0x40, 0x00)]);
    assert_eq!(set_pit_divisor(1, 0x52), vec![w(0x43, 0x74), w(0x41, 0x52), w(0x41, 0x00)]);
    assert_eq!(set_pit_divisor(2, 0xFFFF), vec![w(0x43, 0xB4), w(0x42, 0xFF), w(0x42, 0xFF)]);
}
