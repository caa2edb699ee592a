//! Byte-wide I/O port writes, handed to the caller to perform in order.

use vstd::prelude::*;

verus! {

/// One `out` instruction: write `value` to I/O port `port`.
#[derive(Clone, Copy, Debug, PartialEq, Eq, Structural)]
pub struct PortWrite {
    pub port: u16,
    pub value: u8,
}

} // verus!
