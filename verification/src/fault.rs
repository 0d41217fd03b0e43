//! The conditions on which the processor stops.

use vstd::prelude::*;

verus! {

/// Why the processor stopped. Each condition is reported to the host with
/// what is needed to find it again; none of them tears the session down.
#[derive(Clone, Copy, Debug, PartialEq, Eq, Structural)]
pub enum Fault {
    /// The byte at the program counter is not an instruction this core knows.
    Unimplemented { opcode: u8 },
    /// The cartridge does not take a write at this place.
    WriteRefused { bank: u8, address: u16, value: u8 },
    /// The cartridge has no byte at this place.
    Unmapped { bank: u8, address: u16 },
}

} // verus!
