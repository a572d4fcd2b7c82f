//! The two fatal conditions of the core.

use vstd::prelude::*;

verus! {

/// A fatal condition. Neither is transient: the same call on the same state
/// fails again.
#[derive(Clone, Copy, Debug, PartialEq, Eq, Structural)]
pub enum CoreError {
    /// The opcode has no decode entry, or the instruction asks an operand for
    /// an access it does not have. `cb` tells whether `opcode` belongs to the
    /// extended table; `pc` is the program counter when the gap was met.
    UnimplementedOpcode { opcode: u8, cb: bool, pc: u16 },
    /// A component was handed an address outside the ranges it serves.
    InvalidRegisterAddress { addr: u16 },
}

} // verus!
