use vstd::prelude::*;

verus! {

/// The three ways a step of the machine can fail. None of them is retried.
#[derive(Debug, Clone, Copy, PartialEq, Eq, Structural)]
pub enum CoreError {
    /// The opcode's addressing-mode encoding was not recognised.
    AddressDecode(u8),
    /// The opcode belongs to a known family but has no handler.
    OpcodeNotImplemented(u8),
    /// No bus region claims the address (strict buses only).
    InvalidRegion(u16),
}

} // verus!
