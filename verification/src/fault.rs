//! Structured fault taxonomy of the execution core. Every decode,
//! dispatch or memory error propagates as one of these values up to the
//! engine boundary; no internal function aborts on its own.

use vstd::prelude::*;

verus! {

/// A structured execution fault, surfaced to the caller instead of
/// terminating the process.
#[derive(Clone, Copy, Debug, PartialEq, Eq, Structural)]
pub enum Fault {
    /// The opcode field matches no known instruction family.
    UnrecognizedOpcode,
    /// The opcode is known but the `(funct3, funct7)` pair selects an
    /// operation outside the implemented set.
    UnimplementedInstruction,
    /// A memory access reaches past the end of the memory.
    MemoryOutOfBounds,
}

} // verus!
