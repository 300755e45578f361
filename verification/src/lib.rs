//! Execution core of an RV32-style instruction-set simulator: bit-field
//! decoding of instruction words, a register file with a hardwired zero
//! register, a little-endian byte-addressable memory, and the fetch–execute
//! engine with its two-phase program-counter update.

pub mod decode;
pub mod engine;
pub mod fault;
pub mod machine;
