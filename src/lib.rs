//! Memory and continuity core of a segmented zkEVM prover: memory access
//! records, the sparse memory image they materialise, register snapshots,
//! the final-memory trace, the public values that splice segment proofs
//! together, and the quartic extension field used by the proof system.

pub mod word;
pub mod segments;
pub mod global_metadata;
pub mod memory;
pub mod state;
pub mod field;
pub mod mem_after;
pub mod public_values;
pub mod consistency;
pub mod public_inputs;
