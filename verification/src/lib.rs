//! Arithmetization of a stack machine's execution trace: canonical integer
//! encodings of instructions, memory records and jumps, the compiler from an
//! executed step to its memory operations, and the per-opcode gadgets that tie
//! a witnessed step to the lookup tables.

pub mod bigint;
pub mod types;
pub mod width;
pub mod itable;
pub mod mtable;
pub mod etable;
pub mod jump;
pub mod runtime;
pub mod utils;
pub mod memory_init;
pub mod circuits;
