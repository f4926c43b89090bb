//! The gadgets of the opcodes, one module each.

pub mod op_const;
pub mod op_drop;
