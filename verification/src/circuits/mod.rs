//! The constraint side: expressions over witness columns, the lookup tables,
//! and the gadget that each opcode contributes.

pub mod expression;
pub mod table;
pub mod constraint_system;
pub mod memory;
pub mod instruction;
pub mod event;
pub mod config_builder;
