//! The memory table: one entry per memory access made during execution.

use vstd::prelude::*;
use crate::types::VarType;

verus! {

/// The region that an access touches.
#[derive(Clone, Copy, Debug, PartialEq, Eq, Structural, Hash)]
pub enum LocationType {
    Stack,
    Heap,
    Global,
}

/// The direction of an access.
#[derive(Clone, Copy, Debug, PartialEq, Eq, Structural, Hash)]
pub enum AccessType {
    Read,
    Write,
}

/// One memory access. `emid` orders all accesses of a trace: a later access
/// to the same location must see the most recent earlier write.
#[derive(Clone, Copy, Debug, PartialEq, Eq, Structural)]
pub struct MemoryTableEntry {
    pub eid: u64,
    pub emid: u64,
    pub mmid: u64,
    pub offset: u64,
    pub ltype: LocationType,
    pub atype: AccessType,
    pub vtype: VarType,
    pub value: u64,
}

} // verus!
