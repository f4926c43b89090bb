//! The event table: one entry per executed instruction, with the operands and
//! results observed at run time.

use vstd::prelude::*;
use crate::itable::InstructionTableEntry;
use crate::types::{VarType, ValueType};

verus! {

/// What one executed step consumed and produced.
#[derive(Clone, Debug)]
pub enum StepInfo {
    BrIfNez { value: i32, dst_pc: u32 },
    Return { drop: u32, keep: Vec<ValueType>, drop_values: Vec<u64>, keep_values: Vec<u64> },
    Drop { value: u64 },
    Call { index: u16 },
    GetLocal { depth: u32, vtype: VarType, value: u64 },
    I32Const { value: i32 },
    I32BinOp { left: i32, right: i32, value: i32 },
    I32Comp { left: i32, right: i32, value: bool },
}

/// The 64-bit stack word that holds a 32-bit signed value: the value itself
/// where it is not negative, and 2^64 more than it where it is.
pub open spec fn word_of_i32(v: i32) -> u64 {
    if v >= 0 {
        v as u64
    } else {
        (v + 0x1_0000_0000_0000_0000) as u64
    }
}

/// The stack word that holds a truth value: 1 or 0.
pub open spec fn word_of_bool(b: bool) -> u64 {
    if b {
        1
    } else {
        0
    }
}

/// Computes [`word_of_i32`].
pub fn i32_word(v: i32) -> (r: u64)
    ensures
        r == word_of_i32(v),
{
    if v >= 0 {
        v as u64
    } else {
        let below: u64 = (-(v + 1)) as u64;
        u64::MAX - below
    }
}

/// Computes [`word_of_bool`].
pub fn bool_word(b: bool) -> (r: u64)
    ensures
        r == word_of_bool(b),
{
    if b {
        1
    } else {
        0
    }
}

impl StepInfo {
    /// The words that the step takes off the stack, nearest to the top first:
    /// a binary operator reads its right operand before its left one.
    pub open spec fn pops(self) -> Seq<u64> {
        match self {
            StepInfo::BrIfNez { value, .. } => seq![word_of_i32(value)],
            StepInfo::Return { drop_values, .. } => drop_values@,
            StepInfo::Drop { value } => seq![value],
            StepInfo::Call { .. } => Seq::empty(),
            StepInfo::GetLocal { .. } => Seq::empty(),
            StepInfo::I32Const { .. } => Seq::empty(),
            StepInfo::I32BinOp { left, right, .. } => seq![word_of_i32(right), word_of_i32(left)],
            StepInfo::I32Comp { left, right, .. } => seq![word_of_i32(right), word_of_i32(left)],
        }
    }

    /// The words that the step puts on the stack.
    pub open spec fn pushes(self) -> Seq<u64> {
        match self {
            StepInfo::BrIfNez { .. } => Seq::empty(),
            StepInfo::Return { keep_values, .. } => keep_values@,
            StepInfo::Drop { .. } => Seq::empty(),
            StepInfo::Call { .. } => Seq::empty(),
            StepInfo::GetLocal { .. } => Seq::empty(),
            StepInfo::I32Const { value } => seq![word_of_i32(value)],
            StepInfo::I32BinOp { value, .. } => seq![word_of_i32(value)],
            StepInfo::I32Comp { value, .. } => seq![word_of_bool(value)],
        }
    }

    /// Whether the step agrees with itself: a `Return` carries as many dropped
    /// values as its drop count says, and as many kept values as kept types.
    /// Every other step does.
    pub open spec fn consistent(self) -> bool {
        match self {
            StepInfo::Return { drop, keep, drop_values, keep_values } => {
                &&& drop as nat == drop_values@.len()
                &&& keep@.len() == keep_values@.len()
            },
            _ => true,
        }
    }

    /// Computes [`StepInfo::consistent`].
    pub fn is_consistent(&self) -> (r: bool)
        ensures
            r == self.consistent(),
    {
        match self {
            StepInfo::Return { drop, keep, drop_values, keep_values } => {
                *drop as u64 == drop_values.len() as u64 && keep.len() == keep_values.len()
            },
            _ => true,
        }
    }
}

/// One executed step. `last_jump_eid` names the event that opened the frame
/// in which the step ran; it is 0 until control-flow analysis resolves it.
#[derive(Clone, Debug)]
pub struct Event {
    pub eid: u64,
    pub sp: u64,
    pub last_jump_eid: u64,
    pub instruction: InstructionTableEntry,
    pub step_info: StepInfo,
}

impl Event {
    /// The event of a freshly traced step, its frame not yet resolved.
    pub fn new(eid: u64, sp: u64, instruction: InstructionTableEntry, step_info: StepInfo) -> (r:
        Event)
        ensures
            r.eid == eid,
            r.sp == sp,
            r.last_jump_eid == 0,
            r.instruction == instruction,
            r.step_info == step_info,
    {
        Event { eid, sp, last_jump_eid: 0, instruction, step_info }
    }
}

} // verus!
