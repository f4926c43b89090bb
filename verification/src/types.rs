//! Small enumerations shared by the tables: value types and their numeric tags.

use vstd::prelude::*;

verus! {

/// The type of a value held in a stack slot or memory cell.
#[derive(Clone, Copy, Debug, PartialEq, Eq, Structural, Hash)]
pub enum VarType {
    U8,
    I8,
    U16,
    I16,
    U32,
    I32,
    U64,
    I64,
}

impl VarType {
    /// The tag under which this type appears in an encoding: 1 for `U8` up to
    /// 8 for `I64`, in declaration order.
    pub open spec fn tag(self) -> nat {
        match self {
            VarType::U8 => 1,
            VarType::I8 => 2,
            VarType::U16 => 3,
            VarType::I16 => 4,
            VarType::U32 => 5,
            VarType::I32 => 6,
            VarType::U64 => 7,
            VarType::I64 => 8,
        }
    }

    /// The type with the given tag, if there is one.
    pub open spec fn of_tag(tag: nat) -> Option<VarType> {
        if tag == 1 {
            Some(VarType::U8)
        } else if tag == 2 {
            Some(VarType::I8)
        } else if tag == 3 {
            Some(VarType::U16)
        } else if tag == 4 {
            Some(VarType::I16)
        } else if tag == 5 {
            Some(VarType::U32)
        } else if tag == 6 {
            Some(VarType::I32)
        } else if tag == 7 {
            Some(VarType::U64)
        } else if tag == 8 {
            Some(VarType::I64)
        } else {
            None
        }
    }

    /// Computes [`VarType::tag`].
    pub fn code(self) -> (r: u64)
        ensures
            r == self.tag(),
            1 <= r <= 8,
    {
        match self {
            VarType::U8 => 1,
            VarType::I8 => 2,
            VarType::U16 => 3,
            VarType::I16 => 4,
            VarType::U32 => 5,
            VarType::I32 => 6,
            VarType::U64 => 7,
            VarType::I64 => 8,
        }
    }
}

/// The type of a value that a function hands back to its caller.
#[derive(Clone, Copy, Debug, PartialEq, Eq, Structural, Hash)]
pub enum ValueType {
    I32,
    I64,
}

impl ValueType {
    /// The tag under which this type appears in an encoding: 0 for `I32`,
    /// 1 for `I64`.
    pub open spec fn tag(self) -> nat {
        match self {
            ValueType::I32 => 0,
            ValueType::I64 => 1,
        }
    }

    /// The type with the given tag, if there is one.
    pub open spec fn of_tag(tag: nat) -> Option<ValueType> {
        if tag == 0 {
            Some(ValueType::I32)
        } else if tag == 1 {
            Some(ValueType::I64)
        } else {
            None
        }
    }

    /// Computes [`ValueType::tag`].
    pub fn code(self) -> (r: u64)
        ensures
            r == self.tag(),
            r <= 1,
    {
        match self {
            ValueType::I32 => 0,
            ValueType::I64 => 1,
        }
    }
}

} // verus!
