//! The memory table as the opcode gadgets see it: a place to register that a
//! step wrote a word to the stack.

use vstd::prelude::*;
use crate::circuits::constraint_system::ConstraintSystem;
use crate::circuits::expression::{Expr, ExprView, TableColumn};

verus! {

/// A stack-write lookup: in every row where `enable` is 1, the memory table
/// must hold a write by event `eid`, its access number `emid` within the
/// event, at stack pointer `sp`, of `value` with type `vtype`.
#[derive(Debug)]
pub struct StackWriteLookup {
    pub name: &'static str,
    pub name_rev: &'static str,
    pub enable: Expr,
    pub eid: Expr,
    pub emid: Expr,
    pub sp: Expr,
    pub vtype: Expr,
    pub value: Expr,
}

/// A stack-write lookup as a mathematical value.
pub struct StackWriteLookupView {
    pub name: Seq<char>,
    pub name_rev: Seq<char>,
    pub enable: ExprView,
    pub eid: ExprView,
    pub emid: ExprView,
    pub sp: ExprView,
    pub vtype: ExprView,
    pub value: ExprView,
}

impl View for StackWriteLookup {
    type V = StackWriteLookupView;

    open spec fn view(&self) -> StackWriteLookupView {
        StackWriteLookupView {
            name: self.name@,
            name_rev: self.name_rev@,
            enable: self.enable@,
            eid: self.eid@,
            emid: self.emid@,
            sp: self.sp@,
            vtype: self.vtype@,
            value: self.value@,
        }
    }
}

/// The memory table's place in the constraint system.
#[derive(Clone, Copy, Debug, PartialEq, Eq, Structural)]
pub struct MemoryConfig {
    pub col: TableColumn,
}

impl MemoryConfig {
    /// Registers a stack-write lookup made of the given expressions.
    pub fn configure_stack_write_in_table(
        &self,
        key: &'static str,
        key_rev: &'static str,
        meta: &mut ConstraintSystem,
        enable: Expr,
        eid: Expr,
        emid: Expr,
        sp: Expr,
        vtype: Expr,
        value: Expr,
    )
        ensures
            final(meta).registered_stack_writes() == old(meta).registered_stack_writes().push(
                StackWriteLookupView {
                    name: key@,
                    name_rev: key_rev@,
                    enable: enable@,
                    eid: eid@,
                    emid: emid@,
                    sp: sp@,
                    vtype: vtype@,
                    value: value@,
                },
            ),
            final(meta).registered() == old(meta).registered(),
    {
        meta.stack_write_lookup(
            StackWriteLookup { name: key, name_rev: key_rev, enable, eid, emid, sp, vtype, value },
        );
    }
}

} // verus!
