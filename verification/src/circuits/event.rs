//! The protocol that every opcode follows: a builder that wires the opcode's
//! gadget into the constraint system once, and the gadget itself, which names
//! its expressions and writes the witness of each step.

use vstd::prelude::*;
use crate::circuits::constraint_system::{ColumnPool, ConstraintSystem};
use crate::circuits::expression::{AdviceColumn, Expr, ExprView};
use crate::circuits::instruction::InstructionConfig;
use crate::circuits::memory::MemoryConfig;
use crate::etable::Event;
use crate::itable::OpcodeClass;
use crate::jump::JumpConfig;
use crate::utils::{AssignError, CellView, Context};

verus! {

/// The columns that every step shares.
#[derive(Clone, Copy, Debug, PartialEq, Eq, Structural)]
pub struct EventCommonConfig {
    pub eid: AdviceColumn,
    pub sp: AdviceColumn,
}

/// The gadget of one opcode.
pub trait EventOpcodeConfig {
    /// The column of the bit that is 1 in the rows where the opcode runs.
    spec fn enable_column(&self) -> AdviceColumn;

    /// The class of the opcode.
    spec fn class(&self) -> OpcodeClass;

    /// The expression that rebuilds the opcode's number from the gadget's
    /// cells, times the enable bit.
    spec fn opcode_expr(&self) -> ExprView;

    /// The expression of the opcode's move of the stack pointer, times the
    /// enable bit.
    spec fn sp_diff_expr(&self) -> ExprView;

    /// Whether the gadget is the one to write the witness of this event.
    spec fn handles(&self, entry: Event) -> bool;

    /// The cells that the gadget writes for an event at a row, in order.
    spec fn witness(&self, row: usize, entry: Event) -> Seq<CellView>;

    /// In a row where the enable bit is 0, both expressions are 0.
    proof fn lemma_disabled_row(&self, cells: spec_fn(AdviceColumn, int) -> int, row: int)
        requires
            cells(self.enable_column(), row) == 0,
        ensures
            self.opcode_expr().eval(cells, row) == 0,
            self.sp_diff_expr().eval(cells, row) == 0,
    ;

    /// Builds [`EventOpcodeConfig::opcode_expr`].
    fn opcode(&self) -> (e: Expr)
        ensures
            e@ == self.opcode_expr(),
    ;

    /// Builds [`EventOpcodeConfig::sp_diff_expr`].
    fn sp_diff(&self) -> (e: Expr)
        ensures
            e@ == self.sp_diff_expr(),
    ;

    /// Writes the witness of one event at the current row. The cells are
    /// written in order until one is refused; the pass succeeds exactly when
    /// none is.
    fn assign(&self, ctx: &mut Context, entry: &Event) -> (r: Result<(), AssignError>)
        requires
            self.handles(*entry),
        ensures
            final(ctx).columns == old(ctx).columns,
            final(ctx).rows == old(ctx).rows,
            final(ctx).offset == old(ctx).offset,
            ({
                let cells = self.witness(old(ctx).offset, *entry);
                let written = old(ctx).admitted_prefix(cells);
                &&& final(ctx).assigned() == old(ctx).assigned() + cells.take(written as int)
                &&& r is Ok <==> written == cells.len()
                &&& r is Err ==> r == Err::<(), AssignError>(
                    old(ctx).refusal(cells[written as int].column),
                )
            }),
    ;

    /// The class of the opcode, by which an event finds its gadget.
    fn opcode_class(&self) -> (c: OpcodeClass)
        ensures
            c == self.class(),
    ;
}

/// The builder of one opcode's gadget.
pub trait EventOpcodeConfigBuilder {
    /// The gadget that the builder returns.
    type Config: EventOpcodeConfig;

    /// The number of columns that the gadget draws from the pool.
    spec fn columns_needed() -> nat;

    /// Wires the gadget: draws its columns from the front of the pool and
    /// registers its lookups behind those already registered.
    fn configure(
        meta: &mut ConstraintSystem,
        common: &EventCommonConfig,
        opcode_bit: AdviceColumn,
        cols: &mut ColumnPool,
        instruction_table: &InstructionConfig,
        memory_table: &MemoryConfig,
        jump_table: &JumpConfig,
    ) -> (config: Self::Config)
        requires
            old(cols).remaining() >= Self::columns_needed(),
        ensures
            config.enable_column() == opcode_bit,
            final(cols).columns@ == old(cols).columns@,
            final(cols).taken == old(cols).taken + Self::columns_needed(),
            old(meta).registered().is_prefix_of(final(meta).registered()),
            old(meta).registered_stack_writes().is_prefix_of(
                final(meta).registered_stack_writes(),
            ),
    ;
}

} // verus!
