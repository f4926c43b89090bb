//! The gadget of `Drop`: it takes one word off the stack and has no operand.

use vstd::prelude::*;
use crate::bigint::{big_from_u64, big_one, big_shl};
use crate::circuits::constraint_system::{ColumnPool, ConstraintSystem};
use crate::circuits::event::{EventCommonConfig, EventOpcodeConfig, EventOpcodeConfigBuilder};
use crate::circuits::expression::{
    constant, cur, lemma_product_of_known, AdviceColumn, Expr, ExprView,
};
use crate::circuits::instruction::InstructionConfig;
use crate::circuits::memory::MemoryConfig;
use crate::etable::Event;
use crate::itable::OpcodeClass;
use crate::jump::JumpConfig;
use crate::utils::{AssignError, CellView, Context};
use crate::width::{two_pow_77, lemma_two_pow_values};

verus! {

/// The gadget of `Drop`: only the enable bit.
#[derive(Clone, Copy, Debug, PartialEq, Eq, Structural)]
pub struct DropConfig {
    pub enable: AdviceColumn,
}

/// The builder of the `Drop` gadget.
pub struct DropConfigBuilder {}

impl EventOpcodeConfigBuilder for DropConfigBuilder {
    type Config = DropConfig;

    open spec fn columns_needed() -> nat {
        0
    }

    /// The gadget draws no column and registers no lookup.
    fn configure(
        meta: &mut ConstraintSystem,
        common: &EventCommonConfig,
        opcode_bit: AdviceColumn,
        cols: &mut ColumnPool,
        instruction_table: &InstructionConfig,
        memory_table: &MemoryConfig,
        jump_table: &JumpConfig,
    ) -> (config: DropConfig)
        ensures
            config == (DropConfig { enable: opcode_bit }),
            final(cols).taken == old(cols).taken,
            final(meta).registered() == old(meta).registered(),
            final(meta).registered_stack_writes() == old(meta).registered_stack_writes(),
    {
        DropConfig { enable: opcode_bit }
    }
}

impl EventOpcodeConfig for DropConfig {
    open spec fn enable_column(&self) -> AdviceColumn {
        self.enable
    }

    open spec fn class(&self) -> OpcodeClass {
        OpcodeClass::Drop
    }

    /// The class of `Drop` at bit 77, times the enable bit.
    open spec fn opcode_expr(&self) -> ExprView {
        ExprView::constant(OpcodeClass::Drop.index() * two_pow_77()).times(
            ExprView::cur(self.enable),
        )
    }

    /// Minus one, times the enable bit.
    open spec fn sp_diff_expr(&self) -> ExprView {
        ExprView::constant(1).negated().times(ExprView::cur(self.enable))
    }

    open spec fn handles(&self, entry: Event) -> bool {
        true
    }

    /// The gadget has no cell of its own to write.
    open spec fn witness(&self, row: usize, entry: Event) -> Seq<CellView> {
        Seq::empty()
    }

    proof fn lemma_disabled_row(&self, cells: spec_fn(AdviceColumn, int) -> int, row: int) {
        lemma_drop_values(*self, cells, row);
    }

    fn opcode(&self) -> (e: Expr) {
        proof {
            lemma_two_pow_values();
        }
        constant(big_shl(&big_from_u64(OpcodeClass::Drop.code()), 64 + 13)).times(cur(self.enable))
    }

    fn sp_diff(&self) -> (e: Expr) {
        constant(big_one()).negated().times(cur(self.enable))
    }

    fn assign(&self, ctx: &mut Context, entry: &Event) -> (r: Result<(), AssignError>)
        ensures
            r is Ok,
            final(ctx).assigned() == old(ctx).assigned(),
    {
        Ok(())
    }

    fn opcode_class(&self) -> (c: OpcodeClass) {
        OpcodeClass::Drop
    }
}

/// In a row of a witness, the opcode expression of `Drop` is the class of
/// `Drop` shifted to bit 77 where the enable bit is 1, and 0 where it is 0;
/// its stack-pointer expression is minus the enable bit.
pub proof fn lemma_drop_values(config: DropConfig, cells: spec_fn(AdviceColumn, int) -> int, row: int)
    ensures
        config.opcode_expr().eval(cells, row) == 3 * two_pow_77() * cells(config.enable, row),
        config.sp_diff_expr().eval(cells, row) == -cells(config.enable, row),
        cells(config.enable, row) == 1 ==> config.opcode_expr().eval(cells, row) == 3
            * two_pow_77(),
        cells(config.enable, row) == 0 ==> config.opcode_expr().eval(cells, row) == 0,
{
    reveal_with_fuel(ExprView::eval, 4);
    let enable = cells(config.enable, row);
    let class = ExprView::constant(OpcodeClass::Drop.index() * two_pow_77()).eval(cells, row);
    let minus_one = ExprView::constant(1).negated().eval(cells, row);
    assert(ExprView::cur(config.enable).eval(cells, row) == enable);
    lemma_product_of_known(class, enable, (3 * two_pow_77()) as int);
    assert(minus_one == -1);
    assert(config.sp_diff_expr().eval(cells, row) == minus_one * enable);
    lemma_product_of_known(minus_one, enable, -1);
    assert(minus_one * enable == -1 * enable);
}

} // verus!
