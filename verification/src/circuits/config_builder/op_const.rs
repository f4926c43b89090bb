//! The gadget of `Const`: it puts a constant on the stack.
//!
//! Its opcode expression rebuilds the canonical encoding of the instruction
//! from the type cell and the value cell: the class at bit 96, the type at
//! bit 80, the value below.

use vstd::prelude::*;
use crate::bigint::{big_from_u64, big_shl};
use crate::circuits::config_builder::op_drop::DropConfig;
use crate::circuits::constraint_system::{ColumnPool, ConstraintSystem};
use crate::circuits::event::{EventCommonConfig, EventOpcodeConfig, EventOpcodeConfigBuilder};
use crate::circuits::expression::{
    constant, constant_from, cur, lemma_product_of_known, AdviceColumn, Expr, ExprView,
};
use crate::circuits::config_builder::op_drop::lemma_drop_values;
use crate::circuits::instruction::InstructionConfig;
use crate::circuits::memory::{MemoryConfig, StackWriteLookupView};
use crate::etable::Event;
use crate::itable::{Opcode, OpcodeClass, OpcodeView, OPCODE_ARG0_SHIFT, OPCODE_CLASS_SHIFT};
use crate::types::VarType;
use crate::jump::JumpConfig;
use crate::utils::{AssignError, CellView, Context};
use crate::width::{two_pow_16, two_pow_64, two_pow_80, two_pow_96, lemma_two_pow_values};

verus! {

/// The gadget of `Const`: the type and the value of the constant, and the
/// enable bit.
#[derive(Clone, Copy, Debug, PartialEq, Eq, Structural)]
pub struct ConstConfig {
    pub vtype: AdviceColumn,
    pub value: AdviceColumn,
    pub enable: AdviceColumn,
}

/// The builder of the `Const` gadget.
pub struct ConstConfigBuilder {}

/// The stack-write lookup of a `Const` gadget: where the enable bit is set,
/// the step's first memory access writes the value, with its type, at the
/// stack pointer.
pub open spec fn const_stack_write(
    common: EventCommonConfig,
    config: ConstConfig,
) -> StackWriteLookupView {
    StackWriteLookupView {
        name: "const mlookup"@,
        name_rev: "const mlookup rev"@,
        enable: ExprView::cur(config.enable),
        eid: ExprView::cur(common.eid),
        emid: ExprView::constant(1),
        sp: ExprView::cur(common.sp),
        vtype: ExprView::cur(config.vtype),
        value: ExprView::cur(config.value),
    }
}

impl EventOpcodeConfigBuilder for ConstConfigBuilder {
    type Config = ConstConfig;

    open spec fn columns_needed() -> nat {
        2
    }

    /// The gadget draws the value column, then the type column, and
    /// registers its stack-write lookup.
    fn configure(
        meta: &mut ConstraintSystem,
        common: &EventCommonConfig,
        opcode_bit: AdviceColumn,
        cols: &mut ColumnPool,
        instruction_table: &InstructionConfig,
        memory_table: &MemoryConfig,
        jump_table: &JumpConfig,
    ) -> (config: ConstConfig)
        ensures
            config == (ConstConfig {
                value: old(cols).columns@[old(cols).taken as int],
                vtype: old(cols).columns@[old(cols).taken + 1],
                enable: opcode_bit,
            }),
            final(meta).registered() == old(meta).registered(),
            final(meta).registered_stack_writes() == old(meta).registered_stack_writes().push(
                const_stack_write(*common, config),
            ),
    {
        let value = cols.next().unwrap();
        let vtype = cols.next().unwrap();

        memory_table.configure_stack_write_in_table(
            "const mlookup",
            "const mlookup rev",
            meta,
            cur(opcode_bit),
            cur(common.eid),
            constant_from(1u64),
            cur(common.sp),
            cur(vtype),
            cur(value),
        );

        ConstConfig { enable: opcode_bit, value, vtype }
    }
}

impl EventOpcodeConfig for ConstConfig {
    open spec fn enable_column(&self) -> AdviceColumn {
        self.enable
    }

    open spec fn class(&self) -> OpcodeClass {
        OpcodeClass::Const
    }

    /// The class of `Const` at bit 96, plus the type cell at bit 80, plus the
    /// value cell, all times the enable bit.
    open spec fn opcode_expr(&self) -> ExprView {
        ExprView::constant(OpcodeClass::Const.index() * two_pow_96()).plus(
            ExprView::cur(self.vtype).times(ExprView::constant(two_pow_80())),
        ).plus(ExprView::cur(self.value)).times(ExprView::cur(self.enable))
    }

    /// Plus one, times the enable bit.
    open spec fn sp_diff_expr(&self) -> ExprView {
        ExprView::constant(1).times(ExprView::cur(self.enable))
    }

    /// The gadget writes the witness of the steps whose instruction is a
    /// `Const`.
    open spec fn handles(&self, entry: Event) -> bool {
        entry.instruction.opcode@ is Const
    }

    /// The value of the constant in the value column, then the tag of its
    /// type in the type column.
    open spec fn witness(&self, row: usize, entry: Event) -> Seq<CellView> {
        match entry.instruction.opcode@ {
            OpcodeView::Const { vtype, value } => seq![
                CellView { column: self.value, row, value: value as nat },
                CellView { column: self.vtype, row, value: vtype.tag() },
            ],
            _ => Seq::empty(),
        }
    }

    proof fn lemma_disabled_row(&self, cells: spec_fn(AdviceColumn, int) -> int, row: int) {
        lemma_const_values(*self, cells, row);
        let number = 2 * two_pow_96() + cells(self.vtype, row) * two_pow_80() + cells(
            self.value,
            row,
        );
        lemma_product_of_known(cells(self.enable, row), number, 0);
    }

    fn opcode(&self) -> (e: Expr) {
        proof {
            lemma_two_pow_values();
        }
        constant(big_shl(&big_from_u64(OpcodeClass::Const.code()), OPCODE_CLASS_SHIFT)).plus(
            cur(self.vtype).times(constant(big_shl(&big_from_u64(1u64), OPCODE_ARG0_SHIFT))),
        ).plus(cur(self.value)).times(cur(self.enable))
    }

    fn sp_diff(&self) -> (e: Expr) {
        constant_from(1u64).times(cur(self.enable))
    }

    fn assign(&self, ctx: &mut Context, entry: &Event) -> (r: Result<(), AssignError>) {
        match &entry.instruction.opcode {
            Opcode::Const { vtype, value } => {
                let ghost cells = self.witness(ctx.offset, *entry);
                let ghost start = *ctx;
                proof {
                    reveal_with_fuel(Context::admitted_prefix, 3);
                    assert(cells.drop_first().len() == 1);
                    assert(cells.drop_first()[0] == cells[1]);
                    assert(cells.drop_first().drop_first().len() == 0);
                }
                match ctx.assign_advice(self.value, big_from_u64(*value)) {
                    Ok(()) => {},
                    Err(e) => {
                        assert(start.admitted_prefix(cells) == 0);
                        assert(ctx.assigned() == start.assigned() + cells.take(0));
                        return Err(e);
                    },
                }
                assert(ctx.assigned() == start.assigned() + cells.take(1));
                match ctx.assign_advice(self.vtype, big_from_u64(vtype.code())) {
                    Ok(()) => {},
                    Err(e) => {
                        assert(start.admitted_prefix(cells) == 1);
                        return Err(e);
                    },
                }
                assert(start.admitted_prefix(cells) == 2);
                assert(ctx.assigned() == start.assigned() + cells.take(2));
                Ok(())
            },
            _ => Ok(()),
        }
    }

    fn opcode_class(&self) -> (c: OpcodeClass) {
        OpcodeClass::Const
    }
}

/// In a row of a witness, the opcode expression of `Const` is the class of
/// `Const` at bit 96, plus the type cell at bit 80, plus the value cell, all
/// times the enable bit; its stack-pointer expression is the enable bit.
pub proof fn lemma_const_values(
    config: ConstConfig,
    cells: spec_fn(AdviceColumn, int) -> int,
    row: int,
)
    ensures
        config.opcode_expr().eval(cells, row) == (2 * two_pow_96() + cells(config.vtype, row)
            * two_pow_80() + cells(config.value, row)) * cells(config.enable, row),
        config.sp_diff_expr().eval(cells, row) == cells(config.enable, row),
        cells(config.enable, row) == 1 ==> config.opcode_expr().eval(cells, row) == 2
            * two_pow_96() + cells(config.vtype, row) * two_pow_80() + cells(config.value, row),
{
    reveal_with_fuel(ExprView::eval, 6);
    let enable = cells(config.enable, row);
    let vtype = cells(config.vtype, row);
    let value = cells(config.value, row);
    let weight = ExprView::constant(two_pow_80()).eval(cells, row);
    let one = ExprView::constant(1).eval(cells, row);
    let number = 2 * two_pow_96() + vtype * two_pow_80() + value;
    assert(ExprView::cur(config.enable).eval(cells, row) == enable);
    assert(ExprView::cur(config.vtype).eval(cells, row) == vtype);
    assert(ExprView::cur(config.value).eval(cells, row) == value);
    let inner = ExprView::constant(OpcodeClass::Const.index() * two_pow_96()).plus(
        ExprView::cur(config.vtype).times(ExprView::constant(two_pow_80())),
    ).plus(ExprView::cur(config.value));
    lemma_product_of_known(weight, vtype, two_pow_80() as int);
    assert(inner.eval(cells, row) == number);
    assert(config.opcode_expr().eval(cells, row) == inner.eval(cells, row) * enable);
    assert(one == 1);
    assert(config.sp_diff_expr().eval(cells, row) == one * enable);
    lemma_product_of_known(one, enable, 1);
    assert(one * enable == 1 * enable);
    if enable == 1 {
        lemma_product_of_known(enable, number, 1);
        assert(number * enable == number * 1);
    }
}

/// In an enabled row whose type cell and value cell hold the type tag and
/// the value of a constant, the opcode expression is the canonical encoding
/// of that `Const` instruction: the number that the instruction table holds
/// below the address. These are the cells that the gadget's `assign` writes.
pub proof fn lemma_const_expr_is_encoding(
    config: ConstConfig,
    cells: spec_fn(AdviceColumn, int) -> int,
    row: int,
    vtype: VarType,
    value: u64,
)
    requires
        cells(config.enable, row) == 1,
        cells(config.vtype, row) == vtype.tag(),
        cells(config.value, row) == value,
    ensures
        config.opcode_expr().eval(cells, row) == (OpcodeView::Const { vtype, value }).encoding(),
{
    lemma_const_values(config, cells, row);
}

/// In enabled rows the opcode expression tells constants apart: where the
/// type cells fit 16 bits and the value cells 64, two rows with the same
/// value of the expression hold the same type and the same value.
pub proof fn lemma_const_expr_injective(
    config: ConstConfig,
    cells: spec_fn(AdviceColumn, int) -> int,
    row: int,
    other_cells: spec_fn(AdviceColumn, int) -> int,
    other_row: int,
)
    requires
        cells(config.enable, row) == 1,
        other_cells(config.enable, other_row) == 1,
        0 <= cells(config.vtype, row) < two_pow_16(),
        0 <= other_cells(config.vtype, other_row) < two_pow_16(),
        0 <= cells(config.value, row) < two_pow_64(),
        0 <= other_cells(config.value, other_row) < two_pow_64(),
        config.opcode_expr().eval(cells, row) == config.opcode_expr().eval(
            other_cells,
            other_row,
        ),
    ensures
        cells(config.vtype, row) == other_cells(config.vtype, other_row),
        cells(config.value, row) == other_cells(config.value, other_row),
{
    lemma_const_values(config, cells, row);
    lemma_const_values(config, other_cells, other_row);
}

/// An enabled `Const` row and an enabled `Drop` row never have the same
/// value of their opcode expressions, where the type cell fits 16 bits and
/// the value cell 64.
pub proof fn lemma_const_expr_differs_from_drop(
    push: ConstConfig,
    drop: DropConfig,
    cells: spec_fn(AdviceColumn, int) -> int,
    push_row: int,
    drop_row: int,
)
    requires
        cells(push.enable, push_row) == 1,
        cells(drop.enable, drop_row) == 1,
        0 <= cells(push.vtype, push_row) < two_pow_16(),
        0 <= cells(push.value, push_row) < two_pow_64(),
    ensures
        push.opcode_expr().eval(cells, push_row) != drop.opcode_expr().eval(cells, drop_row),
{
    lemma_const_values(push, cells, push_row);
    lemma_drop_values(drop, cells, drop_row);
}

/// A push of a constant followed by a drop leaves the stack pointer where it
/// was: over a row where `Const` is enabled and a row where `Drop` is, the
/// two stack-pointer expressions add up to 0.
pub proof fn lemma_push_then_drop_restores_sp(
    push: ConstConfig,
    drop: DropConfig,
    cells: spec_fn(AdviceColumn, int) -> int,
    push_row: int,
    drop_row: int,
)
    requires
        cells(push.enable, push_row) == 1,
        cells(drop.enable, drop_row) == 1,
    ensures
        push.sp_diff_expr().eval(cells, push_row) + drop.sp_diff_expr().eval(cells, drop_row) == 0,
{
    lemma_const_values(push, cells, push_row);
    lemma_drop_values(drop, cells, drop_row);
}

} // verus!
