//! The instruction table in the constraint system: the expression that
//! rebuilds an instruction's key from witness cells, the lookup that ties a
//! witnessed instruction to the table, and the filling of the table.
//!
//! The key expression and the table cells use one layout, the canonical
//! encoding of an instruction: the address above the 128 bits of the opcode.

use vstd::prelude::*;
use crate::bigint::{big_one, big_shl};
use crate::circuits::constraint_system::{ConstraintSystem, LookupView};
use crate::circuits::expression::{
    constant, lemma_product_of_known, AdviceColumn, Expr, ExprView, TableColumn,
};
use crate::circuits::table::{Table, TableCellView};
use crate::itable::{InstructionTableEntry, ADDRESS_SHIFT};
use crate::utils::AssignError;
use crate::width::{
    two_pow_128, two_pow_144, two_pow_160, two_pow_176, two_pow_192, lemma_two_pow_values,
};

verus! {

/// The expression of an instruction's key: the opcode, plus each identifier
/// of the address times its weight. The address stands above the 128 bits of
/// the opcode, so the weight is 2^128 for the instruction identifier and
/// grows by 16 bits for each identifier above it.
pub open spec fn inst_expr(
    moid: ExprView,
    mmid: ExprView,
    fid: ExprView,
    bid: ExprView,
    iid: ExprView,
    opcode: ExprView,
) -> ExprView {
    opcode.plus(iid.times(ExprView::constant(two_pow_128()))).plus(
        bid.times(ExprView::constant(two_pow_144())),
    ).plus(fid.times(ExprView::constant(two_pow_160()))).plus(
        mmid.times(ExprView::constant(two_pow_176())),
    ).plus(moid.times(ExprView::constant(two_pow_192())))
}

/// Builds [`inst_expr`] from the expressions of the six fields.
pub fn encode_inst_expr(moid: Expr, mmid: Expr, fid: Expr, bid: Expr, iid: Expr, opcode: Expr) -> (acc:
    Expr)
    ensures
        acc@ == inst_expr(moid@, mmid@, fid@, bid@, iid@, opcode@),
{
    proof {
        lemma_two_pow_values();
    }
    let bn = big_one();
    let acc = opcode;
    let bn = big_shl(&bn, ADDRESS_SHIFT);
    let bn_next = big_shl(&bn, 16);
    let acc = acc.plus(iid.times(constant(bn)));
    let bn = bn_next;
    let bn_next = big_shl(&bn, 16);
    let acc = acc.plus(bid.times(constant(bn)));
    let bn = bn_next;
    let bn_next = big_shl(&bn, 16);
    let acc = acc.plus(fid.times(constant(bn)));
    let bn = bn_next;
    let bn_next = big_shl(&bn, 16);
    let acc = acc.plus(mmid.times(constant(bn)));
    let bn = bn_next;
    let acc = acc.plus(moid.times(constant(bn)));

    acc
}

/// The key expression evaluates to the weighted sum of its fields.
pub proof fn lemma_inst_expr_eval(
    moid: ExprView,
    mmid: ExprView,
    fid: ExprView,
    bid: ExprView,
    iid: ExprView,
    opcode: ExprView,
    cells: spec_fn(AdviceColumn, int) -> int,
    row: int,
)
    ensures
        inst_expr(moid, mmid, fid, bid, iid, opcode).eval(cells, row) == opcode.eval(cells, row)
            + iid.eval(cells, row) * two_pow_128() + bid.eval(cells, row) * two_pow_144()
            + fid.eval(cells, row) * two_pow_160() + mmid.eval(cells, row) * two_pow_176()
            + moid.eval(cells, row) * two_pow_192(),
{
    reveal_with_fuel(ExprView::eval, 8);
    lemma_product_of_known(
        ExprView::constant(two_pow_128()).eval(cells, row),
        iid.eval(cells, row),
        two_pow_128() as int,
    );
    lemma_product_of_known(
        ExprView::constant(two_pow_144()).eval(cells, row),
        bid.eval(cells, row),
        two_pow_144() as int,
    );
    lemma_product_of_known(
        ExprView::constant(two_pow_160()).eval(cells, row),
        fid.eval(cells, row),
        two_pow_160() as int,
    );
    lemma_product_of_known(
        ExprView::constant(two_pow_176()).eval(cells, row),
        mmid.eval(cells, row),
        two_pow_176() as int,
    );
    lemma_product_of_known(
        ExprView::constant(two_pow_192()).eval(cells, row),
        moid.eval(cells, row),
        two_pow_192() as int,
    );
}

/// Where the six field expressions evaluate to the identifiers and to the
/// opcode encoding of an instruction, the key expression evaluates to the
/// instruction's encoding: the number that the table holds for it.
pub proof fn lemma_inst_expr_is_encoding(
    moid: ExprView,
    mmid: ExprView,
    fid: ExprView,
    bid: ExprView,
    iid: ExprView,
    opcode: ExprView,
    cells: spec_fn(AdviceColumn, int) -> int,
    row: int,
    entry: InstructionTableEntry,
)
    requires
        moid.eval(cells, row) == entry.moid,
        mmid.eval(cells, row) == entry.mmid,
        fid.eval(cells, row) == entry.fid,
        bid.eval(cells, row) == entry.bid,
        iid.eval(cells, row) == entry.iid,
        opcode.eval(cells, row) == entry.opcode@.encoding(),
    ensures
        inst_expr(moid, mmid, fid, bid, iid, opcode).eval(cells, row) == entry.encoding(),
{
    lemma_inst_expr_eval(moid, mmid, fid, bid, iid, opcode, cells, row);
}

/// The instruction table's place in the constraint system: its column.
#[derive(Clone, Copy, Debug, PartialEq, Eq, Structural)]
pub struct InstructionConfig {
    pub col: TableColumn,
}

impl InstructionConfig {
    /// The configuration of an instruction table in the given column.
    pub fn configure(col: TableColumn) -> (config: InstructionConfig)
        ensures
            config.col == col,
    {
        InstructionConfig { col }
    }

    /// Registers the lookup that demands that `expr` occur in the table.
    pub fn configure_in_table(&self, meta: &mut ConstraintSystem, key: &'static str, expr: Expr)
        ensures
            final(meta).registered() == old(meta).registered().push(
                LookupView { name: key@, input: expr@, table: self.col },
            ),
            final(meta).registered_stack_writes() == old(meta).registered_stack_writes(),
    {
        meta.lookup(key, expr, self.col);
    }
}

/// The filler of the instruction table.
#[derive(Clone, Copy, Debug, PartialEq, Eq, Structural)]
pub struct InstructionChip {
    pub config: InstructionConfig,
}

/// The cells that hold the first `n` instructions: row `i` holds the
/// encoding of instruction `i`.
pub open spec fn instruction_cells(
    col: TableColumn,
    instructions: Seq<InstructionTableEntry>,
    n: nat,
) -> Seq<TableCellView> {
    Seq::new(
        n,
        |i: int| TableCellView { column: col, row: i as usize, value: instructions[i].encoding() },
    )
}

impl InstructionChip {
    /// The filler of the table with the given configuration.
    pub fn new(config: InstructionConfig) -> (chip: InstructionChip)
        ensures
            chip.config == config,
    {
        InstructionChip { config }
    }

    /// Writes the program into the table, instruction `i` to row `i`. A
    /// program longer than the table fills the table and is then refused.
    pub fn assign(&self, table: &mut Table, instructions: &Vec<InstructionTableEntry>) -> (r: Result<
        (),
        AssignError,
    >)
        requires
            forall|i: int| 0 <= i < instructions@.len() ==> (#[trigger] instructions@[i]).opcode@.fits(),
        ensures
            final(table).rows == old(table).rows,
            r is Ok <==> instructions@.len() <= old(table).rows,
            r is Ok ==> final(table).assigned() == old(table).assigned() + instruction_cells(
                self.config.col,
                instructions@,
                instructions@.len(),
            ),
            r is Err ==> r == Err::<(), AssignError>(AssignError::RowOutOfRange)
                && final(table).assigned() == old(table).assigned() + instruction_cells(
                self.config.col,
                instructions@,
                old(table).rows as nat,
            ),
    {
        let ghost before = table.assigned();
        let mut i: usize = 0;
        while i < instructions.len()
            invariant
                i <= instructions@.len(),
                i <= table.rows,
                table.rows == old(table).rows,
                before == old(table).assigned(),
                forall|k: int|
                    0 <= k < instructions@.len() ==> (#[trigger] instructions@[k]).opcode@.fits(),
                table.assigned() == before + instruction_cells(
                    self.config.col,
                    instructions@,
                    i as nat,
                ),
            decreases instructions@.len() - i,
        {
            let value = instructions[i].encode();
            match table.assign_cell(self.config.col, i, value) {
                Ok(()) => {},
                Err(e) => {
                    return Err(e);
                },
            }
            proof {
                assert(instruction_cells(self.config.col, instructions@, (i + 1) as nat)
                    == instruction_cells(self.config.col, instructions@, i as nat).push(
                    TableCellView {
                        column: self.config.col,
                        row: i,
                        value: instructions@[i as int].encoding(),
                    },
                ));
            }
            i = i + 1;
        }
        Ok(())
    }
}

} // verus!
