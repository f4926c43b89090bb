//! The memory-init table: the declared first content of each memory slot,
//! looked up when a slot is read before anything was written to it.

use vstd::prelude::*;
use num_bigint::BigUint;
use crate::bigint::{big_value, big_zero, big_one, big_add_u64, big_shl};
use crate::circuits::constraint_system::{ConstraintSystem, LookupView};
use crate::circuits::expression::{
    constant, lemma_product_of_known, AdviceColumn, Expr, ExprView, TableColumn,
};
use crate::circuits::table::{Table, TableCellView};
use crate::utils::AssignError;
use crate::width::{two_pow_16, two_pow_64, two_pow_80, lemma_two_pow_values};

verus! {

/// The initial content of one memory slot.
#[derive(Clone, Copy, Debug, PartialEq, Eq, Structural)]
pub struct MemoryInit {
    pub mmid: u64,
    pub offset: u64,
    pub value: u64,
}

impl MemoryInit {
    /// The canonical encoding of the record: the memory instance, then the
    /// offset 16 bits below it, then the value in the low 64 bits.
    pub open spec fn encoding(self) -> nat {
        (self.mmid as nat * two_pow_16() + self.offset as nat) * two_pow_64() + self.value as nat
    }

    /// The record of a slot.
    pub fn new(mmid: u64, offset: u64, value: u64) -> (r: MemoryInit)
        ensures
            r == (MemoryInit { mmid, offset, value }),
    {
        MemoryInit { mmid, offset, value }
    }

    /// The canonical encoding of the record as a big integer.
    pub fn encode(&self) -> (bn: BigUint)
        ensures
            big_value(bn) == self.encoding(),
    {
        proof {
            lemma_two_pow_values();
        }
        let mut bn = big_zero();
        bn = big_add_u64(bn, self.mmid);
        bn = big_shl(&bn, 16);
        bn = big_add_u64(bn, self.offset);
        bn = big_shl(&bn, 64);
        bn = big_add_u64(bn, self.value);
        bn
    }
}

/// Records whose offsets fit their 16 bits are told apart by their
/// encodings, which then stay below 2^144.
pub proof fn lemma_memory_init_injective(a: MemoryInit, b: MemoryInit)
    requires
        a.offset < two_pow_16(),
        b.offset < two_pow_16(),
        a != b,
    ensures
        a.encoding() != b.encoding(),
        a.encoding() < two_pow_64() * two_pow_80(),
{
}

/// The expression of a memory-init key: the memory instance at bit 80, the
/// offset at bit 64, the value below.
pub open spec fn memory_init_expr(mmid: ExprView, offset: ExprView, value: ExprView) -> ExprView {
    mmid.times(ExprView::constant(two_pow_80())).plus(
        offset.times(ExprView::constant(two_pow_64())),
    ).plus(value)
}

/// Where the three field expressions evaluate to the fields of a record, the
/// key expression evaluates to the record's encoding.
pub proof fn lemma_memory_init_expr_eval(
    mmid: ExprView,
    offset: ExprView,
    value: ExprView,
    cells: spec_fn(AdviceColumn, int) -> int,
    row: int,
    record: MemoryInit,
)
    requires
        mmid.eval(cells, row) == record.mmid,
        offset.eval(cells, row) == record.offset,
        value.eval(cells, row) == record.value,
    ensures
        memory_init_expr(mmid, offset, value).eval(cells, row) == record.encoding(),
{
    reveal_with_fuel(ExprView::eval, 4);
    let high = ExprView::constant(two_pow_80()).eval(cells, row);
    let low = ExprView::constant(two_pow_64()).eval(cells, row);
    let m = mmid.eval(cells, row);
    let o = offset.eval(cells, row);
    lemma_product_of_known(high, m, two_pow_80() as int);
    lemma_product_of_known(low, o, two_pow_64() as int);
    assert(memory_init_expr(mmid, offset, value).eval(cells, row) == m * high + o * low
        + value.eval(cells, row));
    assert(m * high == m * two_pow_80());
    assert(o * low == o * two_pow_64());
}

/// The memory-init table's place in the constraint system: its column.
#[derive(Clone, Copy, Debug, PartialEq, Eq, Structural)]
pub struct MemoryInitConfig {
    pub col: TableColumn,
}

impl MemoryInitConfig {
    /// The configuration of a memory-init table in the given column.
    pub fn new(col: TableColumn) -> (config: MemoryInitConfig)
        ensures
            config.col == col,
    {
        MemoryInitConfig { col }
    }

    /// Builds [`memory_init_expr`] from the expressions of the three fields.
    pub fn encode(&self, mmid: Expr, offset: Expr, value: Expr) -> (e: Expr)
        ensures
            e@ == memory_init_expr(mmid@, offset@, value@),
    {
        proof {
            lemma_two_pow_values();
        }
        mmid.times(constant(big_shl(&big_one(), 80))).plus(
            offset.times(constant(big_shl(&big_one(), 64))),
        ).plus(value)
    }

    /// Registers the lookup that demands that `expr` occur in the table.
    pub fn configure_in_range(&self, meta: &mut ConstraintSystem, key: &'static str, expr: Expr)
        ensures
            final(meta).registered() == old(meta).registered().push(
                LookupView { name: key@, input: expr@, table: self.col },
            ),
            final(meta).registered_stack_writes() == old(meta).registered_stack_writes(),
    {
        meta.lookup(key, expr, self.col);
    }
}

/// The filler of the memory-init table.
#[derive(Clone, Copy, Debug, PartialEq, Eq, Structural)]
pub struct MemoryInitChip {
    pub config: MemoryInitConfig,
}

/// The cells that hold the first `n` records: row `i` holds the encoding of
/// record `i`.
pub open spec fn memory_init_cells(col: TableColumn, records: Seq<MemoryInit>, n: nat) -> Seq<
    TableCellView,
> {
    Seq::new(n, |i: int| TableCellView { column: col, row: i as usize, value: records[i].encoding() })
}

impl MemoryInitChip {
    /// Writes the records into the table, record `i` to row `i`. A list
    /// longer than the table fills the table and is then refused.
    pub fn add_memory_init(self, table: &mut Table, memory_init: Vec<MemoryInit>) -> (r: Result<
        (),
        AssignError,
    >)
        ensures
            final(table).rows == old(table).rows,
            r is Ok <==> memory_init@.len() <= old(table).rows,
            r is Ok ==> final(table).assigned() == old(table).assigned() + memory_init_cells(
                self.config.col,
                memory_init@,
                memory_init@.len(),
            ),
            r is Err ==> r == Err::<(), AssignError>(AssignError::RowOutOfRange)
                && final(table).assigned() == old(table).assigned() + memory_init_cells(
                self.config.col,
                memory_init@,
                old(table).rows as nat,
            ),
    {
        let ghost before = table.assigned();
        let mut i: usize = 0;
        while i < memory_init.len()
            invariant
                i <= memory_init@.len(),
                i <= table.rows,
                table.rows == old(table).rows,
                before == old(table).assigned(),
                table.assigned() == before + memory_init_cells(
                    self.config.col,
                    memory_init@,
                    i as nat,
                ),
            decreases memory_init@.len() - i,
        {
            let value = memory_init[i].encode();
            match table.assign_cell(self.config.col, i, value) {
                Ok(()) => {},
                Err(e) => {
                    return Err(e);
                },
            }
            proof {
                assert(memory_init_cells(self.config.col, memory_init@, (i + 1) as nat)
                    == memory_init_cells(self.config.col, memory_init@, i as nat).push(
                    TableCellView {
                        column: self.config.col,
                        row: i,
                        value: memory_init@[i as int].encoding(),
                    },
                ));
            }
            i = i + 1;
        }
        Ok(())
    }
}

} // verus!
