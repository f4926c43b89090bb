//! Shared utilities: the handle through which one assignment pass writes
//! witness cells, and the last step before the proof backend, a canonical
//! integer as the wide little-endian buffer that the backend reduces modulo
//! its field order.

use vstd::prelude::*;
use vstd::arithmetic::power2::{pow2, lemma_pow2_adds, lemma2_to64, lemma_pow2_pos};
use num_bigint::BigUint;
use crate::bigint::{big_value, le_value, big_to_bytes_le};
use crate::width::lemma_cut;
use crate::circuits::expression::AdviceColumn;

verus! {

/// Number of bytes in the wide buffer.
pub const WIDE_BYTES: usize = 64;

/// A string of `n` bytes spells a number below 256^n.
pub proof fn lemma_le_value_bound(bytes: Seq<u8>)
    ensures
        le_value(bytes) < pow2(8 * bytes.len()),
    decreases bytes.len(),
{
    lemma2_to64();
    if bytes.len() > 0 {
        let rest = bytes.drop_first();
        lemma_le_value_bound(rest);
        lemma_pow2_adds(8, 8 * rest.len());
        let limit = pow2(8 * rest.len());
        let high = le_value(rest);
        assert(256 * high + 256 <= 256 * limit) by (nonlinear_arith)
            requires
                high < limit,
        ;
    }
}

/// Zero bytes appended at the significant end do not change the number.
pub proof fn lemma_le_value_padded(bytes: Seq<u8>, padded: Seq<u8>)
    requires
        bytes.len() <= padded.len(),
        forall|i: int| 0 <= i < bytes.len() ==> padded[i] == bytes[i],
        forall|i: int| bytes.len() <= i < padded.len() ==> padded[i] == 0,
    ensures
        le_value(padded) == le_value(bytes),
    decreases padded.len(),
{
    if padded.len() > 0 {
        if bytes.len() == 0 {
            lemma_le_value_padded(bytes, padded.drop_first());
        } else {
            lemma_le_value_padded(bytes.drop_first(), padded.drop_first());
        }
    }
}

/// Keeping only the first `n` bytes keeps the number modulo 256^n.
pub proof fn lemma_le_value_cut(bytes: Seq<u8>, n: nat)
    requires
        n <= bytes.len(),
    ensures
        le_value(bytes.subrange(0, n as int)) == le_value(bytes) % pow2(8 * n),
    decreases n,
{
    lemma2_to64();
    if n == 0 {
        assert(le_value(bytes) % 1 == 0);
    } else {
        let rest = bytes.drop_first();
        let kept = bytes.subrange(0, n as int);
        let m = (n - 1) as nat;
        assert(kept.drop_first() == rest.subrange(0, m as int));
        lemma_le_value_cut(rest, m);
        lemma_pow2_adds(8, 8 * m);
        lemma_pow2_pos(8 * m);
        let limit = pow2(8 * m);
        let high = le_value(rest);
        let q = high / limit;
        let r = high % limit;
        assert(high == q * limit + r && r < limit) by (nonlinear_arith)
            requires
                q == high / limit,
                r == high % limit,
                limit > 0,
        ;
        let low = bytes[0] as nat + 256 * r;
        assert(le_value(bytes) == q * (256 * limit) + low && low < 256 * limit)
            by (nonlinear_arith)
            requires
                le_value(bytes) == bytes[0] as nat + 256 * high,
                high == q * limit + r,
                r < limit,
                low == bytes[0] as nat + 256 * r,
                bytes[0] < 256,
        ;
        lemma_cut(le_value(bytes), 256 * limit, q, low);
    }
}

/// The 64-byte buffer handed to the backend's wide reduction: the number's
/// little-endian bytes, padded with zeros, or cut to the low 64 where the
/// number has more. The buffer spells the number modulo 2^512, so it spells
/// the number itself for every canonical encoding.
pub fn bn_to_wide_bytes(bn: &BigUint) -> (compressed: [u8; 64])
    ensures
        le_value(compressed@) == big_value(*bn) % pow2(512),
        big_value(*bn) < pow2(512) ==> le_value(compressed@) == big_value(*bn),
{
    let mut bytes = big_to_bytes_le(bn);
    let ghost spelled = bytes@;
    bytes.resize(WIDE_BYTES, 0);
    let mut compressed = [0u8;64];
    let mut i: usize = 0;
    while i < WIDE_BYTES
        invariant
            i <= 64,
            bytes@.len() == 64,
            forall|k: int| 0 <= k < i ==> compressed@[k] == bytes@[k],
        decreases 64 - i,
    {
        compressed[i] = bytes[i];
        i = i + 1;
    }
    proof {
        assert(compressed@ == bytes@);
        if spelled.len() <= 64 {
            assert(bytes@.subrange(0, spelled.len() as int) == spelled);
            lemma_le_value_padded(spelled, bytes@);
            lemma_le_value_bound(bytes@);
            lemma_cut(le_value(bytes@), pow2(512), 0, le_value(bytes@));
        } else {
            lemma_le_value_cut(spelled, 64);
        }
        if big_value(*bn) < pow2(512) {
            lemma_cut(big_value(*bn), pow2(512), 0, big_value(*bn));
        }
    }
    compressed
}

/// Why a cell could not be written.
#[derive(Clone, Copy, Debug, PartialEq, Eq, Structural)]
pub enum AssignError {
    /// The column lies outside the region.
    ColumnOutOfRange,
    /// The row lies outside the region.
    RowOutOfRange,
}

/// One witness cell and the integer written to it.
#[derive(Debug)]
pub struct CellAssignment {
    pub column: AdviceColumn,
    pub row: usize,
    pub value: BigUint,
}

/// A written cell as a mathematical value.
pub struct CellView {
    pub column: AdviceColumn,
    pub row: usize,
    pub value: nat,
}

impl View for CellAssignment {
    type V = CellView;

    open spec fn view(&self) -> CellView {
        CellView { column: self.column, row: self.row, value: big_value(self.value) }
    }
}

/// The handle of one assignment pass: a region of `columns` advice columns
/// and `rows` rows, the row at which the pass currently writes, and the cells
/// written so far, oldest first.
#[derive(Debug)]
pub struct Context {
    pub columns: usize,
    pub rows: usize,
    pub offset: usize,
    pub cells: Vec<CellAssignment>,
}

impl Context {
    /// The cells written so far, oldest first.
    pub open spec fn assigned(self) -> Seq<CellView> {
        self.cells@.map_values(|c: CellAssignment| c@)
    }

    /// Whether a write to `column` at the current row stays inside the region.
    pub open spec fn admits(self, column: AdviceColumn) -> bool {
        column.index < self.columns && self.offset < self.rows
    }

    /// The error with which a write to `column` at the current row is
    /// refused: the column is looked at first.
    pub open spec fn refusal(self, column: AdviceColumn) -> AssignError {
        if column.index >= self.columns {
            AssignError::ColumnOutOfRange
        } else {
            AssignError::RowOutOfRange
        }
    }

    /// How many of the given cells, taken in order, can be written at the
    /// current row before one is refused.
    pub open spec fn admitted_prefix(self, cells: Seq<CellView>) -> nat
        decreases cells.len(),
    {
        if cells.len() == 0 || !self.admits(cells[0].column) {
            0
        } else {
            1 + self.admitted_prefix(cells.drop_first())
        }
    }

    /// The handle of a fresh pass over a region of the given size.
    pub fn new(columns: usize, rows: usize) -> (ctx: Context)
        ensures
            ctx.columns == columns,
            ctx.rows == rows,
            ctx.offset == 0,
            ctx.assigned() == Seq::<CellView>::empty(),
    {
        let ctx = Context { columns, rows, offset: 0, cells: Vec::new() };
        assert(ctx.assigned() == Seq::<CellView>::empty());
        ctx
    }

    /// Writes `value` to the cell of `column` in the current row. A column or
    /// a row outside the region is refused, the column first, and nothing is
    /// written then.
    pub fn assign_advice(&mut self, column: AdviceColumn, value: BigUint) -> (r: Result<
        (),
        AssignError,
    >)
        ensures
            final(self).columns == old(self).columns,
            final(self).rows == old(self).rows,
            final(self).offset == old(self).offset,
            r is Ok <==> old(self).admits(column),
            r is Err ==> r == Err::<(), AssignError>(old(self).refusal(column)),
            r is Ok ==> final(self).assigned() == old(self).assigned().push(
                CellView { column, row: old(self).offset, value: big_value(value) },
            ),
            r is Err ==> final(self).assigned() == old(self).assigned(),
    {
        if column.index >= self.columns {
            return Err(AssignError::ColumnOutOfRange);
        }
        if self.offset >= self.rows {
            return Err(AssignError::RowOutOfRange);
        }
        let ghost before = self.cells@;
        let cell = CellAssignment { column, row: self.offset, value };
        self.cells.push(cell);
        assert(self.cells@.map_values(|c: CellAssignment| c@) == before.map_values(
            |c: CellAssignment| c@,
        ).push(cell@));
        Ok(())
    }
}

} // verus!
