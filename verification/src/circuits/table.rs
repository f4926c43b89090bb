//! The cells of a lookup table, as one pass fills them.

use vstd::prelude::*;
use num_bigint::BigUint;
use crate::bigint::big_value;
use crate::circuits::expression::TableColumn;
use crate::utils::AssignError;

verus! {

/// One table cell and the integer written to it.
#[derive(Debug)]
pub struct TableCell {
    pub column: TableColumn,
    pub row: usize,
    pub value: BigUint,
}

/// A written table cell as a mathematical value.
pub struct TableCellView {
    pub column: TableColumn,
    pub row: usize,
    pub value: nat,
}

impl View for TableCell {
    type V = TableCellView;

    open spec fn view(&self) -> TableCellView {
        TableCellView { column: self.column, row: self.row, value: big_value(self.value) }
    }
}

/// A lookup table of `rows` rows, and the cells written so far, oldest first.
#[derive(Debug)]
pub struct Table {
    pub rows: usize,
    pub cells: Vec<TableCell>,
}

impl Table {
    /// The cells written so far, oldest first.
    pub open spec fn assigned(self) -> Seq<TableCellView> {
        self.cells@.map_values(|c: TableCell| c@)
    }

    /// An empty table of the given height.
    pub fn new(rows: usize) -> (table: Table)
        ensures
            table.rows == rows,
            table.assigned() == Seq::<TableCellView>::empty(),
    {
        let table = Table { rows, cells: Vec::new() };
        assert(table.assigned() == Seq::<TableCellView>::empty());
        table
    }

    /// Writes `value` to the cell of `column` at `row`. A row outside the
    /// table is refused, and nothing is written then.
    pub fn assign_cell(&mut self, column: TableColumn, row: usize, value: BigUint) -> (r: Result<
        (),
        AssignError,
    >)
        ensures
            final(self).rows == old(self).rows,
            row < old(self).rows ==> r is Ok,
            row >= old(self).rows ==> r == Err::<(), AssignError>(AssignError::RowOutOfRange),
            r is Ok ==> final(self).assigned() == old(self).assigned().push(
                TableCellView { column, row, value: big_value(value) },
            ),
            r is Err ==> final(self).assigned() == old(self).assigned(),
    {
        if row >= self.rows {
            return Err(AssignError::RowOutOfRange);
        }
        let ghost before = self.cells@;
        let cell = TableCell { column, row, value };
        self.cells.push(cell);
        assert(self.cells@.map_values(|c: TableCell| c@) == before.map_values(|c: TableCell| c@).push(
            cell@,
        ));
        Ok(())
    }
}

} // verus!
