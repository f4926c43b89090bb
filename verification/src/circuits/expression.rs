//! Polynomial expressions over the cells of the witness.
//!
//! A gadget describes its constraints as expressions: constants, cells of
//! advice columns at a rotation from the current row, and sums, products and
//! negations of these. The proof backend evaluates them in its field; here
//! they are given their meaning over the integers, which every field
//! evaluation is an image of.

use vstd::prelude::*;
use num_bigint::BigUint;
use crate::bigint::{big_value, big_from_u64};

verus! {

/// A column of witness cells, named by its position among the advice columns.
#[derive(Clone, Copy, Debug, PartialEq, Eq, Structural, Hash)]
pub struct AdviceColumn {
    pub index: usize,
}

/// A column of a lookup table, named by its position among the table columns.
#[derive(Clone, Copy, Debug, PartialEq, Eq, Structural, Hash)]
pub struct TableColumn {
    pub index: usize,
}

/// An expression over the witness.
#[derive(Debug)]
pub enum Expr {
    Constant(BigUint),
    Advice { column: AdviceColumn, rotation: i32 },
    Negated(Box<Expr>),
    Sum(Box<Expr>, Box<Expr>),
    Product(Box<Expr>, Box<Expr>),
}

/// An expression as a mathematical value.
pub enum ExprView {
    Constant(nat),
    Advice { column: AdviceColumn, rotation: i32 },
    Negated(Box<ExprView>),
    Sum(Box<ExprView>, Box<ExprView>),
    Product(Box<ExprView>, Box<ExprView>),
}

impl View for Expr {
    type V = ExprView;

    open spec fn view(&self) -> ExprView
        decreases self,
    {
        match self {
            Expr::Constant(c) => ExprView::Constant(big_value(*c)),
            Expr::Advice { column, rotation } => ExprView::Advice {
                column: *column,
                rotation: *rotation,
            },
            Expr::Negated(e) => ExprView::Negated(Box::new((**e).view())),
            Expr::Sum(a, b) => ExprView::Sum(Box::new((**a).view()), Box::new((**b).view())),
            Expr::Product(a, b) => ExprView::Product(
                Box::new((**a).view()),
                Box::new((**b).view()),
            ),
        }
    }
}

impl ExprView {
    /// The value of the expression at a row of a witness, where `cells` gives
    /// the content of each column at each row.
    pub open spec fn eval(self, cells: spec_fn(AdviceColumn, int) -> int, row: int) -> int
        decreases self,
    {
        match self {
            ExprView::Constant(c) => c as int,
            ExprView::Advice { column, rotation } => cells(column, row + rotation),
            ExprView::Negated(e) => -e.eval(cells, row),
            ExprView::Sum(a, b) => a.eval(cells, row) + b.eval(cells, row),
            ExprView::Product(a, b) => a.eval(cells, row) * b.eval(cells, row),
        }
    }

    /// The constant `c`.
    pub open spec fn constant(c: nat) -> ExprView {
        ExprView::Constant(c)
    }

    /// The cell of `column` in the current row.
    pub open spec fn cur(column: AdviceColumn) -> ExprView {
        ExprView::Advice { column, rotation: 0 }
    }

    /// The negation of the expression.
    pub open spec fn negated(self) -> ExprView {
        ExprView::Negated(Box::new(self))
    }

    /// The sum of the two expressions.
    pub open spec fn plus(self, other: ExprView) -> ExprView {
        ExprView::Sum(Box::new(self), Box::new(other))
    }

    /// The product of the two expressions.
    pub open spec fn times(self, other: ExprView) -> ExprView {
        ExprView::Product(Box::new(self), Box::new(other))
    }
}

impl Expr {
    /// The negation of the expression.
    pub fn negated(self) -> (e: Expr)
        ensures
            e@ == self@.negated(),
    {
        Expr::Negated(Box::new(self))
    }

    /// The sum of the two expressions.
    pub fn plus(self, other: Expr) -> (e: Expr)
        ensures
            e@ == self@.plus(other@),
    {
        Expr::Sum(Box::new(self), Box::new(other))
    }

    /// The product of the two expressions.
    pub fn times(self, other: Expr) -> (e: Expr)
        ensures
            e@ == self@.times(other@),
    {
        Expr::Product(Box::new(self), Box::new(other))
    }
}

/// The constant expression of a big integer.
pub fn constant(bn: BigUint) -> (e: Expr)
    ensures
        e@ == ExprView::constant(big_value(bn)),
{
    Expr::Constant(bn)
}

/// The constant expression of a machine integer.
pub fn constant_from(x: u64) -> (e: Expr)
    ensures
        e@ == ExprView::constant(x as nat),
{
    Expr::Constant(big_from_u64(x))
}

/// The cell of `column` in the current row.
pub fn cur(column: AdviceColumn) -> (e: Expr)
    ensures
        e@ == ExprView::cur(column),
{
    Expr::Advice { column, rotation: 0 }
}

/// The cell of `column` in the row before the current one.
pub fn pre(column: AdviceColumn) -> (e: Expr)
    ensures
        e@ == (ExprView::Advice { column, rotation: -1i32 }),
{
    Expr::Advice { column, rotation: -1 }
}

/// The cell of `column` in the row after the current one.
pub fn next(column: AdviceColumn) -> (e: Expr)
    ensures
        e@ == (ExprView::Advice { column, rotation: 1i32 }),
{
    Expr::Advice { column, rotation: 1 }
}

/// A product in which one factor is known.
pub proof fn lemma_product_of_known(a: int, b: int, known: int)
    by (nonlinear_arith)
    requires
        a == known,
    ensures
        a * b == known * b,
        b * a == b * known,
{
}

} // verus!
