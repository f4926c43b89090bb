//! What configuration leaves behind: the lookups that the gadgets registered,
//! and the pool from which they drew their columns.

use vstd::prelude::*;
use crate::circuits::expression::{AdviceColumn, Expr, ExprView, TableColumn};
use crate::circuits::memory::{StackWriteLookup, StackWriteLookupView};

verus! {

/// A lookup: in every row, the value of `input` must occur in `table`.
#[derive(Debug)]
pub struct Lookup {
    pub name: &'static str,
    pub input: Expr,
    pub table: TableColumn,
}

/// A lookup as a mathematical value.
pub struct LookupView {
    pub name: Seq<char>,
    pub input: ExprView,
    pub table: TableColumn,
}

impl View for Lookup {
    type V = LookupView;

    open spec fn view(&self) -> LookupView {
        LookupView { name: self.name@, input: self.input@, table: self.table }
    }
}

/// The constraint system under configuration: the table lookups and the
/// stack-write lookups registered so far, each list in the order of
/// registration.
#[derive(Debug)]
pub struct ConstraintSystem {
    pub lookups: Vec<Lookup>,
    pub stack_writes: Vec<StackWriteLookup>,
}

impl ConstraintSystem {
    /// The lookups registered so far, oldest first.
    pub open spec fn registered(self) -> Seq<LookupView> {
        self.lookups@.map_values(|l: Lookup| l@)
    }

    /// The stack-write lookups registered so far, oldest first.
    pub open spec fn registered_stack_writes(self) -> Seq<StackWriteLookupView> {
        self.stack_writes@.map_values(|l: StackWriteLookup| l@)
    }

    /// A constraint system without any lookup.
    pub fn new() -> (meta: ConstraintSystem)
        ensures
            meta.registered() == Seq::<LookupView>::empty(),
            meta.registered_stack_writes() == Seq::<StackWriteLookupView>::empty(),
    {
        let meta = ConstraintSystem { lookups: Vec::new(), stack_writes: Vec::new() };
        assert(meta.registered() == Seq::<LookupView>::empty());
        assert(meta.registered_stack_writes() == Seq::<StackWriteLookupView>::empty());
        meta
    }

    /// Registers a lookup of `input` in `table`.
    pub fn lookup(&mut self, name: &'static str, input: Expr, table: TableColumn)
        ensures
            final(self).registered() == old(self).registered().push(
                LookupView { name: name@, input: input@, table },
            ),
            final(self).registered_stack_writes() == old(self).registered_stack_writes(),
    {
        let ghost before = self.lookups@;
        let entry = Lookup { name, input, table };
        self.lookups.push(entry);
        assert(self.lookups@.map_values(|l: Lookup| l@) == before.map_values(|l: Lookup| l@).push(
            entry@,
        ));
    }

    /// Registers a stack-write lookup.
    pub fn stack_write_lookup(&mut self, entry: StackWriteLookup)
        ensures
            final(self).registered_stack_writes() == old(self).registered_stack_writes().push(
                entry@,
            ),
            final(self).registered() == old(self).registered(),
    {
        let ghost before = self.stack_writes@;
        self.stack_writes.push(entry);
        assert(self.stack_writes@.map_values(|l: StackWriteLookup| l@) == before.map_values(
            |l: StackWriteLookup| l@,
        ).push(entry@));
    }
}

/// The shared pool of advice columns. Every gadget draws its columns from
/// the front of what is left, so no column is handed out twice.
#[derive(Debug)]
pub struct ColumnPool {
    pub columns: Vec<AdviceColumn>,
    pub taken: usize,
}

impl ColumnPool {
    /// The number of columns still in the pool.
    pub open spec fn remaining(self) -> nat {
        if self.taken <= self.columns@.len() {
            (self.columns@.len() - self.taken) as nat
        } else {
            0
        }
    }

    /// A pool that holds the given columns, none of them taken.
    pub fn new(columns: Vec<AdviceColumn>) -> (pool: ColumnPool)
        ensures
            pool.columns@ == columns@,
            pool.taken == 0,
    {
        ColumnPool { columns, taken: 0 }
    }

    /// Hands out the next column, or `None` where the pool is used up.
    pub fn next(&mut self) -> (r: Option<AdviceColumn>)
        ensures
            final(self).columns@ == old(self).columns@,
            old(self).remaining() > 0 ==> r == Some(old(self).columns@[old(self).taken as int])
                && final(self).taken == old(self).taken + 1,
            old(self).remaining() == 0 ==> r is None && final(self).taken == old(self).taken,
    {
        if self.taken < self.columns.len() {
            let column = self.columns[self.taken];
            self.taken = self.taken + 1;
            Some(column)
        } else {
            None
        }
    }
}

} // verus!
