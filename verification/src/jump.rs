//! The jump table: which event a call must resume.

use vstd::prelude::*;
use num_bigint::BigUint;
use crate::bigint::{big_value, big_from_u64, big_add_u64, big_shl};
use crate::circuits::constraint_system::ColumnPool;
use crate::circuits::expression::AdviceColumn;
use crate::utils::{AssignError, CellView, Context};
use crate::width::{two_pow_64, two_pow_128, lemma_two_pow_values};

verus! {

/// One call and the event at which it returns.
#[derive(Clone, Copy, Debug, PartialEq, Eq, Structural)]
pub struct JumpEntry {
    pub caller_eid: u64,
    pub return_eid: u64,
}

impl JumpEntry {
    /// The canonical encoding of the entry: the calling event in the high 64
    /// bits, the resumed event in the low 64 bits.
    pub open spec fn encoding(self) -> nat {
        self.caller_eid as nat * two_pow_64() + self.return_eid as nat
    }

    /// The canonical encoding of the entry as a big integer.
    pub fn encode(&self) -> (bn: BigUint)
        ensures
            big_value(bn) == self.encoding(),
            big_value(bn) < two_pow_128(),
    {
        proof {
            lemma_two_pow_values();
        }
        let mut bn = big_from_u64(self.caller_eid);
        bn = big_shl(&bn, 64);
        bn = big_add_u64(bn, self.return_eid);
        bn
    }
}

/// Different jump entries have different encodings, all below 2^128.
pub proof fn lemma_jump_encoding_injective(a: JumpEntry, b: JumpEntry)
    requires
        a != b,
    ensures
        a.encoding() != b.encoding(),
        a.encoding() < two_pow_128(),
{
}

/// The jump table's place in the constraint system: its column.
#[derive(Clone, Copy, Debug, PartialEq, Eq, Structural)]
pub struct JumpConfig {
    pub col: AdviceColumn,
}

impl JumpConfig {
    /// The configuration of a jump table in the next column of the pool.
    pub fn new(cols: &mut ColumnPool) -> (config: JumpConfig)
        requires
            old(cols).remaining() > 0,
        ensures
            config.col == old(cols).columns@[old(cols).taken as int],
            final(cols).columns@ == old(cols).columns@,
            final(cols).taken == old(cols).taken + 1,
    {
        JumpConfig { col: cols.next().unwrap() }
    }
}

/// The filler of the jump table.
#[derive(Clone, Copy, Debug, PartialEq, Eq, Structural)]
pub struct JumpChip {
    pub config: JumpConfig,
}

impl JumpChip {
    /// The filler of the table with the given configuration.
    pub fn new(config: JumpConfig) -> (chip: JumpChip)
        ensures
            chip.config == config,
    {
        JumpChip { config }
    }

    /// Writes the encoding of one jump entry into the table's column at the
    /// current row.
    pub fn add_jump(&self, ctx: &mut Context, jump: Box<JumpEntry>) -> (r: Result<(), AssignError>)
        ensures
            final(ctx).columns == old(ctx).columns,
            final(ctx).rows == old(ctx).rows,
            final(ctx).offset == old(ctx).offset,
            r is Ok <==> old(ctx).admits(self.config.col),
            r is Ok ==> final(ctx).assigned() == old(ctx).assigned().push(
                CellView { column: self.config.col, row: old(ctx).offset, value: jump.encoding() },
            ),
            r is Err ==> r == Err::<(), AssignError>(old(ctx).refusal(self.config.col))
                && final(ctx).assigned() == old(ctx).assigned(),
    {
        ctx.assign_advice(self.config.col, jump.encode())
    }
}

} // verus!
