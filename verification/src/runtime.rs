//! The trace compiler: from one executed step to the memory accesses it made.
//!
//! A step first reads every word it takes off the stack, then writes every
//! word it puts there. Each access gets the next identifier of a counter that
//! runs through the whole trace and is never reset.

use vstd::prelude::*;
use crate::etable::{Event, StepInfo, i32_word, bool_word};
use crate::itable::InstructionTableEntry;
use crate::jump::JumpEntry;
use crate::mtable::{AccessType, LocationType, MemoryTableEntry};
use crate::types::VarType;

verus! {

/// The instruction table of a compiled program.
pub struct CompileTable {
    pub itable: Vec<InstructionTableEntry>,
}

/// The tables that one run of a program fills.
pub struct ExecutionTable {
    pub etable: Vec<Event>,
    pub mtable: Vec<MemoryTableEntry>,
    pub jtable: Vec<JumpEntry>,
}

/// An argument handed to the function that is run.
#[derive(Clone, Copy, Debug, PartialEq, Eq, Structural)]
pub enum Value {
    I32(i32),
    I64(i64),
}

/// Why a program could not be compiled.
#[derive(Clone, Debug)]
pub struct CompileError {
    pub reason: String,
}

/// Why a run of a program failed.
#[derive(Clone, Debug)]
pub struct ExecutionError {
    pub reason: String,
}

/// A compiled program: its text, the interpreter's module, and its tables.
pub struct CompileOutcome<M> {
    pub textual_repr: String,
    pub module: M,
    pub tables: CompileTable,
}

/// The result of one run.
pub struct ExecutionOutcome {
    pub tables: ExecutionTable,
}

/// An interpreter that compiles a program and records a run of it. The
/// library makes no claim about an implementation.
pub trait WasmRuntime: Sized {
    type Module;

    fn new() -> Self;

    fn compile(&self, textual_repr: &str) -> Result<CompileOutcome<Self::Module>, CompileError>;

    fn run(
        &self,
        compile_outcome: &CompileOutcome<Self::Module>,
        function_name: &str,
        args: Vec<Value>,
    ) -> Result<ExecutionOutcome, ExecutionError>;
}

/// The accesses of a step that only moves words between its operands and the
/// stack: a read of each popped word, then a write of each pushed word. The
/// offset of an access is its index in its own list; the identifiers count up
/// from `start` without a gap.
pub open spec fn stack_only_ops(
    eid: u64,
    start: u64,
    mmid: u64,
    inputs_type: VarType,
    outputs_type: VarType,
    pops: Seq<u64>,
    pushes: Seq<u64>,
) -> Seq<MemoryTableEntry> {
    Seq::new(
        pops.len() + pushes.len(),
        |i: int|
            if i < pops.len() {
                MemoryTableEntry {
                    eid,
                    emid: (start + i) as u64,
                    mmid,
                    offset: i as u64,
                    ltype: LocationType::Stack,
                    atype: AccessType::Read,
                    vtype: inputs_type,
                    value: pops[i],
                }
            } else {
                MemoryTableEntry {
                    eid,
                    emid: (start + i) as u64,
                    mmid,
                    offset: (i - pops.len()) as u64,
                    ltype: LocationType::Stack,
                    atype: AccessType::Write,
                    vtype: outputs_type,
                    value: pushes[i - pops.len()],
                }
            },
    )
}

/// The number of memory accesses that an event makes.
pub open spec fn memory_op_count(event: Event) -> nat {
    match event.step_info {
        StepInfo::GetLocal { .. } => 2,
        _ => event.step_info.pops().len() + event.step_info.pushes().len(),
    }
}

/// The memory accesses of an event, the first of them numbered `start`.
/// Reading a local reads the slot at the local's depth and writes the word
/// to offset 0; a call touches no memory; every other step reads what it pops
/// and writes what it pushes, as 32-bit values.
pub open spec fn memory_ops(event: Event, start: u64) -> Seq<MemoryTableEntry> {
    let eid = event.eid;
    let mmid = event.instruction.mmid as u64;
    match event.step_info {
        StepInfo::GetLocal { depth, vtype, value } => seq![
            MemoryTableEntry {
                eid,
                emid: start,
                mmid,
                offset: depth as u64,
                ltype: LocationType::Stack,
                atype: AccessType::Read,
                vtype,
                value,
            },
            MemoryTableEntry {
                eid,
                emid: (start + 1) as u64,
                mmid,
                offset: 0,
                ltype: LocationType::Stack,
                atype: AccessType::Write,
                vtype,
                value,
            },
        ],
        _ => stack_only_ops(
            eid,
            start,
            mmid,
            VarType::I32,
            VarType::I32,
            event.step_info.pops(),
            event.step_info.pushes(),
        ),
    }
}

/// Emits the accesses of a step that only pops and pushes, and advances the
/// counter by their number.
pub fn mem_op_from_stack_only_step(
    eid: u64,
    emid: &mut u64,
    mmid: u64,
    inputs_type: VarType,
    outputs_type: VarType,
    pop_values: &[u64],
    push_values: &[u64],
) -> (mem_ops: Vec<MemoryTableEntry>)
    requires
        *old(emid) + pop_values@.len() + push_values@.len() <= u64::MAX,
    ensures
        mem_ops@ == stack_only_ops(
            eid,
            *old(emid),
            mmid,
            inputs_type,
            outputs_type,
            pop_values@,
            push_values@,
        ),
        *final(emid) == *old(emid) + pop_values@.len() + push_values@.len(),
{
    let ghost start = *emid;
    let ghost ops = stack_only_ops(
        eid,
        start,
        mmid,
        inputs_type,
        outputs_type,
        pop_values@,
        push_values@,
    );
    let mut mem_ops: Vec<MemoryTableEntry> = Vec::new();

    let mut i: usize = 0;
    while i < pop_values.len()
        invariant
            i <= pop_values@.len(),
            start + pop_values@.len() + push_values@.len() <= u64::MAX,
            *emid == start + i,
            mem_ops@ == ops.subrange(0, i as int),
            ops == stack_only_ops(
                eid,
                start,
                mmid,
                inputs_type,
                outputs_type,
                pop_values@,
                push_values@,
            ),
        decreases pop_values@.len() - i,
    {
        mem_ops.push(
            MemoryTableEntry {
                eid,
                emid: *emid,
                mmid,
                offset: i as u64,
                ltype: LocationType::Stack,
                atype: AccessType::Read,
                vtype: inputs_type,
                value: pop_values[i],
            },
        );
        *emid = *emid + 1;
        i = i + 1;
    }

    let mut j: usize = 0;
    while j < push_values.len()
        invariant
            j <= push_values@.len(),
            start + pop_values@.len() + push_values@.len() <= u64::MAX,
            *emid == start + pop_values@.len() + j,
            mem_ops@ == ops.subrange(0, pop_values@.len() + j),
            ops == stack_only_ops(
                eid,
                start,
                mmid,
                inputs_type,
                outputs_type,
                pop_values@,
                push_values@,
            ),
        decreases push_values@.len() - j,
    {
        mem_ops.push(
            MemoryTableEntry {
                eid,
                emid: *emid,
                mmid,
                offset: j as u64,
                ltype: LocationType::Stack,
                atype: AccessType::Write,
                vtype: outputs_type,
                value: push_values[j],
            },
        );
        *emid = *emid + 1;
        j = j + 1;
    }

    assert(mem_ops@ == ops);
    mem_ops
}

/// Compiles one event into its memory accesses, in the order in which they
/// happen, and advances the counter past them.
///
/// The step must agree with itself and the counter must have room: either
/// failure means that the trace is malformed, and nothing is emitted for it.
pub fn memory_event_of_step(event: &Event, emid: &mut u64) -> (mem_ops: Vec<MemoryTableEntry>)
    requires
        event.step_info.consistent(),
        *old(emid) + memory_op_count(*event) <= u64::MAX,
    ensures
        mem_ops@ == memory_ops(*event, *old(emid)),
        mem_ops@.len() == memory_op_count(*event),
        *final(emid) == *old(emid) + memory_op_count(*event),
{
    let eid = event.eid;
    let mmid: u64 = event.instruction.mmid as u64;

    match &event.step_info {
        StepInfo::BrIfNez { value, .. } => {
            let pops: Vec<u64> = vec![i32_word(*value)];
            let pushes: Vec<u64> = Vec::new();
            mem_op_from_stack_only_step(
                eid,
                emid,
                mmid,
                VarType::I32,
                VarType::I32,
                pops.as_slice(),
                pushes.as_slice(),
            )
        },
        StepInfo::Return { drop_values, keep_values, .. } => {
            mem_op_from_stack_only_step(
                eid,
                emid,
                mmid,
                VarType::I32,
                VarType::I32,
                drop_values.as_slice(),
                keep_values.as_slice(),
            )
        },
        StepInfo::Drop { value } => {
            let pops: Vec<u64> = vec![*value];
            let pushes: Vec<u64> = Vec::new();
            mem_op_from_stack_only_step(
                eid,
                emid,
                mmid,
                VarType::I32,
                VarType::I32,
                pops.as_slice(),
                pushes.as_slice(),
            )
        },
        StepInfo::Call { .. } => {
            let mem_ops: Vec<MemoryTableEntry> = Vec::new();
            mem_ops
        },
        StepInfo::GetLocal { depth, vtype, value } => {
            let read = MemoryTableEntry {
                eid,
                emid: *emid,
                mmid,
                offset: *depth as u64,
                ltype: LocationType::Stack,
                atype: AccessType::Read,
                vtype: *vtype,
                value: *value,
            };
            *emid = *emid + 1;

            let write = MemoryTableEntry {
                eid,
                emid: *emid,
                mmid,
                offset: 0,
                ltype: LocationType::Stack,
                atype: AccessType::Write,
                vtype: *vtype,
                value: *value,
            };
            *emid = *emid + 1;

            vec![read, write]
        },
        StepInfo::I32Const { value } => {
            let pops: Vec<u64> = Vec::new();
            let pushes: Vec<u64> = vec![i32_word(*value)];
            mem_op_from_stack_only_step(
                eid,
                emid,
                mmid,
                VarType::I32,
                VarType::I32,
                pops.as_slice(),
                pushes.as_slice(),
            )
        },
        StepInfo::I32BinOp { left, right, value } => {
            let pops: Vec<u64> = vec![i32_word(*right), i32_word(*left)];
            let pushes: Vec<u64> = vec![i32_word(*value)];
            mem_op_from_stack_only_step(
                eid,
                emid,
                mmid,
                VarType::I32,
                VarType::I32,
                pops.as_slice(),
                pushes.as_slice(),
            )
        },
        StepInfo::I32Comp { left, right, value } => {
            let pops: Vec<u64> = vec![i32_word(*right), i32_word(*left)];
            let pushes: Vec<u64> = vec![bool_word(*value)];
            mem_op_from_stack_only_step(
                eid,
                emid,
                mmid,
                VarType::I32,
                VarType::I32,
                pops.as_slice(),
                pushes.as_slice(),
            )
        },
    }
}

/// Computes [`memory_op_count`].
pub fn count_memory_ops(event: &Event) -> (n: u128)
    ensures
        n == memory_op_count(*event),
{
    match &event.step_info {
        StepInfo::BrIfNez { .. } => 1,
        StepInfo::Return { drop_values, keep_values, .. } => {
            drop_values.len() as u128 + keep_values.len() as u128
        },
        StepInfo::Drop { .. } => 1,
        StepInfo::Call { .. } => 0,
        StepInfo::GetLocal { .. } => 2,
        StepInfo::I32Const { .. } => 1,
        StepInfo::I32BinOp { .. } => 3,
        StepInfo::I32Comp { .. } => 3,
    }
}

/// Compiles one event as [`memory_event_of_step`] does, after testing what
/// that function demands. A step that disagrees with itself, or a counter
/// without room for the step's accesses, gives `None` and leaves the counter
/// where it was: a malformed trace is reported, never cut short.
pub fn checked_memory_event_of_step(event: &Event, emid: &mut u64) -> (r: Option<
    Vec<MemoryTableEntry>,
>)
    ensures
        r is Some <==> event.step_info.consistent() && *old(emid) + memory_op_count(*event)
            <= u64::MAX,
        r matches Some(mem_ops) ==> mem_ops@ == memory_ops(*event, *old(emid)) && *final(emid)
            == *old(emid) + memory_op_count(*event),
        r is None ==> *final(emid) == *old(emid),
{
    if !event.step_info.is_consistent() {
        return None;
    }
    let room: u128 = (u64::MAX - *emid) as u128;
    if count_memory_ops(event) > room {
        return None;
    }
    Some(memory_event_of_step(event, emid))
}

/// In the accesses of one event, every read comes before every write.
pub proof fn lemma_reads_precede_writes(event: Event, start: u64)
    ensures
        forall|i: int, j: int|
            #![trigger memory_ops(event, start)[i], memory_ops(event, start)[j]]
            0 <= i < j < memory_ops(event, start).len() && memory_ops(event, start)[j].atype
                == AccessType::Read ==> memory_ops(event, start)[i].atype == AccessType::Read,
{
}

/// The accesses of one event carry the identifiers from `start` upward, one
/// after the other, so the identifiers strictly increase along the list.
pub proof fn lemma_identifiers_increase(event: Event, start: u64)
    requires
        start + memory_op_count(event) <= u64::MAX,
    ensures
        memory_ops(event, start).len() == memory_op_count(event),
        forall|i: int|
            0 <= i < memory_ops(event, start).len() ==> #[trigger] memory_ops(event, start)[i].emid
                == start + i,
        forall|i: int, j: int|
            #![trigger memory_ops(event, start)[i], memory_ops(event, start)[j]]
            0 <= i < j < memory_ops(event, start).len() ==> memory_ops(event, start)[i].emid
                < memory_ops(event, start)[j].emid,
{
}

/// Where a second event is compiled with the counter that the first one left,
/// the identifiers strictly increase along the two lists taken together.
pub proof fn lemma_identifiers_increase_across_events(first: Event, second: Event, start: u64)
    requires
        start + memory_op_count(first) + memory_op_count(second) <= u64::MAX,
    ensures
        ({
            let next = (start + memory_op_count(first)) as u64;
            let all = memory_ops(first, start) + memory_ops(second, next);
            forall|i: int, j: int|
                #![trigger all[i], all[j]]
                0 <= i < j < all.len() ==> all[i].emid < all[j].emid
        }),
{
    let next = (start + memory_op_count(first)) as u64;
    lemma_identifiers_increase(first, start);
    lemma_identifiers_increase(second, next);
}

} // verus!
