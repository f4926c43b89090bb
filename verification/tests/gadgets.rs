use num_bigint::{BigInt, BigUint};
use trace_arith::circuits::config_builder::op_const::{ConstConfig, ConstConfigBuilder};
use trace_arith::circuits::config_builder::op_drop::{DropConfig, DropConfigBuilder};
use trace_arith::circuits::constraint_system::{ColumnPool, ConstraintSystem};
use trace_arith::circuits::event::{
    EventCommonConfig, EventOpcodeConfig, EventOpcodeConfigBuilder,
};
use trace_arith::circuits::expression::{
    constant, constant_from, cur, next, pre, AdviceColumn, Expr, TableColumn,
};
use trace_arith::circuits::instruction::{encode_inst_expr, InstructionChip, InstructionConfig};
use trace_arith::circuits::memory::MemoryConfig;
use trace_arith::circuits::table::Table;
use trace_arith::etable::{Event, StepInfo};
use trace_arith::itable::{InstructionTableEntry, Opcode, OpcodeClass};
use trace_arith::jump::{JumpChip, JumpConfig, JumpEntry};
use trace_arith::memory_init::{MemoryInit, MemoryInitChip, MemoryInitConfig};
use trace_arith::types::VarType;
use trace_arith::utils::{AssignError, Context};

fn col(index: usize) -> AdviceColumn {
    AdviceColumn { index }
}

fn pool(from: usize, to: usize) -> ColumnPool {
    ColumnPool::new((from..to).map(col).collect())
}

fn eval(e: &Expr, cells: &dyn Fn(usize, i64) -> i64, row: i64) -> BigInt {
    match e {
        Expr::Constant(c) => BigInt::from(c.clone()),
        Expr::Advice { column, rotation } => BigInt::from(cells(column.index, row + *rotation as i64)),
        Expr::Negated(a) => -eval(a, cells, row),
        Expr::Sum(a, b) => eval(a, cells, row) + eval(b, cells, row),
        Expr::Product(a, b) => eval(a, cells, row) * eval(b, cells, row),
    }
}

fn tables() -> (InstructionConfig, MemoryConfig, JumpConfig) {
    (
        InstructionConfig::configure(TableColumn { index: 0 }),
        MemoryConfig { col: TableColumn { index: 1 } },
        JumpConfig { col: col(50) },
    )
}

fn common() -> EventCommonConfig {
    EventCommonConfig { eid: col(0), sp: col(1) }
}

fn const_event(vtype: VarType, value: u64) -> Event {
    Event::new(
        1,
        0,
        InstructionTableEntry {
            moid: 0,
            mmid: 0,
            fid: 0,
            bid: 0,
            iid: 0,
            opcode: Opcode::Const { vtype, value },
        },
        StepInfo::I32Const { value: value as i32 },
    )
}

#[test]
fn expression_constructors() {
    let one = |_: usize, _: i64| 1i64;
    assert_eq!(eval(&constant(BigUint::from(9u64) << 100usize), &one, 0), BigInt::from(9) << 100usize);
    assert_eq!(eval(&constant_from(7), &one, 0), BigInt::from(7));
    let by_row = |column: usize, row: i64| column as i64 * 100 + row;
    assert_eq!(eval(&cur(col(2)), &by_row, 5), BigInt::from(205));
    assert_eq!(eval(&pre(col(2)), &by_row, 5), BigInt::from(204));
    assert_eq!(eval(&next(col(2)), &by_row, 5), BigInt::from(206));
    assert_eq!(eval(&constant_from(7).negated(), &one, 0), BigInt::from(-7));
    assert_eq!(eval(&constant_from(7).plus(constant_from(5)), &one, 0), BigInt::from(12));
    assert_eq!(eval(&constant_from(7).times(constant_from(5)), &one, 0), BigInt::from(35));
}

#[test]
fn drop_opcode_expression() {
    let gadget = DropConfig { enable: col(3) };
    let enabled = |_: usize, _: i64| 1i64;
    let disabled = |_: usize, _: i64| 0i64;
    assert_eq!(eval(&gadget.opcode(), &enabled, 0), BigInt::from(3) << 77usize);
    assert_eq!(eval(&gadget.opcode(), &disabled, 0), BigInt::from(0));
}

#[test]
fn drop_opcode_expression_reads_only_the_enable_bit() {
    let gadget = DropConfig { enable: col(3) };
    let only_enable = |column: usize, _: i64| if column == 3 { 1i64 } else { 1000 };
    assert_eq!(eval(&gadget.opcode(), &only_enable, 0), BigInt::from(3) << 77usize);
}

#[test]
fn drop_moves_stack_pointer_down() {
    let gadget = DropConfig { enable: col(3) };
    let enabled = |_: usize, _: i64| 1i64;
    let disabled = |_: usize, _: i64| 0i64;
    assert_eq!(eval(&gadget.sp_diff(), &enabled, 0), BigInt::from(-1));
    assert_eq!(eval(&gadget.sp_diff(), &disabled, 0), BigInt::from(0));
}

#[test]
fn drop_gadget_identity_and_assignment() {
    let gadget = DropConfig { enable: col(3) };
    assert_eq!(gadget.opcode_class(), OpcodeClass::Drop);
    let mut ctx = Context::new(0, 0);
    let e = Event::new(
        1,
        0,
        InstructionTableEntry { moid: 0, mmid: 0, fid: 0, bid: 0, iid: 0, opcode: Opcode::Drop },
        StepInfo::Drop { value: 0 },
    );
    assert_eq!(gadget.assign(&mut ctx, &e), Ok(()));
    assert!(ctx.cells.is_empty());
    assert_eq!(ctx.offset, 0);
}

#[test]
fn drop_builder_draws_no_column() {
    let (itable, mtable, jtable) = tables();
    let mut meta = ConstraintSystem::new();
    let mut cols = pool(10, 12);
    let gadget =
        DropConfigBuilder::configure(&mut meta, &common(), col(3), &mut cols, &itable, &mtable, &jtable);
    assert_eq!(gadget, DropConfig { enable: col(3) });
    assert_eq!(cols.taken, 0);
    assert!(meta.lookups.is_empty());
    assert!(meta.stack_writes.is_empty());
}

#[test]
fn const_opcode_expression() {
    let gadget = ConstConfig { vtype: col(4), value: col(5), enable: col(6) };
    let cells = |column: usize, _: i64| match column {
        4 => 6i64,
        5 => 42,
        6 => 1,
        _ => 999,
    };
    let expected = (BigInt::from(2) << 96usize) + (BigInt::from(6) << 80usize) + BigInt::from(42);
    assert_eq!(eval(&gadget.opcode(), &cells, 0), expected);
    let disabled = |column: usize, _: i64| match column {
        4 => 6i64,
        5 => 42,
        _ => 0,
    };
    assert_eq!(eval(&gadget.opcode(), &disabled, 0), BigInt::from(0));
}

#[test]
fn const_opcode_expression_is_the_canonical_encoding() {
    let gadget = ConstConfig { vtype: col(4), value: col(5), enable: col(6) };
    let op = Opcode::Const { vtype: VarType::I64, value: 1234 };
    let cells = |column: usize, _: i64| match column {
        4 => VarType::I64.code() as i64,
        5 => 1234,
        6 => 1,
        _ => 0,
    };
    assert_eq!(eval(&gadget.opcode(), &cells, 0), BigInt::from(op.encode()));
}

#[test]
fn const_opcode_expression_of_the_cells_that_assign_writes() {
    let gadget = ConstConfig { vtype: col(4), value: col(5), enable: col(6) };
    let event = const_event(VarType::I32, 42);
    let mut ctx = Context::new(8, 10);
    assert_eq!(gadget.assign(&mut ctx, &event), Ok(()));
    let value = i64::try_from(ctx.cells[0].value.clone()).unwrap();
    let vtype = i64::try_from(ctx.cells[1].value.clone()).unwrap();
    let cells = |column: usize, _: i64| match column {
        4 => vtype,
        5 => value,
        6 => 1,
        _ => 0,
    };
    assert_eq!(
        eval(&gadget.opcode(), &cells, 0),
        BigInt::from(event.instruction.opcode.encode())
    );
}

#[test]
fn const_and_drop_expressions_never_agree() {
    let push = ConstConfig { vtype: col(4), value: col(5), enable: col(6) };
    let drop = DropConfig { enable: col(3) };
    for (vtype, value) in [(0i64, 0i64), (1, 0), (0, 1), (6, 42), (65535, i64::MAX)] {
        let cells = move |column: usize, _: i64| match column {
            3 => 1i64,
            4 => vtype,
            5 => value,
            6 => 1,
            _ => 0,
        };
        assert_ne!(eval(&push.opcode(), &cells, 0), eval(&drop.opcode(), &cells, 0));
    }
}

#[test]
fn const_moves_stack_pointer_up() {
    let gadget = ConstConfig { vtype: col(4), value: col(5), enable: col(6) };
    let enabled = |_: usize, _: i64| 1i64;
    let disabled = |_: usize, _: i64| 0i64;
    assert_eq!(eval(&gadget.sp_diff(), &enabled, 0), BigInt::from(1));
    assert_eq!(eval(&gadget.sp_diff(), &disabled, 0), BigInt::from(0));
    assert_eq!(gadget.opcode_class(), OpcodeClass::Const);
}

#[test]
fn push_then_drop_leaves_stack_pointer() {
    let push = ConstConfig { vtype: col(4), value: col(5), enable: col(6) };
    let drop = DropConfig { enable: col(3) };
    let cells = |column: usize, row: i64| match (column, row) {
        (6, 0) => 1i64,
        (3, 1) => 1,
        (4, 0) => 6,
        _ => 0,
    };
    let total = eval(&push.sp_diff(), &cells, 0) + eval(&drop.sp_diff(), &cells, 1);
    assert_eq!(total, BigInt::from(0));
}

#[test]
fn const_builder_draws_value_then_type() {
    let (itable, mtable, jtable) = tables();
    let mut meta = ConstraintSystem::new();
    let mut cols = pool(10, 14);
    let gadget =
        ConstConfigBuilder::configure(&mut meta, &common(), col(3), &mut cols, &itable, &mtable, &jtable);
    assert_eq!(gadget, ConstConfig { value: col(10), vtype: col(11), enable: col(3) });
    assert_eq!(cols.taken, 2);
    assert_eq!(cols.next(), Some(col(12)));
}

#[test]
fn const_builder_registers_its_stack_write() {
    let (itable, mtable, jtable) = tables();
    let mut meta = ConstraintSystem::new();
    let mut cols = pool(10, 14);
    ConstConfigBuilder::configure(&mut meta, &common(), col(3), &mut cols, &itable, &mtable, &jtable);
    assert!(meta.lookups.is_empty());
    assert_eq!(meta.stack_writes.len(), 1);
    let lookup = &meta.stack_writes[0];
    assert_eq!(lookup.name, "const mlookup");
    assert_eq!(lookup.name_rev, "const mlookup rev");
    let cells = |column: usize, _: i64| column as i64;
    assert_eq!(eval(&lookup.enable, &cells, 0), BigInt::from(3));
    assert_eq!(eval(&lookup.eid, &cells, 0), BigInt::from(0));
    assert_eq!(eval(&lookup.emid, &cells, 0), BigInt::from(1));
    assert_eq!(eval(&lookup.sp, &cells, 0), BigInt::from(1));
    assert_eq!(eval(&lookup.vtype, &cells, 0), BigInt::from(11));
    assert_eq!(eval(&lookup.value, &cells, 0), BigInt::from(10));
}

#[test]
fn two_gadgets_share_no_column() {
    let (itable, mtable, jtable) = tables();
    let mut meta = ConstraintSystem::new();
    let mut cols = pool(10, 14);
    let first =
        ConstConfigBuilder::configure(&mut meta, &common(), col(3), &mut cols, &itable, &mtable, &jtable);
    let second =
        ConstConfigBuilder::configure(&mut meta, &common(), col(4), &mut cols, &itable, &mtable, &jtable);
    let mut used = vec![first.value.index, first.vtype.index, second.value.index, second.vtype.index];
    used.sort();
    used.dedup();
    assert_eq!(used, vec![10, 11, 12, 13]);
    assert_eq!(cols.next(), None);
    assert_eq!(meta.stack_writes.len(), 2);
}

#[test]
fn const_assign_writes_value_then_type() {
    let gadget = ConstConfig { vtype: col(4), value: col(5), enable: col(6) };
    let mut ctx = Context::new(8, 10);
    ctx.offset = 3;
    assert_eq!(gadget.assign(&mut ctx, &const_event(VarType::I32, 42)), Ok(()));
    assert_eq!(ctx.offset, 3);
    assert_eq!(ctx.cells.len(), 2);
    assert_eq!(ctx.cells[0].column, col(5));
    assert_eq!(ctx.cells[0].row, 3);
    assert_eq!(ctx.cells[0].value, BigUint::from(42u64));
    assert_eq!(ctx.cells[1].column, col(4));
    assert_eq!(ctx.cells[1].row, 3);
    assert_eq!(ctx.cells[1].value, BigUint::from(6u64));
}

#[test]
fn const_assign_outside_the_rows() {
    let gadget = ConstConfig { vtype: col(4), value: col(5), enable: col(6) };
    let mut ctx = Context::new(8, 3);
    ctx.offset = 3;
    assert_eq!(
        gadget.assign(&mut ctx, &const_event(VarType::I32, 42)),
        Err(AssignError::RowOutOfRange)
    );
    assert!(ctx.cells.is_empty());
}

#[test]
fn const_assign_stops_at_the_refused_column() {
    let gadget = ConstConfig { vtype: col(9), value: col(5), enable: col(6) };
    let mut ctx = Context::new(8, 10);
    assert_eq!(
        gadget.assign(&mut ctx, &const_event(VarType::I32, 42)),
        Err(AssignError::ColumnOutOfRange)
    );
    assert_eq!(ctx.cells.len(), 1);
    assert_eq!(ctx.cells[0].column, col(5));
}

#[test]
fn context_refuses_column_before_row() {
    let mut ctx = Context::new(2, 0);
    assert_eq!(ctx.assign_advice(col(2), BigUint::from(1u64)), Err(AssignError::ColumnOutOfRange));
    assert_eq!(ctx.assign_advice(col(1), BigUint::from(1u64)), Err(AssignError::RowOutOfRange));
    assert!(ctx.cells.is_empty());
}

#[test]
fn column_pool_hands_columns_out_in_order() {
    let mut cols = pool(7, 9);
    assert_eq!(cols.next(), Some(col(7)));
    assert_eq!(cols.next(), Some(col(8)));
    assert_eq!(cols.next(), None);
    assert_eq!(cols.next(), None);
    assert_eq!(cols.taken, 2);
}

#[test]
fn jump_config_takes_the_next_column() {
    let mut cols = pool(7, 9);
    assert_eq!(JumpConfig::new(&mut cols), JumpConfig { col: col(7) });
    assert_eq!(cols.taken, 1);
}

#[test]
fn add_jump_writes_the_encoding_at_the_current_row() {
    let chip = JumpChip::new(JumpConfig { col: col(2) });
    let mut ctx = Context::new(4, 4);
    ctx.offset = 1;
    let jump = JumpEntry { caller_eid: 3, return_eid: 4 };
    assert_eq!(chip.add_jump(&mut ctx, Box::new(jump)), Ok(()));
    assert_eq!(ctx.cells.len(), 1);
    assert_eq!(ctx.cells[0].column, col(2));
    assert_eq!(ctx.cells[0].row, 1);
    assert_eq!(ctx.cells[0].value, (BigUint::from(3u64) << 64usize) + BigUint::from(4u64));
    assert_eq!(ctx.offset, 1);
}

#[test]
fn add_jump_outside_the_region() {
    let chip = JumpChip::new(JumpConfig { col: col(2) });
    let jump = JumpEntry { caller_eid: 3, return_eid: 4 };
    let mut narrow = Context::new(2, 4);
    assert_eq!(chip.add_jump(&mut narrow, Box::new(jump)), Err(AssignError::ColumnOutOfRange));
    let mut short = Context::new(4, 0);
    assert_eq!(chip.add_jump(&mut short, Box::new(jump)), Err(AssignError::RowOutOfRange));
    assert!(narrow.cells.is_empty());
    assert!(short.cells.is_empty());
}

#[test]
fn instruction_key_expression() {
    let e = encode_inst_expr(cur(col(0)), cur(col(1)), cur(col(2)), cur(col(3)), cur(col(4)), cur(col(5)));
    let cells = |column: usize, _: i64| column as i64 + 1;
    let expected = BigInt::from(6)
        + (BigInt::from(5) << 128usize)
        + (BigInt::from(4) << 144usize)
        + (BigInt::from(3) << 160usize)
        + (BigInt::from(2) << 176usize)
        + (BigInt::from(1) << 192usize);
    assert_eq!(eval(&e, &cells, 0), expected);
}

#[test]
fn instruction_key_expression_of_the_identifier_alone() {
    let e = encode_inst_expr(cur(col(0)), cur(col(1)), cur(col(2)), cur(col(3)), cur(col(4)), cur(col(5)));
    let cells = |column: usize, _: i64| if column == 4 { 1i64 } else { 0 };
    assert_eq!(eval(&e, &cells, 0), BigInt::from(1) << 128usize);
}

#[test]
fn instruction_key_expression_matches_the_table_cell() {
    let records = vec![
        InstructionTableEntry { moid: 0, mmid: 0, fid: 0, bid: 0, iid: 1, opcode: Opcode::Drop },
        InstructionTableEntry {
            moid: 9,
            mmid: 8,
            fid: 7,
            bid: 6,
            iid: 5,
            opcode: Opcode::Const { vtype: VarType::I32, value: 77 },
        },
        InstructionTableEntry {
            moid: u16::MAX,
            mmid: u16::MAX,
            fid: u16::MAX,
            bid: u16::MAX,
            iid: u16::MAX,
            opcode: Opcode::LocalGet { vtype: VarType::I64, offset: u64::MAX },
        },
    ];
    let chip = InstructionChip::new(InstructionConfig::configure(TableColumn { index: 4 }));
    let mut table = Table::new(records.len());
    assert_eq!(chip.assign(&mut table, &records), Ok(()));
    for (i, record) in records.iter().enumerate() {
        let key = encode_inst_expr(
            constant_from(record.moid as u64),
            constant_from(record.mmid as u64),
            constant_from(record.fid as u64),
            constant_from(record.bid as u64),
            constant_from(record.iid as u64),
            constant(record.opcode.encode()),
        );
        let none = |_: usize, _: i64| 0i64;
        assert_eq!(eval(&key, &none, 0), BigInt::from(table.cells[i].value.clone()));
    }
}

#[test]
fn instruction_lookup_is_registered() {
    let config = InstructionConfig::configure(TableColumn { index: 4 });
    let mut meta = ConstraintSystem::new();
    config.configure_in_table(&mut meta, "itable lookup", cur(col(1)));
    assert_eq!(meta.lookups.len(), 1);
    assert_eq!(meta.lookups[0].name, "itable lookup");
    assert_eq!(meta.lookups[0].table, TableColumn { index: 4 });
    let cells = |column: usize, _: i64| column as i64 + 10;
    assert_eq!(eval(&meta.lookups[0].input, &cells, 0), BigInt::from(11));
    assert!(meta.stack_writes.is_empty());
}

#[test]
fn instruction_table_is_filled_in_program_order() {
    let program = vec![
        InstructionTableEntry {
            moid: 0,
            mmid: 0,
            fid: 0,
            bid: 0,
            iid: 0,
            opcode: Opcode::Const { vtype: VarType::I32, value: 0 },
        },
        InstructionTableEntry { moid: 0, mmid: 0, fid: 0, bid: 0, iid: 1, opcode: Opcode::Drop },
    ];
    let chip = InstructionChip::new(InstructionConfig::configure(TableColumn { index: 4 }));
    let mut table = Table::new(8);
    assert_eq!(chip.assign(&mut table, &program), Ok(()));
    assert_eq!(table.cells.len(), 2);
    for (i, cell) in table.cells.iter().enumerate() {
        assert_eq!(cell.column, TableColumn { index: 4 });
        assert_eq!(cell.row, i);
        assert_eq!(cell.value, program[i].encode());
    }
}

#[test]
fn instruction_table_too_short_for_the_program() {
    let program: Vec<InstructionTableEntry> = (0..3)
        .map(|iid| InstructionTableEntry { moid: 0, mmid: 0, fid: 0, bid: 0, iid, opcode: Opcode::Drop })
        .collect();
    let chip = InstructionChip::new(InstructionConfig::configure(TableColumn { index: 4 }));
    let mut table = Table::new(2);
    assert_eq!(chip.assign(&mut table, &program), Err(AssignError::RowOutOfRange));
    assert_eq!(table.cells.len(), 2);
    assert_eq!(table.cells[1].value, program[1].encode());
}

#[test]
fn table_refuses_a_row_outside() {
    let mut table = Table::new(1);
    assert_eq!(table.assign_cell(TableColumn { index: 0 }, 0, BigUint::from(1u64)), Ok(()));
    assert_eq!(
        table.assign_cell(TableColumn { index: 0 }, 1, BigUint::from(1u64)),
        Err(AssignError::RowOutOfRange)
    );
    assert_eq!(table.cells.len(), 1);
}

#[test]
fn memory_init_key_expression_matches_the_record() {
    let config = MemoryInitConfig::new(TableColumn { index: 2 });
    let record = MemoryInit::new(5, 6, 7);
    let e = config.encode(cur(col(0)), cur(col(1)), cur(col(2)));
    let cells = |column: usize, _: i64| match column {
        0 => 5i64,
        1 => 6,
        _ => 7,
    };
    assert_eq!(eval(&e, &cells, 0), BigInt::from(record.encode()));
}

#[test]
fn memory_init_lookup_is_registered() {
    let config = MemoryInitConfig::new(TableColumn { index: 2 });
    let mut meta = ConstraintSystem::new();
    config.configure_in_range(&mut meta, "memory init", cur(col(1)));
    assert_eq!(meta.lookups.len(), 1);
    assert_eq!(meta.lookups[0].name, "memory init");
    assert_eq!(meta.lookups[0].table, TableColumn { index: 2 });
}

#[test]
fn memory_init_table_is_filled_in_order() {
    let records = vec![MemoryInit::new(0, 0, 9), MemoryInit::new(0, 1, 8)];
    let chip = MemoryInitChip { config: MemoryInitConfig::new(TableColumn { index: 2 }) };
    let mut table = Table::new(2);
    assert_eq!(chip.add_memory_init(&mut table, records.clone()), Ok(()));
    assert_eq!(table.cells.len(), 2);
    assert_eq!(table.cells[0].value, records[0].encode());
    assert_eq!(table.cells[1].value, records[1].encode());
    assert_eq!(table.cells[1].row, 1);

    let mut short = Table::new(1);
    assert_eq!(chip.add_memory_init(&mut short, records), Err(AssignError::RowOutOfRange));
    assert_eq!(short.cells.len(), 1);
}
