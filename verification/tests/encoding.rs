use num_bigint::BigUint;
use trace_arith::etable::{bool_word, i32_word};
use trace_arith::itable::{
    collect_opcodeclass, InstructionTableEntry, Opcode, OpcodeClass, OPCODE_ARG0_SHIFT,
    OPCODE_ARG1_SHIFT, OPCODE_CLASS_SHIFT,
};
use trace_arith::jump::JumpEntry;
use trace_arith::memory_init::MemoryInit;
use trace_arith::types::{ValueType, VarType};
use trace_arith::utils::bn_to_wide_bytes;

fn big(x: u64) -> BigUint {
    BigUint::from(x)
}

fn entry(moid: u16, mmid: u16, fid: u16, bid: u16, iid: u16, opcode: Opcode) -> InstructionTableEntry {
    InstructionTableEntry { moid, mmid, fid, bid, iid, opcode }
}

#[test]
fn shift_constants() {
    assert_eq!(OPCODE_CLASS_SHIFT, 96);
    assert_eq!(OPCODE_ARG0_SHIFT, 80);
    assert_eq!(OPCODE_ARG1_SHIFT, 64);
}

#[test]
fn class_numbers_start_at_one() {
    assert_eq!(OpcodeClass::LocalGet.code(), 1);
    assert_eq!(OpcodeClass::Const.code(), 2);
    assert_eq!(OpcodeClass::Drop.code(), 3);
    assert_eq!(OpcodeClass::Return.code(), 4);
}

#[test]
fn type_tags() {
    assert_eq!(VarType::U8.code(), 1);
    assert_eq!(VarType::I32.code(), 6);
    assert_eq!(VarType::I64.code(), 8);
    assert_eq!(ValueType::I32.code(), 0);
    assert_eq!(ValueType::I64.code(), 1);
}

#[test]
fn mops_by_class() {
    assert_eq!(OpcodeClass::LocalGet.mops(), 1);
    assert_eq!(OpcodeClass::Const.mops(), 1);
    assert_eq!(OpcodeClass::Drop.mops(), 0);
    assert_eq!(OpcodeClass::Return.mops(), 0);
}

#[test]
fn mops_by_opcode() {
    assert_eq!(Opcode::LocalGet { vtype: VarType::I32, offset: 3 }.mops(), 1);
    assert_eq!(Opcode::Const { vtype: VarType::I64, value: 9 }.mops(), 1);
    assert_eq!(Opcode::Drop.mops(), 0);
    assert_eq!(Opcode::Return { drop: 1, keep: vec![ValueType::I32] }.mops(), 0);
}

#[test]
fn opcode_class_of_each_variant() {
    assert_eq!(Opcode::LocalGet { vtype: VarType::I32, offset: 3 }.opcode_class(), OpcodeClass::LocalGet);
    assert_eq!(Opcode::Const { vtype: VarType::I32, value: 3 }.opcode_class(), OpcodeClass::Const);
    assert_eq!(Opcode::Drop.opcode_class(), OpcodeClass::Drop);
    assert_eq!(Opcode::Return { drop: 0, keep: vec![] }.opcode_class(), OpcodeClass::Return);
}

#[test]
fn opcode_converts_into_its_class() {
    let class: OpcodeClass = Opcode::Const { vtype: VarType::I32, value: 3 }.into();
    assert_eq!(class, OpcodeClass::Const);
    assert_eq!(OpcodeClass::from(Opcode::Drop), OpcodeClass::Drop);
}

#[test]
fn vtype_only_of_const() {
    assert_eq!(Opcode::Const { vtype: VarType::U16, value: 1 }.vtype(), Some(VarType::U16));
    assert_eq!(Opcode::LocalGet { vtype: VarType::U16, offset: 1 }.vtype(), None);
    assert_eq!(Opcode::Drop.vtype(), None);
    assert_eq!(Opcode::Return { drop: 0, keep: vec![] }.vtype(), None);
}

#[test]
fn encode_local_get() {
    let op = Opcode::LocalGet { vtype: VarType::I32, offset: 5 };
    assert!(op.fits_width());
    assert_eq!(op.encode(), (big(1) << 96usize) + (big(6) << 80usize) + big(5));
}

#[test]
fn encode_const() {
    let op = Opcode::Const { vtype: VarType::I64, value: u64::MAX };
    assert!(op.fits_width());
    assert_eq!(op.encode(), (big(2) << 96usize) + (big(8) << 80usize) + big(u64::MAX));
}

#[test]
fn encode_drop_has_no_operand() {
    assert!(Opcode::Drop.fits_width());
    assert_eq!(Opcode::Drop.encode(), big(3) << 96usize);
}

#[test]
fn encode_return_keeps_its_counts_apart() {
    let op = Opcode::Return { drop: 3, keep: vec![ValueType::I64, ValueType::I32] };
    assert!(op.fits_width());
    assert_eq!(
        op.encode(),
        (big(4) << 96usize) + (big(3) << 80usize) + (big(2) << 64usize) + big(1)
    );
}

#[test]
fn encode_return_without_kept_values() {
    let op = Opcode::Return { drop: 65535, keep: vec![] };
    assert!(op.fits_width());
    assert_eq!(op.encode(), (big(4) << 96usize) + (big(65535) << 80usize));
}

#[test]
fn encode_return_with_widest_counts_keeps_its_class() {
    let op = Opcode::Return { drop: 65535, keep: vec![ValueType::I64; 65535] };
    assert!(op.fits_width());
    let n = op.encode();
    assert_eq!(&n >> 96usize, big(4));
    assert_eq!((&n >> 80usize) & big(0xffff), big(65535));
    assert_eq!((&n >> 64usize) & big(0xffff), big(65535));
    assert_eq!(&n & big(u64::MAX), big(1));
}

#[test]
fn return_with_a_count_too_wide_does_not_fit() {
    assert!(!Opcode::Return { drop: 65536, keep: vec![] }.fits_width());
    assert!(!Opcode::Return { drop: u32::MAX, keep: vec![] }.fits_width());
    assert!(!Opcode::Return { drop: 0, keep: vec![ValueType::I32; 65536] }.fits_width());
    assert!(Opcode::Return { drop: 0, keep: vec![ValueType::I32; 65535] }.fits_width());
}

#[test]
fn every_other_opcode_fits() {
    assert!(Opcode::LocalGet { vtype: VarType::I64, offset: u64::MAX }.fits_width());
    assert!(Opcode::Const { vtype: VarType::I64, value: u64::MAX }.fits_width());
    assert!(Opcode::Drop.fits_width());
}

#[test]
fn encodings_stay_below_128_bits() {
    let limit = big(1) << 128usize;
    let ops = vec![
        Opcode::LocalGet { vtype: VarType::I64, offset: u64::MAX },
        Opcode::Const { vtype: VarType::I64, value: u64::MAX },
        Opcode::Drop,
        Opcode::Return { drop: 65535, keep: vec![ValueType::I64; 65535] },
    ];
    for op in &ops {
        assert!(op.fits_width());
        assert!(op.encode() < limit);
    }
}

#[test]
fn distinct_opcodes_encode_differently() {
    let ops = vec![
        Opcode::LocalGet { vtype: VarType::I32, offset: 0 },
        Opcode::LocalGet { vtype: VarType::I32, offset: 1 },
        Opcode::LocalGet { vtype: VarType::I64, offset: 0 },
        Opcode::Const { vtype: VarType::I32, value: 0 },
        Opcode::Const { vtype: VarType::I32, value: 1 },
        Opcode::Drop,
        Opcode::Return { drop: 0, keep: vec![] },
        Opcode::Return { drop: 1, keep: vec![] },
        Opcode::Return { drop: 0, keep: vec![ValueType::I32] },
        Opcode::Return { drop: 0, keep: vec![ValueType::I64] },
        Opcode::Return { drop: 2, keep: vec![ValueType::I64] },
        Opcode::Return { drop: 1, keep: vec![ValueType::I64, ValueType::I32] },
        Opcode::Return { drop: 65535, keep: vec![ValueType::I32] },
    ];
    for i in 0..ops.len() {
        for j in 0..ops.len() {
            if i != j {
                assert_ne!(ops[i].encode(), ops[j].encode());
            }
        }
    }
}

#[test]
fn returns_with_equal_sum_of_counts_encode_differently() {
    let a = Opcode::Return { drop: 1, keep: vec![] };
    let b = Opcode::Return { drop: 0, keep: vec![ValueType::I32] };
    assert_ne!(a.encode(), b.encode());
    assert_eq!(a.encode(), (big(4) << 96usize) + (big(1) << 80usize));
    assert_eq!(b.encode(), (big(4) << 96usize) + (big(1) << 64usize));
}

#[test]
fn kept_types_after_the_first_are_not_encoded() {
    let a = Opcode::Return { drop: 1, keep: vec![ValueType::I64, ValueType::I32] };
    let b = Opcode::Return { drop: 1, keep: vec![ValueType::I64, ValueType::I64] };
    assert_eq!(a.encode(), b.encode());
}

#[test]
fn encode_addr_is_big_endian() {
    let e = entry(1, 2, 3, 4, 5, Opcode::Drop);
    let expected =
        (big(1) << 64usize) + (big(2) << 48usize) + (big(3) << 32usize) + (big(4) << 16usize) + big(5);
    assert_eq!(e.encode_addr(), expected);
}

#[test]
fn encode_addr_of_zero_address() {
    let e = entry(0, 0, 0, 0, 0, Opcode::Drop);
    assert_eq!(e.encode_addr(), big(0));
}

#[test]
fn encode_addr_of_largest_address() {
    let e = entry(u16::MAX, u16::MAX, u16::MAX, u16::MAX, u16::MAX, Opcode::Drop);
    assert_eq!(e.encode_addr(), (big(1) << 80usize) - big(1));
}

#[test]
fn encode_instruction_puts_address_above_opcode() {
    let e = entry(1, 2, 3, 4, 5, Opcode::Const { vtype: VarType::I32, value: 7 });
    let address =
        (big(1) << 64usize) + (big(2) << 48usize) + (big(3) << 32usize) + (big(4) << 16usize) + big(5);
    let opcode = (big(2) << 96usize) + (big(6) << 80usize) + big(7);
    assert_eq!(e.encode(), (address << 128usize) + opcode);
}

#[test]
fn decoding_recovers_address_and_opcode() {
    let e = entry(9, 8, 7, 6, 5, Opcode::LocalGet { vtype: VarType::U32, offset: 1234 });
    let n = e.encode();
    let mask16 = big(0xffff);
    let address = &n >> 128usize;
    let opcode = &n - (&address << 128usize);
    assert_eq!((&address >> 64usize) & &mask16, big(9));
    assert_eq!((&address >> 48usize) & &mask16, big(8));
    assert_eq!((&address >> 32usize) & &mask16, big(7));
    assert_eq!((&address >> 16usize) & &mask16, big(6));
    assert_eq!(&address & &mask16, big(5));
    assert_eq!(&opcode >> 96usize, big(OpcodeClass::LocalGet.code()));
    assert_eq!((&opcode >> 80usize) & &mask16, big(VarType::U32.code()));
    assert_eq!(&opcode & ((big(1) << 80usize) - big(1)), big(1234));
}

#[test]
fn decoding_recovers_both_counts_of_a_return() {
    let kept = vec![ValueType::I64, ValueType::I32, ValueType::I32];
    let e = entry(1, 2, 3, 4, 5, Opcode::Return { drop: 7, keep: kept });
    let n = e.encode();
    let mask16 = big(0xffff);
    let address = &n >> 128usize;
    let opcode = &n - (&address << 128usize);
    assert_eq!(address, e.encode_addr());
    assert_eq!(&opcode >> 96usize, big(OpcodeClass::Return.code()));
    assert_eq!((&opcode >> 80usize) & &mask16, big(7));
    assert_eq!((&opcode >> 64usize) & &mask16, big(3));
    assert_eq!(&opcode & big(u64::MAX), big(ValueType::I64.code()));
}

#[test]
fn instructions_at_different_addresses_encode_differently() {
    let a = entry(0, 0, 0, 0, 1, Opcode::Drop);
    let b = entry(0, 0, 0, 1, 0, Opcode::Drop);
    assert_ne!(a.encode(), b.encode());
}

#[test]
fn collect_opcodeclass_lists_each_class_once() {
    let table = vec![
        entry(0, 0, 0, 0, 0, Opcode::Const { vtype: VarType::I32, value: 0 }),
        entry(0, 0, 0, 0, 1, Opcode::Drop),
        entry(0, 0, 0, 0, 2, Opcode::Const { vtype: VarType::I32, value: 1 }),
        entry(0, 0, 0, 0, 3, Opcode::Return { drop: 0, keep: vec![] }),
        entry(0, 0, 0, 0, 4, Opcode::Drop),
    ];
    assert_eq!(
        collect_opcodeclass(&table),
        vec![OpcodeClass::Const, OpcodeClass::Drop, OpcodeClass::Return]
    );
}

#[test]
fn collect_opcodeclass_of_empty_table() {
    assert_eq!(collect_opcodeclass(&vec![]), vec![]);
}

#[test]
fn memory_init_encode() {
    let record = MemoryInit::new(1, 2, 3);
    assert_eq!(record.encode(), (big(1) << 80usize) + (big(2) << 64usize) + big(3));
}

#[test]
fn memory_init_encode_wide_offset_runs_into_instance() {
    let record = MemoryInit { mmid: 1, offset: 0x1_0000, value: 0 };
    assert_eq!(record.encode(), big(2) << 80usize);
}

#[test]
fn memory_init_encode_largest() {
    let record = MemoryInit { mmid: u64::MAX, offset: 0xffff, value: u64::MAX };
    assert_eq!(record.encode(), (big(1) << 144usize) - big(1));
}

#[test]
fn jump_entry_encode() {
    let jump = JumpEntry { caller_eid: 3, return_eid: 4 };
    assert_eq!(jump.encode(), (big(3) << 64usize) + big(4));
    let swapped = JumpEntry { caller_eid: 4, return_eid: 3 };
    assert_ne!(jump.encode(), swapped.encode());
}

#[test]
fn words_of_signed_values() {
    assert_eq!(i32_word(0), 0);
    assert_eq!(i32_word(7), 7);
    assert_eq!(i32_word(-1), u64::MAX);
    assert_eq!(i32_word(i32::MIN), i32::MIN as u64);
    assert_eq!(i32_word(i32::MAX), i32::MAX as u64);
    assert_eq!(bool_word(true), 1);
    assert_eq!(bool_word(false), 0);
}

#[test]
fn wide_bytes_are_little_endian_and_padded() {
    let bytes = bn_to_wide_bytes(&big(0x0102));
    assert_eq!(bytes.len(), 64);
    assert_eq!(bytes[0], 2);
    assert_eq!(bytes[1], 1);
    assert!(bytes[2..].iter().all(|b| *b == 0));
}

#[test]
fn wide_bytes_of_zero() {
    assert_eq!(bn_to_wide_bytes(&big(0)), [0u8; 64]);
}

#[test]
fn wide_bytes_of_an_instruction() {
    let e = entry(1, 0, 0, 0, 0, Opcode::Drop);
    let bytes = bn_to_wide_bytes(&e.encode());
    assert_eq!(BigUint::from_bytes_le(&bytes), e.encode());
    assert_eq!(bytes[12], 3);
    assert_eq!(bytes[24], 1);
}

#[test]
fn wide_bytes_keep_the_low_512_bits() {
    let n = (big(1) << 520usize) + big(5);
    let bytes = bn_to_wide_bytes(&n);
    assert_eq!(BigUint::from_bytes_le(&bytes), big(5));
}
