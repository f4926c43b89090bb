//! The instruction table: opcodes, their classes, and the canonical encoding
//! of an instruction as one natural number.
//!
//! An opcode is packed into 128 bits: the class in the bits from 96 upward,
//! the first argument in the 16 bits from bit 80, the payload in the low 80
//! bits. The payload is an operand of up to 64 bits and, in the 16 bits from
//! bit 64, a second argument. An instruction's address is its five 16-bit
//! identifiers, most significant first; the full record is the address above
//! the 128 bits of the opcode.

use vstd::prelude::*;
use num_bigint::BigUint;
use crate::bigint::{big_value, big_zero, big_from_u64, big_shl, big_add, big_add_u64};
use crate::types::{VarType, ValueType};
use crate::width::{
    two_pow_16, two_pow_32, two_pow_48, two_pow_64, two_pow_80, two_pow_96, two_pow_128,
    lemma_two_pow_values, lemma_cut,
};

verus! {

/// Bit offset of the class in an opcode encoding.
pub const OPCODE_CLASS_SHIFT: usize = 96;

/// Bit offset of the first argument in an opcode encoding.
pub const OPCODE_ARG0_SHIFT: usize = 80;

/// Bit offset of the second argument in an opcode encoding.
pub const OPCODE_ARG1_SHIFT: usize = 64;

/// Bit offset of the address in an instruction encoding.
pub const ADDRESS_SHIFT: usize = 128;

/// The first number that is too wide for an argument field: 2^16.
pub const OPCODE_ARG_LIMIT: u64 = 0x1_0000;

/// The kind of an opcode, without its operands.
#[derive(Clone, Copy, Debug, Ord, PartialOrd, Eq, PartialEq, Structural, Hash)]
pub enum OpcodeClass {
    LocalGet,
    Const,
    Drop,
    Return,
}

impl OpcodeClass {
    /// The number of the class in an encoding, counted from 1.
    pub open spec fn index(self) -> nat {
        match self {
            OpcodeClass::LocalGet => 1,
            OpcodeClass::Const => 2,
            OpcodeClass::Drop => 3,
            OpcodeClass::Return => 4,
        }
    }

    /// The execution cost weight of the class.
    pub open spec fn cost(self) -> nat {
        match self {
            OpcodeClass::LocalGet => 1,
            OpcodeClass::Const => 1,
            OpcodeClass::Drop => 0,
            OpcodeClass::Return => 0,
        }
    }

    /// Computes [`OpcodeClass::index`].
    pub fn code(self) -> (r: u64)
        ensures
            r == self.index(),
            1 <= r <= 4,
    {
        match self {
            OpcodeClass::LocalGet => 1,
            OpcodeClass::Const => 2,
            OpcodeClass::Drop => 3,
            OpcodeClass::Return => 4,
        }
    }

    /// The execution cost weight of the class: 1 for the opcodes that push a
    /// value, 0 for the others.
    pub fn mops(&self) -> (r: u64)
        ensures
            r == self.cost(),
    {
        match self {
            OpcodeClass::LocalGet => 1,
            OpcodeClass::Const => 1,
            OpcodeClass::Drop => 0,
            OpcodeClass::Return => 0,
        }
    }
}

/// One instruction of the stack machine, with its operands.
#[derive(Clone, Debug)]
pub enum Opcode {
    LocalGet { vtype: VarType, offset: u64 },
    Const { vtype: VarType, value: u64 },
    Drop,
    Return { drop: u32, keep: Vec<ValueType> },
}

/// An opcode as a mathematical value.
pub enum OpcodeView {
    LocalGet { vtype: VarType, offset: u64 },
    Const { vtype: VarType, value: u64 },
    Drop,
    Return { drop: u32, keep: Seq<ValueType> },
}

impl View for Opcode {
    type V = OpcodeView;

    open spec fn view(&self) -> OpcodeView {
        match *self {
            Opcode::LocalGet { vtype, offset } => OpcodeView::LocalGet { vtype, offset },
            Opcode::Const { vtype, value } => OpcodeView::Const { vtype, value },
            Opcode::Drop => OpcodeView::Drop,
            Opcode::Return { drop, keep } => OpcodeView::Return { drop, keep: keep@ },
        }
    }
}

impl OpcodeView {
    /// The class of the opcode.
    pub open spec fn class(self) -> OpcodeClass {
        match self {
            OpcodeView::LocalGet { .. } => OpcodeClass::LocalGet,
            OpcodeView::Const { .. } => OpcodeClass::Const,
            OpcodeView::Drop => OpcodeClass::Drop,
            OpcodeView::Return { .. } => OpcodeClass::Return,
        }
    }

    /// The first argument, placed at bit 80: the type tag of `LocalGet` and
    /// `Const`, the drop count of `Return`.
    pub open spec fn arg0(self) -> nat {
        match self {
            OpcodeView::LocalGet { vtype, .. } => vtype.tag(),
            OpcodeView::Const { vtype, .. } => vtype.tag(),
            OpcodeView::Drop => 0,
            OpcodeView::Return { drop, .. } => drop as nat,
        }
    }

    /// The second argument, placed at bit 64: the number of values that a
    /// `Return` keeps, and 0 for every other opcode.
    pub open spec fn arg1(self) -> nat {
        match self {
            OpcodeView::Return { keep, .. } => keep.len(),
            _ => 0,
        }
    }

    /// The operand, placed at bit 0: the offset of `LocalGet`, the value of
    /// `Const`, and for `Return` the tag of the first kept type, or 0 where
    /// nothing is kept.
    pub open spec fn operand(self) -> nat {
        match self {
            OpcodeView::LocalGet { offset, .. } => offset as nat,
            OpcodeView::Const { value, .. } => value as nat,
            OpcodeView::Drop => 0,
            OpcodeView::Return { keep, .. } => if keep.len() > 0 {
                keep[0].tag()
            } else {
                0
            },
        }
    }

    /// The payload, the low 80 bits: the second argument above the operand.
    pub open spec fn payload(self) -> nat {
        self.arg1() * two_pow_64() + self.operand()
    }

    /// The canonical encoding of the opcode.
    pub open spec fn encoding(self) -> nat {
        self.class().index() * two_pow_96() + self.arg0() * two_pow_80() + self.payload()
    }

    /// Whether each argument fits the 16 bits of its field. Every opcode does
    /// but a `Return` that drops or keeps 2^16 values or more.
    pub open spec fn fits(self) -> bool {
        self.arg0() < OPCODE_ARG_LIMIT && self.arg1() < OPCODE_ARG_LIMIT
    }

    /// The execution cost weight of the opcode: that of its class.
    pub open spec fn cost(self) -> nat {
        self.class().cost()
    }
}

impl Opcode {
    /// The class of the opcode.
    pub fn opcode_class(&self) -> (r: OpcodeClass)
        ensures
            r == self@.class(),
    {
        match self {
            Opcode::LocalGet { .. } => OpcodeClass::LocalGet,
            Opcode::Const { .. } => OpcodeClass::Const,
            Opcode::Drop => OpcodeClass::Drop,
            Opcode::Return { .. } => OpcodeClass::Return,
        }
    }

    /// The execution cost weight of the opcode.
    pub fn mops(&self) -> (r: u64)
        ensures
            r == self@.cost(),
    {
        let opcode_class = self.opcode_class();
        opcode_class.mops()
    }

    /// The type of the constant that the opcode pushes, for a `Const`.
    pub fn vtype(&self) -> (r: Option<VarType>)
        ensures
            r == (match self@ {
                OpcodeView::Const { vtype, .. } => Some(vtype),
                _ => None,
            }),
    {
        match self {
            Opcode::Const { vtype, .. } => Some(*vtype),
            _ => None,
        }
    }

    /// Whether the opcode can be encoded: true of every opcode but a `Return`
    /// whose drop count or keep count is [`OPCODE_ARG_LIMIT`] or more.
    pub fn fits_width(&self) -> (r: bool)
        ensures
            r == self@.fits(),
    {
        match self {
            Opcode::Return { drop, keep } => {
                let kept: u64 = keep.len() as u64;
                let dropped: u64 = *drop as u64;
                dropped < OPCODE_ARG_LIMIT && kept < OPCODE_ARG_LIMIT
            },
            _ => true,
        }
    }

    /// The canonical encoding of the opcode as a big integer.
    pub fn encode(&self) -> (bn: BigUint)
        requires
            self@.fits(),
        ensures
            big_value(bn) == self@.encoding(),
            big_value(bn) < two_pow_128(),
    {
        proof {
            lemma_two_pow_values();
        }
        match self {
            Opcode::LocalGet { vtype, offset } => {
                big_add_u64(
                    big_add(
                        big_shl(&big_from_u64(OpcodeClass::LocalGet.code()), OPCODE_CLASS_SHIFT),
                        big_shl(&big_from_u64(vtype.code()), OPCODE_ARG0_SHIFT),
                    ),
                    *offset,
                )
            },
            Opcode::Const { vtype, value } => {
                big_add_u64(
                    big_add(
                        big_shl(&big_from_u64(OpcodeClass::Const.code()), OPCODE_CLASS_SHIFT),
                        big_shl(&big_from_u64(vtype.code()), OPCODE_ARG0_SHIFT),
                    ),
                    *value,
                )
            },
            Opcode::Drop => big_shl(&big_from_u64(OpcodeClass::Drop.code()), OPCODE_CLASS_SHIFT),
            Opcode::Return { drop, keep } => {
                let first: u64 = if keep.len() > 0 {
                    keep[0].code()
                } else {
                    0
                };
                big_add_u64(
                    big_add(
                        big_add(
                            big_shl(&big_from_u64(OpcodeClass::Return.code()), OPCODE_CLASS_SHIFT),
                            big_shl(&big_from_u64(*drop as u64), OPCODE_ARG0_SHIFT),
                        ),
                        big_shl(&big_from_u64(keep.len() as u64), OPCODE_ARG1_SHIFT),
                    ),
                    first,
                )
            },
        }
    }
}

impl From<Opcode> for OpcodeClass {
    /// The class of the opcode.
    fn from(opcode: Opcode) -> (class: OpcodeClass) {
        opcode.opcode_class()
    }
}

impl vstd::std_specs::convert::FromSpecImpl<Opcode> for OpcodeClass {
    open spec fn obeys_from_spec() -> bool {
        true
    }

    open spec fn from_spec(opcode: Opcode) -> OpcodeClass {
        opcode@.class()
    }
}

/// One instruction at its place in the program. The five identifiers are the
/// instruction's address.
#[derive(Clone, Debug)]
pub struct InstructionTableEntry {
    pub moid: u16,
    pub mmid: u16,
    pub fid: u16,
    pub bid: u16,
    pub iid: u16,
    pub opcode: Opcode,
}

impl InstructionTableEntry {
    /// The address as one number below 2^80: the five identifiers, most
    /// significant first, 16 bits each.
    pub open spec fn address(self) -> nat {
        self.moid as nat * two_pow_64() + self.mmid as nat * two_pow_48() + self.fid as nat
            * two_pow_32() + self.bid as nat * two_pow_16() + self.iid as nat
    }

    /// The canonical encoding of the whole record: the address above the
    /// 128 bits of the opcode.
    pub open spec fn encoding(self) -> nat {
        self.address() * two_pow_128() + self.opcode@.encoding()
    }

    /// The address of the instruction as a big integer.
    pub fn encode_addr(&self) -> (bn: BigUint)
        ensures
            big_value(bn) == self.address(),
            big_value(bn) < two_pow_80(),
    {
        proof {
            lemma_two_pow_values();
        }
        let mut bn = big_zero();
        bn = big_add_u64(bn, self.moid as u64);
        bn = big_shl(&bn, 16);
        bn = big_add_u64(bn, self.mmid as u64);
        bn = big_shl(&bn, 16);
        bn = big_add_u64(bn, self.fid as u64);
        bn = big_shl(&bn, 16);
        bn = big_add_u64(bn, self.bid as u64);
        bn = big_shl(&bn, 16);
        bn = big_add_u64(bn, self.iid as u64);
        bn
    }

    /// The canonical encoding of the instruction as a big integer of at most
    /// 208 bits.
    pub fn encode(&self) -> (bn: BigUint)
        requires
            self.opcode@.fits(),
        ensures
            big_value(bn) == self.encoding(),
            big_value(bn) < two_pow_80() * two_pow_128(),
    {
        proof {
            lemma_two_pow_values();
        }
        let opcode = self.opcode.encode();
        let mut bn = self.encode_addr();
        bn = big_shl(&bn, ADDRESS_SHIFT);
        bn = big_add(bn, opcode);
        bn
    }
}

/// The fields read back out of an instruction encoding.
pub struct DecodedInstruction {
    pub moid: nat,
    pub mmid: nat,
    pub fid: nat,
    pub bid: nat,
    pub iid: nat,
    pub class: nat,
    pub arg0: nat,
    pub arg1: nat,
    pub operand: nat,
    pub payload: nat,
}

/// Cuts an instruction encoding into its fields by their bit widths: the
/// address is what lies above bit 128, the class what lies from bit 96 to
/// bit 128, the first argument the 16 bits from bit 80, the payload the low
/// 80 bits, and within the payload the second argument the 16 bits from bit
/// 64 and the operand the low 64 bits.
pub open spec fn decode_instruction(n: nat) -> DecodedInstruction {
    let address = n / two_pow_128();
    let opcode = n % two_pow_128();
    DecodedInstruction {
        moid: address / two_pow_64() % two_pow_16(),
        mmid: address / two_pow_48() % two_pow_16(),
        fid: address / two_pow_32() % two_pow_16(),
        bid: address / two_pow_16() % two_pow_16(),
        iid: address % two_pow_16(),
        class: opcode / two_pow_96(),
        arg0: opcode / two_pow_80() % two_pow_16(),
        arg1: opcode / two_pow_64() % two_pow_16(),
        operand: opcode % two_pow_64(),
        payload: opcode % two_pow_80(),
    }
}

impl DecodedInstruction {
    /// The opcode that the decoded fields spell, where they spell one. A
    /// `Return` that keeps two values or more is not rebuilt: its encoding
    /// holds its kept types only up to the first.
    pub open spec fn opcode(self) -> Option<OpcodeView> {
        if self.class == 1 && self.arg1 == 0 {
            match VarType::of_tag(self.arg0) {
                Some(vtype) => Some(OpcodeView::LocalGet { vtype, offset: self.operand as u64 }),
                None => None,
            }
        } else if self.class == 2 && self.arg1 == 0 {
            match VarType::of_tag(self.arg0) {
                Some(vtype) => Some(OpcodeView::Const { vtype, value: self.operand as u64 }),
                None => None,
            }
        } else if self.class == 3 && self.arg0 == 0 && self.arg1 == 0 && self.operand == 0 {
            Some(OpcodeView::Drop)
        } else if self.class == 4 && self.arg1 == 0 && self.operand == 0 {
            Some(OpcodeView::Return { drop: self.arg0 as u32, keep: Seq::empty() })
        } else if self.class == 4 && self.arg1 == 1 {
            match ValueType::of_tag(self.operand) {
                Some(kept) => Some(OpcodeView::Return { drop: self.arg0 as u32, keep: seq![kept] }),
                None => None,
            }
        } else {
            None
        }
    }
}

/// The fields of an opcode that fits lie side by side in its encoding, each
/// in a bit range of its own: division and remainder by the field weights
/// give each of them back.
pub proof fn lemma_opcode_fields(a: OpcodeView)
    requires
        a.fits(),
    ensures
        a.encoding() < two_pow_128(),
        a.encoding() / two_pow_96() == a.class().index(),
        a.encoding() / two_pow_80() % two_pow_16() == a.arg0(),
        a.encoding() / two_pow_64() % two_pow_16() == a.arg1(),
        a.encoding() % two_pow_64() == a.operand(),
        a.encoding() % two_pow_80() == a.payload(),
{
    let class = a.class().index();
    let n = a.encoding();
    lemma_cut(n, two_pow_96(), class, a.arg0() * two_pow_80() + a.payload());
    lemma_cut(n, two_pow_80(), class * two_pow_16() + a.arg0(), a.payload());
    lemma_cut(class * two_pow_16() + a.arg0(), two_pow_16(), class, a.arg0());
    lemma_cut(n, two_pow_64(), class * two_pow_32() + a.arg0() * two_pow_16() + a.arg1(), a.operand());
    lemma_cut(
        class * two_pow_32() + a.arg0() * two_pow_16() + a.arg1(),
        two_pow_16(),
        class * two_pow_16() + a.arg0(),
        a.arg1(),
    );
}

/// Encodings are bounded: every opcode other than `Return` fits, and an
/// opcode that fits encodes below 2^128 with its own class in the class
/// field.
pub proof fn lemma_encoding_bounded(a: OpcodeView)
    ensures
        !(a is Return) ==> a.fits(),
        a.fits() ==> a.encoding() < two_pow_128(),
        a.fits() ==> a.encoding() / two_pow_96() == a.class().index(),
{
    if a.fits() {
        lemma_opcode_fields(a);
    }
}

/// Two opcodes that fit have the same encoding exactly when they agree in
/// class, in both arguments and in the operand.
pub proof fn lemma_encoding_determines_fields(a: OpcodeView, b: OpcodeView)
    requires
        a.fits(),
        b.fits(),
    ensures
        a.encoding() == b.encoding() <==> (a.class() == b.class() && a.arg0() == b.arg0()
            && a.arg1() == b.arg1() && a.operand() == b.operand()),
{
    lemma_opcode_fields(a);
    lemma_opcode_fields(b);
}

/// Encodings are injective and bounded: two different opcodes that fit have
/// different encodings, both below 2^128.
///
/// One kind of pair is left out. The encoding of a `Return` holds its drop
/// count, its keep count and the first of its kept types; two `Return`s that
/// agree in all three and differ only in a later kept type share one
/// encoding.
pub proof fn lemma_encoding_injective(a: OpcodeView, b: OpcodeView)
    requires
        a != b,
        a.fits(),
        b.fits(),
        !(a is Return && b is Return && a.arg0() == b.arg0() && a.arg1() == b.arg1()
            && a.operand() == b.operand()),
    ensures
        a.encoding() != b.encoding(),
        a.encoding() < two_pow_128(),
        b.encoding() < two_pow_128(),
{
    lemma_encoding_determines_fields(a, b);
}

/// Decoding undoes encoding, for every instruction whose opcode fits. The
/// address comes back, and so do the class, both arguments and the operand:
/// of a `Return`, the drop count, the keep count and the first kept type,
/// each from its own field. Every opcode is rebuilt whole but a `Return`
/// that keeps two values or more.
pub proof fn lemma_decode_recovers(entry: InstructionTableEntry)
    requires
        entry.opcode@.fits(),
    ensures
        ({
            let d = decode_instruction(entry.encoding());
            let op = entry.opcode@;
            &&& d.moid == entry.moid
            &&& d.mmid == entry.mmid
            &&& d.fid == entry.fid
            &&& d.bid == entry.bid
            &&& d.iid == entry.iid
            &&& d.class == op.class().index()
            &&& d.arg0 == op.arg0()
            &&& d.arg1 == op.arg1()
            &&& d.operand == op.operand()
            &&& d.payload == op.payload()
            &&& op matches OpcodeView::Return { drop, keep } ==> d.arg0 == drop && d.arg1
                == keep.len()
            &&& (!(op is Return) || op.arg1() <= 1) ==> d.opcode() == Some(op)
        }),
{
    let op = entry.opcode@;
    let n = entry.encoding();
    let address = entry.address();
    let moid = entry.moid as nat;
    let mmid = entry.mmid as nat;
    let fid = entry.fid as nat;
    let bid = entry.bid as nat;
    let iid = entry.iid as nat;
    lemma_opcode_fields(op);
    lemma_cut(n, two_pow_128(), address, op.encoding());
    lemma_cut(
        address,
        two_pow_64(),
        moid,
        mmid * two_pow_48() + fid * two_pow_32() + bid * two_pow_16() + iid,
    );
    lemma_cut(
        address,
        two_pow_48(),
        moid * two_pow_16() + mmid,
        fid * two_pow_32() + bid * two_pow_16() + iid,
    );
    lemma_cut(
        address,
        two_pow_32(),
        moid * two_pow_32() + mmid * two_pow_16() + fid,
        bid * two_pow_16() + iid,
    );
    lemma_cut(
        address,
        two_pow_16(),
        moid * two_pow_48() + mmid * two_pow_32() + fid * two_pow_16() + bid,
        iid,
    );
    lemma_cut(moid, two_pow_16(), 0, moid);
    lemma_cut(moid * two_pow_16() + mmid, two_pow_16(), moid, mmid);
    lemma_cut(
        moid * two_pow_32() + mmid * two_pow_16() + fid,
        two_pow_16(),
        moid * two_pow_16() + mmid,
        fid,
    );
    lemma_cut(
        moid * two_pow_48() + mmid * two_pow_32() + fid * two_pow_16() + bid,
        two_pow_16(),
        moid * two_pow_32() + mmid * two_pow_16() + fid,
        bid,
    );
    match op {
        OpcodeView::Return { drop, keep } => {
            if keep.len() == 0 {
                assert(keep =~= Seq::<ValueType>::empty());
            } else if keep.len() == 1 {
                assert(keep =~= seq![keep[0]]);
            }
        },
        _ => {},
    }
}

/// Whether some entry of the table has the given class.
pub open spec fn class_occurs(entries: Seq<InstructionTableEntry>, class: OpcodeClass) -> bool {
    exists|i: int| 0 <= i < entries.len() && (#[trigger] entries[i]).opcode@.class() == class
}

/// The classes of the opcodes of a table, each once, in the order in which
/// they first occur.
pub open spec fn classes_of(entries: Seq<InstructionTableEntry>) -> Seq<OpcodeClass>
    decreases entries.len(),
{
    if entries.len() == 0 {
        Seq::empty()
    } else {
        let earlier = classes_of(entries.drop_last());
        let class = entries.last().opcode@.class();
        if earlier.contains(class) {
            earlier
        } else {
            earlier.push(class)
        }
    }
}

/// [`classes_of`] lists a class exactly when it occurs in the table, and
/// lists none twice.
pub proof fn lemma_classes_of(entries: Seq<InstructionTableEntry>)
    ensures
        classes_of(entries).no_duplicates(),
        forall|class: OpcodeClass|
            #[trigger] classes_of(entries).contains(class) <==> class_occurs(entries, class),
    decreases entries.len(),
{
    if entries.len() > 0 {
        let front = entries.drop_last();
        let earlier = classes_of(front);
        let last_class = entries.last().opcode@.class();
        lemma_classes_of(front);
        assert forall|class: OpcodeClass| #[trigger]
            classes_of(entries).contains(class) <==> class_occurs(entries, class) by {
            if class_occurs(entries, class) {
                let i = choose|i: int|
                    0 <= i < entries.len() && (#[trigger] entries[i]).opcode@.class() == class;
                if i < front.len() {
                    assert(front[i] == entries[i]);
                    assert(class_occurs(front, class));
                    assert(earlier.contains(class));
                } else {
                    assert(class == last_class);
                }
                if earlier.contains(class) {
                    let k = choose|k: int| 0 <= k < earlier.len() && earlier[k] == class;
                    assert(classes_of(entries)[k] == class);
                } else {
                    assert(classes_of(entries)[earlier.len() as int] == class);
                }
            }
            if classes_of(entries).contains(class) {
                if earlier.contains(class) {
                    assert(class_occurs(front, class));
                    let i = choose|i: int|
                        0 <= i < front.len() && (#[trigger] front[i]).opcode@.class() == class;
                    assert(entries[i] == front[i]);
                } else {
                    assert(class == last_class);
                    assert(entries[entries.len() - 1].opcode@.class() == class);
                }
            }
        }
    }
}

/// Whether the list holds the class.
fn holds_class(classes: &Vec<OpcodeClass>, class: OpcodeClass) -> (r: bool)
    ensures
        r == classes@.contains(class),
{
    let mut i: usize = 0;
    while i < classes.len()
        invariant
            i <= classes@.len(),
            forall|k: int| 0 <= k < i ==> classes@[k] != class,
        decreases classes@.len() - i,
    {
        if classes[i] == class {
            return true;
        }
        i = i + 1;
    }
    false
}

/// The set of opcode classes that a table uses: each class that occurs, once,
/// in the order of first occurrence.
pub fn collect_opcodeclass(ientries: &Vec<InstructionTableEntry>) -> (opcodeclass: Vec<OpcodeClass>)
    ensures
        opcodeclass@ == classes_of(ientries@),
        opcodeclass@.no_duplicates(),
        forall|class: OpcodeClass|
            #[trigger] opcodeclass@.contains(class) <==> class_occurs(ientries@, class),
{
    let mut opcodeclass: Vec<OpcodeClass> = Vec::new();
    let mut i: usize = 0;
    while i < ientries.len()
        invariant
            i <= ientries@.len(),
            opcodeclass@ == classes_of(ientries@.subrange(0, i as int)),
        decreases ientries@.len() - i,
    {
        let class = ientries[i].opcode.opcode_class();
        proof {
            let upto = ientries@.subrange(0, i + 1);
            assert(upto.drop_last() == ientries@.subrange(0, i as int));
            assert(upto.last() == ientries@[i as int]);
        }
        if !holds_class(&opcodeclass, class) {
            opcodeclass.push(class);
        }
        i = i + 1;
    }
    proof {
        assert(ientries@.subrange(0, i as int) == ientries@);
        lemma_classes_of(ientries@);
    }
    opcodeclass
}

/// Whether two instructions stand at the same address.
pub open spec fn same_address(a: InstructionTableEntry, b: InstructionTableEntry) -> bool {
    a.moid == b.moid && a.mmid == b.mmid && a.fid == b.fid && a.bid == b.bid && a.iid == b.iid
}

/// The invariant of an instruction table: no two entries share an address.
pub open spec fn addresses_unique(entries: Seq<InstructionTableEntry>) -> bool {
    forall|i: int, j: int|
        0 <= i < entries.len() && 0 <= j < entries.len() && i != j ==> !same_address(
            #[trigger] entries[i],
            #[trigger] entries[j],
        )
}

/// Instructions at different addresses have different table keys, whatever
/// their opcodes: the address lies above the 128 bits of the opcode.
pub proof fn lemma_instruction_encoding_injective(
    a: InstructionTableEntry,
    b: InstructionTableEntry,
)
    requires
        a.opcode@.fits(),
        b.opcode@.fits(),
        !same_address(a, b),
    ensures
        a.encoding() != b.encoding(),
{
    lemma_decode_recovers(a);
    lemma_decode_recovers(b);
}

/// In a table that keeps its invariant, every entry has a key of its own.
pub proof fn lemma_table_keys_distinct(entries: Seq<InstructionTableEntry>)
    requires
        addresses_unique(entries),
        forall|i: int| 0 <= i < entries.len() ==> (#[trigger] entries[i]).opcode@.fits(),
    ensures
        forall|i: int, j: int|
            0 <= i < entries.len() && 0 <= j < entries.len() && i != j ==> (
            #[trigger] entries[i]).encoding() != (#[trigger] entries[j]).encoding(),
{
    assert forall|i: int, j: int|
        0 <= i < entries.len() && 0 <= j < entries.len() && i != j implies (
    #[trigger] entries[i]).encoding() != (#[trigger] entries[j]).encoding() by {
        lemma_instruction_encoding_injective(entries[i], entries[j]);
    }
}

} // verus!
