//! The powers of two that delimit the fields of the encodings.

use vstd::prelude::*;
use vstd::arithmetic::power2::{pow2, lemma2_to64, lemma_pow2_adds};
use vstd::arithmetic::div_mod::lemma_fundamental_div_mod_converse;

verus! {

/// 2^16: the width of one identifier of an instruction address.
pub open spec fn two_pow_16() -> nat {
    0x1_0000
}

/// 2^32.
pub open spec fn two_pow_32() -> nat {
    0x1_0000_0000
}

/// 2^48.
pub open spec fn two_pow_48() -> nat {
    0x1_0000_0000_0000
}

/// 2^64: the width of a memory value.
pub open spec fn two_pow_64() -> nat {
    0x1_0000_0000_0000_0000
}

/// 2^77: the weight of the class in a gadget's opcode expression.
pub open spec fn two_pow_77() -> nat {
    0x2000_0000_0000_0000_0000
}

/// 2^80: the weight of an opcode's first argument.
pub open spec fn two_pow_80() -> nat {
    0x1_0000_0000_0000_0000_0000
}

/// 2^96: the weight of an opcode's class.
pub open spec fn two_pow_96() -> nat {
    0x1_0000_0000_0000_0000_0000_0000
}

/// 2^128: the bound of an opcode encoding, and the weight of an address and
/// of the instruction identifier, its lowest part.
pub open spec fn two_pow_128() -> nat {
    0x1_0000_0000_0000_0000_0000_0000_0000_0000nat
}

/// 2^144: the weight of the block identifier in an instruction key.
pub open spec fn two_pow_144() -> nat {
    0x1_0000_0000_0000_0000_0000_0000_0000_0000_0000nat
}

/// 2^160: the weight of the function identifier in an instruction key.
pub open spec fn two_pow_160() -> nat {
    0x1_0000_0000_0000_0000_0000_0000_0000_0000_0000_0000nat
}

/// 2^176: the weight of the memory instance in an instruction key.
pub open spec fn two_pow_176() -> nat {
    0x1_0000_0000_0000_0000_0000_0000_0000_0000_0000_0000_0000nat
}

/// 2^192: the weight of the module identifier in an instruction key.
pub open spec fn two_pow_192() -> nat {
    0x1_0000_0000_0000_0000_0000_0000_0000_0000_0000_0000_0000_0000nat
}

/// The named constants are the powers of two that their names say.
pub proof fn lemma_two_pow_values()
    ensures
        pow2(16) == two_pow_16(),
        pow2(32) == two_pow_32(),
        pow2(48) == two_pow_48(),
        pow2(64) == two_pow_64(),
        pow2(77) == two_pow_77(),
        pow2(80) == two_pow_80(),
        pow2(96) == two_pow_96(),
        pow2(128) == two_pow_128(),
        pow2(144) == two_pow_144(),
        pow2(160) == two_pow_160(),
        pow2(176) == two_pow_176(),
        pow2(192) == two_pow_192(),
{
    lemma2_to64();
    lemma_pow2_adds(32, 16);
    lemma_pow2_adds(64, 13);
    lemma_pow2_adds(64, 16);
    lemma_pow2_adds(64, 32);
    lemma_pow2_adds(64, 64);
    lemma_pow2_adds(128, 16);
    lemma_pow2_adds(144, 16);
    lemma_pow2_adds(160, 16);
    lemma_pow2_adds(176, 16);
    assert(pow2(144) == two_pow_128() * two_pow_16());
    assert(pow2(160) == two_pow_144() * two_pow_16());
    assert(pow2(176) == two_pow_160() * two_pow_16());
    assert(pow2(192) == two_pow_176() * two_pow_16());
}

/// A number written as `high * width + low` with `low` below `width` is cut
/// back into `high` and `low` by division and remainder.
pub proof fn lemma_cut(x: nat, width: nat, high: nat, low: nat)
    requires
        low < width,
        x == high * width + low,
    ensures
        x / width == high,
        x % width == low,
{
    lemma_fundamental_div_mod_converse(x as int, width as int, high as int, low as int);
}

} // verus!
