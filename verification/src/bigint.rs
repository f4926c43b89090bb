//! Arbitrary-precision naturals, as provided by `num_bigint::BigUint`.
//!
//! The canonical encodings are wider than any machine integer, so they are
//! computed with `BigUint`. Verus cannot look inside that type; this module
//! names the bytes that such a number holds, reads its value off them, and
//! states, without proof, what the few operations used by the encodings do
//! to that value.

use vstd::prelude::*;
use vstd::arithmetic::power2::pow2;
use num_bigint::BigUint;

verus! {

/// `num_bigint::BigUint`, carried through verified code as an opaque value.
#[verifier::external_type_specification]
#[verifier::external_body]
pub struct ExBigUint(BigUint);

/// The bytes that a `BigUint` holds, least significant first: what
/// `BigUint::to_bytes_le` hands out.
pub uninterp spec fn big_bytes(n: BigUint) -> Seq<u8>;

/// The number that a string of bytes spells, least significant byte first.
pub open spec fn le_value(bytes: Seq<u8>) -> nat
    decreases bytes.len(),
{
    if bytes.len() == 0 {
        0
    } else {
        bytes[0] as nat + 256 * le_value(bytes.drop_first())
    }
}

/// The natural number that a `BigUint` stands for.
pub open spec fn big_value(n: BigUint) -> nat {
    le_value(big_bytes(n))
}

/// Largest shift distance accepted by [`big_shl`]. A shift allocates one digit
/// per 64 bits of distance, so the distance is kept small.
pub const MAX_SHIFT: usize = 4096;

/// `<BigUint as num_traits::Zero>::zero`: the number 0.
#[verifier::external_body]
pub(crate) fn big_zero() -> (r: BigUint)
    ensures
        big_value(r) == 0,
{
    <BigUint as num_traits::Zero>::zero()
}

/// `<BigUint as num_traits::One>::one`: the number 1.
#[verifier::external_body]
pub(crate) fn big_one() -> (r: BigUint)
    ensures
        big_value(r) == 1,
{
    <BigUint as num_traits::One>::one()
}

/// `<BigUint as From<u64>>::from`: the number `x`, unchanged.
#[verifier::external_body]
pub(crate) fn big_from_u64(x: u64) -> (r: BigUint)
    ensures
        big_value(r) == x,
{
    BigUint::from(x)
}

/// `<&BigUint as Shl<usize>>::shl`: `n` multiplied by two to the power `bits`.
#[verifier::external_body]
pub(crate) fn big_shl(n: &BigUint, bits: usize) -> (r: BigUint)
    requires
        bits <= MAX_SHIFT,
    ensures
        big_value(r) == big_value(*n) * pow2(bits as nat),
{
    n << bits
}

/// `<BigUint as Add<BigUint>>::add`: the sum of the two numbers.
#[verifier::external_body]
pub(crate) fn big_add(a: BigUint, b: BigUint) -> (r: BigUint)
    ensures
        big_value(r) == big_value(a) + big_value(b),
{
    a + b
}

/// `<BigUint as Add<u64>>::add`: the sum of the number and the machine integer.
#[verifier::external_body]
pub(crate) fn big_add_u64(a: BigUint, b: u64) -> (r: BigUint)
    ensures
        big_value(r) == big_value(a) + b,
{
    a + b
}

/// `BigUint::to_bytes_le`: the bytes of the number, least significant first.
#[verifier::external_body]
pub(crate) fn big_to_bytes_le(n: &BigUint) -> (bytes: Vec<u8>)
    ensures
        bytes@ == big_bytes(*n),
{
    n.to_bytes_le()
}

} // verus!
