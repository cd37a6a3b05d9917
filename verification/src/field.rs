use vstd::arithmetic::div_mod::lemma_small_mod;
use vstd::prelude::*;

verus! {

/// Two to the power 128, the first value a `u128` cannot hold.
pub open spec fn two_to_128() -> int {
    0x80000000000000000000000000000000int * 2
}

/// The prime modulus of the scalar field the constraint system works over:
/// the order of the prime-order subgroup of the BLS12-381 pairing-friendly
/// curve, written as its upper and lower 128-bit halves.
pub open spec fn field_modulus() -> int {
    0x73eda753299d7d483339d80809a1d805 * two_to_128() + 0x53bda402fffe5bfeffffffff00000001
}

/// Multiplication in the scalar field, on canonical representatives.
pub open spec fn field_mul(x: int, y: int) -> int {
    (x * y) % field_modulus()
}

/// The modulus is larger than 2^128, so every value a `u128` can hold is a
/// canonical field representative.
pub proof fn lemma_u128_is_canonical(v: int)
    requires
        0 <= v < two_to_128(),
    ensures
        v % field_modulus() == v,
{
    lemma_small_mod(v as nat, field_modulus() as nat);
}

/// The product of two values below 2^64 stays below 2^128 and hence below
/// the field modulus, so the field product of two lifted `u64` values is
/// their integer product.
pub proof fn lemma_u64_product_is_canonical(x: int, y: int)
    requires
        0 <= x < 0x10000000000000000,
        0 <= y < 0x10000000000000000,
    ensures
        0 <= x * y < two_to_128(),
        field_mul(x, y) == x * y,
{
    assert(0 <= x * y && x * y < 0x10000000000000000 * 0x10000000000000000) by (nonlinear_arith)
        requires
            0 <= x < 0x10000000000000000,
            0 <= y < 0x10000000000000000,
    ;
    lemma_u128_is_canonical(x * y);
}

/// The product of two factors, computed exactly: two `u64` factors always
/// fit a `u128` product, which in turn is always a canonical field value.
pub fn lifted_product(a: u64, b: u64) -> (r: u128)
    ensures
        r as int == a as int * b as int,
        (r as int) < field_modulus(),
{
    proof {
        lemma_u64_product_is_canonical(a as int, b as int);
    }
    (a as u128) * (b as u128)
}

} // verus!
