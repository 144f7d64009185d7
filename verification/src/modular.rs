//! The base prime field, modelled in specifications as integers modulo the
//! BLS12-381 prime.  All spec-level field operations reduce their result, so
//! a well-formed coordinate always lies in `[0, prime())`.

use vstd::prelude::*;
use vstd::arithmetic::div_mod::{
    lemma_add_mod_noop, lemma_mod_bound, lemma_mul_mod_noop, lemma_small_mod, lemma_sub_mod_noop,
};

verus! {

/// The radix in which 384-bit coordinates are split into 64-bit limbs.
pub open spec fn limb_base() -> int {
    0x10000000000000000
}

/// The BLS12-381 base-field prime, assembled from its six 64-bit limbs.
pub open spec fn prime() -> int {
    ((((0x1a0111ea397fe69a * limb_base() + 0x4b1ba7b6434bacd7) * limb_base()
        + 0x64774b84f38512bf) * limb_base() + 0x6730d2a0f6b0f624) * limb_base()
        + 0x1eabfffeb153ffff) * limb_base() + 0xb9feffffffffaaab
}

/// A reduced base-field coordinate.
pub open spec fn in_fp(x: int) -> bool {
    0 <= x < prime()
}

/// Addition modulo the prime.
pub open spec fn madd(a: int, b: int) -> int {
    (a + b) % prime()
}

/// Subtraction modulo the prime.
pub open spec fn msub(a: int, b: int) -> int {
    (a - b) % prime()
}

/// Multiplication modulo the prime.
pub open spec fn mmul(a: int, b: int) -> int {
    (a * b) % prime()
}

/// Negation modulo the prime.
pub open spec fn mneg(a: int) -> int {
    (0 - a) % prime()
}

/// Every reduction lands in the field.
pub proof fn lemma_mod_in_fp(x: int)
    ensures
        in_fp(x % prime()),
{
    lemma_mod_bound(x, prime());
}

/// A reduced value is unchanged by reduction.
pub proof fn lemma_reduced(x: int)
    requires
        in_fp(x),
    ensures
        x % prime() == x,
{
    lemma_small_mod(x as nat, prime() as nat);
}

/// Collapse an addition of two reduced summands into a single reduction.
pub proof fn lemma_madd_collapse(x: int, y: int)
    ensures
        madd(x % prime(), y % prime()) == (x + y) % prime(),
{
    lemma_add_mod_noop(x, y, prime());
}

/// Collapse a subtraction of two reduced operands into a single reduction.
pub proof fn lemma_msub_collapse(x: int, y: int)
    ensures
        msub(x % prime(), y % prime()) == (x - y) % prime(),
{
    lemma_sub_mod_noop(x, y, prime());
}

/// Collapse a product of two reduced factors into a single reduction.
pub proof fn lemma_mmul_collapse(x: int, y: int)
    ensures
        mmul(x % prime(), y % prime()) == (x * y) % prime(),
{
    lemma_mul_mod_noop(x, y, prime());
}

/// Collapse a negation of a reduced operand into a single reduction.
pub proof fn lemma_mneg_collapse(x: int)
    ensures
        mneg(x % prime()) == (0 - x) % prime(),
{
    lemma_sub_mod_noop(0, x, prime());
    lemma_small_mod(0nat, prime() as nat);
}

} // verus!
