//! The library's stated laws, proved once and for all over the spec-level
//! model: the additive and multiplicative identities, the additive inverse,
//! the boundary behaviour of compression on the multiplicative identity, and
//! the agreement of the two independently coded Frobenius implementations.

use vstd::prelude::*;
use vstd::arithmetic::div_mod::lemma_fundamental_div_mod_converse_mod;
use crate::modular::{in_fp, limb_base, lemma_mod_in_fp, madd, mmul, mneg, msub, prime};
use crate::fp2::{mont_rinv, 
    fp2_add, fp2_conj, fp2_mul, fp2_mul_xi, fp2_one, fp2_wf, fp2_zero, lemma_fp2_add_zero,
    lemma_fp2_mul_assoc, lemma_fp2_mul_one, lemma_fp2_mul_xi_zero, lemma_fp2_mul_zero,
    lemma_fp2_neg_add, SpecFp2,
};
use crate::fp6::{
    fp6_add, fp6_frob, fp6_mul, fp6_mul_by_v, fp6_neg, fp6_one, fp6_wf, fp6_zero, SpecFp6,
};
use crate::fp12::{
    fp12_add, fp12_frob_direct, fp12_frob_map, fp12_frob_square_direct, fp12_is_cyc, fp12_mul,
    fp12_neg, fp12_one, fp12_wf, fp12_zero, fp6_scale, SpecFp12,
};
use crate::tables::{
    frob12_c, frob12_c_wf, frob6_c1, frob6_c1_wf, frob6_c2, frob6_c2_wf, gamma1, gamma2,
};

verus! {

/// Zero is the additive identity: `a + 0 == a`.
pub proof fn lemma_fp12_add_zero(x: SpecFp12)
    requires
        fp12_wf(x),
    ensures
        fp12_add(x, fp12_zero()) == x,
        fp12_add(fp12_zero(), x) == x,
{
    lemma_fp6_add_zero(x.c0);
    lemma_fp6_add_zero(x.c1);
}

/// Zero is the additive identity of the cubic extension.
pub proof fn lemma_fp6_add_zero(x: SpecFp6)
    requires
        fp6_wf(x),
    ensures
        fp6_add(x, fp6_zero()) == x,
        fp6_add(fp6_zero(), x) == x,
{
    lemma_fp2_add_zero(x.c0);
    lemma_fp2_add_zero(x.c1);
    lemma_fp2_add_zero(x.c2);
}

/// The negation of a value is its additive inverse: `(-a) + a == 0`.
pub proof fn lemma_fp12_neg_add(x: SpecFp12)
    requires
        fp12_wf(x),
    ensures
        fp12_add(fp12_neg(x), x) == fp12_zero(),
{
    lemma_fp2_neg_add(x.c0.c0);
    lemma_fp2_neg_add(x.c0.c1);
    lemma_fp2_neg_add(x.c0.c2);
    lemma_fp2_neg_add(x.c1.c0);
    lemma_fp2_neg_add(x.c1.c1);
    lemma_fp2_neg_add(x.c1.c2);
}

/// One is the multiplicative identity of the cubic extension.
pub proof fn lemma_fp6_mul_one(x: SpecFp6)
    requires
        fp6_wf(x),
    ensures
        fp6_mul(x, fp6_one()) == x,
        fp6_mul(fp6_one(), x) == x,
{
    lemma_fp2_mul_one(x.c0);
    lemma_fp2_mul_one(x.c1);
    lemma_fp2_mul_one(x.c2);
    lemma_fp2_mul_zero(x.c0);
    lemma_fp2_mul_zero(x.c1);
    lemma_fp2_mul_zero(x.c2);
    lemma_fp2_mul_xi_zero();
    lemma_fp2_add_zero(fp2_zero());
    lemma_fp2_add_zero(x.c0);
    lemma_fp2_add_zero(x.c1);
    lemma_fp2_add_zero(x.c2);
}

/// Zero annihilates the cubic extension.
pub proof fn lemma_fp6_mul_zero(x: SpecFp6)
    requires
        fp6_wf(x),
    ensures
        fp6_mul(x, fp6_zero()) == fp6_zero(),
        fp6_mul(fp6_zero(), x) == fp6_zero(),
{
    lemma_fp2_mul_zero(x.c0);
    lemma_fp2_mul_zero(x.c1);
    lemma_fp2_mul_zero(x.c2);
    lemma_fp2_add_zero(fp2_zero());
    lemma_fp2_mul_xi_zero();
}

/// One is the multiplicative identity: `a * 1 == a`.
pub proof fn lemma_fp12_mul_one(x: SpecFp12)
    requires
        fp12_wf(x),
    ensures
        fp12_mul(x, fp12_one()) == x,
        fp12_mul(fp12_one(), x) == x,
{
    lemma_fp6_mul_one(x.c0);
    lemma_fp6_mul_one(x.c1);
    lemma_fp6_mul_zero(x.c0);
    lemma_fp6_mul_zero(x.c1);
    lemma_fp6_add_zero(x.c0);
    lemma_fp6_add_zero(x.c1);
    lemma_fp6_add_zero(fp6_mul_by_v(fp6_zero()));
    lemma_fp2_mul_xi_zero();
    assert(fp6_mul_by_v(fp6_zero()) == fp6_zero());
}

/// The multiplicative identity satisfies the weak cyclotomic criterion while
/// its `w` half is zero, so compression must fail softly on it.
pub proof fn lemma_identity_cyclotomic()
    ensures
        fp12_is_cyc(fp12_one()),
        fp12_one().c1 == fp6_zero(),
{
    lemma_frob_map_one(4);
    lemma_frob_map_one(2);
    lemma_fp12_mul_one(fp12_one());
    lemma_fp12_one_wf();
}

/// The identity is well-formed.
proof fn lemma_fp12_one_wf()
    ensures
        fp12_wf(fp12_one()),
{
    assert(0 < prime() && 1 < prime());
}

/// Any Frobenius power fixes the multiplicative identity.
proof fn lemma_frob_map_one(k: int)
    ensures
        fp12_frob_map(fp12_one(), k) == fp12_one(),
{
    lemma_fp12_one_wf();
    frob6_c1_wf(k % 6);
    frob6_c2_wf(k % 6);
    frob12_c_wf(k % 12);
    lemma_fp2_conj_one();
    lemma_fp2_mul_zero(frob6_c1(k % 6));
    lemma_fp2_mul_zero(frob6_c2(k % 6));
    lemma_fp2_mul_zero(frob12_c(k % 12));
    lemma_fp2_mul_one(frob12_c(k % 12));
    assert(fp6_frob(fp6_one(), k).c0 == fp2_one());
    assert(fp6_frob(fp6_zero(), k).c0 == fp2_zero());
}

/// Conjugation fixes both identities of the quadratic extension.
proof fn lemma_fp2_conj_one()
    ensures
        fp2_conj(fp2_one()) == fp2_one(),
        fp2_conj(fp2_zero()) == fp2_zero(),
{
    crate::modular::lemma_reduced(1);
    crate::modular::lemma_reduced(0);
    lemma_fp2_neg_add(fp2_zero());
    assert(mneg(0) == 0) by {
        crate::modular::lemma_mneg_collapse(0);
        crate::modular::lemma_reduced(0);
    }
}

/// The two Frobenius implementations agree: the direct-coordinate path
/// equals the table-driven map at powers one and two.
pub proof fn lemma_frobenius_paths_agree(x: SpecFp12)
    requires
        fp12_wf(x),
    ensures
        fp12_frob_direct(x) == fp12_frob_map(x, 1),
        fp12_frob_square_direct(x) == fp12_frob_map(x, 2),
{
    frob6_c1_wf(1);
    frob6_c2_wf(1);
    frob12_c_wf(1);
    frob6_c1_wf(2);
    frob6_c2_wf(2);
    frob12_c_wf(2);
    lemma_conj_wf(x.c1.c1);
    lemma_conj_wf(x.c1.c2);
    lemma_gamma1_3_product();
    lemma_gamma1_5_product();
    lemma_gamma2_3_product();
    lemma_gamma2_5_product();
    lemma_fp2_mul_assoc(fp2_conj(x.c1.c1), frob6_c1(1), frob12_c(1));
    lemma_fp2_mul_assoc(fp2_conj(x.c1.c2), frob6_c2(1), frob12_c(1));
    lemma_fp2_mul_assoc(x.c1.c1, frob6_c1(2), frob12_c(2));
    lemma_fp2_mul_assoc(x.c1.c2, frob6_c2(2), frob12_c(2));
    assert(gamma1(1) == frob12_c(1));
    assert(gamma1(2) == frob6_c1(1));
    assert(gamma1(4) == frob6_c2(1));
    assert(gamma2(1) == frob12_c(2));
    assert(gamma2(2) == frob6_c1(2));
    assert(gamma2(4) == frob6_c2(2));
}

/// Conjugation keeps a value well-formed.
proof fn lemma_conj_wf(y: SpecFp2)
    ensures
        fp2_wf(fp2_conj(y)),
{
    lemma_mod_in_fp(y.re);
    lemma_mod_in_fp(0 - y.im);
}

/// The fixed-table identity `gamma1(3) == frob6_c1(1) * frob12_c(1)`, checked on the
/// canonical residues with explicit division witnesses.
pub proof fn lemma_gamma1_3_product()
    ensures
        fp2_mul(frob6_c1(1), frob12_c(1)) == gamma1(3),
{
    assert(((((((0x0 * limb_base() + 0x0) * limb_base() + 0x0) * limb_base() + 0x0) * limb_base() + 0x0) * limb_base() + 0x0)) * mont_rinv() == ((((((0x0 * limb_base() + 0x0) * limb_base() + 0x0) * limb_base() + 0x0) * limb_base() + 0x0) * limb_base() + 0x0)) * prime() + ((((((0x0 * limb_base() + 0x0) * limb_base() + 0x0) * limb_base() + 0x0) * limb_base() + 0x0) * limb_base() + 0x0))) by (nonlinear_arith);
    lemma_fundamental_div_mod_converse_mod(((((((0x0 * limb_base() + 0x0) * limb_base() + 0x0) * limb_base() + 0x0) * limb_base() + 0x0) * limb_base() + 0x0)) * mont_rinv(), prime(), ((((((0x0 * limb_base() + 0x0) * limb_base() + 0x0) * limb_base() + 0x0) * limb_base() + 0x0) * limb_base() + 0x0)), ((((((0x0 * limb_base() + 0x0) * limb_base() + 0x0) * limb_base() + 0x0) * limb_base() + 0x0) * limb_base() + 0x0)));
    assert(((((((0x18f0206554638741 * limb_base() + 0x3f97d6e83d050d2) * limb_base() + 0x8eb60ebe01bacb9e) * limb_base() + 0x587042afd3851b95) * limb_base() + 0x5dab22461fcda5d2) * limb_base() + 0xcd03c9e48671f071)) * mont_rinv() == ((((((0x1422689b7a482ad1 * limb_base() + 0xe0688fbb2871ed18) * limb_base() + 0x7c5c7794ad2dc69f) * limb_base() + 0x5d7dc3adb7a8aed0) * limb_base() + 0x4357677042432a69) * limb_base() + 0xa218c3fc3684825c)) * prime() + ((((((0x1a0111ea397fe699 * limb_base() + 0xec02408663d4de85) * limb_base() + 0xaa0d857d89759ad4) * limb_base() + 0x897d29650fb85f9b) * limb_base() + 0x409427eb4f49fffd) * limb_base() + 0x8bfd00000000aaac))) by (nonlinear_arith);
    lemma_fundamental_div_mod_converse_mod(((((((0x18f0206554638741 * limb_base() + 0x3f97d6e83d050d2) * limb_base() + 0x8eb60ebe01bacb9e) * limb_base() + 0x587042afd3851b95) * limb_base() + 0x5dab22461fcda5d2) * limb_base() + 0xcd03c9e48671f071)) * mont_rinv(), prime(), ((((((0x1422689b7a482ad1 * limb_base() + 0xe0688fbb2871ed18) * limb_base() + 0x7c5c7794ad2dc69f) * limb_base() + 0x5d7dc3adb7a8aed0) * limb_base() + 0x4357677042432a69) * limb_base() + 0xa218c3fc3684825c)), ((((((0x1a0111ea397fe699 * limb_base() + 0xec02408663d4de85) * limb_base() + 0xaa0d857d89759ad4) * limb_base() + 0x897d29650fb85f9b) * limb_base() + 0x409427eb4f49fffd) * limb_base() + 0x8bfd00000000aaac)));
    assert(((((((0x8f2220fb0fb66eb * limb_base() + 0x1ce393ea5daace4d) * limb_base() + 0xa35baecab2dc29ee) * limb_base() + 0x97e83cccd117228f) * limb_base() + 0xc6695f92b50a8313) * limb_base() + 0x7089552b319d465)) * mont_rinv() == ((((((0x739014408aeef7f * limb_base() + 0x13f7373c82467ab9) * limb_base() + 0xf1745b49031298e6) * limb_base() + 0xbb76be451c78e475) * limb_base() + 0x906588715d647e41) * limb_base() + 0x8256779da637beb8)) * prime() + ((((((0x1904d3bf02bb0667 * limb_base() + 0xc231beb4202c0d1f) * limb_base() + 0xfd603fd3cbd5f4f) * limb_base() + 0x7b2443d784bab9c4) * limb_base() + 0xf67ea53d63e7813d) * limb_base() + 0x8d0775ed92235fb8))) by (nonlinear_arith);
    lemma_fundamental_div_mod_converse_mod(((((((0x8f2220fb0fb66eb * limb_base() + 0x1ce393ea5daace4d) * limb_base() + 0xa35baecab2dc29ee) * limb_base() + 0x97e83cccd117228f) * limb_base() + 0xc6695f92b50a8313) * limb_base() + 0x7089552b319d465)) * mont_rinv(), prime(), ((((((0x739014408aeef7f * limb_base() + 0x13f7373c82467ab9) * limb_base() + 0xf1745b49031298e6) * limb_base() + 0xbb76be451c78e475) * limb_base() + 0x906588715d647e41) * limb_base() + 0x8256779da637beb8)), ((((((0x1904d3bf02bb0667 * limb_base() + 0xc231beb4202c0d1f) * limb_base() + 0xfd603fd3cbd5f4f) * limb_base() + 0x7b2443d784bab9c4) * limb_base() + 0xf67ea53d63e7813d) * limb_base() + 0x8d0775ed92235fb8)));
    assert(((((((0x110eefda88847faf * limb_base() + 0x2e3813cbe5a0de89) * limb_base() + 0xc11b9cba40a8e8d0) * limb_base() + 0xcf4895d42599d394) * limb_base() + 0x5842a06bfc497cec) * limb_base() + 0xb2f66aad4ce5d646)) * mont_rinv() == ((((((0xdc5c5bde04c1d6a * limb_base() + 0xd9672ceaba08d8d1) * limb_base() + 0x26234fcb5595f502) * limb_base() + 0x78c7eb33f81c8952) * limb_base() + 0xef7b8a037b347cba) * limb_base() + 0x727d0abb91d38967)) * prime() + ((((((0xfc3e2b36c4e032 * limb_base() + 0x88e9e902231f9fb8) * limb_base() + 0x54a14787b6c7b36f) * limb_base() + 0xec0c8ec971f63c5f) * limb_base() + 0x282d5ac14d6c7ec2) * limb_base() + 0x2cf78a126ddc4af3))) by (nonlinear_arith);
    lemma_fundamental_div_mod_converse_mod(((((((0x110eefda88847faf * limb_base() + 0x2e3813cbe5a0de89) * limb_base() + 0xc11b9cba40a8e8d0) * limb_base() + 0xcf4895d42599d394) * limb_base() + 0x5842a06bfc497cec) * limb_base() + 0xb2f66aad4ce5d646)) * mont_rinv(), prime(), ((((((0xdc5c5bde04c1d6a * limb_base() + 0xd9672ceaba08d8d1) * limb_base() + 0x26234fcb5595f502) * limb_base() + 0x78c7eb33f81c8952) * limb_base() + 0xef7b8a037b347cba) * limb_base() + 0x727d0abb91d38967)), ((((((0xfc3e2b36c4e032 * limb_base() + 0x88e9e902231f9fb8) * limb_base() + 0x54a14787b6c7b36f) * limb_base() + 0xec0c8ec971f63c5f) * limb_base() + 0x282d5ac14d6c7ec2) * limb_base() + 0x2cf78a126ddc4af3)));
    assert(((((((0xe2b7eedbbfd87d2 * limb_base() + 0x2da2596696cebc1d) * limb_base() + 0xd1ca2087da74d4a7) * limb_base() + 0x2f088dd86b4ebef1) * limb_base() + 0xdc17dec12a927e7c) * limb_base() + 0x7bcfa7a25aa30fda)) * mont_rinv() == ((((((0xb70c3696eecee33 * limb_base() + 0x2be734a2c1e0d0ad) * limb_base() + 0xb1569d9f82427a83) * limb_base() + 0x44ce1d6070a8d219) * limb_base() + 0xe4938bde04c24997) * limb_base() + 0xc38301cb61997da5)) * prime() + ((((((0x6af0e0437ff400b * limb_base() + 0x6831e36d6bd17ffe) * limb_base() + 0x48395dabc2d3435e) * limb_base() + 0x77f76e17009241c5) * limb_base() + 0xee67992f72ec05f4) * limb_base() + 0xc81084fbede3cc09))) by (nonlinear_arith);
    lemma_fundamental_div_mod_converse_mod(((((((0xe2b7eedbbfd87d2 * limb_base() + 0x2da2596696cebc1d) * limb_base() + 0xd1ca2087da74d4a7) * limb_base() + 0x2f088dd86b4ebef1) * limb_base() + 0xdc17dec12a927e7c) * limb_base() + 0x7bcfa7a25aa30fda)) * mont_rinv(), prime(), ((((((0xb70c3696eecee33 * limb_base() + 0x2be734a2c1e0d0ad) * limb_base() + 0xb1569d9f82427a83) * limb_base() + 0x44ce1d6070a8d219) * limb_base() + 0xe4938bde04c24997) * limb_base() + 0xc38301cb61997da5)), ((((((0x6af0e0437ff400b * limb_base() + 0x6831e36d6bd17ffe) * limb_base() + 0x48395dabc2d3435e) * limb_base() + 0x77f76e17009241c5) * limb_base() + 0xee67992f72ec05f4) * limb_base() + 0xc81084fbede3cc09)));
    assert(((((((0xe2b7eedbbfd87d2 * limb_base() + 0x2da2596696cebc1d) * limb_base() + 0xd1ca2087da74d4a7) * limb_base() + 0x2f088dd86b4ebef1) * limb_base() + 0xdc17dec12a927e7c) * limb_base() + 0x7bcfa7a25aa30fda)) * mont_rinv() == ((((((0xb70c3696eecee33 * limb_base() + 0x2be734a2c1e0d0ad) * limb_base() + 0xb1569d9f82427a83) * limb_base() + 0x44ce1d6070a8d219) * limb_base() + 0xe4938bde04c24997) * limb_base() + 0xc38301cb61997da5)) * prime() + ((((((0x6af0e0437ff400b * limb_base() + 0x6831e36d6bd17ffe) * limb_base() + 0x48395dabc2d3435e) * limb_base() + 0x77f76e17009241c5) * limb_base() + 0xee67992f72ec05f4) * limb_base() + 0xc81084fbede3cc09))) by (nonlinear_arith);
    lemma_fundamental_div_mod_converse_mod(((((((0xe2b7eedbbfd87d2 * limb_base() + 0x2da2596696cebc1d) * limb_base() + 0xd1ca2087da74d4a7) * limb_base() + 0x2f088dd86b4ebef1) * limb_base() + 0xdc17dec12a927e7c) * limb_base() + 0x7bcfa7a25aa30fda)) * mont_rinv(), prime(), ((((((0xb70c3696eecee33 * limb_base() + 0x2be734a2c1e0d0ad) * limb_base() + 0xb1569d9f82427a83) * limb_base() + 0x44ce1d6070a8d219) * limb_base() + 0xe4938bde04c24997) * limb_base() + 0xc38301cb61997da5)), ((((((0x6af0e0437ff400b * limb_base() + 0x6831e36d6bd17ffe) * limb_base() + 0x48395dabc2d3435e) * limb_base() + 0x77f76e17009241c5) * limb_base() + 0xee67992f72ec05f4) * limb_base() + 0xc81084fbede3cc09)));
    assert(((((((0x0 * limb_base() + 0x0) * limb_base() + 0x0) * limb_base() + 0x0) * limb_base() + 0x0) * limb_base() + 0x0)) * ((((((0x1904d3bf02bb0667 * limb_base() + 0xc231beb4202c0d1f) * limb_base() + 0xfd603fd3cbd5f4f) * limb_base() + 0x7b2443d784bab9c4) * limb_base() + 0xf67ea53d63e7813d) * limb_base() + 0x8d0775ed92235fb8)) == ((((((0x0 * limb_base() + 0x0) * limb_base() + 0x0) * limb_base() + 0x0) * limb_base() + 0x0) * limb_base() + 0x0)) * prime() + ((((((0x0 * limb_base() + 0x0) * limb_base() + 0x0) * limb_base() + 0x0) * limb_base() + 0x0) * limb_base() + 0x0))) by (nonlinear_arith);
    lemma_fundamental_div_mod_converse_mod(((((((0x0 * limb_base() + 0x0) * limb_base() + 0x0) * limb_base() + 0x0) * limb_base() + 0x0) * limb_base() + 0x0)) * ((((((0x1904d3bf02bb0667 * limb_base() + 0xc231beb4202c0d1f) * limb_base() + 0xfd603fd3cbd5f4f) * limb_base() + 0x7b2443d784bab9c4) * limb_base() + 0xf67ea53d63e7813d) * limb_base() + 0x8d0775ed92235fb8)), prime(), ((((((0x0 * limb_base() + 0x0) * limb_base() + 0x0) * limb_base() + 0x0) * limb_base() + 0x0) * limb_base() + 0x0)), ((((((0x0 * limb_base() + 0x0) * limb_base() + 0x0) * limb_base() + 0x0) * limb_base() + 0x0) * limb_base() + 0x0)));
    assert(((((((0x1a0111ea397fe699 * limb_base() + 0xec02408663d4de85) * limb_base() + 0xaa0d857d89759ad4) * limb_base() + 0x897d29650fb85f9b) * limb_base() + 0x409427eb4f49fffd) * limb_base() + 0x8bfd00000000aaac)) * ((((((0xfc3e2b36c4e032 * limb_base() + 0x88e9e902231f9fb8) * limb_base() + 0x54a14787b6c7b36f) * limb_base() + 0xec0c8ec971f63c5f) * limb_base() + 0x282d5ac14d6c7ec2) * limb_base() + 0x2cf78a126ddc4af3)) == ((((((0xfc3e2b36c4e032 * limb_base() + 0x854f7070dcbc77fa) * limb_base() + 0x2b24012bf906f0cd) * limb_base() + 0xa4df56aff666436f) * limb_base() + 0x35ab57adcf3d7089) * limb_base() + 0x913e39dfa6e98fe6)) * prime() + ((((((0x135203e60180a68e * limb_base() + 0xe2e9c448d77a2cd9) * limb_base() + 0x1c3dedd930b1cf60) * limb_base() + 0xef396489f61eb45e) * limb_base() + 0x304466cf3e67fa0a) * limb_base() + 0xf1ee7b04121bdea2))) by (nonlinear_arith);
    lemma_fundamental_div_mod_converse_mod(((((((0x1a0111ea397fe699 * limb_base() + 0xec02408663d4de85) * limb_base() + 0xaa0d857d89759ad4) * limb_base() + 0x897d29650fb85f9b) * limb_base() + 0x409427eb4f49fffd) * limb_base() + 0x8bfd00000000aaac)) * ((((((0xfc3e2b36c4e032 * limb_base() + 0x88e9e902231f9fb8) * limb_base() + 0x54a14787b6c7b36f) * limb_base() + 0xec0c8ec971f63c5f) * limb_base() + 0x282d5ac14d6c7ec2) * limb_base() + 0x2cf78a126ddc4af3)), prime(), ((((((0xfc3e2b36c4e032 * limb_base() + 0x854f7070dcbc77fa) * limb_base() + 0x2b24012bf906f0cd) * limb_base() + 0xa4df56aff666436f) * limb_base() + 0x35ab57adcf3d7089) * limb_base() + 0x913e39dfa6e98fe6)), ((((((0x135203e60180a68e * limb_base() + 0xe2e9c448d77a2cd9) * limb_base() + 0x1c3dedd930b1cf60) * limb_base() + 0xef396489f61eb45e) * limb_base() + 0x304466cf3e67fa0a) * limb_base() + 0xf1ee7b04121bdea2)));
    assert(((((((0x0 * limb_base() + 0x0) * limb_base() + 0x0) * limb_base() + 0x0) * limb_base() + 0x0) * limb_base() + 0x0)) * ((((((0xfc3e2b36c4e032 * limb_base() + 0x88e9e902231f9fb8) * limb_base() + 0x54a14787b6c7b36f) * limb_base() + 0xec0c8ec971f63c5f) * limb_base() + 0x282d5ac14d6c7ec2) * limb_base() + 0x2cf78a126ddc4af3)) == ((((((0x0 * limb_base() + 0x0) * limb_base() + 0x0) * limb_base() + 0x0) * limb_base() + 0x0) * limb_base() + 0x0)) * prime() + ((((((0x0 * limb_base() + 0x0) * limb_base() + 0x0) * limb_base() + 0x0) * limb_base() + 0x0) * limb_base() + 0x0))) by (nonlinear_arith);
    lemma_fundamental_div_mod_converse_mod(((((((0x0 * limb_base() + 0x0) * limb_base() + 0x0) * limb_base() + 0x0) * limb_base() + 0x0) * limb_base() + 0x0)) * ((((((0xfc3e2b36c4e032 * limb_base() + 0x88e9e902231f9fb8) * limb_base() + 0x54a14787b6c7b36f) * limb_base() + 0xec0c8ec971f63c5f) * limb_base() + 0x282d5ac14d6c7ec2) * limb_base() + 0x2cf78a126ddc4af3)), prime(), ((((((0x0 * limb_base() + 0x0) * limb_base() + 0x0) * limb_base() + 0x0) * limb_base() + 0x0) * limb_base() + 0x0)), ((((((0x0 * limb_base() + 0x0) * limb_base() + 0x0) * limb_base() + 0x0) * limb_base() + 0x0) * limb_base() + 0x0)));
    assert(((((((0x1a0111ea397fe699 * limb_base() + 0xec02408663d4de85) * limb_base() + 0xaa0d857d89759ad4) * limb_base() + 0x897d29650fb85f9b) * limb_base() + 0x409427eb4f49fffd) * limb_base() + 0x8bfd00000000aaac)) * ((((((0x1904d3bf02bb0667 * limb_base() + 0xc231beb4202c0d1f) * limb_base() + 0xfd603fd3cbd5f4f) * limb_base() + 0x7b2443d784bab9c4) * limb_base() + 0xf67ea53d63e7813d) * limb_base() + 0x8d0775ed92235fb8)) == ((((((0x1904d3bf02bb0667 * limb_base() + 0x66b2d0158718668b) * limb_base() + 0x7ee98451906eaa06) * limb_base() + 0xe49dd2b519521c2c) * limb_base() + 0xae8d03d800c8f73) * limb_base() + 0xfabec62059171ac5)) * prime() + ((((((0x6af0e0437ff400b * limb_base() + 0x6831e36d6bd17ffe) * limb_base() + 0x48395dabc2d3435e) * limb_base() + 0x77f76e17009241c5) * limb_base() + 0xee67992f72ec05f4) * limb_base() + 0xc81084fbede3cc09))) by (nonlinear_arith);
    lemma_fundamental_div_mod_converse_mod(((((((0x1a0111ea397fe699 * limb_base() + 0xec02408663d4de85) * limb_base() + 0xaa0d857d89759ad4) * limb_base() + 0x897d29650fb85f9b) * limb_base() + 0x409427eb4f49fffd) * limb_base() + 0x8bfd00000000aaac)) * ((((((0x1904d3bf02bb0667 * limb_base() + 0xc231beb4202c0d1f) * limb_base() + 0xfd603fd3cbd5f4f) * limb_base() + 0x7b2443d784bab9c4) * limb_base() + 0xf67ea53d63e7813d) * limb_base() + 0x8d0775ed92235fb8)), prime(), ((((((0x1904d3bf02bb0667 * limb_base() + 0x66b2d0158718668b) * limb_base() + 0x7ee98451906eaa06) * limb_base() + 0xe49dd2b519521c2c) * limb_base() + 0xae8d03d800c8f73) * limb_base() + 0xfabec62059171ac5)), ((((((0x6af0e0437ff400b * limb_base() + 0x6831e36d6bd17ffe) * limb_base() + 0x48395dabc2d3435e) * limb_base() + 0x77f76e17009241c5) * limb_base() + 0xee67992f72ec05f4) * limb_base() + 0xc81084fbede3cc09)));
    lemma_fundamental_div_mod_converse_mod(((((((0x0 * limb_base() + 0x0) * limb_base() + 0x0) * limb_base() + 0x0) * limb_base() + 0x0) * limb_base() + 0x0)) - ((((((0x135203e60180a68e * limb_base() + 0xe2e9c448d77a2cd9) * limb_base() + 0x1c3dedd930b1cf60) * limb_base() + 0xef396489f61eb45e) * limb_base() + 0x304466cf3e67fa0a) * limb_base() + 0xf1ee7b04121bdea2)), prime(), (-1int), ((((((0x6af0e0437ff400b * limb_base() + 0x6831e36d6bd17ffe) * limb_base() + 0x48395dabc2d3435e) * limb_base() + 0x77f76e17009241c5) * limb_base() + 0xee67992f72ec05f4) * limb_base() + 0xc81084fbede3cc09)));
    lemma_fundamental_div_mod_converse_mod(((((((0x0 * limb_base() + 0x0) * limb_base() + 0x0) * limb_base() + 0x0) * limb_base() + 0x0) * limb_base() + 0x0)) + ((((((0x6af0e0437ff400b * limb_base() + 0x6831e36d6bd17ffe) * limb_base() + 0x48395dabc2d3435e) * limb_base() + 0x77f76e17009241c5) * limb_base() + 0xee67992f72ec05f4) * limb_base() + 0xc81084fbede3cc09)), prime(), (0int), ((((((0x6af0e0437ff400b * limb_base() + 0x6831e36d6bd17ffe) * limb_base() + 0x48395dabc2d3435e) * limb_base() + 0x77f76e17009241c5) * limb_base() + 0xee67992f72ec05f4) * limb_base() + 0xc81084fbede3cc09)));
}

/// The fixed-table identity `gamma1(5) == frob6_c2(1) * frob12_c(1)`, checked on the
/// canonical residues with explicit division witnesses.
pub proof fn lemma_gamma1_5_product()
    ensures
        fp2_mul(frob6_c2(1), frob12_c(1)) == gamma1(5),
{
    assert(((((((0x14e56d3f1564853a * limb_base() + 0x14e4f04fe2db9068) * limb_base() + 0xa20d1b8c7e881024) * limb_base() + 0x50880866309b7e2c) * limb_base() + 0x2af322533285a5d5) * limb_base() + 0x890dc9e4867545c3)) * mont_rinv() == ((((((0x10df038f5f24a643 * limb_base() + 0x36bbd31afc17901) * limb_base() + 0xaa5c92d7c54b16cf) * limb_base() + 0x69fa53e3b2b57043) * limb_base() + 0x6cf78a72a61a707a) * limb_base() + 0x9bc9ac7d0610b119)) * prime() + ((((((0x1a0111ea397fe699 * limb_base() + 0xec02408663d4de85) * limb_base() + 0xaa0d857d89759ad4) * limb_base() + 0x897d29650fb85f9b) * limb_base() + 0x409427eb4f49fffd) * limb_base() + 0x8bfd00000000aaad))) by (nonlinear_arith);
    lemma_fundamental_div_mod_converse_mod(((((((0x14e56d3f1564853a * limb_base() + 0x14e4f04fe2db9068) * limb_base() + 0xa20d1b8c7e881024) * limb_base() + 0x50880866309b7e2c) * limb_base() + 0x2af322533285a5d5) * limb_base() + 0x890dc9e4867545c3)) * mont_rinv(), prime(), ((((((0x10df038f5f24a643 * limb_base() + 0x36bbd31afc17901) * limb_base() + 0xaa5c92d7c54b16cf) * limb_base() + 0x69fa53e3b2b57043) * limb_base() + 0x6cf78a72a61a707a) * limb_base() + 0x9bc9ac7d0610b119)), ((((((0x1a0111ea397fe699 * limb_base() + 0xec02408663d4de85) * limb_base() + 0xaa0d857d89759ad4) * limb_base() + 0x897d29650fb85f9b) * limb_base() + 0x409427eb4f49fffd) * limb_base() + 0x8bfd00000000aaad)));
    assert(((((((0x0 * limb_base() + 0x0) * limb_base() + 0x0) * limb_base() + 0x0) * limb_base() + 0x0) * limb_base() + 0x0)) * mont_rinv() == ((((((0x0 * limb_base() + 0x0) * limb_base() + 0x0) * limb_base() + 0x0) * limb_base() + 0x0) * limb_base() + 0x0)) * prime() + ((((((0x0 * limb_base() + 0x0) * limb_base() + 0x0) * limb_base() + 0x0) * limb_base() + 0x0) * limb_base() + 0x0))) by (nonlinear_arith);
    lemma_fundamental_div_mod_converse_mod(((((((0x0 * limb_base() + 0x0) * limb_base() + 0x0) * limb_base() + 0x0) * limb_base() + 0x0) * limb_base() + 0x0)) * mont_rinv(), prime(), ((((((0x0 * limb_base() + 0x0) * limb_base() + 0x0) * limb_base() + 0x0) * limb_base() + 0x0) * limb_base() + 0x0)), ((((((0x0 * limb_base() + 0x0) * limb_base() + 0x0) * limb_base() + 0x0) * limb_base() + 0x0) * limb_base() + 0x0)));
    assert(((((((0x8f2220fb0fb66eb * limb_base() + 0x1ce393ea5daace4d) * limb_base() + 0xa35baecab2dc29ee) * limb_base() + 0x97e83cccd117228f) * limb_base() + 0xc6695f92b50a8313) * limb_base() + 0x7089552b319d465)) * mont_rinv() == ((((((0x739014408aeef7f * limb_base() + 0x13f7373c82467ab9) * limb_base() + 0xf1745b49031298e6) * limb_base() + 0xbb76be451c78e475) * limb_base() + 0x906588715d647e41) * limb_base() + 0x8256779da637beb8)) * prime() + ((((((0x1904d3bf02bb0667 * limb_base() + 0xc231beb4202c0d1f) * limb_base() + 0xfd603fd3cbd5f4f) * limb_base() + 0x7b2443d784bab9c4) * limb_base() + 0xf67ea53d63e7813d) * limb_base() + 0x8d0775ed92235fb8))) by (nonlinear_arith);
    lemma_fundamental_div_mod_converse_mod(((((((0x8f2220fb0fb66eb * limb_base() + 0x1ce393ea5daace4d) * limb_base() + 0xa35baecab2dc29ee) * limb_base() + 0x97e83cccd117228f) * limb_base() + 0xc6695f92b50a8313) * limb_base() + 0x7089552b319d465)) * mont_rinv(), prime(), ((((((0x739014408aeef7f * limb_base() + 0x13f7373c82467ab9) * limb_base() + 0xf1745b49031298e6) * limb_base() + 0xbb76be451c78e475) * limb_base() + 0x906588715d647e41) * limb_base() + 0x8256779da637beb8)), ((((((0x1904d3bf02bb0667 * limb_base() + 0xc231beb4202c0d1f) * limb_base() + 0xfd603fd3cbd5f4f) * limb_base() + 0x7b2443d784bab9c4) * limb_base() + 0xf67ea53d63e7813d) * limb_base() + 0x8d0775ed92235fb8)));
    assert(((((((0x110eefda88847faf * limb_base() + 0x2e3813cbe5a0de89) * limb_base() + 0xc11b9cba40a8e8d0) * limb_base() + 0xcf4895d42599d394) * limb_base() + 0x5842a06bfc497cec) * limb_base() + 0xb2f66aad4ce5d646)) * mont_rinv() == ((((((0xdc5c5bde04c1d6a * limb_base() + 0xd9672ceaba08d8d1) * limb_base() + 0x26234fcb5595f502) * limb_base() + 0x78c7eb33f81c8952) * limb_base() + 0xef7b8a037b347cba) * limb_base() + 0x727d0abb91d38967)) * prime() + ((((((0xfc3e2b36c4e032 * limb_base() + 0x88e9e902231f9fb8) * limb_base() + 0x54a14787b6c7b36f) * limb_base() + 0xec0c8ec971f63c5f) * limb_base() + 0x282d5ac14d6c7ec2) * limb_base() + 0x2cf78a126ddc4af3))) by (nonlinear_arith);
    lemma_fundamental_div_mod_converse_mod(((((((0x110eefda88847faf * limb_base() + 0x2e3813cbe5a0de89) * limb_base() + 0xc11b9cba40a8e8d0) * limb_base() + 0xcf4895d42599d394) * limb_base() + 0x5842a06bfc497cec) * limb_base() + 0xb2f66aad4ce5d646)) * mont_rinv(), prime(), ((((((0xdc5c5bde04c1d6a * limb_base() + 0xd9672ceaba08d8d1) * limb_base() + 0x26234fcb5595f502) * limb_base() + 0x78c7eb33f81c8952) * limb_base() + 0xef7b8a037b347cba) * limb_base() + 0x727d0abb91d38967)), ((((((0xfc3e2b36c4e032 * limb_base() + 0x88e9e902231f9fb8) * limb_base() + 0x54a14787b6c7b36f) * limb_base() + 0xec0c8ec971f63c5f) * limb_base() + 0x282d5ac14d6c7ec2) * limb_base() + 0x2cf78a126ddc4af3)));
    assert(((((((0x171da0fd6cf8eebd * limb_base() + 0x4a85ed50f4798a6b) * limb_base() + 0x7525cf528d50fe95) * limb_base() + 0xc6f0caa53c65e181) * limb_base() + 0xa2813e53df9d018f) * limb_base() + 0x82d83cf50dbce43f)) * mont_rinv() == ((((((0x12a9c4ad779bddb2 * limb_base() + 0x3fde6bdf44274b67) * limb_base() + 0xa2caf8e88555136a) * limb_base() + 0x44dba58d21b68f) * limb_base() + 0x74f9144f6226c7d9) * limb_base() + 0x45d9796907d13c5e)) * prime() + ((((((0x5b2cfd9013a5fd8 * limb_base() + 0xdf47fa6b48b1e045) * limb_base() + 0xf39816240c0b8fee) * limb_base() + 0x8beadf4d8e9c0566) * limb_base() + 0xc63a3e6e257f8732) * limb_base() + 0x9b18fae980078116))) by (nonlinear_arith);
    lemma_fundamental_div_mod_converse_mod(((((((0x171da0fd6cf8eebd * limb_base() + 0x4a85ed50f4798a6b) * limb_base() + 0x7525cf528d50fe95) * limb_base() + 0xc6f0caa53c65e181) * limb_base() + 0xa2813e53df9d018f) * limb_base() + 0x82d83cf50dbce43f)) * mont_rinv(), prime(), ((((((0x12a9c4ad779bddb2 * limb_base() + 0x3fde6bdf44274b67) * limb_base() + 0xa2caf8e88555136a) * limb_base() + 0x44dba58d21b68f) * limb_base() + 0x74f9144f6226c7d9) * limb_base() + 0x45d9796907d13c5e)), ((((((0x5b2cfd9013a5fd8 * limb_base() + 0xdf47fa6b48b1e045) * limb_base() + 0xf39816240c0b8fee) * limb_base() + 0x8beadf4d8e9c0566) * limb_base() + 0xc63a3e6e257f8732) * limb_base() + 0x9b18fae980078116)));
    assert(((((((0x2e370eccc86f7dd * limb_base() + 0x95ba654ed2226b) * limb_base() + 0xef517c3266341429) * limb_base() + 0xa04007fbba4b14a2) * limb_base() + 0x7c2ac1aad1b6fe70) * limb_base() + 0x3726c30af242c66c)) * mont_rinv() == ((((((0x2550254715f2f37 * limb_base() + 0xad7ff847f8280823) * limb_base() + 0x74ccb22bd3537a7f) * limb_base() + 0x33f9cdd38773b739) * limb_base() + 0xae7fe2576723322) * limb_base() + 0xaefa08f0303a0bc1)) * prime() + ((((((0x144e4211384586c1 * limb_base() + 0x6bd3ad4afa99cc91) * limb_base() + 0x70df3560e77982d0) * limb_base() + 0xdb45f3536814f0bd) * limb_base() + 0x5871c1908bd478cd) * limb_base() + 0x1ee605167ff82995))) by (nonlinear_arith);
    lemma_fundamental_div_mod_converse_mod(((((((0x2e370eccc86f7dd * limb_base() + 0x95ba654ed2226b) * limb_base() + 0xef517c3266341429) * limb_base() + 0xa04007fbba4b14a2) * limb_base() + 0x7c2ac1aad1b6fe70) * limb_base() + 0x3726c30af242c66c)) * mont_rinv(), prime(), ((((((0x2550254715f2f37 * limb_base() + 0xad7ff847f8280823) * limb_base() + 0x74ccb22bd3537a7f) * limb_base() + 0x33f9cdd38773b739) * limb_base() + 0xae7fe2576723322) * limb_base() + 0xaefa08f0303a0bc1)), ((((((0x144e4211384586c1 * limb_base() + 0x6bd3ad4afa99cc91) * limb_base() + 0x70df3560e77982d0) * limb_base() + 0xdb45f3536814f0bd) * limb_base() + 0x5871c1908bd478cd) * limb_base() + 0x1ee605167ff82995)));
    assert(((((((0x1a0111ea397fe699 * limb_base() + 0xec02408663d4de85) * limb_base() + 0xaa0d857d89759ad4) * limb_base() + 0x897d29650fb85f9b) * limb_base() + 0x409427eb4f49fffd) * limb_base() + 0x8bfd00000000aaad)) * ((((((0x1904d3bf02bb0667 * limb_base() + 0xc231beb4202c0d1f) * limb_base() + 0xfd603fd3cbd5f4f) * limb_base() + 0x7b2443d784bab9c4) * limb_base() + 0xf67ea53d63e7813d) * limb_base() + 0x8d0775ed92235fb8)) == ((((((0x1904d3bf02bb0667 * limb_base() + 0x66b2d0158718668b) * limb_base() + 0x7ee98451906eaa06) * limb_base() + 0xe49dd2b519521c2c) * limb_base() + 0xae8d03d800c8f73) * limb_base() + 0xfabec62059171ac6)) * prime() + ((((((0x5b2cfd9013a5fd8 * limb_base() + 0xdf47fa6b48b1e045) * limb_base() + 0xf39816240c0b8fee) * limb_base() + 0x8beadf4d8e9c0566) * limb_base() + 0xc63a3e6e257f8732) * limb_base() + 0x9b18fae980078116))) by (nonlinear_arith);
    lemma_fundamental_div_mod_converse_mod(((((((0x1a0111ea397fe699 * limb_base() + 0xec02408663d4de85) * limb_base() + 0xaa0d857d89759ad4) * limb_base() + 0x897d29650fb85f9b) * limb_base() + 0x409427eb4f49fffd) * limb_base() + 0x8bfd00000000aaad)) * ((((((0x1904d3bf02bb0667 * limb_base() + 0xc231beb4202c0d1f) * limb_base() + 0xfd603fd3cbd5f4f) * limb_base() + 0x7b2443d784bab9c4) * limb_base() + 0xf67ea53d63e7813d) * limb_base() + 0x8d0775ed92235fb8)), prime(), ((((((0x1904d3bf02bb0667 * limb_base() + 0x66b2d0158718668b) * limb_base() + 0x7ee98451906eaa06) * limb_base() + 0xe49dd2b519521c2c) * limb_base() + 0xae8d03d800c8f73) * limb_base() + 0xfabec62059171ac6)), ((((((0x5b2cfd9013a5fd8 * limb_base() + 0xdf47fa6b48b1e045) * limb_base() + 0xf39816240c0b8fee) * limb_base() + 0x8beadf4d8e9c0566) * limb_base() + 0xc63a3e6e257f8732) * limb_base() + 0x9b18fae980078116)));
    assert(((((((0x0 * limb_base() + 0x0) * limb_base() + 0x0) * limb_base() + 0x0) * limb_base() + 0x0) * limb_base() + 0x0)) * ((((((0xfc3e2b36c4e032 * limb_base() + 0x88e9e902231f9fb8) * limb_base() + 0x54a14787b6c7b36f) * limb_base() + 0xec0c8ec971f63c5f) * limb_base() + 0x282d5ac14d6c7ec2) * limb_base() + 0x2cf78a126ddc4af3)) == ((((((0x0 * limb_base() + 0x0) * limb_base() + 0x0) * limb_base() + 0x0) * limb_base() + 0x0) * limb_base() + 0x0)) * prime() + ((((((0x0 * limb_base() + 0x0) * limb_base() + 0x0) * limb_base() + 0x0) * limb_base() + 0x0) * limb_base() + 0x0))) by (nonlinear_arith);
    lemma_fundamental_div_mod_converse_mod(((((((0x0 * limb_base() + 0x0) * limb_base() + 0x0) * limb_base() + 0x0) * limb_base() + 0x0) * limb_base() + 0x0)) * ((((((0xfc3e2b36c4e032 * limb_base() + 0x88e9e902231f9fb8) * limb_base() + 0x54a14787b6c7b36f) * limb_base() + 0xec0c8ec971f63c5f) * limb_base() + 0x282d5ac14d6c7ec2) * limb_base() + 0x2cf78a126ddc4af3)), prime(), ((((((0x0 * limb_base() + 0x0) * limb_base() + 0x0) * limb_base() + 0x0) * limb_base() + 0x0) * limb_base() + 0x0)), ((((((0x0 * limb_base() + 0x0) * limb_base() + 0x0) * limb_base() + 0x0) * limb_base() + 0x0) * limb_base() + 0x0)));
    assert(((((((0x1a0111ea397fe699 * limb_base() + 0xec02408663d4de85) * limb_base() + 0xaa0d857d89759ad4) * limb_base() + 0x897d29650fb85f9b) * limb_base() + 0x409427eb4f49fffd) * limb_base() + 0x8bfd00000000aaad)) * ((((((0xfc3e2b36c4e032 * limb_base() + 0x88e9e902231f9fb8) * limb_base() + 0x54a14787b6c7b36f) * limb_base() + 0xec0c8ec971f63c5f) * limb_base() + 0x282d5ac14d6c7ec2) * limb_base() + 0x2cf78a126ddc4af3)) == ((((((0xfc3e2b36c4e032 * limb_base() + 0x854f7070dcbc77fa) * limb_base() + 0x2b24012bf906f0cd) * limb_base() + 0xa4df56aff666436f) * limb_base() + 0x35ab57adcf3d7089) * limb_base() + 0x913e39dfa6e98fe6)) * prime() + ((((((0x144e4211384586c1 * limb_base() + 0x6bd3ad4afa99cc91) * limb_base() + 0x70df3560e77982d0) * limb_base() + 0xdb45f3536814f0bd) * limb_base() + 0x5871c1908bd478cd) * limb_base() + 0x1ee605167ff82995))) by (nonlinear_arith);
    lemma_fundamental_div_mod_converse_mod(((((((0x1a0111ea397fe699 * limb_base() + 0xec02408663d4de85) * limb_base() + 0xaa0d857d89759ad4) * limb_base() + 0x897d29650fb85f9b) * limb_base() + 0x409427eb4f49fffd) * limb_base() + 0x8bfd00000000aaad)) * ((((((0xfc3e2b36c4e032 * limb_base() + 0x88e9e902231f9fb8) * limb_base() + 0x54a14787b6c7b36f) * limb_base() + 0xec0c8ec971f63c5f) * limb_base() + 0x282d5ac14d6c7ec2) * limb_base() + 0x2cf78a126ddc4af3)), prime(), ((((((0xfc3e2b36c4e032 * limb_base() + 0x854f7070dcbc77fa) * limb_base() + 0x2b24012bf906f0cd) * limb_base() + 0xa4df56aff666436f) * limb_base() + 0x35ab57adcf3d7089) * limb_base() + 0x913e39dfa6e98fe6)), ((((((0x144e4211384586c1 * limb_base() + 0x6bd3ad4afa99cc91) * limb_base() + 0x70df3560e77982d0) * limb_base() + 0xdb45f3536814f0bd) * limb_base() + 0x5871c1908bd478cd) * limb_base() + 0x1ee605167ff82995)));
    assert(((((((0x0 * limb_base() + 0x0) * limb_base() + 0x0) * limb_base() + 0x0) * limb_base() + 0x0) * limb_base() + 0x0)) * ((((((0x1904d3bf02bb0667 * limb_base() + 0xc231beb4202c0d1f) * limb_base() + 0xfd603fd3cbd5f4f) * limb_base() + 0x7b2443d784bab9c4) * limb_base() + 0xf67ea53d63e7813d) * limb_base() + 0x8d0775ed92235fb8)) == ((((((0x0 * limb_base() + 0x0) * limb_base() + 0x0) * limb_base() + 0x0) * limb_base() + 0x0) * limb_base() + 0x0)) * prime() + ((((((0x0 * limb_base() + 0x0) * limb_base() + 0x0) * limb_base() + 0x0) * limb_base() + 0x0) * limb_base() + 0x0))) by (nonlinear_arith);
    lemma_fundamental_div_mod_converse_mod(((((((0x0 * limb_base() + 0x0) * limb_base() + 0x0) * limb_base() + 0x0) * limb_base() + 0x0) * limb_base() + 0x0)) * ((((((0x1904d3bf02bb0667 * limb_base() + 0xc231beb4202c0d1f) * limb_base() + 0xfd603fd3cbd5f4f) * limb_base() + 0x7b2443d784bab9c4) * limb_base() + 0xf67ea53d63e7813d) * limb_base() + 0x8d0775ed92235fb8)), prime(), ((((((0x0 * limb_base() + 0x0) * limb_base() + 0x0) * limb_base() + 0x0) * limb_base() + 0x0) * limb_base() + 0x0)), ((((((0x0 * limb_base() + 0x0) * limb_base() + 0x0) * limb_base() + 0x0) * limb_base() + 0x0) * limb_base() + 0x0)));
    lemma_fundamental_div_mod_converse_mod(((((((0x5b2cfd9013a5fd8 * limb_base() + 0xdf47fa6b48b1e045) * limb_base() + 0xf39816240c0b8fee) * limb_base() + 0x8beadf4d8e9c0566) * limb_base() + 0xc63a3e6e257f8732) * limb_base() + 0x9b18fae980078116)) - ((((((0x0 * limb_base() + 0x0) * limb_base() + 0x0) * limb_base() + 0x0) * limb_base() + 0x0) * limb_base() + 0x0)), prime(), (0int), ((((((0x5b2cfd9013a5fd8 * limb_base() + 0xdf47fa6b48b1e045) * limb_base() + 0xf39816240c0b8fee) * limb_base() + 0x8beadf4d8e9c0566) * limb_base() + 0xc63a3e6e257f8732) * limb_base() + 0x9b18fae980078116)));
    lemma_fundamental_div_mod_converse_mod(((((((0x144e4211384586c1 * limb_base() + 0x6bd3ad4afa99cc91) * limb_base() + 0x70df3560e77982d0) * limb_base() + 0xdb45f3536814f0bd) * limb_base() + 0x5871c1908bd478cd) * limb_base() + 0x1ee605167ff82995)) + ((((((0x0 * limb_base() + 0x0) * limb_base() + 0x0) * limb_base() + 0x0) * limb_base() + 0x0) * limb_base() + 0x0)), prime(), (0int), ((((((0x144e4211384586c1 * limb_base() + 0x6bd3ad4afa99cc91) * limb_base() + 0x70df3560e77982d0) * limb_base() + 0xdb45f3536814f0bd) * limb_base() + 0x5871c1908bd478cd) * limb_base() + 0x1ee605167ff82995)));
}

/// The fixed-table identity `gamma2(3) == frob6_c1(2) * frob12_c(2)`, checked on the
/// canonical residues with explicit division witnesses.
pub proof fn lemma_gamma2_3_product()
    ensures
        fp2_mul(frob6_c1(2), frob12_c(2)) == gamma2(3),
{
    assert(((((((0x51ba4ab241b6160 * limb_base() + 0x3636b76660701c6e) * limb_base() + 0xc26a2ff874fd029b) * limb_base() + 0x16a8ca3ac61577f7) * limb_base() + 0xf3b8ddab7ece5a2a) * limb_base() + 0x30f1361b798a64e8)) * mont_rinv() == ((((((0x41fc37289d666a6 * limb_base() + 0xe9f2a6f58c8dda89) * limb_base() + 0x6d3b183c935d7719) * limb_base() + 0xca44559561dffd85) * limb_base() + 0x12e98802327e8a81) * limb_base() + 0x5909d5dc31fa9706)) * prime() + ((((((0x0 * limb_base() + 0x5f19672fdf76ce51) * limb_base() + 0xba69c6076a0f77ea) * limb_base() + 0xddb3a93be6f89688) * limb_base() + 0xde17d813620a0002) * limb_base() + 0x2e01fffffffefffe))) by (nonlinear_arith);
    lemma_fundamental_div_mod_converse_mod(((((((0x51ba4ab241b6160 * limb_base() + 0x3636b76660701c6e) * limb_base() + 0xc26a2ff874fd029b) * limb_base() + 0x16a8ca3ac61577f7) * limb_base() + 0xf3b8ddab7ece5a2a) * limb_base() + 0x30f1361b798a64e8)) * mont_rinv(), prime(), ((((((0x41fc37289d666a6 * limb_base() + 0xe9f2a6f58c8dda89) * limb_base() + 0x6d3b183c935d7719) * limb_base() + 0xca44559561dffd85) * limb_base() + 0x12e98802327e8a81) * limb_base() + 0x5909d5dc31fa9706)), ((((((0x0 * limb_base() + 0x5f19672fdf76ce51) * limb_base() + 0xba69c6076a0f77ea) * limb_base() + 0xddb3a93be6f89688) * limb_base() + 0xde17d813620a0002) * limb_base() + 0x2e01fffffffefffe)));
    assert(((((((0x0 * limb_base() + 0x0) * limb_base() + 0x0) * limb_base() + 0x0) * limb_base() + 0x0) * limb_base() + 0x0)) * mont_rinv() == ((((((0x0 * limb_base() + 0x0) * limb_base() + 0x0) * limb_base() + 0x0) * limb_base() + 0x0) * limb_base() + 0x0)) * prime() + ((((((0x0 * limb_base() + 0x0) * limb_base() + 0x0) * limb_base() + 0x0) * limb_base() + 0x0) * limb_base() + 0x0))) by (nonlinear_arith);
    lemma_fundamental_div_mod_converse_mod(((((((0x0 * limb_base() + 0x0) * limb_base() + 0x0) * limb_base() + 0x0) * limb_base() + 0x0) * limb_base() + 0x0)) * mont_rinv(), prime(), ((((((0x0 * limb_base() + 0x0) * limb_base() + 0x0) * limb_base() + 0x0) * limb_base() + 0x0) * limb_base() + 0x0)), ((((((0x0 * limb_base() + 0x0) * limb_base() + 0x0) * limb_base() + 0x0) * limb_base() + 0x0) * limb_base() + 0x0)));
    assert(((((((0x110f184e51c5f59 * limb_base() + 0x47222a47bf7b5c04) * limb_base() + 0xd5c13cc6f1ca4721) * limb_base() + 0xec08ff1232bda8e) * limb_base() + 0xc100ddb891865a2c) * limb_base() + 0xecfb361b798dba3a)) * mont_rinv() == ((((((0xdc5e666eb2e218 * limb_base() + 0xcf5d46c13dd6672) * limb_base() + 0x9b3b337fab7ac749) * limb_base() + 0xd6c0e5cb5cecbef8) * limb_base() + 0x3c89ab049655d092) * limb_base() + 0x52babe5d0186c5c3)) * prime() + ((((((0x0 * limb_base() + 0x5f19672fdf76ce51) * limb_base() + 0xba69c6076a0f77ea) * limb_base() + 0xddb3a93be6f89688) * limb_base() + 0xde17d813620a0002) * limb_base() + 0x2e01fffffffeffff))) by (nonlinear_arith);
    lemma_fundamental_div_mod_converse_mod(((((((0x110f184e51c5f59 * limb_base() + 0x47222a47bf7b5c04) * limb_base() + 0xd5c13cc6f1ca4721) * limb_base() + 0xec08ff1232bda8e) * limb_base() + 0xc100ddb891865a2c) * limb_base() + 0xecfb361b798dba3a)) * mont_rinv(), prime(), ((((((0xdc5e666eb2e218 * limb_base() + 0xcf5d46c13dd6672) * limb_base() + 0x9b3b337fab7ac749) * limb_base() + 0xd6c0e5cb5cecbef8) * limb_base() + 0x3c89ab049655d092) * limb_base() + 0x52babe5d0186c5c3)), ((((((0x0 * limb_base() + 0x5f19672fdf76ce51) * limb_base() + 0xba69c6076a0f77ea) * limb_base() + 0xddb3a93be6f89688) * limb_base() + 0xde17d813620a0002) * limb_base() + 0x2e01fffffffeffff)));
    assert(((((((0x0 * limb_base() + 0x0) * limb_base() + 0x0) * limb_base() + 0x0) * limb_base() + 0x0) * limb_base() + 0x0)) * mont_rinv() == ((((((0x0 * limb_base() + 0x0) * limb_base() + 0x0) * limb_base() + 0x0) * limb_base() + 0x0) * limb_base() + 0x0)) * prime() + ((((((0x0 * limb_base() + 0x0) * limb_base() + 0x0) * limb_base() + 0x0) * limb_base() + 0x0) * limb_base() + 0x0))) by (nonlinear_arith);
    lemma_fundamental_div_mod_converse_mod(((((((0x0 * limb_base() + 0x0) * limb_base() + 0x0) * limb_base() + 0x0) * limb_base() + 0x0) * limb_base() + 0x0)) * mont_rinv(), prime(), ((((((0x0 * limb_base() + 0x0) * limb_base() + 0x0) * limb_base() + 0x0) * limb_base() + 0x0) * limb_base() + 0x0)), ((((((0x0 * limb_base() + 0x0) * limb_base() + 0x0) * limb_base() + 0x0) * limb_base() + 0x0) * limb_base() + 0x0)));
    assert(((((((0x40ab3263eff0206 * limb_base() + 0xef148d1ea0f4c069) * limb_base() + 0xeca8f3318332bb7a) * limb_base() + 0x7e83a49a2e99d69) * limb_base() + 0x32b7fff2ed47fffd) * limb_base() + 0x43f5fffffffcaaae)) * mont_rinv() == ((((((0x343650c1b23848e * limb_base() + 0xdcfcd28978b07416) * limb_base() + 0xd1ffe4bce7e2afcf) * limb_base() + 0xf3836fca04f33e8c) * limb_base() + 0xd65fdcfd9c28b9ef) * limb_base() + 0x64f177f3073d142)) * prime() + ((((((0x1a0111ea397fe69a * limb_base() + 0x4b1ba7b6434bacd7) * limb_base() + 0x64774b84f38512bf) * limb_base() + 0x6730d2a0f6b0f624) * limb_base() + 0x1eabfffeb153ffff) * limb_base() + 0xb9feffffffffaaaa))) by (nonlinear_arith);
    lemma_fundamental_div_mod_converse_mod(((((((0x40ab3263eff0206 * limb_base() + 0xef148d1ea0f4c069) * limb_base() + 0xeca8f3318332bb7a) * limb_base() + 0x7e83a49a2e99d69) * limb_base() + 0x32b7fff2ed47fffd) * limb_base() + 0x43f5fffffffcaaae)) * mont_rinv(), prime(), ((((((0x343650c1b23848e * limb_base() + 0xdcfcd28978b07416) * limb_base() + 0xd1ffe4bce7e2afcf) * limb_base() + 0xf3836fca04f33e8c) * limb_base() + 0xd65fdcfd9c28b9ef) * limb_base() + 0x64f177f3073d142)), ((((((0x1a0111ea397fe69a * limb_base() + 0x4b1ba7b6434bacd7) * limb_base() + 0x64774b84f38512bf) * limb_base() + 0x6730d2a0f6b0f624) * limb_base() + 0x1eabfffeb153ffff) * limb_base() + 0xb9feffffffffaaaa)));
    assert(((((((0x0 * limb_base() + 0x0) * limb_base() + 0x0) * limb_base() + 0x0) * limb_base() + 0x0) * limb_base() + 0x0)) * mont_rinv() == ((((((0x0 * limb_base() + 0x0) * limb_base() + 0x0) * limb_base() + 0x0) * limb_base() + 0x0) * limb_base() + 0x0)) * prime() + ((((((0x0 * limb_base() + 0x0) * limb_base() + 0x0) * limb_base() + 0x0) * limb_base() + 0x0) * limb_base() + 0x0))) by (nonlinear_arith);
    lemma_fundamental_div_mod_converse_mod(((((((0x0 * limb_base() + 0x0) * limb_base() + 0x0) * limb_base() + 0x0) * limb_base() + 0x0) * limb_base() + 0x0)) * mont_rinv(), prime(), ((((((0x0 * limb_base() + 0x0) * limb_base() + 0x0) * limb_base() + 0x0) * limb_base() + 0x0) * limb_base() + 0x0)), ((((((0x0 * limb_base() + 0x0) * limb_base() + 0x0) * limb_base() + 0x0) * limb_base() + 0x0) * limb_base() + 0x0)));
    assert(((((((0x0 * limb_base() + 0x5f19672fdf76ce51) * limb_base() + 0xba69c6076a0f77ea) * limb_base() + 0xddb3a93be6f89688) * limb_base() + 0xde17d813620a0002) * limb_base() + 0x2e01fffffffefffe)) * ((((((0x0 * limb_base() + 0x5f19672fdf76ce51) * limb_base() + 0xba69c6076a0f77ea) * limb_base() + 0xddb3a93be6f89688) * limb_base() + 0xde17d813620a0002) * limb_base() + 0x2e01fffffffeffff)) == ((((((0x0 * limb_base() + 0x1) * limb_base() + 0x5bc8f5f97cd877df) * limb_base() + 0x398321c5a509c1eb) * limb_base() + 0x31e44c3e8846743b) * limb_base() + 0xc41e001500120008)) * prime() + ((((((0x1a0111ea397fe69a * limb_base() + 0x4b1ba7b6434bacd7) * limb_base() + 0x64774b84f38512bf) * limb_base() + 0x6730d2a0f6b0f624) * limb_base() + 0x1eabfffeb153ffff) * limb_base() + 0xb9feffffffffaaaa))) by (nonlinear_arith);
    lemma_fundamental_div_mod_converse_mod(((((((0x0 * limb_base() + 0x5f19672fdf76ce51) * limb_base() + 0xba69c6076a0f77ea) * limb_base() + 0xddb3a93be6f89688) * limb_base() + 0xde17d813620a0002) * limb_base() + 0x2e01fffffffefffe)) * ((((((0x0 * limb_base() + 0x5f19672fdf76ce51) * limb_base() + 0xba69c6076a0f77ea) * limb_base() + 0xddb3a93be6f89688) * limb_base() + 0xde17d813620a0002) * limb_base() + 0x2e01fffffffeffff)), prime(), ((((((0x0 * limb_base() + 0x1) * limb_base() + 0x5bc8f5f97cd877df) * limb_base() + 0x398321c5a509c1eb) * limb_base() + 0x31e44c3e8846743b) * limb_base() + 0xc41e001500120008)), ((((((0x1a0111ea397fe69a * limb_base() + 0x4b1ba7b6434bacd7) * limb_base() + 0x64774b84f38512bf) * limb_base() + 0x6730d2a0f6b0f624) * limb_base() + 0x1eabfffeb153ffff) * limb_base() + 0xb9feffffffffaaaa)));
    assert(((((((0x0 * limb_base() + 0x0) * limb_base() + 0x0) * limb_base() + 0x0) * limb_base() + 0x0) * limb_base() + 0x0)) * ((((((0x0 * limb_base() + 0x0) * limb_base() + 0x0) * limb_base() + 0x0) * limb_base() + 0x0) * limb_base() + 0x0)) == ((((((0x0 * limb_base() + 0x0) * limb_base() + 0x0) * limb_base() + 0x0) * limb_base() + 0x0) * limb_base() + 0x0)) * prime() + ((((((0x0 * limb_base() + 0x0) * limb_base() + 0x0) * limb_base() + 0x0) * limb_base() + 0x0) * limb_base() + 0x0))) by (nonlinear_arith);
    lemma_fundamental_div_mod_converse_mod(((((((0x0 * limb_base() + 0x0) * limb_base() + 0x0) * limb_base() + 0x0) * limb_base() + 0x0) * limb_base() + 0x0)) * ((((((0x0 * limb_base() + 0x0) * limb_base() + 0x0) * limb_base() + 0x0) * limb_base() + 0x0) * limb_base() + 0x0)), prime(), ((((((0x0 * limb_base() + 0x0) * limb_base() + 0x0) * limb_base() + 0x0) * limb_base() + 0x0) * limb_base() + 0x0)), ((((((0x0 * limb_base() + 0x0) * limb_base() + 0x0) * limb_base() + 0x0) * limb_base() + 0x0) * limb_base() + 0x0)));
    assert(((((((0x0 * limb_base() + 0x5f19672fdf76ce51) * limb_base() + 0xba69c6076a0f77ea) * limb_base() + 0xddb3a93be6f89688) * limb_base() + 0xde17d813620a0002) * limb_base() + 0x2e01fffffffefffe)) * ((((((0x0 * limb_base() + 0x0) * limb_base() + 0x0) * limb_base() + 0x0) * limb_base() + 0x0) * limb_base() + 0x0)) == ((((((0x0 * limb_base() + 0x0) * limb_base() + 0x0) * limb_base() + 0x0) * limb_base() + 0x0) * limb_base() + 0x0)) * prime() + ((((((0x0 * limb_base() + 0x0) * limb_base() + 0x0) * limb_base() + 0x0) * limb_base() + 0x0) * limb_base() + 0x0))) by (nonlinear_arith);
    lemma_fundamental_div_mod_converse_mod(((((((0x0 * limb_base() + 0x5f19672fdf76ce51) * limb_base() + 0xba69c6076a0f77ea) * limb_base() + 0xddb3a93be6f89688) * limb_base() + 0xde17d813620a0002) * limb_base() + 0x2e01fffffffefffe)) * ((((((0x0 * limb_base() + 0x0) * limb_base() + 0x0) * limb_base() + 0x0) * limb_base() + 0x0) * limb_base() + 0x0)), prime(), ((((((0x0 * limb_base() + 0x0) * limb_base() + 0x0) * limb_base() + 0x0) * limb_base() + 0x0) * limb_base() + 0x0)), ((((((0x0 * limb_base() + 0x0) * limb_base() + 0x0) * limb_base() + 0x0) * limb_base() + 0x0) * limb_base() + 0x0)));
    assert(((((((0x0 * limb_base() + 0x0) * limb_base() + 0x0) * limb_base() + 0x0) * limb_base() + 0x0) * limb_base() + 0x0)) * ((((((0x0 * limb_base() + 0x5f19672fdf76ce51) * limb_base() + 0xba69c6076a0f77ea) * limb_base() + 0xddb3a93be6f89688) * limb_base() + 0xde17d813620a0002) * limb_base() + 0x2e01fffffffeffff)) == ((((((0x0 * limb_base() + 0x0) * limb_base() + 0x0) * limb_base() + 0x0) * limb_base() + 0x0) * limb_base() + 0x0)) * prime() + ((((((0x0 * limb_base() + 0x0) * limb_base() + 0x0) * limb_base() + 0x0) * limb_base() + 0x0) * limb_base() + 0x0))) by (nonlinear_arith);
    lemma_fundamental_div_mod_converse_mod(((((((0x0 * limb_base() + 0x0) * limb_base() + 0x0) * limb_base() + 0x0) * limb_base() + 0x0) * limb_base() + 0x0)) * ((((((0x0 * limb_base() + 0x5f19672fdf76ce51) * limb_base() + 0xba69c6076a0f77ea) * limb_base() + 0xddb3a93be6f89688) * limb_base() + 0xde17d813620a0002) * limb_base() + 0x2e01fffffffeffff)), prime(), ((((((0x0 * limb_base() + 0x0) * limb_base() + 0x0) * limb_base() + 0x0) * limb_base() + 0x0) * limb_base() + 0x0)), ((((((0x0 * limb_base() + 0x0) * limb_base() + 0x0) * limb_base() + 0x0) * limb_base() + 0x0) * limb_base() + 0x0)));
    lemma_fundamental_div_mod_converse_mod(((((((0x1a0111ea397fe69a * limb_base() + 0x4b1ba7b6434bacd7) * limb_base() + 0x64774b84f38512bf) * limb_base() + 0x6730d2a0f6b0f624) * limb_base() + 0x1eabfffeb153ffff) * limb_base() + 0xb9feffffffffaaaa)) - ((((((0x0 * limb_base() + 0x0) * limb_base() + 0x0) * limb_base() + 0x0) * limb_base() + 0x0) * limb_base() + 0x0)), prime(), (0int), ((((((0x1a0111ea397fe69a * limb_base() + 0x4b1ba7b6434bacd7) * limb_base() + 0x64774b84f38512bf) * limb_base() + 0x6730d2a0f6b0f624) * limb_base() + 0x1eabfffeb153ffff) * limb_base() + 0xb9feffffffffaaaa)));
    lemma_fundamental_div_mod_converse_mod(((((((0x0 * limb_base() + 0x0) * limb_base() + 0x0) * limb_base() + 0x0) * limb_base() + 0x0) * limb_base() + 0x0)) + ((((((0x0 * limb_base() + 0x0) * limb_base() + 0x0) * limb_base() + 0x0) * limb_base() + 0x0) * limb_base() + 0x0)), prime(), (0int), ((((((0x0 * limb_base() + 0x0) * limb_base() + 0x0) * limb_base() + 0x0) * limb_base() + 0x0) * limb_base() + 0x0)));
}

/// The fixed-table identity `gamma2(5) == frob6_c2(2) * frob12_c(2)`, checked on the
/// canonical residues with explicit division witnesses.
pub proof fn lemma_gamma2_5_product()
    ensures
        fp2_mul(frob6_c2(2), frob12_c(2)) == gamma2(5),
{
    assert(((((((0x18f0206554638741 * limb_base() + 0x3f97d6e83d050d2) * limb_base() + 0x8eb60ebe01bacb9e) * limb_base() + 0x587042afd3851b95) * limb_base() + 0x5dab22461fcda5d2) * limb_base() + 0xcd03c9e48671f071)) * mont_rinv() == ((((((0x1422689b7a482ad1 * limb_base() + 0xe0688fbb2871ed18) * limb_base() + 0x7c5c7794ad2dc69f) * limb_base() + 0x5d7dc3adb7a8aed0) * limb_base() + 0x4357677042432a69) * limb_base() + 0xa218c3fc3684825c)) * prime() + ((((((0x1a0111ea397fe699 * limb_base() + 0xec02408663d4de85) * limb_base() + 0xaa0d857d89759ad4) * limb_base() + 0x897d29650fb85f9b) * limb_base() + 0x409427eb4f49fffd) * limb_base() + 0x8bfd00000000aaac))) by (nonlinear_arith);
    lemma_fundamental_div_mod_converse_mod(((((((0x18f0206554638741 * limb_base() + 0x3f97d6e83d050d2) * limb_base() + 0x8eb60ebe01bacb9e) * limb_base() + 0x587042afd3851b95) * limb_base() + 0x5dab22461fcda5d2) * limb_base() + 0xcd03c9e48671f071)) * mont_rinv(), prime(), ((((((0x1422689b7a482ad1 * limb_base() + 0xe0688fbb2871ed18) * limb_base() + 0x7c5c7794ad2dc69f) * limb_base() + 0x5d7dc3adb7a8aed0) * limb_base() + 0x4357677042432a69) * limb_base() + 0xa218c3fc3684825c)), ((((((0x1a0111ea397fe699 * limb_base() + 0xec02408663d4de85) * limb_base() + 0xaa0d857d89759ad4) * limb_base() + 0x897d29650fb85f9b) * limb_base() + 0x409427eb4f49fffd) * limb_base() + 0x8bfd00000000aaac)));
    assert(((((((0x0 * limb_base() + 0x0) * limb_base() + 0x0) * limb_base() + 0x0) * limb_base() + 0x0) * limb_base() + 0x0)) * mont_rinv() == ((((((0x0 * limb_base() + 0x0) * limb_base() + 0x0) * limb_base() + 0x0) * limb_base() + 0x0) * limb_base() + 0x0)) * prime() + ((((((0x0 * limb_base() + 0x0) * limb_base() + 0x0) * limb_base() + 0x0) * limb_base() + 0x0) * limb_base() + 0x0))) by (nonlinear_arith);
    lemma_fundamental_div_mod_converse_mod(((((((0x0 * limb_base() + 0x0) * limb_base() + 0x0) * limb_base() + 0x0) * limb_base() + 0x0) * limb_base() + 0x0)) * mont_rinv(), prime(), ((((((0x0 * limb_base() + 0x0) * limb_base() + 0x0) * limb_base() + 0x0) * limb_base() + 0x0) * limb_base() + 0x0)), ((((((0x0 * limb_base() + 0x0) * limb_base() + 0x0) * limb_base() + 0x0) * limb_base() + 0x0) * limb_base() + 0x0)));
    assert(((((((0x110f184e51c5f59 * limb_base() + 0x47222a47bf7b5c04) * limb_base() + 0xd5c13cc6f1ca4721) * limb_base() + 0xec08ff1232bda8e) * limb_base() + 0xc100ddb891865a2c) * limb_base() + 0xecfb361b798dba3a)) * mont_rinv() == ((((((0xdc5e666eb2e218 * limb_base() + 0xcf5d46c13dd6672) * limb_base() + 0x9b3b337fab7ac749) * limb_base() + 0xd6c0e5cb5cecbef8) * limb_base() + 0x3c89ab049655d092) * limb_base() + 0x52babe5d0186c5c3)) * prime() + ((((((0x0 * limb_base() + 0x5f19672fdf76ce51) * limb_base() + 0xba69c6076a0f77ea) * limb_base() + 0xddb3a93be6f89688) * limb_base() + 0xde17d813620a0002) * limb_base() + 0x2e01fffffffeffff))) by (nonlinear_arith);
    lemma_fundamental_div_mod_converse_mod(((((((0x110f184e51c5f59 * limb_base() + 0x47222a47bf7b5c04) * limb_base() + 0xd5c13cc6f1ca4721) * limb_base() + 0xec08ff1232bda8e) * limb_base() + 0xc100ddb891865a2c) * limb_base() + 0xecfb361b798dba3a)) * mont_rinv(), prime(), ((((((0xdc5e666eb2e218 * limb_base() + 0xcf5d46c13dd6672) * limb_base() + 0x9b3b337fab7ac749) * limb_base() + 0xd6c0e5cb5cecbef8) * limb_base() + 0x3c89ab049655d092) * limb_base() + 0x52babe5d0186c5c3)), ((((((0x0 * limb_base() + 0x5f19672fdf76ce51) * limb_base() + 0xba69c6076a0f77ea) * limb_base() + 0xddb3a93be6f89688) * limb_base() + 0xde17d813620a0002) * limb_base() + 0x2e01fffffffeffff)));
    assert(((((((0x0 * limb_base() + 0x0) * limb_base() + 0x0) * limb_base() + 0x0) * limb_base() + 0x0) * limb_base() + 0x0)) * mont_rinv() == ((((((0x0 * limb_base() + 0x0) * limb_base() + 0x0) * limb_base() + 0x0) * limb_base() + 0x0) * limb_base() + 0x0)) * prime() + ((((((0x0 * limb_base() + 0x0) * limb_base() + 0x0) * limb_base() + 0x0) * limb_base() + 0x0) * limb_base() + 0x0))) by (nonlinear_arith);
    lemma_fundamental_div_mod_converse_mod(((((((0x0 * limb_base() + 0x0) * limb_base() + 0x0) * limb_base() + 0x0) * limb_base() + 0x0) * limb_base() + 0x0)) * mont_rinv(), prime(), ((((((0x0 * limb_base() + 0x0) * limb_base() + 0x0) * limb_base() + 0x0) * limb_base() + 0x0) * limb_base() + 0x0)), ((((((0x0 * limb_base() + 0x0) * limb_base() + 0x0) * limb_base() + 0x0) * limb_base() + 0x0) * limb_base() + 0x0)));
    assert(((((((0x14e56d3f1564853a * limb_base() + 0x14e4f04fe2db9068) * limb_base() + 0xa20d1b8c7e881024) * limb_base() + 0x50880866309b7e2c) * limb_base() + 0x2af322533285a5d5) * limb_base() + 0x890dc9e4867545c3)) * mont_rinv() == ((((((0x10df038f5f24a643 * limb_base() + 0x36bbd31afc17901) * limb_base() + 0xaa5c92d7c54b16cf) * limb_base() + 0x69fa53e3b2b57043) * limb_base() + 0x6cf78a72a61a707a) * limb_base() + 0x9bc9ac7d0610b119)) * prime() + ((((((0x1a0111ea397fe699 * limb_base() + 0xec02408663d4de85) * limb_base() + 0xaa0d857d89759ad4) * limb_base() + 0x897d29650fb85f9b) * limb_base() + 0x409427eb4f49fffd) * limb_base() + 0x8bfd00000000aaad))) by (nonlinear_arith);
    lemma_fundamental_div_mod_converse_mod(((((((0x14e56d3f1564853a * limb_base() + 0x14e4f04fe2db9068) * limb_base() + 0xa20d1b8c7e881024) * limb_base() + 0x50880866309b7e2c) * limb_base() + 0x2af322533285a5d5) * limb_base() + 0x890dc9e4867545c3)) * mont_rinv(), prime(), ((((((0x10df038f5f24a643 * limb_base() + 0x36bbd31afc17901) * limb_base() + 0xaa5c92d7c54b16cf) * limb_base() + 0x69fa53e3b2b57043) * limb_base() + 0x6cf78a72a61a707a) * limb_base() + 0x9bc9ac7d0610b119)), ((((((0x1a0111ea397fe699 * limb_base() + 0xec02408663d4de85) * limb_base() + 0xaa0d857d89759ad4) * limb_base() + 0x897d29650fb85f9b) * limb_base() + 0x409427eb4f49fffd) * limb_base() + 0x8bfd00000000aaad)));
    assert(((((((0x0 * limb_base() + 0x0) * limb_base() + 0x0) * limb_base() + 0x0) * limb_base() + 0x0) * limb_base() + 0x0)) * mont_rinv() == ((((((0x0 * limb_base() + 0x0) * limb_base() + 0x0) * limb_base() + 0x0) * limb_base() + 0x0) * limb_base() + 0x0)) * prime() + ((((((0x0 * limb_base() + 0x0) * limb_base() + 0x0) * limb_base() + 0x0) * limb_base() + 0x0) * limb_base() + 0x0))) by (nonlinear_arith);
    lemma_fundamental_div_mod_converse_mod(((((((0x0 * limb_base() + 0x0) * limb_base() + 0x0) * limb_base() + 0x0) * limb_base() + 0x0) * limb_base() + 0x0)) * mont_rinv(), prime(), ((((((0x0 * limb_base() + 0x0) * limb_base() + 0x0) * limb_base() + 0x0) * limb_base() + 0x0) * limb_base() + 0x0)), ((((((0x0 * limb_base() + 0x0) * limb_base() + 0x0) * limb_base() + 0x0) * limb_base() + 0x0) * limb_base() + 0x0)));
    assert(((((((0x1a0111ea397fe699 * limb_base() + 0xec02408663d4de85) * limb_base() + 0xaa0d857d89759ad4) * limb_base() + 0x897d29650fb85f9b) * limb_base() + 0x409427eb4f49fffd) * limb_base() + 0x8bfd00000000aaac)) * ((((((0x0 * limb_base() + 0x5f19672fdf76ce51) * limb_base() + 0xba69c6076a0f77ea) * limb_base() + 0xddb3a93be6f89688) * limb_base() + 0xde17d813620a0002) * limb_base() + 0x2e01fffffffeffff)) == ((((((0x0 * limb_base() + 0x5f19672fdf76ce50) * limb_base() + 0x5ea0d00ded37000b) * limb_base() + 0xa430877641eed49d) * limb_base() + 0xac338bd4d9c38bc6) * limb_base() + 0x69e3ffeaffecfff5)) * prime() + ((((((0x1a0111ea397fe699 * limb_base() + 0xec02408663d4de85) * limb_base() + 0xaa0d857d89759ad4) * limb_base() + 0x897d29650fb85f9b) * limb_base() + 0x409427eb4f49fffd) * limb_base() + 0x8bfd00000000aaad))) by (nonlinear_arith);
    lemma_fundamental_div_mod_converse_mod(((((((0x1a0111ea397fe699 * limb_base() + 0xec02408663d4de85) * limb_base() + 0xaa0d857d89759ad4) * limb_base() + 0x897d29650fb85f9b) * limb_base() + 0x409427eb4f49fffd) * limb_base() + 0x8bfd00000000aaac)) * ((((((0x0 * limb_base() + 0x5f19672fdf76ce51) * limb_base() + 0xba69c6076a0f77ea) * limb_base() + 0xddb3a93be6f89688) * limb_base() + 0xde17d813620a0002) * limb_base() + 0x2e01fffffffeffff)), prime(), ((((((0x0 * limb_base() + 0x5f19672fdf76ce50) * limb_base() + 0x5ea0d00ded37000b) * limb_base() + 0xa430877641eed49d) * limb_base() + 0xac338bd4d9c38bc6) * limb_base() + 0x69e3ffeaffecfff5)), ((((((0x1a0111ea397fe699 * limb_base() + 0xec02408663d4de85) * limb_base() + 0xaa0d857d89759ad4) * limb_base() + 0x897d29650fb85f9b) * limb_base() + 0x409427eb4f49fffd) * limb_base() + 0x8bfd00000000aaad)));
    assert(((((((0x0 * limb_base() + 0x0) * limb_base() + 0x0) * limb_base() + 0x0) * limb_base() + 0x0) * limb_base() + 0x0)) * ((((((0x0 * limb_base() + 0x0) * limb_base() + 0x0) * limb_base() + 0x0) * limb_base() + 0x0) * limb_base() + 0x0)) == ((((((0x0 * limb_base() + 0x0) * limb_base() + 0x0) * limb_base() + 0x0) * limb_base() + 0x0) * limb_base() + 0x0)) * prime() + ((((((0x0 * limb_base() + 0x0) * limb_base() + 0x0) * limb_base() + 0x0) * limb_base() + 0x0) * limb_base() + 0x0))) by (nonlinear_arith);
    lemma_fundamental_div_mod_converse_mod(((((((0x0 * limb_base() + 0x0) * limb_base() + 0x0) * limb_base() + 0x0) * limb_base() + 0x0) * limb_base() + 0x0)) * ((((((0x0 * limb_base() + 0x0) * limb_base() + 0x0) * limb_base() + 0x0) * limb_base() + 0x0) * limb_base() + 0x0)), prime(), ((((((0x0 * limb_base() + 0x0) * limb_base() + 0x0) * limb_base() + 0x0) * limb_base() + 0x0) * limb_base() + 0x0)), ((((((0x0 * limb_base() + 0x0) * limb_base() + 0x0) * limb_base() + 0x0) * limb_base() + 0x0) * limb_base() + 0x0)));
    assert(((((((0x1a0111ea397fe699 * limb_base() + 0xec02408663d4de85) * limb_base() + 0xaa0d857d89759ad4) * limb_base() + 0x897d29650fb85f9b) * limb_base() + 0x409427eb4f49fffd) * limb_base() + 0x8bfd00000000aaac)) * ((((((0x0 * limb_base() + 0x0) * limb_base() + 0x0) * limb_base() + 0x0) * limb_base() + 0x0) * limb_base() + 0x0)) == ((((((0x0 * limb_base() + 0x0) * limb_base() + 0x0) * limb_base() + 0x0) * limb_base() + 0x0) * limb_base() + 0x0)) * prime() + ((((((0x0 * limb_base() + 0x0) * limb_base() + 0x0) * limb_base() + 0x0) * limb_base() + 0x0) * limb_base() + 0x0))) by (nonlinear_arith);
    lemma_fundamental_div_mod_converse_mod(((((((0x1a0111ea397fe699 * limb_base() + 0xec02408663d4de85) * limb_base() + 0xaa0d857d89759ad4) * limb_base() + 0x897d29650fb85f9b) * limb_base() + 0x409427eb4f49fffd) * limb_base() + 0x8bfd00000000aaac)) * ((((((0x0 * limb_base() + 0x0) * limb_base() + 0x0) * limb_base() + 0x0) * limb_base() + 0x0) * limb_base() + 0x0)), prime(), ((((((0x0 * limb_base() + 0x0) * limb_base() + 0x0) * limb_base() + 0x0) * limb_base() + 0x0) * limb_base() + 0x0)), ((((((0x0 * limb_base() + 0x0) * limb_base() + 0x0) * limb_base() + 0x0) * limb_base() + 0x0) * limb_base() + 0x0)));
    assert(((((((0x0 * limb_base() + 0x0) * limb_base() + 0x0) * limb_base() + 0x0) * limb_base() + 0x0) * limb_base() + 0x0)) * ((((((0x0 * limb_base() + 0x5f19672fdf76ce51) * limb_base() + 0xba69c6076a0f77ea) * limb_base() + 0xddb3a93be6f89688) * limb_base() + 0xde17d813620a0002) * limb_base() + 0x2e01fffffffeffff)) == ((((((0x0 * limb_base() + 0x0) * limb_base() + 0x0) * limb_base() + 0x0) * limb_base() + 0x0) * limb_base() + 0x0)) * prime() + ((((((0x0 * limb_base() + 0x0) * limb_base() + 0x0) * limb_base() + 0x0) * limb_base() + 0x0) * limb_base() + 0x0))) by (nonlinear_arith);
    lemma_fundamental_div_mod_converse_mod(((((((0x0 * limb_base() + 0x0) * limb_base() + 0x0) * limb_base() + 0x0) * limb_base() + 0x0) * limb_base() + 0x0)) * ((((((0x0 * limb_base() + 0x5f19672fdf76ce51) * limb_base() + 0xba69c6076a0f77ea) * limb_base() + 0xddb3a93be6f89688) * limb_base() + 0xde17d813620a0002) * limb_base() + 0x2e01fffffffeffff)), prime(), ((((((0x0 * limb_base() + 0x0) * limb_base() + 0x0) * limb_base() + 0x0) * limb_base() + 0x0) * limb_base() + 0x0)), ((((((0x0 * limb_base() + 0x0) * limb_base() + 0x0) * limb_base() + 0x0) * limb_base() + 0x0) * limb_base() + 0x0)));
    lemma_fundamental_div_mod_converse_mod(((((((0x1a0111ea397fe699 * limb_base() + 0xec02408663d4de85) * limb_base() + 0xaa0d857d89759ad4) * limb_base() + 0x897d29650fb85f9b) * limb_base() + 0x409427eb4f49fffd) * limb_base() + 0x8bfd00000000aaad)) - ((((((0x0 * limb_base() + 0x0) * limb_base() + 0x0) * limb_base() + 0x0) * limb_base() + 0x0) * limb_base() + 0x0)), prime(), (0int), ((((((0x1a0111ea397fe699 * limb_base() + 0xec02408663d4de85) * limb_base() + 0xaa0d857d89759ad4) * limb_base() + 0x897d29650fb85f9b) * limb_base() + 0x409427eb4f49fffd) * limb_base() + 0x8bfd00000000aaad)));
    lemma_fundamental_div_mod_converse_mod(((((((0x0 * limb_base() + 0x0) * limb_base() + 0x0) * limb_base() + 0x0) * limb_base() + 0x0) * limb_base() + 0x0)) + ((((((0x0 * limb_base() + 0x0) * limb_base() + 0x0) * limb_base() + 0x0) * limb_base() + 0x0) * limb_base() + 0x0)), prime(), (0int), ((((((0x0 * limb_base() + 0x0) * limb_base() + 0x0) * limb_base() + 0x0) * limb_base() + 0x0) * limb_base() + 0x0)));
}

} // verus!
