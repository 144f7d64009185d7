//! The quadratic extension `a + b*u`, `u^2 = -1`, consumed from the external
//! arithmetic backend.
//!
//! A coordinate is held as six 64-bit limbs in Montgomery form (the backend's
//! own representation, radix `2^64`, scaled by `2^384` modulo the prime).
//! The view of a coordinate is its canonical residue: the limb integer times
//! the inverse of the Montgomery factor, reduced modulo the prime.  All
//! arithmetic on this type is trusted to the backend; everything above it is
//! verified against the spec-level operations defined here.

use vstd::prelude::*;
use ark_bls12_381::{Fq2, Fq6Config};
use ark_ff::fields::models::fp6_3over2::Fp6Config;
use ark_ff::{BigInt, Field, PrimeField};
use crate::modular::{
    in_fp, limb_base, lemma_madd_collapse, lemma_mmul_collapse, lemma_mneg_collapse,
    lemma_mod_in_fp, lemma_msub_collapse, lemma_reduced, madd, mmul, mneg, msub, prime,
};

verus! {

/// Spec-level value of a quadratic-extension element: a pair of reduced
/// base-field residues.
pub ghost struct SpecFp2 {
    pub re: int,
    pub im: int,
}

/// Both coordinates are reduced.
pub open spec fn fp2_wf(x: SpecFp2) -> bool {
    in_fp(x.re) && in_fp(x.im)
}

pub open spec fn fp2_zero() -> SpecFp2 {
    SpecFp2 { re: 0, im: 0 }
}

pub open spec fn fp2_one() -> SpecFp2 {
    SpecFp2 { re: 1, im: 0 }
}

pub open spec fn fp2_add(x: SpecFp2, y: SpecFp2) -> SpecFp2 {
    SpecFp2 { re: madd(x.re, y.re), im: madd(x.im, y.im) }
}

pub open spec fn fp2_sub(x: SpecFp2, y: SpecFp2) -> SpecFp2 {
    SpecFp2 { re: msub(x.re, y.re), im: msub(x.im, y.im) }
}

pub open spec fn fp2_neg(x: SpecFp2) -> SpecFp2 {
    SpecFp2 { re: mneg(x.re), im: mneg(x.im) }
}

/// The order-2 automorphism of the quadratic extension.
pub open spec fn fp2_conj(x: SpecFp2) -> SpecFp2 {
    SpecFp2 { re: x.re % prime(), im: mneg(x.im) }
}

/// Complex-style multiplication over the residues: `u^2 = -1`.
pub open spec fn fp2_mul(x: SpecFp2, y: SpecFp2) -> SpecFp2 {
    SpecFp2 {
        re: msub(mmul(x.re, y.re), mmul(x.im, y.im)),
        im: madd(mmul(x.re, y.im), mmul(x.im, y.re)),
    }
}

pub open spec fn fp2_double(x: SpecFp2) -> SpecFp2 {
    fp2_add(x, x)
}

/// Multiplication by the cubic non-residue `u + 1`:
/// `(u + 1) * (a + b*u) = (a - b) + (a + b)*u`.
pub open spec fn fp2_mul_xi(x: SpecFp2) -> SpecFp2 {
    SpecFp2 { re: msub(x.re, x.im), im: madd(x.re, x.im) }
}

/// Three times a value: `x + x + x`.
pub open spec fn fp2_tri(x: SpecFp2) -> SpecFp2 {
    fp2_add(fp2_add(x, x), x)
}

/// Integer denoted by six little-endian 64-bit limbs.
pub open spec fn limbs_int(s: Seq<u64>) -> int {
    s[0] + limb_base() * (s[1] + limb_base() * (s[2] + limb_base() * (s[3] + limb_base() * (
    s[4] + limb_base() * s[5]))))
}

/// Limbs denote a reduced (hence canonical Montgomery) coordinate.
pub open spec fn limbs_ok(s: Seq<u64>) -> bool {
    s.len() == 6 && limbs_int(s) < prime()
}

/// The inverse of the Montgomery factor `2^384` modulo the prime.
pub open spec fn mont_rinv() -> int {
    ((((0x14fec701e8fb0ce9 * limb_base() + 0xed5e64273c4f538b) * limb_base()
        + 0x1797ab1458a88de9) * limb_base() + 0x343ea97914956dc8) * limb_base()
        + 0x7fe11274d898fafb) * limb_base() + 0xf4d38259380b4820
}

/// The Montgomery factor `2^384 mod prime()` itself.
pub open spec fn mont_r() -> int {
    ((((0x15f65ec3fa80e493 * limb_base() + 0x5c071a97a256ec6d) * limb_base()
        + 0x77ce585370525745) * limb_base() + 0x5f48985753c758ba) * limb_base()
        + 0xebf4000bc40c0002) * limb_base() + 0x760900000002fffd
}

/// Quotient witnessing `mont_rinv() * mont_r() == mont_q() * prime() + 1`.
pub open spec fn mont_q() -> int {
    ((((0x11bb61f5cdd7885b * limb_base() + 0x1061919dc39edf74) * limb_base()
        + 0x4597c65770c5de19) * limb_base() + 0x40bb39af0fa22f3b) * limb_base()
        + 0xa98135773c70410c) * limb_base() + 0xee846ada079776dd
}

/// Canonical residue denoted by a Montgomery-form limb vector.
pub open spec fn fp_val(s: Seq<u64>) -> int {
    (limbs_int(s) * mont_rinv()) % prime()
}

/// A quadratic-extension element: two base-field coordinates in
/// Montgomery-form limbs.
#[derive(Clone, Copy, Debug, PartialEq, Eq)]
pub struct Fp2 {
    pub re: [u64; 6],
    pub im: [u64; 6],
}

impl View for Fp2 {
    type V = SpecFp2;

    open spec fn view(&self) -> SpecFp2 {
        SpecFp2 { re: fp_val(self.re@), im: fp_val(self.im@) }
    }
}

impl Fp2 {
    pub open spec fn wf(&self) -> bool {
        limbs_ok(self.re@) && limbs_ok(self.im@)
    }
}

/// A coordinate's view is always a reduced residue.
pub proof fn lemma_fp_val_in_fp(s: Seq<u64>)
    ensures
        in_fp(fp_val(s)),
{
    lemma_mod_in_fp(limbs_int(s) * mont_rinv());
}

/// A well-formed element has a well-formed view.
pub proof fn lemma_fp2_view_wf(x: Fp2)
    ensures
        fp2_wf(x@),
{
    lemma_fp_val_in_fp(x.re@);
    lemma_fp_val_in_fp(x.im@);
}

/// Relies on the backend's addition over the quadratic extension: it returns
/// the reduced coordinate-wise sum.
#[verifier::external_body]
pub(crate) fn fp2_add_raw(a: &Fp2, b: &Fp2) -> (r: Fp2)
    requires
        a.wf(),
        b.wf(),
    ensures
        r.wf(),
        r@ == fp2_add(a@, b@),
{
    let x = Fq2::new(ark_ff::Fp::new_unchecked(BigInt(a.re)), ark_ff::Fp::new_unchecked(BigInt(a.im)));
    let y = Fq2::new(ark_ff::Fp::new_unchecked(BigInt(b.re)), ark_ff::Fp::new_unchecked(BigInt(b.im)));
    let z = x + y;
    Fp2 { re: (z.c0.0).0, im: (z.c1.0).0 }
}

/// Relies on the backend's subtraction over the quadratic extension.
#[verifier::external_body]
pub(crate) fn fp2_sub_raw(a: &Fp2, b: &Fp2) -> (r: Fp2)
    requires
        a.wf(),
        b.wf(),
    ensures
        r.wf(),
        r@ == fp2_sub(a@, b@),
{
    let x = Fq2::new(ark_ff::Fp::new_unchecked(BigInt(a.re)), ark_ff::Fp::new_unchecked(BigInt(a.im)));
    let y = Fq2::new(ark_ff::Fp::new_unchecked(BigInt(b.re)), ark_ff::Fp::new_unchecked(BigInt(b.im)));
    let z = x - y;
    Fp2 { re: (z.c0.0).0, im: (z.c1.0).0 }
}

/// Relies on the backend's negation over the quadratic extension.
#[verifier::external_body]
pub(crate) fn fp2_neg_raw(a: &Fp2) -> (r: Fp2)
    requires
        a.wf(),
    ensures
        r.wf(),
        r@ == fp2_neg(a@),
{
    let x = Fq2::new(ark_ff::Fp::new_unchecked(BigInt(a.re)), ark_ff::Fp::new_unchecked(BigInt(a.im)));
    let z = -x;
    Fp2 { re: (z.c0.0).0, im: (z.c1.0).0 }
}

/// Relies on the backend's multiplication over the quadratic extension:
/// complex-style multiplication with `u^2 = -1`.
#[verifier::external_body]
pub(crate) fn fp2_mul_raw(a: &Fp2, b: &Fp2) -> (r: Fp2)
    requires
        a.wf(),
        b.wf(),
    ensures
        r.wf(),
        r@ == fp2_mul(a@, b@),
{
    let x = Fq2::new(ark_ff::Fp::new_unchecked(BigInt(a.re)), ark_ff::Fp::new_unchecked(BigInt(a.im)));
    let y = Fq2::new(ark_ff::Fp::new_unchecked(BigInt(b.re)), ark_ff::Fp::new_unchecked(BigInt(b.im)));
    let z = x * y;
    Fp2 { re: (z.c0.0).0, im: (z.c1.0).0 }
}

/// Relies on the backend's squaring: the square equals the self-product.
#[verifier::external_body]
pub(crate) fn fp2_square_raw(a: &Fp2) -> (r: Fp2)
    requires
        a.wf(),
    ensures
        r.wf(),
        r@ == fp2_mul(a@, a@),
{
    let x = Fq2::new(ark_ff::Fp::new_unchecked(BigInt(a.re)), ark_ff::Fp::new_unchecked(BigInt(a.im)));
    let z = x.square();
    Fp2 { re: (z.c0.0).0, im: (z.c1.0).0 }
}

/// Relies on the backend's conjugation: it negates the `u` coordinate.
#[verifier::external_body]
pub(crate) fn fp2_conjugate_raw(a: &Fp2) -> (r: Fp2)
    requires
        a.wf(),
    ensures
        r.wf(),
        r@ == fp2_conj(a@),
{
    let mut z = Fq2::new(ark_ff::Fp::new_unchecked(BigInt(a.re)), ark_ff::Fp::new_unchecked(BigInt(a.im)));
    z.conjugate_in_place();
    Fp2 { re: (z.c0.0).0, im: (z.c1.0).0 }
}

/// Relies on the backend's multiplication by the cubic non-residue `u + 1`.
#[verifier::external_body]
pub(crate) fn fp2_mul_xi_raw(a: &Fp2) -> (r: Fp2)
    requires
        a.wf(),
    ensures
        r.wf(),
        r@ == fp2_mul_xi(a@),
{
    let x = Fq2::new(ark_ff::Fp::new_unchecked(BigInt(a.re)), ark_ff::Fp::new_unchecked(BigInt(a.im)));
    let z = Fq6Config::mul_fp2_by_nonresidue(x);
    Fp2 { re: (z.c0.0).0, im: (z.c1.0).0 }
}

/// Relies on the backend's reduction of a 512-bit little-endian integer to a
/// base-field residue.
#[verifier::external_body]
pub(crate) fn fp_from_wide_bytes(b: &[u8; 64]) -> (r: [u64; 6])
    ensures
        limbs_ok(r@),
        fp_val(r@) == bytes_int(b@) % prime(),
{
    let f: ark_bls12_381::Fq = ark_ff::Fp::from_le_bytes_mod_order(b);
    (f.0).0
}

/// Integer denoted by a little-endian byte string.
pub open spec fn bytes_int(s: Seq<u8>) -> int
    decreases s.len(),
{
    if s.len() == 0 {
        0
    } else {
        s[0] + 256 * bytes_int(s.skip(1))
    }
}

impl Fp2 {
    /// The additive identity.
    pub fn zero() -> (r: Fp2)
        ensures
            r.wf(),
            r@ == fp2_zero(),
    {
        let r = Fp2 { re: [0u64; 6], im: [0u64; 6] };
        proof {
            assert(limbs_int(r.re@) == 0);
            assert(fp_val(r.re@) == 0) by {
                lemma_reduced(0);
            }
        }
        r
    }

    /// The multiplicative identity: one in Montgomery form is the factor
    /// `2^384 mod prime()` itself.
    pub fn one() -> (r: Fp2)
        ensures
            r.wf(),
            r@ == fp2_one(),
    {
        let r = Fp2 {
            re: [0x760900000002fffd, 0xebf4000bc40c0002, 0x5f48985753c758ba,
                 0x77ce585370525745, 0x5c071a97a256ec6d, 0x15f65ec3fa80e493],
            im: [0u64; 6],
        };
        proof {
            assert(limbs_int(r.re@) == mont_r());
            assert(limbs_int(r.im@) == 0);
            lemma_mont_product_one();
            assert(fp_val(r.im@) == 0) by {
                lemma_reduced(0);
            }
        }
        r
    }

    /// Build an element from backend limb vectors.  The limbs must denote
    /// reduced coordinates in Montgomery form.
    pub fn from_montgomery_limbs(re: [u64; 6], im: [u64; 6]) -> (r: Fp2)
        requires
            limbs_ok(re@),
            limbs_ok(im@),
        ensures
            r.wf(),
            r@ == (SpecFp2 { re: fp_val(re@), im: fp_val(im@) }),
    {
        Fp2 { re, im }
    }

    /// The backend limb vectors of the two coordinates.
    pub fn montgomery_limbs(&self) -> (r: ([u64; 6], [u64; 6]))
        ensures
            r.0@ == self.re@,
            r.1@ == self.im@,
    {
        (self.re, self.im)
    }

    /// Reduce a pair of 512-bit little-endian integers to an element; the
    /// seam through which callers supply externally drawn randomness.
    pub fn from_wide_bytes(re: &[u8; 64], im: &[u8; 64]) -> (r: Fp2)
        ensures
            r.wf(),
            r@ == (SpecFp2 {
                re: bytes_int(re@) % prime(),
                im: bytes_int(im@) % prime(),
            }),
    {
        Fp2 { re: fp_from_wide_bytes(re), im: fp_from_wide_bytes(im) }
    }
}

/// The Montgomery factor and its inverse cancel modulo the prime.
pub proof fn lemma_mont_product_one()
    ensures
        (mont_r() * mont_rinv()) % prime() == 1,
{
    assert(mont_r() * mont_rinv() == mont_q() * prime() + 1) by (nonlinear_arith);
    vstd::arithmetic::div_mod::lemma_fundamental_div_mod_converse_mod(
        mont_r() * mont_rinv(), prime(), mont_q(), 1);
}

/// Two reduced Montgomery limb vectors with the same residue denote the same
/// integer: the Montgomery scaling is a bijection of the field.
pub proof fn lemma_fp_val_injective(a: Seq<u64>, b: Seq<u64>)
    requires
        limbs_ok(a),
        limbs_ok(b),
        fp_val(a) == fp_val(b),
    ensures
        limbs_int(a) == limbs_int(b),
{
    lemma_mont_cancel(limbs_int(a));
    lemma_mont_cancel(limbs_int(b));
    assert(mmul(fp_val(a), mont_r()) == mmul(fp_val(b), mont_r()));
}

/// Multiplying a residue's Montgomery form by the factor recovers it.
proof fn lemma_mont_cancel(x: int)
    requires
        0 <= x < prime(),
    ensures
        mmul((x * mont_rinv()) % prime(), mont_r()) == x,
{
    assert(in_fp(mont_r()));
    lemma_reduced(mont_r());
    lemma_mmul_collapse(x * mont_rinv(), mont_r());
    assert(mmul((x * mont_rinv()) % prime(), mont_r()) == (x * mont_rinv() * mont_r())
        % prime());
    assert(mont_rinv() * mont_r() == mont_q() * prime() + 1) by (nonlinear_arith);
    assert(x * mont_rinv() * mont_r() == prime() * (x * mont_q()) + x) by (nonlinear_arith)
        requires
            mont_rinv() * mont_r() == mont_q() * prime() + 1,
    ;
    vstd::arithmetic::div_mod::lemma_mod_multiples_vanish(x * mont_q(), x, prime());
    lemma_reduced(x);
}

/// Six base-2^64 digits denote distinct integers unless they are equal
/// digit for digit.
pub proof fn lemma_limbs_int_injective(a: Seq<u64>, b: Seq<u64>)
    requires
        a.len() == 6,
        b.len() == 6,
        limbs_int(a) == limbs_int(b),
    ensures
        a =~= b,
{
    lemma_digit_split(a[0] as int, a[1] + limb_base() * (a[2] + limb_base() * (a[3]
        + limb_base() * (a[4] + limb_base() * a[5]))));
    lemma_digit_split(b[0] as int, b[1] + limb_base() * (b[2] + limb_base() * (b[3]
        + limb_base() * (b[4] + limb_base() * b[5]))));
    lemma_digit_split(a[1] as int, a[2] + limb_base() * (a[3] + limb_base() * (a[4]
        + limb_base() * a[5])));
    lemma_digit_split(b[1] as int, b[2] + limb_base() * (b[3] + limb_base() * (b[4]
        + limb_base() * b[5])));
    lemma_digit_split(a[2] as int, a[3] + limb_base() * (a[4] + limb_base() * a[5]));
    lemma_digit_split(b[2] as int, b[3] + limb_base() * (b[4] + limb_base() * b[5]));
    lemma_digit_split(a[3] as int, a[4] + limb_base() * a[5]);
    lemma_digit_split(b[3] as int, b[4] + limb_base() * b[5]);
    lemma_digit_split(a[4] as int, a[5] as int);
    lemma_digit_split(b[4] as int, b[5] as int);
}

/// A digit plus a shifted rest determines both uniquely.
proof fn lemma_digit_split(d: int, rest: int)
    requires
        0 <= d < limb_base(),
        0 <= rest,
    ensures
        (d + limb_base() * rest) % limb_base() == d,
        (d + limb_base() * rest) / limb_base() == rest,
{
    vstd::arithmetic::div_mod::lemma_fundamental_div_mod_converse(
        d + limb_base() * rest, limb_base(), rest, d);
}

/// Branch-free comparison of two limb vectors: the accumulated XOR of all
/// limb pairs is zero exactly when the vectors are equal.
pub(crate) fn limbs_eq(x: &[u64; 6], y: &[u64; 6]) -> (r: bool)
    ensures
        r <==> x@ =~= y@,
{
    let d0: u64 = x[0] ^ y[0];
    let d1: u64 = x[1] ^ y[1];
    let d2: u64 = x[2] ^ y[2];
    let d3: u64 = x[3] ^ y[3];
    let d4: u64 = x[4] ^ y[4];
    let d5: u64 = x[5] ^ y[5];
    let acc: u64 = d0 | d1 | d2 | d3 | d4 | d5;
    proof {
        lemma_xor_zero(x@[0], y@[0]);
        lemma_xor_zero(x@[1], y@[1]);
        lemma_xor_zero(x@[2], y@[2]);
        lemma_xor_zero(x@[3], y@[3]);
        lemma_xor_zero(x@[4], y@[4]);
        lemma_xor_zero(x@[5], y@[5]);
        assert((d0 | d1 | d2 | d3 | d4 | d5) == 0 <==> (d0 == 0 && d1 == 0 && d2 == 0
            && d3 == 0 && d4 == 0 && d5 == 0)) by (bit_vector);
    }
    acc == 0
}

/// XOR of two words vanishes exactly on equality.
proof fn lemma_xor_zero(x: u64, y: u64)
    ensures
        (x ^ y) == 0 <==> x == y,
{
    assert((x ^ y) == 0 <==> x == y) by (bit_vector);
}

/// Branch-free selection between two limb vectors by a mask that is either
/// all-zero (keep `x`) or all-one (take `y`).
pub(crate) fn limbs_select(x: &[u64; 6], y: &[u64; 6], mask: u64) -> (r: [u64; 6])
    requires
        mask == 0 || mask == 0xffffffffffffffffu64,
    ensures
        mask == 0 ==> r@ =~= x@,
        mask != 0 ==> r@ =~= y@,
{
    let r = [
        (x[0] & !mask) | (y[0] & mask),
        (x[1] & !mask) | (y[1] & mask),
        (x[2] & !mask) | (y[2] & mask),
        (x[3] & !mask) | (y[3] & mask),
        (x[4] & !mask) | (y[4] & mask),
        (x[5] & !mask) | (y[5] & mask),
    ];
    proof {
        lemma_mask_select(x@[0], y@[0], mask);
        lemma_mask_select(x@[1], y@[1], mask);
        lemma_mask_select(x@[2], y@[2], mask);
        lemma_mask_select(x@[3], y@[3], mask);
        lemma_mask_select(x@[4], y@[4], mask);
        lemma_mask_select(x@[5], y@[5], mask);
    }
    r
}

/// Masked combination picks one operand when the mask is degenerate.
proof fn lemma_mask_select(x: u64, y: u64, mask: u64)
    ensures
        mask == 0 ==> ((x & !mask) | (y & mask)) == x,
        mask == 0xffffffffffffffffu64 ==> ((x & !mask) | (y & mask)) == y,
{
    assert(mask == 0 ==> ((x & !mask) | (y & mask)) == x) by (bit_vector);
    assert(mask == 0xffffffffffffffffu64 ==> ((x & !mask) | (y & mask)) == y)
        by (bit_vector);
}

impl Fp2 {
    /// Constant-time equality: true exactly when the two views coincide.
    pub(crate) fn ct_eq(&self, o: &Fp2) -> (r: bool)
        requires
            self.wf(),
            o.wf(),
        ensures
            r <==> self@ == o@,
    {
        let e_re = limbs_eq(&self.re, &o.re);
        let e_im = limbs_eq(&self.im, &o.im);
        proof {
            if self@ == o@ {
                lemma_fp_val_injective(self.re@, o.re@);
                lemma_limbs_int_injective(self.re@, o.re@);
                lemma_fp_val_injective(self.im@, o.im@);
                lemma_limbs_int_injective(self.im@, o.im@);
            }
        }
        e_re && e_im
    }

    /// Branch-free selection: keep `a` on a zero mask, take `b` on an
    /// all-one mask.  Both operands are combined limb by limb whatever the
    /// mask is.
    pub(crate) fn select(a: &Fp2, b: &Fp2, mask: u64) -> (r: Fp2)
        requires
            mask == 0 || mask == 0xffffffffffffffffu64,
            a.wf(),
            b.wf(),
        ensures
            r.wf(),
            mask == 0 ==> r@ == a@,
            mask != 0 ==> r@ == b@,
    {
        Fp2 {
            re: limbs_select(&a.re, &b.re, mask),
            im: limbs_select(&a.im, &b.im, mask),
        }
    }
}


/// The square of a sum, less the two squares, is twice the product:
/// `(a + b)^2 - a^2 - b^2 == 2*a*b`.
pub proof fn lemma_fp2_sq_sum(a: SpecFp2, b: SpecFp2)
    requires
        fp2_wf(a),
        fp2_wf(b),
    ensures
        fp2_sub(fp2_sub(fp2_mul(fp2_add(a, b), fp2_add(a, b)), fp2_mul(a, a)), fp2_mul(b, b))
            == fp2_double(fp2_mul(a, b)),
{
    let (ar, ai, br, bi) = (a.re, a.im, b.re, b.im);
    lemma_reduced(ar);
    lemma_reduced(ai);
    lemma_reduced(br);
    lemma_reduced(bi);
    lemma_mmul_collapse(ar + br, ar + br);
    lemma_mmul_collapse(ai + bi, ai + bi);
    lemma_mmul_collapse(ar + br, ai + bi);
    lemma_mmul_collapse(ai + bi, ar + br);
    lemma_msub_collapse((ar + br) * (ar + br), (ai + bi) * (ai + bi));
    lemma_madd_collapse((ar + br) * (ai + bi), (ai + bi) * (ar + br));
    lemma_mmul_collapse(ar, ar);
    lemma_mmul_collapse(ai, ai);
    lemma_mmul_collapse(br, br);
    lemma_mmul_collapse(bi, bi);
    lemma_mmul_collapse(ar, ai);
    lemma_mmul_collapse(ai, ar);
    lemma_mmul_collapse(br, bi);
    lemma_mmul_collapse(bi, br);
    lemma_mmul_collapse(ar, br);
    lemma_mmul_collapse(ai, bi);
    lemma_mmul_collapse(ar, bi);
    lemma_mmul_collapse(ai, br);
    lemma_msub_collapse(ar * ar, ai * ai);
    lemma_msub_collapse(br * br, bi * bi);
    lemma_madd_collapse(ar * ai, ai * ar);
    lemma_madd_collapse(br * bi, bi * br);
    lemma_msub_collapse(ar * br, ai * bi);
    lemma_madd_collapse(ar * bi, ai * br);
    lemma_msub_collapse(
        (ar + br) * (ar + br) - (ai + bi) * (ai + bi),
        ar * ar - ai * ai,
    );
    lemma_msub_collapse(
        (ar + br) * (ar + br) - (ai + bi) * (ai + bi) - (ar * ar - ai * ai),
        br * br - bi * bi,
    );
    lemma_msub_collapse(
        (ar + br) * (ai + bi) + (ai + bi) * (ar + br),
        ar * ai + ai * ar,
    );
    lemma_msub_collapse(
        (ar + br) * (ai + bi) + (ai + bi) * (ar + br) - (ar * ai + ai * ar),
        br * bi + bi * br,
    );
    lemma_madd_collapse(ar * br - ai * bi, ar * br - ai * bi);
    lemma_madd_collapse(ar * bi + ai * br, ar * bi + ai * br);
    assert((ar + br) * (ar + br) - (ai + bi) * (ai + bi) - (ar * ar - ai * ai) - (br * br
        - bi * bi) == (ar * br - ai * bi) + (ar * br - ai * bi)) by (nonlinear_arith);
    assert((ar + br) * (ai + bi) + (ai + bi) * (ar + br) - (ar * ai + ai * ar) - (br * bi
        + bi * br) == (ar * bi + ai * br) + (ar * bi + ai * br)) by (nonlinear_arith);
}

/// Linear reshuffle used by the cyclotomic square on the first half:
/// `2*((g0 + g1) - x) + (g0 + g1) == (3*g0 + 3*g1) - 2*x`.
pub proof fn lemma_fp2_three_sub(g0: SpecFp2, g1: SpecFp2, x: SpecFp2)
    requires
        fp2_wf(g0),
        fp2_wf(g1),
        fp2_wf(x),
    ensures
        fp2_add(fp2_double(fp2_sub(fp2_add(g0, g1), x)), fp2_add(g0, g1))
            == fp2_sub(fp2_add(fp2_tri(g0), fp2_tri(g1)), fp2_double(x)),
{
    lemma_fp2_three_sub_coord(g0.re, g1.re, x.re);
    lemma_fp2_three_sub_coord(g0.im, g1.im, x.im);
}

proof fn lemma_fp2_three_sub_coord(g0: int, g1: int, x: int)
    requires
        in_fp(g0),
        in_fp(g1),
        in_fp(x),
    ensures
        madd(madd(msub(madd(g0, g1), x), msub(madd(g0, g1), x)), madd(g0, g1))
            == msub(madd(madd(madd(g0, g0), g0), madd(madd(g1, g1), g1)), madd(x, x)),
{
    lemma_reduced(g0);
    lemma_reduced(g1);
    lemma_reduced(x);
    lemma_madd_collapse(g0, g1);
    lemma_msub_collapse(g0 + g1, x);
    lemma_madd_collapse(g0 + g1 - x, g0 + g1 - x);
    lemma_madd_collapse(g0 + g1 - x + (g0 + g1 - x), g0 + g1);
    lemma_madd_collapse(g0, g0);
    lemma_madd_collapse(g0 + g0, g0);
    lemma_madd_collapse(g1, g1);
    lemma_madd_collapse(g1 + g1, g1);
    lemma_madd_collapse(g0 + g0 + g0, g1 + g1 + g1);
    lemma_madd_collapse(x, x);
    lemma_msub_collapse(g0 + g0 + g0 + (g1 + g1 + g1), x + x);
}

/// Linear reshuffle used by the cyclotomic square on the second half:
/// `2*(t + x) + t == 3*t + 2*x`.
pub proof fn lemma_fp2_three_add(t: SpecFp2, x: SpecFp2)
    requires
        fp2_wf(t),
        fp2_wf(x),
    ensures
        fp2_add(fp2_double(fp2_add(t, x)), t) == fp2_add(fp2_tri(t), fp2_double(x)),
{
    lemma_fp2_three_add_coord(t.re, x.re);
    lemma_fp2_three_add_coord(t.im, x.im);
}

proof fn lemma_fp2_three_add_coord(t: int, x: int)
    requires
        in_fp(t),
        in_fp(x),
    ensures
        madd(madd(madd(t, x), madd(t, x)), t) == madd(madd(madd(t, t), t), madd(x, x)),
{
    lemma_reduced(t);
    lemma_reduced(x);
    lemma_madd_collapse(t, x);
    lemma_madd_collapse(t + x, t + x);
    lemma_madd_collapse(t + x + (t + x), t);
    lemma_madd_collapse(t, t);
    lemma_madd_collapse(t + t, t);
    lemma_madd_collapse(x, x);
    lemma_madd_collapse(t + t + t, x + x);
}

/// A product of three factors regrouped both ways.
proof fn lemma_triple_regroup(x: int, y: int, z: int)
    ensures
        (x * y) * z == x * (y * z),
{
    vstd::arithmetic::mul::lemma_mul_is_associative(x, y, z);
}

/// Multiplication in the quadratic extension is associative.
pub proof fn lemma_fp2_mul_assoc(x: SpecFp2, a: SpecFp2, b: SpecFp2)
    requires
        fp2_wf(x),
        fp2_wf(a),
        fp2_wf(b),
    ensures
        fp2_mul(fp2_mul(x, a), b) == fp2_mul(x, fp2_mul(a, b)),
{
    let (xr, xi, ar, ai, br, bi) = (x.re, x.im, a.re, a.im, b.re, b.im);
    lemma_reduced(xr);
    lemma_reduced(xi);
    lemma_reduced(ar);
    lemma_reduced(ai);
    lemma_reduced(br);
    lemma_reduced(bi);
    lemma_mmul_collapse(xr, ar);
    lemma_mmul_collapse(xi, ai);
    lemma_mmul_collapse(xr, ai);
    lemma_mmul_collapse(xi, ar);
    lemma_msub_collapse(xr * ar, xi * ai);
    lemma_madd_collapse(xr * ai, xi * ar);
    lemma_mmul_collapse(xr * ar - xi * ai, br);
    lemma_mmul_collapse(xr * ai + xi * ar, bi);
    lemma_mmul_collapse(xr * ar - xi * ai, bi);
    lemma_mmul_collapse(xr * ai + xi * ar, br);
    lemma_msub_collapse((xr * ar - xi * ai) * br, (xr * ai + xi * ar) * bi);
    lemma_madd_collapse((xr * ar - xi * ai) * bi, (xr * ai + xi * ar) * br);
    lemma_mmul_collapse(ar, br);
    lemma_mmul_collapse(ai, bi);
    lemma_mmul_collapse(ar, bi);
    lemma_mmul_collapse(ai, br);
    lemma_msub_collapse(ar * br, ai * bi);
    lemma_madd_collapse(ar * bi, ai * br);
    lemma_mmul_collapse(xr, ar * br - ai * bi);
    lemma_mmul_collapse(xi, ar * bi + ai * br);
    lemma_mmul_collapse(xr, ar * bi + ai * br);
    lemma_mmul_collapse(xi, ar * br - ai * bi);
    lemma_msub_collapse(xr * (ar * br - ai * bi), xi * (ar * bi + ai * br));
    lemma_madd_collapse(xr * (ar * bi + ai * br), xi * (ar * br - ai * bi));
    lemma_triple_regroup(xr, ar, br);
    lemma_triple_regroup(xi, ai, br);
    lemma_triple_regroup(xr, ai, bi);
    lemma_triple_regroup(xi, ar, bi);
    lemma_triple_regroup(xr, ar, bi);
    lemma_triple_regroup(xi, ai, bi);
    lemma_triple_regroup(xr, ai, br);
    lemma_triple_regroup(xi, ar, br);
    vstd::arithmetic::mul::lemma_mul_is_distributive_sub_other_way(br, xr * ar, xi * ai);
    vstd::arithmetic::mul::lemma_mul_is_distributive_add_other_way(bi, xr * ai, xi * ar);
    vstd::arithmetic::mul::lemma_mul_is_distributive_sub_other_way(bi, xr * ar, xi * ai);
    vstd::arithmetic::mul::lemma_mul_is_distributive_add_other_way(br, xr * ai, xi * ar);
    vstd::arithmetic::mul::lemma_mul_is_distributive_sub(xr, ar * br, ai * bi);
    vstd::arithmetic::mul::lemma_mul_is_distributive_add(xi, ar * bi, ai * br);
    vstd::arithmetic::mul::lemma_mul_is_distributive_add(xr, ar * bi, ai * br);
    vstd::arithmetic::mul::lemma_mul_is_distributive_sub(xi, ar * br, ai * bi);
}

/// One is a right identity of multiplication.
pub proof fn lemma_fp2_mul_one(x: SpecFp2)
    requires
        fp2_wf(x),
    ensures
        fp2_mul(x, fp2_one()) == x,
        fp2_mul(fp2_one(), x) == x,
{
    lemma_reduced(x.re);
    lemma_reduced(x.im);
    lemma_mmul_collapse(x.re, 1);
    lemma_mmul_collapse(x.im, 1);
    lemma_mmul_collapse(x.re, 0);
    lemma_mmul_collapse(x.im, 0);
    lemma_mmul_collapse(1, x.re);
    lemma_mmul_collapse(1, x.im);
    lemma_mmul_collapse(0, x.re);
    lemma_mmul_collapse(0, x.im);
    lemma_reduced(0);
    lemma_reduced(1);
    lemma_msub_collapse(x.re, 0);
    lemma_madd_collapse(0, x.im);
    lemma_madd_collapse(x.im, 0);
}

/// Zero annihilates multiplication and is the additive identity.
pub proof fn lemma_fp2_mul_zero(x: SpecFp2)
    requires
        fp2_wf(x),
    ensures
        fp2_mul(x, fp2_zero()) == fp2_zero(),
        fp2_mul(fp2_zero(), x) == fp2_zero(),
{
    lemma_reduced(x.re);
    lemma_reduced(x.im);
    lemma_reduced(0);
    lemma_mmul_collapse(x.re, 0);
    lemma_mmul_collapse(x.im, 0);
    lemma_mmul_collapse(0, x.re);
    lemma_mmul_collapse(0, x.im);
    lemma_msub_collapse(0, 0);
    lemma_madd_collapse(0, 0);
}

/// Zero is the additive identity on both sides.
pub proof fn lemma_fp2_add_zero(x: SpecFp2)
    requires
        fp2_wf(x),
    ensures
        fp2_add(x, fp2_zero()) == x,
        fp2_add(fp2_zero(), x) == x,
{
    lemma_reduced(x.re);
    lemma_reduced(x.im);
    lemma_madd_collapse(x.re, 0);
    lemma_madd_collapse(x.im, 0);
    lemma_madd_collapse(0, x.re);
    lemma_madd_collapse(0, x.im);
}

/// The negation of a value is its additive inverse.
pub proof fn lemma_fp2_neg_add(x: SpecFp2)
    requires
        fp2_wf(x),
    ensures
        fp2_add(fp2_neg(x), x) == fp2_zero(),
{
    lemma_reduced(x.re);
    lemma_reduced(x.im);
    lemma_mneg_collapse(x.re);
    lemma_mneg_collapse(x.im);
    lemma_madd_collapse(0 - x.re, x.re);
    lemma_madd_collapse(0 - x.im, x.im);
    lemma_reduced(0);
}

/// The non-residue multiple of zero is zero.
pub proof fn lemma_fp2_mul_xi_zero()
    ensures
        fp2_mul_xi(fp2_zero()) == fp2_zero(),
{
    lemma_reduced(0);
    lemma_msub_collapse(0, 0);
    lemma_madd_collapse(0, 0);
}

/// Results of the reducing operations are always well-formed.
pub proof fn lemma_fp2_ops_wf(a: SpecFp2, b: SpecFp2)
    ensures
        fp2_wf(fp2_add(a, b)),
        fp2_wf(fp2_sub(a, b)),
        fp2_wf(fp2_mul(a, b)),
        fp2_wf(fp2_mul_xi(a)),
{
    lemma_mod_in_fp(a.re + b.re);
    lemma_mod_in_fp(a.im + b.im);
    lemma_mod_in_fp(a.re - b.re);
    lemma_mod_in_fp(a.im - b.im);
    lemma_mod_in_fp(mmul(a.re, b.re) - mmul(a.im, b.im));
    lemma_mod_in_fp(mmul(a.re, b.im) + mmul(a.im, b.re));
    lemma_mod_in_fp(a.re - a.im);
    lemma_mod_in_fp(a.re + a.im);
}

/// Multiplication is commutative.
pub proof fn lemma_fp2_mul_comm(a: SpecFp2, b: SpecFp2)
    ensures
        fp2_mul(a, b) == fp2_mul(b, a),
{
    assert(fp2_mul(a, b).re == fp2_mul(b, a).re);
    assert(fp2_mul(a, b).im == fp2_mul(b, a).im);
}

/// Multiplication distributes over addition on the left factor.
pub proof fn lemma_fp2_mul_distrib(a: SpecFp2, b: SpecFp2, c: SpecFp2)
    requires
        fp2_wf(a),
        fp2_wf(b),
        fp2_wf(c),
    ensures
        fp2_mul(fp2_add(a, b), c) == fp2_add(fp2_mul(a, c), fp2_mul(b, c)),
{
    let (ar, ai, br, bi, cr, ci) = (a.re, a.im, b.re, b.im, c.re, c.im);
    lemma_reduced(ar);
    lemma_reduced(ai);
    lemma_reduced(br);
    lemma_reduced(bi);
    lemma_reduced(cr);
    lemma_reduced(ci);
    lemma_mmul_collapse(ar + br, cr);
    lemma_mmul_collapse(ai + bi, ci);
    lemma_mmul_collapse(ar + br, ci);
    lemma_mmul_collapse(ai + bi, cr);
    lemma_msub_collapse((ar + br) * cr, (ai + bi) * ci);
    lemma_madd_collapse((ar + br) * ci, (ai + bi) * cr);
    lemma_mmul_collapse(ar, cr);
    lemma_mmul_collapse(ai, ci);
    lemma_mmul_collapse(br, cr);
    lemma_mmul_collapse(bi, ci);
    lemma_mmul_collapse(ar, ci);
    lemma_mmul_collapse(ai, cr);
    lemma_mmul_collapse(br, ci);
    lemma_mmul_collapse(bi, cr);
    lemma_msub_collapse(ar * cr, ai * ci);
    lemma_msub_collapse(br * cr, bi * ci);
    lemma_madd_collapse(ar * ci, ai * cr);
    lemma_madd_collapse(br * ci, bi * cr);
    lemma_madd_collapse(ar * cr - ai * ci, br * cr - bi * ci);
    lemma_madd_collapse(ar * ci + ai * cr, br * ci + bi * cr);
    assert((ar + br) * cr - (ai + bi) * ci == (ar * cr - ai * ci) + (br * cr - bi * ci))
        by (nonlinear_arith);
    assert((ar + br) * ci + (ai + bi) * cr == (ar * ci + ai * cr) + (br * ci + bi * cr))
        by (nonlinear_arith);
}

/// The non-residue multiple distributes over addition.
pub proof fn lemma_fp2_mul_xi_add(a: SpecFp2, b: SpecFp2)
    requires
        fp2_wf(a),
        fp2_wf(b),
    ensures
        fp2_mul_xi(fp2_add(a, b)) == fp2_add(fp2_mul_xi(a), fp2_mul_xi(b)),
{
    lemma_reduced(a.re);
    lemma_reduced(a.im);
    lemma_reduced(b.re);
    lemma_reduced(b.im);
    lemma_msub_collapse(a.re + b.re, a.im + b.im);
    lemma_madd_collapse(a.re + b.re, a.im + b.im);
    lemma_msub_collapse(a.re, a.im);
    lemma_msub_collapse(b.re, b.im);
    lemma_madd_collapse(a.re, a.im);
    lemma_madd_collapse(b.re, b.im);
    lemma_madd_collapse(a.re - a.im, b.re - b.im);
    lemma_madd_collapse(a.re + a.im, b.re + b.im);
}

/// Four summands regrouped pairwise.
pub proof fn lemma_fp2_regroup4(p: SpecFp2, q: SpecFp2, r: SpecFp2, s: SpecFp2)
    requires
        fp2_wf(p),
        fp2_wf(q),
        fp2_wf(r),
        fp2_wf(s),
    ensures
        fp2_add(fp2_add(p, q), fp2_add(r, s)) == fp2_add(fp2_add(p, r), fp2_add(q, s)),
{
    lemma_regroup4_coord(p.re, q.re, r.re, s.re);
    lemma_regroup4_coord(p.im, q.im, r.im, s.im);
}

proof fn lemma_regroup4_coord(p: int, q: int, r: int, s: int)
    requires
        in_fp(p),
        in_fp(q),
        in_fp(r),
        in_fp(s),
    ensures
        madd(madd(p, q), madd(r, s)) == madd(madd(p, r), madd(q, s)),
{
    lemma_reduced(p);
    lemma_reduced(q);
    lemma_reduced(r);
    lemma_reduced(s);
    lemma_madd_collapse(p, q);
    lemma_madd_collapse(r, s);
    lemma_madd_collapse(p, r);
    lemma_madd_collapse(q, s);
    lemma_madd_collapse(p + q, r + s);
    lemma_madd_collapse(p + r, q + s);
}

/// Six summands regrouped into their two interleaved triples.
pub proof fn lemma_fp2_regroup6(
    p1: SpecFp2, p2: SpecFp2, p3: SpecFp2, q1: SpecFp2, q2: SpecFp2, q3: SpecFp2,
)
    requires
        fp2_wf(p1),
        fp2_wf(p2),
        fp2_wf(p3),
        fp2_wf(q1),
        fp2_wf(q2),
        fp2_wf(q3),
    ensures
        fp2_add(fp2_add(fp2_add(p1, q1), fp2_add(p2, q2)), fp2_add(p3, q3)) == fp2_add(
            fp2_add(fp2_add(p1, p2), p3), fp2_add(fp2_add(q1, q2), q3)),
{
    lemma_regroup6_coord(p1.re, p2.re, p3.re, q1.re, q2.re, q3.re);
    lemma_regroup6_coord(p1.im, p2.im, p3.im, q1.im, q2.im, q3.im);
}

proof fn lemma_regroup6_coord(p1: int, p2: int, p3: int, q1: int, q2: int, q3: int)
    requires
        in_fp(p1),
        in_fp(p2),
        in_fp(p3),
        in_fp(q1),
        in_fp(q2),
        in_fp(q3),
    ensures
        madd(madd(madd(p1, q1), madd(p2, q2)), madd(p3, q3)) == madd(madd(madd(p1, p2), p3),
            madd(madd(q1, q2), q3)),
{
    lemma_reduced(p1);
    lemma_reduced(p2);
    lemma_reduced(p3);
    lemma_reduced(q1);
    lemma_reduced(q2);
    lemma_reduced(q3);
    lemma_madd_collapse(p1, q1);
    lemma_madd_collapse(p2, q2);
    lemma_madd_collapse(p1 + q1, p2 + q2);
    lemma_madd_collapse(p3, q3);
    lemma_madd_collapse(p1 + q1 + (p2 + q2), p3 + q3);
    lemma_madd_collapse(p1, p2);
    lemma_madd_collapse(p1 + p2, p3);
    lemma_madd_collapse(q1, q2);
    lemma_madd_collapse(q1 + q2, q3);
    lemma_madd_collapse(p1 + p2 + p3, q1 + q2 + q3);
}

/// The Karatsuba cancellation: the cross terms of a product of sums remain
/// after the two plain products are taken back out.
pub proof fn lemma_fp2_karatsuba_cancel(
    p00: SpecFp2, p01: SpecFp2, p10: SpecFp2, p11: SpecFp2,
)
    requires
        fp2_wf(p00),
        fp2_wf(p01),
        fp2_wf(p10),
        fp2_wf(p11),
    ensures
        fp2_sub(fp2_sub(fp2_add(fp2_add(p00, p01), fp2_add(p10, p11)), p00), p11) == fp2_add(
            p01, p10),
{
    lemma_karatsuba_cancel_coord(p00.re, p01.re, p10.re, p11.re);
    lemma_karatsuba_cancel_coord(p00.im, p01.im, p10.im, p11.im);
}

proof fn lemma_karatsuba_cancel_coord(p00: int, p01: int, p10: int, p11: int)
    requires
        in_fp(p00),
        in_fp(p01),
        in_fp(p10),
        in_fp(p11),
    ensures
        msub(msub(madd(madd(p00, p01), madd(p10, p11)), p00), p11) == madd(p01, p10),
{
    lemma_reduced(p00);
    lemma_reduced(p01);
    lemma_reduced(p10);
    lemma_reduced(p11);
    lemma_madd_collapse(p00, p01);
    lemma_madd_collapse(p10, p11);
    lemma_madd_collapse(p00 + p01, p10 + p11);
    lemma_msub_collapse(p00 + p01 + (p10 + p11), p00);
    lemma_msub_collapse(p01 + (p10 + p11), p11);
    lemma_madd_collapse(p01, p10);
}

} // verus!


