//! The degree-12 field `c0 + c1*w`, `w^2 = v`, over the cubic extension,
//! together with the Frobenius endomorphism, the cyclotomic exponentiation
//! chain, the subgroup membership tests and torus-based compression.

use vstd::prelude::*;
use ark_bls12_381::{Fq12, Fq2, Fq6};
use ark_ff::{BigInt, Field, Fp};
use crate::fp2::{
    fp2_add, fp2_add_raw, fp2_conj, fp2_double, fp2_mul, fp2_mul_raw, fp2_mul_xi,
    fp2_mul_xi_raw, fp2_one, fp2_square_raw, fp2_sub, fp2_sub_raw, fp2_tri, fp2_zero,
    lemma_fp2_sq_sum, lemma_fp2_three_add, lemma_fp2_three_sub, lemma_fp2_view_wf, Fp2,
    SpecFp2,
};
use crate::fp6::{
    fp6_add, fp6_frob, fp6_inv_raw, fp6_mul, fp6_mul_by_v, fp6_mul_raw, fp6_neg, fp6_one,
    fp6_sub, fp6_wf, fp6_zero, Fp6, SpecFp6,
};
use crate::modular::prime;
use crate::tables::{frob12_c, frob12_c_entry, gamma1, gamma1_entry, gamma2, gamma2_entry};

verus! {

/// Spec-level value of a degree-12 field element.
pub ghost struct SpecFp12 {
    pub c0: SpecFp6,
    pub c1: SpecFp6,
}

pub open spec fn fp12_wf(x: SpecFp12) -> bool {
    fp6_wf(x.c0) && fp6_wf(x.c1)
}

pub open spec fn fp12_zero() -> SpecFp12 {
    SpecFp12 { c0: fp6_zero(), c1: fp6_zero() }
}

pub open spec fn fp12_one() -> SpecFp12 {
    SpecFp12 { c0: fp6_one(), c1: fp6_zero() }
}

pub open spec fn fp12_add(x: SpecFp12, y: SpecFp12) -> SpecFp12 {
    SpecFp12 { c0: fp6_add(x.c0, y.c0), c1: fp6_add(x.c1, y.c1) }
}

pub open spec fn fp12_sub(x: SpecFp12, y: SpecFp12) -> SpecFp12 {
    SpecFp12 { c0: fp6_sub(x.c0, y.c0), c1: fp6_sub(x.c1, y.c1) }
}

pub open spec fn fp12_neg(x: SpecFp12) -> SpecFp12 {
    SpecFp12 { c0: fp6_neg(x.c0), c1: fp6_neg(x.c1) }
}

/// Conjugation: the order-2 automorphism fixing the cubic subfield.
pub open spec fn fp12_conj(x: SpecFp12) -> SpecFp12 {
    SpecFp12 { c0: x.c0, c1: fp6_neg(x.c1) }
}

/// Schoolbook tower multiplication reduced by `w^2 = v`.
pub open spec fn fp12_mul(x: SpecFp12, y: SpecFp12) -> SpecFp12 {
    SpecFp12 {
        c0: fp6_add(fp6_mul(x.c0, y.c0), fp6_mul_by_v(fp6_mul(x.c1, y.c1))),
        c1: fp6_add(fp6_mul(x.c0, y.c1), fp6_mul(x.c1, y.c0)),
    }
}

/// Scale every coordinate of a cubic-extension value by one quadratic value.
pub open spec fn fp6_scale(x: SpecFp6, c: SpecFp2) -> SpecFp6 {
    SpecFp6 { c0: fp2_mul(x.c0, c), c1: fp2_mul(x.c1, c), c2: fp2_mul(x.c2, c) }
}

/// The degree-`k` Frobenius endomorphism via the coefficient table: apply
/// the cubic-extension automorphism to both halves, then correct the `c1`
/// half by the fixed constant for `k mod 12`.
pub open spec fn fp12_frob_map(x: SpecFp12, k: int) -> SpecFp12 {
    SpecFp12 {
        c0: fp6_frob(x.c0, k),
        c1: fp6_scale(fp6_frob(x.c1, k), frob12_c(k % 12)),
    }
}

/// The independently coded direct Frobenius: conjugate all six coordinates
/// and shift five of them by the first-level constants.
pub open spec fn fp12_frob_direct(x: SpecFp12) -> SpecFp12 {
    SpecFp12 {
        c0: SpecFp6 {
            c0: fp2_conj(x.c0.c0),
            c1: fp2_mul(fp2_conj(x.c0.c1), gamma1(2)),
            c2: fp2_mul(fp2_conj(x.c0.c2), gamma1(4)),
        },
        c1: SpecFp6 {
            c0: fp2_mul(fp2_conj(x.c1.c0), gamma1(1)),
            c1: fp2_mul(fp2_conj(x.c1.c1), gamma1(3)),
            c2: fp2_mul(fp2_conj(x.c1.c2), gamma1(5)),
        },
    }
}

/// The independently coded direct squared Frobenius: no conjugation, five
/// coordinates shifted by the second-level constants.
pub open spec fn fp12_frob_square_direct(x: SpecFp12) -> SpecFp12 {
    SpecFp12 {
        c0: SpecFp6 {
            c0: x.c0.c0,
            c1: fp2_mul(x.c0.c1, gamma2(2)),
            c2: fp2_mul(x.c0.c2, gamma2(4)),
        },
        c1: SpecFp6 {
            c0: fp2_mul(x.c1.c0, gamma2(1)),
            c1: fp2_mul(x.c1.c1, gamma2(3)),
            c2: fp2_mul(x.c1.c2, gamma2(5)),
        },
    }
}

/// The closed-form cyclotomic square over the six quadratic coordinates
/// `(x0 .. x5)` of the two halves, valid on norm-1 elements:
/// ```text
/// (3*xi*x4^2 + 3*x0^2 - 2*x0,  3*xi*x2^2 + 3*x3^2 - 2*x1,
///  3*xi*x5^2 + 3*x1^2 - 2*x2,  6*xi*x5*x1 + 2*x3,
///  6*x4*x0 + 2*x4,             6*x2*x3 + 2*x5)
/// ```
pub open spec fn fp12_cyc_sq(x: SpecFp12) -> SpecFp12 {
    SpecFp12 {
        c0: SpecFp6 {
            c0: fp2_sub(
                fp2_add(fp2_tri(fp2_mul_xi(fp2_mul(x.c1.c1, x.c1.c1))), fp2_tri(fp2_mul(x.c0.c0, x.c0.c0))),
                fp2_double(x.c0.c0),
            ),
            c1: fp2_sub(
                fp2_add(fp2_tri(fp2_mul_xi(fp2_mul(x.c0.c2, x.c0.c2))), fp2_tri(fp2_mul(x.c1.c0, x.c1.c0))),
                fp2_double(x.c0.c1),
            ),
            c2: fp2_sub(
                fp2_add(fp2_tri(fp2_mul_xi(fp2_mul(x.c1.c2, x.c1.c2))), fp2_tri(fp2_mul(x.c0.c1, x.c0.c1))),
                fp2_double(x.c0.c2),
            ),
        },
        c1: SpecFp6 {
            c0: fp2_add(fp2_tri(fp2_mul_xi(fp2_double(fp2_mul(x.c1.c2, x.c0.c1)))), fp2_double(x.c1.c0)),
            c1: fp2_add(fp2_tri(fp2_double(fp2_mul(x.c1.c1, x.c0.c0))), fp2_double(x.c1.c1)),
            c2: fp2_add(fp2_tri(fp2_double(fp2_mul(x.c0.c2, x.c1.c0))), fp2_double(x.c1.c2)),
        },
    }
}

/// `n` iterated cyclotomic squarings.
pub open spec fn fp12_nsquare(x: SpecFp12, n: nat) -> SpecFp12
    decreases n,
{
    if n == 0 {
        x
    } else {
        fp12_cyc_sq(fp12_nsquare(x, (n - 1) as nat))
    }
}

/// The fixed addition chain computing `x^(t/2)` for the curve scalar `t`,
/// followed by conjugation because `t` is negative.
pub open spec fn fp12_expt_half(x: SpecFp12) -> SpecFp12 {
    let a1 = fp12_cyc_sq(x);
    let a2 = fp12_mul(a1, x);
    let a3 = fp12_nsquare(a2, 2);
    let a4 = fp12_mul(a3, x);
    let a5 = fp12_nsquare(a4, 3);
    let a6 = fp12_mul(a5, x);
    let a7 = fp12_nsquare(a6, 9);
    let a8 = fp12_mul(a7, x);
    let a9 = fp12_nsquare(a8, 32);
    let a10 = fp12_mul(a9, x);
    let a11 = fp12_nsquare(a10, 15);
    fp12_conj(a11)
}

/// `x^t = (x^(t/2))^2`.
pub open spec fn fp12_expt(x: SpecFp12) -> SpecFp12 {
    fp12_cyc_sq(fp12_expt_half(x))
}

/// The weak cyclotomic criterion: `x^(q^4) * x == x^(q^2)`.
pub open spec fn fp12_is_cyc(x: SpecFp12) -> bool {
    fp12_mul(fp12_frob_map(x, 4), x) == fp12_frob_map(x, 2)
}

/// The full two-part membership certificate of pairing outputs.
pub open spec fn fp12_in_subgroup(x: SpecFp12) -> bool {
    &&& fp12_mul(fp12_frob_square_direct(fp12_frob_square_direct(x)), x)
        == fp12_frob_square_direct(x)
    &&& fp12_frob_direct(x) == fp12_expt(x)
}

/// An element of the degree-12 field.
#[derive(Clone, Copy, Debug, PartialEq, Eq)]
pub struct Fp12 {
    pub c0: Fp6,
    pub c1: Fp6,
}

impl View for Fp12 {
    type V = SpecFp12;

    open spec fn view(&self) -> SpecFp12 {
        SpecFp12 { c0: self.c0@, c1: self.c1@ }
    }
}

impl Fp12 {
    pub open spec fn wf(&self) -> bool {
        self.c0.wf() && self.c1.wf()
    }

    /// Constructs an element from its two cubic-extension halves.
    pub fn new(c0: Fp6, c1: Fp6) -> (r: Fp12)
        ensures
            r@ == (SpecFp12 { c0: c0@, c1: c1@ }),
            c0.wf() && c1.wf() ==> r.wf(),
    {
        Fp12 { c0, c1 }
    }

    /// The additive identity.
    pub fn zero() -> (r: Fp12)
        ensures
            r.wf(),
            r@ == fp12_zero(),
    {
        Fp12 { c0: Fp6::zero(), c1: Fp6::zero() }
    }

    /// The multiplicative identity.
    pub fn one() -> (r: Fp12)
        ensures
            r.wf(),
            r@ == fp12_one(),
    {
        Fp12 { c0: Fp6::one(), c1: Fp6::zero() }
    }

    /// The first cubic-extension half.
    pub fn c0(&self) -> (r: Fp6)
        ensures
            r@ == self@.c0,
            self.wf() ==> r.wf(),
    {
        self.c0
    }

    /// The second cubic-extension half.
    pub fn c1(&self) -> (r: Fp6)
        ensures
            r@ == self@.c1,
            self.wf() ==> r.wf(),
    {
        self.c1
    }

    /// Component-wise addition.
    pub fn add(&self, o: &Fp12) -> (r: Fp12)
        requires
            self.wf(),
            o.wf(),
        ensures
            r.wf(),
            r@ == fp12_add(self@, o@),
    {
        Fp12 { c0: self.c0.add(&o.c0), c1: self.c1.add(&o.c1) }
    }

    /// Component-wise subtraction.
    pub fn sub(&self, o: &Fp12) -> (r: Fp12)
        requires
            self.wf(),
            o.wf(),
        ensures
            r.wf(),
            r@ == fp12_sub(self@, o@),
    {
        Fp12 { c0: self.c0.sub(&o.c0), c1: self.c1.sub(&o.c1) }
    }

    /// Component-wise negation.
    pub fn neg(&self) -> (r: Fp12)
        requires
            self.wf(),
        ensures
            r.wf(),
            r@ == fp12_neg(self@),
    {
        Fp12 { c0: self.c0.neg(), c1: self.c1.neg() }
    }

    /// Twice the value.
    pub fn double(&self) -> (r: Fp12)
        requires
            self.wf(),
        ensures
            r.wf(),
            r@ == fp12_add(self@, self@),
    {
        self.add(self)
    }

    /// Conjugation: negate the `w` half.
    pub fn conjugate(&self) -> (r: Fp12)
        requires
            self.wf(),
        ensures
            r.wf(),
            r@ == fp12_conj(self@),
    {
        Fp12 { c0: self.c0, c1: self.c1.neg() }
    }

    /// Full tower multiplication reduced by `w^2 = v`, via the Karatsuba
    /// combination of the two cubic-extension halves: three half products
    /// instead of four.
    pub fn mul(&self, o: &Fp12) -> (r: Fp12)
        requires
            self.wf(),
            o.wf(),
        ensures
            r.wf(),
            r@ == fp12_mul(self@, o@),
    {
        let aa = fp6_mul_raw(&self.c0, &o.c0);
        let bb = fp6_mul_raw(&self.c1, &o.c1);
        let cross = fp6_mul_raw(&self.c0.add(&self.c1), &o.c0.add(&o.c1));
        let c1 = cross.sub(&aa).sub(&bb);
        proof {
            crate::fp6::lemma_fp6_view_wf(self.c0);
            crate::fp6::lemma_fp6_view_wf(self.c1);
            crate::fp6::lemma_fp6_view_wf(o.c0);
            crate::fp6::lemma_fp6_view_wf(o.c1);
            crate::fp6::lemma_fp6_karatsuba(self@.c0, self@.c1, o@.c0, o@.c1);
        }
        Fp12 { c0: aa.add(&bb.mul_by_v()), c1 }
    }

    /// Squaring as the self-product.
    pub fn square(&self) -> (r: Fp12)
        requires
            self.wf(),
        ensures
            r.wf(),
            r@ == fp12_mul(self@, self@),
    {
        self.mul(self)
    }

    /// Multiplicative inversion; fails exactly on zero.
    pub fn invert(&self) -> (r: Option<Fp12>)
        requires
            self.wf(),
        ensures
            r is Some <==> self@ != fp12_zero(),
            r matches Some(i) ==> i.wf() && fp12_mul(self@, i@) == fp12_one()
                && fp12_mul(i@, self@) == fp12_one(),
    {
        fp12_inverse_raw(self)
    }

    /// Square roots are unsupported in this field by design: the operation
    /// fails deterministically for every input.
    pub fn sqrt(&self) -> (r: Option<Fp12>)
        ensures
            r is None,
    {
        None
    }

    /// Constant-time equality of the twelve coordinates.
    pub fn ct_eq(&self, o: &Fp12) -> (r: bool)
        requires
            self.wf(),
            o.wf(),
        ensures
            r <==> self@ == o@,
    {
        let e0 = self.c0.ct_eq(&o.c0);
        let e1 = self.c1.ct_eq(&o.c1);
        e0 && e1
    }

    /// Branch-free selection: `a` when the choice is false, `b` when it is
    /// true; both operands are combined coordinate by coordinate.
    pub fn conditional_select(a: &Fp12, b: &Fp12, choice: bool) -> (r: Fp12)
        requires
            a.wf(),
            b.wf(),
        ensures
            r.wf(),
            r@ == if choice { b@ } else { a@ },
    {
        let mask: u64 = if choice { 0xffffffffffffffffu64 } else { 0u64 };
        Fp12 {
            c0: Fp6::select(&a.c0, &b.c0, mask),
            c1: Fp6::select(&a.c1, &b.c1, mask),
        }
    }

    /// Constant-time test against zero.
    pub fn is_zero(&self) -> (r: bool)
        requires
            self.wf(),
        ensures
            r <==> self@ == fp12_zero(),
    {
        let z = Fp12::zero();
        self.ct_eq(&z)
    }

    /// The degree-`power` Frobenius endomorphism through the coefficient
    /// table.
    pub fn frobenius_map(&self, power: usize) -> (r: Fp12)
        requires
            self.wf(),
        ensures
            r.wf(),
            r@ == fp12_frob_map(self@, power as int),
    {
        let c0 = self.c0.frobenius(power);
        let c1 = self.c1.frobenius(power);
        let c = frob12_c_entry(power % 12);
        Fp12 {
            c0,
            c1: Fp6 {
                c0: fp2_mul_raw(&c1.c0, &c),
                c1: fp2_mul_raw(&c1.c1, &c),
                c2: fp2_mul_raw(&c1.c2, &c),
            },
        }
    }

    /// The direct-coordinate Frobenius used by the membership test; must
    /// agree with `frobenius_map(1)`, which is proved in `laws`.
    pub(crate) fn frobenius(&self) -> (r: Fp12)
        requires
            self.wf(),
        ensures
            r.wf(),
            r@ == fp12_frob_direct(self@),
    {
        let t0 = crate::fp2::fp2_conjugate_raw(&self.c0.c0);
        let t1 = crate::fp2::fp2_conjugate_raw(&self.c0.c1);
        let t2 = crate::fp2::fp2_conjugate_raw(&self.c0.c2);
        let t3 = crate::fp2::fp2_conjugate_raw(&self.c1.c0);
        let t4 = crate::fp2::fp2_conjugate_raw(&self.c1.c1);
        let t5 = crate::fp2::fp2_conjugate_raw(&self.c1.c2);
        Fp12 {
            c0: Fp6 {
                c0: t0,
                c1: fp2_mul_raw(&t1, &gamma1_entry(2)),
                c2: fp2_mul_raw(&t2, &gamma1_entry(4)),
            },
            c1: Fp6 {
                c0: fp2_mul_raw(&t3, &gamma1_entry(1)),
                c1: fp2_mul_raw(&t4, &gamma1_entry(3)),
                c2: fp2_mul_raw(&t5, &gamma1_entry(5)),
            },
        }
    }

    /// The direct-coordinate squared Frobenius used by the membership test;
    /// must agree with `frobenius_map(2)`, which is proved in `laws`.
    pub(crate) fn frobenius_square(&self) -> (r: Fp12)
        requires
            self.wf(),
        ensures
            r.wf(),
            r@ == fp12_frob_square_direct(self@),
    {
        Fp12 {
            c0: Fp6 {
                c0: self.c0.c0,
                c1: fp2_mul_raw(&self.c0.c1, &gamma2_entry(2)),
                c2: fp2_mul_raw(&self.c0.c2, &gamma2_entry(4)),
            },
            c1: Fp6 {
                c0: fp2_mul_raw(&self.c1.c0, &gamma2_entry(1)),
                c1: fp2_mul_raw(&self.c1.c1, &gamma2_entry(3)),
                c2: fp2_mul_raw(&self.c1.c2, &gamma2_entry(5)),
            },
        }
    }

    /// The specialised squaring valid on cyclotomic-subgroup elements,
    /// computed from squares and cross-products of coordinate pairs.
    pub fn cyclotomic_square(&self) -> (r: Fp12)
        requires
            self.wf(),
        ensures
            r.wf(),
            r@ == fp12_cyc_sq(self@),
    {
        let x0 = &self.c0.c0;
        let x1 = &self.c0.c1;
        let x2 = &self.c0.c2;
        let x3 = &self.c1.c0;
        let x4 = &self.c1.c1;
        let x5 = &self.c1.c2;
        let t0 = fp2_square_raw(x4);
        let t1 = fp2_square_raw(x0);
        let t6 = fp2_sub_raw(&fp2_sub_raw(&fp2_square_raw(&fp2_add_raw(x4, x0)), &t0), &t1);
        let t2 = fp2_square_raw(x2);
        let t3 = fp2_square_raw(x3);
        let t7 = fp2_sub_raw(&fp2_sub_raw(&fp2_square_raw(&fp2_add_raw(x2, x3)), &t2), &t3);
        let t4 = fp2_square_raw(x5);
        let t5 = fp2_square_raw(x1);
        let t8 = fp2_mul_xi_raw(
            &fp2_sub_raw(&fp2_sub_raw(&fp2_square_raw(&fp2_add_raw(x5, x1)), &t4), &t5),
        );
        let g0 = fp2_add_raw(&fp2_mul_xi_raw(&t0), &t1);
        let g1 = fp2_add_raw(&fp2_mul_xi_raw(&t2), &t3);
        let g2 = fp2_add_raw(&fp2_mul_xi_raw(&t4), &t5);
        let c00 = fp2_add_raw(&fp2_add_raw(&fp2_sub_raw(&g0, x0), &fp2_sub_raw(&g0, x0)), &g0);
        let c01 = fp2_add_raw(&fp2_add_raw(&fp2_sub_raw(&g1, x1), &fp2_sub_raw(&g1, x1)), &g1);
        let c02 = fp2_add_raw(&fp2_add_raw(&fp2_sub_raw(&g2, x2), &fp2_sub_raw(&g2, x2)), &g2);
        let c10 = fp2_add_raw(&fp2_add_raw(&fp2_add_raw(&t8, x3), &fp2_add_raw(&t8, x3)), &t8);
        let c11 = fp2_add_raw(&fp2_add_raw(&fp2_add_raw(&t6, x4), &fp2_add_raw(&t6, x4)), &t6);
        let c12 = fp2_add_raw(&fp2_add_raw(&fp2_add_raw(&t7, x5), &fp2_add_raw(&t7, x5)), &t7);
        proof {
            lemma_fp2_view_wf(self.c0.c0);
            lemma_fp2_view_wf(self.c0.c1);
            lemma_fp2_view_wf(self.c0.c2);
            lemma_fp2_view_wf(self.c1.c0);
            lemma_fp2_view_wf(self.c1.c1);
            lemma_fp2_view_wf(self.c1.c2);
            lemma_fp2_view_wf(g0);
            lemma_fp2_view_wf(g1);
            lemma_fp2_view_wf(g2);
            lemma_fp2_view_wf(t6);
            lemma_fp2_view_wf(t7);
            lemma_fp2_view_wf(t8);
            lemma_fp2_sq_sum(self.c1.c1@, self.c0.c0@);
            lemma_fp2_sq_sum(self.c0.c2@, self.c1.c0@);
            lemma_fp2_sq_sum(self.c1.c2@, self.c0.c1@);
            lemma_fp2_three_sub(fp2_mul_xi(fp2_mul(self.c1.c1@, self.c1.c1@)),
                fp2_mul(self.c0.c0@, self.c0.c0@), self.c0.c0@);
            lemma_fp2_three_sub(fp2_mul_xi(fp2_mul(self.c0.c2@, self.c0.c2@)),
                fp2_mul(self.c1.c0@, self.c1.c0@), self.c0.c1@);
            lemma_fp2_three_sub(fp2_mul_xi(fp2_mul(self.c1.c2@, self.c1.c2@)),
                fp2_mul(self.c0.c1@, self.c0.c1@), self.c0.c2@);
            lemma_fp2_three_add(t8@, self.c1.c0@);
            lemma_fp2_three_add(t6@, self.c1.c1@);
            lemma_fp2_three_add(t7@, self.c1.c2@);
        }
        Fp12 {
            c0: Fp6 { c0: c00, c1: c01, c2: c02 },
            c1: Fp6 { c0: c10, c1: c11, c2: c12 },
        }
    }

    /// `n` cyclotomic squarings in sequence.
    pub fn nsquare(&self, n: usize) -> (r: Fp12)
        requires
            self.wf(),
        ensures
            r.wf(),
            r@ == fp12_nsquare(self@, n as nat),
    {
        let mut acc = *self;
        let mut i: usize = 0;
        while i < n
            invariant
                i <= n,
                acc.wf(),
                acc@ == fp12_nsquare(self@, i as nat),
            decreases n - i,
        {
            acc = acc.cyclotomic_square();
            i = i + 1;
        }
        acc
    }

    /// `x^(t/2)` by the fixed addition chain: one squaring and then square
    /// runs of lengths 2, 3, 9, 32 and 15, each followed by a multiplication
    /// by `x`, conjugated at the end because the scalar is negative.
    pub fn expt_half(&self) -> (r: Fp12)
        requires
            self.wf(),
        ensures
            r.wf(),
            r@ == fp12_expt_half(self@),
    {
        let mut z = self.cyclotomic_square();
        z = z.mul(self);
        z = z.nsquare(2);
        z = z.mul(self);
        z = z.nsquare(3);
        z = z.mul(self);
        z = z.nsquare(9);
        z = z.mul(self);
        z = z.nsquare(32);
        z = z.mul(self);
        z = z.nsquare(15);
        z.conjugate()
    }

    /// `x^t` as the square of `x^(t/2)`.
    pub fn expt(&self) -> (r: Fp12)
        requires
            self.wf(),
        ensures
            r.wf(),
            r@ == fp12_expt(self@),
    {
        let half = self.expt_half();
        half.cyclotomic_square()
    }

    /// The weak cyclotomic criterion `x^(q^4 - q^2 + 1) == 1`, evaluated as
    /// `frobenius_map(4) * x == frobenius_map(2)`.
    pub fn is_cyc(&self) -> (r: bool)
        requires
            self.wf(),
        ensures
            r == fp12_is_cyc(self@),
    {
        let t0 = self.frobenius_map(4);
        let t0 = t0.mul(self);
        let t1 = self.frobenius_map(2);
        t0.ct_eq(&t1)
    }

    /// The full membership certificate for pairing outputs: both the
    /// `q^4 - q^2 + 1` check through the squared Frobenius and the
    /// `q + 1 - t` check through the direct Frobenius and the chain.
    pub fn is_in_subgroup(&self) -> (r: bool)
        requires
            self.wf(),
        ensures
            r == fp12_in_subgroup(self@),
    {
        let a = self.frobenius_square();
        let b = self.frobenius_square().frobenius_square().mul(self);
        let first = b.ct_eq(&a);
        let c = self.frobenius();
        let d = self.expt();
        let second = c.ct_eq(&d);
        first && second
    }

    /// Torus-based compression: requires the weak cyclotomic property and an
    /// invertible `c1` half; returns `(c0 + 1) * c1^(-1)`, where the one is
    /// added on the first base coordinate.
    pub fn compress(&self) -> (r: Option<Fp12Compressed>)
        requires
            self.wf(),
        ensures
            r is Some <==> fp12_is_cyc(self@) && self@.c1 != fp6_zero(),
            r matches Some(c) ==> c.wf() && (exists|i: SpecFp6|
                fp6_mul(self@.c1, i) == fp6_one() && fp6_mul(i, self@.c1) == fp6_one()
                && c@ == fp6_mul(fp12_c0_plus_one(self@), i)),
    {
        if !self.is_cyc() {
            return None;
        }
        let inv = match fp6_inv_raw(&self.c1) {
            Some(i) => i,
            None => {
                return None;
            },
        };
        let shifted = Fp6 {
            c0: fp2_add_raw(&self.c0.c0, &Fp2::one()),
            c1: self.c0.c1,
            c2: self.c0.c2,
        };
        let b = fp6_mul_raw(&shifted, &inv);
        Some(Fp12Compressed { c: b })
    }
}

/// The `c0` half with one added to its first base coordinate, as used by the
/// compression map.
pub open spec fn fp12_c0_plus_one(x: SpecFp12) -> SpecFp6 {
    SpecFp6 { c0: fp2_add(x.c0.c0, fp2_one()), c1: x.c0.c1, c2: x.c0.c2 }
}

/// A mutual two-sided inverse pair.
pub open spec fn fp12_inv_pair(x: SpecFp12, t: SpecFp12) -> bool {
    fp12_mul(x, t) == fp12_one() && fp12_mul(t, x) == fp12_one()
}

/// Compressed representation of a cyclotomic element: a single
/// cubic-extension value.
#[derive(Clone, Copy, Debug, PartialEq, Eq)]
pub struct Fp12Compressed {
    pub c: Fp6,
}

impl View for Fp12Compressed {
    type V = SpecFp6;

    open spec fn view(&self) -> SpecFp6 {
        self.c@
    }
}

impl Fp12Compressed {
    pub open spec fn wf(&self) -> bool {
        self.c.wf()
    }

    /// Torus-based decompression: `(b + w) / (b - w)`, accepted only when
    /// the result satisfies the weak cyclotomic criterion.
    #[verifier::rlimit(60)]
    pub fn uncompress(self) -> (r: Option<Fp12>)
        requires
            self.wf(),
        ensures
            r matches Some(c) ==> c.wf() && fp12_is_cyc(c@) && (exists|t: SpecFp12|
                #[trigger] fp12_inv_pair(fp12_minus_w(self@), t)
                && c@ == fp12_mul(fp12_plus_w(self@), t)),
            r is None ==> (exists|t: SpecFp12|
                #[trigger] fp12_inv_pair(fp12_minus_w(self@), t)
                && !fp12_is_cyc(fp12_mul(fp12_plus_w(self@), t))),
    {
        let num = Fp12 { c0: self.c, c1: Fp6::one() };
        let den = Fp12 { c0: self.c, c1: Fp6::one().neg() };
        proof {
            lemma_minus_one_nonzero();
        }
        let t = match fp12_inverse_raw(&den) {
            Some(t) => t,
            None => {
                return None;
            },
        };
        let c = num.mul(&t);
        let accept = c.is_cyc();
        proof {
            assert(den@ == fp12_minus_w(self@));
            assert(num@ == fp12_plus_w(self@));
            assert(fp12_inv_pair(fp12_minus_w(self@), t@));
            assert(c@ == fp12_mul(fp12_plus_w(self@), t@));
        }
        if accept {
            Some(c)
        } else {
            None
        }
    }
}

impl Default for Fp12 {
    /// The default element is the additive identity.
    fn default() -> (r: Fp12)
        ensures
            r.wf(),
            r@ == fp12_zero(),
    {
        Fp12::zero()
    }
}

/// The value `b + w`: `c0 = b`, `c1 = 1`.
pub open spec fn fp12_plus_w(b: SpecFp6) -> SpecFp12 {
    SpecFp12 { c0: b, c1: fp6_one() }
}

/// The value `b - w`: `c0 = b`, `c1 = -1`.
pub open spec fn fp12_minus_w(b: SpecFp6) -> SpecFp12 {
    SpecFp12 { c0: b, c1: fp6_neg(fp6_one()) }
}

/// Minus one is a nonzero residue, so `b - w` is never zero.
proof fn lemma_minus_one_nonzero()
    ensures
        crate::modular::mneg(1int) == prime() - 1,
        fp6_neg(fp6_one()) != fp6_zero(),
{
    vstd::arithmetic::div_mod::lemma_fundamental_div_mod_converse(
        -1int, prime(), -1int, prime() - 1);
}

/// Relies on the backend's full inversion in the degree-12 field: it fails
/// exactly on zero and otherwise returns the two-sided inverse.
#[verifier::external_body]
fn fp12_inverse_raw(a: &Fp12) -> (r: Option<Fp12>)
    requires
        a.wf(),
    ensures
        r is Some <==> a@ != fp12_zero(),
        r matches Some(i) ==> i.wf() && fp12_mul(a@, i@) == fp12_one() && fp12_mul(i@, a@)
            == fp12_one(),
{
    let f = |x: &Fp2| Fq2::new(Fp::new_unchecked(BigInt(x.re)), Fp::new_unchecked(BigInt(x.im)));
    let g = |x: Fq2| Fp2 { re: (x.c0.0).0, im: (x.c1.0).0 };
    let c = |h: &Fp6| Fq6::new(f(&h.c0), f(&h.c1), f(&h.c2));
    let d = |h: Fq6| Fp6::new(g(h.c0), g(h.c1), g(h.c2));
    Fq12::new(c(&a.c0), c(&a.c1)).inverse().map(|i| Fp12::new(d(i.c0), d(i.c1)))
}

} // verus!
