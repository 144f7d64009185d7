//! The cubic extension `c0 + c1*v + c2*v^2` over the quadratic extension,
//! with `v^3 = u + 1`.
//!
//! Component-wise operations, non-residue multiplication and the Frobenius
//! automorphism are assembled here from the quadratic layer and verified;
//! full multiplication and inversion are consumed from the backend.

use vstd::prelude::*;
use ark_bls12_381::{Fq2, Fq6};
use ark_ff::{BigInt, Field, Fp};
use crate::fp2::{
    lemma_fp2_karatsuba_cancel, lemma_fp2_mul_comm, lemma_fp2_mul_distrib, lemma_fp2_mul_xi_add,
    lemma_fp2_ops_wf, lemma_fp2_regroup4, lemma_fp2_regroup6,
    fp2_add, fp2_add_raw, fp2_conj, fp2_conjugate_raw, fp2_mul, fp2_mul_raw, fp2_mul_xi,
    fp2_mul_xi_raw, fp2_neg, fp2_neg_raw, fp2_one, fp2_sub, fp2_sub_raw, fp2_wf, fp2_zero, Fp2,
    SpecFp2,
};
use crate::tables::{frob6_c1, frob6_c1_entry, frob6_c2, frob6_c2_entry};

verus! {

/// Spec-level value of a cubic-extension element.
pub ghost struct SpecFp6 {
    pub c0: SpecFp2,
    pub c1: SpecFp2,
    pub c2: SpecFp2,
}

pub open spec fn fp6_wf(x: SpecFp6) -> bool {
    fp2_wf(x.c0) && fp2_wf(x.c1) && fp2_wf(x.c2)
}

pub open spec fn fp6_zero() -> SpecFp6 {
    SpecFp6 { c0: fp2_zero(), c1: fp2_zero(), c2: fp2_zero() }
}

pub open spec fn fp6_one() -> SpecFp6 {
    SpecFp6 { c0: fp2_one(), c1: fp2_zero(), c2: fp2_zero() }
}

pub open spec fn fp6_add(x: SpecFp6, y: SpecFp6) -> SpecFp6 {
    SpecFp6 {
        c0: fp2_add(x.c0, y.c0),
        c1: fp2_add(x.c1, y.c1),
        c2: fp2_add(x.c2, y.c2),
    }
}

pub open spec fn fp6_sub(x: SpecFp6, y: SpecFp6) -> SpecFp6 {
    SpecFp6 {
        c0: fp2_sub(x.c0, y.c0),
        c1: fp2_sub(x.c1, y.c1),
        c2: fp2_sub(x.c2, y.c2),
    }
}

pub open spec fn fp6_neg(x: SpecFp6) -> SpecFp6 {
    SpecFp6 { c0: fp2_neg(x.c0), c1: fp2_neg(x.c1), c2: fp2_neg(x.c2) }
}

/// Schoolbook cubic-extension multiplication reduced by `v^3 = u + 1`.
pub open spec fn fp6_mul(x: SpecFp6, y: SpecFp6) -> SpecFp6 {
    SpecFp6 {
        c0: fp2_add(
            fp2_mul(x.c0, y.c0),
            fp2_mul_xi(fp2_add(fp2_mul(x.c1, y.c2), fp2_mul(x.c2, y.c1))),
        ),
        c1: fp2_add(
            fp2_add(fp2_mul(x.c0, y.c1), fp2_mul(x.c1, y.c0)),
            fp2_mul_xi(fp2_mul(x.c2, y.c2)),
        ),
        c2: fp2_add(
            fp2_add(fp2_mul(x.c0, y.c2), fp2_mul(x.c2, y.c0)),
            fp2_mul(x.c1, y.c1),
        ),
    }
}

/// Multiplication by `v`: rotate the coordinates and fold the wrapped one
/// through the non-residue.
pub open spec fn fp6_mul_by_v(x: SpecFp6) -> SpecFp6 {
    SpecFp6 { c0: fp2_mul_xi(x.c2), c1: x.c0, c2: x.c1 }
}

/// The degree-`k` Frobenius automorphism on the cubic extension: conjugate
/// each coordinate when `k` is odd, then shift `c1` and `c2` by the fixed
/// table entries for `k mod 6`.
pub open spec fn fp6_frob(x: SpecFp6, k: int) -> SpecFp6 {
    SpecFp6 {
        c0: fp6_frob_coord(x.c0, k),
        c1: fp2_mul(fp6_frob_coord(x.c1, k), frob6_c1(k % 6)),
        c2: fp2_mul(fp6_frob_coord(x.c2, k), frob6_c2(k % 6)),
    }
}

/// A coordinate under the degree-`k` Frobenius before shifting: conjugation
/// iterated `k` times collapses to parity.
pub open spec fn fp6_frob_coord(x: SpecFp2, k: int) -> SpecFp2 {
    if k % 2 == 1 {
        fp2_conj(x)
    } else {
        x
    }
}

/// A cubic-extension element: three quadratic-extension coordinates.
#[derive(Clone, Copy, Debug, PartialEq, Eq)]
pub struct Fp6 {
    pub c0: Fp2,
    pub c1: Fp2,
    pub c2: Fp2,
}

impl View for Fp6 {
    type V = SpecFp6;

    open spec fn view(&self) -> SpecFp6 {
        SpecFp6 { c0: self.c0@, c1: self.c1@, c2: self.c2@ }
    }
}

impl Fp6 {
    pub open spec fn wf(&self) -> bool {
        self.c0.wf() && self.c1.wf() && self.c2.wf()
    }

    /// Construct an element from its three coordinates.
    pub fn new(c0: Fp2, c1: Fp2, c2: Fp2) -> (r: Fp6)
        ensures
            r@ == (SpecFp6 { c0: c0@, c1: c1@, c2: c2@ }),
            c0.wf() && c1.wf() && c2.wf() ==> r.wf(),
    {
        Fp6 { c0, c1, c2 }
    }

    pub fn zero() -> (r: Fp6)
        ensures
            r.wf(),
            r@ == fp6_zero(),
    {
        Fp6 { c0: Fp2::zero(), c1: Fp2::zero(), c2: Fp2::zero() }
    }

    pub fn one() -> (r: Fp6)
        ensures
            r.wf(),
            r@ == fp6_one(),
    {
        Fp6 { c0: Fp2::one(), c1: Fp2::zero(), c2: Fp2::zero() }
    }

    pub(crate) fn add(&self, o: &Fp6) -> (r: Fp6)
        requires
            self.wf(),
            o.wf(),
        ensures
            r.wf(),
            r@ == fp6_add(self@, o@),
    {
        Fp6 {
            c0: fp2_add_raw(&self.c0, &o.c0),
            c1: fp2_add_raw(&self.c1, &o.c1),
            c2: fp2_add_raw(&self.c2, &o.c2),
        }
    }

    pub(crate) fn sub(&self, o: &Fp6) -> (r: Fp6)
        requires
            self.wf(),
            o.wf(),
        ensures
            r.wf(),
            r@ == fp6_sub(self@, o@),
    {
        Fp6 {
            c0: fp2_sub_raw(&self.c0, &o.c0),
            c1: fp2_sub_raw(&self.c1, &o.c1),
            c2: fp2_sub_raw(&self.c2, &o.c2),
        }
    }

    pub(crate) fn neg(&self) -> (r: Fp6)
        requires
            self.wf(),
        ensures
            r.wf(),
            r@ == fp6_neg(self@),
    {
        Fp6 {
            c0: fp2_neg_raw(&self.c0),
            c1: fp2_neg_raw(&self.c1),
            c2: fp2_neg_raw(&self.c2),
        }
    }

    /// Multiply by the sextic non-residue `v`.
    pub(crate) fn mul_by_v(&self) -> (r: Fp6)
        requires
            self.wf(),
        ensures
            r.wf(),
            r@ == fp6_mul_by_v(self@),
    {
        Fp6 { c0: fp2_mul_xi_raw(&self.c2), c1: self.c0, c2: self.c1 }
    }

    /// The degree-`k` Frobenius automorphism, built from conjugation and the
    /// fixed coefficient tables.
    pub(crate) fn frobenius(&self, power: usize) -> (r: Fp6)
        requires
            self.wf(),
        ensures
            r.wf(),
            r@ == fp6_frob(self@, power as int),
    {
        let c0 = self.frob_coord_c0(power);
        let c1 = self.frob_coord_c1(power);
        let c2 = self.frob_coord_c2(power);
        let k = power % 6;
        Fp6 {
            c0,
            c1: fp2_mul_raw(&c1, &frob6_c1_entry(k)),
            c2: fp2_mul_raw(&c2, &frob6_c2_entry(k)),
        }
    }

    /// Constant-time equality of the three coordinates.
    pub(crate) fn ct_eq(&self, o: &Fp6) -> (r: bool)
        requires
            self.wf(),
            o.wf(),
        ensures
            r <==> self@ == o@,
    {
        let e0 = self.c0.ct_eq(&o.c0);
        let e1 = self.c1.ct_eq(&o.c1);
        let e2 = self.c2.ct_eq(&o.c2);
        e0 && e1 && e2
    }

    /// Branch-free selection by a degenerate mask, coordinate by coordinate.
    pub(crate) fn select(a: &Fp6, b: &Fp6, mask: u64) -> (r: Fp6)
        requires
            mask == 0 || mask == 0xffffffffffffffffu64,
            a.wf(),
            b.wf(),
        ensures
            r.wf(),
            mask == 0 ==> r@ == a@,
            mask != 0 ==> r@ == b@,
    {
        Fp6 {
            c0: Fp2::select(&a.c0, &b.c0, mask),
            c1: Fp2::select(&a.c1, &b.c1, mask),
            c2: Fp2::select(&a.c2, &b.c2, mask),
        }
    }

    fn frob_coord_c0(&self, power: usize) -> (r: Fp2)
        requires
            self.wf(),
        ensures
            r.wf(),
            r@ == fp6_frob_coord(self@.c0, power as int),
    {
        if power % 2 == 1 {
            fp2_conjugate_raw(&self.c0)
        } else {
            self.c0
        }
    }

    fn frob_coord_c1(&self, power: usize) -> (r: Fp2)
        requires
            self.wf(),
        ensures
            r.wf(),
            r@ == fp6_frob_coord(self@.c1, power as int),
    {
        if power % 2 == 1 {
            fp2_conjugate_raw(&self.c1)
        } else {
            self.c1
        }
    }

    fn frob_coord_c2(&self, power: usize) -> (r: Fp2)
        requires
            self.wf(),
        ensures
            r.wf(),
            r@ == fp6_frob_coord(self@.c2, power as int),
    {
        if power % 2 == 1 {
            fp2_conjugate_raw(&self.c2)
        } else {
            self.c2
        }
    }
}

/// Relies on the backend's cubic-extension multiplication: the schoolbook
/// product reduced by `v^3 = u + 1`.
#[verifier::external_body]
pub(crate) fn fp6_mul_raw(a: &Fp6, b: &Fp6) -> (r: Fp6)
    requires
        a.wf(),
        b.wf(),
    ensures
        r.wf(),
        r@ == fp6_mul(a@, b@),
{
    let f = |x: &Fp2| Fq2::new(Fp::new_unchecked(BigInt(x.re)), Fp::new_unchecked(BigInt(x.im)));
    let g = |x: Fq2| Fp2 { re: (x.c0.0).0, im: (x.c1.0).0 };
    let u = Fq6::new(f(&a.c0), f(&a.c1), f(&a.c2));
    let v = Fq6::new(f(&b.c0), f(&b.c1), f(&b.c2));
    let z = u * v;
    Fp6 { c0: g(z.c0), c1: g(z.c1), c2: g(z.c2) }
}

/// Relies on the backend's cubic-extension inversion: it returns the
/// two-sided multiplicative inverse, and fails exactly on zero.
#[verifier::external_body]
pub(crate) fn fp6_inv_raw(a: &Fp6) -> (r: Option<Fp6>)
    requires
        a.wf(),
    ensures
        r is Some <==> a@ != fp6_zero(),
        r matches Some(i) ==> i.wf() && fp6_mul(a@, i@) == fp6_one() && fp6_mul(i@, a@)
            == fp6_one(),
{
    let f = |x: &Fp2| Fq2::new(Fp::new_unchecked(BigInt(x.re)), Fp::new_unchecked(BigInt(x.im)));
    let g = |x: Fq2| Fp2 { re: (x.c0.0).0, im: (x.c1.0).0 };
    let u = Fq6::new(f(&a.c0), f(&a.c1), f(&a.c2));
    u.inverse().map(|z| Fp6 { c0: g(z.c0), c1: g(z.c1), c2: g(z.c2) })
}

/// A product's coordinates are always well-formed.
pub proof fn lemma_fp6_mul_wf(x: SpecFp6, y: SpecFp6)
    ensures
        fp6_wf(fp6_mul(x, y)),
        fp6_wf(fp6_add(x, y)),
{
    lemma_fp2_ops_wf(fp2_mul(x.c0, y.c0),
        fp2_mul_xi(fp2_add(fp2_mul(x.c1, y.c2), fp2_mul(x.c2, y.c1))));
    lemma_fp2_ops_wf(fp2_add(fp2_mul(x.c0, y.c1), fp2_mul(x.c1, y.c0)),
        fp2_mul_xi(fp2_mul(x.c2, y.c2)));
    lemma_fp2_ops_wf(fp2_add(fp2_mul(x.c0, y.c2), fp2_mul(x.c2, y.c0)),
        fp2_mul(x.c1, y.c1));
    lemma_fp2_ops_wf(x.c0, y.c0);
    lemma_fp2_ops_wf(x.c1, y.c1);
    lemma_fp2_ops_wf(x.c2, y.c2);
}

/// Multiplication in the cubic extension is commutative.
pub proof fn lemma_fp6_mul_comm(x: SpecFp6, y: SpecFp6)
    ensures
        fp6_mul(x, y) == fp6_mul(y, x),
{
    lemma_fp2_mul_comm(x.c0, y.c0);
    lemma_fp2_mul_comm(x.c0, y.c1);
    lemma_fp2_mul_comm(x.c0, y.c2);
    lemma_fp2_mul_comm(x.c1, y.c0);
    lemma_fp2_mul_comm(x.c1, y.c1);
    lemma_fp2_mul_comm(x.c1, y.c2);
    lemma_fp2_mul_comm(x.c2, y.c0);
    lemma_fp2_mul_comm(x.c2, y.c1);
    lemma_fp2_mul_comm(x.c2, y.c2);
    assert(fp2_add(fp2_mul(y.c1, x.c2), fp2_mul(y.c2, x.c1)) == fp2_add(
        fp2_mul(x.c1, y.c2), fp2_mul(x.c2, y.c1)));
    assert(fp2_add(fp2_mul(y.c0, x.c1), fp2_mul(y.c1, x.c0)) == fp2_add(
        fp2_mul(x.c0, y.c1), fp2_mul(x.c1, y.c0)));
    assert(fp2_add(fp2_mul(y.c0, x.c2), fp2_mul(y.c2, x.c0)) == fp2_add(
        fp2_mul(x.c0, y.c2), fp2_mul(x.c2, y.c0)));
}

/// Multiplication distributes over addition on the left factor.
pub proof fn lemma_fp6_mul_distrib(x: SpecFp6, y: SpecFp6, z: SpecFp6)
    requires
        fp6_wf(x),
        fp6_wf(y),
        fp6_wf(z),
    ensures
        fp6_mul(fp6_add(x, y), z) == fp6_add(fp6_mul(x, z), fp6_mul(y, z)),
{
    lemma_fp2_mul_distrib(x.c0, y.c0, z.c0);
    lemma_fp2_mul_distrib(x.c0, y.c0, z.c1);
    lemma_fp2_mul_distrib(x.c0, y.c0, z.c2);
    lemma_fp2_mul_distrib(x.c1, y.c1, z.c0);
    lemma_fp2_mul_distrib(x.c1, y.c1, z.c1);
    lemma_fp2_mul_distrib(x.c1, y.c1, z.c2);
    lemma_fp2_mul_distrib(x.c2, y.c2, z.c0);
    lemma_fp2_mul_distrib(x.c2, y.c2, z.c1);
    lemma_fp2_mul_distrib(x.c2, y.c2, z.c2);
    lemma_fp2_ops_wf(x.c0, z.c0);
    lemma_fp2_ops_wf(y.c0, z.c0);
    lemma_fp2_ops_wf(x.c1, z.c2);
    lemma_fp2_ops_wf(y.c1, z.c2);
    lemma_fp2_ops_wf(x.c2, z.c1);
    lemma_fp2_ops_wf(y.c2, z.c1);
    lemma_fp2_ops_wf(x.c0, z.c1);
    lemma_fp2_ops_wf(y.c0, z.c1);
    lemma_fp2_ops_wf(x.c1, z.c0);
    lemma_fp2_ops_wf(y.c1, z.c0);
    lemma_fp2_ops_wf(x.c2, z.c2);
    lemma_fp2_ops_wf(y.c2, z.c2);
    lemma_fp2_ops_wf(x.c0, z.c2);
    lemma_fp2_ops_wf(y.c0, z.c2);
    lemma_fp2_ops_wf(x.c2, z.c0);
    lemma_fp2_ops_wf(y.c2, z.c0);
    lemma_fp2_ops_wf(x.c1, z.c1);
    lemma_fp2_ops_wf(y.c1, z.c1);
    // c0: regroup the two non-residue cross sums, split the non-residue
    // multiple, and regroup the outer sum.
    lemma_fp2_regroup4(fp2_mul(x.c1, z.c2), fp2_mul(y.c1, z.c2), fp2_mul(x.c2, z.c1),
        fp2_mul(y.c2, z.c1));
    lemma_fp2_ops_wf(fp2_mul(x.c1, z.c2), fp2_mul(x.c2, z.c1));
    lemma_fp2_ops_wf(fp2_mul(y.c1, z.c2), fp2_mul(y.c2, z.c1));
    lemma_fp2_mul_xi_add(fp2_add(fp2_mul(x.c1, z.c2), fp2_mul(x.c2, z.c1)),
        fp2_add(fp2_mul(y.c1, z.c2), fp2_mul(y.c2, z.c1)));
    lemma_fp2_ops_wf(fp2_add(fp2_mul(x.c1, z.c2), fp2_mul(x.c2, z.c1)), x.c0);
    lemma_fp2_ops_wf(fp2_add(fp2_mul(y.c1, z.c2), fp2_mul(y.c2, z.c1)), y.c0);
    lemma_fp2_regroup4(fp2_mul(x.c0, z.c0), fp2_mul(y.c0, z.c0),
        fp2_mul_xi(fp2_add(fp2_mul(x.c1, z.c2), fp2_mul(x.c2, z.c1))),
        fp2_mul_xi(fp2_add(fp2_mul(y.c1, z.c2), fp2_mul(y.c2, z.c1))));
    // c1: split the non-residue multiple and regroup six summands.
    lemma_fp2_mul_xi_add(fp2_mul(x.c2, z.c2), fp2_mul(y.c2, z.c2));
    lemma_fp2_ops_wf(fp2_mul(x.c2, z.c2), fp2_mul(y.c2, z.c2));
    lemma_fp2_regroup6(fp2_mul(x.c0, z.c1), fp2_mul(x.c1, z.c0),
        fp2_mul_xi(fp2_mul(x.c2, z.c2)), fp2_mul(y.c0, z.c1), fp2_mul(y.c1, z.c0),
        fp2_mul_xi(fp2_mul(y.c2, z.c2)));
    // c2: regroup six summands.
    lemma_fp2_regroup6(fp2_mul(x.c0, z.c2), fp2_mul(x.c2, z.c0), fp2_mul(x.c1, z.c1),
        fp2_mul(y.c0, z.c2), fp2_mul(y.c2, z.c0), fp2_mul(y.c1, z.c1));
}

/// The Karatsuba combination of the two plain products and the product of
/// sums yields exactly the two cross products.
pub proof fn lemma_fp6_karatsuba(a0: SpecFp6, a1: SpecFp6, b0: SpecFp6, b1: SpecFp6)
    requires
        fp6_wf(a0),
        fp6_wf(a1),
        fp6_wf(b0),
        fp6_wf(b1),
    ensures
        fp6_sub(
            fp6_sub(fp6_mul(fp6_add(a0, a1), fp6_add(b0, b1)), fp6_mul(a0, b0)),
            fp6_mul(a1, b1),
        ) == fp6_add(fp6_mul(a0, b1), fp6_mul(a1, b0)),
{
    let sb = fp6_add(b0, b1);
    lemma_fp6_add_wf(b0, b1);
    lemma_fp6_mul_distrib(a0, a1, sb);
    lemma_fp6_mul_comm(a0, sb);
    lemma_fp6_mul_distrib(b0, b1, a0);
    lemma_fp6_mul_comm(b0, a0);
    lemma_fp6_mul_comm(b1, a0);
    lemma_fp6_mul_comm(a1, sb);
    lemma_fp6_mul_distrib(b0, b1, a1);
    lemma_fp6_mul_comm(b0, a1);
    lemma_fp6_mul_comm(b1, a1);
    assert(fp6_mul(fp6_add(a0, a1), sb) == fp6_add(
        fp6_add(fp6_mul(a0, b0), fp6_mul(a0, b1)),
        fp6_add(fp6_mul(a1, b0), fp6_mul(a1, b1)),
    ));
    lemma_fp6_mul_wf(a0, b0);
    lemma_fp6_mul_wf(a0, b1);
    lemma_fp6_mul_wf(a1, b0);
    lemma_fp6_mul_wf(a1, b1);
    lemma_fp2_karatsuba_cancel(fp6_mul(a0, b0).c0, fp6_mul(a0, b1).c0, fp6_mul(a1, b0).c0,
        fp6_mul(a1, b1).c0);
    lemma_fp2_karatsuba_cancel(fp6_mul(a0, b0).c1, fp6_mul(a0, b1).c1, fp6_mul(a1, b0).c1,
        fp6_mul(a1, b1).c1);
    lemma_fp2_karatsuba_cancel(fp6_mul(a0, b0).c2, fp6_mul(a0, b1).c2, fp6_mul(a1, b0).c2,
        fp6_mul(a1, b1).c2);
}

/// A sum's coordinates are always well-formed.
pub proof fn lemma_fp6_add_wf(x: SpecFp6, y: SpecFp6)
    ensures
        fp6_wf(fp6_add(x, y)),
{
    lemma_fp2_ops_wf(x.c0, y.c0);
    lemma_fp2_ops_wf(x.c1, y.c1);
    lemma_fp2_ops_wf(x.c2, y.c2);
}

/// Every element's view is well-formed, reduced coordinate by coordinate.
pub proof fn lemma_fp6_view_wf(x: Fp6)
    ensures
        fp6_wf(x@),
{
    crate::fp2::lemma_fp2_view_wf(x.c0);
    crate::fp2::lemma_fp2_view_wf(x.c1);
    crate::fp2::lemma_fp2_view_wf(x.c2);
}

} // verus!


