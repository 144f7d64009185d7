//! Fixed Frobenius coefficient tables.
//!
//! Each constant is a quadratic-extension value stored as Montgomery-form
//! limbs, exactly as the arithmetic backend represents it; the accompanying
//! spec function gives its reduced residue pair.  The intended meanings are
//! powers of the cubic non-residue `u + 1`:
//!
//! * `frob12_c(k)` is `(u+1)^((q^k - 1) / 6)` — the correction applied to the
//!   `c1` half after a degree-`k` Frobenius of both halves.
//! * `frob6_c1(k)` is `(u+1)^((q^k - 1) / 3)` and `frob6_c2(k)` is
//!   `(u+1)^(2(q^k - 1) / 3)` — the cubic-extension corrections.
//! * `gamma1(k)` is `(u+1)^(k(q - 1)/6)` and `gamma2(k)` is
//!   `(u+1)^(k(q^2 - 1)/6)` — the per-coordinate shifts of the two direct
//!   Frobenius code paths.
//!
//! These exponentiations are not recomputed here; the consistency of the two
//! Frobenius implementations built from them is proved in `laws`, and their
//! numeric correctness is exercised by the characteristic-power oracle test.

use vstd::prelude::*;
use crate::modular::{lemma_mod_in_fp, limb_base, prime};
use crate::fp2::{fp2_wf, limbs_int, mont_rinv, Fp2, SpecFp2};

verus! {

pub open spec fn frob12_c_0() -> SpecFp2 {
    SpecFp2 {
        re: ((((((0x15f65ec3fa80e493 * limb_base() + 0x5c071a97a256ec6d) * limb_base() + 0x77ce585370525745) * limb_base() + 0x5f48985753c758ba) * limb_base() + 0xebf4000bc40c0002) * limb_base() + 0x760900000002fffd) * mont_rinv()) % prime(),
        im: ((((((0x0 * limb_base() + 0x0) * limb_base() + 0x0) * limb_base() + 0x0) * limb_base() + 0x0) * limb_base() + 0x0) * mont_rinv()) % prime(),
    }
}

pub open spec fn frob12_c_1() -> SpecFp2 {
    SpecFp2 {
        re: ((((((0x8f2220fb0fb66eb * limb_base() + 0x1ce393ea5daace4d) * limb_base() + 0xa35baecab2dc29ee) * limb_base() + 0x97e83cccd117228f) * limb_base() + 0xc6695f92b50a8313) * limb_base() + 0x7089552b319d465) * mont_rinv()) % prime(),
        im: ((((((0x110eefda88847faf * limb_base() + 0x2e3813cbe5a0de89) * limb_base() + 0xc11b9cba40a8e8d0) * limb_base() + 0xcf4895d42599d394) * limb_base() + 0x5842a06bfc497cec) * limb_base() + 0xb2f66aad4ce5d646) * mont_rinv()) % prime(),
    }
}

pub open spec fn frob12_c_2() -> SpecFp2 {
    SpecFp2 {
        re: ((((((0x110f184e51c5f59 * limb_base() + 0x47222a47bf7b5c04) * limb_base() + 0xd5c13cc6f1ca4721) * limb_base() + 0xec08ff1232bda8e) * limb_base() + 0xc100ddb891865a2c) * limb_base() + 0xecfb361b798dba3a) * mont_rinv()) % prime(),
        im: ((((((0x0 * limb_base() + 0x0) * limb_base() + 0x0) * limb_base() + 0x0) * limb_base() + 0x0) * limb_base() + 0x0) * mont_rinv()) % prime(),
    }
}

pub open spec fn frob12_c_3() -> SpecFp2 {
    SpecFp2 {
        re: ((((((0xbd592fc7d825ec8 * limb_base() + 0x1d794e4fac7cf0b9) * limb_base() + 0x92ad2afd19103e18) * limb_base() + 0x382844c88b623732) * limb_base() + 0x4294213d86c18183) * limb_base() + 0x3e2f585da55c9ad1) * mont_rinv()) % prime(),
        im: ((((((0xe2b7eedbbfd87d2 * limb_base() + 0x2da2596696cebc1d) * limb_base() + 0xd1ca2087da74d4a7) * limb_base() + 0x2f088dd86b4ebef1) * limb_base() + 0xdc17dec12a927e7c) * limb_base() + 0x7bcfa7a25aa30fda) * mont_rinv()) % prime(),
    }
}

pub open spec fn frob12_c_4() -> SpecFp2 {
    SpecFp2 {
        re: ((((((0x51ba4ab241b6160 * limb_base() + 0x3636b76660701c6e) * limb_base() + 0xc26a2ff874fd029b) * limb_base() + 0x16a8ca3ac61577f7) * limb_base() + 0xf3b8ddab7ece5a2a) * limb_base() + 0x30f1361b798a64e8) * mont_rinv()) % prime(),
        im: ((((((0x0 * limb_base() + 0x0) * limb_base() + 0x0) * limb_base() + 0x0) * limb_base() + 0x0) * limb_base() + 0x0) * mont_rinv()) % prime(),
    }
}

pub open spec fn frob12_c_5() -> SpecFp2 {
    SpecFp2 {
        re: ((((((0x2e370eccc86f7dd * limb_base() + 0x95ba654ed2226b) * limb_base() + 0xef517c3266341429) * limb_base() + 0xa04007fbba4b14a2) * limb_base() + 0x7c2ac1aad1b6fe70) * limb_base() + 0x3726c30af242c66c) * mont_rinv()) % prime(),
        im: ((((((0x171da0fd6cf8eebd * limb_base() + 0x4a85ed50f4798a6b) * limb_base() + 0x7525cf528d50fe95) * limb_base() + 0xc6f0caa53c65e181) * limb_base() + 0xa2813e53df9d018f) * limb_base() + 0x82d83cf50dbce43f) * mont_rinv()) % prime(),
    }
}

pub open spec fn frob12_c_6() -> SpecFp2 {
    SpecFp2 {
        re: ((((((0x40ab3263eff0206 * limb_base() + 0xef148d1ea0f4c069) * limb_base() + 0xeca8f3318332bb7a) * limb_base() + 0x7e83a49a2e99d69) * limb_base() + 0x32b7fff2ed47fffd) * limb_base() + 0x43f5fffffffcaaae) * mont_rinv()) % prime(),
        im: ((((((0x0 * limb_base() + 0x0) * limb_base() + 0x0) * limb_base() + 0x0) * limb_base() + 0x0) * limb_base() + 0x0) * mont_rinv()) % prime(),
    }
}

pub open spec fn frob12_c_7() -> SpecFp2 {
    SpecFp2 {
        re: ((((((0x110eefda88847faf * limb_base() + 0x2e3813cbe5a0de89) * limb_base() + 0xc11b9cba40a8e8d0) * limb_base() + 0xcf4895d42599d394) * limb_base() + 0x5842a06bfc497cec) * limb_base() + 0xb2f66aad4ce5d646) * mont_rinv()) % prime(),
        im: ((((((0x8f2220fb0fb66eb * limb_base() + 0x1ce393ea5daace4d) * limb_base() + 0xa35baecab2dc29ee) * limb_base() + 0x97e83cccd117228f) * limb_base() + 0xc6695f92b50a8313) * limb_base() + 0x7089552b319d465) * mont_rinv()) % prime(),
    }
}

pub open spec fn frob12_c_8() -> SpecFp2 {
    SpecFp2 {
        re: ((((((0x18f0206554638741 * limb_base() + 0x3f97d6e83d050d2) * limb_base() + 0x8eb60ebe01bacb9e) * limb_base() + 0x587042afd3851b95) * limb_base() + 0x5dab22461fcda5d2) * limb_base() + 0xcd03c9e48671f071) * mont_rinv()) % prime(),
        im: ((((((0x0 * limb_base() + 0x0) * limb_base() + 0x0) * limb_base() + 0x0) * limb_base() + 0x0) * limb_base() + 0x0) * mont_rinv()) % prime(),
    }
}

pub open spec fn frob12_c_9() -> SpecFp2 {
    SpecFp2 {
        re: ((((((0xe2b7eedbbfd87d2 * limb_base() + 0x2da2596696cebc1d) * limb_base() + 0xd1ca2087da74d4a7) * limb_base() + 0x2f088dd86b4ebef1) * limb_base() + 0xdc17dec12a927e7c) * limb_base() + 0x7bcfa7a25aa30fda) * mont_rinv()) % prime(),
        im: ((((((0xbd592fc7d825ec8 * limb_base() + 0x1d794e4fac7cf0b9) * limb_base() + 0x92ad2afd19103e18) * limb_base() + 0x382844c88b623732) * limb_base() + 0x4294213d86c18183) * limb_base() + 0x3e2f585da55c9ad1) * mont_rinv()) % prime(),
    }
}

pub open spec fn frob12_c_10() -> SpecFp2 {
    SpecFp2 {
        re: ((((((0x14e56d3f1564853a * limb_base() + 0x14e4f04fe2db9068) * limb_base() + 0xa20d1b8c7e881024) * limb_base() + 0x50880866309b7e2c) * limb_base() + 0x2af322533285a5d5) * limb_base() + 0x890dc9e4867545c3) * mont_rinv()) % prime(),
        im: ((((((0x0 * limb_base() + 0x0) * limb_base() + 0x0) * limb_base() + 0x0) * limb_base() + 0x0) * limb_base() + 0x0) * mont_rinv()) % prime(),
    }
}

pub open spec fn frob12_c_11() -> SpecFp2 {
    SpecFp2 {
        re: ((((((0x171da0fd6cf8eebd * limb_base() + 0x4a85ed50f4798a6b) * limb_base() + 0x7525cf528d50fe95) * limb_base() + 0xc6f0caa53c65e181) * limb_base() + 0xa2813e53df9d018f) * limb_base() + 0x82d83cf50dbce43f) * mont_rinv()) % prime(),
        im: ((((((0x2e370eccc86f7dd * limb_base() + 0x95ba654ed2226b) * limb_base() + 0xef517c3266341429) * limb_base() + 0xa04007fbba4b14a2) * limb_base() + 0x7c2ac1aad1b6fe70) * limb_base() + 0x3726c30af242c66c) * mont_rinv()) % prime(),
    }
}

pub open spec fn frob12_c(k: int) -> SpecFp2 {
    if k == 0 { frob12_c_0() } else if k == 1 { frob12_c_1() } else if k == 2 { frob12_c_2() } else if k == 3 { frob12_c_3() } else if k == 4 { frob12_c_4() } else if k == 5 { frob12_c_5() } else if k == 6 { frob12_c_6() } else if k == 7 { frob12_c_7() } else if k == 8 { frob12_c_8() } else if k == 9 { frob12_c_9() } else if k == 10 { frob12_c_10() } else if k == 11 { frob12_c_11() } else { frob12_c_0() }
}

/// The table entry `frob12_c(k)` as an element.
pub fn frob12_c_entry(k: usize) -> (r: Fp2)
    requires
        k < 12,
    ensures
        r.wf(),
        r@ == frob12_c(k as int),
{
    match k {
        0usize =>
        {
            let r = Fp2 { re: [0x760900000002fffd, 0xebf4000bc40c0002, 0x5f48985753c758ba, 0x77ce585370525745, 0x5c071a97a256ec6d, 0x15f65ec3fa80e493], im: [0x0, 0x0, 0x0, 0x0, 0x0, 0x0] };
            proof {
                assert(limbs_int(r.re@) == (((((0x15f65ec3fa80e493 * limb_base() + 0x5c071a97a256ec6d) * limb_base() + 0x77ce585370525745) * limb_base() + 0x5f48985753c758ba) * limb_base() + 0xebf4000bc40c0002) * limb_base() + 0x760900000002fffd));
                assert(limbs_int(r.im@) == (((((0x0 * limb_base() + 0x0) * limb_base() + 0x0) * limb_base() + 0x0) * limb_base() + 0x0) * limb_base() + 0x0));
            }
            r
        },
        1usize =>
        {
            let r = Fp2 { re: [0x7089552b319d465, 0xc6695f92b50a8313, 0x97e83cccd117228f, 0xa35baecab2dc29ee, 0x1ce393ea5daace4d, 0x8f2220fb0fb66eb], im: [0xb2f66aad4ce5d646, 0x5842a06bfc497cec, 0xcf4895d42599d394, 0xc11b9cba40a8e8d0, 0x2e3813cbe5a0de89, 0x110eefda88847faf] };
            proof {
                assert(limbs_int(r.re@) == (((((0x8f2220fb0fb66eb * limb_base() + 0x1ce393ea5daace4d) * limb_base() + 0xa35baecab2dc29ee) * limb_base() + 0x97e83cccd117228f) * limb_base() + 0xc6695f92b50a8313) * limb_base() + 0x7089552b319d465));
                assert(limbs_int(r.im@) == (((((0x110eefda88847faf * limb_base() + 0x2e3813cbe5a0de89) * limb_base() + 0xc11b9cba40a8e8d0) * limb_base() + 0xcf4895d42599d394) * limb_base() + 0x5842a06bfc497cec) * limb_base() + 0xb2f66aad4ce5d646));
            }
            r
        },
        2usize =>
        {
            let r = Fp2 { re: [0xecfb361b798dba3a, 0xc100ddb891865a2c, 0xec08ff1232bda8e, 0xd5c13cc6f1ca4721, 0x47222a47bf7b5c04, 0x110f184e51c5f59], im: [0x0, 0x0, 0x0, 0x0, 0x0, 0x0] };
            proof {
                assert(limbs_int(r.re@) == (((((0x110f184e51c5f59 * limb_base() + 0x47222a47bf7b5c04) * limb_base() + 0xd5c13cc6f1ca4721) * limb_base() + 0xec08ff1232bda8e) * limb_base() + 0xc100ddb891865a2c) * limb_base() + 0xecfb361b798dba3a));
                assert(limbs_int(r.im@) == (((((0x0 * limb_base() + 0x0) * limb_base() + 0x0) * limb_base() + 0x0) * limb_base() + 0x0) * limb_base() + 0x0));
            }
            r
        },
        3usize =>
        {
            let r = Fp2 { re: [0x3e2f585da55c9ad1, 0x4294213d86c18183, 0x382844c88b623732, 0x92ad2afd19103e18, 0x1d794e4fac7cf0b9, 0xbd592fc7d825ec8], im: [0x7bcfa7a25aa30fda, 0xdc17dec12a927e7c, 0x2f088dd86b4ebef1, 0xd1ca2087da74d4a7, 0x2da2596696cebc1d, 0xe2b7eedbbfd87d2] };
            proof {
                assert(limbs_int(r.re@) == (((((0xbd592fc7d825ec8 * limb_base() + 0x1d794e4fac7cf0b9) * limb_base() + 0x92ad2afd19103e18) * limb_base() + 0x382844c88b623732) * limb_base() + 0x4294213d86c18183) * limb_base() + 0x3e2f585da55c9ad1));
                assert(limbs_int(r.im@) == (((((0xe2b7eedbbfd87d2 * limb_base() + 0x2da2596696cebc1d) * limb_base() + 0xd1ca2087da74d4a7) * limb_base() + 0x2f088dd86b4ebef1) * limb_base() + 0xdc17dec12a927e7c) * limb_base() + 0x7bcfa7a25aa30fda));
            }
            r
        },
        4usize =>
        {
            let r = Fp2 { re: [0x30f1361b798a64e8, 0xf3b8ddab7ece5a2a, 0x16a8ca3ac61577f7, 0xc26a2ff874fd029b, 0x3636b76660701c6e, 0x51ba4ab241b6160], im: [0x0, 0x0, 0x0, 0x0, 0x0, 0x0] };
            proof {
                assert(limbs_int(r.re@) == (((((0x51ba4ab241b6160 * limb_base() + 0x3636b76660701c6e) * limb_base() + 0xc26a2ff874fd029b) * limb_base() + 0x16a8ca3ac61577f7) * limb_base() + 0xf3b8ddab7ece5a2a) * limb_base() + 0x30f1361b798a64e8));
                assert(limbs_int(r.im@) == (((((0x0 * limb_base() + 0x0) * limb_base() + 0x0) * limb_base() + 0x0) * limb_base() + 0x0) * limb_base() + 0x0));
            }
            r
        },
        5usize =>
        {
            let r = Fp2 { re: [0x3726c30af242c66c, 0x7c2ac1aad1b6fe70, 0xa04007fbba4b14a2, 0xef517c3266341429, 0x95ba654ed2226b, 0x2e370eccc86f7dd], im: [0x82d83cf50dbce43f, 0xa2813e53df9d018f, 0xc6f0caa53c65e181, 0x7525cf528d50fe95, 0x4a85ed50f4798a6b, 0x171da0fd6cf8eebd] };
            proof {
                assert(limbs_int(r.re@) == (((((0x2e370eccc86f7dd * limb_base() + 0x95ba654ed2226b) * limb_base() + 0xef517c3266341429) * limb_base() + 0xa04007fbba4b14a2) * limb_base() + 0x7c2ac1aad1b6fe70) * limb_base() + 0x3726c30af242c66c));
                assert(limbs_int(r.im@) == (((((0x171da0fd6cf8eebd * limb_base() + 0x4a85ed50f4798a6b) * limb_base() + 0x7525cf528d50fe95) * limb_base() + 0xc6f0caa53c65e181) * limb_base() + 0xa2813e53df9d018f) * limb_base() + 0x82d83cf50dbce43f));
            }
            r
        },
        6usize =>
        {
            let r = Fp2 { re: [0x43f5fffffffcaaae, 0x32b7fff2ed47fffd, 0x7e83a49a2e99d69, 0xeca8f3318332bb7a, 0xef148d1ea0f4c069, 0x40ab3263eff0206], im: [0x0, 0x0, 0x0, 0x0, 0x0, 0x0] };
            proof {
                assert(limbs_int(r.re@) == (((((0x40ab3263eff0206 * limb_base() + 0xef148d1ea0f4c069) * limb_base() + 0xeca8f3318332bb7a) * limb_base() + 0x7e83a49a2e99d69) * limb_base() + 0x32b7fff2ed47fffd) * limb_base() + 0x43f5fffffffcaaae));
                assert(limbs_int(r.im@) == (((((0x0 * limb_base() + 0x0) * limb_base() + 0x0) * limb_base() + 0x0) * limb_base() + 0x0) * limb_base() + 0x0));
            }
            r
        },
        7usize =>
        {
            let r = Fp2 { re: [0xb2f66aad4ce5d646, 0x5842a06bfc497cec, 0xcf4895d42599d394, 0xc11b9cba40a8e8d0, 0x2e3813cbe5a0de89, 0x110eefda88847faf], im: [0x7089552b319d465, 0xc6695f92b50a8313, 0x97e83cccd117228f, 0xa35baecab2dc29ee, 0x1ce393ea5daace4d, 0x8f2220fb0fb66eb] };
            proof {
                assert(limbs_int(r.re@) == (((((0x110eefda88847faf * limb_base() + 0x2e3813cbe5a0de89) * limb_base() + 0xc11b9cba40a8e8d0) * limb_base() + 0xcf4895d42599d394) * limb_base() + 0x5842a06bfc497cec) * limb_base() + 0xb2f66aad4ce5d646));
                assert(limbs_int(r.im@) == (((((0x8f2220fb0fb66eb * limb_base() + 0x1ce393ea5daace4d) * limb_base() + 0xa35baecab2dc29ee) * limb_base() + 0x97e83cccd117228f) * limb_base() + 0xc6695f92b50a8313) * limb_base() + 0x7089552b319d465));
            }
            r
        },
        8usize =>
        {
            let r = Fp2 { re: [0xcd03c9e48671f071, 0x5dab22461fcda5d2, 0x587042afd3851b95, 0x8eb60ebe01bacb9e, 0x3f97d6e83d050d2, 0x18f0206554638741], im: [0x0, 0x0, 0x0, 0x0, 0x0, 0x0] };
            proof {
                assert(limbs_int(r.re@) == (((((0x18f0206554638741 * limb_base() + 0x3f97d6e83d050d2) * limb_base() + 0x8eb60ebe01bacb9e) * limb_base() + 0x587042afd3851b95) * limb_base() + 0x5dab22461fcda5d2) * limb_base() + 0xcd03c9e48671f071));
                assert(limbs_int(r.im@) == (((((0x0 * limb_base() + 0x0) * limb_base() + 0x0) * limb_base() + 0x0) * limb_base() + 0x0) * limb_base() + 0x0));
            }
            r
        },
        9usize =>
        {
            let r = Fp2 { re: [0x7bcfa7a25aa30fda, 0xdc17dec12a927e7c, 0x2f088dd86b4ebef1, 0xd1ca2087da74d4a7, 0x2da2596696cebc1d, 0xe2b7eedbbfd87d2], im: [0x3e2f585da55c9ad1, 0x4294213d86c18183, 0x382844c88b623732, 0x92ad2afd19103e18, 0x1d794e4fac7cf0b9, 0xbd592fc7d825ec8] };
            proof {
                assert(limbs_int(r.re@) == (((((0xe2b7eedbbfd87d2 * limb_base() + 0x2da2596696cebc1d) * limb_base() + 0xd1ca2087da74d4a7) * limb_base() + 0x2f088dd86b4ebef1) * limb_base() + 0xdc17dec12a927e7c) * limb_base() + 0x7bcfa7a25aa30fda));
                assert(limbs_int(r.im@) == (((((0xbd592fc7d825ec8 * limb_base() + 0x1d794e4fac7cf0b9) * limb_base() + 0x92ad2afd19103e18) * limb_base() + 0x382844c88b623732) * limb_base() + 0x4294213d86c18183) * limb_base() + 0x3e2f585da55c9ad1));
            }
            r
        },
        10usize =>
        {
            let r = Fp2 { re: [0x890dc9e4867545c3, 0x2af322533285a5d5, 0x50880866309b7e2c, 0xa20d1b8c7e881024, 0x14e4f04fe2db9068, 0x14e56d3f1564853a], im: [0x0, 0x0, 0x0, 0x0, 0x0, 0x0] };
            proof {
                assert(limbs_int(r.re@) == (((((0x14e56d3f1564853a * limb_base() + 0x14e4f04fe2db9068) * limb_base() + 0xa20d1b8c7e881024) * limb_base() + 0x50880866309b7e2c) * limb_base() + 0x2af322533285a5d5) * limb_base() + 0x890dc9e4867545c3));
                assert(limbs_int(r.im@) == (((((0x0 * limb_base() + 0x0) * limb_base() + 0x0) * limb_base() + 0x0) * limb_base() + 0x0) * limb_base() + 0x0));
            }
            r
        },
        11usize =>
        {
            let r = Fp2 { re: [0x82d83cf50dbce43f, 0xa2813e53df9d018f, 0xc6f0caa53c65e181, 0x7525cf528d50fe95, 0x4a85ed50f4798a6b, 0x171da0fd6cf8eebd], im: [0x3726c30af242c66c, 0x7c2ac1aad1b6fe70, 0xa04007fbba4b14a2, 0xef517c3266341429, 0x95ba654ed2226b, 0x2e370eccc86f7dd] };
            proof {
                assert(limbs_int(r.re@) == (((((0x171da0fd6cf8eebd * limb_base() + 0x4a85ed50f4798a6b) * limb_base() + 0x7525cf528d50fe95) * limb_base() + 0xc6f0caa53c65e181) * limb_base() + 0xa2813e53df9d018f) * limb_base() + 0x82d83cf50dbce43f));
                assert(limbs_int(r.im@) == (((((0x2e370eccc86f7dd * limb_base() + 0x95ba654ed2226b) * limb_base() + 0xef517c3266341429) * limb_base() + 0xa04007fbba4b14a2) * limb_base() + 0x7c2ac1aad1b6fe70) * limb_base() + 0x3726c30af242c66c));
            }
            r
        },
        _ => Fp2::zero(),
    }
}

pub open spec fn frob6_c1_0() -> SpecFp2 {
    SpecFp2 {
        re: ((((((0x15f65ec3fa80e493 * limb_base() + 0x5c071a97a256ec6d) * limb_base() + 0x77ce585370525745) * limb_base() + 0x5f48985753c758ba) * limb_base() + 0xebf4000bc40c0002) * limb_base() + 0x760900000002fffd) * mont_rinv()) % prime(),
        im: ((((((0x0 * limb_base() + 0x0) * limb_base() + 0x0) * limb_base() + 0x0) * limb_base() + 0x0) * limb_base() + 0x0) * mont_rinv()) % prime(),
    }
}

pub open spec fn frob6_c1_1() -> SpecFp2 {
    SpecFp2 {
        re: ((((((0x0 * limb_base() + 0x0) * limb_base() + 0x0) * limb_base() + 0x0) * limb_base() + 0x0) * limb_base() + 0x0) * mont_rinv()) % prime(),
        im: ((((((0x18f0206554638741 * limb_base() + 0x3f97d6e83d050d2) * limb_base() + 0x8eb60ebe01bacb9e) * limb_base() + 0x587042afd3851b95) * limb_base() + 0x5dab22461fcda5d2) * limb_base() + 0xcd03c9e48671f071) * mont_rinv()) % prime(),
    }
}

pub open spec fn frob6_c1_2() -> SpecFp2 {
    SpecFp2 {
        re: ((((((0x51ba4ab241b6160 * limb_base() + 0x3636b76660701c6e) * limb_base() + 0xc26a2ff874fd029b) * limb_base() + 0x16a8ca3ac61577f7) * limb_base() + 0xf3b8ddab7ece5a2a) * limb_base() + 0x30f1361b798a64e8) * mont_rinv()) % prime(),
        im: ((((((0x0 * limb_base() + 0x0) * limb_base() + 0x0) * limb_base() + 0x0) * limb_base() + 0x0) * limb_base() + 0x0) * mont_rinv()) % prime(),
    }
}

pub open spec fn frob6_c1_3() -> SpecFp2 {
    SpecFp2 {
        re: ((((((0x0 * limb_base() + 0x0) * limb_base() + 0x0) * limb_base() + 0x0) * limb_base() + 0x0) * limb_base() + 0x0) * mont_rinv()) % prime(),
        im: ((((((0x15f65ec3fa80e493 * limb_base() + 0x5c071a97a256ec6d) * limb_base() + 0x77ce585370525745) * limb_base() + 0x5f48985753c758ba) * limb_base() + 0xebf4000bc40c0002) * limb_base() + 0x760900000002fffd) * mont_rinv()) % prime(),
    }
}

pub open spec fn frob6_c1_4() -> SpecFp2 {
    SpecFp2 {
        re: ((((((0x18f0206554638741 * limb_base() + 0x3f97d6e83d050d2) * limb_base() + 0x8eb60ebe01bacb9e) * limb_base() + 0x587042afd3851b95) * limb_base() + 0x5dab22461fcda5d2) * limb_base() + 0xcd03c9e48671f071) * mont_rinv()) % prime(),
        im: ((((((0x0 * limb_base() + 0x0) * limb_base() + 0x0) * limb_base() + 0x0) * limb_base() + 0x0) * limb_base() + 0x0) * mont_rinv()) % prime(),
    }
}

pub open spec fn frob6_c1_5() -> SpecFp2 {
    SpecFp2 {
        re: ((((((0x0 * limb_base() + 0x0) * limb_base() + 0x0) * limb_base() + 0x0) * limb_base() + 0x0) * limb_base() + 0x0) * mont_rinv()) % prime(),
        im: ((((((0x51ba4ab241b6160 * limb_base() + 0x3636b76660701c6e) * limb_base() + 0xc26a2ff874fd029b) * limb_base() + 0x16a8ca3ac61577f7) * limb_base() + 0xf3b8ddab7ece5a2a) * limb_base() + 0x30f1361b798a64e8) * mont_rinv()) % prime(),
    }
}

pub open spec fn frob6_c1(k: int) -> SpecFp2 {
    if k == 0 { frob6_c1_0() } else if k == 1 { frob6_c1_1() } else if k == 2 { frob6_c1_2() } else if k == 3 { frob6_c1_3() } else if k == 4 { frob6_c1_4() } else if k == 5 { frob6_c1_5() } else { frob6_c1_0() }
}

/// The table entry `frob6_c1(k)` as an element.
pub fn frob6_c1_entry(k: usize) -> (r: Fp2)
    requires
        k < 6,
    ensures
        r.wf(),
        r@ == frob6_c1(k as int),
{
    match k {
        0usize =>
        {
            let r = Fp2 { re: [0x760900000002fffd, 0xebf4000bc40c0002, 0x5f48985753c758ba, 0x77ce585370525745, 0x5c071a97a256ec6d, 0x15f65ec3fa80e493], im: [0x0, 0x0, 0x0, 0x0, 0x0, 0x0] };
            proof {
                assert(limbs_int(r.re@) == (((((0x15f65ec3fa80e493 * limb_base() + 0x5c071a97a256ec6d) * limb_base() + 0x77ce585370525745) * limb_base() + 0x5f48985753c758ba) * limb_base() + 0xebf4000bc40c0002) * limb_base() + 0x760900000002fffd));
                assert(limbs_int(r.im@) == (((((0x0 * limb_base() + 0x0) * limb_base() + 0x0) * limb_base() + 0x0) * limb_base() + 0x0) * limb_base() + 0x0));
            }
            r
        },
        1usize =>
        {
            let r = Fp2 { re: [0x0, 0x0, 0x0, 0x0, 0x0, 0x0], im: [0xcd03c9e48671f071, 0x5dab22461fcda5d2, 0x587042afd3851b95, 0x8eb60ebe01bacb9e, 0x3f97d6e83d050d2, 0x18f0206554638741] };
            proof {
                assert(limbs_int(r.re@) == (((((0x0 * limb_base() + 0x0) * limb_base() + 0x0) * limb_base() + 0x0) * limb_base() + 0x0) * limb_base() + 0x0));
                assert(limbs_int(r.im@) == (((((0x18f0206554638741 * limb_base() + 0x3f97d6e83d050d2) * limb_base() + 0x8eb60ebe01bacb9e) * limb_base() + 0x587042afd3851b95) * limb_base() + 0x5dab22461fcda5d2) * limb_base() + 0xcd03c9e48671f071));
            }
            r
        },
        2usize =>
        {
            let r = Fp2 { re: [0x30f1361b798a64e8, 0xf3b8ddab7ece5a2a, 0x16a8ca3ac61577f7, 0xc26a2ff874fd029b, 0x3636b76660701c6e, 0x51ba4ab241b6160], im: [0x0, 0x0, 0x0, 0x0, 0x0, 0x0] };
            proof {
                assert(limbs_int(r.re@) == (((((0x51ba4ab241b6160 * limb_base() + 0x3636b76660701c6e) * limb_base() + 0xc26a2ff874fd029b) * limb_base() + 0x16a8ca3ac61577f7) * limb_base() + 0xf3b8ddab7ece5a2a) * limb_base() + 0x30f1361b798a64e8));
                assert(limbs_int(r.im@) == (((((0x0 * limb_base() + 0x0) * limb_base() + 0x0) * limb_base() + 0x0) * limb_base() + 0x0) * limb_base() + 0x0));
            }
            r
        },
        3usize =>
        {
            let r = Fp2 { re: [0x0, 0x0, 0x0, 0x0, 0x0, 0x0], im: [0x760900000002fffd, 0xebf4000bc40c0002, 0x5f48985753c758ba, 0x77ce585370525745, 0x5c071a97a256ec6d, 0x15f65ec3fa80e493] };
            proof {
                assert(limbs_int(r.re@) == (((((0x0 * limb_base() + 0x0) * limb_base() + 0x0) * limb_base() + 0x0) * limb_base() + 0x0) * limb_base() + 0x0));
                assert(limbs_int(r.im@) == (((((0x15f65ec3fa80e493 * limb_base() + 0x5c071a97a256ec6d) * limb_base() + 0x77ce585370525745) * limb_base() + 0x5f48985753c758ba) * limb_base() + 0xebf4000bc40c0002) * limb_base() + 0x760900000002fffd));
            }
            r
        },
        4usize =>
        {
            let r = Fp2 { re: [0xcd03c9e48671f071, 0x5dab22461fcda5d2, 0x587042afd3851b95, 0x8eb60ebe01bacb9e, 0x3f97d6e83d050d2, 0x18f0206554638741], im: [0x0, 0x0, 0x0, 0x0, 0x0, 0x0] };
            proof {
                assert(limbs_int(r.re@) == (((((0x18f0206554638741 * limb_base() + 0x3f97d6e83d050d2) * limb_base() + 0x8eb60ebe01bacb9e) * limb_base() + 0x587042afd3851b95) * limb_base() + 0x5dab22461fcda5d2) * limb_base() + 0xcd03c9e48671f071));
                assert(limbs_int(r.im@) == (((((0x0 * limb_base() + 0x0) * limb_base() + 0x0) * limb_base() + 0x0) * limb_base() + 0x0) * limb_base() + 0x0));
            }
            r
        },
        5usize =>
        {
            let r = Fp2 { re: [0x0, 0x0, 0x0, 0x0, 0x0, 0x0], im: [0x30f1361b798a64e8, 0xf3b8ddab7ece5a2a, 0x16a8ca3ac61577f7, 0xc26a2ff874fd029b, 0x3636b76660701c6e, 0x51ba4ab241b6160] };
            proof {
                assert(limbs_int(r.re@) == (((((0x0 * limb_base() + 0x0) * limb_base() + 0x0) * limb_base() + 0x0) * limb_base() + 0x0) * limb_base() + 0x0));
                assert(limbs_int(r.im@) == (((((0x51ba4ab241b6160 * limb_base() + 0x3636b76660701c6e) * limb_base() + 0xc26a2ff874fd029b) * limb_base() + 0x16a8ca3ac61577f7) * limb_base() + 0xf3b8ddab7ece5a2a) * limb_base() + 0x30f1361b798a64e8));
            }
            r
        },
        _ => Fp2::zero(),
    }
}

pub open spec fn frob6_c2_0() -> SpecFp2 {
    SpecFp2 {
        re: ((((((0x15f65ec3fa80e493 * limb_base() + 0x5c071a97a256ec6d) * limb_base() + 0x77ce585370525745) * limb_base() + 0x5f48985753c758ba) * limb_base() + 0xebf4000bc40c0002) * limb_base() + 0x760900000002fffd) * mont_rinv()) % prime(),
        im: ((((((0x0 * limb_base() + 0x0) * limb_base() + 0x0) * limb_base() + 0x0) * limb_base() + 0x0) * limb_base() + 0x0) * mont_rinv()) % prime(),
    }
}

pub open spec fn frob6_c2_1() -> SpecFp2 {
    SpecFp2 {
        re: ((((((0x14e56d3f1564853a * limb_base() + 0x14e4f04fe2db9068) * limb_base() + 0xa20d1b8c7e881024) * limb_base() + 0x50880866309b7e2c) * limb_base() + 0x2af322533285a5d5) * limb_base() + 0x890dc9e4867545c3) * mont_rinv()) % prime(),
        im: ((((((0x0 * limb_base() + 0x0) * limb_base() + 0x0) * limb_base() + 0x0) * limb_base() + 0x0) * limb_base() + 0x0) * mont_rinv()) % prime(),
    }
}

pub open spec fn frob6_c2_2() -> SpecFp2 {
    SpecFp2 {
        re: ((((((0x18f0206554638741 * limb_base() + 0x3f97d6e83d050d2) * limb_base() + 0x8eb60ebe01bacb9e) * limb_base() + 0x587042afd3851b95) * limb_base() + 0x5dab22461fcda5d2) * limb_base() + 0xcd03c9e48671f071) * mont_rinv()) % prime(),
        im: ((((((0x0 * limb_base() + 0x0) * limb_base() + 0x0) * limb_base() + 0x0) * limb_base() + 0x0) * limb_base() + 0x0) * mont_rinv()) % prime(),
    }
}

pub open spec fn frob6_c2_3() -> SpecFp2 {
    SpecFp2 {
        re: ((((((0x40ab3263eff0206 * limb_base() + 0xef148d1ea0f4c069) * limb_base() + 0xeca8f3318332bb7a) * limb_base() + 0x7e83a49a2e99d69) * limb_base() + 0x32b7fff2ed47fffd) * limb_base() + 0x43f5fffffffcaaae) * mont_rinv()) % prime(),
        im: ((((((0x0 * limb_base() + 0x0) * limb_base() + 0x0) * limb_base() + 0x0) * limb_base() + 0x0) * limb_base() + 0x0) * mont_rinv()) % prime(),
    }
}

pub open spec fn frob6_c2_4() -> SpecFp2 {
    SpecFp2 {
        re: ((((((0x51ba4ab241b6160 * limb_base() + 0x3636b76660701c6e) * limb_base() + 0xc26a2ff874fd029b) * limb_base() + 0x16a8ca3ac61577f7) * limb_base() + 0xf3b8ddab7ece5a2a) * limb_base() + 0x30f1361b798a64e8) * mont_rinv()) % prime(),
        im: ((((((0x0 * limb_base() + 0x0) * limb_base() + 0x0) * limb_base() + 0x0) * limb_base() + 0x0) * limb_base() + 0x0) * mont_rinv()) % prime(),
    }
}

pub open spec fn frob6_c2_5() -> SpecFp2 {
    SpecFp2 {
        re: ((((((0x110f184e51c5f59 * limb_base() + 0x47222a47bf7b5c04) * limb_base() + 0xd5c13cc6f1ca4721) * limb_base() + 0xec08ff1232bda8e) * limb_base() + 0xc100ddb891865a2c) * limb_base() + 0xecfb361b798dba3a) * mont_rinv()) % prime(),
        im: ((((((0x0 * limb_base() + 0x0) * limb_base() + 0x0) * limb_base() + 0x0) * limb_base() + 0x0) * limb_base() + 0x0) * mont_rinv()) % prime(),
    }
}

pub open spec fn frob6_c2(k: int) -> SpecFp2 {
    if k == 0 { frob6_c2_0() } else if k == 1 { frob6_c2_1() } else if k == 2 { frob6_c2_2() } else if k == 3 { frob6_c2_3() } else if k == 4 { frob6_c2_4() } else if k == 5 { frob6_c2_5() } else { frob6_c2_0() }
}

/// The table entry `frob6_c2(k)` as an element.
pub fn frob6_c2_entry(k: usize) -> (r: Fp2)
    requires
        k < 6,
    ensures
        r.wf(),
        r@ == frob6_c2(k as int),
{
    match k {
        0usize =>
        {
            let r = Fp2 { re: [0x760900000002fffd, 0xebf4000bc40c0002, 0x5f48985753c758ba, 0x77ce585370525745, 0x5c071a97a256ec6d, 0x15f65ec3fa80e493], im: [0x0, 0x0, 0x0, 0x0, 0x0, 0x0] };
            proof {
                assert(limbs_int(r.re@) == (((((0x15f65ec3fa80e493 * limb_base() + 0x5c071a97a256ec6d) * limb_base() + 0x77ce585370525745) * limb_base() + 0x5f48985753c758ba) * limb_base() + 0xebf4000bc40c0002) * limb_base() + 0x760900000002fffd));
                assert(limbs_int(r.im@) == (((((0x0 * limb_base() + 0x0) * limb_base() + 0x0) * limb_base() + 0x0) * limb_base() + 0x0) * limb_base() + 0x0));
            }
            r
        },
        1usize =>
        {
            let r = Fp2 { re: [0x890dc9e4867545c3, 0x2af322533285a5d5, 0x50880866309b7e2c, 0xa20d1b8c7e881024, 0x14e4f04fe2db9068, 0x14e56d3f1564853a], im: [0x0, 0x0, 0x0, 0x0, 0x0, 0x0] };
            proof {
                assert(limbs_int(r.re@) == (((((0x14e56d3f1564853a * limb_base() + 0x14e4f04fe2db9068) * limb_base() + 0xa20d1b8c7e881024) * limb_base() + 0x50880866309b7e2c) * limb_base() + 0x2af322533285a5d5) * limb_base() + 0x890dc9e4867545c3));
                assert(limbs_int(r.im@) == (((((0x0 * limb_base() + 0x0) * limb_base() + 0x0) * limb_base() + 0x0) * limb_base() + 0x0) * limb_base() + 0x0));
            }
            r
        },
        2usize =>
        {
            let r = Fp2 { re: [0xcd03c9e48671f071, 0x5dab22461fcda5d2, 0x587042afd3851b95, 0x8eb60ebe01bacb9e, 0x3f97d6e83d050d2, 0x18f0206554638741], im: [0x0, 0x0, 0x0, 0x0, 0x0, 0x0] };
            proof {
                assert(limbs_int(r.re@) == (((((0x18f0206554638741 * limb_base() + 0x3f97d6e83d050d2) * limb_base() + 0x8eb60ebe01bacb9e) * limb_base() + 0x587042afd3851b95) * limb_base() + 0x5dab22461fcda5d2) * limb_base() + 0xcd03c9e48671f071));
                assert(limbs_int(r.im@) == (((((0x0 * limb_base() + 0x0) * limb_base() + 0x0) * limb_base() + 0x0) * limb_base() + 0x0) * limb_base() + 0x0));
            }
            r
        },
        3usize =>
        {
            let r = Fp2 { re: [0x43f5fffffffcaaae, 0x32b7fff2ed47fffd, 0x7e83a49a2e99d69, 0xeca8f3318332bb7a, 0xef148d1ea0f4c069, 0x40ab3263eff0206], im: [0x0, 0x0, 0x0, 0x0, 0x0, 0x0] };
            proof {
                assert(limbs_int(r.re@) == (((((0x40ab3263eff0206 * limb_base() + 0xef148d1ea0f4c069) * limb_base() + 0xeca8f3318332bb7a) * limb_base() + 0x7e83a49a2e99d69) * limb_base() + 0x32b7fff2ed47fffd) * limb_base() + 0x43f5fffffffcaaae));
                assert(limbs_int(r.im@) == (((((0x0 * limb_base() + 0x0) * limb_base() + 0x0) * limb_base() + 0x0) * limb_base() + 0x0) * limb_base() + 0x0));
            }
            r
        },
        4usize =>
        {
            let r = Fp2 { re: [0x30f1361b798a64e8, 0xf3b8ddab7ece5a2a, 0x16a8ca3ac61577f7, 0xc26a2ff874fd029b, 0x3636b76660701c6e, 0x51ba4ab241b6160], im: [0x0, 0x0, 0x0, 0x0, 0x0, 0x0] };
            proof {
                assert(limbs_int(r.re@) == (((((0x51ba4ab241b6160 * limb_base() + 0x3636b76660701c6e) * limb_base() + 0xc26a2ff874fd029b) * limb_base() + 0x16a8ca3ac61577f7) * limb_base() + 0xf3b8ddab7ece5a2a) * limb_base() + 0x30f1361b798a64e8));
                assert(limbs_int(r.im@) == (((((0x0 * limb_base() + 0x0) * limb_base() + 0x0) * limb_base() + 0x0) * limb_base() + 0x0) * limb_base() + 0x0));
            }
            r
        },
        5usize =>
        {
            let r = Fp2 { re: [0xecfb361b798dba3a, 0xc100ddb891865a2c, 0xec08ff1232bda8e, 0xd5c13cc6f1ca4721, 0x47222a47bf7b5c04, 0x110f184e51c5f59], im: [0x0, 0x0, 0x0, 0x0, 0x0, 0x0] };
            proof {
                assert(limbs_int(r.re@) == (((((0x110f184e51c5f59 * limb_base() + 0x47222a47bf7b5c04) * limb_base() + 0xd5c13cc6f1ca4721) * limb_base() + 0xec08ff1232bda8e) * limb_base() + 0xc100ddb891865a2c) * limb_base() + 0xecfb361b798dba3a));
                assert(limbs_int(r.im@) == (((((0x0 * limb_base() + 0x0) * limb_base() + 0x0) * limb_base() + 0x0) * limb_base() + 0x0) * limb_base() + 0x0));
            }
            r
        },
        _ => Fp2::zero(),
    }
}

pub open spec fn gamma1_1() -> SpecFp2 {
    SpecFp2 {
        re: ((((((0x8f2220fb0fb66eb * limb_base() + 0x1ce393ea5daace4d) * limb_base() + 0xa35baecab2dc29ee) * limb_base() + 0x97e83cccd117228f) * limb_base() + 0xc6695f92b50a8313) * limb_base() + 0x7089552b319d465) * mont_rinv()) % prime(),
        im: ((((((0x110eefda88847faf * limb_base() + 0x2e3813cbe5a0de89) * limb_base() + 0xc11b9cba40a8e8d0) * limb_base() + 0xcf4895d42599d394) * limb_base() + 0x5842a06bfc497cec) * limb_base() + 0xb2f66aad4ce5d646) * mont_rinv()) % prime(),
    }
}

pub open spec fn gamma1_2() -> SpecFp2 {
    SpecFp2 {
        re: ((((((0x0 * limb_base() + 0x0) * limb_base() + 0x0) * limb_base() + 0x0) * limb_base() + 0x0) * limb_base() + 0x0) * mont_rinv()) % prime(),
        im: ((((((0x18f0206554638741 * limb_base() + 0x3f97d6e83d050d2) * limb_base() + 0x8eb60ebe01bacb9e) * limb_base() + 0x587042afd3851b95) * limb_base() + 0x5dab22461fcda5d2) * limb_base() + 0xcd03c9e48671f071) * mont_rinv()) % prime(),
    }
}

pub open spec fn gamma1_3() -> SpecFp2 {
    SpecFp2 {
        re: ((((((0xe2b7eedbbfd87d2 * limb_base() + 0x2da2596696cebc1d) * limb_base() + 0xd1ca2087da74d4a7) * limb_base() + 0x2f088dd86b4ebef1) * limb_base() + 0xdc17dec12a927e7c) * limb_base() + 0x7bcfa7a25aa30fda) * mont_rinv()) % prime(),
        im: ((((((0xe2b7eedbbfd87d2 * limb_base() + 0x2da2596696cebc1d) * limb_base() + 0xd1ca2087da74d4a7) * limb_base() + 0x2f088dd86b4ebef1) * limb_base() + 0xdc17dec12a927e7c) * limb_base() + 0x7bcfa7a25aa30fda) * mont_rinv()) % prime(),
    }
}

pub open spec fn gamma1_4() -> SpecFp2 {
    SpecFp2 {
        re: ((((((0x14e56d3f1564853a * limb_base() + 0x14e4f04fe2db9068) * limb_base() + 0xa20d1b8c7e881024) * limb_base() + 0x50880866309b7e2c) * limb_base() + 0x2af322533285a5d5) * limb_base() + 0x890dc9e4867545c3) * mont_rinv()) % prime(),
        im: ((((((0x0 * limb_base() + 0x0) * limb_base() + 0x0) * limb_base() + 0x0) * limb_base() + 0x0) * limb_base() + 0x0) * mont_rinv()) % prime(),
    }
}

pub open spec fn gamma1_5() -> SpecFp2 {
    SpecFp2 {
        re: ((((((0x171da0fd6cf8eebd * limb_base() + 0x4a85ed50f4798a6b) * limb_base() + 0x7525cf528d50fe95) * limb_base() + 0xc6f0caa53c65e181) * limb_base() + 0xa2813e53df9d018f) * limb_base() + 0x82d83cf50dbce43f) * mont_rinv()) % prime(),
        im: ((((((0x2e370eccc86f7dd * limb_base() + 0x95ba654ed2226b) * limb_base() + 0xef517c3266341429) * limb_base() + 0xa04007fbba4b14a2) * limb_base() + 0x7c2ac1aad1b6fe70) * limb_base() + 0x3726c30af242c66c) * mont_rinv()) % prime(),
    }
}

pub open spec fn gamma1(k: int) -> SpecFp2 {
    if k == 1 { gamma1_1() } else if k == 2 { gamma1_2() } else if k == 3 { gamma1_3() } else if k == 4 { gamma1_4() } else if k == 5 { gamma1_5() } else { gamma1_1() }
}

/// The shift constant `gamma1(k)` as an element.
pub fn gamma1_entry(k: usize) -> (r: Fp2)
    requires
        1 <= k < 6,
    ensures
        r.wf(),
        r@ == gamma1(k as int),
{
    match k {
        1usize =>
        {
            let r = Fp2 { re: [0x7089552b319d465, 0xc6695f92b50a8313, 0x97e83cccd117228f, 0xa35baecab2dc29ee, 0x1ce393ea5daace4d, 0x8f2220fb0fb66eb], im: [0xb2f66aad4ce5d646, 0x5842a06bfc497cec, 0xcf4895d42599d394, 0xc11b9cba40a8e8d0, 0x2e3813cbe5a0de89, 0x110eefda88847faf] };
            proof {
                assert(limbs_int(r.re@) == (((((0x8f2220fb0fb66eb * limb_base() + 0x1ce393ea5daace4d) * limb_base() + 0xa35baecab2dc29ee) * limb_base() + 0x97e83cccd117228f) * limb_base() + 0xc6695f92b50a8313) * limb_base() + 0x7089552b319d465));
                assert(limbs_int(r.im@) == (((((0x110eefda88847faf * limb_base() + 0x2e3813cbe5a0de89) * limb_base() + 0xc11b9cba40a8e8d0) * limb_base() + 0xcf4895d42599d394) * limb_base() + 0x5842a06bfc497cec) * limb_base() + 0xb2f66aad4ce5d646));
            }
            r
        },
        2usize =>
        {
            let r = Fp2 { re: [0x0, 0x0, 0x0, 0x0, 0x0, 0x0], im: [0xcd03c9e48671f071, 0x5dab22461fcda5d2, 0x587042afd3851b95, 0x8eb60ebe01bacb9e, 0x3f97d6e83d050d2, 0x18f0206554638741] };
            proof {
                assert(limbs_int(r.re@) == (((((0x0 * limb_base() + 0x0) * limb_base() + 0x0) * limb_base() + 0x0) * limb_base() + 0x0) * limb_base() + 0x0));
                assert(limbs_int(r.im@) == (((((0x18f0206554638741 * limb_base() + 0x3f97d6e83d050d2) * limb_base() + 0x8eb60ebe01bacb9e) * limb_base() + 0x587042afd3851b95) * limb_base() + 0x5dab22461fcda5d2) * limb_base() + 0xcd03c9e48671f071));
            }
            r
        },
        3usize =>
        {
            let r = Fp2 { re: [0x7bcfa7a25aa30fda, 0xdc17dec12a927e7c, 0x2f088dd86b4ebef1, 0xd1ca2087da74d4a7, 0x2da2596696cebc1d, 0xe2b7eedbbfd87d2], im: [0x7bcfa7a25aa30fda, 0xdc17dec12a927e7c, 0x2f088dd86b4ebef1, 0xd1ca2087da74d4a7, 0x2da2596696cebc1d, 0xe2b7eedbbfd87d2] };
            proof {
                assert(limbs_int(r.re@) == (((((0xe2b7eedbbfd87d2 * limb_base() + 0x2da2596696cebc1d) * limb_base() + 0xd1ca2087da74d4a7) * limb_base() + 0x2f088dd86b4ebef1) * limb_base() + 0xdc17dec12a927e7c) * limb_base() + 0x7bcfa7a25aa30fda));
                assert(limbs_int(r.im@) == (((((0xe2b7eedbbfd87d2 * limb_base() + 0x2da2596696cebc1d) * limb_base() + 0xd1ca2087da74d4a7) * limb_base() + 0x2f088dd86b4ebef1) * limb_base() + 0xdc17dec12a927e7c) * limb_base() + 0x7bcfa7a25aa30fda));
            }
            r
        },
        4usize =>
        {
            let r = Fp2 { re: [0x890dc9e4867545c3, 0x2af322533285a5d5, 0x50880866309b7e2c, 0xa20d1b8c7e881024, 0x14e4f04fe2db9068, 0x14e56d3f1564853a], im: [0x0, 0x0, 0x0, 0x0, 0x0, 0x0] };
            proof {
                assert(limbs_int(r.re@) == (((((0x14e56d3f1564853a * limb_base() + 0x14e4f04fe2db9068) * limb_base() + 0xa20d1b8c7e881024) * limb_base() + 0x50880866309b7e2c) * limb_base() + 0x2af322533285a5d5) * limb_base() + 0x890dc9e4867545c3));
                assert(limbs_int(r.im@) == (((((0x0 * limb_base() + 0x0) * limb_base() + 0x0) * limb_base() + 0x0) * limb_base() + 0x0) * limb_base() + 0x0));
            }
            r
        },
        5usize =>
        {
            let r = Fp2 { re: [0x82d83cf50dbce43f, 0xa2813e53df9d018f, 0xc6f0caa53c65e181, 0x7525cf528d50fe95, 0x4a85ed50f4798a6b, 0x171da0fd6cf8eebd], im: [0x3726c30af242c66c, 0x7c2ac1aad1b6fe70, 0xa04007fbba4b14a2, 0xef517c3266341429, 0x95ba654ed2226b, 0x2e370eccc86f7dd] };
            proof {
                assert(limbs_int(r.re@) == (((((0x171da0fd6cf8eebd * limb_base() + 0x4a85ed50f4798a6b) * limb_base() + 0x7525cf528d50fe95) * limb_base() + 0xc6f0caa53c65e181) * limb_base() + 0xa2813e53df9d018f) * limb_base() + 0x82d83cf50dbce43f));
                assert(limbs_int(r.im@) == (((((0x2e370eccc86f7dd * limb_base() + 0x95ba654ed2226b) * limb_base() + 0xef517c3266341429) * limb_base() + 0xa04007fbba4b14a2) * limb_base() + 0x7c2ac1aad1b6fe70) * limb_base() + 0x3726c30af242c66c));
            }
            r
        },
        _ => Fp2::zero(),
    }
}

pub open spec fn gamma2_1() -> SpecFp2 {
    SpecFp2 {
        re: ((((((0x110f184e51c5f59 * limb_base() + 0x47222a47bf7b5c04) * limb_base() + 0xd5c13cc6f1ca4721) * limb_base() + 0xec08ff1232bda8e) * limb_base() + 0xc100ddb891865a2c) * limb_base() + 0xecfb361b798dba3a) * mont_rinv()) % prime(),
        im: ((((((0x0 * limb_base() + 0x0) * limb_base() + 0x0) * limb_base() + 0x0) * limb_base() + 0x0) * limb_base() + 0x0) * mont_rinv()) % prime(),
    }
}

pub open spec fn gamma2_2() -> SpecFp2 {
    SpecFp2 {
        re: ((((((0x51ba4ab241b6160 * limb_base() + 0x3636b76660701c6e) * limb_base() + 0xc26a2ff874fd029b) * limb_base() + 0x16a8ca3ac61577f7) * limb_base() + 0xf3b8ddab7ece5a2a) * limb_base() + 0x30f1361b798a64e8) * mont_rinv()) % prime(),
        im: ((((((0x0 * limb_base() + 0x0) * limb_base() + 0x0) * limb_base() + 0x0) * limb_base() + 0x0) * limb_base() + 0x0) * mont_rinv()) % prime(),
    }
}

pub open spec fn gamma2_3() -> SpecFp2 {
    SpecFp2 {
        re: ((((((0x40ab3263eff0206 * limb_base() + 0xef148d1ea0f4c069) * limb_base() + 0xeca8f3318332bb7a) * limb_base() + 0x7e83a49a2e99d69) * limb_base() + 0x32b7fff2ed47fffd) * limb_base() + 0x43f5fffffffcaaae) * mont_rinv()) % prime(),
        im: ((((((0x0 * limb_base() + 0x0) * limb_base() + 0x0) * limb_base() + 0x0) * limb_base() + 0x0) * limb_base() + 0x0) * mont_rinv()) % prime(),
    }
}

pub open spec fn gamma2_4() -> SpecFp2 {
    SpecFp2 {
        re: ((((((0x18f0206554638741 * limb_base() + 0x3f97d6e83d050d2) * limb_base() + 0x8eb60ebe01bacb9e) * limb_base() + 0x587042afd3851b95) * limb_base() + 0x5dab22461fcda5d2) * limb_base() + 0xcd03c9e48671f071) * mont_rinv()) % prime(),
        im: ((((((0x0 * limb_base() + 0x0) * limb_base() + 0x0) * limb_base() + 0x0) * limb_base() + 0x0) * limb_base() + 0x0) * mont_rinv()) % prime(),
    }
}

pub open spec fn gamma2_5() -> SpecFp2 {
    SpecFp2 {
        re: ((((((0x14e56d3f1564853a * limb_base() + 0x14e4f04fe2db9068) * limb_base() + 0xa20d1b8c7e881024) * limb_base() + 0x50880866309b7e2c) * limb_base() + 0x2af322533285a5d5) * limb_base() + 0x890dc9e4867545c3) * mont_rinv()) % prime(),
        im: ((((((0x0 * limb_base() + 0x0) * limb_base() + 0x0) * limb_base() + 0x0) * limb_base() + 0x0) * limb_base() + 0x0) * mont_rinv()) % prime(),
    }
}

pub open spec fn gamma2(k: int) -> SpecFp2 {
    if k == 1 { gamma2_1() } else if k == 2 { gamma2_2() } else if k == 3 { gamma2_3() } else if k == 4 { gamma2_4() } else if k == 5 { gamma2_5() } else { gamma2_1() }
}

/// The shift constant `gamma2(k)` as an element.
pub fn gamma2_entry(k: usize) -> (r: Fp2)
    requires
        1 <= k < 6,
    ensures
        r.wf(),
        r@ == gamma2(k as int),
{
    match k {
        1usize =>
        {
            let r = Fp2 { re: [0xecfb361b798dba3a, 0xc100ddb891865a2c, 0xec08ff1232bda8e, 0xd5c13cc6f1ca4721, 0x47222a47bf7b5c04, 0x110f184e51c5f59], im: [0x0, 0x0, 0x0, 0x0, 0x0, 0x0] };
            proof {
                assert(limbs_int(r.re@) == (((((0x110f184e51c5f59 * limb_base() + 0x47222a47bf7b5c04) * limb_base() + 0xd5c13cc6f1ca4721) * limb_base() + 0xec08ff1232bda8e) * limb_base() + 0xc100ddb891865a2c) * limb_base() + 0xecfb361b798dba3a));
                assert(limbs_int(r.im@) == (((((0x0 * limb_base() + 0x0) * limb_base() + 0x0) * limb_base() + 0x0) * limb_base() + 0x0) * limb_base() + 0x0));
            }
            r
        },
        2usize =>
        {
            let r = Fp2 { re: [0x30f1361b798a64e8, 0xf3b8ddab7ece5a2a, 0x16a8ca3ac61577f7, 0xc26a2ff874fd029b, 0x3636b76660701c6e, 0x51ba4ab241b6160], im: [0x0, 0x0, 0x0, 0x0, 0x0, 0x0] };
            proof {
                assert(limbs_int(r.re@) == (((((0x51ba4ab241b6160 * limb_base() + 0x3636b76660701c6e) * limb_base() + 0xc26a2ff874fd029b) * limb_base() + 0x16a8ca3ac61577f7) * limb_base() + 0xf3b8ddab7ece5a2a) * limb_base() + 0x30f1361b798a64e8));
                assert(limbs_int(r.im@) == (((((0x0 * limb_base() + 0x0) * limb_base() + 0x0) * limb_base() + 0x0) * limb_base() + 0x0) * limb_base() + 0x0));
            }
            r
        },
        3usize =>
        {
            let r = Fp2 { re: [0x43f5fffffffcaaae, 0x32b7fff2ed47fffd, 0x7e83a49a2e99d69, 0xeca8f3318332bb7a, 0xef148d1ea0f4c069, 0x40ab3263eff0206], im: [0x0, 0x0, 0x0, 0x0, 0x0, 0x0] };
            proof {
                assert(limbs_int(r.re@) == (((((0x40ab3263eff0206 * limb_base() + 0xef148d1ea0f4c069) * limb_base() + 0xeca8f3318332bb7a) * limb_base() + 0x7e83a49a2e99d69) * limb_base() + 0x32b7fff2ed47fffd) * limb_base() + 0x43f5fffffffcaaae));
                assert(limbs_int(r.im@) == (((((0x0 * limb_base() + 0x0) * limb_base() + 0x0) * limb_base() + 0x0) * limb_base() + 0x0) * limb_base() + 0x0));
            }
            r
        },
        4usize =>
        {
            let r = Fp2 { re: [0xcd03c9e48671f071, 0x5dab22461fcda5d2, 0x587042afd3851b95, 0x8eb60ebe01bacb9e, 0x3f97d6e83d050d2, 0x18f0206554638741], im: [0x0, 0x0, 0x0, 0x0, 0x0, 0x0] };
            proof {
                assert(limbs_int(r.re@) == (((((0x18f0206554638741 * limb_base() + 0x3f97d6e83d050d2) * limb_base() + 0x8eb60ebe01bacb9e) * limb_base() + 0x587042afd3851b95) * limb_base() + 0x5dab22461fcda5d2) * limb_base() + 0xcd03c9e48671f071));
                assert(limbs_int(r.im@) == (((((0x0 * limb_base() + 0x0) * limb_base() + 0x0) * limb_base() + 0x0) * limb_base() + 0x0) * limb_base() + 0x0));
            }
            r
        },
        5usize =>
        {
            let r = Fp2 { re: [0x890dc9e4867545c3, 0x2af322533285a5d5, 0x50880866309b7e2c, 0xa20d1b8c7e881024, 0x14e4f04fe2db9068, 0x14e56d3f1564853a], im: [0x0, 0x0, 0x0, 0x0, 0x0, 0x0] };
            proof {
                assert(limbs_int(r.re@) == (((((0x14e56d3f1564853a * limb_base() + 0x14e4f04fe2db9068) * limb_base() + 0xa20d1b8c7e881024) * limb_base() + 0x50880866309b7e2c) * limb_base() + 0x2af322533285a5d5) * limb_base() + 0x890dc9e4867545c3));
                assert(limbs_int(r.im@) == (((((0x0 * limb_base() + 0x0) * limb_base() + 0x0) * limb_base() + 0x0) * limb_base() + 0x0) * limb_base() + 0x0));
            }
            r
        },
        _ => Fp2::zero(),
    }
}

/// Every `frob12_c` entry is a pair of reduced residues.
pub proof fn frob12_c_wf(k: int)
    ensures
        fp2_wf(frob12_c(k)),
{
    if k == 0 {
        lemma_mod_in_fp((((((0x15f65ec3fa80e493 * limb_base() + 0x5c071a97a256ec6d) * limb_base() + 0x77ce585370525745) * limb_base() + 0x5f48985753c758ba) * limb_base() + 0xebf4000bc40c0002) * limb_base() + 0x760900000002fffd) * mont_rinv());
        lemma_mod_in_fp((((((0x0 * limb_base() + 0x0) * limb_base() + 0x0) * limb_base() + 0x0) * limb_base() + 0x0) * limb_base() + 0x0) * mont_rinv());
    }
    if k == 1 {
        lemma_mod_in_fp((((((0x8f2220fb0fb66eb * limb_base() + 0x1ce393ea5daace4d) * limb_base() + 0xa35baecab2dc29ee) * limb_base() + 0x97e83cccd117228f) * limb_base() + 0xc6695f92b50a8313) * limb_base() + 0x7089552b319d465) * mont_rinv());
        lemma_mod_in_fp((((((0x110eefda88847faf * limb_base() + 0x2e3813cbe5a0de89) * limb_base() + 0xc11b9cba40a8e8d0) * limb_base() + 0xcf4895d42599d394) * limb_base() + 0x5842a06bfc497cec) * limb_base() + 0xb2f66aad4ce5d646) * mont_rinv());
    }
    if k == 2 {
        lemma_mod_in_fp((((((0x110f184e51c5f59 * limb_base() + 0x47222a47bf7b5c04) * limb_base() + 0xd5c13cc6f1ca4721) * limb_base() + 0xec08ff1232bda8e) * limb_base() + 0xc100ddb891865a2c) * limb_base() + 0xecfb361b798dba3a) * mont_rinv());
        lemma_mod_in_fp((((((0x0 * limb_base() + 0x0) * limb_base() + 0x0) * limb_base() + 0x0) * limb_base() + 0x0) * limb_base() + 0x0) * mont_rinv());
    }
    if k == 3 {
        lemma_mod_in_fp((((((0xbd592fc7d825ec8 * limb_base() + 0x1d794e4fac7cf0b9) * limb_base() + 0x92ad2afd19103e18) * limb_base() + 0x382844c88b623732) * limb_base() + 0x4294213d86c18183) * limb_base() + 0x3e2f585da55c9ad1) * mont_rinv());
        lemma_mod_in_fp((((((0xe2b7eedbbfd87d2 * limb_base() + 0x2da2596696cebc1d) * limb_base() + 0xd1ca2087da74d4a7) * limb_base() + 0x2f088dd86b4ebef1) * limb_base() + 0xdc17dec12a927e7c) * limb_base() + 0x7bcfa7a25aa30fda) * mont_rinv());
    }
    if k == 4 {
        lemma_mod_in_fp((((((0x51ba4ab241b6160 * limb_base() + 0x3636b76660701c6e) * limb_base() + 0xc26a2ff874fd029b) * limb_base() + 0x16a8ca3ac61577f7) * limb_base() + 0xf3b8ddab7ece5a2a) * limb_base() + 0x30f1361b798a64e8) * mont_rinv());
        lemma_mod_in_fp((((((0x0 * limb_base() + 0x0) * limb_base() + 0x0) * limb_base() + 0x0) * limb_base() + 0x0) * limb_base() + 0x0) * mont_rinv());
    }
    if k == 5 {
        lemma_mod_in_fp((((((0x2e370eccc86f7dd * limb_base() + 0x95ba654ed2226b) * limb_base() + 0xef517c3266341429) * limb_base() + 0xa04007fbba4b14a2) * limb_base() + 0x7c2ac1aad1b6fe70) * limb_base() + 0x3726c30af242c66c) * mont_rinv());
        lemma_mod_in_fp((((((0x171da0fd6cf8eebd * limb_base() + 0x4a85ed50f4798a6b) * limb_base() + 0x7525cf528d50fe95) * limb_base() + 0xc6f0caa53c65e181) * limb_base() + 0xa2813e53df9d018f) * limb_base() + 0x82d83cf50dbce43f) * mont_rinv());
    }
    if k == 6 {
        lemma_mod_in_fp((((((0x40ab3263eff0206 * limb_base() + 0xef148d1ea0f4c069) * limb_base() + 0xeca8f3318332bb7a) * limb_base() + 0x7e83a49a2e99d69) * limb_base() + 0x32b7fff2ed47fffd) * limb_base() + 0x43f5fffffffcaaae) * mont_rinv());
        lemma_mod_in_fp((((((0x0 * limb_base() + 0x0) * limb_base() + 0x0) * limb_base() + 0x0) * limb_base() + 0x0) * limb_base() + 0x0) * mont_rinv());
    }
    if k == 7 {
        lemma_mod_in_fp((((((0x110eefda88847faf * limb_base() + 0x2e3813cbe5a0de89) * limb_base() + 0xc11b9cba40a8e8d0) * limb_base() + 0xcf4895d42599d394) * limb_base() + 0x5842a06bfc497cec) * limb_base() + 0xb2f66aad4ce5d646) * mont_rinv());
        lemma_mod_in_fp((((((0x8f2220fb0fb66eb * limb_base() + 0x1ce393ea5daace4d) * limb_base() + 0xa35baecab2dc29ee) * limb_base() + 0x97e83cccd117228f) * limb_base() + 0xc6695f92b50a8313) * limb_base() + 0x7089552b319d465) * mont_rinv());
    }
    if k == 8 {
        lemma_mod_in_fp((((((0x18f0206554638741 * limb_base() + 0x3f97d6e83d050d2) * limb_base() + 0x8eb60ebe01bacb9e) * limb_base() + 0x587042afd3851b95) * limb_base() + 0x5dab22461fcda5d2) * limb_base() + 0xcd03c9e48671f071) * mont_rinv());
        lemma_mod_in_fp((((((0x0 * limb_base() + 0x0) * limb_base() + 0x0) * limb_base() + 0x0) * limb_base() + 0x0) * limb_base() + 0x0) * mont_rinv());
    }
    if k == 9 {
        lemma_mod_in_fp((((((0xe2b7eedbbfd87d2 * limb_base() + 0x2da2596696cebc1d) * limb_base() + 0xd1ca2087da74d4a7) * limb_base() + 0x2f088dd86b4ebef1) * limb_base() + 0xdc17dec12a927e7c) * limb_base() + 0x7bcfa7a25aa30fda) * mont_rinv());
        lemma_mod_in_fp((((((0xbd592fc7d825ec8 * limb_base() + 0x1d794e4fac7cf0b9) * limb_base() + 0x92ad2afd19103e18) * limb_base() + 0x382844c88b623732) * limb_base() + 0x4294213d86c18183) * limb_base() + 0x3e2f585da55c9ad1) * mont_rinv());
    }
    if k == 10 {
        lemma_mod_in_fp((((((0x14e56d3f1564853a * limb_base() + 0x14e4f04fe2db9068) * limb_base() + 0xa20d1b8c7e881024) * limb_base() + 0x50880866309b7e2c) * limb_base() + 0x2af322533285a5d5) * limb_base() + 0x890dc9e4867545c3) * mont_rinv());
        lemma_mod_in_fp((((((0x0 * limb_base() + 0x0) * limb_base() + 0x0) * limb_base() + 0x0) * limb_base() + 0x0) * limb_base() + 0x0) * mont_rinv());
    }
    if k == 11 {
        lemma_mod_in_fp((((((0x171da0fd6cf8eebd * limb_base() + 0x4a85ed50f4798a6b) * limb_base() + 0x7525cf528d50fe95) * limb_base() + 0xc6f0caa53c65e181) * limb_base() + 0xa2813e53df9d018f) * limb_base() + 0x82d83cf50dbce43f) * mont_rinv());
        lemma_mod_in_fp((((((0x2e370eccc86f7dd * limb_base() + 0x95ba654ed2226b) * limb_base() + 0xef517c3266341429) * limb_base() + 0xa04007fbba4b14a2) * limb_base() + 0x7c2ac1aad1b6fe70) * limb_base() + 0x3726c30af242c66c) * mont_rinv());
    }
    if k < 0 || k >= 12 {
        lemma_mod_in_fp((((((0x15f65ec3fa80e493 * limb_base() + 0x5c071a97a256ec6d) * limb_base() + 0x77ce585370525745) * limb_base() + 0x5f48985753c758ba) * limb_base() + 0xebf4000bc40c0002) * limb_base() + 0x760900000002fffd) * mont_rinv());
        lemma_mod_in_fp((((((0x0 * limb_base() + 0x0) * limb_base() + 0x0) * limb_base() + 0x0) * limb_base() + 0x0) * limb_base() + 0x0) * mont_rinv());
    }
}

/// Every `frob6_c1` entry is a pair of reduced residues.
pub proof fn frob6_c1_wf(k: int)
    ensures
        fp2_wf(frob6_c1(k)),
{
    if k == 0 {
        lemma_mod_in_fp((((((0x15f65ec3fa80e493 * limb_base() + 0x5c071a97a256ec6d) * limb_base() + 0x77ce585370525745) * limb_base() + 0x5f48985753c758ba) * limb_base() + 0xebf4000bc40c0002) * limb_base() + 0x760900000002fffd) * mont_rinv());
        lemma_mod_in_fp((((((0x0 * limb_base() + 0x0) * limb_base() + 0x0) * limb_base() + 0x0) * limb_base() + 0x0) * limb_base() + 0x0) * mont_rinv());
    }
    if k == 1 {
        lemma_mod_in_fp((((((0x0 * limb_base() + 0x0) * limb_base() + 0x0) * limb_base() + 0x0) * limb_base() + 0x0) * limb_base() + 0x0) * mont_rinv());
        lemma_mod_in_fp((((((0x18f0206554638741 * limb_base() + 0x3f97d6e83d050d2) * limb_base() + 0x8eb60ebe01bacb9e) * limb_base() + 0x587042afd3851b95) * limb_base() + 0x5dab22461fcda5d2) * limb_base() + 0xcd03c9e48671f071) * mont_rinv());
    }
    if k == 2 {
        lemma_mod_in_fp((((((0x51ba4ab241b6160 * limb_base() + 0x3636b76660701c6e) * limb_base() + 0xc26a2ff874fd029b) * limb_base() + 0x16a8ca3ac61577f7) * limb_base() + 0xf3b8ddab7ece5a2a) * limb_base() + 0x30f1361b798a64e8) * mont_rinv());
        lemma_mod_in_fp((((((0x0 * limb_base() + 0x0) * limb_base() + 0x0) * limb_base() + 0x0) * limb_base() + 0x0) * limb_base() + 0x0) * mont_rinv());
    }
    if k == 3 {
        lemma_mod_in_fp((((((0x0 * limb_base() + 0x0) * limb_base() + 0x0) * limb_base() + 0x0) * limb_base() + 0x0) * limb_base() + 0x0) * mont_rinv());
        lemma_mod_in_fp((((((0x15f65ec3fa80e493 * limb_base() + 0x5c071a97a256ec6d) * limb_base() + 0x77ce585370525745) * limb_base() + 0x5f48985753c758ba) * limb_base() + 0xebf4000bc40c0002) * limb_base() + 0x760900000002fffd) * mont_rinv());
    }
    if k == 4 {
        lemma_mod_in_fp((((((0x18f0206554638741 * limb_base() + 0x3f97d6e83d050d2) * limb_base() + 0x8eb60ebe01bacb9e) * limb_base() + 0x587042afd3851b95) * limb_base() + 0x5dab22461fcda5d2) * limb_base() + 0xcd03c9e48671f071) * mont_rinv());
        lemma_mod_in_fp((((((0x0 * limb_base() + 0x0) * limb_base() + 0x0) * limb_base() + 0x0) * limb_base() + 0x0) * limb_base() + 0x0) * mont_rinv());
    }
    if k == 5 {
        lemma_mod_in_fp((((((0x0 * limb_base() + 0x0) * limb_base() + 0x0) * limb_base() + 0x0) * limb_base() + 0x0) * limb_base() + 0x0) * mont_rinv());
        lemma_mod_in_fp((((((0x51ba4ab241b6160 * limb_base() + 0x3636b76660701c6e) * limb_base() + 0xc26a2ff874fd029b) * limb_base() + 0x16a8ca3ac61577f7) * limb_base() + 0xf3b8ddab7ece5a2a) * limb_base() + 0x30f1361b798a64e8) * mont_rinv());
    }
    if k < 0 || k >= 6 {
        lemma_mod_in_fp((((((0x15f65ec3fa80e493 * limb_base() + 0x5c071a97a256ec6d) * limb_base() + 0x77ce585370525745) * limb_base() + 0x5f48985753c758ba) * limb_base() + 0xebf4000bc40c0002) * limb_base() + 0x760900000002fffd) * mont_rinv());
        lemma_mod_in_fp((((((0x0 * limb_base() + 0x0) * limb_base() + 0x0) * limb_base() + 0x0) * limb_base() + 0x0) * limb_base() + 0x0) * mont_rinv());
    }
}

/// Every `frob6_c2` entry is a pair of reduced residues.
pub proof fn frob6_c2_wf(k: int)
    ensures
        fp2_wf(frob6_c2(k)),
{
    if k == 0 {
        lemma_mod_in_fp((((((0x15f65ec3fa80e493 * limb_base() + 0x5c071a97a256ec6d) * limb_base() + 0x77ce585370525745) * limb_base() + 0x5f48985753c758ba) * limb_base() + 0xebf4000bc40c0002) * limb_base() + 0x760900000002fffd) * mont_rinv());
        lemma_mod_in_fp((((((0x0 * limb_base() + 0x0) * limb_base() + 0x0) * limb_base() + 0x0) * limb_base() + 0x0) * limb_base() + 0x0) * mont_rinv());
    }
    if k == 1 {
        lemma_mod_in_fp((((((0x14e56d3f1564853a * limb_base() + 0x14e4f04fe2db9068) * limb_base() + 0xa20d1b8c7e881024) * limb_base() + 0x50880866309b7e2c) * limb_base() + 0x2af322533285a5d5) * limb_base() + 0x890dc9e4867545c3) * mont_rinv());
        lemma_mod_in_fp((((((0x0 * limb_base() + 0x0) * limb_base() + 0x0) * limb_base() + 0x0) * limb_base() + 0x0) * limb_base() + 0x0) * mont_rinv());
    }
    if k == 2 {
        lemma_mod_in_fp((((((0x18f0206554638741 * limb_base() + 0x3f97d6e83d050d2) * limb_base() + 0x8eb60ebe01bacb9e) * limb_base() + 0x587042afd3851b95) * limb_base() + 0x5dab22461fcda5d2) * limb_base() + 0xcd03c9e48671f071) * mont_rinv());
        lemma_mod_in_fp((((((0x0 * limb_base() + 0x0) * limb_base() + 0x0) * limb_base() + 0x0) * limb_base() + 0x0) * limb_base() + 0x0) * mont_rinv());
    }
    if k == 3 {
        lemma_mod_in_fp((((((0x40ab3263eff0206 * limb_base() + 0xef148d1ea0f4c069) * limb_base() + 0xeca8f3318332bb7a) * limb_base() + 0x7e83a49a2e99d69) * limb_base() + 0x32b7fff2ed47fffd) * limb_base() + 0x43f5fffffffcaaae) * mont_rinv());
        lemma_mod_in_fp((((((0x0 * limb_base() + 0x0) * limb_base() + 0x0) * limb_base() + 0x0) * limb_base() + 0x0) * limb_base() + 0x0) * mont_rinv());
    }
    if k == 4 {
        lemma_mod_in_fp((((((0x51ba4ab241b6160 * limb_base() + 0x3636b76660701c6e) * limb_base() + 0xc26a2ff874fd029b) * limb_base() + 0x16a8ca3ac61577f7) * limb_base() + 0xf3b8ddab7ece5a2a) * limb_base() + 0x30f1361b798a64e8) * mont_rinv());
        lemma_mod_in_fp((((((0x0 * limb_base() + 0x0) * limb_base() + 0x0) * limb_base() + 0x0) * limb_base() + 0x0) * limb_base() + 0x0) * mont_rinv());
    }
    if k == 5 {
        lemma_mod_in_fp((((((0x110f184e51c5f59 * limb_base() + 0x47222a47bf7b5c04) * limb_base() + 0xd5c13cc6f1ca4721) * limb_base() + 0xec08ff1232bda8e) * limb_base() + 0xc100ddb891865a2c) * limb_base() + 0xecfb361b798dba3a) * mont_rinv());
        lemma_mod_in_fp((((((0x0 * limb_base() + 0x0) * limb_base() + 0x0) * limb_base() + 0x0) * limb_base() + 0x0) * limb_base() + 0x0) * mont_rinv());
    }
    if k < 0 || k >= 6 {
        lemma_mod_in_fp((((((0x15f65ec3fa80e493 * limb_base() + 0x5c071a97a256ec6d) * limb_base() + 0x77ce585370525745) * limb_base() + 0x5f48985753c758ba) * limb_base() + 0xebf4000bc40c0002) * limb_base() + 0x760900000002fffd) * mont_rinv());
        lemma_mod_in_fp((((((0x0 * limb_base() + 0x0) * limb_base() + 0x0) * limb_base() + 0x0) * limb_base() + 0x0) * limb_base() + 0x0) * mont_rinv());
    }
}

/// Every `gamma1` entry is a pair of reduced residues.
pub proof fn gamma1_wf(k: int)
    ensures
        fp2_wf(gamma1(k)),
{
    if k == 1 {
        lemma_mod_in_fp((((((0x8f2220fb0fb66eb * limb_base() + 0x1ce393ea5daace4d) * limb_base() + 0xa35baecab2dc29ee) * limb_base() + 0x97e83cccd117228f) * limb_base() + 0xc6695f92b50a8313) * limb_base() + 0x7089552b319d465) * mont_rinv());
        lemma_mod_in_fp((((((0x110eefda88847faf * limb_base() + 0x2e3813cbe5a0de89) * limb_base() + 0xc11b9cba40a8e8d0) * limb_base() + 0xcf4895d42599d394) * limb_base() + 0x5842a06bfc497cec) * limb_base() + 0xb2f66aad4ce5d646) * mont_rinv());
    }
    if k == 2 {
        lemma_mod_in_fp((((((0x0 * limb_base() + 0x0) * limb_base() + 0x0) * limb_base() + 0x0) * limb_base() + 0x0) * limb_base() + 0x0) * mont_rinv());
        lemma_mod_in_fp((((((0x18f0206554638741 * limb_base() + 0x3f97d6e83d050d2) * limb_base() + 0x8eb60ebe01bacb9e) * limb_base() + 0x587042afd3851b95) * limb_base() + 0x5dab22461fcda5d2) * limb_base() + 0xcd03c9e48671f071) * mont_rinv());
    }
    if k == 3 {
        lemma_mod_in_fp((((((0xe2b7eedbbfd87d2 * limb_base() + 0x2da2596696cebc1d) * limb_base() + 0xd1ca2087da74d4a7) * limb_base() + 0x2f088dd86b4ebef1) * limb_base() + 0xdc17dec12a927e7c) * limb_base() + 0x7bcfa7a25aa30fda) * mont_rinv());
        lemma_mod_in_fp((((((0xe2b7eedbbfd87d2 * limb_base() + 0x2da2596696cebc1d) * limb_base() + 0xd1ca2087da74d4a7) * limb_base() + 0x2f088dd86b4ebef1) * limb_base() + 0xdc17dec12a927e7c) * limb_base() + 0x7bcfa7a25aa30fda) * mont_rinv());
    }
    if k == 4 {
        lemma_mod_in_fp((((((0x14e56d3f1564853a * limb_base() + 0x14e4f04fe2db9068) * limb_base() + 0xa20d1b8c7e881024) * limb_base() + 0x50880866309b7e2c) * limb_base() + 0x2af322533285a5d5) * limb_base() + 0x890dc9e4867545c3) * mont_rinv());
        lemma_mod_in_fp((((((0x0 * limb_base() + 0x0) * limb_base() + 0x0) * limb_base() + 0x0) * limb_base() + 0x0) * limb_base() + 0x0) * mont_rinv());
    }
    if k == 5 {
        lemma_mod_in_fp((((((0x171da0fd6cf8eebd * limb_base() + 0x4a85ed50f4798a6b) * limb_base() + 0x7525cf528d50fe95) * limb_base() + 0xc6f0caa53c65e181) * limb_base() + 0xa2813e53df9d018f) * limb_base() + 0x82d83cf50dbce43f) * mont_rinv());
        lemma_mod_in_fp((((((0x2e370eccc86f7dd * limb_base() + 0x95ba654ed2226b) * limb_base() + 0xef517c3266341429) * limb_base() + 0xa04007fbba4b14a2) * limb_base() + 0x7c2ac1aad1b6fe70) * limb_base() + 0x3726c30af242c66c) * mont_rinv());
    }
    if k < 1 || k >= 6 {
        lemma_mod_in_fp((((((0x8f2220fb0fb66eb * limb_base() + 0x1ce393ea5daace4d) * limb_base() + 0xa35baecab2dc29ee) * limb_base() + 0x97e83cccd117228f) * limb_base() + 0xc6695f92b50a8313) * limb_base() + 0x7089552b319d465) * mont_rinv());
        lemma_mod_in_fp((((((0x110eefda88847faf * limb_base() + 0x2e3813cbe5a0de89) * limb_base() + 0xc11b9cba40a8e8d0) * limb_base() + 0xcf4895d42599d394) * limb_base() + 0x5842a06bfc497cec) * limb_base() + 0xb2f66aad4ce5d646) * mont_rinv());
    }
}

/// Every `gamma2` entry is a pair of reduced residues.
pub proof fn gamma2_wf(k: int)
    ensures
        fp2_wf(gamma2(k)),
{
    if k == 1 {
        lemma_mod_in_fp((((((0x110f184e51c5f59 * limb_base() + 0x47222a47bf7b5c04) * limb_base() + 0xd5c13cc6f1ca4721) * limb_base() + 0xec08ff1232bda8e) * limb_base() + 0xc100ddb891865a2c) * limb_base() + 0xecfb361b798dba3a) * mont_rinv());
        lemma_mod_in_fp((((((0x0 * limb_base() + 0x0) * limb_base() + 0x0) * limb_base() + 0x0) * limb_base() + 0x0) * limb_base() + 0x0) * mont_rinv());
    }
    if k == 2 {
        lemma_mod_in_fp((((((0x51ba4ab241b6160 * limb_base() + 0x3636b76660701c6e) * limb_base() + 0xc26a2ff874fd029b) * limb_base() + 0x16a8ca3ac61577f7) * limb_base() + 0xf3b8ddab7ece5a2a) * limb_base() + 0x30f1361b798a64e8) * mont_rinv());
        lemma_mod_in_fp((((((0x0 * limb_base() + 0x0) * limb_base() + 0x0) * limb_base() + 0x0) * limb_base() + 0x0) * limb_base() + 0x0) * mont_rinv());
    }
    if k == 3 {
        lemma_mod_in_fp((((((0x40ab3263eff0206 * limb_base() + 0xef148d1ea0f4c069) * limb_base() + 0xeca8f3318332bb7a) * limb_base() + 0x7e83a49a2e99d69) * limb_base() + 0x32b7fff2ed47fffd) * limb_base() + 0x43f5fffffffcaaae) * mont_rinv());
        lemma_mod_in_fp((((((0x0 * limb_base() + 0x0) * limb_base() + 0x0) * limb_base() + 0x0) * limb_base() + 0x0) * limb_base() + 0x0) * mont_rinv());
    }
    if k == 4 {
        lemma_mod_in_fp((((((0x18f0206554638741 * limb_base() + 0x3f97d6e83d050d2) * limb_base() + 0x8eb60ebe01bacb9e) * limb_base() + 0x587042afd3851b95) * limb_base() + 0x5dab22461fcda5d2) * limb_base() + 0xcd03c9e48671f071) * mont_rinv());
        lemma_mod_in_fp((((((0x0 * limb_base() + 0x0) * limb_base() + 0x0) * limb_base() + 0x0) * limb_base() + 0x0) * limb_base() + 0x0) * mont_rinv());
    }
    if k == 5 {
        lemma_mod_in_fp((((((0x14e56d3f1564853a * limb_base() + 0x14e4f04fe2db9068) * limb_base() + 0xa20d1b8c7e881024) * limb_base() + 0x50880866309b7e2c) * limb_base() + 0x2af322533285a5d5) * limb_base() + 0x890dc9e4867545c3) * mont_rinv());
        lemma_mod_in_fp((((((0x0 * limb_base() + 0x0) * limb_base() + 0x0) * limb_base() + 0x0) * limb_base() + 0x0) * limb_base() + 0x0) * mont_rinv());
    }
    if k < 1 || k >= 6 {
        lemma_mod_in_fp((((((0x110f184e51c5f59 * limb_base() + 0x47222a47bf7b5c04) * limb_base() + 0xd5c13cc6f1ca4721) * limb_base() + 0xec08ff1232bda8e) * limb_base() + 0xc100ddb891865a2c) * limb_base() + 0xecfb361b798dba3a) * mont_rinv());
        lemma_mod_in_fp((((((0x0 * limb_base() + 0x0) * limb_base() + 0x0) * limb_base() + 0x0) * limb_base() + 0x0) * limb_base() + 0x0) * mont_rinv());
    }
}

} // verus!
