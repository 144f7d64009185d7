//! Fixed-width byte serialization of compressed elements: six canonical
//! 48-byte little-endian base-field chunks, 288 bytes in all, with no
//! length prefix or version tag.

use vstd::prelude::*;
use vstd::slice::slice_subrange;
use ark_ff::{BigInt, BigInteger, PrimeField};
use crate::fp2::{bytes_int, fp_val, limbs_ok, Fp2, SpecFp2};
use crate::fp6::{fp6_mul, fp6_one, fp6_zero, Fp6, SpecFp6};
use crate::fp12::{
    fp12_c0_plus_one, fp12_inv_pair, fp12_is_cyc, fp12_minus_w, fp12_mul, fp12_plus_w, Fp12,
    Fp12Compressed, SpecFp12,
};
use crate::modular::prime;

verus! {

/// The `i`-th 48-byte chunk of a 288-byte stream.
pub open spec fn chunk(s: Seq<u8>, i: int) -> Seq<u8> {
    s.subrange(48 * i, 48 * (i + 1))
}

/// The six base-field integers denoted by a 288-byte stream, in the fixed
/// order `c0.re, c0.im, c1.re, c1.im, c2.re, c2.im`.
pub open spec fn parse_fp6(s: Seq<u8>) -> SpecFp6 {
    SpecFp6 {
        c0: SpecFp2 { re: bytes_int(chunk(s, 0)), im: bytes_int(chunk(s, 1)) },
        c1: SpecFp2 { re: bytes_int(chunk(s, 2)), im: bytes_int(chunk(s, 3)) },
        c2: SpecFp2 { re: bytes_int(chunk(s, 4)), im: bytes_int(chunk(s, 5)) },
    }
}

/// Every chunk is a canonical (reduced) field-element encoding.
pub open spec fn chunks_canonical(s: Seq<u8>) -> bool {
    forall|i: int| 0 <= i < 6 ==> bytes_int(#[trigger] chunk(s, i)) < prime()
}

/// Decoding failures, in the order the checks run.
#[derive(Clone, Copy, Debug, PartialEq, Eq, Structural)]
pub enum DecodeError {
    /// The stream is not exactly 288 bytes long.
    BadLength,
    /// A chunk is not a canonical field-element encoding.
    NonCanonical,
    /// The reconstructed value is not cyclotomic.
    NotCyclotomic,
}

/// Relies on the backend's canonical serialization: 48 little-endian bytes
/// of the residue denoted by the Montgomery limbs.
#[verifier::external_body]
fn fp_to_bytes(a: &[u64; 6]) -> (r: Vec<u8>)
    requires
        limbs_ok(a@),
    ensures
        r@.len() == 48,
        bytes_int(r@) == fp_val(a@),
{
    let f: ark_bls12_381::Fq = ark_ff::Fp::new_unchecked(BigInt(*a));
    f.into_bigint().to_bytes_le()
}

/// Relies on the backend's canonical parse: it accepts exactly the 48-byte
/// little-endian encodings of reduced residues and returns the Montgomery
/// limbs of the value read.
#[verifier::external_body]
fn fp_from_bytes(b: &[u8]) -> (r: Option<[u64; 6]>)
    requires
        b@.len() == 48,
    ensures
        r is Some <==> bytes_int(b@) < prime(),
        r matches Some(l) ==> limbs_ok(l@) && fp_val(l@) == bytes_int(b@),
{
    let mut limbs = [0u64; 6];
    for i in 0..6 {
        let mut word = [0u8; 8];
        word.copy_from_slice(&b[8 * i..8 * i + 8]);
        limbs[i] = u64::from_le_bytes(word);
    }
    let f: Option<ark_bls12_381::Fq> = ark_ff::Fp::from_bigint(BigInt(limbs));
    f.map(|x| (x.0).0)
}

impl Fp12Compressed {
    /// Serialize into the fixed 288-byte format.
    pub fn to_bytes(&self) -> (r: Vec<u8>)
        requires
            self.wf(),
        ensures
            r@.len() == 288,
            parse_fp6(r@) == self@,
            chunks_canonical(r@),
    {
        let mut out: Vec<u8> = Vec::new();
        let mut b0 = fp_to_bytes(&self.c.c0.re);
        let mut b1 = fp_to_bytes(&self.c.c0.im);
        let mut b2 = fp_to_bytes(&self.c.c1.re);
        let mut b3 = fp_to_bytes(&self.c.c1.im);
        let mut b4 = fp_to_bytes(&self.c.c2.re);
        let mut b5 = fp_to_bytes(&self.c.c2.im);
        let ghost v0 = b0@;
        let ghost v1 = b1@;
        let ghost v2 = b2@;
        let ghost v3 = b3@;
        let ghost v4 = b4@;
        let ghost v5 = b5@;
        out.append(&mut b0);
        out.append(&mut b1);
        out.append(&mut b2);
        out.append(&mut b3);
        out.append(&mut b4);
        out.append(&mut b5);
        proof {
            crate::fp2::lemma_fp_val_in_fp(self.c.c0.re@);
            crate::fp2::lemma_fp_val_in_fp(self.c.c0.im@);
            crate::fp2::lemma_fp_val_in_fp(self.c.c1.re@);
            crate::fp2::lemma_fp_val_in_fp(self.c.c1.im@);
            crate::fp2::lemma_fp_val_in_fp(self.c.c2.re@);
            crate::fp2::lemma_fp_val_in_fp(self.c.c2.im@);
            assert(chunk(out@, 0) =~= v0);
            assert(chunk(out@, 1) =~= v1);
            assert(chunk(out@, 2) =~= v2);
            assert(chunk(out@, 3) =~= v3);
            assert(chunk(out@, 4) =~= v4);
            assert(chunk(out@, 5) =~= v5);
            assert forall|i: int| 0 <= i < 6 implies bytes_int(#[trigger] chunk(out@, i))
                < prime() by {
                assert(chunk(out@, 0) == v0 && chunk(out@, 1) == v1 && chunk(out@, 2) == v2
                    && chunk(out@, 3) == v3 && chunk(out@, 4) == v4 && chunk(out@, 5) == v5);
            }
        }
        out
    }

    /// Parse the fixed 288-byte format; fails on a malformed length or a
    /// non-canonical chunk.
    pub fn from_bytes(bytes: &[u8]) -> (r: Result<Fp12Compressed, DecodeError>)
        ensures
            r == Err::<Fp12Compressed, DecodeError>(DecodeError::BadLength) <==> bytes@.len()
                != 288,
            r == Err::<Fp12Compressed, DecodeError>(DecodeError::NonCanonical) <==> (
                bytes@.len() == 288 && !chunks_canonical(bytes@)),
            r matches Ok(c) ==> c.wf() && c@ == parse_fp6(bytes@) && chunks_canonical(bytes@),
            r is Err ==> r == Err::<Fp12Compressed, DecodeError>(DecodeError::BadLength)
                || r == Err::<Fp12Compressed, DecodeError>(DecodeError::NonCanonical),
    {
        if bytes.len() != 288 {
            return Err(DecodeError::BadLength);
        }
        let s0 = fp_from_bytes(slice_subrange(bytes, 0, 48));
        let s1 = fp_from_bytes(slice_subrange(bytes, 48, 96));
        let s2 = fp_from_bytes(slice_subrange(bytes, 96, 144));
        let s3 = fp_from_bytes(slice_subrange(bytes, 144, 192));
        let s4 = fp_from_bytes(slice_subrange(bytes, 192, 240));
        let s5 = fp_from_bytes(slice_subrange(bytes, 240, 288));
        let ok = s0.is_some() && s1.is_some() && s2.is_some() && s3.is_some()
            && s4.is_some() && s5.is_some();
        if !ok {
            proof {
                assert(!chunks_canonical(bytes@)) by {
                    if s0 is None {
                        assert(bytes_int(chunk(bytes@, 0)) >= prime());
                    } else if s1 is None {
                        assert(bytes_int(chunk(bytes@, 1)) >= prime());
                    } else if s2 is None {
                        assert(bytes_int(chunk(bytes@, 2)) >= prime());
                    } else if s3 is None {
                        assert(bytes_int(chunk(bytes@, 3)) >= prime());
                    } else if s4 is None {
                        assert(bytes_int(chunk(bytes@, 4)) >= prime());
                    } else {
                        assert(bytes_int(chunk(bytes@, 5)) >= prime());
                    }
                }
            }
            return Err(DecodeError::NonCanonical);
        }
        let c = Fp12Compressed {
            c: Fp6 {
                c0: Fp2 { re: s0.unwrap(), im: s1.unwrap() },
                c1: Fp2 { re: s2.unwrap(), im: s3.unwrap() },
                c2: Fp2 { re: s4.unwrap(), im: s5.unwrap() },
            },
        };
        proof {
            assert forall|i: int| 0 <= i < 6 implies bytes_int(#[trigger] chunk(bytes@, i))
                < prime() by {
                assert(bytes_int(chunk(bytes@, 0)) < prime());
                assert(bytes_int(chunk(bytes@, 1)) < prime());
                assert(bytes_int(chunk(bytes@, 2)) < prime());
                assert(bytes_int(chunk(bytes@, 3)) < prime());
                assert(bytes_int(chunk(bytes@, 4)) < prime());
                assert(bytes_int(chunk(bytes@, 5)) < prime());
            }
        }
        Ok(c)
    }
}

impl Fp12 {
    /// Compress and serialize into the fixed 288-byte format; fails exactly
    /// where compression fails.
    pub fn write_compressed(&self) -> (r: Option<Vec<u8>>)
        requires
            self.wf(),
        ensures
            r is Some <==> fp12_is_cyc(self@) && self@.c1 != fp6_zero(),
            r matches Some(bytes) ==> bytes@.len() == 288 && chunks_canonical(bytes@)
                && (exists|i: SpecFp6| #[trigger] fp6_mul(self@.c1, i) == fp6_one()
                    && fp6_mul(i, self@.c1) == fp6_one()
                    && parse_fp6(bytes@) == fp6_mul(fp12_c0_plus_one(self@), i)),
    {
        match self.compress() {
            Some(c) => Some(c.to_bytes()),
            None => None,
        }
    }

    /// Deserialize the fixed 288-byte format and decompress, rejecting
    /// malformed lengths, non-canonical chunks and non-cyclotomic values.
    pub fn read_compressed(bytes: &[u8]) -> (r: Result<Fp12, DecodeError>)
        ensures
            r == Err::<Fp12, DecodeError>(DecodeError::BadLength) <==> bytes@.len() != 288,
            r == Err::<Fp12, DecodeError>(DecodeError::NonCanonical) <==> (bytes@.len() == 288
                && !chunks_canonical(bytes@)),
            r matches Ok(v) ==> v.wf() && fp12_is_cyc(v@) && (exists|t: SpecFp12|
                #[trigger] fp12_inv_pair(fp12_minus_w(parse_fp6(bytes@)), t)
                && v@ == fp12_mul(fp12_plus_w(parse_fp6(bytes@)), t)),
            r == Err::<Fp12, DecodeError>(DecodeError::NotCyclotomic) ==> (exists|t: SpecFp12|
                #[trigger] fp12_inv_pair(fp12_minus_w(parse_fp6(bytes@)), t)
                && !fp12_is_cyc(fp12_mul(fp12_plus_w(parse_fp6(bytes@)), t))),
    {
        let c = match Fp12Compressed::from_bytes(bytes) {
            Ok(c) => c,
            Err(e) => {
                return Err(e);
            },
        };
        match c.uncompress() {
            Some(v) => Ok(v),
            None => Err(DecodeError::NotCyclotomic),
        }
    }
}

} // verus!
