use ark_bls12_381::{Bls12_381, Fq12, G1Projective, G2Projective};
use ark_ec::pairing::Pairing;
use ark_ec::CurveGroup;
use ark_ff::{BigInt, Field, PrimeField, UniformRand};
use rand_core::SeedableRng;
use rand_xorshift::XorShiftRng;

use fp12::codec::DecodeError;
use fp12::fp12::Fp12;
use fp12::fp2::Fp2;
use fp12::fp6::Fp6;

const SEED: [u8; 16] = [
    0x59, 0x62, 0xbe, 0x5d, 0x76, 0x3d, 0x31, 0x8d, 0x17, 0xdb, 0x37, 0x32, 0x54, 0x06, 0xbc,
    0xe5,
];

fn fp2_from_ark(f: &ark_bls12_381::Fq2) -> Fp2 {
    Fp2::from_montgomery_limbs(((f.c0).0).0, ((f.c1).0).0)
}

fn fp6_from_ark(f: &ark_bls12_381::Fq6) -> Fp6 {
    Fp6::new(fp2_from_ark(&f.c0), fp2_from_ark(&f.c1), fp2_from_ark(&f.c2))
}

fn fp12_from_ark(f: &Fq12) -> Fp12 {
    Fp12::new(fp6_from_ark(&f.c0), fp6_from_ark(&f.c1))
}

fn rand_fp12(rng: &mut XorShiftRng) -> Fp12 {
    fp12_from_ark(&Fq12::rand(rng))
}

fn pairing_value(rng: &mut XorShiftRng) -> Fp12 {
    let p = G1Projective::rand(rng).into_affine();
    let q = G2Projective::rand(rng).into_affine();
    fp12_from_ark(&Bls12_381::pairing(p, q).0)
}

#[test]
fn test_fp12_eq() {
    assert_eq!(Fp12::one(), Fp12::one());
    assert_eq!(Fp12::zero(), Fp12::zero());
    assert_ne!(Fp12::zero(), Fp12::one());
}

#[test]
fn fp12_random_frobenius_tests() {
    let mut rng = XorShiftRng::from_seed(SEED);

    let characteristic: [u64; 6] = ark_bls12_381::Fq::MODULUS.0;
    let maxpower = 13;

    for _ in 0..25 {
        let base = Fq12::rand(&mut rng);
        // `powered` tracks base^(q^i) as i advances.
        let mut powered = base;
        for i in 0..(maxpower + 1) {
            let a = fp12_from_ark(&powered);
            let b = fp12_from_ark(&base).frobenius_map(i);
            assert!(a.ct_eq(&b), "{}", i);
            assert_eq!(a, b, "{}", i);
            powered = powered.pow(characteristic);
        }
    }
}

#[test]
fn fp12_subgroup() {
    let mut rng = XorShiftRng::from_seed(SEED);
    let a = pairing_value(&mut rng);
    assert!(a.is_in_subgroup());
}

#[test]
fn fp12_random_field_tests() {
    let mut rng = XorShiftRng::from_seed(SEED);
    let zero = Fp12::zero();
    let one = Fp12::one();
    assert!(zero.is_zero());
    assert!(!one.is_zero());
    assert!(one.invert().is_some());
    assert!(zero.invert().is_none());
    for _ in 0..10 {
        let a = rand_fp12(&mut rng);
        let b = rand_fp12(&mut rng);
        assert_eq!(a.add(&zero), a);
        assert_eq!(a.mul(&one), a);
        assert_eq!(one.mul(&a), a);
        assert_eq!(a.mul(&zero), zero);
        assert_eq!(a.neg().add(&a), zero);
        assert_eq!(a.double(), a.add(&a));
        assert_eq!(a.square(), a.mul(&a));
        assert_eq!(a.sub(&b), a.add(&b.neg()));
        let inv = a.invert().expect("nonzero");
        assert_eq!(a.mul(&inv), one);
        assert_eq!(inv.mul(&a), one);
        assert_eq!(a.conjugate().conjugate(), a);
    }
}

#[test]
fn fp12_compression() {
    let mut rng = XorShiftRng::from_seed(SEED);

    for i in 0..25 {
        let a = rand_fp12(&mut rng);
        // usually not cyclotomic, so not compressible
        if let Some(b) = a.compress() {
            let c = b.uncompress().unwrap();
            assert_eq!(a, c, "{}", i);
        }

        // pairing result, should be compressible
        let a = pairing_value(&mut rng);
        assert!(a.is_cyc());

        let b = a.compress().unwrap();
        let c = b.uncompress().unwrap();
        assert_eq!(a, c, "{}", i);

        let buffer = a.write_compressed().unwrap();
        assert_eq!(buffer.len(), 288);
        let out = Fp12::read_compressed(&buffer).unwrap();
        assert_eq!(a, out);
    }
}

#[test]
fn fp12_identity_compression_boundary() {
    let one = Fp12::one();
    assert!(one.is_cyc());
    assert!(one.compress().is_none());
    assert!(one.write_compressed().is_none());
}

#[test]
fn fp12_sqrt_unsupported() {
    let mut rng = XorShiftRng::from_seed(SEED);
    assert!(Fp12::one().sqrt().is_none());
    assert!(Fp12::zero().sqrt().is_none());
    assert!(rand_fp12(&mut rng).sqrt().is_none());
}

#[test]
fn fp12_equality_and_selection() {
    let mut rng = XorShiftRng::from_seed(SEED);
    let a = rand_fp12(&mut rng);
    let b = rand_fp12(&mut rng);
    assert!(a.ct_eq(&a));
    assert!(!a.ct_eq(&b));
    assert_eq!(Fp12::conditional_select(&a, &b, false), a);
    assert_eq!(Fp12::conditional_select(&a, &b, true), b);
}

#[test]
fn fp12_read_rejects_bad_length() {
    assert_eq!(Fp12::read_compressed(&[0u8; 10]), Err(DecodeError::BadLength));
    assert_eq!(Fp12::read_compressed(&[0u8; 289]), Err(DecodeError::BadLength));
}

#[test]
fn fp12_read_rejects_non_canonical() {
    let bytes = [0xffu8; 288];
    assert_eq!(Fp12::read_compressed(&bytes), Err(DecodeError::NonCanonical));
}

#[test]
fn fp12_read_rejects_non_cyclotomic() {
    // All-zero chunks are canonical encodings of zero, but decompressing the
    // zero torus value yields -1, which is not cyclotomic.
    let bytes = [0u8; 288];
    assert_eq!(Fp12::read_compressed(&bytes), Err(DecodeError::NotCyclotomic));
}

#[test]
fn fp12_codec_roundtrip_identity_free() {
    let mut rng = XorShiftRng::from_seed(SEED);
    let a = pairing_value(&mut rng);
    let bytes = a.write_compressed().unwrap();
    let back = Fp12::read_compressed(&bytes).unwrap();
    assert!(a.ct_eq(&back));
    // serialising the decoded value gives the identical byte stream
    let bytes2 = back.write_compressed().unwrap();
    assert_eq!(bytes, bytes2);
}

#[test]
fn fp2_wide_byte_reduction() {
    let mut re = [0u8; 64];
    let im = [0u8; 64];
    re[0] = 7;
    let x = Fp2::from_wide_bytes(&re, &im);
    let expected = fp2_from_ark(&ark_bls12_381::Fq2::new(
        ark_bls12_381::Fq::from(7u64),
        ark_bls12_381::Fq::from(0u64),
    ));
    assert_eq!(x, expected);
}

#[test]
fn fp12_accessors_and_new() {
    let mut rng = XorShiftRng::from_seed(SEED);
    let a = rand_fp12(&mut rng);
    let rebuilt = Fp12::new(a.c0(), a.c1());
    assert_eq!(a, rebuilt);
}

#[test]
fn fp12_frobenius_matches_backend() {
    let mut rng = XorShiftRng::from_seed(SEED);
    let f = Fq12::rand(&mut rng);
    for power in 0..13 {
        let ours = fp12_from_ark(&f).frobenius_map(power);
        let theirs = fp12_from_ark(&f.frobenius_map(power));
        assert_eq!(ours, theirs, "{}", power);
    }
}
