//! Arithmetic in the degree-12 extension field that serves as the target
//! field of the BLS12-381 pairing.
//!
//! The field is built as a tower: a quadratic extension (by `u`, `u^2 = -1`)
//! of the prime field, a cubic extension (by `v`, `v^3 = u + 1`) of that, and
//! finally a quadratic extension (by `w`, `w^2 = v`).  An element is a pair
//! `c0 + c1*w` of cubic-extension coordinates, twelve base-field coordinates
//! in all.
//!
//! The quadratic sub-tower is consumed from an external backend through a
//! small set of trusted operations; everything above it — the degree-12
//! arithmetic, the Frobenius endomorphism, the cyclotomic exponentiation
//! chain, the subgroup membership tests, and the torus-based compression
//! codec with its byte format — is implemented and verified here.

pub mod modular;
pub mod fp2;
pub mod tables;
pub mod fp6;
pub mod fp12;
pub mod codec;
pub mod laws;
