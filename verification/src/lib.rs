//! Validation of Groth16 proof attestations.
//!
//! A submission claims that a trusted verifier has checked a Groth16 proof.
//! This crate decodes the claim from its wire form, checks its shape and its
//! content, and binds the proof bytes and the public inputs into one
//! fingerprint. It performs no pairing check of its own.

pub mod error;
pub mod groth16;
pub mod keccak;
pub mod record;
pub mod validate;
pub mod attest;
pub mod laws;
