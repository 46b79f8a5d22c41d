//! Groth16 proof packaging for Circom circuits.
//!
//! The crate assembles a witness from named signal assignments, drives a
//! one-time trusted setup, invokes the Groth16 prover, and canonically
//! serializes the verifying key, the proof, and the public inputs into a
//! fixed, versioned binary envelope that an independent verifier can consume.
//! The pipeline is instantiated for two pairing-friendly curve families,
//! BN254 and BLS12-377, which share one envelope layout and differ only in
//! group-element byte widths.

pub mod codec;
pub mod contract;
pub mod curve;
pub mod envelope;
pub mod generator;
pub mod error;
pub mod pipeline;
