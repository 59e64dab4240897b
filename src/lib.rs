//! Groth16 proof verification over BN254 from serialized inputs.
//!
//! Scalars are held as canonical little-endian byte strings; curve points,
//! pairing values and proofs are arkworks values handled through a small set
//! of trusted wrappers in `curve`.

pub mod error;
pub mod scalar;
pub mod curve;
pub mod groth16;
pub mod api;

pub use ark_bn254::{Bn254, Fr as Bn254Fr};
pub use ark_ff::ToConstraintField;
pub use api::{prepare_pvk_bytes, verify_groth16, verify_groth16_in_bytes};
pub use error::Groth16Error;
pub use scalar::{Scalar, SCALAR_SIZE};
