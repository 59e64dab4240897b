use vstd::prelude::*;

verus! {

/// Everything that can go wrong while preparing a key or verifying a proof.
///
/// A proof that is well formed but does not satisfy the pairing equation is
/// not an error: verification then returns `Ok(false)`.
#[derive(Debug)]
pub enum Groth16Error {
    /// Bytes that do not decode to a field element, curve point, proof or key.
    InvalidEncoding,
    /// A variable-length buffer whose length is not a multiple of the element size.
    InputLengthWrong(usize),
    /// The number of public inputs plus one differs from the number of
    /// input-commitment bases of the prepared key.
    PublicInputCountMismatch,
    /// An internal failure distinct from a false proof.
    VerificationError(VerificationFailure),
}

/// What went wrong inside verification of a well-formed input.
#[derive(Debug, PartialEq, Eq, Structural)]
pub enum VerificationFailure {
    /// A prepared G2 point holds neither a full set of line coefficients nor
    /// the point at infinity.
    IncompletePreparedPoint,
    /// The pairing check could not complete.
    PairingIncomplete,
}

} // verus!
