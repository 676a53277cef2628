//! The ways in which a draw or a reveal can fail.
use vstd::prelude::*;

verus! {

/// Why a draw or a reveal was refused. Every failure is reported through
/// this type; none is replaced by a default value.
#[derive(Debug, Clone, Copy, PartialEq, Eq, Structural)]
pub enum DrawError {
    /// The draw index is greater than `NUM_DRAWS`.
    InvalidDrawIndex,
    /// The proof blob has the wrong length, or its proof part is not the
    /// encoding of two canonical scalars.
    MalformedBlob,
    /// The proof does not validate the pre-output for this public key, seed
    /// and draw index. No further reason is given.
    VerificationFailed,
    /// The VRF output handed to the card mapper is not exactly eight bytes.
    DerivationFailed,
}

} // verus!
