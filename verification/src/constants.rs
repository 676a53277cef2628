//! The constants that signer and verifier must share. Two builds that differ
//! in any of them cannot check each other's draws.
use vstd::prelude::*;

verus! {

/// Number of draws that `draws` commits to for one seed. A draw index is
/// refused only when it is greater than this.
pub const NUM_DRAWS: u8 = 8;

/// Number of cards in the deck; every card index is below it.
pub const NUM_CARDS: u16 = 52;

/// Length of the shared seed in bytes.
pub const SEED_LEN: usize = 32;

/// Length of the VRF pre-output inside a proof blob.
pub const PREOUT_LEN: usize = 32;

/// Length of the VRF proof inside a proof blob.
pub const PROOF_LEN: usize = 64;

/// Length of a proof blob: pre-output, proof, and one byte of draw index.
pub const BLOB_LEN: usize = 97;

/// Number of VRF output bytes that a card is derived from.
pub const CARD_BYTES_LEN: usize = 8;

/// Domain separator of the draw transcript: the ASCII text `Card Draw Transcript`.
pub const PROTOCOL_LABEL: [u8; 20] = [
    67, 97, 114, 100, 32, 68, 114, 97, 119, 32, 84, 114, 97, 110, 115, 99, 114, 105, 112, 116,
];

/// Label under which the seed enters the transcript: the ASCII text `seed`.
pub const SEED_LABEL: [u8; 4] = [115, 101, 101, 100];

/// Label under which the draw index enters the transcript: the ASCII text `draw`.
pub const DRAW_LABEL: [u8; 4] = [100, 114, 97, 119];

/// Context under which card bytes are extracted from a VRF output: the ASCII text `card`.
pub const CARD_LABEL: [u8; 4] = [99, 97, 114, 100];

} // verus!
