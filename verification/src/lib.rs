//! Verifiable card draws for a multi-player card game.
//!
//! Every player derives a short sequence of pseudorandom cards from their own
//! Schnorr/Ristretto key pair and a seed that all players share. Each card
//! comes with a proof blob that anyone holding the player's public key can
//! check later: the blob either reproduces the very same card or is rejected.
//!
//! The draw index ranges over `0..=NUM_DRAWS`: an index is refused only when
//! it is greater than `NUM_DRAWS`, so `NUM_DRAWS` itself is still accepted,
//! while `draws` commits to the indices below `NUM_DRAWS`.
pub mod blob;
pub mod card;
pub mod constants;
pub mod draw;
pub mod encoding;
pub mod error;
pub mod transcript;
pub mod verification;
pub mod vrf;
pub mod winner;

pub use crate::blob::ProofBlob;
pub use crate::card::card_from_bytes;
pub use crate::constants::{NUM_CARDS, NUM_DRAWS};
pub use crate::draw::{draws, find_card, try_draw};
pub use crate::error::DrawError;
pub use crate::transcript::draw_transcript;
pub use crate::verification::recieve;
pub use crate::winner::winner;
