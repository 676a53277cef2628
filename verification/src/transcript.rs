//! The transcript builder: the canonical message that a draw signs.
//!
//! Signer and verifier build the transcript from the same three parts, in the
//! same order: the protocol label, the seed, and the draw index as a 64-bit
//! little-endian integer. Equal seed and index therefore give equal
//! transcripts, on every machine.
use vstd::prelude::*;
use merlin::Transcript;
use crate::constants::{DRAW_LABEL, NUM_DRAWS, PROTOCOL_LABEL, SEED_LABEL};
use crate::encoding::{lemma_u64_le_roundtrip, u64_le_bytes};
use crate::error::DrawError;

verus! {

/// `merlin::Transcript`, taken as an opaque value.
#[verifier::external_type_specification]
#[verifier::external_body]
pub struct ExTranscript(merlin::Transcript);

/// What a transcript holds: the bytes of its sponge state. Nothing is
/// assumed about them beyond what the three contracts below say.
pub uninterp spec fn transcript_state(transcript: Transcript) -> Seq<u8>;

/// The state that `merlin::Transcript::new` returns for a domain separator.
pub uninterp spec fn fresh_state(label: Seq<u8>) -> Seq<u8>;

/// The state that `merlin::Transcript::append_message` leaves behind when it
/// absorbs a labelled message into a given state.
pub uninterp spec fn appended_state(state: Seq<u8>, label: Seq<u8>, message: Seq<u8>) -> Seq<u8>;

/// `merlin::Transcript::new`: the new transcript depends on the domain
/// separator alone. The call panics on a label longer than `u32::MAX` bytes,
/// so such labels are left out.
pub assume_specification[ merlin::Transcript::new ](label: &'static [u8]) -> (transcript:
    Transcript)
    requires
        label@.len() <= u32::MAX,
    ensures
        transcript_state(transcript) == fresh_state(label@),
;

/// `merlin::Transcript::append_message`: the state afterwards depends on the
/// state before, the label and the message alone. The call panics on a
/// message longer than `u32::MAX` bytes, so such messages are left out.
pub assume_specification[ merlin::Transcript::append_message ](
    transcript: &mut Transcript,
    label: &'static [u8],
    message: &[u8],
)
    requires
        message@.len() <= u32::MAX,
    ensures
        transcript_state(*final(transcript)) == appended_state(
            transcript_state(*old(transcript)),
            label@,
            message@,
        ),
;

/// `merlin::Transcript::append_u64`: it appends, as a message, the eight
/// bytes of `x` in little-endian order.
pub assume_specification[ merlin::Transcript::append_u64 ](
    transcript: &mut Transcript,
    label: &'static [u8],
    x: u64,
)
    ensures
        transcript_state(*final(transcript)) == appended_state(
            transcript_state(*old(transcript)),
            label@,
            u64_le_bytes(x),
        ),
;

/// The state of the transcript for one draw: the protocol label, then the
/// seed under `SEED_LABEL`, then the draw index under `DRAW_LABEL`, encoded
/// as a 64-bit little-endian integer.
pub open spec fn draw_state(seed: Seq<u8>, draw_num: u8) -> Seq<u8> {
    appended_state(
        appended_state(fresh_state(PROTOCOL_LABEL@), SEED_LABEL@, seed),
        DRAW_LABEL@,
        u64_le_bytes(draw_num as u64),
    )
}

/// Two draw indices that enter the transcript as the same message are the
/// same index: the encoding of the index loses nothing.
pub proof fn lemma_index_message_is_injective(a: u8, b: u8)
    requires
        u64_le_bytes(a as u64) == u64_le_bytes(b as u64),
    ensures
        a == b,
{
    lemma_u64_le_roundtrip(a as u64);
    lemma_u64_le_roundtrip(b as u64);
}

/// Builds the transcript that the draw `draw_num` under `seed` signs.
///
/// The index is refused exactly when it is greater than `NUM_DRAWS`; the
/// index `NUM_DRAWS` itself is accepted.
pub fn draw_transcript(seed: &[u8; 32], draw_num: u8) -> (built: Result<Transcript, DrawError>)
    ensures
        match built {
            Ok(transcript) => draw_num <= NUM_DRAWS && transcript_state(transcript) == draw_state(
                seed@,
                draw_num,
            ),
            Err(e) => draw_num > NUM_DRAWS && e == DrawError::InvalidDrawIndex,
        },
{
    if draw_num > NUM_DRAWS {
        return Err(DrawError::InvalidDrawIndex);
    }
    let mut transcript = Transcript::new(&PROTOCOL_LABEL);
    transcript.append_message(&SEED_LABEL, seed);
    transcript.append_u64(&DRAW_LABEL, draw_num as u64);
    Ok(transcript)
}

} // verus!
