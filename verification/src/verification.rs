//! The verifier: from a public key, a proof blob and a seed back to the card.
use vstd::prelude::*;
use schnorrkel::vrf::VRFProof;
use schnorrkel::PublicKey;
use crate::blob::ProofBlob;
use crate::constants::{NUM_CARDS, NUM_DRAWS};
use crate::draw::{card_for, find_card, is_draw_of};
use crate::error::DrawError;
use crate::transcript::{draw_state, draw_transcript};
use crate::vrf::{
    public_half,
    public_key_bytes,
    vrf_accepts,
    vrf_preout,
    vrf_verify,
    well_formed_proof,
};

verus! {

/// What revealing `blob` under `seed` against the public key `public` gives.
///
/// The checks come in a fixed order, and the first that fails decides the
/// error: the layout of the blob and of its proof, the range of the draw
/// index, and the VRF proof itself. A blob that passes all three yields the
/// card that belongs to its pre-output.
pub open spec fn reveal_outcome(public: Seq<u8>, blob: Seq<u8>, seed: Seq<u8>) -> Result<
    u16,
    DrawError,
> {
    if blob.len() != 97 || !well_formed_proof(blob.subrange(32, 96)) {
        Err(DrawError::MalformedBlob)
    } else if blob[96] > NUM_DRAWS {
        Err(DrawError::InvalidDrawIndex)
    } else if !vrf_accepts(
        public,
        draw_state(seed, blob[96]),
        blob.subrange(0, 32),
        blob.subrange(32, 96),
    ) {
        Err(DrawError::VerificationFailed)
    } else {
        card_for(public, draw_state(seed, blob[96]), blob.subrange(0, 32))
    }
}

/// Checks a proof blob against a public key and a seed, and returns the
/// card that it commits to.
///
/// A rejected proof is reported as `VerificationFailed` whatever the cause:
/// a wrong key, a wrong seed, a changed index or changed bytes.
pub fn recieve(public: &PublicKey, vrf_signature: &[u8], seed: &[u8; 32]) -> (card: Result<
    u16,
    DrawError,
>)
    ensures
        card == reveal_outcome(public_key_bytes(*public), vrf_signature@, seed@),
        card matches Ok(c) ==> c < NUM_CARDS,
{
    let blob = ProofBlob::from_bytes(vrf_signature)?;
    let proof = match VRFProof::from_bytes(&blob.proof) {
        Ok(proof) => proof,
        Err(_) => {
            return Err(DrawError::MalformedBlob);
        },
    };
    let transcript = draw_transcript(seed, blob.draw_index)?;
    let vrf_in_out = match vrf_verify(public, transcript, &blob.preout, &proof) {
        Ok(vrf_in_out) => vrf_in_out,
        Err(_) => {
            return Err(DrawError::VerificationFailed);
        },
    };
    find_card(&vrf_in_out)
}

/// Revealing a draw against the public half of the key pair that made it
/// returns the card that was drawn, and it does so exactly when the index
/// is in range, the proof in the blob is well formed and the VRF accepts it
/// for the draw's transcript. No other card is ever returned for it.
pub proof fn lemma_reveal_returns_drawn_card(
    key: Seq<u8>,
    seed: Seq<u8>,
    draw_num: u8,
    card: u16,
    blob: Seq<u8>,
)
    requires
        is_draw_of(key, seed, draw_num, card, blob),
    ensures
        reveal_outcome(public_half(key), blob, seed) is Ok ==> reveal_outcome(
            public_half(key),
            blob,
            seed,
        ) == Ok::<u16, DrawError>(card),
        reveal_outcome(public_half(key), blob, seed) == Ok::<u16, DrawError>(card) <==> {
            &&& draw_num <= NUM_DRAWS
            &&& well_formed_proof(blob.subrange(32, 96))
            &&& vrf_accepts(
                public_half(key),
                draw_state(seed, draw_num),
                vrf_preout(key, draw_state(seed, draw_num)),
                blob.subrange(32, 96),
            )
        },
{
}

/// A blob of any length but 97 is malformed, whatever the key and the seed.
pub proof fn lemma_wrong_length_is_malformed(public: Seq<u8>, blob: Seq<u8>, seed: Seq<u8>)
    requires
        blob.len() != 97,
    ensures
        reveal_outcome(public, blob, seed) == Err::<u16, DrawError>(DrawError::MalformedBlob),
{
}

} // verus!
