//! The draw engine: from a key pair and a seed to cards with their proofs.
use vstd::prelude::*;
use schnorrkel::vrf::VRFInOut;
use schnorrkel::Keypair;
use crate::blob::ProofBlob;
use crate::card::{card_from_bytes, card_of};
use crate::constants::{CARD_LABEL, NUM_CARDS, NUM_DRAWS};
use crate::error::DrawError;
use crate::transcript::{draw_state, draw_transcript};
use crate::vrf::{
    inout_bytes,
    keypair_bytes,
    public_half,
    vrf_bytes,
    vrf_input,
    vrf_make_bytes,
    vrf_preout,
    vrf_sign,
};

verus! {

/// The card that belongs to a pre-output for a public key and the state of
/// a transcript: the card of the eight bytes extracted, under `CARD_LABEL`,
/// from the input point followed by the pre-output.
pub open spec fn card_for(public: Seq<u8>, state: Seq<u8>, preout: Seq<u8>) -> Result<
    u16,
    DrawError,
> {
    card_of(vrf_bytes(vrf_input(public, state) + preout, CARD_LABEL@))
}

/// What it means for `card` and `blob` to be the draw `draw_num` of the key
/// pair `key` under `seed`.
///
/// The blob carries the pre-output of the key pair for the draw's
/// transcript and the draw index, and the card is the one that belongs to
/// that pre-output. The 64 bytes of proof in the middle are left open: the
/// signer makes each proof with fresh randomness.
pub open spec fn is_draw_of(
    key: Seq<u8>,
    seed: Seq<u8>,
    draw_num: u8,
    card: u16,
    blob: Seq<u8>,
) -> bool {
    let state = draw_state(seed, draw_num);
    let preout = vrf_preout(key, state);
    &&& blob.len() == 97
    &&& blob.subrange(0, 32) == preout
    &&& blob[96] == draw_num
    &&& card_for(public_half(key), state, preout) == Ok::<u16, DrawError>(card)
}

/// Derives the card from a VRF input/output pair.
///
/// A pair that comes from a verifier must have passed verification first.
/// The eight bytes that the pair yields always map to a card.
pub fn find_card(vrf_output: &VRFInOut) -> (card: Result<u16, DrawError>)
    ensures
        card == card_of(vrf_bytes(inout_bytes(*vrf_output), CARD_LABEL@)),
        card matches Ok(c) && c < NUM_CARDS,
{
    let card_bytes = vrf_make_bytes(vrf_output, &CARD_LABEL);
    card_from_bytes(&card_bytes)
}

/// Draws the card with index `draw_num` for `keypair` under `seed`, and
/// packs the proof of it into a blob.
///
/// The draw is refused exactly when `draw_num` is greater than `NUM_DRAWS`.
/// Card, pre-output and index are functions of key pair, seed and index, so
/// drawing again gives the same card; only the proof bytes may differ.
pub fn try_draw(keypair: &Keypair, seed: &[u8; 32], draw_num: u8) -> (drawn: Result<
    (u16, [u8; 97]),
    DrawError,
>)
    ensures
        match drawn {
            Ok((card, blob)) => {
                &&& draw_num <= NUM_DRAWS
                &&& card < NUM_CARDS
                &&& is_draw_of(keypair_bytes(*keypair), seed@, draw_num, card, blob@)
            },
            Err(e) => draw_num > NUM_DRAWS && e == DrawError::InvalidDrawIndex,
        },
{
    let transcript = draw_transcript(seed, draw_num)?;
    let (vrf_in_out, preout, proof) = vrf_sign(keypair, transcript);
    let card = find_card(&vrf_in_out)?;
    let blob = ProofBlob { preout, proof, draw_index: draw_num };
    let vrf_signature = blob.to_bytes();
    proof {
        crate::blob::lemma_layout(blob);
    }
    Ok((card, vrf_signature))
}

/// Draws the cards with the indices `0` to `NUM_DRAWS - 1` for `keypair`
/// under `seed`.
///
/// A draw that fails is left out and the others are kept. Since no index
/// below `NUM_DRAWS` is ever refused, the result holds all `NUM_DRAWS`
/// draws, in the order of their indices.
pub fn draws(keypair: &Keypair, seed: &[u8; 32]) -> (all: Vec<(u16, [u8; 97])>)
    ensures
        all@.len() == NUM_DRAWS,
        forall|i: int|
            0 <= i < NUM_DRAWS ==> is_draw_of(
                keypair_bytes(*keypair),
                seed@,
                i as u8,
                (#[trigger] all@[i]).0,
                all@[i].1@,
            ),
{
    let mut all: Vec<(u16, [u8; 97])> = Vec::new();
    let mut draw_num: u8 = 0;
    while draw_num < NUM_DRAWS
        invariant
            draw_num <= NUM_DRAWS,
            all@.len() == draw_num,
            forall|i: int|
                0 <= i < draw_num ==> is_draw_of(
                    keypair_bytes(*keypair),
                    seed@,
                    i as u8,
                    (#[trigger] all@[i]).0,
                    all@[i].1@,
                ),
        decreases NUM_DRAWS - draw_num,
    {
        match try_draw(keypair, seed, draw_num) {
            Ok(drawn) => {
                all.push(drawn);
            },
            Err(_) => {},
        }
        draw_num = draw_num + 1;
    }
    all
}

/// Two draws of the same index, by the same key pair under the same seed,
/// agree on the card, on the pre-output and on the index in their blobs.
/// Their proof bytes may differ.
pub proof fn lemma_draw_is_deterministic(
    key: Seq<u8>,
    seed: Seq<u8>,
    draw_num: u8,
    card1: u16,
    blob1: Seq<u8>,
    card2: u16,
    blob2: Seq<u8>,
)
    requires
        is_draw_of(key, seed, draw_num, card1, blob1),
        is_draw_of(key, seed, draw_num, card2, blob2),
    ensures
        card1 == card2,
        blob1.subrange(0, 32) == blob2.subrange(0, 32),
        blob1[96] == blob2[96],
        blob1.len() == blob2.len(),
{
}

} // verus!
