//! The VRF primitive, as far as the draw protocol relies on it.
//!
//! Key pairs, public keys, input/output pairs and proofs are values of
//! `schnorrkel` and stay opaque here. What the protocol needs to know about
//! them is named below, and the four calls into `schnorrkel` are specified in
//! terms of those names. None of these statements is proved in this crate.
use vstd::prelude::*;
use merlin::Transcript;
use schnorrkel::vrf::{VRFInOut, VRFPreOut, VRFProof};
use schnorrkel::{Keypair, PublicKey, SignatureError};
use crate::encoding::le_value;
use crate::transcript::transcript_state;

verus! {

/// `schnorrkel::Keypair`, taken as an opaque value.
#[verifier::external_type_specification]
#[verifier::external_body]
pub struct ExKeypair(schnorrkel::Keypair);

/// `schnorrkel::PublicKey`, taken as an opaque value.
#[verifier::external_type_specification]
#[verifier::external_body]
pub struct ExPublicKey(schnorrkel::PublicKey);

/// `schnorrkel::vrf::VRFInOut`, taken as an opaque value.
#[verifier::external_type_specification]
#[verifier::external_body]
pub struct ExVRFInOut(schnorrkel::vrf::VRFInOut);

/// `schnorrkel::vrf::VRFProof`, taken as an opaque value.
#[verifier::external_type_specification]
#[verifier::external_body]
pub struct ExVRFProof(schnorrkel::vrf::VRFProof);

/// `schnorrkel::SignatureError`, taken as an opaque value.
#[verifier::external_type_specification]
#[verifier::external_body]
pub struct ExSignatureError(schnorrkel::SignatureError);

/// What a key pair holds, as `Keypair::to_bytes` writes it: 64 bytes of
/// secret key followed by the 32 bytes of the public key.
pub uninterp spec fn keypair_bytes(keypair: Keypair) -> Seq<u8>;

/// What a public key holds, as `PublicKey::to_bytes` writes it: one
/// compressed Ristretto point.
pub uninterp spec fn public_key_bytes(public: PublicKey) -> Seq<u8>;

/// What an input/output pair holds: the compressed input point followed by
/// the compressed output point.
pub uninterp spec fn inout_bytes(io: VRFInOut) -> Seq<u8>;

/// What a proof holds, as `VRFProof::to_bytes` writes it.
pub uninterp spec fn proof_bytes(proof: VRFProof) -> Seq<u8>;

/// The compressed input point that `PublicKey::vrf_hash` derives from a
/// public key and the state of a transcript. Signing and verifying both
/// start from it.
pub uninterp spec fn vrf_input(public: Seq<u8>, state: Seq<u8>) -> Seq<u8>;

/// The pre-output that `Keypair::vrf_sign` computes: the compressed product
/// of the secret scalar and the input point. It depends on the key pair and
/// the state of the transcript alone.
pub uninterp spec fn vrf_preout(key: Seq<u8>, state: Seq<u8>) -> Seq<u8>;

/// Whether `PublicKey::vrf_verify` accepts a pre-output and a proof for a
/// public key and the state of a transcript.
pub uninterp spec fn vrf_accepts(
    public: Seq<u8>,
    state: Seq<u8>,
    preout: Seq<u8>,
    proof: Seq<u8>,
) -> bool;

/// The eight bytes that `VRFInOut::make_bytes` extracts from an input/output
/// pair under a context.
pub uninterp spec fn vrf_bytes(inout: Seq<u8>, context: Seq<u8>) -> Seq<u8>;

/// The public key inside the bytes of a key pair.
pub open spec fn public_half(key: Seq<u8>) -> Seq<u8> {
    key.subrange(64, 96)
}

/// The order of the Ristretto group: 2^252 + 27742317777372353535851937790883648493.
pub open spec fn group_order() -> nat {
    0x1000_0000_0000_0000_0000_0000_0000_0000_14de_f9de_a2f7_9cd6_5812_631a_5cf5_d3ednat
}

/// A scalar is canonical when its 32 bytes spell, in little-endian order, a
/// number below the group order.
pub open spec fn canonical_scalar(bytes: Seq<u8>) -> bool {
    bytes.len() == 32 && le_value(bytes) < group_order()
}

/// A proof is well formed when it is 64 bytes long and each half is a
/// canonical scalar.
pub open spec fn well_formed_proof(bytes: Seq<u8>) -> bool {
    &&& bytes.len() == 64
    &&& canonical_scalar(bytes.subrange(0, 32))
    &&& canonical_scalar(bytes.subrange(32, 64))
}

/// `schnorrkel::vrf::VRFProof::from_bytes`: it succeeds exactly on 64 bytes
/// that encode two canonical scalars, and the proof then holds those bytes.
pub assume_specification[ schnorrkel::vrf::VRFProof::from_bytes ](bytes: &[u8]) -> (decoded: Result<
    VRFProof,
    SignatureError,
>)
    ensures
        decoded is Ok <==> well_formed_proof(bytes@),
        decoded matches Ok(proof) ==> proof_bytes(proof) == bytes@,
;

/// Calls `schnorrkel::Keypair::vrf_sign` and hands back the input/output
/// pair, the pre-output bytes and the proof bytes.
///
/// The pre-output is the named function of key pair and transcript, and the
/// pair holds the input point for the key pair's public half followed by
/// that pre-output. The proof is made with fresh randomness: nothing is
/// claimed about its bytes.
#[verifier::external_body]
pub(crate) fn vrf_sign(keypair: &Keypair, transcript: Transcript) -> (signed: (
    VRFInOut,
    [u8; 32],
    [u8; 64],
))
    ensures
        signed.1@ == vrf_preout(keypair_bytes(*keypair), transcript_state(transcript)),
        inout_bytes(signed.0) == vrf_input(
            public_half(keypair_bytes(*keypair)),
            transcript_state(transcript),
        ) + signed.1@,
{
    let (io, proof, _) = keypair.vrf_sign(transcript);
    let preout = io.to_preout().to_bytes();
    (io, preout, proof.to_bytes())
}

/// Calls `schnorrkel::PublicKey::vrf_verify` on a pre-output given as bytes.
///
/// Whether it accepts depends on the public key, the transcript, the
/// pre-output and the proof alone. On success the pair it returns holds the
/// input point for this public key followed by the given pre-output.
#[verifier::external_body]
pub(crate) fn vrf_verify(
    public: &PublicKey,
    transcript: Transcript,
    preout: &[u8; 32],
    proof: &VRFProof,
) -> (checked: Result<VRFInOut, SignatureError>)
    ensures
        checked is Ok <==> vrf_accepts(
            public_key_bytes(*public),
            transcript_state(transcript),
            preout@,
            proof_bytes(*proof),
        ),
        checked matches Ok(io) ==> inout_bytes(io) == vrf_input(
            public_key_bytes(*public),
            transcript_state(transcript),
        ) + preout@,
{
    match public.vrf_verify(transcript, &VRFPreOut(*preout), proof) {
        Ok((io, _)) => Ok(io),
        Err(e) => Err(e),
    }
}

/// Calls `schnorrkel::vrf::VRFInOut::make_bytes` for eight bytes of output.
///
/// The bytes depend on the two points of the pair and the context alone. The
/// call panics on a context longer than `u32::MAX` bytes, so such contexts
/// are left out.
#[verifier::external_body]
pub(crate) fn vrf_make_bytes(io: &VRFInOut, context: &[u8]) -> (output: [u8; 8])
    requires
        context@.len() <= u32::MAX,
    ensures
        output@ == vrf_bytes(inout_bytes(*io), context@),
{
    io.make_bytes::<[u8; 8]>(context)
}

} // verus!
