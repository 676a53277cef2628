//! The proof codec: the fixed layout in which a draw travels from the
//! signer to the verifier.
//!
//! A proof blob is 97 bytes long: the VRF pre-output (bytes 0 to 31), the
//! VRF proof (bytes 32 to 95) and the draw index (byte 96).
use vstd::prelude::*;
use crate::error::DrawError;

verus! {

/// The three parts of a proof blob.
#[derive(Debug, Clone, Copy, PartialEq, Eq)]
pub struct ProofBlob {
    /// The VRF pre-output, a compressed Ristretto point.
    pub preout: [u8; 32],
    /// The VRF proof, two scalars of 32 bytes each.
    pub proof: [u8; 64],
    /// The index of the draw that the proof belongs to.
    pub draw_index: u8,
}

impl View for ProofBlob {
    type V = Seq<u8>;

    /// The bytes of the blob on the wire.
    open spec fn view(&self) -> Seq<u8> {
        self.preout@ + self.proof@ + seq![self.draw_index]
    }
}

impl ProofBlob {
    /// Writes the blob in its wire layout.
    pub fn to_bytes(&self) -> (bytes: [u8; 97])
        ensures
            bytes@ == self@,
    {
        let mut bytes = [0u8; 97];
        let mut i: usize = 0;
        while i < 32
            invariant
                i <= 32,
                forall|k: int| 0 <= k < i ==> bytes@[k] == self.preout@[k],
            decreases 32 - i,
        {
            bytes[i] = self.preout[i];
            i = i + 1;
        }
        let mut j: usize = 0;
        while j < 64
            invariant
                j <= 64,
                forall|k: int| 0 <= k < 32 ==> bytes@[k] == self.preout@[k],
                forall|k: int| 0 <= k < j ==> bytes@[32 + k] == self.proof@[k],
            decreases 64 - j,
        {
            bytes[32 + j] = self.proof[j];
            j = j + 1;
        }
        bytes[96] = self.draw_index;
        assert(bytes@ =~= self@);
        bytes
    }

    /// Reads a blob from its wire layout. Only the length is checked here:
    /// every sequence of exactly 97 bytes splits into the three parts.
    pub fn from_bytes(bytes: &[u8]) -> (parsed: Result<ProofBlob, DrawError>)
        ensures
            match parsed {
                Ok(blob) => {
                    &&& bytes@.len() == 97
                    &&& blob.preout@ == bytes@.subrange(0, 32)
                    &&& blob.proof@ == bytes@.subrange(32, 96)
                    &&& blob.draw_index == bytes@[96]
                    &&& blob@ == bytes@
                },
                Err(e) => bytes@.len() != 97 && e == DrawError::MalformedBlob,
            },
    {
        if bytes.len() != 97 {
            return Err(DrawError::MalformedBlob);
        }
        let mut preout = [0u8; 32];
        let mut i: usize = 0;
        while i < 32
            invariant
                i <= 32,
                bytes@.len() == 97,
                forall|k: int| 0 <= k < i ==> preout@[k] == bytes@[k],
            decreases 32 - i,
        {
            preout[i] = bytes[i];
            i = i + 1;
        }
        let mut proof = [0u8; 64];
        let mut j: usize = 0;
        while j < 64
            invariant
                j <= 64,
                bytes@.len() == 97,
                forall|k: int| 0 <= k < j ==> proof@[k] == bytes@[32 + k],
            decreases 64 - j,
        {
            proof[j] = bytes[32 + j];
            j = j + 1;
        }
        let blob = ProofBlob { preout, proof, draw_index: bytes[96] };
        assert(blob.preout@ =~= bytes@.subrange(0, 32));
        assert(blob.proof@ =~= bytes@.subrange(32, 96));
        assert(blob@ =~= bytes@);
        Ok(blob)
    }
}

/// Every blob is 97 bytes on the wire, and its parts sit at their offsets.
pub proof fn lemma_layout(blob: ProofBlob)
    ensures
        blob@.len() == 97,
        blob@.subrange(0, 32) == blob.preout@,
        blob@.subrange(32, 96) == blob.proof@,
        blob@[96] == blob.draw_index,
{
    assert(blob@.subrange(0, 32) =~= blob.preout@);
    assert(blob@.subrange(32, 96) =~= blob.proof@);
}

/// Two blobs with the same bytes on the wire are the same blob: reading back
/// what was written gives the blob that was written.
pub proof fn lemma_layout_injective(a: ProofBlob, b: ProofBlob)
    requires
        a@ == b@,
    ensures
        a == b,
{
    lemma_layout(a);
    lemma_layout(b);
    assert(a.preout@ == b.preout@);
    assert(a.proof@ == b.proof@);
    assert(a.preout == b.preout);
    assert(a.proof == b.proof);
}

} // verus!
