//! The card mapper: from eight bytes of VRF output to a card index.
use vstd::prelude::*;
use crate::constants::NUM_CARDS;
use crate::encoding::{le_value, lemma_le_value_bound, pow256};
use crate::error::DrawError;

verus! {

/// The card that a VRF output stands for: its eight bytes read as a
/// little-endian 64-bit integer, reduced modulo the number of cards. An
/// output of any other length has no card.
pub open spec fn card_of(output: Seq<u8>) -> Result<u16, DrawError> {
    if output.len() == 8 {
        Ok((le_value(output) % (NUM_CARDS as nat)) as u16)
    } else {
        Err(DrawError::DerivationFailed)
    }
}

/// Maps the bytes of a VRF output to a card index below `NUM_CARDS`.
///
/// The reduction modulo 52 is not perfectly uniform: 2^64 is not a multiple
/// of 52, so the lowest cards are favoured by less than one part in 2^57.
pub fn card_from_bytes(output: &[u8]) -> (card: Result<u16, DrawError>)
    ensures
        card == card_of(output@),
        card matches Ok(c) ==> c < NUM_CARDS,
{
    if output.len() != 8 {
        return Err(DrawError::DerivationFailed);
    }
    let mut value: u64 = 0;
    let mut i: usize = 8;
    while i > 0
        invariant
            i <= 8,
            output@.len() == 8,
            value == le_value(output@.subrange(i as int, 8)),
        decreases i,
    {
        proof {
            let tail = output@.subrange(i as int, 8);
            lemma_le_value_bound(tail);
            lemma_pow256_monotonic(tail.len(), 7);
            assert(pow256(7) == 0x100_0000_0000_0000) by {
                reveal_with_fuel(pow256, 8);
            }
            assert(output@.subrange(i - 1, 8).drop_first() =~= tail);
        }
        i = i - 1;
        value = value * 256 + output[i] as u64;
    }
    assert(output@.subrange(0, 8) =~= output@);
    Ok((value % (NUM_CARDS as u64)) as u16)
}

/// Powers of 256 grow with the exponent.
proof fn lemma_pow256_monotonic(a: nat, b: nat)
    requires
        a <= b,
    ensures
        pow256(a) <= pow256(b),
    decreases b,
{
    if a < b {
        lemma_pow256_monotonic(a, (b - 1) as nat);
    }
}

} // verus!
