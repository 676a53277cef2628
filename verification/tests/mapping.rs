use poker_activity::card_from_bytes;
use poker_activity::constants::{
    BLOB_LEN, CARD_BYTES_LEN, CARD_LABEL, DRAW_LABEL, NUM_CARDS, NUM_DRAWS, PREOUT_LEN,
    PROOF_LEN, PROTOCOL_LABEL, SEED_LABEL, SEED_LEN,
};
use poker_activity::DrawError;

#[test]
fn protocol_constants_have_their_agreed_values() {
    assert_eq!(NUM_DRAWS, 8);
    assert_eq!(NUM_CARDS, 52);
    assert_eq!(SEED_LEN, 32);
    assert_eq!(PREOUT_LEN, 32);
    assert_eq!(PROOF_LEN, 64);
    assert_eq!(BLOB_LEN, 97);
    assert_eq!(BLOB_LEN, PREOUT_LEN + PROOF_LEN + 1);
    assert_eq!(CARD_BYTES_LEN, 8);
}

#[test]
fn labels_spell_their_ascii_text() {
    assert_eq!(&PROTOCOL_LABEL[..], &b"Card Draw Transcript"[..]);
    assert_eq!(&SEED_LABEL[..], &b"seed"[..]);
    assert_eq!(&DRAW_LABEL[..], &b"draw"[..]);
    assert_eq!(&CARD_LABEL[..], &b"card"[..]);
}

#[test]
fn card_of_zero_bytes_is_zero() {
    assert_eq!(card_from_bytes(&[0u8; 8]), Ok(0));
}

#[test]
fn card_below_deck_size_is_kept() {
    assert_eq!(card_from_bytes(&[51, 0, 0, 0, 0, 0, 0, 0]), Ok(51));
}

#[test]
fn card_at_deck_size_wraps_to_zero() {
    assert_eq!(card_from_bytes(&[52, 0, 0, 0, 0, 0, 0, 0]), Ok(0));
}

#[test]
fn card_bytes_are_read_little_endian() {
    // 256 % 52 == 48
    assert_eq!(card_from_bytes(&[0, 1, 0, 0, 0, 0, 0, 0]), Ok(48));
    // 2^56 % 52 == 48, and 2^63 % 52 == 8
    assert_eq!(card_from_bytes(&[0, 0, 0, 0, 0, 0, 0, 1]), Ok(48));
    assert_eq!(card_from_bytes(&[0, 0, 0, 0, 0, 0, 0, 128]), Ok(8));
    // 0x0807060504030201 % 52 == 5
    assert_eq!(card_from_bytes(&[1, 2, 3, 4, 5, 6, 7, 8]), Ok(5));
}

#[test]
fn card_of_largest_value_does_not_overflow() {
    // (2^64 - 1) % 52 == 15
    assert_eq!(card_from_bytes(&[255u8; 8]), Ok(15));
}

#[test]
fn card_agrees_with_from_le_bytes_on_many_inputs() {
    let mut bytes = [0u8; 8];
    let mut x: u64 = 0x9e37_79b9_7f4a_7c15;
    for _ in 0..1000 {
        x = x.wrapping_mul(6364136223846793005).wrapping_add(1442695040888963407);
        bytes.copy_from_slice(&x.to_le_bytes());
        let expected = (u64::from_le_bytes(bytes) % 52) as u16;
        assert_eq!(card_from_bytes(&bytes), Ok(expected));
        assert!(expected < NUM_CARDS);
    }
}

#[test]
fn card_of_short_output_is_a_derivation_failure() {
    assert_eq!(card_from_bytes(&[]), Err(DrawError::DerivationFailed));
    assert_eq!(card_from_bytes(&[1, 2, 3, 4, 5, 6, 7]), Err(DrawError::DerivationFailed));
}

#[test]
fn card_of_long_output_is_a_derivation_failure() {
    assert_eq!(card_from_bytes(&[0u8; 9]), Err(DrawError::DerivationFailed));
    assert_eq!(card_from_bytes(&[0u8; 32]), Err(DrawError::DerivationFailed));
}
