//! Little-endian integers as byte sequences.
use vstd::prelude::*;

verus! {

/// The number that `bytes` spells in little-endian order: the first byte is
/// the least significant digit in base 256.
pub open spec fn le_value(bytes: Seq<u8>) -> nat
    decreases bytes.len(),
{
    if bytes.len() == 0 {
        0
    } else {
        bytes[0] as nat + 256 * le_value(bytes.drop_first())
    }
}

/// The `len` lowest base-256 digits of `x`, least significant first.
pub open spec fn le_bytes(x: nat, len: nat) -> Seq<u8>
    decreases len,
{
    if len == 0 {
        Seq::empty()
    } else {
        seq![(x % 256) as u8] + le_bytes(x / 256, (len - 1) as nat)
    }
}

/// 256 to the power `n`.
pub open spec fn pow256(n: nat) -> nat
    decreases n,
{
    if n == 0 {
        1
    } else {
        256 * pow256((n - 1) as nat)
    }
}

/// The eight bytes that encode a 64-bit integer in little-endian order.
pub open spec fn u64_le_bytes(x: u64) -> Seq<u8> {
    le_bytes(x as nat, 8)
}

/// A little-endian value of `n` bytes is below 256 to the power `n`.
pub proof fn lemma_le_value_bound(bytes: Seq<u8>)
    ensures
        le_value(bytes) < pow256(bytes.len()),
    decreases bytes.len(),
{
    if bytes.len() > 0 {
        lemma_le_value_bound(bytes.drop_first());
    }
}

/// An encoding has the length that was asked for.
pub proof fn lemma_le_bytes_len(x: nat, len: nat)
    ensures
        le_bytes(x, len).len() == len,
    decreases len,
{
    if len > 0 {
        lemma_le_bytes_len(x / 256, (len - 1) as nat);
    }
}

/// Decoding an encoding of `len` bytes gives the number back, reduced
/// modulo 256 to the power `len`.
pub proof fn lemma_le_value_of_le_bytes(x: nat, len: nat)
    ensures
        le_value(le_bytes(x, len)) == x % pow256(len),
    decreases len,
{
    if len > 0 {
        let rest = le_bytes(x / 256, (len - 1) as nat);
        let all = le_bytes(x, len);
        lemma_le_value_of_le_bytes(x / 256, (len - 1) as nat);
        lemma_le_bytes_len(x / 256, (len - 1) as nat);
        assert(all.drop_first() =~= rest);
        assert(all[0] == (x % 256) as u8);
        let p = pow256((len - 1) as nat);
        lemma_pow256_positive((len - 1) as nat);
        lemma_mod_split(x, p);
    } else {
        assert(le_bytes(x, len).len() == 0);
    }
}

/// 256 to any power is positive.
pub proof fn lemma_pow256_positive(n: nat)
    ensures
        pow256(n) > 0,
    decreases n,
{
    if n > 0 {
        lemma_pow256_positive((n - 1) as nat);
    }
}

/// Splitting off the lowest base-256 digit commutes with reduction:
/// `x % (256 * p)` is the lowest digit plus 256 times `(x / 256) % p`.
proof fn lemma_mod_split(x: nat, p: nat)
    requires
        p > 0,
    ensures
        x % (256 * p) == x % 256 + 256 * ((x / 256) % p),
{
    let q = x / 256;
    let r = x % 256;
    assert(x == 256 * q + r) by (nonlinear_arith)
        requires
            q == x / 256,
            r == x % 256,
    ;
    let qq = q / p;
    let qr = q % p;
    assert(q == p * qq + qr) by (nonlinear_arith)
        requires
            qq == q / p,
            qr == q % p,
            p > 0,
    ;
    assert(0 <= qr < p) by (nonlinear_arith)
        requires
            qr == q % p,
            p > 0,
    ;
    let low = r + 256 * qr;
    assert(0 <= low < 256 * p) by (nonlinear_arith)
        requires
            low == r + 256 * qr,
            0 <= r < 256,
            0 <= qr < p,
    ;
    assert(x == (256 * p) * qq + low) by (nonlinear_arith)
        requires
            x == 256 * q + r,
            q == p * qq + qr,
            low == r + 256 * qr,
    ;
    vstd::arithmetic::div_mod::lemma_fundamental_div_mod_converse(
        x as int,
        (256 * p) as int,
        qq as int,
        low as int,
    );
}

/// Every 64-bit integer is recovered from its eight-byte encoding, so two
/// different integers never share an encoding.
pub proof fn lemma_u64_le_roundtrip(x: u64)
    ensures
        u64_le_bytes(x).len() == 8,
        le_value(u64_le_bytes(x)) == x,
{
    lemma_le_bytes_len(x as nat, 8);
    lemma_le_value_of_le_bytes(x as nat, 8);
    assert(pow256(8) == 0x1_0000_0000_0000_0000) by {
        reveal_with_fuel(pow256, 9);
    }
}

} // verus!
