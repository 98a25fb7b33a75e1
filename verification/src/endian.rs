//! Big-endian numbers and the two halves of a byte.

use vstd::prelude::*;

verus! {

/// The number that `bytes` spell in base 256, most significant byte first.
pub open spec fn be_value(bytes: Seq<u8>) -> nat
    decreases bytes.len(),
{
    if bytes.len() == 0 {
        0
    } else {
        be_value(bytes.drop_last()) * 256 + bytes.last() as nat
    }
}

/// 256 to the power `n`.
pub open spec fn pow256(n: nat) -> nat
    decreases n,
{
    if n == 0 {
        1
    } else {
        256 * pow256((n - 1) as nat)
    }
}

/// The upper four bits of `byte`, as a number below 16.
pub open spec fn high_nibble(byte: u8) -> u8 {
    (byte / 16) as u8
}

/// The lower four bits of `byte`, as a number below 16.
pub open spec fn low_nibble(byte: u8) -> u8 {
    (byte % 16) as u8
}

/// `n` bytes spell a number below 256 to the power `n`.
pub proof fn lemma_be_value_bound(bytes: Seq<u8>)
    ensures
        be_value(bytes) < pow256(bytes.len()),
    decreases bytes.len(),
{
    if bytes.len() > 0 {
        lemma_be_value_bound(bytes.drop_last());
    }
}

/// The powers of 256 at the widths of the integer types.
pub proof fn lemma_pow256_widths()
    ensures
        pow256(1) == 0x100,
        pow256(2) == 0x1_0000,
        pow256(4) == 0x1_0000_0000,
        pow256(8) == 0x1_0000_0000_0000_0000,
        pow256(16) == 0x1_0000_0000_0000_0000_0000_0000_0000_0000,
{
    reveal_with_fuel(pow256, 17);
}

/// A longer run of bytes never spells a smaller power bound.
pub proof fn lemma_pow256_monotonic(m: nat, n: nat)
    requires
        m <= n,
    ensures
        pow256(m) <= pow256(n),
    decreases n,
{
    if m < n {
        lemma_pow256_monotonic(m, (n - 1) as nat);
    }
}

/// Splits a byte into its upper and lower four bits.
pub(crate) fn nibbles(byte: u8) -> (pair: (u8, u8))
    ensures
        pair.0 == high_nibble(byte),
        pair.1 == low_nibble(byte),
{
    let upper: u8 = byte >> 4;
    let lower: u8 = byte & 0x0f;
    assert(byte >> 4 == byte / 16) by (bit_vector);
    assert(byte & 0x0f == byte % 16) by (bit_vector);
    (upper, lower)
}

/// Reads up to sixteen bytes as one big-endian number.
pub(crate) fn big_endian(bytes: &[u8]) -> (value: u128)
    requires
        bytes@.len() <= 16,
    ensures
        value == be_value(bytes@),
{
    let n: usize = bytes.len();
    let mut value: u128 = 0;
    let mut i: usize = 0;
    while i < n
        invariant
            i <= n,
            n == bytes@.len(),
            n <= 16,
            value == be_value(bytes@.take(i as int)),
        decreases n - i,
    {
        proof {
            let before = bytes@.take(i as int);
            let after = bytes@.take(i + 1);
            assert(after.drop_last() =~= before);
            lemma_be_value_bound(before);
            lemma_pow256_monotonic(i as nat, 15);
            reveal_with_fuel(pow256, 16);
        }
        value = value * 256 + bytes[i] as u128;
        i += 1;
    }
    assert(bytes@.take(n as int) =~= bytes@);
    value
}

} // verus!
