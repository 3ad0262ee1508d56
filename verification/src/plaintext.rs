//! Decoding of the plaintext that an attested decryption claims for a bid.

use vstd::prelude::*;

verus! {

/// The number that `bytes` spell in little-endian order: the first byte
/// counts least.
pub open spec fn le_value(bytes: Seq<u8>) -> nat
    decreases bytes.len(),
{
    if bytes.len() == 0 {
        0
    } else {
        bytes[0] as nat + 256 * le_value(bytes.drop_first())
    }
}

/// One more than the greatest number that `width` bytes can spell.
pub open spec fn le_limit(width: nat) -> nat
    decreases width,
{
    if width == 0 {
        1
    } else {
        256 * le_limit((width - 1) as nat)
    }
}

/// The number that a plaintext spells: that of its first sixteen bytes if
/// it has as many, else that of its first eight bytes.
pub open spec fn spelt_number(plaintext: Seq<u8>) -> nat {
    if plaintext.len() >= 16 {
        le_value(plaintext.subrange(0, 16))
    } else {
        le_value(plaintext.subrange(0, 8))
    }
}

/// The amount that a plaintext claims.
///
/// With sixteen bytes or more, the first sixteen are read as one
/// little-endian number; that number is the amount if it fits in 64 bits,
/// and there is no amount if it does not. With eight bytes or more, the
/// first eight are the amount in little-endian order. With fewer there is
/// no amount.
pub open spec fn decoded_amount(plaintext: Seq<u8>) -> Option<u64> {
    if plaintext.len() >= 16 {
        if le_value(plaintext.subrange(0, 16)) <= u64::MAX {
            Some(le_value(plaintext.subrange(0, 16)) as u64)
        } else {
            None
        }
    } else if plaintext.len() >= 8 {
        Some(le_value(plaintext.subrange(0, 8)) as u64)
    } else {
        None
    }
}

/// `width` bytes spell a number below `le_limit(width)`.
pub proof fn lemma_le_value_below_limit(bytes: Seq<u8>)
    ensures
        le_value(bytes) < le_limit(bytes.len()),
    decreases bytes.len(),
{
    if bytes.len() > 0 {
        lemma_le_value_below_limit(bytes.drop_first());
    }
}

/// Eight bytes reach up to 2^64, sixteen up to 2^128.
pub proof fn lemma_le_limits()
    ensures
        le_limit(8) == 0x1_0000_0000_0000_0000,
        le_limit(16) == 0x1_0000_0000_0000_0000_0000_0000_0000_0000,
{
    reveal_with_fuel(le_limit, 17);
}

/// Reads the first `width` bytes of `bytes` as a little-endian number.
fn read_le(bytes: &[u8], width: usize) -> (value: u128)
    requires
        width <= 16,
        width <= bytes@.len(),
    ensures
        value == le_value(bytes@.subrange(0, width as int)),
{
    let mut value: u128 = 0;
    let mut i: usize = width;
    proof {
        lemma_le_limits();
    }
    while i > 0
        invariant
            i <= width <= 16,
            width <= bytes@.len(),
            value == le_value(bytes@.subrange(i as int, width as int)),
            le_limit(16) == 0x1_0000_0000_0000_0000_0000_0000_0000_0000,
        decreases i,
    {
        proof {
            let tail = bytes@.subrange(i as int, width as int);
            let longer = bytes@.subrange(i - 1, width as int);
            assert(longer.drop_first() =~= tail);
            assert(longer[0] == bytes@[i - 1]);
            lemma_le_value_below_limit(longer);
            lemma_le_limit_grows(longer.len(), 16);
        }
        i -= 1;
        value = value * 256 + bytes[i] as u128;
    }
    value
}

/// A wider field reaches at least as far.
proof fn lemma_le_limit_grows(narrow: nat, wide: nat)
    requires
        narrow <= wide,
    ensures
        le_limit(narrow) <= le_limit(wide),
    decreases wide,
{
    if narrow < wide {
        lemma_le_limit_grows(narrow, (wide - 1) as nat);
    }
}

/// Decodes the amount that a plaintext claims, if it claims one: none if
/// it is shorter than eight bytes, and none if its first sixteen bytes
/// spell a number that does not fit in 64 bits.
pub fn decode_amount(plaintext: &[u8]) -> (amount: Option<u64>)
    ensures
        amount == decoded_amount(plaintext@),
{
    if plaintext.len() >= 16 {
        let wide = read_le(plaintext, 16);
        if wide > u64::MAX as u128 {
            None
        } else {
            Some(wide as u64)
        }
    } else if plaintext.len() >= 8 {
        let narrow = read_le(plaintext, 8);
        proof {
            lemma_le_value_below_limit(plaintext@.subrange(0, 8));
            lemma_le_limits();
        }
        Some(narrow as u64)
    } else {
        None
    }
}

} // verus!
