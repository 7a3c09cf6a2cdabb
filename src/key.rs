use vstd::prelude::*;

verus! {

/// The sign bit of a binary64 bit pattern.
pub const SIGN_BIT: u64 = 0x8000_0000_0000_0000;

/// The exponent field of a binary64 bit pattern.
pub const EXPONENT_MASK: u64 = 0x7ff0_0000_0000_0000;

/// The fraction field of a binary64 bit pattern.
pub const FRACTION_MASK: u64 = 0x000f_ffff_ffff_ffff;

/// The key of a bit pattern: negative values have every bit flipped, so that
/// a larger magnitude gives a smaller key; non-negative values get the sign
/// bit set, so that they follow every negative value.
pub open spec fn key_of(bits: u64) -> u64 {
    if bits & SIGN_BIT != 0 {
        !bits
    } else {
        bits | SIGN_BIT
    }
}

/// The bit pattern that a key stands for; the inverse of `key_of`.
pub open spec fn bits_of(key: u64) -> u64 {
    if key & SIGN_BIT != 0 {
        key & !SIGN_BIT
    } else {
        !key
    }
}

/// A bit pattern that encodes a NaN: all exponent bits set, fraction non-zero.
pub open spec fn nan_bits(bits: u64) -> bool {
    bits & EXPONENT_MASK == EXPONENT_MASK && bits & FRACTION_MASK != 0
}

/// Maps a binary64 bit pattern to its order key. Comparing keys as unsigned
/// integers orders the values as IEEE-754 `totalOrder` does: `-0.0` just
/// below `+0.0`, infinities at the ends.
pub fn order_key(bits: u64) -> (r: u64)
    ensures
        r == key_of(bits),
        bits_of(r) == bits,
{
    proof {
        assert(bits & SIGN_BIT != 0 ==> (!bits) & SIGN_BIT == 0 && !(!bits) == bits)
            by (bit_vector);
        assert(bits & SIGN_BIT == 0 ==> (bits | SIGN_BIT) & SIGN_BIT != 0 && (bits | SIGN_BIT)
            & !SIGN_BIT == bits) by (bit_vector);
    }
    if bits & SIGN_BIT != 0 {
        !bits
    } else {
        bits | SIGN_BIT
    }
}

/// Maps an order key back to the binary64 bit pattern it stands for.
pub fn key_bits(key: u64) -> (r: u64)
    ensures
        r == bits_of(key),
        key_of(r) == key,
{
    proof {
        assert(key & SIGN_BIT != 0 ==> (key & !SIGN_BIT) & SIGN_BIT == 0 && ((key & !SIGN_BIT)
            | SIGN_BIT) == key) by (bit_vector);
        assert(key & SIGN_BIT == 0 ==> (!key) & SIGN_BIT != 0 && !(!key) == key) by (bit_vector);
    }
    if key & SIGN_BIT != 0 {
        key & !SIGN_BIT
    } else {
        !key
    }
}

/// Tells whether a binary64 bit pattern encodes a NaN.
pub fn is_nan_bits(bits: u64) -> (r: bool)
    ensures
        r == nan_bits(bits),
{
    bits & EXPONENT_MASK == EXPONENT_MASK && bits & FRACTION_MASK != 0
}

/// Keys and bit patterns are in one-to-one correspondence.
pub proof fn lemma_key_round_trip(bits: u64, key: u64)
    ensures
        bits_of(key_of(bits)) == bits,
        key_of(bits_of(key)) == key,
        key_of(bits) == key <==> bits_of(key) == bits,
{
    assert(bits & SIGN_BIT != 0 ==> (!bits) & SIGN_BIT == 0 && !(!bits) == bits) by (bit_vector);
    assert(bits & SIGN_BIT == 0 ==> (bits | SIGN_BIT) & SIGN_BIT != 0 && (bits | SIGN_BIT)
        & !SIGN_BIT == bits) by (bit_vector);
    assert(key & SIGN_BIT != 0 ==> (key & !SIGN_BIT) & SIGN_BIT == 0 && ((key & !SIGN_BIT)
        | SIGN_BIT) == key) by (bit_vector);
    assert(key & SIGN_BIT == 0 ==> (!key) & SIGN_BIT != 0 && !(!key) == key) by (bit_vector);
}

} // verus!
