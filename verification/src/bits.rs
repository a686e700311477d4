//! Single bits of a byte.

use vstd::prelude::*;

verus! {

/// The weight of bit `bit` in a byte, two to the power `bit`.
pub open spec fn bit_weight(bit: u8) -> int
    recommends
        bit < 8,
{
    if bit == 0 {
        1
    } else if bit == 1 {
        2
    } else if bit == 2 {
        4
    } else if bit == 3 {
        8
    } else if bit == 4 {
        16
    } else if bit == 5 {
        32
    } else if bit == 6 {
        64
    } else {
        128
    }
}

/// Whether bit `bit` of `byte` is one. Bit 0 is the least significant.
pub open spec fn bit_is_set(byte: u8, bit: u8) -> bool
    recommends
        bit < 8,
{
    (byte as int / bit_weight(bit)) % 2 == 1
}

/// `byte` with bit `bit` inverted and the other seven bits kept.
pub open spec fn with_bit_flipped(byte: u8, bit: u8) -> u8
    recommends
        bit < 8,
{
    byte ^ (1u8 << bit)
}

/// Shifting and masking reads the same bit as dividing by its weight.
pub proof fn lemma_bit_by_shift(byte: u8, bit: u8)
    requires
        bit < 8,
    ensures
        ((byte >> bit) & 1 == 1) == bit_is_set(byte, bit),
{
    let weight: u8 = 1u8 << bit;
    assert(weight == bit_weight(bit)) by {
        assert(bit < 8 ==> (bit == 0 ==> 1u8 << bit == 1) && (bit == 1 ==> 1u8 << bit == 2) && (bit
            == 2 ==> 1u8 << bit == 4) && (bit == 3 ==> 1u8 << bit == 8) && (bit == 4 ==> 1u8 << bit
            == 16) && (bit == 5 ==> 1u8 << bit == 32) && (bit == 6 ==> 1u8 << bit == 64) && (bit
            == 7 ==> 1u8 << bit == 128)) by (bit_vector);
    }
    assert(bit < 8 && weight == 1u8 << bit ==> ((byte >> bit) & 1 == 1) == ((byte / weight) % 2
        == 1)) by (bit_vector);
}

/// Reads one flag bit of a byte.
pub fn flag_is_set(byte: u8, bit: u8) -> (set: bool)
    requires
        bit < 8,
    ensures
        set == bit_is_set(byte, bit),
{
    proof {
        lemma_bit_by_shift(byte, bit);
    }
    (byte >> bit) & 1 == 1
}

/// Flag decoding is independent bit by bit: inverting one bit of a byte
/// inverts the flag read from that bit and changes no flag read from another.
pub proof fn flipping_a_bit_changes_one_flag(byte: u8, flipped: u8, observed: u8)
    requires
        flipped < 8,
        observed < 8,
    ensures
        observed != flipped ==> bit_is_set(with_bit_flipped(byte, flipped), observed)
            == bit_is_set(byte, observed),
        bit_is_set(with_bit_flipped(byte, flipped), flipped) == !bit_is_set(byte, flipped),
{
    let changed: u8 = with_bit_flipped(byte, flipped);
    lemma_bit_by_shift(byte, observed);
    lemma_bit_by_shift(changed, observed);
    lemma_bit_by_shift(byte, flipped);
    lemma_bit_by_shift(changed, flipped);
    assert(flipped < 8 && observed < 8 && observed != flipped && changed == byte ^ (1u8 << flipped)
        ==> (changed >> observed) & 1 == (byte >> observed) & 1) by (bit_vector);
    assert(flipped < 8 && changed == byte ^ (1u8 << flipped) ==> ((changed >> flipped) & 1 == 1)
        == !((byte >> flipped) & 1 == 1)) by (bit_vector);
}

} // verus!
