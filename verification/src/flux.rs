//! Conversion of one raw 16-bit flux sample into one 8-bit value.

use vstd::prelude::*;

verus! {

/// Whether bit `k` of `x` is set.
pub open spec fn sample_bit(x: u16, k: u16) -> bool {
    (x >> k) & 1 == 1
}

/// Whether bit `k` of `y` is set.
pub open spec fn value_bit(y: u8, k: u8) -> bool {
    (y >> k) & 1 == 1
}

/// The decoded value of a sample, bit by bit.
///
/// Output bits 0, 1, 3, 4, 5 and 7 copy input bits 0, 2, 6, 8, 10 and 14.
/// Output bit 2 is set when input bit 4 or input bit 6 is set. Output bit 6
/// is never set.
pub open spec fn spec_mfm_decode_byte(x: u16) -> u8 {
    ((if sample_bit(x, 0) { 0x01int } else { 0 })
        + (if sample_bit(x, 2) { 0x02int } else { 0 })
        + (if sample_bit(x, 4) || sample_bit(x, 6) { 0x04int } else { 0 })
        + (if sample_bit(x, 6) { 0x08int } else { 0 })
        + (if sample_bit(x, 8) { 0x10int } else { 0 })
        + (if sample_bit(x, 10) { 0x20int } else { 0 })
        + (if sample_bit(x, 14) { 0x80int } else { 0 })) as u8
}

/// Decodes one flux sample.
pub fn mfm_decode_byte(i: &u16) -> (out: u8)
    ensures
        out == spec_mfm_decode_byte(*i),
        !value_bit(out, 6),
{
    proof {
        lemma_decoded_bits(*i);
    }
    let x: u16 = *i;
    let bits: u16 = (0x0001 & x)
        | ((0x0004 & x) >> 1)
        | ((0x0010 & x) >> 2)
        | ((0x0040 & x) >> 3)
        | ((0x0100 & x) >> 4)
        | ((0x0400 & x) >> 5)
        | ((0x0040 & x) >> 4)
        | ((0x4000 & x) >> 7);
    assert(bits <= 0xff && bits == spec_mfm_decode_byte(x) as u16) by (bit_vector)
        requires
            bits == (0x0001u16 & x)
                | ((0x0004u16 & x) >> 1)
                | ((0x0010u16 & x) >> 2)
                | ((0x0040u16 & x) >> 3)
                | ((0x0100u16 & x) >> 4)
                | ((0x0400u16 & x) >> 5)
                | ((0x0040u16 & x) >> 4)
                | ((0x4000u16 & x) >> 7),
    ;
    bits as u8
}

/// Every bit of a decoded value, in terms of the bits of the sample: the
/// decoded value is a function of input bits 0, 2, 4, 6, 8, 10 and 14 alone,
/// input bit 6 reaches output bits 2 and 3, and output bit 6 is clear for
/// every sample.
pub proof fn lemma_decoded_bits(x: u16)
    ensures
        value_bit(spec_mfm_decode_byte(x), 0) == sample_bit(x, 0),
        value_bit(spec_mfm_decode_byte(x), 1) == sample_bit(x, 2),
        value_bit(spec_mfm_decode_byte(x), 2) == (sample_bit(x, 4) || sample_bit(x, 6)),
        value_bit(spec_mfm_decode_byte(x), 3) == sample_bit(x, 6),
        value_bit(spec_mfm_decode_byte(x), 4) == sample_bit(x, 8),
        value_bit(spec_mfm_decode_byte(x), 5) == sample_bit(x, 10),
        !value_bit(spec_mfm_decode_byte(x), 6),
        value_bit(spec_mfm_decode_byte(x), 7) == sample_bit(x, 14),
{
    let y = spec_mfm_decode_byte(x);
    assert({
        &&& value_bit(y, 0) == sample_bit(x, 0)
        &&& value_bit(y, 1) == sample_bit(x, 2)
        &&& value_bit(y, 2) == (sample_bit(x, 4) || sample_bit(x, 6))
        &&& value_bit(y, 3) == sample_bit(x, 6)
        &&& value_bit(y, 4) == sample_bit(x, 8)
        &&& value_bit(y, 5) == sample_bit(x, 10)
        &&& !value_bit(y, 6)
        &&& value_bit(y, 7) == sample_bit(x, 14)
    }) by (bit_vector)
        requires
            y == spec_mfm_decode_byte(x),
    ;
}

} // verus!
