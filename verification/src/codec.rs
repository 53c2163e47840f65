//! Fixed-point codec for the chip's environmental-data register.
//!
//! A humidity or temperature value is stored as a 7-bit integer part and a
//! 9-bit fraction counted in 1/512ths. The caller supplies the integer part
//! and the raw (unclamped) fraction; the codec clamps the fraction to the
//! 9-bit range and packs both into the two register bytes.

use vstd::prelude::*;

verus! {

/// The fraction field is nine bits wide, so stored fractions cap at 511.
pub const FRACTION_MAX: u16 = 511;

/// The fraction value actually stored: the raw fraction clamped to 511.
pub open spec fn spec_clamped_fraction(fraction: u16) -> u16 {
    if fraction < 511 {
        fraction
    } else {
        511
    }
}

/// High register byte: seven bits of the integer part shifted up by one,
/// with the clamped fraction's ninth bit in the lowest position.
pub open spec fn spec_fixed_hi(base: u8, fraction: u16) -> u8 {
    ((base & 0x7f) << 1) | (((spec_clamped_fraction(fraction) & 0x100) >> 8) as u8)
}

/// Low register byte: the low eight bits of the clamped fraction.
pub open spec fn spec_fixed_lo(base: u8, fraction: u16) -> u8 {
    (spec_clamped_fraction(fraction) & 0xff) as u8
}

/// The nine-bit fraction recovered from an encoded byte pair.
pub open spec fn spec_encoded_fraction(base: u8, fraction: u16) -> u16 {
    (((spec_fixed_hi(base, fraction) & 1) as u16) << 8) | (spec_fixed_lo(base, fraction) as u16)
}

/// Packs an integer part and a raw fraction into the two bytes of one
/// environmental-data register slot, high byte first.
pub fn encode_fixed(base: u8, fraction: u16) -> (r: (u8, u8))
    ensures
        r.0 == spec_fixed_hi(base, fraction),
        r.1 == spec_fixed_lo(base, fraction),
{
    let f: u16 = if fraction < FRACTION_MAX {
        fraction
    } else {
        FRACTION_MAX
    };
    let hi: u8 = ((base & 0x7f) << 1) | (((f & 0x100) >> 8) as u8);
    let lo: u8 = (f & 0xff) as u8;
    (hi, lo)
}

/// For every input whose integer part fits in seven bits and whose fraction
/// is within the nine-bit range, the documented bit layout recovers the
/// integer part and the fraction exactly from the encoded bytes.
pub proof fn lemma_fixed_point_round_trip(base: u8, fraction: u16)
    requires
        base < 128,
        fraction <= 511,
    ensures
        spec_fixed_hi(base, fraction) >> 1 == base,
        spec_encoded_fraction(base, fraction) == fraction,
{
    assert((((base & 0x7f) << 1) | (((if fraction < 511 {
        fraction
    } else {
        511
    }) & 0x100) >> 8) as u8) >> 1 == base) by (bit_vector)
        requires
            base < 128,
    ;
    assert({
        let f = if fraction < 511 {
            fraction
        } else {
            511
        };
        let hi = ((base & 0x7f) << 1) | (((f & 0x100) >> 8) as u8);
        let lo = (f & 0xff) as u8;
        ((((hi & 1) as u16) << 8) | (lo as u16)) == fraction
    }) by (bit_vector)
        requires
            fraction <= 511,
    ;
}

/// The fraction stored in the encoded bytes is the raw fraction clamped to
/// 511 and never exceeds the nine-bit field, whatever the inputs were.
pub proof fn lemma_fraction_clamped(base: u8, fraction: u16)
    ensures
        spec_encoded_fraction(base, fraction) == spec_clamped_fraction(fraction),
        spec_encoded_fraction(base, fraction) <= 511,
{
    assert({
        let f = if fraction < 511 {
            fraction
        } else {
            511
        };
        let hi = ((base & 0x7f) << 1) | (((f & 0x100) >> 8) as u8);
        let lo = (f & 0xff) as u8;
        ((((hi & 1) as u16) << 8) | (lo as u16)) == f && f <= 511
    }) by (bit_vector);
}

/// The four-byte payload of one environmental-data write: the encoded
/// humidity pair followed by the encoded temperature pair.
pub open spec fn spec_env_payload(h_base: u8, h_frac: u16, t_base: u8, t_frac: u16) -> Seq<u8> {
    seq![
        spec_fixed_hi(h_base, h_frac),
        spec_fixed_lo(h_base, h_frac),
        spec_fixed_hi(t_base, t_frac),
        spec_fixed_lo(t_base, t_frac),
    ]
}

/// Builds the four-byte environmental-data payload from the already
/// fixed-point humidity and temperature inputs.
pub fn env_data_payload(h_base: u8, h_frac: u16, t_base: u8, t_frac: u16) -> (v: Vec<u8>)
    ensures
        v@ == spec_env_payload(h_base, h_frac, t_base, t_frac),
{
    let h = encode_fixed(h_base, h_frac);
    let t = encode_fixed(t_base, t_frac);
    let mut v: Vec<u8> = Vec::new();
    v.push(h.0);
    v.push(h.1);
    v.push(t.0);
    v.push(t.1);
    proof {
        assert(v@ =~= spec_env_payload(h_base, h_frac, t_base, t_frac));
    }
    v
}

} // verus!
