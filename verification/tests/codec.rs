use ccs811::codec::{encode_fixed, env_data_payload};

/// The integer part and raw fraction of a floating value, as the chip's
/// fixed-point format counts them: the fraction in 1/512ths, less one.
fn fixed_parts(value: f32) -> (u8, u16) {
    let base = value.floor();
    ((base as u8), ((value - base) * 512.0 - 1.0) as u16)
}

#[test]
fn encode_humidity_48_5() {
    let (base, frac) = fixed_parts(48.5);
    assert_eq!(base, 48);
    assert_eq!(frac, 255);
    assert_eq!(encode_fixed(base, frac), (0x60, 0xFF));
}

#[test]
fn encode_temperature_23_3() {
    let (base, frac) = fixed_parts(23.3);
    assert_eq!(encode_fixed(base, frac), (0x2E, 0x98));
}

#[test]
fn encode_fraction_clamps_at_511() {
    // Any raw fraction beyond the nine-bit range saturates at 511.
    let r = encode_fixed(10, 65535);
    assert_eq!(r, ((10 << 1) | 1, 0xFF));
    let r = encode_fixed(10, 512);
    assert_eq!(r, ((10 << 1) | 1, 0xFF));
}

#[test]
fn encode_fraction_511_exact() {
    let r = encode_fixed(0, 511);
    assert_eq!(r, (0x01, 0xFF));
}

#[test]
fn encode_fraction_bit_eight_lands_in_high_byte() {
    let r = encode_fixed(48, 256);
    assert_eq!(r, (0x61, 0x00));
}

#[test]
fn encode_base_keeps_seven_bits() {
    // An integer part beyond seven bits is truncated, not rejected.
    let r = encode_fixed(0x80 | 5, 0);
    assert_eq!(r, (5 << 1, 0x00));
}

#[test]
fn encoded_bytes_recover_base_and_fraction() {
    // The documented bit layout recovers both parts from the byte pair.
    let (base, fraction) = (101u8, 313u16);
    let (hi, lo) = encode_fixed(base, fraction);
    assert_eq!(hi >> 1, base);
    assert_eq!(((hi as u16 & 1) << 8) | lo as u16, fraction);
}

#[test]
fn env_payload_concatenates_both_pairs() {
    let (hb, hf) = fixed_parts(48.5);
    let (tb, tf) = fixed_parts(23.3);
    let payload = env_data_payload(hb, hf, tb, tf);
    assert_eq!(payload, vec![0x60, 0xFF, 0x2E, 0x98]);
}
