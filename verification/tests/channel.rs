//! The byte of a channel, held against single-precision arithmetic itself.

use style_ffi::{channel_to_byte, pack_rgba};

/// The byte as single-precision arithmetic gives it: the product, rounded
/// with halves away from zero, cut to 0..=255.
fn reference(bits: u32) -> u8 {
    (f32::from_bits(bits) * 255.0).round() as u8
}

#[test]
fn channel_bytes_of_exact_values() {
    assert_eq!(channel_to_byte(0.0f32.to_bits()), 0);
    assert_eq!(channel_to_byte(1.0f32.to_bits()), 255);
    assert_eq!(channel_to_byte(0.5f32.to_bits()), 128);
    assert_eq!(channel_to_byte(0.25f32.to_bits()), 64);
    assert_eq!(channel_to_byte(0.75f32.to_bits()), 191);
    assert_eq!(channel_to_byte(0.375f32.to_bits()), 96);
    assert_eq!(channel_to_byte((1.0f32 / 255.0).to_bits()), 1);
    assert_eq!(channel_to_byte((254.0f32 / 255.0).to_bits()), 254);
}

#[test]
fn channel_bytes_are_clamped() {
    assert_eq!(channel_to_byte((-3.0f32).to_bits()), 0);
    assert_eq!(channel_to_byte((-0.0f32).to_bits()), 0);
    assert_eq!(channel_to_byte((-0.001f32).to_bits()), 0);
    assert_eq!(channel_to_byte(f32::NEG_INFINITY.to_bits()), 0);
    assert_eq!(channel_to_byte(1.001f32.to_bits()), 255);
    assert_eq!(channel_to_byte(300.0f32.to_bits()), 255);
    assert_eq!(channel_to_byte(f32::MAX.to_bits()), 255);
    assert_eq!(channel_to_byte(f32::INFINITY.to_bits()), 255);
}

#[test]
fn channel_bytes_of_numbers_that_are_none() {
    assert_eq!(channel_to_byte(f32::NAN.to_bits()), 0);
    assert_eq!(channel_to_byte(0x7FC0_0001), 0);
    assert_eq!(channel_to_byte(0x7F80_0001), 0);
    assert_eq!(channel_to_byte(0xFFC0_0000), 0);
    assert_eq!(channel_to_byte(0xFFFF_FFFF), 0);
}

#[test]
fn channel_bytes_of_tiny_values() {
    assert_eq!(channel_to_byte(1), 0);
    assert_eq!(channel_to_byte(0x007F_FFFF), 0);
    assert_eq!(channel_to_byte(f32::MIN_POSITIVE.to_bits()), 0);
    assert_eq!(channel_to_byte(0.001f32.to_bits()), 0);
    assert_eq!(channel_to_byte(0.0019f32.to_bits()), 0);
    assert_eq!(channel_to_byte(0.002f32.to_bits()), 1);
}

#[test]
fn channel_bytes_just_below_one() {
    let below = 1.0f32.to_bits() - 1;
    assert_eq!(channel_to_byte(below), reference(below));
    assert_eq!(channel_to_byte(below), 255);
}

#[test]
fn channel_bytes_agree_with_arithmetic_across_all_patterns() {
    let mut bits: u32 = 0;
    loop {
        assert_eq!(channel_to_byte(bits), reference(bits), "bits {:#010x}", bits);
        match bits.checked_add(7919) {
            Some(next) => bits = next,
            None => break,
        }
    }
}

#[test]
fn channel_bytes_agree_with_arithmetic_around_every_half() {
    for k in 0u32..=255 {
        let middle = ((k as f32 + 0.5) / 255.0).to_bits();
        let from = middle.saturating_sub(3000);
        for bits in from..middle + 3000 {
            assert_eq!(channel_to_byte(bits), reference(bits), "bits {:#010x}", bits);
        }
    }
}

#[test]
fn channel_bytes_agree_with_arithmetic_at_every_exponent() {
    for exponent in 0u32..=255 {
        for fraction in [0u32, 1, 2, 0x40_0000, 0x7F_FFFE, 0x7F_FFFF, 0x000101, 0x010101] {
            for sign in [0u32, 0x8000_0000] {
                let bits = sign | (exponent << 23) | fraction;
                assert_eq!(channel_to_byte(bits), reference(bits), "bits {:#010x}", bits);
            }
        }
    }
}

#[test]
fn channel_bytes_agree_with_arithmetic_between_zero_and_one() {
    let last = 1.0f32.to_bits();
    let mut bits: u32 = 0.001f32.to_bits();
    while bits <= last {
        assert_eq!(channel_to_byte(bits), reference(bits), "bits {:#010x}", bits);
        bits += 61;
    }
}

#[test]
fn channel_bytes_never_fall_as_the_channel_rises() {
    let mut previous = 0u8;
    let mut bits: u32 = 0;
    while bits < f32::INFINITY.to_bits() {
        let byte = channel_to_byte(bits);
        assert!(previous <= byte, "bits {:#010x}", bits);
        previous = byte;
        bits += 4001;
    }
}

#[test]
fn four_bytes_pack_with_red_lowest() {
    assert_eq!(pack_rgba(0x11, 0x22, 0x33, 0x44), 0x4433_2211);
    assert_eq!(pack_rgba(255, 0, 0, 255), 0xFF00_00FF);
    assert_eq!(pack_rgba(0, 0, 0, 0), 0);
    assert_eq!(pack_rgba(255, 255, 255, 255), u32::MAX);
    assert_eq!(pack_rgba(1, 0, 0, 0), 1);
    assert_eq!(pack_rgba(0, 1, 0, 0), 0x100);
    assert_eq!(pack_rgba(0, 0, 1, 0), 0x1_0000);
    assert_eq!(pack_rgba(0, 0, 0, 1), 0x100_0000);
}

#[test]
fn four_bytes_pack_as_a_little_endian_array() {
    for r in [0u8, 1, 127, 128, 255] {
        for g in [0u8, 2, 200, 255] {
            for b in [0u8, 3, 99, 255] {
                for a in [0u8, 4, 128, 255] {
                    assert_eq!(pack_rgba(r, g, b, a), u32::from_le_bytes([r, g, b, a]));
                    assert_eq!(pack_rgba(r, g, b, a).to_le_bytes(), [r, g, b, a]);
                }
            }
        }
    }
}
