//! From a colour channel to a byte, and from four bytes to a packed colour.
//!
//! A channel is a single-precision number given by its bit pattern. Its byte
//! is the channel times 255, rounded to the nearest whole number and kept
//! within 0 to 255. The product is the single-precision product, so it is
//! itself rounded to 24 significant bits before it is rounded to a whole
//! number.

use vstd::prelude::*;
use vstd::arithmetic::div_mod::*;
use vstd::arithmetic::power2::*;

verus! {

/// Whether the sign bit of a single-precision number is set.
pub open spec fn sign_of(bits: u32) -> bool {
    bits >= 0x8000_0000
}

/// The biased exponent of a single-precision number, 0 to 255.
pub open spec fn exponent_of(bits: u32) -> int {
    (bits as int / 0x80_0000) % 256
}

/// The 23 fraction bits of a single-precision number.
pub open spec fn fraction_of(bits: u32) -> int {
    bits as int % 0x80_0000
}

/// Whether a bit pattern is not a number.
pub open spec fn is_nan(bits: u32) -> bool {
    exponent_of(bits) == 255 && fraction_of(bits) != 0
}

/// The multiple of `unit` nearest to `value`; of two equally near ones, the
/// even multiple.
pub open spec fn nearest_multiple(value: int, unit: int) -> int {
    let below = value / unit;
    let rest = value % unit;
    if 2 * rest > unit || (2 * rest == unit && below % 2 == 1) {
        (below + 1) * unit
    } else {
        below * unit
    }
}

/// The single-precision product of 255 and a number with the given 24-bit
/// significand, in units of that number's last place.
///
/// The exact product has 31 or 32 bits, of which a single-precision number
/// keeps the upper 24.
pub open spec fn scaled_significand(significand: int) -> int {
    let product = 255 * significand;
    if product >= 0x8000_0000 {
        nearest_multiple(product, 256)
    } else {
        nearest_multiple(product, 128)
    }
}

/// The byte of a channel: `round(clamp(c, 0, 1) * 255)`, halves rounded up.
///
/// A negative channel and one that is not a number give 0; a channel of 1 or
/// more gives 255. A channel below the smallest normal number gives 0, since
/// its product is far below one half. Every other channel is
/// `significand * 2^(exponent - 150)`, so with `scaled` its product in units
/// of the last place and `d = 2^(150 - exponent)`, the byte is
/// `floor(scaled / d + 1/2)`.
pub open spec fn channel_byte(bits: u32) -> int {
    if sign_of(bits) || is_nan(bits) {
        0
    } else if exponent_of(bits) >= 127 {
        255
    } else if exponent_of(bits) == 0 {
        0
    } else {
        let scaled = scaled_significand(0x80_0000 + fraction_of(bits));
        let d = pow2((150 - exponent_of(bits)) as nat) as int;
        (2 * scaled + d) / (2 * d)
    }
}

/// Four bytes as one number, red in the lowest byte and alpha in the
/// highest.
pub open spec fn packed_rgba(red: int, green: int, blue: int, alpha: int) -> int {
    red + 0x100 * green + 0x1_0000 * blue + 0x100_0000 * alpha
}

fn round_to_multiple(value: u64, unit: u64) -> (r: u64)
    requires
        unit == 128 || unit == 256,
        value < 0x1_0000_0000,
    ensures
        r == nearest_multiple(value as int, unit as int),
        r <= value + unit,
        value <= r + unit,
{
    let below: u64 = value / unit;
    let rest: u64 = value % unit;
    if 2 * rest > unit || (2 * rest == unit && below % 2 == 1) {
        (below + 1) * unit
    } else {
        below * unit
    }
}

/// The product of 255 and a 24-bit significand lies within 255 times the
/// significand's range once it is rounded.
proof fn lemma_scaled_significand_bounds(significand: int)
    requires
        0x80_0000 <= significand < 0x100_0000,
    ensures
        255 * 0x80_0000 <= scaled_significand(significand) <= 255 * 0x100_0000,
{
}

/// Computes the byte of a channel from its bit pattern.
pub fn channel_to_byte(bits: u32) -> (byte: u8)
    ensures
        byte == channel_byte(bits),
{
    let exponent: u32 = (bits / 0x80_0000) % 256;
    let fraction: u32 = bits % 0x80_0000;
    if bits >= 0x8000_0000 || (exponent == 255 && fraction != 0) {
        return 0;
    }
    if exponent >= 127 {
        return 255;
    }
    if exponent == 0 {
        return 0;
    }
    let significand: u64 = 0x80_0000 + fraction as u64;
    let product: u64 = 255 * significand;
    let scaled: u64 = if product >= 0x8000_0000 {
        round_to_multiple(product, 256)
    } else {
        round_to_multiple(product, 128)
    };
    proof {
        lemma_scaled_significand_bounds(significand as int);
    }
    if exponent < 118 {
        proof {
            let d = pow2((150 - exponent) as nat) as int;
            lemma2_to64_rest();
            if exponent < 117 {
                lemma_pow2_strictly_increases(33, (150 - exponent) as nat);
            }
            assert(d >= 0x2_0000_0000);
            assert((2 * scaled + d) / (2 * d) == 0) by (nonlinear_arith)
                requires
                    0 <= scaled < 0x1_0000_0000,
                    d >= 0x2_0000_0000,
            ;
        }
        return 0;
    }
    let shift: u64 = 150 - exponent as u64;
    let d: u64 = 1u64 << shift;
    proof {
        lemma2_to64();
        if shift < 32 {
            lemma_pow2_strictly_increases(shift as nat, 32);
        }
        if shift > 24 {
            lemma_pow2_strictly_increases(24, shift as nat);
        }
        vstd::bits::lemma_u64_shl_is_mul(1, shift);
        assert((2 * scaled + d) / (2 * d) <= 255) by (nonlinear_arith)
            requires
                0 <= scaled <= 255 * 0x100_0000,
                d >= 0x100_0000,
        ;
    }
    let byte: u64 = (2 * scaled + d) / (2 * d);
    byte as u8
}

/// Packs four bytes into one number, red in the lowest byte.
pub fn pack_rgba(red: u8, green: u8, blue: u8, alpha: u8) -> (packed: u32)
    ensures
        packed == packed_rgba(red as int, green as int, blue as int, alpha as int),
{
    red as u32 + 0x100 * (green as u32) + 0x1_0000 * (blue as u32) + 0x100_0000 * (alpha as u32)
}

/// A packed colour fits in 32 bits and gives each of its four bytes back, so
/// two colours with the same packed form have the same bytes.
pub proof fn lemma_packed_rgba_keeps_each_byte(red: int, green: int, blue: int, alpha: int)
    requires
        0 <= red <= 255,
        0 <= green <= 255,
        0 <= blue <= 255,
        0 <= alpha <= 255,
    ensures
        0 <= packed_rgba(red, green, blue, alpha) <= 0xFFFF_FFFF,
        packed_rgba(red, green, blue, alpha) % 0x100 == red,
        (packed_rgba(red, green, blue, alpha) / 0x100) % 0x100 == green,
        (packed_rgba(red, green, blue, alpha) / 0x1_0000) % 0x100 == blue,
        packed_rgba(red, green, blue, alpha) / 0x100_0000 == alpha,
{
    let packed = packed_rgba(red, green, blue, alpha);
    let above_red = green + 0x100 * blue + 0x1_0000 * alpha;
    let above_green = blue + 0x100 * alpha;
    lemma_fundamental_div_mod_converse(packed, 0x100, above_red, red);
    lemma_fundamental_div_mod_converse(above_red, 0x100, above_green, green);
    lemma_fundamental_div_mod_converse(packed, 0x1_0000, above_green, red + 0x100 * green);
    lemma_fundamental_div_mod_converse(above_green, 0x100, alpha, blue);
    lemma_fundamental_div_mod_converse(
        packed,
        0x100_0000,
        alpha,
        red + 0x100 * green + 0x1_0000 * blue,
    );
}

/// The byte of a channel with the given exponent and significand, where the
/// channel is a normal number below 1.
pub open spec fn scaled_byte(exponent: int, significand: int) -> int {
    let scaled = scaled_significand(significand);
    let d = pow2((150 - exponent) as nat) as int;
    (2 * scaled + d) / (2 * d)
}

/// The rounded product does not fall as the significand rises.
proof fn lemma_scaled_significand_is_monotonic(low: int, high: int)
    requires
        0x80_0000 <= low <= high < 0x100_0000,
    ensures
        scaled_significand(low) <= scaled_significand(high),
{
    let p = 255 * low;
    let q = 255 * high;
    if p >= 0x8000_0000 {
        lemma_nearest_multiple_is_monotonic(p, q, 256);
    } else if q < 0x8000_0000 {
        lemma_nearest_multiple_is_monotonic(p, q, 128);
    } else {
        lemma_nearest_multiple_is_monotonic(p, 0x8000_0000 - 1, 128);
        lemma_nearest_multiple_is_monotonic(0x8000_0000, q, 256);
        assert(nearest_multiple(0x8000_0000 - 1, 128) == 0x8000_0000);
        assert(nearest_multiple(0x8000_0000, 256) == 0x8000_0000);
    }
}

/// The nearest multiple does not fall as the value rises, and it lies within
/// half a unit of the value.
proof fn lemma_nearest_multiple_is_monotonic(low: int, high: int, unit: int)
    requires
        0 <= low <= high,
        unit == 128 || unit == 256,
    ensures
        nearest_multiple(low, unit) <= nearest_multiple(high, unit),
        2 * (nearest_multiple(low, unit) - low) <= unit,
        2 * (low - nearest_multiple(low, unit)) <= unit,
{
    if unit == 128 {
        assert(nearest_multiple(low, 128) <= nearest_multiple(high, 128));
    } else {
        assert(nearest_multiple(low, 256) <= nearest_multiple(high, 256));
    }
}

/// At one exponent the byte does not fall as the significand rises.
proof fn lemma_scaled_byte_rises_with_significand(exponent: int, low: int, high: int)
    requires
        1 <= exponent <= 126,
        0x80_0000 <= low <= high < 0x100_0000,
    ensures
        scaled_byte(exponent, low) <= scaled_byte(exponent, high),
{
    lemma_scaled_significand_is_monotonic(low, high);
    let d = pow2((150 - exponent) as nat) as int;
    lemma_pow2_pos((150 - exponent) as nat);
    lemma_div_is_ordered(
        2 * scaled_significand(low) + d,
        2 * scaled_significand(high) + d,
        2 * d,
    );
}

/// The byte of the largest number at one exponent is no more than that of
/// the smallest at the next.
proof fn lemma_scaled_byte_rises_with_exponent(exponent: int, significand: int)
    requires
        1 <= exponent < 126,
        0x80_0000 <= significand < 0x100_0000,
    ensures
        scaled_byte(exponent, significand) <= scaled_byte(exponent + 1, 0x80_0000),
{
    lemma_scaled_significand_bounds(significand);
    let s = scaled_significand(significand);
    let d = pow2((150 - exponent) as nat) as int;
    let half = pow2((149 - exponent) as nat) as int;
    lemma_pow2_pos((149 - exponent) as nat);
    lemma_pow2_unfold((150 - exponent) as nat);
    assert(d == 2 * half);
    assert(scaled_significand(0x80_0000) == 255 * 0x80_0000);
    assert(pow2((150 - (exponent + 1)) as nat) == half);
    let top = 2 * (255 * 0x100_0000) + d;
    lemma_div_is_ordered(2 * s + d, top, 2 * d);
    assert(top / (2 * d) == (2 * (255 * 0x80_0000) + half) / (2 * half)) by (nonlinear_arith)
        requires
            top == 2 * (255 * 0x100_0000) + d,
            d == 2 * half,
            half > 0,
    ;
}

/// Of two normal numbers below 1, the larger has the larger byte or the
/// same.
proof fn lemma_scaled_byte_is_monotonic(low_exponent: int, low: int, high_exponent: int, high: int)
    requires
        1 <= low_exponent <= high_exponent <= 126,
        0x80_0000 <= low < 0x100_0000,
        0x80_0000 <= high < 0x100_0000,
        low_exponent == high_exponent ==> low <= high,
    ensures
        scaled_byte(low_exponent, low) <= scaled_byte(high_exponent, high),
    decreases high_exponent - low_exponent,
{
    if low_exponent == high_exponent {
        lemma_scaled_byte_rises_with_significand(low_exponent, low, high);
    } else {
        lemma_scaled_byte_rises_with_exponent(low_exponent, low);
        lemma_scaled_byte_is_monotonic(low_exponent + 1, 0x80_0000, high_exponent, high);
    }
}

/// The byte of a channel lies between 0 and 255.
pub proof fn lemma_channel_byte_is_a_byte(bits: u32)
    ensures
        0 <= channel_byte(bits) <= 255,
{
    let exponent = exponent_of(bits);
    if !sign_of(bits) && !is_nan(bits) && 1 <= exponent <= 126 {
        let significand = 0x80_0000 + fraction_of(bits);
        lemma_scaled_significand_bounds(significand);
        let scaled = scaled_significand(significand);
        let d = pow2((150 - exponent) as nat) as int;
        lemma2_to64();
        if exponent < 126 {
            lemma_pow2_strictly_increases(24, (150 - exponent) as nat);
        }
        assert(0 <= (2 * scaled + d) / (2 * d) <= 255) by (nonlinear_arith)
            requires
                0 <= scaled <= 255 * 0x100_0000,
                d >= 0x100_0000,
        ;
    }
}

/// What lies outside 0 to 1 is clamped: a negative channel has the byte 0,
/// a channel of 1 or more the byte 255, and a channel that is no number the
/// byte 0.
pub proof fn lemma_channel_byte_clamps(bits: u32)
    ensures
        bits >= 0x8000_0000 ==> channel_byte(bits) == 0,
        0x3F80_0000 <= bits <= 0x7F80_0000 ==> channel_byte(bits) == 255,
        0x7F80_0000 < bits < 0x8000_0000 ==> channel_byte(bits) == 0,
        bits == 0 ==> channel_byte(bits) == 0,
{
}

/// The byte of a normal channel below 1 is the whole number nearest to 255
/// times the channel, as far as the rounding of the product allows. The
/// channel is `m / d` with `m` its significand and `d = 2^(150 - exponent)`;
/// the exact product is `255 * m / d`; the byte differs from it by at most
/// one half and the `128 / d` by which the product may have been rounded.
pub proof fn lemma_channel_byte_is_nearest(bits: u32)
    requires
        !sign_of(bits),
        1 <= exponent_of(bits) <= 126,
    ensures
        ({
            let m = 0x80_0000 + fraction_of(bits);
            let d = pow2((150 - exponent_of(bits)) as nat) as int;
            let byte = channel_byte(bits);
            &&& 2 * (255 * m - byte * d) <= d + 256
            &&& 2 * (byte * d - 255 * m) <= d + 256
        }),
{
    let m = 0x80_0000 + fraction_of(bits);
    let d = pow2((150 - exponent_of(bits)) as nat) as int;
    let scaled = scaled_significand(m);
    let byte = channel_byte(bits);
    lemma_pow2_pos((150 - exponent_of(bits)) as nat);
    lemma_nearest_multiple_is_monotonic(255 * m, 255 * m, 128);
    lemma_nearest_multiple_is_monotonic(255 * m, 255 * m, 256);
    assert(byte == (2 * scaled + d) / (2 * d));
    lemma_fundamental_div_mod(2 * scaled + d, 2 * d);
    lemma_mod_bound(2 * scaled + d, 2 * d);
    assert(2 * scaled + d == (2 * d) * byte + (2 * scaled + d) % (2 * d));
    assert((2 * d) * byte == 2 * (byte * d)) by (nonlinear_arith);
}

/// The byte does not fall as the channel rises: of two channels that are
/// numbers and not negative, the larger has the larger byte or the same.
/// Such channels are ordered as their bit patterns are.
pub proof fn lemma_channel_byte_is_monotonic(low: u32, high: u32)
    requires
        low <= high <= 0x7F80_0000,
    ensures
        channel_byte(low) <= channel_byte(high),
{
    lemma_channel_byte_is_a_byte(low);
    lemma_channel_byte_is_a_byte(high);
    let low_exponent = exponent_of(low);
    let high_exponent = exponent_of(high);
    assert(low_exponent <= high_exponent);
    if 1 <= low_exponent && high_exponent <= 126 {
        lemma_scaled_byte_is_monotonic(
            low_exponent,
            0x80_0000 + fraction_of(low),
            high_exponent,
            0x80_0000 + fraction_of(high),
        );
    }
}

} // verus!
