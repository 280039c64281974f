//! From linear colours to bytes: the frame as its presenter wants it.

use vstd::prelude::*;
use vstd::arithmetic::div_mod::{lemma_basic_div, lemma_div_multiples_vanish_quotient};
use vstd::arithmetic::power2::{lemma2_to64, lemma2_to64_rest, lemma_pow2_adds, lemma_pow2_pos, lemma_pow2_strictly_increases, pow2};
use vstd::bits::lemma_u64_shl_is_mul;
use crate::scalar::{Scalar, HIDDEN_BIT, ONE_BITS};
use crate::vec3::Vec3;

verus! {

/// One colour channel as a byte: the channel held within `[0, 1]`, times 255,
/// rounded to the nearest whole number, a half going up. The product is taken
/// exactly, not in binary32. A NaN counts as 1.
pub open spec fn channel_byte(channel: Scalar) -> int {
    if channel.nan() || !channel.below(Scalar { bits: ONE_BITS }) {
        255
    } else if !(Scalar { bits: 0 }).below(channel) {
        0
    } else {
        // With `value` in units of 2 to the -149: the floor of value * 255 / 2^149 + 1/2.
        (channel.value() * 510 + pow2(149)) / (pow2(150) as int)
    }
}

/// The bytes of a frame: for each pixel in its order the red, green and blue
/// channel as bytes.
pub open spec fn frame_of(pixels: Seq<Vec3>) -> Seq<u8> {
    Seq::new(
        3 * pixels.len(),
        |i: int|
            {
                let p = pixels[i / 3];
                let c = if i % 3 == 0 {
                    p.x
                } else if i % 3 == 1 {
                    p.y
                } else {
                    p.z
                };
                channel_byte(c) as u8
            },
    )
}

/// The byte of a channel is a byte.
pub proof fn lemma_channel_byte_range(channel: Scalar)
    ensures
        0 <= channel_byte(channel) <= 255,
{
    let one = Scalar { bits: ONE_BITS };
    let zero = Scalar { bits: 0 };
    if !channel.nan() && channel.below(one) && zero.below(channel) {
        lemma_scaled(channel);
    }
}

/// For a channel strictly between zero and one, with significand `m` and
/// `s` places to shift: the byte is `(m * 510 + 2^(s-1)) / 2^s`.
proof fn lemma_scaled(channel: Scalar)
    requires
        !channel.nan(),
        channel.below(Scalar { bits: ONE_BITS }),
        (Scalar { bits: 0 }).below(channel),
    ensures
        ({
            let (m, s) = significand_and_shift(channel);
            &&& 0 < m < 0x100_0000
            &&& 25 <= s <= 150
            &&& channel_byte(channel) == (m * 510 + pow2((s - 1) as nat)) / (pow2(s as nat) as int)
            &&& 0 <= channel_byte(channel) <= 255
        }),
{
    let (m, s) = significand_and_shift(channel);
    let bits = channel.bits as int;
    let h = HIDDEN_BIT as int;
    let exponent = bits / h;
    let fraction = bits % h;
    vstd::arithmetic::div_mod::lemma_fundamental_div_mod(bits, h);
    assert(0 <= exponent <= 126) by (nonlinear_arith)
        requires
            0 < bits < 0x3f80_0000,
            h == 0x80_0000,
            bits == h * exponent + fraction,
            0 <= fraction < h,
    ;
    let e: nat = (150 - s) as nat;
    let scale = pow2(e) as int;
    let half = pow2((s - 1) as nat) as int;
    let whole = pow2(s as nat) as int;
    lemma_pow2_pos(e);
    lemma_pow2_pos((s - 1) as nat);
    lemma_pow2_adds((s - 1) as nat, e);
    lemma_pow2_adds(s as nat, e);
    lemma_pow2_adds((s - 1) as nat, 1);
    lemma2_to64();
    assert(pow2(0) == 1);
    assert(channel.magnitude() == bits);
    assert(channel.value() == m * scale) by {
        if exponent == 0 {
            assert(e == 0 && m == fraction);
            assert(m * 1 == m);
        } else {
            assert(e == (exponent - 1) as nat);
            assert(m == HIDDEN_BIT + fraction);
        }
    }
    assert(pow2(149) == half * scale);
    assert(pow2(150) == whole * scale);
    assert(whole == 2 * half);
    let top = m * 510 + half;
    assert(channel.value() * 510 + pow2(149) == scale * top) by (nonlinear_arith)
        requires
            channel.value() == m * scale,
            pow2(149) == half * scale,
            top == m * 510 + half,
    ;
    assert(whole * scale == scale * whole) by (nonlinear_arith);
    lemma_div_multiples_vanish_quotient(scale, top, whole);
    // The byte does not pass 255: the significand is below 2^24 and the shift is at least 25.
    lemma_pow2_adds(25, (s - 25) as nat);
    lemma_pow2_pos((s - 25) as nat);
    assert(0 <= top / whole <= 255) by (nonlinear_arith)
        requires
            0 < m < 0x100_0000,
            top == m * 510 + half,
            whole == 2 * half,
            whole >= 0x200_0000,
    ;
}

/// The significand of a channel strictly between zero and one, and the number
/// of binary places by which 510 times the significand is to be shifted down.
spec fn significand_and_shift(channel: Scalar) -> (int, int) {
    let exponent = channel.bits as int / (HIDDEN_BIT as int);
    let fraction = channel.bits as int % (HIDDEN_BIT as int);
    if exponent == 0 {
        (fraction, 150)
    } else {
        (HIDDEN_BIT + fraction, 151 - exponent)
    }
}

/// One colour channel as a byte: see `channel_byte`.
pub fn to_color(channel: Scalar) -> (byte: u8)
    ensures
        byte == channel_byte(channel),
{
    if channel.is_nan() || !channel.lt(Scalar::one()) {
        return 255;
    }
    if !Scalar::zero().lt(channel) {
        return 0;
    }
    let exponent: u32 = channel.bits / HIDDEN_BIT;
    let fraction: u32 = channel.bits % HIDDEN_BIT;
    proof {
        lemma_scaled(channel);
    }
    let m: u64 = if exponent == 0 {
        fraction as u64
    } else {
        (HIDDEN_BIT + fraction) as u64
    };
    let s: u64 = if exponent == 0 {
        150
    } else {
        (151 - exponent) as u64
    };
    if s >= 35 {
        proof {
            // Too small to reach one half of a byte's step.
            lemma2_to64_rest();
            if s > 35 {
                lemma_pow2_strictly_increases(34, (s - 1) as nat);
            }
            lemma_pow2_adds((s - 1) as nat, 1);
            lemma2_to64();
            lemma_basic_div(m * 510 + pow2((s - 1) as nat), pow2(s as nat) as int);
        }
        return 0;
    }
    proof {
        lemma2_to64();
        lemma2_to64_rest();
        lemma_pow2_strictly_increases(s as nat, 35);
        lemma_pow2_strictly_increases((s - 1) as nat, 35);
        lemma_u64_shl_is_mul(1, s);
        lemma_u64_shl_is_mul(1, (s - 1) as u64);
    }
    let whole: u64 = 1u64 << s;
    let half: u64 = 1u64 << (s - 1);
    ((m * 510 + half) / whole) as u8
}

/// The frame as bytes, three to a pixel: see `frame_of`.
pub fn frame_bytes(pixels: &[Vec3]) -> (bytes: Vec<u8>)
    ensures
        bytes@ == frame_of(pixels@),
{
    let mut bytes: Vec<u8> = Vec::new();
    let mut i: usize = 0;
    while i < pixels.len()
        invariant
            0 <= i <= pixels@.len(),
            bytes@ == frame_of(pixels@.take(i as int)),
        decreases pixels@.len() - i,
    {
        let p = pixels[i];
        bytes.push(to_color(p.x));
        bytes.push(to_color(p.y));
        bytes.push(to_color(p.z));
        proof {
            lemma_channel_byte_range(p.x);
            lemma_channel_byte_range(p.y);
            lemma_channel_byte_range(p.z);
            assert(bytes@ =~= frame_of(pixels@.take(i + 1)));
        }
        i = i + 1;
    }
    assert(pixels@.take(i as int) =~= pixels@);
    bytes
}

} // verus!
