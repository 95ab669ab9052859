//! Audio levels and samples as IEEE 754 single-precision numbers, held by their bits.
//!
//! The sums and roots that make a level are floating-point work and are done elsewhere; what is
//! decided here is how levels compare.

use vstd::arithmetic::power2::{lemma2_to64, lemma_pow2_strictly_increases, lemma_pow2_unfold, pow2};
use vstd::prelude::*;

verus! {

/// The bits of `0.0`.
pub const ZERO: u32 = 0;

/// The bits of `1.0`, the highest level.
pub const FULL: u32 = 0x3f80_0000;

/// The bits of `0.001`: a recording below this level is taken for silence.
pub const SILENCE_THRESHOLD: u32 = 0x3a83_126f;

/// The number of bit patterns without a sign.
pub const SIGN: u32 = 0x8000_0000;

/// The bits of infinity. Above it, but for the sign, lies what is not a number.
pub const INFINITY: u32 = 0x7f80_0000;

/// Whether the bits stand for no number.
pub open spec fn not_a_number(bits: u32) -> bool {
    bits % SIGN > INFINITY
}

/// What bits without a sign stand for, counted in units of 2^-149: a fraction of 23 bits, with a
/// leading one and scaled by the exponent in the bits above it where that is not zero. Infinity
/// comes out above every other number.
pub open spec fn magnitude(bits: int) -> int {
    let exponent = bits / 0x80_0000;
    let fraction = bits % 0x80_0000;
    if exponent == 0 {
        fraction
    } else {
        (0x80_0000 + fraction) * pow2((exponent - 1) as nat)
    }
}

/// The number that the bits stand for, counted in units of 2^-149.
pub open spec fn value(bits: u32) -> int {
    if bits < SIGN {
        magnitude(bits as int)
    } else {
        -magnitude(bits - SIGN)
    }
}

proof fn lemma_magnitude_is_not_negative(bits: int)
    requires
        0 <= bits,
    ensures
        magnitude(bits) >= 0,
{
    let exponent = bits / 0x80_0000;
    let fraction = bits % 0x80_0000;
    assert((0x80_0000 + fraction) * pow2((exponent - 1) as nat) >= 0) by (nonlinear_arith)
        requires
            fraction >= 0,
    ;
}

/// The bits of numbers without a sign are ordered as the numbers are.
pub proof fn bits_order_as_values(a: int, b: int)
    requires
        0 <= a < b,
    ensures
        magnitude(a) < magnitude(b),
{
    let (e, f) = (a / 0x80_0000, a % 0x80_0000);
    let (g, h) = (b / 0x80_0000, b % 0x80_0000);
    lemma2_to64();
    if e == g {
        assert(f < h);
        if e > 0 {
            let scale = pow2((e - 1) as nat);
            vstd::arithmetic::power2::lemma_pow2_pos((e - 1) as nat);
            assert((0x80_0000 + f) * scale < (0x80_0000 + h) * scale) by (nonlinear_arith)
                requires
                    f < h,
                    scale > 0,
            ;
        }
    } else {
        assert(e < g);
        let scale = pow2((g - 1) as nat);
        vstd::arithmetic::power2::lemma_pow2_pos((g - 1) as nat);
        assert((0x80_0000 + h) * scale >= 0x80_0000 * scale) by (nonlinear_arith)
            requires
                h >= 0,
                scale > 0,
        ;
        if e == 0 {
            assert(0x80_0000 * scale >= 0x80_0000) by (nonlinear_arith)
                requires
                    scale > 0,
            ;
        } else {
            let low = pow2((e - 1) as nat);
            vstd::arithmetic::power2::lemma_pow2_pos((e - 1) as nat);
            lemma_pow2_unfold(e as nat);
            assert(pow2(e as nat) == 2 * low);
            if e < g - 1 {
                lemma_pow2_strictly_increases(e as nat, (g - 1) as nat);
            }
            assert((0x80_0000 + f) * low < 0x80_0000 * scale) by (nonlinear_arith)
                requires
                    f < 0x80_0000,
                    low > 0,
                    2 * low <= scale,
            ;
        }
    }
}

/// The lower of a level and `1.0`, and `1.0` where the level is not a number.
pub open spec fn capped(level: u32) -> u32 {
    if not_a_number(level) || value(level) > value(FULL) {
        FULL
    } else {
        level
    }
}

/// Whether a level is at least `0.001`.
pub open spec fn audible(level: u32) -> bool {
    !not_a_number(level) && value(level) >= value(SILENCE_THRESHOLD)
}

/// Whether the bits can stand for a root: they are those of a number that is not negative, or of
/// no number.
pub open spec fn root_like(bits: u32) -> bool {
    not_a_number(bits) || value(bits) >= 0
}

/// Whether a level lies between `0.0` and `1.0`.
pub open spec fn in_range(level: u32) -> bool {
    !not_a_number(level) && 0 <= value(level) <= value(FULL)
}

/// A capped level is a number, and no more than `1.0`.
pub proof fn capped_levels_are_at_most_full(level: u32)
    ensures
        !not_a_number(capped(level)),
        value(capped(level)) <= value(FULL),
{
}

/// The capped level of a root lies between `0.0` and `1.0`, and so does silence.
pub proof fn capped_roots_are_in_range(root: u32)
    requires
        root_like(root),
    ensures
        in_range(capped(root)),
        in_range(ZERO),
{
    lemma_magnitude_is_not_negative(FULL as int);
}

proof fn lemma_comparison(bits: u32, limit: u32)
    requires
        0 < limit < SIGN,
    ensures
        value(bits) > value(limit) <==> limit < bits < SIGN,
        value(bits) >= value(limit) <==> limit <= bits < SIGN,
{
    bits_order_as_values(0, limit as int);
    if bits >= SIGN {
        lemma_magnitude_is_not_negative(bits - SIGN);
    } else if bits < limit {
        bits_order_as_values(bits as int, limit as int);
    } else if bits > limit {
        bits_order_as_values(limit as int, bits as int);
    }
}

/// The lower of a level and `1.0`, and `1.0` where the level is not a number.
pub fn cap_level(level: u32) -> (r: u32)
    ensures
        r == capped(level),
{
    proof {
        lemma_comparison(level, FULL);
    }
    if level % SIGN > INFINITY || (level > FULL && level < SIGN) {
        FULL
    } else {
        level
    }
}

/// Whether a level is at least `0.001`.
pub fn is_audible(level: u32) -> (r: bool)
    ensures
        r == audible(level),
{
    proof {
        lemma_comparison(level, SILENCE_THRESHOLD);
    }
    level % SIGN <= INFINITY && level >= SILENCE_THRESHOLD && level < SIGN
}

/// A level is capped exactly where it is a number above `1.0` or no number, and stays as it is
/// otherwise; it is audible exactly from `0.001` up to infinity. This is by the bits: those of
/// positive numbers lie below those of negative ones, and in each half the numbers come in order
/// and then what is no number.
pub proof fn levels_are_judged_by_their_bits(level: u32)
    ensures
        level <= 0x3f80_0000 ==> capped(level) == level,
        0x3f80_0000 < level < 0x8000_0000 ==> capped(level) == 0x3f80_0000,
        0x8000_0000 <= level <= 0xff80_0000 ==> capped(level) == level,
        level > 0xff80_0000 ==> capped(level) == 0x3f80_0000,
        audible(level) <==> 0x3a83_126f <= level <= 0x7f80_0000,
{
    lemma_comparison(level, FULL);
    lemma_comparison(level, SILENCE_THRESHOLD);
}

/// What is no number has all bits of the exponent and some bit of the fraction.
pub proof fn no_numbers_have_a_full_exponent_and_a_fraction(bits: u32)
    ensures
        not_a_number(bits) <==> bits / 0x80_0000 % 256 == 255 && bits % 0x80_0000 > 0,
{
}

/// A number is its fraction, with a leading one where the exponent is not zero, and doubles with
/// each step of the exponent above one. A number with a sign is the same number below zero.
pub proof fn values_double_with_their_exponent(bits: u32)
    requires
        bits < SIGN,
    ensures
        bits < 0x100_0000 ==> value(bits) == bits,
        0x100_0000 <= bits ==> value(bits) == 2 * value((bits - 0x80_0000) as u32),
        value((bits + SIGN) as u32) == -value(bits),
{
    let exponent = bits as int / 0x80_0000;
    let fraction = bits as int % 0x80_0000;
    lemma2_to64();
    if bits >= 0x100_0000 {
        lemma_pow2_unfold((exponent - 1) as nat);
        assert((bits - 0x80_0000) / 0x80_0000 == exponent - 1);
        assert((bits - 0x80_0000) % 0x80_0000 == fraction);
        let half = pow2((exponent - 2) as nat);
        assert((0x80_0000 + fraction) * (2 * half) == 2 * ((0x80_0000 + fraction) * half))
            by (nonlinear_arith);
    } else if bits >= 0x80_0000 {
        assert(exponent == 1);
        assert(pow2(0) == 1);
        assert((0x80_0000 + fraction) * 1 == 0x80_0000 + fraction);
    }
}

} // verus!
