//! IEEE 754 binary64 numbers by their bit patterns: which values they stand
//! for, and how they compare with the fixed limits that scoring uses.

use vstd::arithmetic::power2;
use vstd::prelude::*;
use crate::json::JsonNumber;

verus! {

/// A score, carried as the bits of a binary64 number. Nothing here computes
/// with scores; they are chosen, compared with limits and handed on.
#[derive(Debug, Clone, Copy, PartialEq, Eq, Structural)]
pub struct Score {
    pub bits: u64,
}

/// The first bit pattern with the sign bit set.
pub const SIGN: u64 = 0x8000_0000_0000_0000;

/// The bits of positive infinity.
pub const INFINITY: u64 = 0x7ff0_0000_0000_0000;

/// The number of values of the fraction field, 2^52.
pub const FRACTIONS: u64 = 0x10_0000_0000_0000;

/// The exponent field.
pub open spec fn exponent_field(bits: u64) -> nat {
    ((bits as int / FRACTIONS as int) % 2048) as nat
}

/// The fraction field.
pub open spec fn fraction_field(bits: u64) -> nat {
    (bits as int % FRACTIONS as int) as nat
}

/// Whether the sign bit is set.
pub open spec fn is_signed(bits: u64) -> bool {
    bits >= SIGN
}

/// Whether the bits stand for no number at all.
pub open spec fn is_nan(bits: u64) -> bool {
    exponent_field(bits) == 2047 && fraction_field(bits) != 0
}

/// The absolute value that the bits stand for, in units of 2^-1074, the
/// smallest difference between two binary64 numbers. (Infinity counts as the
/// number that would come after the largest.)
pub open spec fn magnitude(bits: u64) -> nat {
    if exponent_field(bits) == 0 {
        fraction_field(bits)
    } else {
        (FRACTIONS as nat + fraction_field(bits)) * power2::pow2((exponent_field(bits) - 1) as nat)
    }
}

/// Whether a JSON number is greater than the positive binary64 number that
/// the bits of `limit` stand for.
pub open spec fn exceeds(number: JsonNumber, limit: u64) -> bool {
    match number {
        JsonNumber::Unsigned(u) => u as nat * power2::pow2(1074) > magnitude(limit),
        JsonNumber::Negative(_) => false,
        JsonNumber::Binary64(bits) => !is_signed(bits) && !is_nan(bits) && magnitude(bits)
            > magnitude(limit),
    }
}

/// Among the numbers without a sign, the larger bit pattern stands for the
/// larger number.
pub proof fn lemma_magnitude_increases(a: u64, b: u64)
    requires
        a < b < SIGN,
    ensures
        magnitude(a) < magnitude(b),
{
    let ea = exponent_field(a);
    let eb = exponent_field(b);
    let fa = fraction_field(a);
    let fb = fraction_field(b);
    let f = FRACTIONS as nat;
    assert(a == ea * f + fa && b == eb * f + fb);
    assert(ea <= eb);
    if ea == eb {
        if ea != 0 {
            let p = power2::pow2((ea - 1) as nat);
            power2::lemma_pow2_pos((ea - 1) as nat);
            assert((f + fa) * p < (f + fb) * p) by (nonlinear_arith)
                requires
                    fa < fb,
                    p > 0,
            ;
        }
    } else {
        let q = power2::pow2((eb - 1) as nat);
        power2::lemma_pow2_pos((eb - 1) as nat);
        assert(f * q <= (f + fb) * q) by (nonlinear_arith);
        if ea == 0 {
            assert(f <= f * q) by (nonlinear_arith)
                requires
                    q > 0,
            ;
        } else {
            let p = power2::pow2((ea - 1) as nat);
            power2::lemma_pow2_pos((ea - 1) as nat);
            power2::lemma_pow2_unfold(ea);
            if ea < eb - 1 {
                power2::lemma_pow2_strictly_increases(ea, (eb - 1) as nat);
            }
            assert(2 * p <= q);
            assert((f + fa) * p < (2 * f) * p) by (nonlinear_arith)
                requires
                    fa < f,
                    p > 0,
            ;
            assert((2 * f) * p <= f * q) by (nonlinear_arith)
                requires
                    2 * p <= q,
            ;
        }
    }
}

/// Whether `whole` is the integer part of the number that the bits of `limit`
/// stand for.
pub open spec fn is_integer_part(whole: u64, limit: u64) -> bool {
    whole as nat * power2::pow2(1074) <= magnitude(limit) < (whole as nat + 1)
        * power2::pow2(1074)
}

/// A number below one has the integer part zero.
proof fn lemma_fraction(limit: u64)
    requires
        exponent_field(limit) <= 1022,
    ensures
        is_integer_part(0, limit),
{
    let e = exponent_field(limit);
    let f = FRACTIONS as nat;
    power2::lemma2_to64_rest();
    power2::lemma_pow2_strictly_increases(53, 1074);
    if e != 0 {
        let d = (e - 1) as nat;
        let p = power2::pow2(d);
        power2::lemma_pow2_pos(d);
        power2::lemma_pow2_adds(53, d);
        if d < 1021 {
            power2::lemma_pow2_strictly_increases(53 + d, 1074);
        }
        assert((f + fraction_field(limit)) * p < (2 * f) * p) by (nonlinear_arith)
            requires
                fraction_field(limit) < f,
                p > 0,
        ;
        assert((2 * f) * p <= power2::pow2(1074));
    }
    let one = power2::pow2(1074);
    assert(magnitude(limit) < one);
    assert(0u64 as nat * one == 0 && (0u64 as nat + 1) * one == one) by (nonlinear_arith);
}

/// A number without a fraction is its own integer part.
proof fn lemma_whole_number(limit: u64, whole: u64, shift: nat)
    requires
        0 < exponent_field(limit),
        exponent_field(limit) + shift == 1075,
        FRACTIONS as nat + fraction_field(limit) == whole as nat
            * power2::pow2(shift),
    ensures
        magnitude(limit) == whole as nat * power2::pow2(1074),
        is_integer_part(whole, limit),
{
    let d = (exponent_field(limit) - 1) as nat;
    let w = whole as nat;
    let p = power2::pow2(shift);
    let q = power2::pow2(d);
    power2::lemma_pow2_adds(shift, d);
    power2::lemma_pow2_pos(1074);
    assert((w * p) * q == w * (p * q)) by (nonlinear_arith);
    let one = power2::pow2(1074);
    assert(w * one < (w + 1) * one) by (nonlinear_arith)
        requires
            one > 0,
    ;
}

/// Compares a JSON number with a limit whose integer part is known.
pub fn number_exceeds(number: JsonNumber, limit: u64, whole: u64) -> (r: bool)
    requires
        limit < INFINITY,
        is_integer_part(whole, limit),
    ensures
        r == exceeds(number, limit),
{
    match number {
        JsonNumber::Unsigned(u) => {
            proof {
                let one = power2::pow2(1074);
                let n = u as nat;
                let w = whole as nat;
                if u > whole {
                    assert(n * one >= (w + 1) * one) by (nonlinear_arith)
                        requires
                            n >= w + 1,
                    ;
                } else {
                    assert(n * one <= w * one) by (nonlinear_arith)
                        requires
                            n <= w,
                    ;
                }
            }
            u > whole
        },
        JsonNumber::Negative(_) => false,
        JsonNumber::Binary64(bits) => {
            proof {
                if bits < SIGN {
                    assert(is_nan(bits) <==> bits > INFINITY);
                    if bits < limit {
                        lemma_magnitude_increases(bits, limit);
                    } else if bits > limit {
                        lemma_magnitude_increases(limit, bits);
                    }
                }
            }
            bits > limit && bits <= INFINITY
        },
    }
}

/// The binary64 number nearest to 0.8.
pub const EIGHT_TENTHS: u64 = 0x3fe9_9999_9999_999a;

/// The binary64 number nearest to 0.6.
pub const SIX_TENTHS: u64 = 0x3fe3_3333_3333_3333;

/// The binary64 number 15000.
pub const FIFTEEN_THOUSAND: u64 = 0x40cd_4c00_0000_0000;

/// The binary64 number 10000.
pub const TEN_THOUSAND: u64 = 0x40c3_8800_0000_0000;

/// The binary64 number 5000.
pub const FIVE_THOUSAND: u64 = 0x40b3_8800_0000_0000;

/// The binary64 number 1.
pub const ONE: u64 = 0x3ff0_0000_0000_0000;

/// The limits of scoring, with their integer parts.
pub proof fn lemma_limits()
    ensures
        is_integer_part(0, EIGHT_TENTHS),
        is_integer_part(0, SIX_TENTHS),
        is_integer_part(15000, FIFTEEN_THOUSAND),
        is_integer_part(10000, TEN_THOUSAND),
        is_integer_part(5000, FIVE_THOUSAND),
{
    lemma_fraction(EIGHT_TENTHS);
    lemma_fraction(SIX_TENTHS);
    power2::lemma2_to64();
    power2::lemma2_to64_rest();
    lemma_whole_number(FIFTEEN_THOUSAND, 15000, 39);
    lemma_whole_number(TEN_THOUSAND, 10000, 39);
    lemma_whole_number(FIVE_THOUSAND, 5000, 40);
}

/// Whether the bits stand for the binary64 number nearest to a number of
/// tenths between one half and one: there the numbers lie 2^-53 apart, so the
/// nearest is at most half of that away.
pub open spec fn is_nearest_to_tenths(bits: u64, tenths: int) -> bool {
    &&& !is_signed(bits)
    &&& exponent_field(bits) == 1022
    &&& -5 <= 10 * (FRACTIONS + fraction_field(bits)) - tenths * 2 * FRACTIONS <= 5
}

/// The constants stand for the numbers that they are named after.
pub proof fn law_constants_are_their_numbers()
    ensures
        is_nearest_to_tenths(EIGHT_TENTHS, 8),
        is_nearest_to_tenths(SIX_TENTHS, 6),
        magnitude(FIFTEEN_THOUSAND) == 15000 * power2::pow2(1074),
        magnitude(TEN_THOUSAND) == 10000 * power2::pow2(1074),
        magnitude(FIVE_THOUSAND) == 5000 * power2::pow2(1074),
        magnitude(ONE) == power2::pow2(1074),
        magnitude(0) == 0,
{
    power2::lemma2_to64();
    power2::lemma2_to64_rest();
    lemma_whole_number(FIFTEEN_THOUSAND, 15000, 39);
    lemma_whole_number(TEN_THOUSAND, 10000, 39);
    lemma_whole_number(FIVE_THOUSAND, 5000, 40);
    lemma_whole_number(ONE, 1, 52);
}

/// Whether half the number has the same digits, one exponent below: so it is
/// for the numbers that are finite and not among the smallest.
pub open spec fn halves_exactly(bits: u64) -> bool {
    2 <= exponent_field(bits) <= 2046
}

/// Half a number that halves exactly.
pub open spec fn half(bits: u64) -> u64 {
    (bits - FRACTIONS) as u64
}

/// Halving keeps the sign and halves the absolute value.
pub proof fn law_half_is_half(bits: u64)
    requires
        halves_exactly(bits),
    ensures
        is_signed(half(bits)) == is_signed(bits),
        magnitude(bits) == 2 * magnitude(half(bits)),
        !is_nan(half(bits)),
{
    let e = exponent_field(bits);
    let m = FRACTIONS as nat + fraction_field(bits);
    let p = power2::pow2((e - 2) as nat);
    assert(exponent_field(half(bits)) == e - 1);
    assert(fraction_field(half(bits)) == fraction_field(bits));
    power2::lemma_pow2_unfold((e - 1) as nat);
    assert(m * (2 * p) == 2 * (m * p)) by (nonlinear_arith);
}

/// Halves a number if it halves exactly.
pub fn exact_half(score: Score) -> (r: Option<Score>)
    ensures
        r == (if halves_exactly(score.bits) {
            Some(Score { bits: half(score.bits) })
        } else {
            None
        }),
{
    let exponent: u64 = (score.bits / FRACTIONS) % 2048;
    if 2 <= exponent && exponent <= 2046 {
        Some(Score { bits: score.bits - FRACTIONS })
    } else {
        None
    }
}

/// Which numbers exceed a limit, by integer parts and by bits.
pub proof fn lemma_exceeds_by_bits(number: JsonNumber, limit: u64, whole: u64)
    requires
        limit < 0x7ff0_0000_0000_0000,
        is_integer_part(whole, limit),
    ensures
        exceeds(number, limit) <==> match number {
            JsonNumber::Unsigned(u) => u > whole,
            JsonNumber::Negative(_) => false,
            JsonNumber::Binary64(bits) => limit < bits <= 0x7ff0_0000_0000_0000,
        },
{
    match number {
        JsonNumber::Unsigned(u) => {
            let one = power2::pow2(1074);
            let n = u as nat;
            let w = whole as nat;
            if u > whole {
                assert(n * one >= (w + 1) * one) by (nonlinear_arith)
                    requires
                        n >= w + 1,
                ;
            } else {
                assert(n * one <= w * one) by (nonlinear_arith)
                    requires
                        n <= w,
                ;
            }
        },
        JsonNumber::Negative(_) => {},
        JsonNumber::Binary64(bits) => {
            if bits < 0x8000_0000_0000_0000 {
                assert(is_nan(bits) <==> bits > 0x7ff0_0000_0000_0000);
                if bits < limit {
                    lemma_magnitude_increases(bits, limit);
                } else if bits > limit {
                    lemma_magnitude_increases(limit, bits);
                }
            }
        },
    }
}

/// A number is compared with a limit as numbers are: an integer exceeds it if it
/// is greater than its integer part, a negative one never does, and of the
/// others those without a sign are in the order of their bits, up to infinity.
pub proof fn law_numbers_are_compared(number: JsonNumber, limit: u64, whole: u64, r: bool)
    requires
        limit < 0x7ff0_0000_0000_0000,
        is_integer_part(whole, limit),
        call_ensures(number_exceeds, (number, limit, whole), r),
    ensures
        number matches JsonNumber::Unsigned(u) ==> (r <==> u > whole),
        number is Negative ==> !r,
        number matches JsonNumber::Binary64(bits) ==> (r <==> limit < bits
            <= 0x7ff0_0000_0000_0000),
{
    lemma_exceeds_by_bits(number, limit, whole);
}

/// Half a number has the bits of the number, one exponent below, and is given
/// exactly where that is half of it.
pub proof fn law_half_is_one_exponent_below(score: Score, r: Option<Score>)
    requires
        call_ensures(exact_half, (score,), r),
    ensures
        r is Some <==> 2 <= (score.bits / 0x10_0000_0000_0000) % 2048 <= 2046,
        r matches Some(halved) ==> {
            &&& halved.bits + 0x10_0000_0000_0000 == score.bits
            &&& 2 * magnitude(halved.bits) == magnitude(score.bits)
        },
{
    if halves_exactly(score.bits) {
        law_half_is_half(score.bits);
    }
}

} // verus!
