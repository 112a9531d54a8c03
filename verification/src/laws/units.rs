//! What holds of sizes and speeds for people to read.

use crate::speed::Speed;
use crate::text::decimal;
use crate::units::{
    granule, nearest_double, round_half_even, rounding_is_nearest, size_text, small_sizes_are_exact,
    speed_text, tenths_of, unit_of,
};
use vstd::arithmetic::power2::{
    lemma2_to64, lemma_pow2_pos, lemma_pow2_strictly_increases, lemma_pow2_unfold, pow2,
};
use vstd::prelude::*;

verus! {

/// Whether no multiple of `d` is nearer to `n` than `k` times `d`, and where two are as near, `k` is
/// even.
pub open spec fn nearest(n: nat, d: nat, k: nat) -> bool {
    &&& -d <= 2 * (k * d - n) <= d
    &&& 2 * (k * d - n) == d || 2 * (n - k * d) == d ==> k % 2 == 0
}

proof fn a_quotient_is_rounded_to_the_nearest(n: nat, d: nat)
    requires
        d > 0,
    ensures
        nearest(n, d, round_half_even(n, d)),
{
    rounding_is_nearest(n, d, 0);
    let q = n / d;
    let r = n % d;
    assert(n == q * d + r && 0 <= r < d) by (nonlinear_arith)
        requires
            d > 0,
            q == n / d,
            r == n % d,
    ;
    assert((q + 1) * d == q * d + d) by (nonlinear_arith);
}

proof fn a_granule_is_a_power_of_two(n: nat, k: nat)
    requires
        pow2(k) * 0x10_0000_0000_0000 <= n < pow2(k) * 0x20_0000_0000_0000,
    ensures
        granule(n) == pow2(k),
    decreases k,
{
    lemma2_to64();
    if k > 0 {
        let half = pow2((k - 1) as nat);
        lemma_pow2_pos((k - 1) as nat);
        lemma_pow2_unfold(k);
        assert(pow2(k) == 2 * half);
        a_granule_is_a_power_of_two(n / 2, (k - 1) as nat);
    }
}

/// Before a size is divided by its unit it is rounded to 53 binary digits. A smaller one is taken as
/// it is; one of 53 + `k` digits becomes the nearest multiple of the `k`-th power of two, and where
/// two are as near, the even one.
pub proof fn a_size_is_rounded_to_53_digits(n: nat, k: nat)
    requires
        pow2(k) * 0x10_0000_0000_0000 <= n < pow2(k) * 0x20_0000_0000_0000,
    ensures
        exists|m: nat|
            #[trigger] nearest(n, pow2(k), m) && nearest_double(n) == m * pow2(k),
{
    a_granule_is_a_power_of_two(n, k);
    lemma_pow2_pos(k);
    a_quotient_is_rounded_to_the_nearest(n, pow2(k));
    assert(nearest(n, pow2(k), round_half_even(n, pow2(k))));
}

/// A size of less than 54 binary digits is taken as it is.
pub proof fn a_small_size_is_not_rounded(n: nat)
    requires
        n < 0x20_0000_0000_0000,
    ensures
        nearest_double(n) == n,
{
    small_sizes_are_exact(n);
}

/// So many tenths, written with a point before the last digit.
pub open spec fn with_a_point(tenths: nat) -> Seq<char> {
    decimal(tenths / 10) + "."@ + decimal(tenths % 10)
}

/// Whether a size is written in a unit: the tenths of the unit that are nearest to the size, and the
/// name of the unit.
pub open spec fn is_written_in(bytes: u64, unit: nat, name: Seq<char>) -> bool {
    exists|tenths: nat|
        #[trigger] nearest(10 * nearest_double(bytes as nat), unit, tenths) && size_text(
            bytes,
        ) == with_a_point(tenths) + " "@ + name
}

/// A size is written in the largest unit that it reaches, each 1024 times the one before: in whole
/// bytes, or with one digit behind the point, and then in the nearest tenth.
pub proof fn a_size_is_written_in_the_largest_unit(bytes: u64)
    ensures
        bytes < 1024 ==> size_text(bytes) == decimal(bytes as nat) + " "@ + "B"@,
        1024 <= bytes < 1024 * 1024 ==> is_written_in(bytes, 1024, "KiB"@),
        1024 * 1024 <= bytes < 1024 * 1024 * 1024 ==> is_written_in(bytes, 1024 * 1024, "MiB"@),
        1024 * 1024 * 1024 <= bytes < 1024 * 1024 * 1024 * 1024 ==> is_written_in(
            bytes,
            1024 * 1024 * 1024,
            "GiB"@,
        ),
        1024 * 1024 * 1024 * 1024 <= bytes ==> is_written_in(
            bytes,
            1024 * 1024 * 1024 * 1024,
            "TiB"@,
        ),
{
    let n = bytes as nat;
    a_quotient_is_rounded_to_the_nearest(10 * nearest_double(n), unit_of(n));
    assert(nearest(10 * nearest_double(n), unit_of(n), tenths_of(n)));
}

/// Rounding keeps the order: of two sizes in the same unit, the larger one is not given as less.
pub proof fn rounding_keeps_the_order(m: nat, n: nat, d: nat)
    requires
        d > 0,
        m <= n,
    ensures
        round_half_even(m, d) <= round_half_even(n, d),
{
    a_quotient_is_rounded_to_the_nearest(m, d);
    a_quotient_is_rounded_to_the_nearest(n, d);
    let a = round_half_even(m, d) as int;
    let b = round_half_even(n, d) as int;
    if a > b {
        // The two can only be the two sides of one middle, and both even.
        assert(a * d >= (b + 1) * d) by (nonlinear_arith)
            requires
                a >= b + 1,
                d > 0,
        ;
        assert((b + 1) * d == b * d + d) by (nonlinear_arith);
        assert(a * d == b * d + d);
        assert(a == b + 1) by (nonlinear_arith)
            requires
                a * d == (b + 1) * d,
                d > 0,
        ;
    }
}

/// The bit pattern of a speed is its sign, its exponent and its fraction.
pub proof fn a_speed_is_made_of_three_fields(speed: Speed)
    ensures
        0 <= speed.exponent() < 0x800,
        0 <= speed.fraction() < 0x10_0000_0000_0000,
        speed.bits == speed.exponent() * 0x10_0000_0000_0000 + speed.fraction() + if speed.is_signed() {
            0x8000_0000_0000_0000int
        } else {
            0int
        },
{
}

/// Speeds are told apart by their bit patterns. Zero has two. The numbers that are not less than zero
/// lie in the order of their patterns, up to infinity; then come what is no number, the numbers below
/// zero and what is no number again.
pub proof fn speeds_are_told_apart_by_their_patterns(speed: Speed)
    ensures
        speed.is_zero_number() <==> speed.bits == 0 || speed.bits == 0x8000_0000_0000_0000,
        speed.is_a_rate() <==> speed.bits < 0x7ff0_0000_0000_0000 || speed.bits
            == 0x8000_0000_0000_0000,
        speed.is_nan() <==> 0x7ff0_0000_0000_0000 < speed.bits < 0x8000_0000_0000_0000
            || 0xfff0_0000_0000_0000 < speed.bits,
        speed.at_most_zero() <==> speed.bits == 0 || 0x8000_0000_0000_0000 <= speed.bits
            <= 0xfff0_0000_0000_0000,
{
}

/// The whole part of a speed. With exponent `e` and fraction `f` in its pattern, the number is 2 to
/// the 52 plus `f`, times 2 to the `e` - 1075: its whole part is the integer that is not greater while
/// the next one is. What 64 bits cannot hold, infinity included, counts as their largest number, and
/// what is below one, below zero or no number counts as zero.
pub proof fn a_fraction_is_cut_off(speed: Speed, e: nat, f: nat)
    requires
        speed.bits == e * 0x10_0000_0000_0000 + f,
        f < 0x10_0000_0000_0000,
    ensures
        e < 1023 ==> speed.whole() == 0,
        1023 <= e <= 1075 ==> speed.whole() * pow2((1075 - e) as nat) <= 0x10_0000_0000_0000 + f < (
        speed.whole() + 1) * pow2((1075 - e) as nat),
        1075 < e < 1087 ==> speed.whole() == (0x10_0000_0000_0000 + f) * pow2((e - 1075) as nat),
        1087 <= e < 2047 ==> speed.whole() == u64::MAX,
        e == 2047 && f == 0 ==> speed.whole() == u64::MAX,
        e == 2047 && f > 0 ==> speed.whole() == 0,
        e > 2047 ==> speed.whole() == 0,
{
    assert(e == speed.bits as int / 0x10_0000_0000_0000);
    assert(f == speed.bits as int % 0x10_0000_0000_0000);
    if e < 2048 {
        assert(speed.exponent() == e);
        assert(speed.fraction() == f);
        let s = 0x10_0000_0000_0000 + f;
        if 1023 <= e <= 1075 {
            let p = pow2((1075 - e) as nat) as int;
            lemma_pow2_pos((1075 - e) as nat);
            let q = s as int / p;
            assert(q * p <= s < (q + 1) * p && 0 <= q <= s) by (nonlinear_arith)
                requires
                    p > 0,
                    s >= 0,
                    q == s as int / p,
            ;
        } else if 1075 < e < 1087 {
            let k = (e - 1075) as nat;
            lemma2_to64();
            if k < 11 {
                lemma_pow2_strictly_increases(k, 11);
            }
            assert(0 <= s * pow2(k) <= 0x1f_ffff_ffff_ffff * 2048) by (nonlinear_arith)
                requires
                    0 <= s <= 0x1f_ffff_ffff_ffff,
                    pow2(k) <= 2048,
            ;
        }
    }
}

/// A speed is written as a size per second, that of its whole part, and as a dash where it is a number
/// and not greater than zero.
pub proof fn a_speed_is_written_as_a_size_per_second(speed: Speed)
    ensures
        speed.bits == 0 || 0x8000_0000_0000_0000 <= speed.bits <= 0xfff0_0000_0000_0000
            ==> speed_text(speed) == "\u{2014}"@,
        0 < speed.bits < 0x8000_0000_0000_0000 || 0xfff0_0000_0000_0000 < speed.bits ==> speed_text(
            speed,
        ) == size_text(speed.whole()) + "/s"@,
{
}

} // verus!
