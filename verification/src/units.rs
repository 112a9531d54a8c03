//! Sizes and speeds for people to read.

use crate::speed::Speed;
use crate::text;
use vstd::prelude::*;

verus! {

/// The quotient rounded to the nearest integer, from the middle to the even one.
pub open spec fn round_half_even(n: nat, d: nat) -> nat {
    let q = n / d;
    let r = n % d;
    if 2 * r < d || (2 * r == d && q % 2 == 0) {
        q
    } else {
        q + 1
    }
}

/// The distance between the double-precision numbers around an integer of 54 bits or more; one
/// for the smaller integers, which all have a double-precision number of their own.
pub open spec fn granule(n: nat) -> nat
    decreases n,
{
    if n < 0x20_0000_0000_0000 {
        1
    } else {
        2 * granule(n / 2)
    }
}

/// The double-precision number that is nearest to an integer.
pub open spec fn nearest_double(n: nat) -> nat {
    round_half_even(n, granule(n)) * granule(n)
}

/// The unit that a size is given in.
pub open spec fn unit_of(bytes: nat) -> nat {
    if bytes < 0x400 {
        1
    } else if bytes < 0x10_0000 {
        0x400
    } else if bytes < 0x4000_0000 {
        0x10_0000
    } else if bytes < 0x100_0000_0000 {
        0x4000_0000
    } else {
        0x100_0000_0000
    }
}

/// The name of the unit that a size is given in.
pub open spec fn unit_name(bytes: nat) -> Seq<char> {
    if bytes < 0x400 {
        "B"@
    } else if bytes < 0x10_0000 {
        "KiB"@
    } else if bytes < 0x4000_0000 {
        "MiB"@
    } else if bytes < 0x100_0000_0000 {
        "GiB"@
    } else {
        "TiB"@
    }
}

/// The size in tenths of its unit.
pub open spec fn tenths_of(bytes: nat) -> nat {
    round_half_even(10 * nearest_double(bytes), unit_of(bytes))
}

/// A size for people to read: in whole bytes below 1 KiB, else with one digit behind the point.
pub open spec fn size_text(bytes: u64) -> Seq<char> {
    if bytes < 0x400 {
        text::decimal(bytes as nat) + " "@ + unit_name(bytes as nat)
    } else {
        let tenths = tenths_of(bytes as nat);
        text::decimal(tenths / 10) + "."@ + text::decimal(tenths % 10) + " "@ + unit_name(
            bytes as nat,
        )
    }
}

/// A speed for people to read.
pub open spec fn speed_text(speed: Speed) -> Seq<char> {
    if speed.at_most_zero() {
        "\u{2014}"@
    } else {
        size_text(speed.whole()) + "/s"@
    }
}

/// No integer is nearer to a quotient than the rounded one.
pub proof fn rounding_is_nearest(n: nat, d: nat, other: nat)
    requires
        d > 0,
    ensures
        2 * (round_half_even(n, d) * d - n) <= d,
        2 * (n - round_half_even(n, d) * d) <= d,
        round_half_even(n, d) * d - n <= vstd::math::abs(other * d - n),
        n - round_half_even(n, d) * d <= vstd::math::abs(other * d - n),
{
    let q = n / d;
    let r = n % d;
    let k = round_half_even(n, d);
    assert(n == q * d + r && 0 <= r < d) by (nonlinear_arith)
        requires
            d > 0,
            q == n / d,
            r == n % d,
    ;
    assert((q + 1) * d == q * d + d) by (nonlinear_arith);
    if other <= q {
        assert(other * d <= q * d) by (nonlinear_arith)
            requires
                other <= q,
        ;
    } else {
        assert(other * d >= (q + 1) * d) by (nonlinear_arith)
            requires
                other >= q + 1,
        ;
    }
}

/// A size of less than 54 bits is not rounded before it is divided by its unit.
pub proof fn small_sizes_are_exact(bytes: nat)
    requires
        bytes < 0x20_0000_0000_0000,
    ensures
        nearest_double(bytes) == bytes,
        tenths_of(bytes) == round_half_even(10 * bytes, unit_of(bytes)),
{
    assert(granule(bytes) == 1);
    assert(bytes / 1 == bytes && bytes % 1 == 0);
    assert(round_half_even(bytes, 1) == bytes);
}

fn rounded(n: u128, d: u128) -> (k: u128)
    requires
        0 < d <= 0x1_0000_0000_0000_0000,
        n <= 0x10_0000_0000_0000_0000_0000_0000,
    ensures
        k == round_half_even(n as nat, d as nat),
        k <= n / d + 1,
{
    let q: u128 = n / d;
    let r: u128 = n % d;
    assert(q <= n) by (nonlinear_arith)
        requires
            d > 0,
            q == n / d,
    ;
    if 2 * r < d || (2 * r == d && q % 2 == 0) {
        q
    } else {
        q + 1
    }
}

/// Rounding to a granule moves an integer of 64 bits by no more than the granule.
proof fn double_is_close(n: nat)
    ensures
        granule(n) > 0,
        nearest_double(n) <= n + granule(n),
{
    granule_is_positive(n);
    let g = granule(n);
    rounding_is_nearest(n, g, 0);
}

proof fn granule_is_positive(n: nat)
    ensures
        granule(n) > 0,
    decreases n,
{
    if n >= 0x20_0000_0000_0000 {
        granule_is_positive(n / 2);
    }
}

fn to_nearest_double(n: u64) -> (v: u128)
    ensures
        v == nearest_double(n as nat),
        v <= 0x1_0000_0000_0000_1000,
{
    let mut m: u64 = n;
    let mut g: u128 = 1;
    while m >= 0x20_0000_0000_0000
        invariant
            granule(n as nat) == g * granule(m as nat),
            0 < g <= 0x1000,
            g * m <= n,
        decreases m,
    {
        let half: u64 = m / 2;
        assert(g <= 0x800) by (nonlinear_arith)
            requires
                g * m <= n,
                m >= 0x20_0000_0000_0000,
                n <= 0xffff_ffff_ffff_ffff,
        ;
        assert(g * (2 * granule(half as nat)) == (2 * g) * granule(half as nat))
            by (nonlinear_arith);
        assert((2 * g) * half <= g * m) by (nonlinear_arith)
            requires
                2 * half <= m,
        ;
        g = 2 * g;
        m = half;
    }
    assert(granule(n as nat) == g) by (nonlinear_arith)
        requires
            granule(n as nat) == g * granule(m as nat),
            granule(m as nat) == 1,
    ;
    let k: u128 = rounded(n as u128, g);
    proof {
        double_is_close(n as nat);
        assert(k * g == nearest_double(n as nat));
    }
    k * g
}

/// A size for people to read.
pub fn human_bytes(bytes: u64) -> (human: String)
    ensures
        human@ == size_text(bytes),
{
    let mut human: String = String::new();
    if bytes < 0x400 {
        text::push_decimal(&mut human, bytes);
        human.append(" ");
        human.append("B");
        assert(human@ == size_text(bytes));
        return human;
    }
    let (unit, name): (u128, &str) = if bytes < 0x10_0000 {
        (0x400, "KiB")
    } else if bytes < 0x4000_0000 {
        (0x10_0000, "MiB")
    } else if bytes < 0x100_0000_0000 {
        (0x4000_0000, "GiB")
    } else {
        (0x100_0000_0000, "TiB")
    };
    let v: u128 = to_nearest_double(bytes);
    let tenths: u128 = rounded(10 * v, unit);
    assert((10 * v) / unit as int <= 10 * v / 0x400) by (nonlinear_arith)
        requires
            unit >= 0x400,
            v >= 0,
    ;
    let tenths: u64 = tenths as u64;
    text::push_decimal(&mut human, tenths / 10);
    human.append(".");
    text::push_decimal(&mut human, tenths % 10);
    human.append(" ");
    human.append(name);
    assert(human@ == size_text(bytes));
    human
}

/// A speed for people to read: a dash where nothing moves.
pub fn human_speed(speed: Speed) -> (human: String)
    ensures
        human@ == speed_text(speed),
{
    if speed.is_at_most_zero() {
        return String::from("\u{2014}");
    }
    let mut human: String = human_bytes(speed.truncate());
    human.append("/s");
    human
}

} // verus!
