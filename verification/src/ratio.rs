//! Ratios of whole numbers, shown with three decimal places.
//!
//! A frame rate is given as a ratio. Messages show it as a double-precision
//! number would be shown: the ratio is rounded to 53 binary digits first, and
//! the result to thousandths; both times to the nearest, and from halfway to the
//! even neighbour.

use vstd::prelude::*;

use crate::text;

verus! {

/// 2 to the power of 52: the least number with 53 binary digits.
pub const LEAST_MANTISSA: u128 = 0x10_0000_0000_0000;

/// `a / b`, rounded to the nearest whole number, and from halfway to the even
/// one.
pub open spec fn nearest(a: nat, b: nat) -> nat {
    let q = a / b;
    let r = a % b;
    if 2 * r > b || (2 * r == b && q % 2 == 1) {
        q + 1
    } else {
        q
    }
}

/// The least power of two that brings `v` up to `limit`.
pub open spec fn power_to(v: nat, limit: nat) -> nat
    decreases 2 * limit - v,
{
    if v == 0 || v >= limit {
        1
    } else {
        2 * power_to(2 * v, limit)
    }
}

/// How many thousandths `num / den` has as a double-precision number.
pub open spec fn thousandths(num: nat, den: nat) -> nat {
    let scale = power_to(num, LEAST_MANTISSA as nat * den);
    let mantissa = nearest(num * scale, den);
    nearest(1000 * mantissa, scale)
}

/// `num / den` with three decimal places.
pub open spec fn three_places(num: nat, den: nat) -> Seq<char> {
    let t = thousandths(num, den);
    text::dec(t / 1000) + "."@ + text::dec(t / 100 % 10) + text::dec(t / 10 % 10) + text::dec(
        t % 10,
    )
}

fn round_nearest(a: u128, b: u128) -> (r: u128)
    requires
        0 < b <= 0x1_0000_0000_0000_0000_0000_0000,
        a <= 0x1_0000_0000_0000_0000_0000_0000,
    ensures
        r == nearest(a as nat, b as nat),
        r <= a / b + 1,
{
    let q: u128 = a / b;
    let r: u128 = a % b;
    if 2 * r > b || (2 * r == b && q % 2 == 1) {
        q + 1
    } else {
        q
    }
}

/// `num / den` with three decimal places.
pub fn three_places_string(num: u32, den: u32) -> (r: String)
    requires
        den > 0,
    ensures
        r@ == three_places(num as nat, den as nat),
{
    let limit: u128 = LEAST_MANTISSA * den as u128;
    let mut v: u128 = num as u128;
    let mut scale: u128 = 1;
    while v != 0 && v < limit
        invariant
            v == num * scale,
            num == 0 || scale <= v,
            num == 0 ==> scale == 1,
            scale >= 1,
            v < 2 * limit || v == num,
            limit == LEAST_MANTISSA * den,
            power_to(num as nat, limit as nat) == scale * power_to(v as nat, limit as nat),
        decreases 2 * limit - v,
    {
        let ghost p = power_to((2 * v) as nat, limit as nat);
        assert(scale * (2 * p) == (2 * scale) * p) by (nonlinear_arith);
        assert(num * (2 * scale) == 2 * (num * scale)) by (nonlinear_arith);
        v = 2 * v;
        scale = 2 * scale;
    }
    assert(v <= 0x1_0000_0000 * 0x20_0000_0000_0000);
    let mantissa: u128 = round_nearest(v, den as u128);
    assert(v / den as u128 <= 0x20_0000_0000_0000) by (nonlinear_arith)
        requires
            v < 2 * (LEAST_MANTISSA * den) || v <= 0xFFFF_FFFF,
            den > 0,
    ;
    let t: u128 = round_nearest(1000 * mantissa, scale);
    assert((1000 * mantissa) / (scale as int) <= 1000 * mantissa) by (nonlinear_arith)
        requires
            scale >= 1,
    ;
    assert(t == thousandths(num as nat, den as nat)) by {
        let rest = power_to(v as nat, limit as nat);
        assert(scale * rest == scale) by (nonlinear_arith)
            requires
                rest == 1,
        ;
        assert(scale as nat == power_to(num as nat, LEAST_MANTISSA as nat * den as nat));
        assert(v as nat == num as nat * scale as nat);
    }
    let whole = text::dec_string((t / 1000) as u64);
    let tenths = text::dec_string((t / 100 % 10) as u64);
    let hundredths = text::dec_string((t / 10 % 10) as u64);
    let rest = text::dec_string((t % 10) as u64);
    text::cat5(whole.as_str(), ".", tenths.as_str(), hundredths.as_str(), rest.as_str())
}

/// The nearest whole number is off by at most a half.
pub proof fn lemma_nearest_is_near(a: nat, b: nat)
    requires
        b > 0,
    ensures
        2 * (nearest(a, b) * b) <= 2 * a + b,
        2 * a <= 2 * (nearest(a, b) * b) + b,
{
    let q = a / b;
    let r = a % b;
    vstd::arithmetic::div_mod::lemma_fundamental_div_mod(a as int, b as int);
    assert(a == b * q + r);
    assert((q + 1) * b == q * b + b) by (nonlinear_arith);
    assert(q * b == b * q) by (nonlinear_arith);
}

} // verus!
