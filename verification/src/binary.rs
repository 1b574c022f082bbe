//! Fractional numbers of the configuration, held by their IEEE 754 bits.
//!
//! The configuration stores such numbers, compares them with limits and shows
//! them in messages; it never computes with them. Comparing can be done on the
//! bits exactly.

use vstd::prelude::*;

verus! {

/// A double-precision number.
#[derive(Debug, Clone)]
pub struct Binary64 {
    pub bits: u64,
    /// The number in decimal, as messages show it.
    pub text: String,
}

/// A single-precision number.
#[derive(Debug, Clone, Copy, PartialEq, Eq)]
pub struct Binary32 {
    pub bits: u32,
}

pub const SIGN_BIT: u64 = 0x8000_0000_0000_0000;

/// The bits of positive infinity: every greater magnitude is a NaN.
pub const INFINITY_BITS: u64 = 0x7FF0_0000_0000_0000;

/// Thirty, in single precision. Positive numbers are in the order of their bits.
pub const THIRTY_SINGLE: u32 = 0x41F0_0000;

/// Fifty, in single precision.
pub const FIFTY_SINGLE: u32 = 0x4248_0000;

/// Eight thousand, in single precision.
pub const EIGHT_THOUSAND_SINGLE: u32 = 0x45FA_0000;

/// The double nearest to 0.01.
pub const HUNDREDTH: u64 = 0x3F84_7AE1_47AE_147B;

/// One half.
pub const HALF: u64 = 0x3FE0_0000_0000_0000;

/// One.
pub const ONE: u64 = 0x3FF0_0000_0000_0000;

/// The double nearest to 1.1.
pub const ELEVEN_TENTHS: u64 = 0x3FF1_9999_9999_999A;

/// Ten.
pub const TEN: u64 = 0x4024_0000_0000_0000;

/// One hundred.
pub const HUNDRED: u64 = 0x4059_0000_0000_0000;

/// Three hundred.
pub const THREE_HUNDRED: u64 = 0x4072_C000_0000_0000;

/// Ten thousand.
pub const TEN_THOUSAND: u64 = 0x40C3_8800_0000_0000;

/// One hundred thousand.
pub const HUNDRED_THOUSAND: u64 = 0x40F8_6A00_0000_0000;

/// The absolute value of the number whose magnitude bits are `magnitude`,
/// in units of the smallest positive number, 2 to the power of -1074.
pub open spec fn magnitude_value(magnitude: nat) -> nat {
    let exponent = magnitude / 0x10_0000_0000_0000;
    let fraction = magnitude % 0x10_0000_0000_0000;
    if exponent == 0 {
        fraction
    } else {
        (0x10_0000_0000_0000 + fraction) * vstd::arithmetic::power2::pow2((exponent - 1) as nat)
    }
}

/// Whether the sign bit is set.
pub open spec fn is_negative(bits: u64) -> bool {
    bits >= SIGN_BIT
}

/// The bits without the sign.
pub open spec fn magnitude(bits: u64) -> nat {
    if is_negative(bits) {
        (bits - SIGN_BIT) as nat
    } else {
        bits as nat
    }
}

/// Whether these are the bits of a NaN.
pub open spec fn is_nan(bits: u64) -> bool {
    magnitude(bits) > INFINITY_BITS
}

/// Whether these are the bits of a finite number.
pub open spec fn is_finite(bits: u64) -> bool {
    magnitude(bits) < INFINITY_BITS
}

/// The place of the number with these bits in the order of all numbers that
/// are not NaN.
pub open spec fn rank(bits: u64) -> int {
    if is_negative(bits) {
        -(magnitude(bits) as int)
    } else {
        magnitude(bits) as int
    }
}

/// The exact value of the finite number with these bits, in units of 2 to the
/// power of -1074.
pub open spec fn value(bits: u64) -> int {
    if is_negative(bits) {
        -(magnitude_value(magnitude(bits)) as int)
    } else {
        magnitude_value(magnitude(bits)) as int
    }
}

/// Whether the number with the bits `a` is less than the one with the bits `b`:
/// not so as soon as one of them is NaN.
pub open spec fn lt(a: u64, b: u64) -> bool {
    !is_nan(a) && !is_nan(b) && rank(a) < rank(b)
}

/// Whether the number with the bits `a` is at most the one with the bits `b`:
/// not so as soon as one of them is NaN.
pub open spec fn le(a: u64, b: u64) -> bool {
    !is_nan(a) && !is_nan(b) && rank(a) <= rank(b)
}

fn nan(bits: u64) -> (r: bool)
    ensures
        r == is_nan(bits),
{
    if bits >= SIGN_BIT {
        bits - SIGN_BIT > INFINITY_BITS
    } else {
        bits > INFINITY_BITS
    }
}

fn order(bits: u64) -> (r: i128)
    ensures
        r == rank(bits),
{
    if bits >= SIGN_BIT {
        -((bits - SIGN_BIT) as i128)
    } else {
        bits as i128
    }
}

/// See [`lt`].
pub fn less_than(a: u64, b: u64) -> (r: bool)
    ensures
        r == lt(a, b),
{
    !nan(a) && !nan(b) && order(a) < order(b)
}

/// See [`le`].
pub fn at_most(a: u64, b: u64) -> (r: bool)
    ensures
        r == le(a, b),
{
    !nan(a) && !nan(b) && order(a) <= order(b)
}

impl Binary64 {
    /// The number with these bits, shown as `text`.
    pub fn new(bits: u64, text: &str) -> (r: Binary64)
        ensures
            r.bits == bits,
            r.text@ == text@,
    {
        Binary64 { bits, text: text.to_owned() }
    }
}

impl PartialEq for Binary64 {
    fn eq(&self, other: &Binary64) -> (r: bool) {
        !nan(self.bits) && !nan(other.bits) && order(self.bits) == order(other.bits)
    }
}

impl vstd::std_specs::cmp::PartialEqSpecImpl for Binary64 {
    open spec fn obeys_eq_spec() -> bool {
        true
    }

    open spec fn eq_spec(&self, other: &Binary64) -> bool {
        !is_nan(self.bits) && !is_nan(other.bits) && rank(self.bits) == rank(other.bits)
    }
}

proof fn lemma_magnitude_value_step(m: nat)
    ensures
        magnitude_value(m) < magnitude_value(m + 1),
{
    let unit: nat = 0x10_0000_0000_0000;
    let e = m / unit;
    let f = m % unit;
    if f + 1 < unit {
        assert((m + 1) / unit == e && (m + 1) % unit == f + 1);
        if e > 0 {
            let p = vstd::arithmetic::power2::pow2((e - 1) as nat);
            vstd::arithmetic::power2::lemma_pow2_pos((e - 1) as nat);
            assert((unit + f) * p < (unit + f + 1) * p) by (nonlinear_arith)
                requires
                    p > 0,
            ;
        }
    } else {
        assert((m + 1) / unit == e + 1 && (m + 1) % unit == 0);
        if e == 0 {
            vstd::arithmetic::power2::lemma2_to64();
        } else {
            let p = vstd::arithmetic::power2::pow2((e - 1) as nat);
            vstd::arithmetic::power2::lemma_pow2_pos((e - 1) as nat);
            vstd::arithmetic::power2::lemma_pow2_unfold(e);
            assert((unit + f) * p < (unit + 0) * (2 * p)) by (nonlinear_arith)
                requires
                    p > 0,
                    f < unit,
            ;
        }
    }
}

proof fn lemma_magnitude_value_increases(a: nat, b: nat)
    requires
        a < b,
    ensures
        magnitude_value(a) < magnitude_value(b),
    decreases b - a,
{
    lemma_magnitude_value_step(a);
    if a + 1 < b {
        lemma_magnitude_value_increases(a + 1, b);
    }
}

/// Comparing two finite numbers by their bits compares their values.
pub proof fn lemma_order_is_numeric(a: u64, b: u64)
    requires
        is_finite(a),
        is_finite(b),
    ensures
        lt(a, b) <==> value(a) < value(b),
        le(a, b) <==> value(a) <= value(b),
{
    let (m, n) = (magnitude(a), magnitude(b));
    if m < n {
        lemma_magnitude_value_increases(m, n);
    }
    if n < m {
        lemma_magnitude_value_increases(n, m);
    }
    if m > 0 {
        lemma_magnitude_value_increases(0, m);
    }
    if n > 0 {
        lemma_magnitude_value_increases(0, n);
    }
}

/// The limits are the numbers that their names say: 2 to the power of 1074
/// units make one.
pub proof fn lemma_limit_values()
    ensures
        2 * magnitude_value(HALF as nat) == vstd::arithmetic::power2::pow2(1074),
        magnitude_value(ONE as nat) == vstd::arithmetic::power2::pow2(1074),
        magnitude_value(TEN as nat) == 10 * vstd::arithmetic::power2::pow2(1074),
        magnitude_value(HUNDRED as nat) == 100 * vstd::arithmetic::power2::pow2(1074),
        magnitude_value(THREE_HUNDRED as nat) == 300 * vstd::arithmetic::power2::pow2(1074),
        magnitude_value(TEN_THOUSAND as nat) == 10_000 * vstd::arithmetic::power2::pow2(1074),
        magnitude_value(HUNDRED_THOUSAND as nat) == 100_000 * vstd::arithmetic::power2::pow2(1074),
{
    let one = vstd::arithmetic::power2::pow2(1074);
    vstd::arithmetic::power2::lemma2_to64();
    vstd::arithmetic::power2::lemma2_to64_rest();
    assert(2 * magnitude_value(HALF as nat) == one) by {
        let p = vstd::arithmetic::power2::pow2(1021);
        assert(HALF as nat / 0x10_0000_0000_0000 == 1022 && HALF as nat % 0x10_0000_0000_0000 == 0);
        assert(magnitude_value(HALF as nat) == (0x10_0000_0000_0000nat + 0) * p);
        vstd::arithmetic::power2::lemma_pow2_adds(53, 1021);
    }
    assert(magnitude_value(ONE as nat) == one) by {
        let p = vstd::arithmetic::power2::pow2(1022);
        assert(ONE as nat / 0x10_0000_0000_0000 == 1023 && ONE as nat % 0x10_0000_0000_0000 == 0);
        assert(magnitude_value(ONE as nat) == (0x10_0000_0000_0000nat + 0) * p);
        vstd::arithmetic::power2::lemma_pow2_adds(52, 1022);
    }
    assert(magnitude_value(TEN as nat) == 10 * one) by {
        let p = vstd::arithmetic::power2::pow2(1025);
        assert(TEN as nat / 0x10_0000_0000_0000 == 1026 && TEN as nat % 0x10_0000_0000_0000
            == 0x4_0000_0000_0000);
        assert(magnitude_value(TEN as nat) == (0x10_0000_0000_0000nat + 0x4_0000_0000_0000nat) * p);
        vstd::arithmetic::power2::lemma_pow2_adds(49, 1025);
    }
    assert(magnitude_value(HUNDRED as nat) == 100 * one) by {
        let p = vstd::arithmetic::power2::pow2(1028);
        assert(HUNDRED as nat / 0x10_0000_0000_0000 == 1029 && HUNDRED as nat
            % 0x10_0000_0000_0000 == 0x9_0000_0000_0000);
        assert(magnitude_value(HUNDRED as nat) == (0x10_0000_0000_0000nat + 0x9_0000_0000_0000nat)
            * p);
        vstd::arithmetic::power2::lemma_pow2_adds(46, 1028);
    }
    assert(magnitude_value(THREE_HUNDRED as nat) == 300 * one) by {
        let p = vstd::arithmetic::power2::pow2(1030);
        assert(THREE_HUNDRED as nat / 0x10_0000_0000_0000 == 1031 && THREE_HUNDRED as nat
            % 0x10_0000_0000_0000 == 0x2_C000_0000_0000);
        assert(magnitude_value(THREE_HUNDRED as nat) == (0x10_0000_0000_0000nat
            + 0x2_C000_0000_0000nat) * p);
        vstd::arithmetic::power2::lemma_pow2_adds(44, 1030);
    }
    assert(magnitude_value(TEN_THOUSAND as nat) == 10_000 * one) by {
        let p = vstd::arithmetic::power2::pow2(1035);
        assert(TEN_THOUSAND as nat / 0x10_0000_0000_0000 == 1036 && TEN_THOUSAND as nat
            % 0x10_0000_0000_0000 == 0x3_8800_0000_0000);
        assert(magnitude_value(TEN_THOUSAND as nat) == (0x10_0000_0000_0000nat
            + 0x3_8800_0000_0000nat) * p);
        vstd::arithmetic::power2::lemma_pow2_adds(39, 1035);
    }
    assert(magnitude_value(HUNDRED_THOUSAND as nat) == 100_000 * one) by {
        let p = vstd::arithmetic::power2::pow2(1038);
        assert(HUNDRED_THOUSAND as nat / 0x10_0000_0000_0000 == 1039 && HUNDRED_THOUSAND as nat
            % 0x10_0000_0000_0000 == 0x8_6A00_0000_0000);
        assert(magnitude_value(HUNDRED_THOUSAND as nat) == (0x10_0000_0000_0000nat
            + 0x8_6A00_0000_0000nat) * p);
        vstd::arithmetic::power2::lemma_pow2_adds(36, 1038);
    }
}

} // verus!
