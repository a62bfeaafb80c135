//! Temperatures in degrees Celsius, as IEEE 754 single precision patterns.
use vstd::arithmetic::{div_mod, power2};
use vstd::prelude::*;

verus! {

/// A temperature, as the 32 bits of an IEEE 754 single precision number.
///
/// The program reads, adds and prints temperatures as floating point numbers;
/// the rules compare them. A comparison is decided on the bits alone, by the
/// value that the bits stand for.
#[derive(Clone, Copy, Debug, PartialEq, Eq)]
pub struct Temperature {
    pub bits: u32,
}

/// The magnitude that the low 31 bits of a pattern stand for, counted in the
/// smallest step there is, 2 to the power of -149.
///
/// The pattern of infinity comes out one step above the largest finite number.
pub open spec fn magnitude(low: nat) -> nat {
    let exponent = low / 0x80_0000;
    let fraction = low % 0x80_0000;
    if exponent == 0 {
        fraction
    } else {
        (0x80_0000 + fraction) * power2::pow2((exponent - 1) as nat)
    }
}

/// One degree, counted in steps.
pub open spec fn degree() -> nat {
    power2::pow2(149)
}

impl Temperature {
    /// The pattern without its sign bit.
    pub open spec fn low(self) -> nat {
        (self.bits % 0x8000_0000) as nat
    }

    /// The pattern carries a minus sign.
    pub open spec fn negative(self) -> bool {
        self.bits >= 0x8000_0000
    }

    /// The pattern stands for no number.
    pub open spec fn is_nan(self) -> bool {
        self.low() > 0x7f80_0000
    }

    /// The number of steps that the pattern stands for.
    pub open spec fn steps(self) -> int {
        if self.negative() {
            -(magnitude(self.low()) as int)
        } else {
            magnitude(self.low()) as int
        }
    }

    /// `self` is a number, `other` is a number, and `self` is no larger.
    pub open spec fn at_most_spec(self, other: Temperature) -> bool {
        !self.is_nan() && !other.is_nan() && self.steps() <= other.steps()
    }

    /// `self` and `other` are the same number.
    pub open spec fn equals_spec(self, other: Temperature) -> bool {
        !self.is_nan() && !other.is_nan() && self.steps() == other.steps()
    }

    /// `self` is a number, `other` is a number, and `self` is smaller.
    pub open spec fn below_spec(self, other: Temperature) -> bool {
        !self.is_nan() && !other.is_nan() && self.steps() < other.steps()
    }

    /// The whole degrees of `self`, cut off towards zero, and moved into the
    /// range of a byte; zero for what is no number.
    pub open spec fn whole_degrees_spec(self) -> u8 {
        if self.is_nan() || self.steps() < 0 {
            0
        } else if self.steps() / degree() as int > 255 {
            255
        } else {
            (self.steps() / degree() as int) as u8
        }
    }

    /// `self <= other`, as floating point numbers compare: false where either
    /// is no number, and the two zeros are equal.
    pub fn at_most(&self, other: &Temperature) -> (holds: bool)
        ensures
            holds == self.at_most_spec(*other),
    {
        let low = self.bits % 0x8000_0000;
        let other_low = other.bits % 0x8000_0000;
        proof {
            lemma_magnitude_order(low as nat, other_low as nat);
            lemma_magnitude_order(other_low as nat, low as nat);
            lemma_magnitude_zero(low as nat);
            lemma_magnitude_zero(other_low as nat);
        }
        if low > 0x7f80_0000 || other_low > 0x7f80_0000 {
            false
        } else if self.bits >= 0x8000_0000 {
            if other.bits >= 0x8000_0000 {
                other_low <= low
            } else {
                true
            }
        } else if other.bits >= 0x8000_0000 {
            low == 0 && other_low == 0
        } else {
            low <= other_low
        }
    }

    /// `self == other`, as floating point numbers compare.
    pub fn equals(&self, other: &Temperature) -> (holds: bool)
        ensures
            holds == self.equals_spec(*other),
    {
        self.at_most(other) && other.at_most(self)
    }

    /// `self as u8`: the whole degrees, cut off towards zero and saturated.
    pub fn whole_degrees(&self) -> (degrees: u8)
        ensures
            degrees == self.whole_degrees_spec(),
    {
        let low = self.bits % 0x8000_0000;
        let exponent = low / 0x80_0000;
        let fraction = low % 0x80_0000;
        if self.bits >= 0x8000_0000 || low > 0x7f80_0000 {
            proof {
                lemma_magnitude_zero(low as nat);
                power2::lemma_pow2_pos(149);
                if self.steps() == 0 {
                    div_mod::lemma_basic_div(0, degree() as int);
                }
            }
            return 0;
        }
        if exponent < 127 {
            proof {
                lemma_small_magnitude(low as nat);
            }
            return 0;
        }
        if exponent >= 135 {
            proof {
                lemma_large_magnitude(low as nat);
            }
            return 255;
        }
        let mut unit: u32 = 0x80_0000;
        let mut at: u32 = 127;
        assert(power2::pow2(23) == 0x80_0000) by {
            power2::lemma2_to64();
        }
        while at < exponent
            invariant
                127 <= at <= exponent < 135,
                unit == power2::pow2((150 - at) as nat),
            decreases exponent - at,
        {
            proof {
                power2::lemma_pow2_unfold((150 - at) as nat);
            }
            unit = unit / 2;
            at = at + 1;
        }
        proof {
            lemma_middle_magnitude(low as nat);
            power2::lemma_pow2_pos((150 - exponent) as nat);
        }
        ((0x80_0000 + fraction) / unit) as u8
    }

    /// `degrees as` a temperature, which is exact.
    pub fn from_degrees(degrees: u8) -> (t: Temperature)
        ensures
            !t.is_nan(),
            !t.negative(),
            t.steps() == degrees * degree(),
    {
        if degrees == 0 {
            proof {
                lemma_magnitude_zero(0);
                assert(0 * degree() == 0) by (nonlinear_arith);
            }
            return Temperature { bits: 0 };
        }
        let mut significand: u32 = degrees as u32;
        let mut exponent: u32 = 150;
        proof {
            power2::lemma2_to64();
            assert(degrees * power2::pow2(0) == degrees) by (nonlinear_arith)
                requires
                    power2::pow2(0) == 1,
            ;
        }
        while significand < 0x80_0000
            invariant
                0 < significand < 0x100_0000,
                127 <= exponent <= 150,
                significand * power2::pow2((exponent - 1) as nat) == degrees * degree(),
                // The significand has been doubled once for each step down.
                significand == degrees * power2::pow2((150 - exponent) as nat),
                0 < degrees,
            decreases exponent,
        {
            proof {
                lemma_doubling(significand as nat, degrees as nat, exponent as nat);
            }
            significand = significand * 2;
            exponent = exponent - 1;
        }
        let bits: u32 = exponent * 0x80_0000 + (significand - 0x80_0000);
        let t = Temperature { bits };
        assert(t.low() / 0x80_0000 == exponent);
        assert(t.low() % 0x80_0000 == significand - 0x80_0000);
        t
    }
}

// ---------------------------------------------------------------------------
// Lemmas on magnitudes
// ---------------------------------------------------------------------------

/// A larger pattern stands for a larger magnitude.
pub proof fn lemma_magnitude_order(a: nat, b: nat)
    ensures
        a < b ==> magnitude(a) < magnitude(b),
{
    let ea = a / 0x80_0000;
    let fa = a % 0x80_0000;
    let eb = b / 0x80_0000;
    let fb = b % 0x80_0000;
    if a < b {
        if ea == eb {
            if ea > 0 {
                let p = power2::pow2((ea - 1) as nat);
                power2::lemma_pow2_pos((ea - 1) as nat);
                assert((0x80_0000 + fa) * p < (0x80_0000 + fb) * p) by (nonlinear_arith)
                    requires
                        fa < fb,
                        p > 0,
                ;
            }
        } else {
            let q = power2::pow2((eb - 1) as nat);
            power2::lemma_pow2_pos((eb - 1) as nat);
            assert(0x80_0000 * q <= (0x80_0000 + fb) * q) by (nonlinear_arith)
                requires
                    q > 0,
            ;
            if ea > 0 {
                let p = power2::pow2((ea - 1) as nat);
                power2::lemma_pow2_pos((ea - 1) as nat);
                power2::lemma_pow2_unfold(ea);
                if ea < eb - 1 {
                    power2::lemma_pow2_strictly_increases(ea, (eb - 1) as nat);
                }
                assert((0x80_0000 + fa) * p < 0x80_0000 * q) by (nonlinear_arith)
                    requires
                        fa < 0x80_0000,
                        p > 0,
                        2 * p <= q,
                ;
            }
        }
    }
}

/// Only the pattern zero stands for the magnitude zero.
proof fn lemma_magnitude_zero(a: nat)
    ensures
        magnitude(0) == 0,
        a > 0 ==> magnitude(a) > 0,
{
    lemma_magnitude_order(0, a);
}

/// Below the exponent of one degree there is less than one degree.
proof fn lemma_small_magnitude(low: nat)
    requires
        low / 0x80_0000 < 127,
    ensures
        magnitude(low) as int / degree() as int == 0,
{
    lemma_magnitude_order(low, 127 * 0x80_0000);
    lemma_whole_pattern(127);
    power2::lemma_pow2_pos(149);
    assert(0x80_0000 * power2::pow2(126) == degree()) by {
        power2::lemma_pow2_adds(23, 126);
        power2::lemma2_to64();
    }
    div_mod::lemma_basic_div(magnitude(low) as int, degree() as int);
}

/// The pattern of an exponent alone.
proof fn lemma_whole_pattern(exponent: nat)
    requires
        exponent > 0,
    ensures
        magnitude(exponent * 0x80_0000) == 0x80_0000 * power2::pow2((exponent - 1) as nat),
{
    assert((exponent * 0x80_0000) / 0x80_0000 == exponent);
    assert((exponent * 0x80_0000) % 0x80_0000 == 0);
}

/// From the exponent of 256 degrees on there are more than 255 degrees.
proof fn lemma_large_magnitude(low: nat)
    requires
        low / 0x80_0000 >= 135,
    ensures
        magnitude(low) as int / degree() as int > 255,
{
    lemma_magnitude_order(135 * 0x80_0000, low);
    lemma_whole_pattern(135);
    power2::lemma_pow2_pos(149);
    assert(0x80_0000 * power2::pow2(134) == 256 * degree()) by {
        power2::lemma_pow2_adds(23, 134);
        power2::lemma_pow2_adds(8, 149);
        power2::lemma2_to64();
    }
    let d = degree() as int;
    let m = magnitude(low) as int;
    assert(m / d >= 256) by {
        div_mod::lemma_div_is_ordered(256 * d, m, d);
        div_mod::lemma_div_by_multiple(256, d);
    }
}

/// In between, the whole degrees are the leading bits of the significand.
proof fn lemma_middle_magnitude(low: nat)
    requires
        127 <= low / 0x80_0000 < 135,
    ensures
        ({
            let exponent = low / 0x80_0000;
            let significand = 0x80_0000 + low % 0x80_0000;
            let whole = significand as int / power2::pow2((150 - exponent) as nat) as int;
            &&& magnitude(low) as int / degree() as int == whole
            &&& 0 <= whole <= 255
        }),
{
    let exponent = low / 0x80_0000;
    let significand = 0x80_0000 + low % 0x80_0000;
    let p = power2::pow2((exponent - 1) as nat) as int;
    let q = power2::pow2((150 - exponent) as nat) as int;
    power2::lemma_pow2_pos((exponent - 1) as nat);
    power2::lemma_pow2_pos((150 - exponent) as nat);
    power2::lemma_pow2_adds((exponent - 1) as nat, (150 - exponent) as nat);
    div_mod::lemma_div_multiples_vanish_quotient(p, significand as int, q);
    assert(magnitude(low) == p * significand) by (nonlinear_arith)
        requires
            magnitude(low) == significand * p,
    ;
    assert(q >= 0x1_0000) by {
        power2::lemma2_to64();
        if 150 - exponent > 16 {
            power2::lemma_pow2_strictly_increases(
                16,
                (150 - exponent) as nat,
            );
        }
    }
    let whole = significand as int / q;
    div_mod::lemma_fundamental_div_mod(significand as int, q);
    div_mod::lemma_div_pos_is_pos(significand as int, q);
    assert(whole <= 255) by (nonlinear_arith)
        requires
            significand < 0x100_0000,
            q >= 0x1_0000,
            significand == q * whole + significand as int % q,
            significand as int % q >= 0,
    ;
}

/// Doubling the significand and lowering the exponent by one keeps the value.
proof fn lemma_doubling(significand: nat, degrees: nat, exponent: nat)
    requires
        0 < degrees,
        0 < significand < 0x80_0000,
        127 <= exponent <= 150,
        significand * power2::pow2((exponent - 1) as nat) == degrees * degree(),
        significand == degrees * power2::pow2((150 - exponent) as nat),
    ensures
        exponent > 127,
        (2 * significand) * power2::pow2((exponent - 2) as nat) == degrees * degree(),
        2 * significand == degrees * power2::pow2((151 - exponent) as nat),
{
    power2::lemma2_to64();
    let p = power2::pow2((150 - exponent) as nat);
    if exponent == 127 {
        assert(degrees * 0x80_0000 >= 0x80_0000) by (nonlinear_arith)
            requires
                degrees > 0,
        ;
        assert(false);
    }
    power2::lemma_pow2_unfold((exponent - 1) as nat);
    power2::lemma_pow2_unfold((151 - exponent) as nat);
    let q = power2::pow2((exponent - 2) as nat);
    assert((2 * significand) * q == significand * (2 * q)) by (nonlinear_arith);
    assert(2 * (degrees * p) == degrees * (2 * p)) by (nonlinear_arith);
}

// ---------------------------------------------------------------------------
// Laws
// ---------------------------------------------------------------------------

/// A whole number of degrees becomes a temperature and comes back unchanged.
pub proof fn law_degrees_round_trip(degrees: u8, t: Temperature)
    requires
        !t.is_nan(),
        t.steps() == degrees * degree(),
    ensures
        t.whole_degrees_spec() == degrees,
{
    power2::lemma_pow2_pos(149);
    let d = degree() as int;
    div_mod::lemma_div_by_multiple(degrees as int, d);
    assert(degrees * d >= 0) by (nonlinear_arith)
        requires
            d > 0,
    ;
}

/// Zero is the lowest magnitude, and each pattern lies one unit of its last place
/// below the next: the smallest step there is up to the exponent one, and twice
/// as much for each exponent from there on.
pub proof fn law_next_pattern(low: nat)
    ensures
        magnitude(0) == 0,
        low < 0x100_0000 ==> magnitude(low + 1) == magnitude(low) + 1,
        low >= 0x80_0000 ==> magnitude(low + 1) == magnitude(low) + power2::pow2(
            (low / 0x80_0000 - 1) as nat,
        ),
{
    power2::lemma2_to64();
    let e = low / 0x80_0000;
    let f = low % 0x80_0000;
    if e == 0 {
        if f + 1 == 0x80_0000 {
            assert((low + 1) / 0x80_0000 == 1 && (low + 1) % 0x80_0000 == 0);
            assert((0x80_0000 + 0) * power2::pow2(0) == 0x80_0000) by (nonlinear_arith)
                requires
                    power2::pow2(0) == 1,
            ;
        }
    } else {
        let p = power2::pow2((e - 1) as nat);
        power2::lemma_pow2_unfold(e);
        if f + 1 == 0x80_0000 {
            assert((low + 1) / 0x80_0000 == e + 1 && (low + 1) % 0x80_0000 == 0);
            assert((0x80_0000 + 0) * (2 * p) == (0x80_0000 + f) * p + p) by (nonlinear_arith)
                requires
                    f + 1 == 0x80_0000,
            ;
        } else {
            assert((low + 1) / 0x80_0000 == e && (low + 1) % 0x80_0000 == f + 1);
            assert((0x80_0000 + (f + 1)) * p == (0x80_0000 + f) * p + p) by (nonlinear_arith);
        }
    }
}

/// The highest bit is the sign, the next eight are the exponent: with all of
/// these set and a fraction behind them a pattern stands for no number, and any
/// other pattern stands for its magnitude or the opposite.
pub proof fn law_pattern(t: Temperature)
    ensures
        t.is_nan() <==> (t.bits / 0x80_0000) % 256 == 255 && t.bits % 0x80_0000 != 0,
        t.bits < 0x8000_0000 ==> t.steps() == magnitude(t.bits as nat),
        t.bits >= 0x8000_0000 ==> t.steps() == -magnitude((t.bits - 0x8000_0000) as nat),
        t.negative() <==> t.bits >= 0x8000_0000,
{
}

/// Temperatures are ordered as the numbers that they stand for; what is no
/// number is neither equal to anything nor below or above it.
pub proof fn law_order(a: Temperature, b: Temperature)
    ensures
        a.is_nan() || b.is_nan() ==> !a.at_most_spec(b) && !a.equals_spec(b) && !a.below_spec(b),
        !a.is_nan() && !b.is_nan() ==> {
            &&& a.at_most_spec(b) <==> a.steps() <= b.steps()
            &&& a.equals_spec(b) <==> a.steps() == b.steps()
            &&& a.below_spec(b) <==> a.steps() < b.steps()
        },
{
}

/// The whole degrees are the largest number of degrees that is not above the
/// temperature, within the range of a byte; below zero, and of what is no
/// number, they are none. A degree is 2 to the power of 149 steps.
pub proof fn law_whole_degrees(t: Temperature)
    ensures
        t.is_nan() || t.steps() < 0 ==> t.whole_degrees_spec() == 0,
        !t.is_nan() && 0 <= t.steps() < 256 * power2::pow2(149) ==> {
            let whole = t.whole_degrees_spec();
            whole * power2::pow2(149) <= t.steps() < (whole + 1) * power2::pow2(149)
        },
        !t.is_nan() && t.steps() >= 256 * power2::pow2(149) ==> t.whole_degrees_spec() == 255,
        degree() == power2::pow2(149),
{
    let d = power2::pow2(149) as int;
    let s = t.steps();
    power2::lemma_pow2_pos(149);
    if !t.is_nan() && s >= 0 {
        let q = s / d;
        div_mod::lemma_fundamental_div_mod(s, d);
        assert(0 <= s % d < d) by {
            div_mod::lemma_mod_bound(s, d);
        }
        assert(q * d <= s < (q + 1) * d) by (nonlinear_arith)
            requires
                s == d * q + s % d,
                0 <= s % d < d,
        ;
        assert(q >= 0) by {
            div_mod::lemma_div_pos_is_pos(s, d);
        }
        assert(s < 256 * d ==> q < 256) by (nonlinear_arith)
            requires
                q * d <= s,
                d > 0,
        ;
        assert(s >= 256 * d ==> q >= 256) by (nonlinear_arith)
            requires
                s < (q + 1) * d,
                d > 0,
        ;
    }
}

} // verus!
