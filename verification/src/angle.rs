//! Sweep-angle calculator: maps a clock unit value and its modulus to an
//! exact angle, anchored at the fixed reference direction (12 o'clock).

use vstd::arithmetic::mul::lemma_mul_inequality;
use vstd::prelude::*;

verus! {

/// The fixed reference direction in degrees: 270, the 12 o'clock position,
/// so that a fraction of zero starts an arc at the top of the circle.
pub const REFERENCE_DEGREES: u64 = 270;

/// Degrees in one full turn.
pub const FULL_TURN_DEGREES: u64 = 360;

/// An exact angle, stored as the fraction `num / den` in degrees.
///
/// A sweep angle is the rational number `270 + 360 * unit / modulus` degrees,
/// so it is kept as a numerator over a positive denominator rather than
/// rounded to any fixed precision.
#[derive(Clone, Copy, Debug, PartialEq, Eq, Structural)]
pub struct Angle {
    /// Numerator, in degrees.
    pub num: u64,
    /// Denominator; positive in every well-formed angle.
    pub den: u64,
}

impl Angle {
    /// An angle is well formed when its denominator is positive.
    pub open spec fn wf(self) -> bool {
        self.den > 0
    }

    /// `self` is at most `other`: `self.num / self.den <= other.num / other.den`,
    /// compared by cross multiplication.
    pub open spec fn spec_le(self, other: Angle) -> bool {
        self.num * other.den <= other.num * self.den
    }

    /// The angle equals `deg` whole degrees.
    pub open spec fn is_degrees(self, deg: int) -> bool {
        self.num == deg * self.den
    }
}

/// Numerator of the sweep angle for `unit` out of `modulus`, over the
/// denominator `modulus`: the angle is `270 + 360 * unit / modulus` degrees.
pub open spec fn sweep_num(unit: int, modulus: int) -> int {
    270 * modulus + 360 * unit
}

/// The reference angle as a stored value: 270 degrees over denominator one.
pub open spec fn spec_reference_angle() -> Angle {
    Angle { num: 270, den: 1 }
}

/// The sweep angle for `unit` out of `modulus` as a stored value; exact
/// whenever `0 <= unit < modulus <= u64::MAX / 630`.
pub open spec fn spec_sweep(unit: int, modulus: int) -> Angle {
    Angle { num: sweep_num(unit, modulus) as u64, den: modulus as u64 }
}

/// The fixed reference direction as a stored angle.
pub fn reference_angle() -> (r: Angle)
    ensures
        r == spec_reference_angle(),
        r.wf(),
        r.is_degrees(270),
{
    Angle { num: REFERENCE_DEGREES, den: 1 }
}

/// The sweep angle for a clock unit value: the fixed reference direction plus
/// the fraction `unit / modulus` of a full turn, exact as a rational number of
/// degrees.
pub fn sweep_angle(unit: u64, modulus: u64) -> (r: Angle)
    requires
        unit < modulus,
        modulus <= u64::MAX / 630,
    ensures
        r.wf(),
        r.den == modulus,
        r.num == sweep_num(unit as int, modulus as int),
        r == spec_sweep(unit as int, modulus as int),
        unit == 0 ==> r.is_degrees(270),
        r.num < 630 * r.den,
{
    Angle { num: REFERENCE_DEGREES * modulus + FULL_TURN_DEGREES * unit, den: modulus }
}

/// The hour of the day normalized to the 12-hour dial: hour `0` maps to `0`,
/// an hour of `12` or more loses `12`, anything else is unchanged.
pub open spec fn normalize_hour(h: int) -> int {
    if h == 0 {
        0
    } else if h >= 12 {
        h - 12
    } else {
        h
    }
}

/// Normalizes an hour of the day to the 12-hour dial used by the hour ring.
pub fn get_hr(n: u8) -> (r: u8)
    ensures
        r == normalize_hour(n as int),
        n < 24 ==> r < 12,
{
    if n == 0 {
        0
    } else if n >= 12 {
        n - 12
    } else {
        n
    }
}

/// Law: for one modulus the sweep angle is monotonic non-decreasing in the
/// unit value, and the unit value zero gives exactly the reference angle.
pub proof fn lemma_sweep_angle_monotonic(u1: int, u2: int, m: int)
    requires
        0 <= u1 <= u2 < m,
        m <= u64::MAX / 630,
    ensures
        spec_sweep(u1, m).num <= spec_sweep(u2, m).num,
        spec_sweep(u1, m).spec_le(spec_sweep(u2, m)),
        spec_sweep(0, m).is_degrees(270),
{
    lemma_mul_inequality(spec_sweep(u1, m).num as int, spec_sweep(u2, m).num as int, m);
}

} // verus!
