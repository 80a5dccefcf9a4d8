//! The edge-case policy of the force model.
//!
//! The force model divides by the speed and normalizes vectors, and a body is
//! legitimately at rest when it is spawned. Whatever the arithmetic makes of
//! such a state, the contribution that reaches the accumulator is decided
//! here, on the encodings of the numbers: a body whose speed is negligible
//! gets the zero vector, and so does a contribution that is not finite. An
//! angle of attack is zero for such a body, and is never outside the half
//! turn.
//!
//! In the single-precision encoding the sign is the top bit, the exponent the
//! next eight bits; an exponent of all ones encodes an infinity or no number
//! at all. Among the numbers that are not negative, the smaller number has the
//! smaller encoding.

use crate::kinematics::{Real, Vec3};
use vstd::prelude::*;

verus! {

/// The encoding of the speed below which a body is at rest for the air: one
/// millionth of a metre per second.
pub const MIN_SPEED_BITS: u32 = 0x3586_37bd;

/// The encoding of the half turn, pi.
pub const HALF_TURN_BITS: u32 = 0x4049_0fdb;

impl Real {
    /// The exponent field of the encoding.
    pub open spec fn exponent(&self) -> u32 {
        (self.bits >> 23) & 0xff
    }

    /// Whether the encoding is that of a finite number: neither an infinity
    /// nor no number.
    pub open spec fn is_finite(&self) -> bool {
        self.exponent() != 0xff
    }

    /// Whether the encoding is that of a finite number.
    pub fn finite(&self) -> (finite: bool)
        ensures
            finite == self.is_finite(),
    {
        (self.bits >> 23) & 0xff != 0xff
    }

    /// Whether the number, a speed, is negligible: it is not negative and
    /// below the least speed that counts.
    pub open spec fn is_negligible(&self) -> bool {
        self.bits < MIN_SPEED_BITS
    }

    /// Whether the number, a speed, is negligible.
    pub fn negligible(&self) -> (negligible: bool)
        ensures
            negligible == self.is_negligible(),
    {
        self.bits < MIN_SPEED_BITS
    }

    /// Whether the number is an angle within the half turn: from zero to pi.
    pub open spec fn is_in_half_turn(&self) -> bool {
        self.bits <= HALF_TURN_BITS
    }
}

impl Vec3 {
    /// Whether every coordinate is a finite number.
    pub open spec fn is_finite(&self) -> bool {
        self.x.is_finite() && self.y.is_finite() && self.z.is_finite()
    }

    /// Whether every coordinate is a finite number.
    pub fn finite(&self) -> (finite: bool)
        ensures
            finite == self.is_finite(),
    {
        self.x.finite() && self.y.finite() && self.z.finite()
    }
}

/// What a contribution of the force model comes to for a body of the given
/// speed.
pub open spec fn guarded(speed: Real, contribution: Vec3) -> Vec3 {
    if speed.is_negligible() || !contribution.is_finite() {
        Vec3::spec_zero()
    } else {
        contribution
    }
}

/// What an angle of attack comes to for a body of the given speed.
pub open spec fn guarded_angle(speed: Real, angle: Real) -> Real {
    if speed.is_negligible() || !angle.is_in_half_turn() {
        Real::spec_zero()
    } else {
        angle
    }
}

/// The contribution that reaches the accumulator: the computed one, or the
/// zero vector where the speed is negligible or the computed contribution is
/// not finite.
pub fn guard_contribution(speed: Real, contribution: Vec3) -> (out: Vec3)
    ensures
        out == guarded(speed, contribution),
{
    if speed.negligible() || !contribution.finite() {
        Vec3::zero()
    } else {
        contribution
    }
}

/// The angle of attack that the force model works with: the computed one, or
/// zero where the speed is negligible or the computed angle is no angle
/// within the half turn.
pub fn guard_angle_of_attack(speed: Real, angle: Real) -> (out: Real)
    ensures
        out == guarded_angle(speed, angle),
{
    if speed.negligible() || angle.bits > HALF_TURN_BITS {
        Real::zero()
    } else {
        angle
    }
}

/// A guarded contribution is finite whatever was computed, and it is the zero
/// vector for every body whose speed is negligible, a body at rest among
/// them.
pub proof fn lemma_guarded_contribution(speed: Real, contribution: Vec3)
    ensures
        guarded(speed, contribution).is_finite(),
        speed.is_negligible() ==> guarded(speed, contribution) == Vec3::spec_zero(),
        Real::spec_zero().is_negligible(),
        guarded(Real::spec_zero(), contribution) == Vec3::spec_zero(),
{
    assert((0u32 >> 23) & 0xff == 0) by (bit_vector);
}

/// A guarded angle of attack lies within the half turn, from zero to pi,
/// whatever was computed: it is a finite number and not negative. It is zero
/// for every body whose speed is negligible, a body at rest among them.
pub proof fn lemma_guarded_angle(speed: Real, angle: Real)
    ensures
        guarded_angle(speed, angle).is_in_half_turn(),
        guarded_angle(speed, angle).is_finite(),
        guarded_angle(speed, angle).bits >> 31 == 0,
        speed.is_negligible() ==> guarded_angle(speed, angle) == Real::spec_zero(),
        guarded_angle(Real::spec_zero(), angle) == Real::spec_zero(),
{
    let bits = guarded_angle(speed, angle).bits;
    assert(bits <= 0x4049_0fdb ==> (bits >> 23) & 0xff != 0xff && bits >> 31 == 0) by (bit_vector);
}

} // verus!
