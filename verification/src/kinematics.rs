//! Kinematic state as it crosses the boundary to the integrator.
//!
//! The integrator owns positions, orientations and velocities and computes
//! with them. This library only carries them: into telemetry rows, and out of
//! the force accumulators that it clears at the start of every tick.

use vstd::prelude::*;

verus! {

/// A real number, held as the bit pattern of its single-precision encoding.
#[derive(Clone, Copy, Debug, PartialEq, Eq, Structural)]
pub struct Real {
    pub bits: u32,
}

impl Real {
    /// The bit pattern of the number one.
    pub const ONE_BITS: u32 = 0x3f80_0000;

    /// The number with the given encoding.
    pub fn from_bits(bits: u32) -> (r: Real)
        ensures
            r.bits == bits,
    {
        Real { bits }
    }

    /// Positive zero: every bit is clear.
    pub fn zero() -> (r: Real)
        ensures
            r == Real::spec_zero(),
    {
        Real { bits: 0 }
    }

    pub open spec fn spec_zero() -> Real {
        Real { bits: 0 }
    }
}

/// A vector of three reals.
#[derive(Clone, Copy, Debug, PartialEq, Eq, Structural)]
pub struct Vec3 {
    pub x: Real,
    pub y: Real,
    pub z: Real,
}

impl Vec3 {
    pub fn new(x: Real, y: Real, z: Real) -> (v: Vec3)
        ensures
            v == (Vec3 { x, y, z }),
    {
        Vec3 { x, y, z }
    }

    /// The zero vector.
    pub fn zero() -> (v: Vec3)
        ensures
            v == Vec3::spec_zero(),
    {
        Vec3 { x: Real::zero(), y: Real::zero(), z: Real::zero() }
    }

    pub open spec fn spec_zero() -> Vec3 {
        Vec3 { x: Real::spec_zero(), y: Real::spec_zero(), z: Real::spec_zero() }
    }
}

/// A rotation as a unit quaternion.
#[derive(Clone, Copy, Debug, PartialEq, Eq, Structural)]
pub struct Quat {
    pub x: Real,
    pub y: Real,
    pub z: Real,
    pub w: Real,
}

impl Quat {
    /// The rotation that turns nothing.
    pub fn identity() -> (q: Quat)
        ensures
            q == Quat::spec_identity(),
    {
        Quat { x: Real::zero(), y: Real::zero(), z: Real::zero(), w: Real { bits: Real::ONE_BITS } }
    }

    pub open spec fn spec_identity() -> Quat {
        Quat {
            x: Real::spec_zero(),
            y: Real::spec_zero(),
            z: Real::spec_zero(),
            w: Real { bits: Real::ONE_BITS },
        }
    }
}

/// Position and orientation of an entity.
#[derive(Clone, Copy, Debug, PartialEq, Eq, Structural)]
pub struct Transform {
    pub translation: Vec3,
    pub rotation: Quat,
}

impl Transform {
    /// The transform at a position, turned by nothing.
    pub fn from_xyz(x: Real, y: Real, z: Real) -> (t: Transform)
        ensures
            t == (Transform { translation: Vec3 { x, y, z }, rotation: Quat::spec_identity() }),
    {
        Transform { translation: Vec3 { x, y, z }, rotation: Quat::identity() }
    }
}

/// Linear and angular velocity of an entity.
#[derive(Clone, Copy, Debug, PartialEq, Eq, Structural)]
pub struct Velocity {
    pub linvel: Vec3,
    pub angvel: Vec3,
}

impl Velocity {
    /// A velocity without spin.
    pub fn linear(linvel: Vec3) -> (v: Velocity)
        ensures
            v == (Velocity { linvel, angvel: Vec3::spec_zero() }),
    {
        Velocity { linvel, angvel: Vec3::zero() }
    }

    /// Rest.
    pub fn zero() -> (v: Velocity)
        ensures
            v == (Velocity { linvel: Vec3::spec_zero(), angvel: Vec3::spec_zero() }),
    {
        Velocity { linvel: Vec3::zero(), angvel: Vec3::zero() }
    }
}

/// The force and torque accumulator of one entity. The force model adds its
/// contributions to it during a tick and the integrator consumes it.
#[derive(Clone, Copy, Debug, PartialEq, Eq, Structural)]
pub struct ExternalForce {
    pub force: Vec3,
    pub torque: Vec3,
}

impl ExternalForce {
    /// The accumulator that holds no force and no torque.
    pub open spec fn spec_zero() -> ExternalForce {
        ExternalForce { force: Vec3::spec_zero(), torque: Vec3::spec_zero() }
    }

    /// Whether the accumulator holds no force and no torque.
    pub open spec fn is_zero(&self) -> bool {
        *self == ExternalForce::spec_zero()
    }
}

impl Default for ExternalForce {
    fn default() -> (f: ExternalForce)
        ensures
            f == ExternalForce::spec_zero(),
    {
        ExternalForce { force: Vec3::zero(), torque: Vec3::zero() }
    }
}

/// The accumulators of a tick that has not begun: as many as before, all zero.
pub open spec fn cleared(forces: Seq<ExternalForce>) -> Seq<ExternalForce> {
    Seq::new(forces.len(), |i: int| ExternalForce::spec_zero())
}

/// Clears every accumulator. Runs before any contribution of a tick is
/// added, so that nothing is carried over from the tick before.
pub fn reset_external_forces(forces: &mut Vec<ExternalForce>)
    ensures
        final(forces)@ == cleared(old(forces)@),
{
    let n = forces.len();
    let mut i: usize = 0;
    while i < n
        invariant
            i <= n,
            forces.len() == n,
            n == old(forces).len(),
            forall|k: int| 0 <= k < i ==> forces[k] == ExternalForce::spec_zero(),
        decreases n - i,
    {
        forces.set(i, ExternalForce { force: Vec3::zero(), torque: Vec3::zero() });
        i = i + 1;
    }
    assert(forces@ =~= cleared(old(forces)@));
}

/// After a reset every accumulator is exactly zero, whatever it held, and a
/// second reset changes nothing.
pub proof fn lemma_reset_clears(forces: Seq<ExternalForce>)
    ensures
        cleared(forces).len() == forces.len(),
        forall|i: int| 0 <= i < forces.len() ==> (#[trigger] cleared(forces)[i]).is_zero(),
        cleared(cleared(forces)) == cleared(forces),
{
    assert(cleared(cleared(forces)) =~= cleared(forces));
}

} // verus!
