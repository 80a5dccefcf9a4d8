//! Guns, the missions they are given and the bullets they fire.

use crate::entity_builder::{Component, ComponentView, Entity, PSComponent, RigidBody};
use crate::kinematics::{ExternalForce, Quat, Real, Transform, Vec3, Velocity};
use crate::recorders::{count_column, time_column, RecordTrait};
use crate::records::{Record, RecordView};
use crate::table::{columns_view, single_row, CellView, Column, ColumnView, Table};
use vstd::prelude::*;

verus! {

/// A gun with its rounds.
#[derive(Clone, Copy, Debug, PartialEq, Eq, Structural)]
pub struct Gun {
    pub ammo_count: u32,
}

/// The marker of a gun that has not fired yet.
#[derive(Clone, Copy, Debug, PartialEq, Eq, Structural)]
pub struct CanFire;

/// An order to fire.
#[derive(Clone, Copy, Debug, PartialEq, Eq, Structural)]
pub struct FireMission {
    /// When the order was issued.
    pub time: u64,
    pub muzzle_velocity: Real,
    pub azimuth: Quat,
    pub elevation: Quat,
}

/// The impulse that sets a bullet in motion.
#[derive(Clone, Copy, Debug, PartialEq, Eq, Structural)]
pub struct ExternalImpulse {
    pub impulse: Vec3,
    pub torque_impulse: Vec3,
}

/// What the direction of fire comes to for one gun and one mission: the
/// impulse on the bullet, and where the bullet starts and how it is turned.
#[derive(Clone, Copy, Debug, PartialEq, Eq, Structural)]
pub struct Launch {
    pub impulse: ExternalImpulse,
    pub transform: Transform,
}

/// A bullet as it leaves the gun.
pub struct Bullet {
    pub rigid_body: RigidBody,
    /// Radius of the ball that the bullet collides as.
    pub collider_radius: Real,
    pub mass: Real,
    pub impulse: ExternalImpulse,
    pub external_force: ExternalForce,
    pub velocity: Velocity,
    pub transform: Transform,
    pub record: Record,
    pub gravity_scale: Real,
    /// Whether collisions of the bullet are detected continuously.
    pub ccd: bool,
}

/// The encoding of the mass of a bullet, 100.
pub const BULLET_MASS_BITS: u32 = 0x42c8_0000;

impl Bullet {
    /// Whether this is the bullet that leaves a gun on `launch`: a dynamic
    /// ball of radius 1 and mass 100 under full gravity, with the impulse and
    /// at the place of the launch, at rest and free of forces, with an empty
    /// record of the name `Bullet`, and with its collisions detected
    /// continuously.
    pub open spec fn launched_by(&self, launch: Launch) -> bool {
        &&& self.rigid_body == RigidBody::Dynamic
        &&& self.collider_radius == (Real { bits: Real::ONE_BITS })
        &&& self.mass == (Real { bits: BULLET_MASS_BITS })
        &&& self.impulse == launch.impulse
        &&& self.external_force.is_zero()
        &&& self.velocity == (Velocity { linvel: Vec3::spec_zero(), angvel: Vec3::spec_zero() })
        &&& self.transform == launch.transform
        &&& self.record@ == (RecordView { name: "Bullet"@, tables: Map::empty() })
        &&& self.gravity_scale == (Real { bits: Real::ONE_BITS })
        &&& self.ccd
    }
}

impl Gun {
    /// A gun with `ammo_count` rounds.
    pub fn new(ammo_count: u32) -> (gun: Gun)
        ensures
            gun.ammo_count == ammo_count,
    {
        Gun { ammo_count }
    }

    /// Fires one round: the gun has one round less, and the bullet leaves
    /// with the impulse and from the place of `launch`, at rest and free of
    /// forces, with an empty record of the name `Bullet`.
    pub fn fire(&mut self, launch: Launch) -> (bullet: Bullet)
        requires
            old(self).ammo_count > 0,
        ensures
            final(self).ammo_count == old(self).ammo_count - 1,
            bullet.launched_by(launch),
    {
        let bullet = Bullet {
            rigid_body: RigidBody::Dynamic,
            collider_radius: Real::from_bits(Real::ONE_BITS),
            mass: Real::from_bits(BULLET_MASS_BITS),
            impulse: launch.impulse,
            external_force: ExternalForce::default(),
            velocity: Velocity::zero(),
            transform: launch.transform,
            record: Record::new("Bullet".to_owned()),
            gravity_scale: Real::from_bits(Real::ONE_BITS),
            ccd: true,
        };
        self.ammo_count = self.ammo_count - 1;
        bullet
    }
}

impl Default for Gun {
    /// A gun without rounds.
    fn default() -> (gun: Gun)
        ensures
            gun.ammo_count == 0,
    {
        Gun { ammo_count: 0 }
    }
}

impl PSComponent for Gun {
    open spec fn component_view(&self) -> ComponentView {
        ComponentView::Gun(*self)
    }

    /// A gun that is attached can fire.
    open spec fn companions(&self) -> Seq<ComponentView> {
        seq![ComponentView::CanFire]
    }

    fn attach_to_entity(&self, e: &mut Entity) -> (attached: Entity) {
        e.components.push(Component::CanFire(CanFire));
        assert(e@.components =~= old(e)@.components + self.companions());
        (*self)._attach_to_entity(e.duplicate())
    }

    fn into_component(self) -> (component: Component) {
        Component::Gun(self)
    }
}

/// The table `GunAmmo` holds the time and the rounds that the gun has left.
impl RecordTrait for Gun {
    open spec fn table_name(&self) -> Seq<char> {
        "GunAmmo"@
    }

    open spec fn columns(&self, time: u64) -> Seq<ColumnView> {
        seq![
            ColumnView { name: "Time"@, value: CellView::Time(time) },
            ColumnView { name: "AmmoCount"@, value: CellView::Count(self.ammo_count) },
        ]
    }

    proof fn lemma_fixed_schema(&self, time: u64, other: &Self, other_time: u64) {
        assert(single_row(self.columns(time)).schema =~= single_row(
            other.columns(other_time),
        ).schema);
    }

    fn new_row(&self, time: u64) -> (named: (String, Table)) {
        let mut columns: Vec<Column> = Vec::new();
        columns.push(time_column("Time", time));
        columns.push(count_column("AmmoCount", self.ammo_count));
        assert(columns_view(columns@) =~= self.columns(time));
        ("GunAmmo".to_owned(), Table::from_columns(columns))
    }
}

/// The named values of one line of the fire-mission log: when the mission
/// was issued and when it was executed.
pub open spec fn fire_mission_columns(issued: u64, executed: u64) -> Seq<ColumnView> {
    seq![
        ColumnView { name: "FireMissionIssueTime"@, value: CellView::Time(issued) },
        ColumnView { name: "FireMissionExecutedTime"@, value: CellView::Time(executed) },
    ]
}

/// One line of the fire-mission log, for the table `FireMissionsExecuted`.
pub fn fire_mission_row(mission: &FireMission, executed: u64) -> (named: (String, Table))
    ensures
        named.0@ == "FireMissionsExecuted"@,
        named.1@ == single_row(fire_mission_columns(mission.time, executed)),
{
    let mut columns: Vec<Column> = Vec::new();
    columns.push(time_column("FireMissionIssueTime", mission.time));
    columns.push(time_column("FireMissionExecutedTime", executed));
    assert(columns_view(columns@) =~= fire_mission_columns(mission.time, executed));
    ("FireMissionsExecuted".to_owned(), Table::from_columns(columns))
}

} // verus!
