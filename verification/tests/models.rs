use untitled_physics_simulator::entity_builder::RigidBody;
use untitled_physics_simulator::kinematics::{ExternalForce, Quat, Real, Transform, Vec3, Velocity};
use untitled_physics_simulator::models::drag::{duplicate_reals, DragCurve};
use untitled_physics_simulator::models::gun::{
    fire_mission_row, ExternalImpulse, FireMission, Gun, Launch,
};
use untitled_physics_simulator::models::test_model::TestModel;
use untitled_physics_simulator::models::warhead::{Warhead, WarheadType};
use untitled_physics_simulator::table::{Cell, DataType};

fn num(x: f32) -> Real {
    Real::from_bits(x.to_bits())
}

#[test]
fn warhead_is_always_fragmentation() {
    for kind in ["Frag", "Blast", "", "anything"] {
        assert_eq!(Warhead::new(kind.to_string()).wh_type, WarheadType::Frag);
    }
    assert_eq!(Warhead::default().wh_type, WarheadType::Frag);
}

#[test]
fn test_model_holds_its_text() {
    assert_eq!(TestModel::new("Bkah".to_string()).test, "Bkah");
    assert_eq!(TestModel::default().test, "");
    let model = TestModel::new("x".to_string());
    assert_eq!(model.duplicate(), model);
}

#[test]
fn gun_holds_its_rounds() {
    assert_eq!(Gun::new(0).ammo_count, 0);
    assert_eq!(Gun::new(12).ammo_count, 12);
    assert_eq!(Gun::new(u32::MAX).ammo_count, u32::MAX);
    assert_eq!(Gun::default().ammo_count, 0);
}

#[test]
fn firing_spends_one_round_and_launches_a_bullet() {
    let mut gun = Gun::new(2);
    let launch = Launch {
        impulse: ExternalImpulse {
            impulse: Vec3::new(num(50000.0), num(0.0), num(0.0)),
            torque_impulse: Vec3::new(num(160.0), num(0.0), num(0.0)),
        },
        transform: Transform::from_xyz(num(1.0), num(2.0), num(3.0)),
    };
    let bullet = gun.fire(launch);
    assert_eq!(gun.ammo_count, 1);
    assert_eq!(bullet.rigid_body, RigidBody::Dynamic);
    assert_eq!(f32::from_bits(bullet.collider_radius.bits), 1.0);
    assert_eq!(f32::from_bits(bullet.mass.bits), 100.0);
    assert_eq!(f32::from_bits(bullet.gravity_scale.bits), 1.0);
    assert!(bullet.ccd);
    assert_eq!(bullet.impulse, launch.impulse);
    assert_eq!(bullet.transform, launch.transform);
    assert_eq!(bullet.external_force, ExternalForce::default());
    assert_eq!(bullet.velocity, Velocity::zero());
    assert_eq!(bullet.record.name, "Bullet");
    assert_eq!(bullet.record.tables.len(), 0);
    let _ = gun.fire(launch);
    assert_eq!(gun.ammo_count, 0);
}

#[test]
fn fire_mission_log_holds_issue_and_execution_time() {
    let mission = FireMission {
        time: 100,
        muzzle_velocity: num(50000.0),
        azimuth: Quat::identity(),
        elevation: Quat::identity(),
    };
    let (table_name, row) = fire_mission_row(&mission, 250);
    assert_eq!(table_name, "FireMissionsExecuted");
    assert_eq!(row.height(), 1);
    assert_eq!(row.width(), 2);
    assert_eq!(row.field(0).name, "FireMissionIssueTime");
    assert_eq!(row.field(1).name, "FireMissionExecutedTime");
    assert_eq!(row.field(0).dtype, DataType::Time);
    assert_eq!(row.field(1).dtype, DataType::Time);
    assert_eq!(*row.cell(0, 0), Cell::Time(100));
    assert_eq!(*row.cell(0, 1), Cell::Time(250));
}

#[test]
fn flat_drag_curve_spans_mach_zero_to_five() {
    let curve = DragCurve::new();
    let cd: Vec<f32> = curve.cd.iter().map(|r| f32::from_bits(r.bits)).collect();
    let mach: Vec<f32> = curve.mach_number.iter().map(|r| f32::from_bits(r.bits)).collect();
    assert_eq!(cd, vec![0.2938, 0.2938]);
    assert_eq!(mach, vec![0.0, 5.0]);
    assert_eq!(curve.duplicate(), curve);
    assert!(DragCurve::default().cd.is_empty());
    assert!(DragCurve::default().mach_number.is_empty());
    assert_eq!(duplicate_reals(&curve.cd), curve.cd);
}
