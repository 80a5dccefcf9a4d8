use untitled_physics_simulator::entity_builder::{Entity, Name, PSComponent};
use untitled_physics_simulator::fire_control::{execute_fire_mission, next_gun};
use untitled_physics_simulator::geometry_parsing::{duplicate_indices, grab_trimesh_data};
use untitled_physics_simulator::kinematics::{Quat, Real, Transform, Vec3};
use untitled_physics_simulator::lifecycle::{
    update_record_event_reader, LiveEntity, Telemetry, TickOutcome, World,
};
use untitled_physics_simulator::models::gun::{ExternalImpulse, FireMission, Gun, Launch};
use untitled_physics_simulator::models::test_model::TestModel;
use untitled_physics_simulator::records::Record;
use untitled_physics_simulator::simulation_builder::Simulation;
use untitled_physics_simulator::table::Cell;
use untitled_physics_simulator::timer::{advance_world_time, WorldTimer};

fn num(x: f32) -> Real {
    Real::from_bits(x.to_bits())
}

fn name(s: &str) -> String {
    s.to_string()
}

fn triple(x: f32, y: f32, z: f32) -> (Real, Real, Real) {
    (num(x), num(y), num(z))
}

fn launch() -> Launch {
    Launch {
        impulse: ExternalImpulse {
            impulse: Vec3::new(num(1.0), num(0.0), num(0.0)),
            torque_impulse: Vec3::zero(),
        },
        transform: Transform::from_xyz(num(9.0), num(8.0), num(7.0)),
    }
}

fn mission(time: u64) -> FireMission {
    FireMission {
        time,
        muzzle_velocity: num(50000.0),
        azimuth: Quat::identity(),
        elevation: Quat::identity(),
    }
}

fn gun_entity(index: u32, ammo: u32, can_fire: bool) -> LiveEntity {
    LiveEntity {
        index,
        name: Some(Name(name("gun"))),
        telemetry: Telemetry::Idle,
        transform: Some(Transform::from_xyz(num(0.0), num(0.0), num(0.0))),
        physics: None,
        gun: Some(Gun::new(ammo)),
        can_fire,
        test_model: None,
    }
}

#[test]
fn created_entity_comes_alive_pending_and_placed() {
    let mut sim = Simulation::new(num(0.1), num(1.0), num(30.0));
    assert_eq!(
        sim.create_entity(
            3,
            name("shell"),
            name("Dynamic"),
            triple(1.0, 2.0, 3.0),
            triple(4.0, 5.0, 6.0),
            name("shell.obj"),
        ),
        Ok(())
    );
    let live = LiveEntity::spawn(&sim.scene.entities[0]);
    assert_eq!(live.index, 3);
    assert_eq!(live.name, Some(Name(name("shell"))));
    assert!(matches!(&live.telemetry, Telemetry::Pending(marker) if marker.0 == "shell"));
    assert_eq!(live.transform, Some(Transform::from_xyz(num(1.0), num(2.0), num(3.0))));
    assert_eq!(live.physics, None);
    assert_eq!(live.gun, None);
    assert!(!live.can_fire);
    assert_eq!(live.test_model, None);
}

#[test]
fn attached_components_come_alive_and_the_last_of_a_kind_wins() {
    let mut e = Entity::new(name("Fixed"), name("tank")).unwrap();
    let _ = e.add_transform(num(1.0), num(1.0), num(1.0));
    let _ = e.add_transform(num(2.0), num(2.0), num(2.0));
    let e = Gun::new(3).attach_to_entity(&mut e);
    let mut e = e;
    let e = Gun::new(8).attach_to_entity(&mut e);
    let mut e = e;
    let e = TestModel::new(name("Bkah")).attach_to_entity(&mut e);
    let mut sim = Simulation::new(num(0.1), num(1.0), num(30.0));
    assert_eq!(sim.add_entity(e), Ok(()));
    let live = LiveEntity::spawn(&sim.scene.entities[0]);
    assert_eq!(live.index, 0);
    assert_eq!(live.name, Some(Name(name("tank"))));
    assert_eq!(live.transform, Some(Transform::from_xyz(num(2.0), num(2.0), num(2.0))));
    assert_eq!(live.gun, Some(Gun::new(8)));
    assert!(live.can_fire);
    assert_eq!(live.test_model, Some(TestModel::new(name("Bkah"))));
    assert!(matches!(live.telemetry, Telemetry::Pending(_)));
}

#[test]
fn entity_without_marker_comes_alive_idle() {
    let mut sim = Simulation::new(num(0.1), num(1.0), num(30.0));
    let e = Entity { name: name("ground"), components: Vec::new() };
    assert_eq!(sim.add_entity(e), Ok(()));
    let live = LiveEntity::spawn(&sim.scene.entities[0]);
    assert!(matches!(live.telemetry, Telemetry::Idle));
    assert_eq!(live.name, Some(Name(name("ground"))));
    assert_eq!(live.transform, None);
}

#[test]
fn a_built_simulation_runs_to_its_aggregate() {
    let mut sim = Simulation::new(num(0.1), num(1.0), num(30.0));
    for (index, entity_name) in [(0u32, "a"), (1, "b")] {
        assert_eq!(
            sim.create_entity(
                index,
                name(entity_name),
                name("Dynamic"),
                triple(0.0, 0.0, 0.0),
                triple(0.0, 0.0, 0.0),
                name("x.obj"),
            ),
            Ok(())
        );
    }
    let mut world = World::new(WorldTimer::new(1_000_000_000, 100_000_000));
    world.spawn_scene(&sim.scene);
    assert_eq!(world.entities.len(), 2);
    let mut ticks = 0;
    let aggregate = loop {
        ticks += 1;
        match world.tick() {
            TickOutcome::Finished { aggregate, .. } => break aggregate,
            TickOutcome::Running { .. } => {},
            TickOutcome::Stopped => panic!("the run had not ended"),
        }
    };
    assert_eq!(ticks, 11);
    assert_eq!(aggregate.len(), 2);
    for record in ["a_0", "b_1"] {
        let tables = aggregate.get(&name(record)).unwrap();
        assert_eq!(tables.get(&name("Position")).unwrap().height(), 11);
    }
}

#[test]
fn next_gun_skips_what_cannot_fire() {
    let mut placeless = gun_entity(2, 5, true);
    placeless.transform = None;
    let mut unarmed = gun_entity(3, 5, true);
    unarmed.gun = None;
    let entities = vec![
        gun_entity(0, 5, false),
        gun_entity(1, 5, true),
        placeless,
        unarmed,
        gun_entity(4, 5, true),
    ];
    assert!(!entities[0].may_execute());
    assert!(entities[1].may_execute());
    assert_eq!(next_gun(&entities, 0), Some(1));
    assert_eq!(next_gun(&entities, 1), Some(1));
    assert_eq!(next_gun(&entities, 2), Some(4));
    assert_eq!(next_gun(&entities, 5), None);
    assert_eq!(next_gun(&entities, 99), None);
    assert_eq!(next_gun(&Vec::new(), 0), None);
}

#[test]
fn a_gun_fires_once_and_logs_the_mission_if_it_records() {
    let mut recording = gun_entity(1, 2, true);
    recording.telemetry = Telemetry::Recording(Record::new(name("gun_1")));
    let mut entities = vec![gun_entity(0, 7, true), recording];
    let mut timer = WorldTimer::new(1000, 250);
    advance_world_time(&mut timer);

    let (bullet, event) = execute_fire_mission(&mut entities, 0, &mission(100), launch(), &timer);
    assert!(event.is_none());
    assert_eq!(entities[0].gun, Some(Gun::new(6)));
    assert!(!entities[0].can_fire);
    assert_eq!(bullet.transform, launch().transform);
    assert_eq!(bullet.impulse, launch().impulse);
    assert_eq!(entities[1].gun, Some(Gun::new(2)));
    assert!(entities[1].can_fire);

    let (bullet, event) = execute_fire_mission(&mut entities, 1, &mission(100), launch(), &timer);
    let event = event.unwrap();
    assert_eq!(event.record, 1);
    assert_eq!(event.table_name, "FireMissionsExecuted");
    assert_eq!(*event.new_row.cell(0, 0), Cell::Time(100));
    assert_eq!(*event.new_row.cell(0, 1), Cell::Time(250));
    assert_eq!(entities[1].gun, Some(Gun::new(1)));
    assert!(!entities[1].can_fire);
    assert_eq!(next_gun(&entities, 0), None);

    assert!(update_record_event_reader(&mut entities, &vec![event]).is_empty());
    match &entities[1].telemetry {
        Telemetry::Recording(record) => {
            assert_eq!(record.row_count(&name("FireMissionsExecuted")), Some(1));
        },
        _ => panic!("the gun is recording"),
    }

    let live = bullet.into_live(42);
    assert_eq!(live.index, 42);
    assert_eq!(live.name, None);
    assert_eq!(live.transform, Some(launch().transform));
    assert!(matches!(&live.telemetry, Telemetry::Recording(record) if record.name == "Bullet"));
    assert!(!live.may_execute());
}

#[test]
fn a_bullet_is_recorded_from_its_first_tick_in_the_world() {
    let mut world = World::new(WorldTimer::new(25, 10));
    let mut gun = Gun::new(1);
    let bullet = gun.fire(launch());
    world.spawn(bullet.into_live(5));
    assert!(matches!(world.tick(), TickOutcome::Running { .. }));
    assert!(matches!(world.tick(), TickOutcome::Running { .. }));
    let aggregate = match world.tick() {
        TickOutcome::Finished { aggregate, .. } => aggregate,
        _ => panic!("the run ends on the third tick"),
    };
    let tables = aggregate.get(&name("Bullet")).unwrap();
    let position = tables.get(&name("Position")).unwrap();
    assert_eq!(position.height(), 3);
    assert_eq!(*position.cell(0, 1), Cell::Real(num(9.0)));
}

#[test]
fn vertices_are_read_three_coordinates_at_a_time() {
    let positions: Vec<Real> = [1.0f32, 2.0, 3.0, 4.0, 5.0, 6.0, 7.0, 8.0]
        .iter()
        .map(|x| num(*x))
        .collect();
    let indices = vec![0u32, 1, 0, 1, 0, 1];
    let (vertices, triangles) = grab_trimesh_data(&positions, &indices);
    assert_eq!(
        vertices,
        vec![Vec3::new(num(1.0), num(2.0), num(3.0)), Vec3::new(num(4.0), num(5.0), num(6.0))]
    );
    assert_eq!(triangles, indices);
    let (vertices, triangles) = grab_trimesh_data(&Vec::new(), &Vec::new());
    assert!(vertices.is_empty());
    assert!(triangles.is_empty());
    let (vertices, _) = grab_trimesh_data(&positions[..2].to_vec(), &indices);
    assert!(vertices.is_empty());
    assert_eq!(duplicate_indices(&indices), indices);
}
