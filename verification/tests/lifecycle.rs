use untitled_physics_simulator::entity_builder::{Name, RecordInitializer};
use untitled_physics_simulator::kinematics::{Real, Transform};
use untitled_physics_simulator::lifecycle::{
    exit_system, gun_update_record_event, initialize_records, position_update_record_event,
    record_more_physics, test_model_update_record_event, update_record_event_reader,
    DataframeStoreResource, LiveEntity, Telemetry, TickOutcome, World,
};
use untitled_physics_simulator::models::gun::Gun;
use untitled_physics_simulator::models::test_model::TestModel;
use untitled_physics_simulator::records::{Record, UpdateRecordEvent};
use untitled_physics_simulator::table::{Cell, Column, RecordError, Table};
use untitled_physics_simulator::timer::{advance_world_time, WorldTimer};

const SECOND: u64 = 1_000_000_000;

fn num(x: f32) -> Real {
    Real::from_bits(x.to_bits())
}

fn name(s: &str) -> String {
    s.to_string()
}

fn pending(index: u32, entity_name: &str) -> LiveEntity {
    LiveEntity {
        index,
        name: Some(Name(name(entity_name))),
        telemetry: Telemetry::Pending(RecordInitializer(name(entity_name))),
        transform: Some(Transform::from_xyz(num(0.0), num(1.0), num(2.0))),
        physics: None,
        gun: None,
        can_fire: false,
        test_model: None,
    }
}

fn record_of(entity: &LiveEntity) -> &Record {
    match &entity.telemetry {
        Telemetry::Recording(record) => record,
        _ => panic!("the entity is not recording"),
    }
}

fn rows(entity: &LiveEntity, table: &str) -> Option<usize> {
    record_of(entity).row_count(&name(table))
}

#[test]
fn pending_entity_begins_to_record_under_its_name_and_index() {
    let mut entities = vec![pending(7, "shell")];
    let mut timer = WorldTimer::new(SECOND, SECOND / 10);
    advance_world_time(&mut timer);
    initialize_records(&mut entities, &timer);
    let record = record_of(&entities[0]);
    assert_eq!(record.name, "shell_7");
    assert_eq!(record.tables.len(), 1);
    assert_eq!(record.row_count(&name("Position")), Some(1));
    assert_eq!(*record.table(&name("Position")).unwrap().cell(0, 0), Cell::Time(SECOND / 10));
    assert_eq!(entities[0].index, 7);
    assert_eq!(entities[0].name, Some(Name(name("shell"))));
}

#[test]
fn initialize_runs_once() {
    let mut entities = vec![pending(7, "shell")];
    let mut timer = WorldTimer::new(SECOND, 10);
    advance_world_time(&mut timer);
    initialize_records(&mut entities, &timer);
    advance_world_time(&mut timer);
    initialize_records(&mut entities, &timer);
    assert_eq!(rows(&entities[0], "Position"), Some(1));
    assert_eq!(
        *record_of(&entities[0]).table(&name("Position")).unwrap().cell(0, 0),
        Cell::Time(10)
    );
}

#[test]
fn every_behaviour_writes_its_first_row() {
    let mut e = pending(2, "tank");
    e.gun = Some(Gun::new(3));
    e.test_model = Some(TestModel::new(name("Bkah")));
    let mut entities = vec![e];
    let timer = WorldTimer::new(SECOND, 10);
    initialize_records(&mut entities, &timer);
    let record = record_of(&entities[0]);
    assert_eq!(record.tables.len(), 3);
    assert_eq!(record.row_count(&name("Position")), Some(1));
    assert_eq!(record.row_count(&name("GunAmmo")), Some(1));
    assert_eq!(record.row_count(&name("TestModel")), Some(1));
    assert_eq!(record.row_count(&name("Physics")), None);
    assert_eq!(*record.table(&name("GunAmmo")).unwrap().cell(0, 1), Cell::Count(3));
    assert_eq!(*record.table(&name("TestModel")).unwrap().cell(0, 1), Cell::Text(name("Bkah")));
}

#[test]
fn entities_without_marker_or_name_stay_as_they_are() {
    let mut idle = pending(0, "ground");
    idle.telemetry = Telemetry::Idle;
    let mut nameless = pending(1, "x");
    nameless.name = None;
    let mut entities = vec![idle, nameless];
    let timer = WorldTimer::new(SECOND, 10);
    initialize_records(&mut entities, &timer);
    assert!(matches!(entities[0].telemetry, Telemetry::Idle));
    assert!(matches!(entities[1].telemetry, Telemetry::Pending(_)));
}

#[test]
fn recorders_ask_only_for_recording_entities() {
    let mut recording = pending(0, "a");
    recording.telemetry = Telemetry::Recording(Record::new(name("a_0")));
    recording.gun = Some(Gun::new(9));
    let waiting = pending(1, "b");
    let mut placeless = pending(2, "c");
    placeless.telemetry = Telemetry::Recording(Record::new(name("c_2")));
    placeless.transform = None;
    placeless.test_model = Some(TestModel::new(name("v")));
    let entities = vec![recording, waiting, placeless];
    let mut timer = WorldTimer::new(SECOND, 5);
    advance_world_time(&mut timer);
    let positions = position_update_record_event(&entities, &timer);
    assert_eq!(positions.len(), 1);
    assert_eq!(positions[0].record, 0);
    assert_eq!(positions[0].table_name, "Position");
    assert_eq!(*positions[0].new_row.cell(0, 0), Cell::Time(5));
    let guns = gun_update_record_event(&entities, &timer);
    assert_eq!(guns.len(), 1);
    assert_eq!(guns[0].record, 0);
    assert_eq!(guns[0].table_name, "GunAmmo");
    let models = test_model_update_record_event(&entities, &timer);
    assert_eq!(models.len(), 1);
    assert_eq!(models[0].record, 2);
    assert_eq!(models[0].table_name, "TestModel");
    assert_eq!(record_more_physics(&entities, &timer).len(), 0);
}

#[test]
fn a_refused_update_does_not_stop_the_others() {
    let mut a = pending(0, "a");
    a.telemetry = Telemetry::Recording(Record::new(name("a_0")));
    let b = pending(1, "b");
    let mut entities = vec![a, b];
    let row = |t: u64| {
        Table::from_columns(vec![Column { name: name("Time"), value: Cell::Time(t) }])
    };
    let wide = Table::from_columns(vec![
        Column { name: name("Time"), value: Cell::Time(2) },
        Column { name: name("More"), value: Cell::Count(2) },
    ]);
    let typed = Table::from_columns(vec![Column { name: name("Time"), value: Cell::Count(2) }]);
    let events = vec![
        UpdateRecordEvent { record: 0, table_name: name("T"), new_row: row(1) },
        UpdateRecordEvent { record: 0, table_name: name("T"), new_row: wide },
        UpdateRecordEvent { record: 1, table_name: name("T"), new_row: row(1) },
        UpdateRecordEvent { record: 9, table_name: name("T"), new_row: row(1) },
        UpdateRecordEvent { record: 0, table_name: name("T"), new_row: typed },
        UpdateRecordEvent { record: 0, table_name: name("T"), new_row: row(3) },
        UpdateRecordEvent { record: 0, table_name: name("U"), new_row: row(4) },
    ];
    let failures = update_record_event_reader(&mut entities, &events);
    assert_eq!(
        failures,
        vec![
            (1, RecordError::ShapeMismatch),
            (2, RecordError::MissingRecord),
            (3, RecordError::MissingRecord),
            (4, RecordError::SchemaMismatch),
        ]
    );
    assert_eq!(rows(&entities[0], "T"), Some(2));
    assert_eq!(rows(&entities[0], "U"), Some(1));
    let table = record_of(&entities[0]).table(&name("T")).unwrap();
    assert_eq!(*table.cell(0, 0), Cell::Time(1));
    assert_eq!(*table.cell(1, 0), Cell::Time(3));
    assert!(matches!(entities[1].telemetry, Telemetry::Pending(_)));
    assert_eq!(entities.len(), 2);
}

#[test]
fn exit_system_gathers_only_when_time_is_up() {
    let mut a = pending(0, "a");
    let mut record = Record::new(name("a_0"));
    record.initialize_table(
        name("T"),
        Table::from_columns(vec![Column { name: name("Time"), value: Cell::Time(1) }]),
    );
    a.telemetry = Telemetry::Recording(record);
    let entities = vec![a, pending(1, "b")];
    let mut store = DataframeStoreResource::new();
    let mut timer = WorldTimer::new(10, 10);
    advance_world_time(&mut timer);
    assert!(!exit_system(&timer, &entities, &mut store));
    assert_eq!(store.len(), 0);
    advance_world_time(&mut timer);
    assert!(exit_system(&timer, &entities, &mut store));
    assert_eq!(store.len(), 1);
    let tables = store.get(&name("a_0")).unwrap();
    assert_eq!(tables.len(), 1);
    assert_eq!(tables.get(&name("T")).unwrap().height(), 1);
    assert!(store.get(&name("b_1")).is_none());
}

#[test]
fn later_record_of_the_same_name_replaces_the_earlier() {
    let mut first = pending(0, "Bullet");
    let mut r1 = Record::new(name("Bullet"));
    r1.initialize_table(
        name("First"),
        Table::from_columns(vec![Column { name: name("Time"), value: Cell::Time(1) }]),
    );
    first.telemetry = Telemetry::Recording(r1);
    let mut second = pending(1, "Bullet");
    let mut r2 = Record::new(name("Bullet"));
    r2.initialize_table(
        name("Second"),
        Table::from_columns(vec![Column { name: name("Time"), value: Cell::Time(2) }]),
    );
    second.telemetry = Telemetry::Recording(r2);
    let entities = vec![first, second];
    let mut store = DataframeStoreResource::new();
    let timer = WorldTimer { simulation_end_time: 0, tick_count: 1, dt: 1 };
    assert!(exit_system(&timer, &entities, &mut store));
    assert_eq!(store.len(), 1);
    let tables = store.get(&name("Bullet")).unwrap();
    assert!(tables.contains(&name("Second")));
    assert!(!tables.contains(&name("First")));
}

fn run(world: &mut World, limit: u64) -> (u64, Option<DataframeStoreResource>) {
    for tick in 1..=limit {
        assert!(world.timer.may_advance());
        match world.tick() {
            TickOutcome::Running { failures } => assert!(failures.is_empty()),
            TickOutcome::Finished { failures, aggregate } => {
                assert!(failures.is_empty());
                return (tick, Some(aggregate));
            },
            TickOutcome::Stopped => panic!("the run had not ended"),
        }
    }
    (limit, None)
}

#[test]
fn one_second_run_gives_eleven_rows_per_table() {
    let mut world = World::new(WorldTimer::new(SECOND, SECOND / 10));
    let mut e = pending(0, "shell");
    e.gun = Some(Gun::new(5));
    let handle = world.spawn(e);
    assert_eq!(handle, 0);
    let (tick, aggregate) = run(&mut world, 100);
    assert_eq!(tick, 11);
    let aggregate = aggregate.unwrap();
    assert_eq!(aggregate.len(), 1);
    let tables = aggregate.get(&name("shell_0")).unwrap();
    assert_eq!(tables.len(), 2);
    for table_name in ["Position", "GunAmmo"] {
        let table = tables.get(&name(table_name)).unwrap();
        assert_eq!(table.height(), 11);
        for i in 0..11usize {
            assert_eq!(*table.cell(i, 0), Cell::Time((i as u64 + 1) * (SECOND / 10)));
        }
    }
    assert!(world.finalized);
    assert_eq!(world.records.len(), 0);
    assert_eq!(world.timer.tick_count, 11);
}

#[test]
fn a_finished_world_stays_as_it_is() {
    let mut world = World::new(WorldTimer::new(10, 10));
    world.spawn(pending(0, "shell"));
    let (tick, aggregate) = run(&mut world, 10);
    assert_eq!(tick, 2);
    assert_eq!(aggregate.unwrap().get(&name("shell_0")).unwrap().get(&name("Position")).unwrap().height(), 2);
    for _ in 0..3 {
        assert!(matches!(world.tick(), TickOutcome::Stopped));
        assert_eq!(world.timer.tick_count, 2);
        assert_eq!(rows(&world.entities[0], "Position"), Some(2));
        assert!(world.finalized);
    }
}

#[test]
fn aggregate_holds_exactly_the_recording_entities() {
    let mut world = World::new(WorldTimer::new(25, 10));
    world.spawn(pending(0, "early"));
    let mut idle = pending(1, "ground");
    idle.telemetry = Telemetry::Idle;
    world.spawn(idle);
    let mut nameless = pending(2, "ghost");
    nameless.name = None;
    world.spawn(nameless);
    assert!(matches!(world.tick(), TickOutcome::Running { .. }));
    world.spawn(pending(3, "late"));
    assert!(matches!(world.tick(), TickOutcome::Running { .. }));
    let aggregate = match world.tick() {
        TickOutcome::Finished { aggregate, .. } => aggregate,
        _ => panic!("the run ends on the third tick"),
    };
    assert_eq!(aggregate.len(), 2);
    assert_eq!(aggregate.get(&name("early_0")).unwrap().get(&name("Position")).unwrap().height(), 3);
    assert_eq!(aggregate.get(&name("late_3")).unwrap().get(&name("Position")).unwrap().height(), 2);
    assert!(aggregate.get(&name("ground_1")).is_none());
    assert!(aggregate.get(&name("ghost_2")).is_none());
    assert!(matches!(world.entities[2].telemetry, Telemetry::Pending(_)));
}

#[test]
fn an_entity_spawned_on_the_last_tick_records_one_row() {
    let mut world = World::new(WorldTimer::new(5, 10));
    world.spawn(pending(4, "flash"));
    let (tick, aggregate) = run(&mut world, 5);
    assert_eq!(tick, 1);
    let aggregate = aggregate.unwrap();
    assert_eq!(aggregate.get(&name("flash_4")).unwrap().get(&name("Position")).unwrap().height(), 1);
}

#[test]
fn rows_follow_the_state_of_each_tick() {
    let mut world = World::new(WorldTimer::new(35, 10));
    let mut e = pending(0, "tank");
    e.gun = Some(Gun::new(3));
    world.spawn(e);
    let mut aggregate = None;
    for tick in 1..=4u32 {
        world.entities[0].transform = Some(Transform::from_xyz(num(tick as f32), num(0.0), num(0.0)));
        world.entities[0].gun = Some(Gun::new(3 - (tick - 1).min(3)));
        if let TickOutcome::Finished { aggregate: a, .. } = world.tick() {
            aggregate = Some(a);
        }
    }
    let aggregate = aggregate.unwrap();
    let tables = aggregate.get(&name("tank_0")).unwrap();
    let position = tables.get(&name("Position")).unwrap();
    let ammo = tables.get(&name("GunAmmo")).unwrap();
    assert_eq!(position.height(), 4);
    assert_eq!(ammo.height(), 4);
    for i in 0..4usize {
        assert_eq!(*position.cell(i, 1), Cell::Real(num(i as f32 + 1.0)));
        assert_eq!(*ammo.cell(i, 1), Cell::Count(3 - i as u32));
    }
}

#[test]
fn a_behaviour_attached_later_gets_its_table_on_its_first_update() {
    let mut world = World::new(WorldTimer::new(25, 10));
    world.spawn(pending(0, "tank"));
    assert!(matches!(world.tick(), TickOutcome::Running { .. }));
    world.entities[0].test_model = Some(TestModel::new(name("late")));
    assert!(matches!(world.tick(), TickOutcome::Running { .. }));
    assert_eq!(rows(&world.entities[0], "Position"), Some(2));
    assert_eq!(rows(&world.entities[0], "TestModel"), Some(1));
}
