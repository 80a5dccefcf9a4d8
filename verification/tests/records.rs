use untitled_physics_simulator::kinematics::{Real, Transform, Vec3};
use untitled_physics_simulator::models::gun::Gun;
use untitled_physics_simulator::models::test_model::TestModel;
use untitled_physics_simulator::name_map::NameMap;
use untitled_physics_simulator::recorders::{PhysicsSample, RecordTrait};
use untitled_physics_simulator::records::{_update_record, Record, UpdateRecordEvent};
use untitled_physics_simulator::table::{Cell, Column, DataType, RecordError, Table};

fn num(x: f32) -> Real {
    Real::from_bits(x.to_bits())
}

fn name(s: &str) -> String {
    s.to_string()
}

fn ammo_row(time: u64, ammo: u32) -> Table {
    Table::from_columns(vec![
        Column { name: name("Time"), value: Cell::Time(time) },
        Column { name: name("AmmoCount"), value: Cell::Count(ammo) },
    ])
}

#[test]
fn name_map_inserts_finds_and_removes() {
    let mut map: NameMap<u32> = NameMap::new();
    assert_eq!(map.len(), 0);
    assert!(!map.contains(&name("a")));
    map.insert(name("a"), 1);
    map.insert(name("b"), 2);
    assert_eq!(map.len(), 2);
    assert_eq!(map.get(&name("a")), Some(&1));
    assert_eq!(map.get(&name("b")), Some(&2));
    assert_eq!(map.get(&name("c")), None);
    map.insert(name("a"), 7);
    assert_eq!(map.len(), 2);
    assert_eq!(map.get(&name("a")), Some(&7));
    assert_eq!(map.find(&name("b")).map(|i| map.name_at(i).clone()), Some(name("b")));
    assert_eq!(map.find(&name("b")).map(|i| *map.value_at(i)), Some(2));
    assert_eq!(map.remove(&name("a")), Some(7));
    assert_eq!(map.remove(&name("a")), None);
    assert_eq!(map.len(), 1);
    assert_eq!(map.get(&name("b")), Some(&2));
}

#[test]
fn new_record_has_no_tables() {
    let r = Record::new(name("shell_3"));
    assert_eq!(r.name, "shell_3");
    assert_eq!(r.tables.len(), 0);
    assert!(!r.has_table(&name("Position")));
    assert_eq!(r.row_count(&name("Position")), None);
    let d = Record::default();
    assert_eq!(d.name, "");
    assert_eq!(d.tables.len(), 0);
}

#[test]
fn append_to_a_missing_table_is_an_error() {
    let mut r = Record::new(name("gun_0"));
    assert_eq!(r.append(&name("GunAmmo"), &ammo_row(1, 5)), Err(RecordError::MissingTable));
    assert_eq!(r.tables.len(), 0);
    assert!(!r.has_table(&name("GunAmmo")));
}

#[test]
fn initialize_then_append_keeps_tick_order() {
    let mut r = Record::new(name("gun_0"));
    r.initialize_table(name("GunAmmo"), ammo_row(1, 5));
    for tick in 2..=6u64 {
        assert_eq!(r.append(&name("GunAmmo"), &ammo_row(tick, 6 - tick as u32)), Ok(()));
    }
    assert_eq!(r.row_count(&name("GunAmmo")), Some(6));
    let t = r.table(&name("GunAmmo")).unwrap();
    for i in 0..6usize {
        assert_eq!(*t.cell(i, 0), Cell::Time(i as u64 + 1));
    }
    assert_eq!(*t.cell(0, 1), Cell::Count(5));
    assert_eq!(*t.cell(5, 1), Cell::Count(0));
}

#[test]
fn initialize_replaces_a_table() {
    let mut r = Record::new(name("gun_0"));
    r.initialize_table(name("GunAmmo"), ammo_row(1, 5));
    assert_eq!(r.append(&name("GunAmmo"), &ammo_row(2, 4)), Ok(()));
    r.initialize_table(name("GunAmmo"), ammo_row(9, 9));
    assert_eq!(r.row_count(&name("GunAmmo")), Some(1));
    assert_eq!(*r.table(&name("GunAmmo")).unwrap().cell(0, 0), Cell::Time(9));
    assert_eq!(r.tables.len(), 1);
}

#[test]
fn mismatched_append_leaves_the_record_alone() {
    let mut r = Record::new(name("gun_0"));
    r.initialize_table(name("GunAmmo"), ammo_row(1, 5));
    let narrow = Table::from_columns(vec![Column { name: name("Time"), value: Cell::Time(2) }]);
    assert_eq!(r.append(&name("GunAmmo"), &narrow), Err(RecordError::ShapeMismatch));
    let typed = Table::from_columns(vec![
        Column { name: name("Time"), value: Cell::Time(2) },
        Column { name: name("AmmoCount"), value: Cell::Real(num(4.0)) },
    ]);
    assert_eq!(r.append(&name("GunAmmo"), &typed), Err(RecordError::SchemaMismatch));
    assert_eq!(r.update(&name("GunAmmo"), &typed), Err(RecordError::SchemaMismatch));
    assert_eq!(r.row_count(&name("GunAmmo")), Some(1));
    assert_eq!(*r.table(&name("GunAmmo")).unwrap(), ammo_row(1, 5));
    assert_eq!(r.append(&name("GunAmmo"), &ammo_row(2, 4)), Ok(()));
    assert_eq!(r.row_count(&name("GunAmmo")), Some(2));
}

#[test]
fn update_creates_the_table_on_first_use() {
    let mut r = Record::new(name("gun_0"));
    assert_eq!(r.update(&name("GunAmmo"), &ammo_row(1, 5)), Ok(()));
    assert_eq!(r.row_count(&name("GunAmmo")), Some(1));
    assert_eq!(r.update(&name("GunAmmo"), &ammo_row(2, 4)), Ok(()));
    assert_eq!(r.row_count(&name("GunAmmo")), Some(2));
    assert_eq!(*r.table(&name("GunAmmo")).unwrap().cell(1, 1), Cell::Count(4));
}

#[test]
fn update_record_applies_an_event() {
    let mut r = Record::new(name("gun_0"));
    let first = UpdateRecordEvent { record: 0, table_name: name("GunAmmo"), new_row: ammo_row(1, 5) };
    let second = UpdateRecordEvent { record: 0, table_name: name("GunAmmo"), new_row: ammo_row(2, 4) };
    assert_eq!(_update_record(&mut r, &first), Ok(()));
    assert_eq!(_update_record(&mut r, &second), Ok(()));
    assert_eq!(r.row_count(&name("GunAmmo")), Some(2));
    assert_eq!(first.new_row.height(), 1);
    let bad = UpdateRecordEvent {
        record: 0,
        table_name: name("GunAmmo"),
        new_row: Table::from_columns(Vec::new()),
    };
    assert_eq!(_update_record(&mut r, &bad), Err(RecordError::ShapeMismatch));
    assert_eq!(r.row_count(&name("GunAmmo")), Some(2));
    assert_eq!(r.name, "gun_0");
}

#[test]
fn duplicate_record_is_independent() {
    let mut r = Record::new(name("gun_0"));
    r.initialize_table(name("GunAmmo"), ammo_row(1, 5));
    r.initialize_table(name("Other"), ammo_row(1, 1));
    let copy = r.duplicate();
    assert_eq!(r.append(&name("GunAmmo"), &ammo_row(2, 4)), Ok(()));
    assert_eq!(copy.name, "gun_0");
    assert_eq!(copy.tables.len(), 2);
    assert_eq!(copy.row_count(&name("GunAmmo")), Some(1));
    assert_eq!(copy.row_count(&name("Other")), Some(1));
    assert_eq!(r.row_count(&name("GunAmmo")), Some(2));
}

#[test]
fn position_recorder_writes_time_and_coordinates() {
    let t = Transform::from_xyz(num(0.099935), num(3.003460), num(0.0));
    let (table_name, row) = t.new_row(1_100_000_000);
    assert_eq!(table_name, "Position");
    assert_eq!(row.height(), 1);
    assert_eq!(row.width(), 4);
    let names: Vec<String> = (0..4).map(|j| row.field(j).name.clone()).collect();
    assert_eq!(names, ["Time", "Position_X", "Position_Y", "Position_Z"]);
    assert_eq!(row.field(0).dtype, DataType::Time);
    for j in 1..4 {
        assert_eq!(row.field(j).dtype, DataType::Real);
    }
    assert_eq!(*row.cell(0, 0), Cell::Time(1_100_000_000));
    assert_eq!(*row.cell(0, 1), Cell::Real(num(0.099935)));
    assert_eq!(*row.cell(0, 2), Cell::Real(num(3.003460)));
    assert_eq!(*row.cell(0, 3), Cell::Real(num(0.0)));
}

#[test]
fn physics_recorder_writes_thirteen_columns() {
    let sample = PhysicsSample {
        orientation: Vec3::new(num(3.164799), num(0.110453), num(0.0)),
        orientation_angle: num(-0.5),
        velocity: Vec3::new(num(49.969540), num(1.0), num(2.0)),
        velocity_mag: num(50.0),
        angular_velocity: Vec3::new(num(12.558719), num(0.438560), num(0.0)),
        angular_velocity_mag: num(12.566),
    };
    let (table_name, row) = sample.new_row(7);
    assert_eq!(table_name, "Physics");
    assert_eq!(row.width(), 13);
    let names: Vec<String> = (0..13).map(|j| row.field(j).name.clone()).collect();
    assert_eq!(
        names,
        [
            "Time",
            "Orientation_X",
            "Orientation_Y",
            "Orientation_Z",
            "Orientation_Angle",
            "Velocity_X",
            "Velocity_Y",
            "Velocity_Z",
            "Velocity_Mag",
            "Angular_Velocity_X",
            "Angular_Velocity_Y",
            "Angular_Velocity_Z",
            "Angular_Velocity_Mag",
        ]
    );
    let expected = [
        3.164799f32, 0.110453, 0.0, -0.5, 49.969540, 1.0, 2.0, 50.0, 12.558719, 0.438560, 0.0,
        12.566,
    ];
    assert_eq!(*row.cell(0, 0), Cell::Time(7));
    for (j, x) in expected.iter().enumerate() {
        assert_eq!(*row.cell(0, j + 1), Cell::Real(num(*x)));
    }
}

#[test]
fn gun_and_test_model_recorders_write_their_values() {
    let (table_name, row) = Gun::new(12).new_row(3);
    assert_eq!(table_name, "GunAmmo");
    assert_eq!(row, ammo_row(3, 12));
    let (table_name, row) = TestModel::new(name("Bkah")).new_row(4);
    assert_eq!(table_name, "TestModel");
    assert_eq!(row.field(0).name, "Time");
    assert_eq!(row.field(1).name, "Value");
    assert_eq!(*row.cell(0, 0), Cell::Time(4));
    assert_eq!(*row.cell(0, 1), Cell::Text(name("Bkah")));
}

#[test]
fn n_updates_after_one_initialize_give_n_plus_one_rows() {
    for n in [0u64, 1, 2, 10, 50] {
        let mut r = Record::new(name("shell_0"));
        let mut t = Transform::from_xyz(num(0.0), num(0.0), num(0.0));
        t.initialize_record(&mut r, 100);
        for k in 1..=n {
            t.translation.x = num(k as f32);
            assert_eq!(t.update_record(&mut r, 100 + k), Ok(()));
        }
        assert_eq!(r.row_count(&name("Position")), Some(n as usize + 1));
        let table = r.table(&name("Position")).unwrap();
        for k in 0..=n {
            assert_eq!(*table.cell(k as usize, 0), Cell::Time(100 + k));
            assert_eq!(*table.cell(k as usize, 1), Cell::Real(num(k as f32)));
        }
        assert_eq!(r.tables.len(), 1);
    }
}

#[test]
fn update_without_initialize_is_refused() {
    let mut r = Record::new(name("shell_0"));
    let t = Transform::from_xyz(num(0.0), num(0.0), num(0.0));
    assert_eq!(t.update_record(&mut r, 1), Err(RecordError::MissingTable));
    assert_eq!(r.tables.len(), 0);
}

#[test]
fn two_recorders_fill_two_tables_without_mixing() {
    let mut r = Record::new(name("tank_1"));
    let mut place = Transform::from_xyz(num(1.0), num(2.0), num(3.0));
    let mut gun = Gun::new(40);
    place.initialize_record(&mut r, 1);
    gun.initialize_record(&mut r, 1);
    for tick in 2..=11u64 {
        place.translation.y = num(tick as f32);
        gun.ammo_count -= 1;
        if tick % 2 == 0 {
            assert_eq!(gun.update_record(&mut r, tick), Ok(()));
            assert_eq!(place.update_record(&mut r, tick), Ok(()));
        } else {
            assert_eq!(place.update_record(&mut r, tick), Ok(()));
            assert_eq!(gun.update_record(&mut r, tick), Ok(()));
        }
    }
    assert_eq!(r.tables.len(), 2);
    let position = r.table(&name("Position")).unwrap();
    let ammo = r.table(&name("GunAmmo")).unwrap();
    assert_eq!(position.height(), 11);
    assert_eq!(ammo.height(), 11);
    assert_eq!(position.width(), 4);
    assert_eq!(ammo.width(), 2);
    assert_eq!(ammo.field(1).name, "AmmoCount");
    assert_eq!(position.field(1).name, "Position_X");
    for i in 0..11usize {
        assert_eq!(*position.cell(i, 0), Cell::Time(i as u64 + 1));
        assert_eq!(*ammo.cell(i, 0), Cell::Time(i as u64 + 1));
        assert_eq!(*ammo.cell(i, 1), Cell::Count(40 - i as u32));
        assert_eq!(position.cell(i, 1).dtype(), DataType::Real);
    }
    assert_eq!(*position.cell(10, 2), Cell::Real(num(11.0)));
}
