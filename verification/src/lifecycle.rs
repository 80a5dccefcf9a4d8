//! The telemetry lifecycle of the entities of a run.
//!
//! An entity whose telemetry is wanted starts out pending. On the first tick
//! on which it is seen it gets an empty record, and every behaviour that it
//! carries writes the first row of its table. On every later tick every
//! behaviour appends one row. On the tick on which the simulated time first
//! exceeds the configured duration the records of all recording entities are
//! gathered, once, into the aggregate that leaves the run.

use crate::entity_builder::{Component, ComponentView, Name, RecordInitializer};
use crate::kinematics::Transform;
use crate::models::gun::Gun;
use crate::models::test_model::TestModel;
use crate::name_map::NameMap;
use crate::naming::{make_record_name, record_name};
use crate::recorders::{PhysicsSample, RecordTrait};
use crate::simulation_builder::{DynamicEntity, DynamicScene};
use crate::records::{
    _update_record, duplicate_tables, table_views, update_error, updated, Record, RecordView,
    UpdateRecordEvent, UpdateRecordEventView,
};
use crate::table::{single_row, RecordError, Table, TableView};
use crate::tick_laws::lemma_tick_entity_by_entity;
use crate::timer::{advance_world_time, WorldTimer};
use vstd::prelude::*;

verus! {

/// Where the telemetry of an entity stands.
pub enum Telemetry {
    /// No telemetry is wanted.
    Idle,
    /// Telemetry is wanted and has not begun.
    Pending(RecordInitializer),
    /// Telemetry is being recorded.
    Recording(Record),
}

/// An entity of a running simulation, as far as telemetry reads it.
pub struct LiveEntity {
    /// The index of the entity in the scene.
    pub index: u32,
    pub name: Option<Name>,
    pub telemetry: Telemetry,
    /// Where the entity is, if it has a place.
    pub transform: Option<Transform>,
    /// What the physics recorder sees of the entity, if it moves.
    pub physics: Option<PhysicsSample>,
    pub gun: Option<Gun>,
    /// Whether the gun of the entity has yet to fire.
    pub can_fire: bool,
    pub test_model: Option<TestModel>,
}

/// The recordable behaviours, in the order in which they write.
#[derive(Clone, Copy, Debug, PartialEq, Eq, Structural)]
pub enum RecorderKind {
    Position,
    Physics,
    GunAmmo,
    TestModel,
}

/// The table that a behaviour writes to and the table of the one row that it
/// observes at `time`.
pub open spec fn observed<R: RecordTrait>(recorder: R, time: u64) -> (Seq<char>, TableView) {
    (recorder.table_name(), single_row(recorder.columns(time)))
}

impl LiveEntity {
    /// The record of the entity, if it is recording.
    pub open spec fn record(&self) -> Option<RecordView> {
        match self.telemetry {
            Telemetry::Recording(record) => Some(record@),
            _ => None,
        }
    }

    /// What the behaviour `kind` of the entity observes at `time`, if the
    /// entity carries that behaviour.
    pub open spec fn observation(&self, kind: RecorderKind, time: u64) -> Option<
        (Seq<char>, TableView),
    > {
        match kind {
            RecorderKind::Position => match self.transform {
                Some(transform) => Some(observed(transform, time)),
                None => None,
            },
            RecorderKind::Physics => match self.physics {
                Some(physics) => Some(observed(physics, time)),
                None => None,
            },
            RecorderKind::GunAmmo => match self.gun {
                Some(gun) => Some(observed(gun, time)),
                None => None,
            },
            RecorderKind::TestModel => match self.test_model {
                Some(model) => Some(observed(model, time)),
                None => None,
            },
        }
    }

    /// What the behaviour `kind` of the entity observes at `time`.
    pub fn observe(&self, kind: RecorderKind, time: u64) -> (seen: Option<(String, Table)>)
        ensures
            match self.observation(kind, time) {
                Some((name, row)) => seen.is_some() && seen.unwrap().0@ == name
                    && seen.unwrap().1@ == row,
                None => seen.is_none(),
            },
    {
        match kind {
            RecorderKind::Position => match &self.transform {
                Some(transform) => Some(transform.new_row(time)),
                None => None,
            },
            RecorderKind::Physics => match &self.physics {
                Some(physics) => Some(physics.new_row(time)),
                None => None,
            },
            RecorderKind::GunAmmo => match &self.gun {
                Some(gun) => Some(gun.new_row(time)),
                None => None,
            },
            RecorderKind::TestModel => match &self.test_model {
                Some(model) => Some(model.new_row(time)),
                None => None,
            },
        }
    }

    /// The update that the behaviour `kind` of the entity asks for at `time`,
    /// where the entity stands at place `handle` of the world: none unless the
    /// entity is recording and carries the behaviour.
    pub open spec fn update_event(&self, handle: int, kind: RecorderKind, time: u64) -> Option<
        UpdateRecordEventView,
    > {
        if self.telemetry is Recording {
            match self.observation(kind, time) {
                Some((table_name, new_row)) => Some(
                    UpdateRecordEventView { record: handle as usize, table_name, new_row },
                ),
                None => None,
            }
        } else {
            None
        }
    }
}

/// The views of a list of updates.
pub open spec fn events_view(events: Seq<UpdateRecordEvent>) -> Seq<UpdateRecordEventView> {
    Seq::new(events.len(), |k: int| events[k]@)
}

/// The updates that the behaviour `kind` asks for at `time`, over all
/// entities, in the order of the entities.
pub open spec fn events_of(entities: Seq<LiveEntity>, kind: RecorderKind, time: u64) -> Seq<
    UpdateRecordEventView,
>
    decreases entities.len(),
{
    if entities.len() == 0 {
        Seq::empty()
    } else {
        let before = events_of(entities.drop_last(), kind, time);
        match entities.last().update_event(entities.len() - 1, kind, time) {
            Some(event) => before.push(event),
            None => before,
        }
    }
}

/// Gathers the updates that the behaviour `kind` asks for at `time`.
pub fn record_events(entities: &Vec<LiveEntity>, kind: RecorderKind, time: u64) -> (events: Vec<
    UpdateRecordEvent,
>)
    ensures
        events_view(events@) == events_of(entities@, kind, time),
{
    let mut events: Vec<UpdateRecordEvent> = Vec::new();
    let mut i: usize = 0;
    assert(entities@.subrange(0, 0) =~= Seq::<LiveEntity>::empty());
    assert(events_view(events@) =~= Seq::<UpdateRecordEventView>::empty());
    while i < entities.len()
        invariant
            i <= entities.len(),
            events_view(events@) == events_of(entities@.subrange(0, i as int), kind, time),
        decreases entities.len() - i,
    {
        let ghost seen = events_view(events@);
        let ghost prefix = entities@.subrange(0, i + 1);
        assert(prefix.drop_last() =~= entities@.subrange(0, i as int));
        assert(prefix.last() == entities@[i as int]);
        let entity = &entities[i];
        match &entity.telemetry {
            Telemetry::Recording(_) => {
                match entity.observe(kind, time) {
                    Some((table_name, new_row)) => {
                        events.push(UpdateRecordEvent { record: i, table_name, new_row });
                        assert(events_view(events@) =~= seen.push(
                            entity.update_event(i as int, kind, time).unwrap(),
                        ));
                    },
                    None => {},
                }
            },
            _ => {},
        }
        i = i + 1;
    }
    assert(entities@.subrange(0, entities.len() as int) =~= entities@);
    events
}

/// The updates of the position recorders: one row of the table `Position` for
/// every recording entity that has a place.
pub fn position_update_record_event(entities: &Vec<LiveEntity>, world_timer: &WorldTimer) -> (events:
    Vec<UpdateRecordEvent>)
    requires
        world_timer.elapsed() <= u64::MAX,
    ensures
        events_view(events@) == events_of(
            entities@,
            RecorderKind::Position,
            world_timer.elapsed() as u64,
        ),
{
    record_events(entities, RecorderKind::Position, world_timer.now())
}

/// The updates of the physics recorders: one row of the table `Physics` for
/// every recording entity that moves.
pub fn record_more_physics(entities: &Vec<LiveEntity>, world_timer: &WorldTimer) -> (events: Vec<
    UpdateRecordEvent,
>)
    requires
        world_timer.elapsed() <= u64::MAX,
    ensures
        events_view(events@) == events_of(
            entities@,
            RecorderKind::Physics,
            world_timer.elapsed() as u64,
        ),
{
    record_events(entities, RecorderKind::Physics, world_timer.now())
}

/// The updates of the guns: one row of the table `GunAmmo` for every
/// recording entity that carries a gun.
pub fn gun_update_record_event(entities: &Vec<LiveEntity>, world_timer: &WorldTimer) -> (events:
    Vec<UpdateRecordEvent>)
    requires
        world_timer.elapsed() <= u64::MAX,
    ensures
        events_view(events@) == events_of(
            entities@,
            RecorderKind::GunAmmo,
            world_timer.elapsed() as u64,
        ),
{
    record_events(entities, RecorderKind::GunAmmo, world_timer.now())
}

/// The updates of the test models: one row of the table `TestModel` for every
/// recording entity that carries one.
pub fn test_model_update_record_event(
    entities: &Vec<LiveEntity>,
    world_timer: &WorldTimer,
) -> (events: Vec<UpdateRecordEvent>)
    requires
        world_timer.elapsed() <= u64::MAX,
    ensures
        events_view(events@) == events_of(
            entities@,
            RecorderKind::TestModel,
            world_timer.elapsed() as u64,
        ),
{
    record_events(entities, RecorderKind::TestModel, world_timer.now())
}

/// The records of the entities, each at the place of its entity; none where
/// the entity is not recording.
pub open spec fn records_of(entities: Seq<LiveEntity>) -> Seq<Option<RecordView>> {
    Seq::new(entities.len(), |i: int| entities[i].record())
}

/// Whether `after` is the entity `before` but for what its record holds: the
/// two agree in everything else, and one is recording exactly if the other is.
pub open spec fn same_but_for_rows(before: LiveEntity, after: LiveEntity) -> bool {
    &&& after.index == before.index
    &&& after.name == before.name
    &&& after.transform == before.transform
    &&& after.physics == before.physics
    &&& after.gun == before.gun
    &&& after.can_fire == before.can_fire
    &&& after.test_model == before.test_model
    &&& match before.telemetry {
        Telemetry::Recording(record) => after.telemetry is Recording && after.record().unwrap().name
            == record@.name,
        _ => after.telemetry == before.telemetry,
    }
}

/// What an update runs into, if anything: no record behind its handle, or
/// rows that do not fit the table.
pub open spec fn event_error(
    records: Seq<Option<RecordView>>,
    event: UpdateRecordEventView,
) -> Option<RecordError> {
    if event.record < records.len() && records[event.record as int] is Some {
        update_error(
            records[event.record as int].unwrap().tables,
            event.table_name,
            event.new_row,
        )
    } else {
        Some(RecordError::MissingRecord)
    }
}

/// The records after one update.
pub open spec fn after_event(
    records: Seq<Option<RecordView>>,
    event: UpdateRecordEventView,
) -> Seq<Option<RecordView>> {
    if event.record < records.len() && records[event.record as int] is Some {
        let record = records[event.record as int].unwrap();
        records.update(
            event.record as int,
            Some(
                RecordView {
                    name: record.name,
                    tables: updated(record.tables, event.table_name, event.new_row),
                },
            ),
        )
    } else {
        records
    }
}

/// The records after a list of updates, applied in their order.
pub open spec fn after_events(
    records: Seq<Option<RecordView>>,
    events: Seq<UpdateRecordEventView>,
) -> Seq<Option<RecordView>>
    decreases events.len(),
{
    if events.len() == 0 {
        records
    } else {
        after_event(after_events(records, events.drop_last()), events.last())
    }
}

/// The updates of a list that were refused, each with its place in the list
/// and the reason.
pub open spec fn event_failures(
    records: Seq<Option<RecordView>>,
    events: Seq<UpdateRecordEventView>,
) -> Seq<(usize, RecordError)>
    decreases events.len(),
{
    if events.len() == 0 {
        Seq::empty()
    } else {
        let before = event_failures(records, events.drop_last());
        match event_error(after_events(records, events.drop_last()), events.last()) {
            Some(error) => before.push(((events.len() - 1) as usize, error)),
            None => before,
        }
    }
}

/// Applies a list of updates, in their order, each to the record behind its
/// handle. An update that is refused changes nothing and does not keep the
/// others from being applied; the refused ones are reported.
pub fn update_record_event_reader(
    entities: &mut Vec<LiveEntity>,
    record_updates: &Vec<UpdateRecordEvent>,
) -> (failures: Vec<(usize, RecordError)>)
    ensures
        final(entities).len() == old(entities).len(),
        forall|i: int|
            0 <= i < old(entities).len() ==> same_but_for_rows(
                old(entities)[i],
                #[trigger] final(entities)[i],
            ),
        records_of(final(entities)@) == after_events(
            records_of(old(entities)@),
            events_view(record_updates@),
        ),
        failures@ == event_failures(records_of(old(entities)@), events_view(record_updates@)),
{
    let mut failures: Vec<(usize, RecordError)> = Vec::new();
    let ghost start = records_of(entities@);
    let ghost all = events_view(record_updates@);
    let mut k: usize = 0;
    assert(all.subrange(0, 0) =~= Seq::<UpdateRecordEventView>::empty());
    while k < record_updates.len()
        invariant
            k <= record_updates.len(),
            all == events_view(record_updates@),
            start == records_of(old(entities)@),
            entities.len() == old(entities).len(),
            forall|i: int|
                0 <= i < old(entities).len() ==> same_but_for_rows(
                    old(entities)[i],
                    #[trigger] entities[i],
                ),
            records_of(entities@) == after_events(start, all.subrange(0, k as int)),
            failures@ == event_failures(start, all.subrange(0, k as int)),
        decreases record_updates.len() - k,
    {
        let update = &record_updates[k];
        let ghost before = entities@;
        let ghost records = records_of(entities@);
        let ghost prefix = all.subrange(0, k + 1);
        proof {
            assert(prefix.drop_last() =~= all.subrange(0, k as int));
            assert(prefix.last() == update@);
        }
        let handle = update.record;
        if handle < entities.len() {
            match &mut entities[handle].telemetry {
                Telemetry::Recording(record) => {
                    match _update_record(record, update) {
                        Ok(()) => {},
                        Err(error) => {
                            failures.push((k, error));
                        },
                    }
                },
                _ => {
                    failures.push((k, RecordError::MissingRecord));
                },
            }
        } else {
            failures.push((k, RecordError::MissingRecord));
        }
        proof {
            assert(records_of(entities@) =~= after_event(records, update@));
            assert forall|i: int| 0 <= i < old(entities).len() implies same_but_for_rows(
                old(entities)[i],
                #[trigger] entities[i],
            ) by {
                assert(same_but_for_rows(old(entities)[i], before[i]));
            }
        }
        k = k + 1;
    }
    assert(all.subrange(0, all.len() as int) =~= all);
    failures
}

/// What a behaviour writes first: the tables with the observed row as the
/// whole table of its name, or the tables as they are where the entity does
/// not carry the behaviour.
pub open spec fn with_first_row(
    tables: Map<Seq<char>, TableView>,
    seen: Option<(Seq<char>, TableView)>,
) -> Map<Seq<char>, TableView> {
    match seen {
        Some((table_name, row)) => tables.insert(table_name, row),
        None => tables,
    }
}

impl LiveEntity {
    /// Whether the entity begins to record on the next tick: its telemetry is
    /// pending and it has a name.
    pub open spec fn begins_recording(&self) -> bool {
        self.telemetry is Pending && self.name is Some
    }

    /// The tables of the record after every behaviour of the entity has
    /// written its first row, at `time`.
    pub open spec fn initial_tables(&self, time: u64) -> Map<Seq<char>, TableView> {
        with_first_row(
            with_first_row(
                with_first_row(
                    with_first_row(Map::empty(), self.observation(RecorderKind::Position, time)),
                    self.observation(RecorderKind::Physics, time),
                ),
                self.observation(RecorderKind::GunAmmo, time),
            ),
            self.observation(RecorderKind::TestModel, time),
        )
    }

    /// The record with which the entity begins to record at `time`.
    pub open spec fn initial_record(&self, time: u64) -> RecordView
        recommends
            self.name is Some,
    {
        RecordView {
            name: record_name(self.name.unwrap().0@, self.index),
            tables: self.initial_tables(time),
        }
    }
}

/// Whether `after` is the entity `before` with another state of telemetry.
pub open spec fn same_body(before: LiveEntity, after: LiveEntity) -> bool {
    &&& after.index == before.index
    &&& after.name == before.name
    &&& after.transform == before.transform
    &&& after.physics == before.physics
    &&& after.gun == before.gun
    &&& after.can_fire == before.can_fire
    &&& after.test_model == before.test_model
}

/// Begins the telemetry of every pending entity that has a name: the entity
/// gets a record named after it and its index, every behaviour that it
/// carries writes the first row of its table, and the entity is recording
/// from now on. Other entities stay as they are.
pub fn initialize_records(entities: &mut Vec<LiveEntity>, world_timer: &WorldTimer)
    requires
        world_timer.elapsed() <= u64::MAX,
    ensures
        final(entities).len() == old(entities).len(),
        forall|i: int|
            0 <= i < old(entities).len() ==> if old(entities)[i].begins_recording() {
                &&& same_body(old(entities)[i], #[trigger] final(entities)[i])
                &&& final(entities)[i].record() == Some(
                    old(entities)[i].initial_record(world_timer.elapsed() as u64),
                )
            } else {
                final(entities)[i] == old(entities)[i]
            },
{
    let time = world_timer.now();
    let n = entities.len();
    let mut i: usize = 0;
    while i < n
        invariant
            i <= n,
            n == old(entities).len(),
            entities.len() == n,
            forall|j: int|
                0 <= j < i ==> if old(entities)[j].begins_recording() {
                    &&& same_body(old(entities)[j], #[trigger] entities[j])
                    &&& entities[j].record() == Some(old(entities)[j].initial_record(time))
                } else {
                    entities[j] == old(entities)[j]
                },
            forall|j: int| i <= j < n ==> #[trigger] entities[j] == old(entities)[j],
        decreases n - i,
    {
        let ghost before = entities@;
        let entity = &entities[i];
        let pending = match &entity.telemetry {
            Telemetry::Pending(_) => true,
            _ => false,
        };
        if pending && entity.name.is_some() {
            let mut record = match &entity.name {
                Some(name) => Record::new(make_record_name(&name.0, entity.index)),
                None => Record::default(),
            };
            match &entity.transform {
                Some(transform) => transform.initialize_record(&mut record, time),
                None => {},
            }
            match &entity.physics {
                Some(physics) => physics.initialize_record(&mut record, time),
                None => {},
            }
            match &entity.gun {
                Some(gun) => gun.initialize_record(&mut record, time),
                None => {},
            }
            match &entity.test_model {
                Some(model) => model.initialize_record(&mut record, time),
                None => {},
            }
            assert(record@ == before[i as int].initial_record(time));
            entities[i].telemetry = Telemetry::Recording(record);
            assert(same_body(before[i as int], entities[i as int]));
        }
        assert forall|j: int| i < j < n implies #[trigger] entities[j] == old(entities)[j] by {
            assert(entities[j] == before[j]);
        }
        assert forall|j: int| 0 <= j < i implies if old(entities)[j].begins_recording() {
            &&& same_body(old(entities)[j], #[trigger] entities[j])
            &&& entities[j].record() == Some(old(entities)[j].initial_record(time))
        } else {
            entities[j] == old(entities)[j]
        } by {
            assert(entities[j] == before[j]);
        }
        i = i + 1;
    }
}

/// The aggregate of a run: the tables of every entity that was recording when
/// the run ended, by the name of its record.
pub struct DataframeStoreResource(pub NameMap<NameMap<Table>>);

impl View for DataframeStoreResource {
    type V = Map<Seq<char>, Map<Seq<char>, TableView>>;

    open spec fn view(&self) -> Map<Seq<char>, Map<Seq<char>, TableView>> {
        self.0@.map_values(|tables: NameMap<Table>| table_views(tables@))
    }
}

impl DataframeStoreResource {
    /// The aggregate that holds nothing.
    pub fn new() -> (store: DataframeStoreResource)
        ensures
            store@ == Map::<Seq<char>, Map<Seq<char>, TableView>>::empty(),
    {
        let store = DataframeStoreResource(NameMap::new());
        assert(store@ =~= Map::<Seq<char>, Map<Seq<char>, TableView>>::empty());
        store
    }

    /// Number of records in the aggregate.
    pub fn len(&self) -> (n: usize)
        ensures
            n == self.0.names().len(),
    {
        self.0.len()
    }

    /// The tables that the aggregate holds under `name`, if it holds any.
    pub fn get(&self, name: &String) -> (tables: Option<&NameMap<Table>>)
        ensures
            match tables {
                Some(t) => self@.contains_key(name@) && self@[name@] == table_views(t@),
                None => !self@.contains_key(name@),
            },
    {
        self.0.get(name)
    }
}

/// The aggregate after the records were gathered into it, in their order: a
/// record takes the place of whatever the aggregate held under its name.
pub open spec fn drained(
    store: Map<Seq<char>, Map<Seq<char>, TableView>>,
    records: Seq<Option<RecordView>>,
) -> Map<Seq<char>, Map<Seq<char>, TableView>>
    decreases records.len(),
{
    if records.len() == 0 {
        store
    } else {
        let before = drained(store, records.drop_last());
        match records.last() {
            Some(record) => before.insert(record.name, record.tables),
            None => before,
        }
    }
}

/// The aggregate holds, besides what it held before, exactly the names of the
/// records that were gathered, and under the name of a record the tables of
/// the last record of that name.
pub proof fn lemma_drained(
    store: Map<Seq<char>, Map<Seq<char>, TableView>>,
    records: Seq<Option<RecordView>>,
)
    ensures
        forall|name: Seq<char>|
            drained(store, records).contains_key(name) <==> store.contains_key(name) || exists|
                i: int,
            |
                0 <= i < records.len() && #[trigger] records[i] is Some
                    && records[i].unwrap().name == name,
        forall|i: int|
            0 <= i < records.len() && #[trigger] records[i] is Some && (forall|j: int|
                i < j < records.len() && #[trigger] records[j] is Some ==> records[j].unwrap().name
                    != records[i].unwrap().name) ==> drained(
                store,
                records,
            )[records[i].unwrap().name] == records[i].unwrap().tables,
        forall|name: Seq<char>|
            store.contains_key(name) && (forall|i: int|
                0 <= i < records.len() && #[trigger] records[i] is Some ==> records[i].unwrap().name
                    != name) ==> drained(store, records)[name] == store[name],
    decreases records.len(),
{
    if records.len() > 0 {
        let rest = records.drop_last();
        lemma_drained(store, rest);
        let n = records.len() - 1;
        assert forall|name: Seq<char>|
            drained(store, records).contains_key(name) <==> store.contains_key(name) || exists|
                i: int,
            |
                0 <= i < records.len() && #[trigger] records[i] is Some
                    && records[i].unwrap().name == name by {
            if drained(store, records).contains_key(name) {
                if drained(store, rest).contains_key(name) {
                    if !store.contains_key(name) {
                        let i = choose|i: int|
                            0 <= i < rest.len() && #[trigger] rest[i] is Some
                                && rest[i].unwrap().name == name;
                        assert(records[i] is Some && records[i].unwrap().name == name);
                    }
                } else {
                    assert(records[n] is Some && records[n].unwrap().name == name);
                }
            }
            if exists|i: int|
                0 <= i < records.len() && #[trigger] records[i] is Some
                    && records[i].unwrap().name == name {
                let i = choose|i: int|
                    0 <= i < records.len() && #[trigger] records[i] is Some
                        && records[i].unwrap().name == name;
                if i < n {
                    assert(rest[i] is Some && rest[i].unwrap().name == name);
                }
            }
        }
        assert forall|i: int|
            0 <= i < records.len() && #[trigger] records[i] is Some && (forall|j: int|
                i < j < records.len() && #[trigger] records[j] is Some ==> records[j].unwrap().name
                    != records[i].unwrap().name) implies drained(
            store,
            records,
        )[records[i].unwrap().name] == records[i].unwrap().tables by {
            if i < n {
                assert(rest[i] is Some);
                assert forall|j: int| i < j < rest.len() && #[trigger] rest[j] is Some implies rest[j].unwrap().name
                    != rest[i].unwrap().name by {
                    assert(records[j] is Some);
                }
                if records[n] is Some {
                    assert(records[n].unwrap().name != records[i].unwrap().name);
                }
            }
        }
        assert forall|name: Seq<char>|
            store.contains_key(name) && (forall|i: int|
                0 <= i < records.len() && #[trigger] records[i] is Some ==> records[i].unwrap().name
                    != name) implies drained(store, records)[name] == store[name] by {
            assert forall|i: int| 0 <= i < rest.len() && #[trigger] rest[i] is Some implies rest[i].unwrap().name
                != name by {
                assert(records[i] is Some);
            }
            if records[n] is Some {
                assert(records[n].unwrap().name != name);
            }
        }
    }
}

/// Ends the run when its time has come. If the simulated time exceeds the
/// configured duration, the record of every recording entity is gathered
/// into the aggregate and the answer is yes; otherwise nothing changes and
/// the answer is no.
pub fn exit_system(
    world_timer: &WorldTimer,
    entities: &Vec<LiveEntity>,
    records: &mut DataframeStoreResource,
) -> (exit: bool)
    ensures
        exit == world_timer.finished(),
        final(records)@ == if exit {
            drained(old(records)@, records_of(entities@))
        } else {
            old(records)@
        },
{
    if !world_timer.is_finished() {
        return false;
    }
    let ghost all = records_of(entities@);
    let mut i: usize = 0;
    assert(all.subrange(0, 0) =~= Seq::<Option<RecordView>>::empty());
    while i < entities.len()
        invariant
            i <= entities.len(),
            all == records_of(entities@),
            records@ == drained(old(records)@, all.subrange(0, i as int)),
        decreases entities.len() - i,
    {
        let ghost prefix = all.subrange(0, i + 1);
        let ghost gathered = records@;
        proof {
            assert(prefix.drop_last() =~= all.subrange(0, i as int));
            assert(prefix.last() == entities@[i as int].record());
        }
        match &entities[i].telemetry {
            Telemetry::Recording(record) => {
                records.0.insert(record.name.clone(), duplicate_tables(&record.tables));
                assert(records@ =~= gathered.insert(record@.name, record@.tables));
            },
            _ => {},
        }
        i = i + 1;
    }
    assert(all.subrange(0, all.len() as int) =~= all);
    true
}

/// The updates that the behaviours ask for at `time`: those of the position
/// recorders, then those of the physics recorders, of the guns and of the
/// test models.
pub open spec fn all_events(entities: Seq<LiveEntity>, time: u64) -> Seq<UpdateRecordEventView> {
    events_of(entities, RecorderKind::Position, time) + events_of(
        entities,
        RecorderKind::Physics,
        time,
    ) + events_of(entities, RecorderKind::GunAmmo, time) + events_of(
        entities,
        RecorderKind::TestModel,
        time,
    )
}

/// The records after the tick that brings the simulated time to `time`: an
/// entity that begins to record has its initial record, and the records of
/// the others are what the updates of the tick make of them.
pub open spec fn ticked_records(entities: Seq<LiveEntity>, time: u64) -> Seq<Option<RecordView>> {
    let updated = after_events(records_of(entities), all_events(entities, time));
    Seq::new(
        entities.len(),
        |i: int|
            if entities[i].begins_recording() {
                Some(entities[i].initial_record(time))
            } else {
                updated[i]
            },
    )
}

/// What a tick comes to.
pub enum TickOutcome {
    /// The run had ended before; nothing was done.
    Stopped,
    /// The run goes on. The updates that were refused are reported.
    Running { failures: Vec<(usize, RecordError)> },
    /// The run ends with this tick, and this is the aggregate that leaves it.
    Finished { failures: Vec<(usize, RecordError)>, aggregate: DataframeStoreResource },
}

/// The telemetry side of a running simulation.
pub struct World {
    pub timer: WorldTimer,
    pub entities: Vec<LiveEntity>,
    /// What was gathered for the aggregate before the run ends.
    pub records: DataframeStoreResource,
    /// Whether the run has ended and the aggregate has left.
    pub finalized: bool,
}

impl World {
    /// A world without entities, at time zero.
    pub fn new(timer: WorldTimer) -> (world: World)
        ensures
            world.timer == timer,
            world.entities@ == Seq::<LiveEntity>::empty(),
            world.records@ == Map::<Seq<char>, Map<Seq<char>, TableView>>::empty(),
            !world.finalized,
    {
        World {
            timer,
            entities: Vec::new(),
            records: DataframeStoreResource::new(),
            finalized: false,
        }
    }

    /// Puts an entity into the world and gives back the place where it
    /// stands, which is the handle of its record.
    pub fn spawn(&mut self, entity: LiveEntity) -> (handle: usize)
        ensures
            handle == old(self).entities.len(),
            final(self).entities@ == old(self).entities@.push(entity),
            final(self).timer == old(self).timer,
            final(self).records == old(self).records,
            final(self).finalized == old(self).finalized,
    {
        self.entities.push(entity);
        self.entities.len() - 1
    }

    /// One tick of the telemetry, after the integrator has moved the
    /// entities: the clock advances by one timestep, every behaviour of every
    /// recording entity appends its row, every pending entity that has a name
    /// begins to record, and if the simulated time now exceeds the configured
    /// duration the records are gathered and the aggregate leaves the world,
    /// once. A world whose run has ended stays as it is. A pending entity
    /// without a name never begins to record, so it is not in the aggregate.
    pub fn tick(&mut self) -> (outcome: TickOutcome)
        requires
            !old(self).finalized ==> old(self).timer.can_advance(),
        ensures
            old(self).finalized ==> outcome is Stopped && *final(self) == *old(self),
            !old(self).finalized ==> {
                let time = (old(self).timer.elapsed() + old(self).timer.dt) as u64;
                let failed = event_failures(
                    records_of(old(self).entities@),
                    all_events(old(self).entities@, time),
                );
                &&& final(self).timer == (WorldTimer {
                    tick_count: (old(self).timer.tick_count + 1) as u64,
                    ..old(self).timer
                })
                &&& final(self).timer.elapsed() == time
                &&& final(self).entities.len() == old(self).entities.len()
                &&& forall|i: int|
                    0 <= i < old(self).entities.len() ==> same_body(
                        old(self).entities[i],
                        #[trigger] final(self).entities[i],
                    )
                &&& forall|i: int|
                    0 <= i < old(self).entities.len() && !(old(self).entities[i].telemetry
                        is Recording) && !old(self).entities[i].begins_recording()
                        ==> #[trigger] final(self).entities[i] == old(self).entities[i]
                &&& records_of(final(self).entities@) == ticked_records(old(self).entities@, time)
                &&& forall|i: int|
                    0 <= i < old(self).entities.len() ==> (#[trigger] final(self).entities[i]).record()
                        == old(self).entities[i].record_after_tick(time)
                &&& final(self).finalized == final(self).timer.finished()
                &&& if final(self).timer.finished() {
                    &&& outcome matches TickOutcome::Finished { failures, aggregate }
                    &&& failures@ == failed
                    &&& aggregate@ == drained(old(self).records@, records_of(final(self).entities@))
                    &&& final(self).records@ == Map::<
                        Seq<char>,
                        Map<Seq<char>, TableView>,
                    >::empty()
                } else {
                    &&& outcome matches TickOutcome::Running { failures }
                    &&& failures@ == failed
                    &&& final(self).records@ == old(self).records@
                }
            },
    {
        if self.finalized {
            return TickOutcome::Stopped;
        }
        advance_world_time(&mut self.timer);
        let time = self.timer.now();
        let mut events = record_events(&self.entities, RecorderKind::Position, time);
        let mut physics = record_events(&self.entities, RecorderKind::Physics, time);
        let mut guns = record_events(&self.entities, RecorderKind::GunAmmo, time);
        let mut models = record_events(&self.entities, RecorderKind::TestModel, time);
        let ghost position_events = events_view(events@);
        events.append(&mut physics);
        assert(events_view(events@) =~= position_events + events_of(
            old(self).entities@,
            RecorderKind::Physics,
            time,
        ));
        let ghost two = events_view(events@);
        events.append(&mut guns);
        assert(events_view(events@) =~= two + events_of(
            old(self).entities@,
            RecorderKind::GunAmmo,
            time,
        ));
        let ghost three = events_view(events@);
        events.append(&mut models);
        assert(events_view(events@) =~= three + events_of(
            old(self).entities@,
            RecorderKind::TestModel,
            time,
        ));
        assert(events_view(events@) == all_events(old(self).entities@, time));
        let failures = update_record_event_reader(&mut self.entities, &events);
        let ghost updated = self.entities@;
        initialize_records(&mut self.entities, &self.timer);
        proof {
            assert forall|i: int| 0 <= i < old(self).entities.len() implies same_body(
                old(self).entities[i],
                #[trigger] self.entities[i],
            ) by {
                assert(same_but_for_rows(old(self).entities[i], updated[i]));
            }
            assert forall|i: int| 0 <= i < old(self).entities.len() implies records_of(
                self.entities@,
            )[i] == ticked_records(old(self).entities@, time)[i] by {
                assert(same_but_for_rows(old(self).entities[i], updated[i]));
                if old(self).entities[i].begins_recording() {
                    assert(updated[i].begins_recording());
                    assert(updated[i].initial_record(time) == old(self).entities[i].initial_record(
                        time,
                    ));
                } else {
                    assert(!updated[i].begins_recording());
                    assert(self.entities[i] == updated[i]);
                    assert(records_of(updated)[i] == updated[i].record());
                }
            }
            assert(records_of(self.entities@) =~= ticked_records(old(self).entities@, time));
            assert forall|i: int| 0 <= i < old(self).entities.len() implies (#[trigger] self.entities[i]).record()
                == old(self).entities[i].record_after_tick(time) by {
                lemma_tick_entity_by_entity(old(self).entities@, time, i);
                assert(records_of(self.entities@)[i] == self.entities[i].record());
            }
            assert forall|i: int|
                0 <= i < old(self).entities.len() && !(old(self).entities[i].telemetry
                    is Recording) && !old(self).entities[i].begins_recording() implies #[trigger] self.entities[i]
                == old(self).entities[i] by {
                assert(same_but_for_rows(old(self).entities[i], updated[i]));
                assert(!updated[i].begins_recording());
                assert(self.entities[i] == updated[i]);
            }
        }
        if exit_system(&self.timer, &self.entities, &mut self.records) {
            let mut aggregate = DataframeStoreResource::new();
            std::mem::swap(&mut self.records, &mut aggregate);
            self.finalized = true;
            TickOutcome::Finished { failures, aggregate }
        } else {
            TickOutcome::Running { failures }
        }
    }
}

/// What the components of a scene entity come to once the entity is alive.
pub struct Spawned {
    pub name: Option<Seq<char>>,
    /// The name that the marker of pending telemetry carries, if the entity
    /// has that marker.
    pub marker: Option<Seq<char>>,
    pub transform: Option<Transform>,
    pub gun: Option<Gun>,
    pub can_fire: bool,
    pub test_model: Option<Seq<char>>,
}

/// What one more component makes of an entity: a component takes the place
/// of an earlier one of its kind, and a component that telemetry does not
/// read changes nothing.
pub open spec fn with_component(spawned: Spawned, component: ComponentView) -> Spawned {
    match component {
        ComponentView::Name(name) => Spawned { name: Some(name), ..spawned },
        ComponentView::RecordInitializer(name) => Spawned { marker: Some(name), ..spawned },
        ComponentView::Transform(transform) => Spawned { transform: Some(transform), ..spawned },
        ComponentView::Gun(gun) => Spawned { gun: Some(gun), ..spawned },
        ComponentView::CanFire => Spawned { can_fire: true, ..spawned },
        ComponentView::TestModel(test) => Spawned { test_model: Some(test), ..spawned },
        _ => spawned,
    }
}

/// What a list of components comes to.
pub open spec fn spawned(components: Seq<ComponentView>) -> Spawned
    decreases components.len(),
{
    if components.len() == 0 {
        Spawned {
            name: None,
            marker: None,
            transform: None,
            gun: None,
            can_fire: false,
            test_model: None,
        }
    } else {
        with_component(spawned(components.drop_last()), components.last())
    }
}

impl LiveEntity {
    /// What telemetry reads of the entity, but for its record.
    pub open spec fn shape(&self) -> Spawned {
        Spawned {
            name: match self.name {
                Some(name) => Some(name.0@),
                None => None,
            },
            marker: match self.telemetry {
                Telemetry::Pending(marker) => Some(marker.0@),
                _ => None,
            },
            transform: self.transform,
            gun: self.gun,
            can_fire: self.can_fire,
            test_model: match self.test_model {
                Some(model) => Some(model.test@),
                None => None,
            },
        }
    }

    /// The entity of a scene as it comes alive: its telemetry is pending if
    /// it carries the marker and idle if not, and the physics recorder has
    /// not seen it yet.
    pub fn spawn(entity: &DynamicEntity) -> (live: LiveEntity)
        ensures
            live.index == entity.entity,
            live.shape() == spawned(entity@.components),
            !(live.telemetry is Recording),
            live.physics is None,
    {
        let mut live = LiveEntity {
            index: entity.entity,
            name: None,
            telemetry: Telemetry::Idle,
            transform: None,
            physics: None,
            gun: None,
            can_fire: false,
            test_model: None,
        };
        let ghost all = entity@.components;
        let mut i: usize = 0;
        assert(all.subrange(0, 0) =~= Seq::<ComponentView>::empty());
        while i < entity.components.len()
            invariant
                i <= entity.components.len(),
                all == entity@.components,
                live.index == entity.entity,
                live.shape() == spawned(all.subrange(0, i as int)),
                !(live.telemetry is Recording),
                live.physics is None,
            decreases entity.components.len() - i,
        {
            let ghost prefix = all.subrange(0, i + 1);
            proof {
                assert(prefix.drop_last() =~= all.subrange(0, i as int));
                assert(prefix.last() == entity.components[i as int]@);
            }
            match &entity.components[i] {
                Component::Name(name) => {
                    live.name = Some(Name(name.0.clone()));
                },
                Component::RecordInitializer(marker) => {
                    live.telemetry = Telemetry::Pending(RecordInitializer(marker.0.clone()));
                },
                Component::Transform(transform) => {
                    live.transform = Some(*transform);
                },
                Component::Gun(gun) => {
                    live.gun = Some(*gun);
                },
                Component::CanFire(_) => {
                    live.can_fire = true;
                },
                Component::TestModel(model) => {
                    live.test_model = Some(model.duplicate());
                },
                _ => {},
            }
            i = i + 1;
        }
        assert(all.subrange(0, all.len() as int) =~= all);
        live
    }
}

impl World {
    /// Brings the entities of a scene to life, in their order, behind the
    /// entities that the world holds.
    pub fn spawn_scene(&mut self, scene: &DynamicScene)
        ensures
            final(self).timer == old(self).timer,
            final(self).records == old(self).records,
            final(self).finalized == old(self).finalized,
            final(self).entities.len() == old(self).entities.len() + scene.entities.len(),
            forall|i: int|
                0 <= i < old(self).entities.len() ==> final(self).entities[i] == old(
                    self,
                ).entities[i],
            forall|k: int|
                0 <= k < scene.entities.len() ==> {
                    let live = #[trigger] final(self).entities[old(self).entities.len() + k];
                    &&& live.index == scene.entities[k].entity
                    &&& live.shape() == spawned(scene.entities[k]@.components)
                    &&& !(live.telemetry is Recording)
                    &&& live.physics is None
                },
    {
        let mut k: usize = 0;
        while k < scene.entities.len()
            invariant
                k <= scene.entities.len(),
                self.timer == old(self).timer,
                self.records == old(self).records,
                self.finalized == old(self).finalized,
                self.entities.len() == old(self).entities.len() + k,
                forall|i: int|
                    0 <= i < old(self).entities.len() ==> self.entities[i] == old(self).entities[i],
                forall|j: int|
                    0 <= j < k ==> {
                        let live = #[trigger] self.entities[old(self).entities.len() + j];
                        &&& live.index == scene.entities[j].entity
                        &&& live.shape() == spawned(scene.entities[j]@.components)
                        &&& !(live.telemetry is Recording)
                        &&& live.physics is None
                    },
            decreases scene.entities.len() - k,
        {
            let live = LiveEntity::spawn(&scene.entities[k]);
            self.entities.push(live);
            k = k + 1;
        }
    }
}

} // verus!
