//! What a tick does to the record of one entity.
//!
//! The tick is stated over the whole world: all behaviours of all entities
//! ask for their updates, and the updates are applied one after the other.
//! Here the same is said entity by entity. The updates of a tick that reach
//! the record of an entity are those of its own behaviours, in the order of
//! the behaviours, and each of them appends one row to its own table.

use crate::lifecycle::{
    after_event, after_events, all_events, events_of, records_of, ticked_records, LiveEntity,
    RecorderKind,
};
use crate::records::{lemma_write_only_appends, updated, RecordView, UpdateRecordEventView};
use crate::table::TableView;
use vstd::prelude::*;

verus! {

/// The tables after one behaviour has written: the observed row is appended
/// to the table of its name, or is the whole table if there was none; where
/// the entity does not carry the behaviour the tables stay as they are.
pub open spec fn with_update(
    tables: Map<Seq<char>, TableView>,
    seen: Option<(Seq<char>, TableView)>,
) -> Map<Seq<char>, TableView> {
    match seen {
        Some((table_name, row)) => updated(tables, table_name, row),
        None => tables,
    }
}

/// A record after the behaviour `kind` of its entity has written at `time`.
pub open spec fn record_step(
    record: Option<RecordView>,
    entity: LiveEntity,
    kind: RecorderKind,
    time: u64,
) -> Option<RecordView> {
    match record {
        Some(r) => Some(
            RecordView { name: r.name, tables: with_update(r.tables, entity.observation(kind, time)) },
        ),
        None => None,
    }
}

impl LiveEntity {
    /// The tables of the entity's record after its behaviours have written at
    /// `time`, one after the other.
    pub open spec fn updated_tables(
        &self,
        tables: Map<Seq<char>, TableView>,
        time: u64,
    ) -> Map<Seq<char>, TableView> {
        with_update(
            with_update(
                with_update(
                    with_update(tables, self.observation(RecorderKind::Position, time)),
                    self.observation(RecorderKind::Physics, time),
                ),
                self.observation(RecorderKind::GunAmmo, time),
            ),
            self.observation(RecorderKind::TestModel, time),
        )
    }

    /// The record of the entity after the tick that brings the simulated time
    /// to `time`: the initial record if the entity begins to record, the
    /// record with one more write of every behaviour if it was recording, and
    /// none otherwise.
    pub open spec fn record_after_tick(&self, time: u64) -> Option<RecordView> {
        if self.begins_recording() {
            Some(self.initial_record(time))
        } else {
            match self.record() {
                Some(r) => Some(
                    RecordView { name: r.name, tables: self.updated_tables(r.tables, time) },
                ),
                None => None,
            }
        }
    }
}

/// Whether the records stand where the recording entities stand.
pub open spec fn records_fit(records: Seq<Option<RecordView>>, entities: Seq<LiveEntity>) -> bool {
    &&& records.len() == entities.len()
    &&& forall|j: int|
        0 <= j < entities.len() ==> ((#[trigger] records[j]) is Some
            <==> entities[j].telemetry is Recording)
}

/// The records after the behaviour `kind` has written for the first `m`
/// entities.
pub open spec fn stepped(
    records: Seq<Option<RecordView>>,
    entities: Seq<LiveEntity>,
    kind: RecorderKind,
    time: u64,
    m: int,
) -> Seq<Option<RecordView>> {
    Seq::new(
        records.len(),
        |j: int|
            if j < m {
                record_step(records[j], entities[j], kind, time)
            } else {
                records[j]
            },
    )
}

/// Applying one list of updates after another is applying the two lists in a
/// row.
pub proof fn lemma_after_events_concat(
    records: Seq<Option<RecordView>>,
    first: Seq<UpdateRecordEventView>,
    second: Seq<UpdateRecordEventView>,
)
    ensures
        after_events(records, first + second) == after_events(
            after_events(records, first),
            second,
        ),
    decreases second.len(),
{
    if second.len() == 0 {
        assert(first + second =~= first);
    } else {
        lemma_after_events_concat(records, first, second.drop_last());
        assert((first + second).drop_last() =~= first + second.drop_last());
        assert((first + second).last() == second.last());
    }
}

/// The updates of one behaviour over the first `m` entities write, for each
/// of these entities, to its own record and to no other.
proof fn lemma_events_of_prefix(
    records: Seq<Option<RecordView>>,
    entities: Seq<LiveEntity>,
    kind: RecorderKind,
    time: u64,
    m: int,
)
    requires
        records_fit(records, entities),
        entities.len() <= usize::MAX,
        0 <= m <= entities.len(),
    ensures
        after_events(records, events_of(entities.subrange(0, m), kind, time)) == stepped(
            records,
            entities,
            kind,
            time,
            m,
        ),
    decreases m,
{
    let prefix = entities.subrange(0, m);
    if m == 0 {
        assert(stepped(records, entities, kind, time, 0) =~= records);
    } else {
        lemma_events_of_prefix(records, entities, kind, time, m - 1);
        assert(prefix.drop_last() =~= entities.subrange(0, m - 1));
        assert(prefix.last() == entities[m - 1]);
        let before = events_of(entities.subrange(0, m - 1), kind, time);
        let so_far = stepped(records, entities, kind, time, m - 1);
        assert(so_far[m - 1] == records[m - 1]);
        match entities[m - 1].update_event(m - 1, kind, time) {
            Some(event) => {
                let events = before.push(event);
                assert(events.drop_last() =~= before);
                assert(events.last() == event);
                assert(event.record as int == m - 1);
                assert(after_events(records, events) == after_event(so_far, event));
                assert(after_event(so_far, event) =~= stepped(records, entities, kind, time, m));
            },
            None => {
                assert(stepped(records, entities, kind, time, m) =~= so_far);
            },
        }
    }
}

/// The updates of one behaviour write, for every entity, to its own record.
pub proof fn lemma_events_of_kind(
    records: Seq<Option<RecordView>>,
    entities: Seq<LiveEntity>,
    kind: RecorderKind,
    time: u64,
)
    requires
        records_fit(records, entities),
        entities.len() <= usize::MAX,
    ensures
        after_events(records, events_of(entities, kind, time)) == stepped(
            records,
            entities,
            kind,
            time,
            entities.len() as int,
        ),
        records_fit(stepped(records, entities, kind, time, entities.len() as int), entities),
{
    lemma_events_of_prefix(records, entities, kind, time, entities.len() as int);
    assert(entities.subrange(0, entities.len() as int) =~= entities);
}

/// A tick leaves every entity with the record that its own state and its own
/// behaviours give it: what the other entities of the world record does not
/// reach it.
pub proof fn lemma_tick_entity_by_entity(entities: Seq<LiveEntity>, time: u64, i: int)
    requires
        entities.len() <= usize::MAX,
        0 <= i < entities.len(),
    ensures
        ticked_records(entities, time)[i] == entities[i].record_after_tick(time),
{
    let n = entities.len() as int;
    let r0 = records_of(entities);
    let e1 = events_of(entities, RecorderKind::Position, time);
    let e2 = events_of(entities, RecorderKind::Physics, time);
    let e3 = events_of(entities, RecorderKind::GunAmmo, time);
    let e4 = events_of(entities, RecorderKind::TestModel, time);
    assert(records_fit(r0, entities));
    lemma_events_of_kind(r0, entities, RecorderKind::Position, time);
    let r1 = stepped(r0, entities, RecorderKind::Position, time, n);
    lemma_events_of_kind(r1, entities, RecorderKind::Physics, time);
    let r2 = stepped(r1, entities, RecorderKind::Physics, time, n);
    lemma_events_of_kind(r2, entities, RecorderKind::GunAmmo, time);
    let r3 = stepped(r2, entities, RecorderKind::GunAmmo, time, n);
    lemma_events_of_kind(r3, entities, RecorderKind::TestModel, time);
    let r4 = stepped(r3, entities, RecorderKind::TestModel, time, n);
    lemma_after_events_concat(r0, e1, e2);
    lemma_after_events_concat(r0, e1 + e2, e3);
    lemma_after_events_concat(r0, e1 + e2 + e3, e4);
    assert(after_events(r0, all_events(entities, time)) == r4);
}

/// The names of the tables of the four behaviours differ from one another.
pub proof fn lemma_table_names_differ()
    ensures
        "Position"@ != "Physics"@,
        "Position"@ != "GunAmmo"@,
        "Position"@ != "TestModel"@,
        "Physics"@ != "GunAmmo"@,
        "Physics"@ != "TestModel"@,
        "GunAmmo"@ != "TestModel"@,
{
    reveal_strlit("Position");
    reveal_strlit("Physics");
    reveal_strlit("GunAmmo");
    reveal_strlit("TestModel");
    assert("Position"@.len() == 8);
    assert("Physics"@.len() == 7);
    assert("GunAmmo"@.len() == 7);
    assert("TestModel"@.len() == 9);
    assert("Physics"@[0] != "GunAmmo"@[0]);
}

/// On the tick on which an entity begins to record, every behaviour that it
/// carries leaves exactly its first row in its table.
pub proof fn lemma_first_tick_writes_one_row(entity: LiveEntity, kind: RecorderKind, time: u64)
    requires
        entity.begins_recording(),
        entity.observation(kind, time) is Some,
    ensures
        ({
            let (table_name, row) = entity.observation(kind, time).unwrap();
            let record = entity.record_after_tick(time).unwrap();
            &&& record.tables.contains_key(table_name)
            &&& record.tables[table_name] == row
            &&& row.height() == 1
        }),
{
    lemma_table_names_differ();
}

/// On every later tick a behaviour appends exactly its row to its table, if
/// the table has the columns of the row: the table is one row higher, the
/// rows that it had are above the new one, and the new one is what the
/// behaviour observes on this tick.
pub proof fn lemma_tick_appends_one_row(entity: LiveEntity, kind: RecorderKind, time: u64)
    requires
        entity.record() is Some,
        entity.observation(kind, time) is Some,
        ({
            let (table_name, row) = entity.observation(kind, time).unwrap();
            let tables = entity.record().unwrap().tables;
            tables.contains_key(table_name) && tables[table_name].schema == row.schema
        }),
    ensures
        ({
            let (table_name, row) = entity.observation(kind, time).unwrap();
            let before = entity.record().unwrap().tables[table_name];
            let record = entity.record_after_tick(time).unwrap();
            &&& record.name == entity.record().unwrap().name
            &&& record.tables.contains_key(table_name)
            &&& record.tables[table_name] == before.vstacked(row)
            &&& record.tables[table_name].height() == before.height() + 1
            &&& record.tables[table_name].rows.last() == row.rows[0]
        }),
{
    lemma_table_names_differ();
    let (table_name, row) = entity.observation(kind, time).unwrap();
    assert(row.rows.len() == 1);
    let before = entity.record().unwrap().tables[table_name];
    assert(before.vstacked(row).rows.last() == row.rows[0]);
}

/// A tick only adds to the record of a recording entity: every table that
/// the record held is still there, with the columns that it had and with the
/// rows that it had above whatever the tick appended.
pub proof fn lemma_tick_only_appends(entity: LiveEntity, time: u64, held: Seq<char>)
    requires
        entity.record() is Some,
        entity.record().unwrap().tables.contains_key(held),
    ensures
        ({
            let before = entity.record().unwrap().tables[held];
            let record = entity.record_after_tick(time).unwrap();
            &&& record.tables.contains_key(held)
            &&& record.tables[held].schema == before.schema
            &&& before.rows.is_prefix_of(record.tables[held].rows)
        }),
{
    let t0 = entity.record().unwrap().tables;
    let t1 = with_update(t0, entity.observation(RecorderKind::Position, time));
    let t2 = with_update(t1, entity.observation(RecorderKind::Physics, time));
    let t3 = with_update(t2, entity.observation(RecorderKind::GunAmmo, time));
    let t4 = with_update(t3, entity.observation(RecorderKind::TestModel, time));
    lemma_update_only_appends(t0, entity.observation(RecorderKind::Position, time), held);
    lemma_update_only_appends(t1, entity.observation(RecorderKind::Physics, time), held);
    lemma_update_only_appends(t2, entity.observation(RecorderKind::GunAmmo, time), held);
    lemma_update_only_appends(t3, entity.observation(RecorderKind::TestModel, time), held);
    assert(entity.record_after_tick(time).unwrap().tables == t4);
}

/// One write of one behaviour only adds to the tables.
proof fn lemma_update_only_appends(
    tables: Map<Seq<char>, TableView>,
    seen: Option<(Seq<char>, TableView)>,
    held: Seq<char>,
)
    requires
        tables.contains_key(held),
    ensures
        with_update(tables, seen).contains_key(held),
        with_update(tables, seen)[held].schema == tables[held].schema,
        tables[held].rows.is_prefix_of(with_update(tables, seen)[held].rows),
{
    match seen {
        Some((table_name, row)) => {
            lemma_write_only_appends(tables, table_name, row, held);
        },
        None => {},
    }
}

} // verus!
