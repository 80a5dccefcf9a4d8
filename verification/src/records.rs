//! The telemetry of one entity: a record of named tables.
//!
//! A table comes into being with the write that initializes it. After that
//! rows are appended to it, and an append that does not fit the table's
//! columns is refused and leaves the record as it was.

use crate::name_map::NameMap;
use crate::table::{stack_error, RecordError, Table, TableView};
use vstd::prelude::*;

verus! {

/// The telemetry of one entity.
pub struct Record {
    /// The name under which the record leaves the simulation.
    pub name: String,
    /// The tables, by name.
    pub tables: NameMap<Table>,
}

/// A record as a mathematical value.
pub struct RecordView {
    pub name: Seq<char>,
    pub tables: Map<Seq<char>, TableView>,
}

/// The views of the tables of a map.
pub open spec fn table_views(tables: Map<Seq<char>, Table>) -> Map<Seq<char>, TableView> {
    tables.map_values(|table: Table| table@)
}

impl View for Record {
    type V = RecordView;

    open spec fn view(&self) -> RecordView {
        RecordView { name: self.name@, tables: table_views(self.tables@) }
    }
}

/// What appending `rows` to the table `name` runs into, if anything. A table
/// that does not exist cannot be appended to.
pub open spec fn append_error(
    tables: Map<Seq<char>, TableView>,
    name: Seq<char>,
    rows: TableView,
) -> Option<RecordError> {
    if tables.contains_key(name) {
        stack_error(tables[name].schema, rows.schema)
    } else {
        Some(RecordError::MissingTable)
    }
}

/// The tables after an attempt to append `rows` to the table `name`.
pub open spec fn appended(
    tables: Map<Seq<char>, TableView>,
    name: Seq<char>,
    rows: TableView,
) -> Map<Seq<char>, TableView> {
    if append_error(tables, name, rows) is None {
        tables.insert(name, tables[name].vstacked(rows))
    } else {
        tables
    }
}

/// What an update of the table `name` with `rows` runs into, if anything. An
/// update creates the table if it does not exist.
pub open spec fn update_error(
    tables: Map<Seq<char>, TableView>,
    name: Seq<char>,
    rows: TableView,
) -> Option<RecordError> {
    if tables.contains_key(name) {
        stack_error(tables[name].schema, rows.schema)
    } else {
        None
    }
}

/// The tables after an update of the table `name` with `rows`.
pub open spec fn updated(
    tables: Map<Seq<char>, TableView>,
    name: Seq<char>,
    rows: TableView,
) -> Map<Seq<char>, TableView> {
    if !tables.contains_key(name) {
        tables.insert(name, rows)
    } else if update_error(tables, name, rows) is None {
        tables.insert(name, tables[name].vstacked(rows))
    } else {
        tables
    }
}

/// A write to one table leaves every other table of the record as it is:
/// none is created, removed or changed, whether the write is an append or an
/// update and whether it is refused or not.
pub proof fn lemma_write_touches_one_table(
    tables: Map<Seq<char>, TableView>,
    name: Seq<char>,
    rows: TableView,
    other: Seq<char>,
)
    requires
        other != name,
    ensures
        appended(tables, name, rows).contains_key(other) == tables.contains_key(other),
        updated(tables, name, rows).contains_key(other) == tables.contains_key(other),
        tables.contains_key(other) ==> appended(tables, name, rows)[other] == tables[other]
            && updated(tables, name, rows)[other] == tables[other],
{
}

/// A write only adds: every table that the record held is still there, with
/// the columns that it had and with the rows that it had above whatever was
/// appended.
pub proof fn lemma_write_only_appends(
    tables: Map<Seq<char>, TableView>,
    name: Seq<char>,
    rows: TableView,
    held: Seq<char>,
)
    requires
        tables.contains_key(held),
    ensures
        appended(tables, name, rows).contains_key(held),
        appended(tables, name, rows)[held].schema == tables[held].schema,
        tables[held].rows.is_prefix_of(appended(tables, name, rows)[held].rows),
        updated(tables, name, rows).contains_key(held),
        updated(tables, name, rows)[held].schema == tables[held].schema,
        tables[held].rows.is_prefix_of(updated(tables, name, rows)[held].rows),
{
}

/// A copy of a map of tables.
pub fn duplicate_tables(tables: &NameMap<Table>) -> (copy: NameMap<Table>)
    ensures
        table_views(copy@) == table_views(tables@),
{
    let mut copy: NameMap<Table> = NameMap::new();
    let n = tables.len();
    let mut i: usize = 0;
    while i < n
        invariant
            i <= n,
            n == tables.names().len(),
            tables.names().no_duplicates(),
            forall|name: Seq<char>|
                copy@.contains_key(name) <==> exists|k: int|
                    0 <= k < i && #[trigger] tables.names()[k] == name,
            forall|k: int|
                0 <= k < i ==> (#[trigger] copy@[tables.names()[k]])@ == tables@[tables.names()[k]]@,
        decreases n - i,
    {
        let name = tables.name_at(i).clone();
        let table = tables.value_at(i).duplicate();
        let ghost before = copy@;
        copy.insert(name, table);
        proof {
            let key = tables.names()[i as int];
            assert forall|k: int| 0 <= k < i + 1 implies (#[trigger] copy@[tables.names()[k]])@
                == tables@[tables.names()[k]]@ by {
                if k < i {
                    assert(tables.names()[k] != key);
                    assert(copy@[tables.names()[k]] == before[tables.names()[k]]);
                }
            }
            assert forall|name: Seq<char>|
                copy@.contains_key(name) <==> exists|k: int|
                    0 <= k < i + 1 && #[trigger] tables.names()[k] == name by {
                if copy@.contains_key(name) {
                    if name == key {
                        assert(tables.names()[i as int] == name);
                    } else {
                        let k = choose|k: int| 0 <= k < i && #[trigger] tables.names()[k] == name;
                        assert(0 <= k < i + 1 && tables.names()[k] == name);
                    }
                }
            }
        }
        i = i + 1;
    }
    proof {
        assert forall|name: Seq<char>| copy@.contains_key(name) <==> tables@.contains_key(
            name,
        ) by {
            if tables@.contains_key(name) {
                let k = tables.names().index_of(name);
                assert(tables.names()[k] == name);
            }
        }
        assert forall|name: Seq<char>| copy@.contains_key(name) implies copy@[name]@
            == tables@[name]@ by {
            let k = choose|k: int| 0 <= k < n && #[trigger] tables.names()[k] == name;
            assert(copy@[tables.names()[k]]@ == tables@[tables.names()[k]]@);
        }
        assert(table_views(copy@) =~= table_views(tables@));
    }
    copy
}

impl Record {
    /// A record without tables.
    pub fn new(name: String) -> (record: Record)
        ensures
            record@ == (RecordView { name: name@, tables: Map::empty() }),
            record.name == name,
    {
        let record = Record { name, tables: NameMap::new() };
        assert(record@.tables =~= Map::empty());
        record
    }

    /// The initializing write: the record holds `table` under `table_name`
    /// from now on, whatever it held under that name before.
    pub fn initialize_table(&mut self, table_name: String, table: Table)
        ensures
            final(self).name == old(self).name,
            final(self)@.tables == old(self)@.tables.insert(table_name@, table@),
    {
        self.tables.insert(table_name, table);
        assert(self@.tables =~= old(self)@.tables.insert(table_name@, table@));
    }

    /// Appends `rows` to the table `table_name`, which must exist and have the
    /// columns of `rows`. If it does not, the record stays as it was.
    pub fn append(&mut self, table_name: &String, rows: &Table) -> (result: Result<
        (),
        RecordError,
    >)
        ensures
            final(self).name == old(self).name,
            final(self)@.tables == appended(old(self)@.tables, table_name@, rows@),
            match append_error(old(self)@.tables, table_name@, rows@) {
                Some(e) => result == Err::<(), RecordError>(e),
                None => result.is_ok(),
            },
    {
        match self.tables.remove(table_name) {
            None => {
                assert(self@.tables =~= old(self)@.tables);
                Err(RecordError::MissingTable)
            },
            Some(table) => {
                let mut table = table;
                let result = table.vstack(rows);
                self.tables.insert(table_name.clone(), table);
                assert(self@.tables =~= appended(old(self)@.tables, table_name@, rows@));
                result
            },
        }
    }

    /// Appends `rows` to the table `table_name`, or, if the record has no
    /// such table yet, creates it as a copy of `rows`.
    pub fn update(&mut self, table_name: &String, rows: &Table) -> (result: Result<
        (),
        RecordError,
    >)
        ensures
            final(self).name == old(self).name,
            final(self)@.tables == updated(old(self)@.tables, table_name@, rows@),
            match update_error(old(self)@.tables, table_name@, rows@) {
                Some(e) => result == Err::<(), RecordError>(e),
                None => result.is_ok(),
            },
    {
        if self.tables.contains(table_name) {
            let result = self.append(table_name, rows);
            result
        } else {
            self.initialize_table(table_name.clone(), rows.duplicate());
            Ok(())
        }
    }

    /// Whether the record holds a table `table_name`.
    pub fn has_table(&self, table_name: &String) -> (held: bool)
        ensures
            held == self@.tables.contains_key(table_name@),
    {
        self.tables.contains(table_name)
    }

    /// The table `table_name`, if the record holds it.
    pub fn table(&self, table_name: &String) -> (table: Option<&Table>)
        ensures
            match table {
                Some(t) => self@.tables.contains_key(table_name@) && self@.tables[table_name@]
                    == t@,
                None => !self@.tables.contains_key(table_name@),
            },
    {
        self.tables.get(table_name)
    }

    /// The number of rows of the table `table_name`, if the record holds it.
    pub fn row_count(&self, table_name: &String) -> (rows: Option<usize>)
        ensures
            match rows {
                Some(n) => self@.tables.contains_key(table_name@) && n
                    == self@.tables[table_name@].height(),
                None => !self@.tables.contains_key(table_name@),
            },
    {
        match self.tables.get(table_name) {
            Some(table) => Some(table.height()),
            None => None,
        }
    }

    /// A copy of this record.
    pub fn duplicate(&self) -> (copy: Record)
        ensures
            copy@ == self@,
    {
        Record { name: self.name.clone(), tables: duplicate_tables(&self.tables) }
    }
}

impl Default for Record {
    /// The record without a name and without tables.
    fn default() -> (record: Record)
        ensures
            record@ == (RecordView { name: Seq::empty(), tables: Map::empty() }),
    {
        let record = Record { name: String::new(), tables: NameMap::new() };
        assert(record@.tables =~= Map::empty());
        record
    }
}

/// A request to write rows to one table of one record.
pub struct UpdateRecordEvent {
    /// The handle of the record: the place of its entity in the world.
    pub record: usize,
    /// The table to write to.
    pub table_name: String,
    /// The rows to write.
    pub new_row: Table,
}

/// An update request as a mathematical value.
pub struct UpdateRecordEventView {
    pub record: usize,
    pub table_name: Seq<char>,
    pub new_row: TableView,
}

impl View for UpdateRecordEvent {
    type V = UpdateRecordEventView;

    open spec fn view(&self) -> UpdateRecordEventView {
        UpdateRecordEventView {
            record: self.record,
            table_name: self.table_name@,
            new_row: self.new_row@,
        }
    }
}

/// Writes the rows of an update to the record behind it: appends them to the
/// table that the update names, or creates that table from them.
pub fn _update_record(record: &mut Record, update: &UpdateRecordEvent) -> (result: Result<
    (),
    RecordError,
>)
    ensures
        final(record).name == old(record).name,
        final(record)@.tables == updated(
            old(record)@.tables,
            update@.table_name,
            update@.new_row,
        ),
        match update_error(old(record)@.tables, update@.table_name, update@.new_row) {
            Some(e) => result == Err::<(), RecordError>(e),
            None => result.is_ok(),
        },
{
    record.update(&update.table_name, &update.new_row)
}

} // verus!
