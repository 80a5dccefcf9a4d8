//! Recordable behaviours.
//!
//! A behaviour owns one table of its entity's record. On the tick on which
//! the record comes into being it writes the table's first row; on every
//! later tick it appends one row.

use crate::kinematics::{Real, Transform, Vec3};
use crate::records::{append_error, appended, Record};
use crate::table::{single_row, Cell, CellView, Column, ColumnView, RecordError, Table, TableView, columns_view};
use vstd::prelude::*;

verus! {

/// The column that holds the time of a row.
pub fn time_column(name: &str, time: u64) -> (column: Column)
    ensures
        column@ == (ColumnView { name: name@, value: CellView::Time(time) }),
{
    Column { name: name.to_owned(), value: Cell::Time(time) }
}

/// A column that holds a real number.
pub fn real_column(name: &str, value: Real) -> (column: Column)
    ensures
        column@ == (ColumnView { name: name@, value: CellView::Real(value) }),
{
    Column { name: name.to_owned(), value: Cell::Real(value) }
}

/// A column that holds a count.
pub fn count_column(name: &str, value: u32) -> (column: Column)
    ensures
        column@ == (ColumnView { name: name@, value: CellView::Count(value) }),
{
    Column { name: name.to_owned(), value: Cell::Count(value) }
}

/// A column that holds a text.
pub fn text_column(name: &str, value: &String) -> (column: Column)
    ensures
        column@ == (ColumnView { name: name@, value: CellView::Text(value@) }),
{
    Column { name: name.to_owned(), value: Cell::Text(value.clone()) }
}

/// An observable quantity of an entity, recorded as rows of one table.
pub trait RecordTrait {
    /// The name of the table that this behaviour owns.
    spec fn table_name(&self) -> Seq<char>;

    /// The named values that this behaviour observes at `time`, in the order
    /// of the table's columns.
    spec fn columns(&self, time: u64) -> Seq<ColumnView>;

    /// The table and its columns are the same at all times and in all states
    /// of the behaviour; only the values differ.
    proof fn lemma_fixed_schema(&self, time: u64, other: &Self, other_time: u64)
        ensures
            self.table_name() == other.table_name(),
            single_row(self.columns(time)).schema == single_row(other.columns(other_time)).schema,
    ;

    /// The name of the table, and the table of the one row observed at `time`.
    fn new_row(&self, time: u64) -> (named: (String, Table))
        ensures
            named.0@ == self.table_name(),
            named.1@ == single_row(self.columns(time)),
    ;

    /// Writes the first row of the table. Runs once, on the tick on which the
    /// entity's record comes into being.
    fn initialize_record(&self, record: &mut Record, time: u64)
        ensures
            final(record).name == old(record).name,
            final(record)@.tables == old(record)@.tables.insert(
                self.table_name(),
                single_row(self.columns(time)),
            ),
    {
        let (name, row) = self.new_row(time);
        record.initialize_table(name, row);
    }

    /// Appends the row observed at `time` to the table. The table must have
    /// been initialized, with the columns of this behaviour; if it was not,
    /// the record stays as it was.
    fn update_record(&self, record: &mut Record, time: u64) -> (result: Result<(), RecordError>)
        ensures
            final(record).name == old(record).name,
            final(record)@.tables == appended(
                old(record)@.tables,
                self.table_name(),
                single_row(self.columns(time)),
            ),
            match append_error(
                old(record)@.tables,
                self.table_name(),
                single_row(self.columns(time)),
            ) {
                Some(e) => result == Err::<(), RecordError>(e),
                None => result.is_ok(),
            },
    {
        let (name, row) = self.new_row(time);
        record.append(&name, &row)
    }
}

/// The position recorder: the table `Position` holds the time and the three
/// coordinates of the entity's position.
impl RecordTrait for Transform {
    open spec fn table_name(&self) -> Seq<char> {
        "Position"@
    }

    open spec fn columns(&self, time: u64) -> Seq<ColumnView> {
        seq![
            ColumnView { name: "Time"@, value: CellView::Time(time) },
            ColumnView { name: "Position_X"@, value: CellView::Real(self.translation.x) },
            ColumnView { name: "Position_Y"@, value: CellView::Real(self.translation.y) },
            ColumnView { name: "Position_Z"@, value: CellView::Real(self.translation.z) },
        ]
    }

    proof fn lemma_fixed_schema(&self, time: u64, other: &Self, other_time: u64) {
        assert(single_row(self.columns(time)).schema =~= single_row(
            other.columns(other_time),
        ).schema);
    }

    fn new_row(&self, time: u64) -> (named: (String, Table)) {
        let mut columns: Vec<Column> = Vec::new();
        columns.push(time_column("Time", time));
        columns.push(real_column("Position_X", self.translation.x));
        columns.push(real_column("Position_Y", self.translation.y));
        columns.push(real_column("Position_Z", self.translation.z));
        assert(columns_view(columns@) =~= self.columns(time));
        ("Position".to_owned(), Table::from_columns(columns))
    }
}

/// What the physics recorder observes of a moving entity: its orientation as
/// a scaled axis and an angle, and its linear and angular velocity with their
/// magnitudes.
#[derive(Clone, Copy, Debug, PartialEq, Eq, Structural)]
pub struct PhysicsSample {
    pub orientation: Vec3,
    pub orientation_angle: Real,
    pub velocity: Vec3,
    pub velocity_mag: Real,
    pub angular_velocity: Vec3,
    pub angular_velocity_mag: Real,
}

/// The physics recorder: the table `Physics` holds the time, the orientation
/// and the two velocities.
impl RecordTrait for PhysicsSample {
    open spec fn table_name(&self) -> Seq<char> {
        "Physics"@
    }

    open spec fn columns(&self, time: u64) -> Seq<ColumnView> {
        seq![
            ColumnView { name: "Time"@, value: CellView::Time(time) },
            ColumnView { name: "Orientation_X"@, value: CellView::Real(self.orientation.x) },
            ColumnView { name: "Orientation_Y"@, value: CellView::Real(self.orientation.y) },
            ColumnView { name: "Orientation_Z"@, value: CellView::Real(self.orientation.z) },
            ColumnView { name: "Orientation_Angle"@, value: CellView::Real(self.orientation_angle) },
            ColumnView { name: "Velocity_X"@, value: CellView::Real(self.velocity.x) },
            ColumnView { name: "Velocity_Y"@, value: CellView::Real(self.velocity.y) },
            ColumnView { name: "Velocity_Z"@, value: CellView::Real(self.velocity.z) },
            ColumnView { name: "Velocity_Mag"@, value: CellView::Real(self.velocity_mag) },
            ColumnView {
                name: "Angular_Velocity_X"@,
                value: CellView::Real(self.angular_velocity.x),
            },
            ColumnView {
                name: "Angular_Velocity_Y"@,
                value: CellView::Real(self.angular_velocity.y),
            },
            ColumnView {
                name: "Angular_Velocity_Z"@,
                value: CellView::Real(self.angular_velocity.z),
            },
            ColumnView {
                name: "Angular_Velocity_Mag"@,
                value: CellView::Real(self.angular_velocity_mag),
            },
        ]
    }

    proof fn lemma_fixed_schema(&self, time: u64, other: &Self, other_time: u64) {
        assert(single_row(self.columns(time)).schema =~= single_row(
            other.columns(other_time),
        ).schema);
    }

    fn new_row(&self, time: u64) -> (named: (String, Table)) {
        let mut columns: Vec<Column> = Vec::new();
        columns.push(time_column("Time", time));
        columns.push(real_column("Orientation_X", self.orientation.x));
        columns.push(real_column("Orientation_Y", self.orientation.y));
        columns.push(real_column("Orientation_Z", self.orientation.z));
        columns.push(real_column("Orientation_Angle", self.orientation_angle));
        columns.push(real_column("Velocity_X", self.velocity.x));
        columns.push(real_column("Velocity_Y", self.velocity.y));
        columns.push(real_column("Velocity_Z", self.velocity.z));
        columns.push(real_column("Velocity_Mag", self.velocity_mag));
        columns.push(real_column("Angular_Velocity_X", self.angular_velocity.x));
        columns.push(real_column("Angular_Velocity_Y", self.angular_velocity.y));
        columns.push(real_column("Angular_Velocity_Z", self.angular_velocity.z));
        columns.push(real_column("Angular_Velocity_Mag", self.angular_velocity_mag));
        assert(columns_view(columns@) =~= self.columns(time));
        ("Physics".to_owned(), Table::from_columns(columns))
    }
}

/// The tables after one behaviour appended, tick after tick, the row that it
/// observed: `seen[k]` is the behaviour as it stood on the `k`-th of these
/// ticks, with the time of that tick.
pub open spec fn recorded<R: RecordTrait>(
    tables: Map<Seq<char>, TableView>,
    seen: Seq<(R, u64)>,
) -> Map<Seq<char>, TableView>
    decreases seen.len(),
{
    if seen.len() == 0 {
        tables
    } else {
        appended(
            recorded(tables, seen.drop_last()),
            seen.last().0.table_name(),
            single_row(seen.last().0.columns(seen.last().1)),
        )
    }
}

/// The rows that a behaviour observed, tick after tick.
pub open spec fn observed_rows<R: RecordTrait>(seen: Seq<(R, u64)>) -> Seq<Seq<CellView>> {
    Seq::new(seen.len(), |k: int| single_row(seen[k].0.columns(seen[k].1)).rows[0])
}

/// One initializing write followed by any number of appends leaves the table
/// of the behaviour with the row of the initializing write and, below it, the
/// appended rows in the order of the ticks: one row more than there were
/// appends. No append is refused on the way, and no other table of the record
/// is created, removed or changed.
pub proof fn lemma_initialize_then_update<R: RecordTrait>(
    tables: Map<Seq<char>, TableView>,
    first: (R, u64),
    seen: Seq<(R, u64)>,
)
    ensures
        ({
            let name = first.0.table_name();
            let first_row = single_row(first.0.columns(first.1));
            let start = tables.insert(name, first_row);
            let end = recorded(start, seen);
            &&& end.dom() == start.dom()
            &&& end[name].schema == first_row.schema
            &&& end[name].rows == first_row.rows + observed_rows(seen)
            &&& end[name].height() == seen.len() + 1
            &&& forall|other: Seq<char>|
                other != name && tables.contains_key(other) ==> end[other] == tables[other]
            &&& forall|k: int|
                0 <= k < seen.len() ==> append_error(
                    recorded(start, seen.subrange(0, k)),
                    #[trigger] seen[k].0.table_name(),
                    single_row(seen[k].0.columns(seen[k].1)),
                ) is None
        }),
    decreases seen.len(),
{
    let name = first.0.table_name();
    let first_row = single_row(first.0.columns(first.1));
    let start = tables.insert(name, first_row);
    let end = recorded(start, seen);
    if seen.len() == 0 {
        assert(end[name].rows =~= first_row.rows + observed_rows(seen));
    } else {
        let rest = seen.drop_last();
        let last = seen.last();
        lemma_initialize_then_update(tables, first, rest);
        first.0.lemma_fixed_schema(first.1, &last.0, last.1);
        let before = recorded(start, rest);
        let row = single_row(last.0.columns(last.1));
        assert(append_error(before, last.0.table_name(), row) is None);
        assert(end == before.insert(name, before[name].vstacked(row)));
        assert(end.dom() =~= start.dom());
        assert(observed_rows(seen) =~= observed_rows(rest).push(row.rows[0]));
        assert(row.rows =~= seq![row.rows[0]]);
        assert(end[name].rows =~= first_row.rows + observed_rows(seen));
        assert forall|k: int| 0 <= k < seen.len() implies append_error(
            recorded(start, seen.subrange(0, k)),
            #[trigger] seen[k].0.table_name(),
            single_row(seen[k].0.columns(seen[k].1)),
        ) is None by {
            if k < rest.len() {
                assert(seen.subrange(0, k) =~= rest.subrange(0, k));
                assert(seen[k] == rest[k]);
            } else {
                assert(seen.subrange(0, k) =~= rest);
            }
        }
    }
}

} // verus!
