//! Tables of telemetry rows.
//!
//! A table has a schema, the names and data types of its columns, and an
//! append-only sequence of rows. Every row of a table has one cell per column,
//! of that column's data type.

use crate::kinematics::Real;
use vstd::prelude::*;

verus! {

/// What a column holds.
#[derive(Clone, Copy, Debug, PartialEq, Eq, Structural)]
pub enum DataType {
    /// Simulated time in nanoseconds.
    Time,
    /// A real number.
    Real,
    /// A count.
    Count,
    /// A text.
    Text,
}

/// One value of a row.
#[derive(Clone, Debug, PartialEq, Eq)]
pub enum Cell {
    Time(u64),
    Real(Real),
    Count(u32),
    Text(String),
}

/// A cell as a mathematical value.
pub enum CellView {
    Time(u64),
    Real(Real),
    Count(u32),
    Text(Seq<char>),
}

impl CellView {
    pub open spec fn dtype(self) -> DataType {
        match self {
            CellView::Time(_) => DataType::Time,
            CellView::Real(_) => DataType::Real,
            CellView::Count(_) => DataType::Count,
            CellView::Text(_) => DataType::Text,
        }
    }
}

impl View for Cell {
    type V = CellView;

    open spec fn view(&self) -> CellView {
        match self {
            Cell::Time(t) => CellView::Time(*t),
            Cell::Real(r) => CellView::Real(*r),
            Cell::Count(c) => CellView::Count(*c),
            Cell::Text(s) => CellView::Text(s@),
        }
    }
}

impl Cell {
    /// The data type of this cell.
    pub fn dtype(&self) -> (d: DataType)
        ensures
            d == self@.dtype(),
    {
        match self {
            Cell::Time(_) => DataType::Time,
            Cell::Real(_) => DataType::Real,
            Cell::Count(_) => DataType::Count,
            Cell::Text(_) => DataType::Text,
        }
    }

    /// A copy of this cell.
    pub fn duplicate(&self) -> (c: Cell)
        ensures
            c@ == self@,
    {
        match self {
            Cell::Time(t) => Cell::Time(*t),
            Cell::Real(r) => Cell::Real(*r),
            Cell::Count(c) => Cell::Count(*c),
            Cell::Text(s) => Cell::Text(s.clone()),
        }
    }
}

/// Name and data type of a column.
#[derive(Clone, Debug, PartialEq, Eq)]
pub struct Field {
    pub name: String,
    pub dtype: DataType,
}

/// A field as a mathematical value.
pub struct FieldView {
    pub name: Seq<char>,
    pub dtype: DataType,
}

impl View for Field {
    type V = FieldView;

    open spec fn view(&self) -> FieldView {
        FieldView { name: self.name@, dtype: self.dtype }
    }
}

/// One named value: a column of a table of one row.
#[derive(Clone, Debug, PartialEq, Eq)]
pub struct Column {
    pub name: String,
    pub value: Cell,
}

/// A named value as a mathematical value.
pub struct ColumnView {
    pub name: Seq<char>,
    pub value: CellView,
}

impl View for Column {
    type V = ColumnView;

    open spec fn view(&self) -> ColumnView {
        ColumnView { name: self.name@, value: self.value@ }
    }
}

/// The views of a list of named values.
pub open spec fn columns_view(columns: Seq<Column>) -> Seq<ColumnView> {
    Seq::new(columns.len(), |j: int| columns[j]@)
}

/// The views of the cells of a row.
pub open spec fn row_view(row: Seq<Cell>) -> Seq<CellView> {
    Seq::new(row.len(), |j: int| row[j]@)
}

/// The views of the fields of a schema.
pub open spec fn schema_view(schema: Seq<Field>) -> Seq<FieldView> {
    Seq::new(schema.len(), |j: int| schema[j]@)
}

/// The views of a sequence of rows.
pub open spec fn rows_view(rows: Seq<Vec<Cell>>) -> Seq<Seq<CellView>> {
    Seq::new(rows.len(), |i: int| row_view(rows[i]@))
}

/// Whether a row has one cell per column, each of the column's data type.
pub open spec fn row_conforms(schema: Seq<FieldView>, row: Seq<CellView>) -> bool {
    &&& row.len() == schema.len()
    &&& forall|j: int| 0 <= j < row.len() ==> (#[trigger] row[j]).dtype() == schema[j].dtype
}

/// A table as a mathematical value: its schema and its rows, oldest first.
pub struct TableView {
    pub schema: Seq<FieldView>,
    pub rows: Seq<Seq<CellView>>,
}

impl TableView {
    /// Every row conforms to the schema.
    pub open spec fn wf(self) -> bool {
        forall|i: int| 0 <= i < self.rows.len() ==> row_conforms(self.schema, #[trigger] self.rows[i])
    }

    /// The table with the rows of another appended to its own.
    pub open spec fn vstacked(self, other: TableView) -> TableView {
        TableView { schema: self.schema, rows: self.rows + other.rows }
    }

    /// Number of rows.
    pub open spec fn height(self) -> nat {
        self.rows.len()
    }

    /// Number of columns.
    pub open spec fn width(self) -> nat {
        self.schema.len()
    }
}

/// The table of one row that a list of named values describes.
pub open spec fn single_row(columns: Seq<ColumnView>) -> TableView {
    TableView {
        schema: Seq::new(
            columns.len(),
            |j: int| FieldView { name: columns[j].name, dtype: columns[j].value.dtype() },
        ),
        rows: seq![Seq::new(columns.len(), |j: int| columns[j].value)],
    }
}

/// Why a write to a telemetry table was refused.
#[derive(Clone, Copy, Debug, PartialEq, Eq, Structural)]
pub enum RecordError {
    /// The two tables differ in their number of columns.
    ShapeMismatch,
    /// The two tables have as many columns, but differ in the name or the
    /// data type of one.
    SchemaMismatch,
    /// The record holds no table of that name.
    MissingTable,
    /// No record stands behind the handle.
    MissingRecord,
}

/// What appending rows of schema `other` to a table of schema `own` runs into,
/// if anything.
pub open spec fn stack_error(own: Seq<FieldView>, other: Seq<FieldView>) -> Option<RecordError> {
    if own.len() != other.len() {
        Some(RecordError::ShapeMismatch)
    } else if own != other {
        Some(RecordError::SchemaMismatch)
    } else {
        None
    }
}

/// A table of telemetry rows.
#[derive(Debug, PartialEq, Eq)]
pub struct Table {
    schema: Vec<Field>,
    rows: Vec<Vec<Cell>>,
}

impl View for Table {
    type V = TableView;

    closed spec fn view(&self) -> TableView {
        TableView { schema: schema_view(self.schema@), rows: rows_view(self.rows@) }
    }
}

/// A copy of a row.
fn duplicate_row(row: &Vec<Cell>) -> (copy: Vec<Cell>)
    ensures
        row_view(copy@) == row_view(row@),
{
    let mut copy: Vec<Cell> = Vec::new();
    let mut j: usize = 0;
    while j < row.len()
        invariant
            j <= row.len(),
            copy.len() == j,
            forall|k: int| 0 <= k < j ==> copy[k]@ == row[k]@,
        decreases row.len() - j,
    {
        copy.push(row[j].duplicate());
        j = j + 1;
    }
    assert(row_view(copy@) =~= row_view(row@));
    copy
}

impl Table {
    #[verifier::type_invariant]
    spec fn inv(&self) -> bool {
        self@.wf()
    }

    /// The table of one row that a list of named values describes.
    pub fn from_columns(columns: Vec<Column>) -> (table: Table)
        ensures
            table@ == single_row(columns_view(columns@)),
    {
        let mut schema: Vec<Field> = Vec::new();
        let mut row: Vec<Cell> = Vec::new();
        let mut j: usize = 0;
        while j < columns.len()
            invariant
                j <= columns.len(),
                schema.len() == j,
                row.len() == j,
                forall|k: int|
                    0 <= k < j ==> (#[trigger] schema[k])@ == (FieldView {
                        name: columns[k].name@,
                        dtype: columns[k].value@.dtype(),
                    }),
                forall|k: int| 0 <= k < j ==> (#[trigger] row[k])@ == columns[k].value@,
            decreases columns.len() - j,
        {
            let column = &columns[j];
            schema.push(Field { name: column.name.clone(), dtype: column.value.dtype() });
            row.push(column.value.duplicate());
            j = j + 1;
        }
        let mut rows: Vec<Vec<Cell>> = Vec::new();
        rows.push(row);
        proof {
            let view = TableView { schema: schema_view(schema@), rows: rows_view(rows@) };
            let expected = single_row(columns_view(columns@));
            assert(view.schema =~= expected.schema);
            assert(view.rows[0] =~= expected.rows[0]);
            assert(view.rows =~= expected.rows);
            assert(row_conforms(view.schema, view.rows[0]));
        }
        Table { schema, rows }
    }

    /// Number of rows.
    pub fn height(&self) -> (n: usize)
        ensures
            n == self@.height(),
    {
        self.rows.len()
    }

    /// Number of columns.
    pub fn width(&self) -> (n: usize)
        ensures
            n == self@.width(),
    {
        self.schema.len()
    }

    /// The field of column `j`.
    pub fn field(&self, j: usize) -> (field: &Field)
        requires
            j < self@.width(),
        ensures
            field@ == self@.schema[j as int],
    {
        &self.schema[j]
    }

    /// The cell in row `i`, column `j`.
    pub fn cell(&self, i: usize, j: usize) -> (cell: &Cell)
        requires
            i < self@.height(),
            j < self@.width(),
        ensures
            cell@ == self@.rows[i as int][j as int],
    {
        proof {
            use_type_invariant(self);
            assert(row_conforms(self@.schema, self@.rows[i as int]));
        }
        &self.rows[i][j]
    }

    /// Whether the two tables have the same columns: as many, with the same
    /// names and data types, in the same order.
    pub fn same_schema(&self, other: &Table) -> (same: bool)
        ensures
            same == (self@.schema == other@.schema),
    {
        if self.schema.len() != other.schema.len() {
            assert(self@.schema.len() != other@.schema.len());
            return false;
        }
        let mut j: usize = 0;
        while j < self.schema.len()
            invariant
                j <= self.schema.len(),
                self.schema.len() == other.schema.len(),
                forall|k: int| 0 <= k < j ==> self.schema[k]@ == other.schema[k]@,
            decreases self.schema.len() - j,
        {
            if self.schema[j].name != other.schema[j].name || self.schema[j].dtype
                != other.schema[j].dtype {
                assert(self@.schema[j as int] != other@.schema[j as int]);
                return false;
            }
            j = j + 1;
        }
        assert(self@.schema =~= other@.schema);
        true
    }

    /// A copy of this table.
    pub fn duplicate(&self) -> (copy: Table)
        ensures
            copy@ == self@,
    {
        proof {
            use_type_invariant(self);
        }
        let mut schema: Vec<Field> = Vec::new();
        let mut j: usize = 0;
        while j < self.schema.len()
            invariant
                j <= self.schema.len(),
                schema.len() == j,
                forall|k: int| 0 <= k < j ==> schema[k]@ == self.schema[k]@,
            decreases self.schema.len() - j,
        {
            schema.push(Field { name: self.schema[j].name.clone(), dtype: self.schema[j].dtype });
            j = j + 1;
        }
        let mut rows: Vec<Vec<Cell>> = Vec::new();
        let mut i: usize = 0;
        while i < self.rows.len()
            invariant
                i <= self.rows.len(),
                rows.len() == i,
                forall|k: int| 0 <= k < i ==> row_view(rows[k]@) == row_view(self.rows[k]@),
            decreases self.rows.len() - i,
        {
            rows.push(duplicate_row(&self.rows[i]));
            i = i + 1;
        }
        proof {
            assert(schema_view(schema@) =~= schema_view(self.schema@));
            assert(rows_view(rows@) =~= rows_view(self.rows@));
        }
        Table { schema, rows }
    }

    /// Appends the rows of `other`, in their order, below the rows of this
    /// table. The two tables must have the same columns; if they have not,
    /// nothing is appended and the error says how they differ.
    pub fn vstack(&mut self, other: &Table) -> (result: Result<(), RecordError>)
        ensures
            match stack_error(old(self)@.schema, other@.schema) {
                Some(e) => result == Err::<(), RecordError>(e) && final(self)@ == old(self)@,
                None => result.is_ok() && final(self)@ == old(self)@.vstacked(other@),
            },
    {
        proof {
            use_type_invariant(&*self);
            use_type_invariant(other);
        }
        if self.schema.len() != other.schema.len() {
            return Err(RecordError::ShapeMismatch);
        }
        if !self.same_schema(other) {
            return Err(RecordError::SchemaMismatch);
        }
        let ghost before = self@;
        let mut rows: Vec<Vec<Cell>> = Vec::new();
        std::mem::swap(&mut self.rows, &mut rows);
        let mut i: usize = 0;
        while i < other.rows.len()
            invariant
                i <= other.rows.len(),
                before.schema == other@.schema,
                before.wf(),
                other@.wf(),
                rows_view(rows@) == before.rows + other@.rows.subrange(0, i as int),
            decreases other.rows.len() - i,
        {
            let row = duplicate_row(&other.rows[i]);
            let ghost stacked = rows_view(rows@);
            rows.push(row);
            proof {
                assert(rows_view(rows@) =~= stacked.push(other@.rows[i as int]));
                assert(other@.rows.subrange(0, i + 1) =~= other@.rows.subrange(0, i as int).push(
                    other@.rows[i as int],
                ));
                assert(rows_view(rows@) =~= before.rows + other@.rows.subrange(0, i + 1));
            }
            i = i + 1;
        }
        proof {
            assert(other@.rows.subrange(0, other@.rows.len() as int) =~= other@.rows);
            let after = before.vstacked(other@);
            assert forall|k: int| 0 <= k < after.rows.len() implies row_conforms(
                after.schema,
                #[trigger] after.rows[k],
            ) by {
                if k < before.rows.len() {
                    assert(after.rows[k] == before.rows[k]);
                } else {
                    assert(after.rows[k] == other@.rows[k - before.rows.len()]);
                }
            }
        }
        self.rows = rows;
        Ok(())
    }
}

} // verus!
