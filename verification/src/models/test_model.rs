//! A model that shows how a component records a table.

use crate::entity_builder::{Component, ComponentView, Entity, PSComponent};
use crate::recorders::{text_column, time_column, RecordTrait};
use crate::table::{columns_view, single_row, CellView, Column, ColumnView, Table};
use vstd::prelude::*;

verus! {

/// A component that holds one text and records it on every tick.
#[derive(Clone, Debug, PartialEq, Eq)]
pub struct TestModel {
    pub test: String,
}

impl TestModel {
    /// A model that holds `name`.
    pub fn new(name: String) -> (model: TestModel)
        ensures
            model.test == name,
    {
        TestModel { test: name }
    }

    /// A copy of this model.
    pub fn duplicate(&self) -> (copy: TestModel)
        ensures
            copy.test@ == self.test@,
    {
        TestModel { test: self.test.clone() }
    }
}

impl Default for TestModel {
    fn default() -> (model: TestModel)
        ensures
            model.test@ == Seq::<char>::empty(),
    {
        TestModel { test: String::new() }
    }
}

impl PSComponent for TestModel {
    open spec fn component_view(&self) -> ComponentView {
        ComponentView::TestModel(self.test@)
    }

    open spec fn companions(&self) -> Seq<ComponentView> {
        Seq::empty()
    }

    fn attach_to_entity(&self, e: &mut Entity) -> (attached: Entity) {
        assert(e@.components + self.companions() =~= e@.components);
        self.duplicate()._attach_to_entity(e.duplicate())
    }

    fn into_component(self) -> (component: Component) {
        Component::TestModel(self)
    }
}

/// The table `TestModel` holds the time and the text of the model.
impl RecordTrait for TestModel {
    open spec fn table_name(&self) -> Seq<char> {
        "TestModel"@
    }

    open spec fn columns(&self, time: u64) -> Seq<ColumnView> {
        seq![
            ColumnView { name: "Time"@, value: CellView::Time(time) },
            ColumnView { name: "Value"@, value: CellView::Text(self.test@) },
        ]
    }

    proof fn lemma_fixed_schema(&self, time: u64, other: &Self, other_time: u64) {
        assert(single_row(self.columns(time)).schema =~= single_row(
            other.columns(other_time),
        ).schema);
    }

    fn new_row(&self, time: u64) -> (named: (String, Table)) {
        let mut columns: Vec<Column> = Vec::new();
        columns.push(time_column("Time", time));
        columns.push(text_column("Value", &self.test));
        assert(columns_view(columns@) =~= self.columns(time));
        ("TestModel".to_owned(), Table::from_columns(columns))
    }
}

} // verus!
