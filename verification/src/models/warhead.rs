//! Warheads.

use crate::entity_builder::{Component, ComponentView, Entity, PSComponent};
use vstd::prelude::*;

verus! {

/// The kinds of warhead.
#[derive(Clone, Copy, Debug, PartialEq, Eq, Structural)]
pub enum WarheadType {
    Frag,
    Blast,
}

/// A warhead.
#[derive(Clone, Copy, Debug, PartialEq, Eq, Structural)]
pub struct Warhead {
    pub wh_type: WarheadType,
}

impl Warhead {
    /// A fragmentation warhead, whatever kind is asked for.
    pub fn new(_type: String) -> (warhead: Warhead)
        ensures
            warhead.wh_type == WarheadType::Frag,
    {
        Warhead { wh_type: WarheadType::Frag }
    }
}

impl Default for Warhead {
    fn default() -> (warhead: Warhead)
        ensures
            warhead.wh_type == WarheadType::Frag,
    {
        Warhead { wh_type: WarheadType::Frag }
    }
}

impl PSComponent for Warhead {
    open spec fn component_view(&self) -> ComponentView {
        ComponentView::Warhead(*self)
    }

    open spec fn companions(&self) -> Seq<ComponentView> {
        Seq::empty()
    }

    fn attach_to_entity(&self, e: &mut Entity) -> (attached: Entity) {
        assert(e@.components + self.companions() =~= e@.components);
        (*self)._attach_to_entity(e.duplicate())
    }

    fn into_component(self) -> (component: Component) {
        Component::Warhead(self)
    }
}

} // verus!
