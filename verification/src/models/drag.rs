//! Drag coefficients as a curve over the Mach number.

use crate::entity_builder::{Component, ComponentView, Entity, PSComponent};
use crate::kinematics::Real;
use vstd::prelude::*;

verus! {

/// A drag curve: the drag coefficient `cd[i]` holds at the Mach number
/// `mach_number[i]`.
#[derive(Clone, Debug, PartialEq, Eq)]
pub struct DragCurve {
    pub cd: Vec<Real>,
    pub mach_number: Vec<Real>,
}

/// The encoding of the drag coefficient 0.2938.
pub const FLAT_DRAG_COEFFICIENT_BITS: u32 = 0x3e96_6cf4;

/// The encoding of the Mach number 5.
pub const MACH_FIVE_BITS: u32 = 0x40a0_0000;

/// A copy of a list of reals.
pub fn duplicate_reals(values: &Vec<Real>) -> (copy: Vec<Real>)
    ensures
        copy@ == values@,
{
    let mut copy: Vec<Real> = Vec::new();
    let mut i: usize = 0;
    while i < values.len()
        invariant
            i <= values.len(),
            copy@ == values@.subrange(0, i as int),
        decreases values.len() - i,
    {
        copy.push(values[i]);
        assert(copy@ =~= values@.subrange(0, i + 1));
        i = i + 1;
    }
    assert(copy@ =~= values@);
    copy
}

impl DragCurve {
    /// The flat curve: the drag coefficient 0.2938 from Mach 0 to Mach 5.
    pub fn new() -> (curve: DragCurve)
        ensures
            curve.cd@ == seq![
                Real { bits: FLAT_DRAG_COEFFICIENT_BITS },
                Real { bits: FLAT_DRAG_COEFFICIENT_BITS },
            ],
            curve.mach_number@ == seq![Real { bits: 0 }, Real { bits: MACH_FIVE_BITS }],
    {
        let mut cd: Vec<Real> = Vec::new();
        cd.push(Real { bits: FLAT_DRAG_COEFFICIENT_BITS });
        cd.push(Real { bits: FLAT_DRAG_COEFFICIENT_BITS });
        let mut mach_number: Vec<Real> = Vec::new();
        mach_number.push(Real { bits: 0 });
        mach_number.push(Real { bits: MACH_FIVE_BITS });
        assert(cd@ =~= seq![
            Real { bits: FLAT_DRAG_COEFFICIENT_BITS },
            Real { bits: FLAT_DRAG_COEFFICIENT_BITS },
        ]);
        assert(mach_number@ =~= seq![Real { bits: 0 }, Real { bits: MACH_FIVE_BITS }]);
        DragCurve { cd, mach_number }
    }

    /// A copy of this curve.
    pub fn duplicate(&self) -> (copy: DragCurve)
        ensures
            copy.cd@ == self.cd@,
            copy.mach_number@ == self.mach_number@,
    {
        DragCurve { cd: duplicate_reals(&self.cd), mach_number: duplicate_reals(&self.mach_number) }
    }
}

impl Default for DragCurve {
    /// The curve without points.
    fn default() -> (curve: DragCurve)
        ensures
            curve.cd@ == Seq::<Real>::empty(),
            curve.mach_number@ == Seq::<Real>::empty(),
    {
        DragCurve { cd: Vec::new(), mach_number: Vec::new() }
    }
}

impl PSComponent for DragCurve {
    open spec fn component_view(&self) -> ComponentView {
        ComponentView::DragCurve { cd: self.cd@, mach_number: self.mach_number@ }
    }

    open spec fn companions(&self) -> Seq<ComponentView> {
        Seq::empty()
    }

    fn attach_to_entity(&self, e: &mut Entity) -> (attached: Entity) {
        assert(e@.components + self.companions() =~= e@.components);
        self.duplicate()._attach_to_entity(e.duplicate())
    }

    fn into_component(self) -> (component: Component) {
        Component::DragCurve(self)
    }
}

} // verus!
