//! Building the description of an entity, component by component.

use crate::kinematics::{Quat, Real, Transform, Vec3, Velocity};
use crate::models::drag::DragCurve;
use crate::models::gun::{CanFire, Gun};
use crate::models::test_model::TestModel;
use crate::models::warhead::Warhead;
use vstd::prelude::*;

verus! {

/// How the integrator treats a body.
#[derive(Clone, Copy, Debug, PartialEq, Eq, Structural)]
pub enum RigidBody {
    /// Forces act on the body and it may collide.
    Dynamic,
    /// The body stays where it is.
    Fixed,
}

/// How the collision shape of a geometry is made.
#[derive(Clone, Copy, Debug, PartialEq, Eq, Structural)]
pub enum Shape {
    Trimesh,
    Computed,
}

impl Default for Shape {
    fn default() -> (shape: Shape)
        ensures
            shape == Shape::Trimesh,
    {
        Shape::Trimesh
    }
}

/// The name that an entity was given.
#[derive(Clone, Debug, PartialEq, Eq)]
pub struct Name(pub String);

/// The marker of an entity whose telemetry is wanted and not yet begun.
#[derive(Clone, Debug, PartialEq, Eq)]
pub struct RecordInitializer(pub String);

/// The geometry from which the collision shape of an entity is made once the
/// run begins.
#[derive(Clone, Debug, PartialEq, Eq)]
pub struct ColliderInitializer {
    pub path: String,
    pub shape: Shape,
}

/// How much real time a run may take.
#[derive(Clone, Copy, Debug, PartialEq, Eq, Structural)]
pub struct WallTime(pub Real);

/// Why an entity was refused.
#[derive(Clone, Copy, Debug, PartialEq, Eq, Structural)]
pub enum BuildError {
    /// The entity type is neither `Dynamic` nor `Fixed`.
    InvalidEntityType,
    /// The collider type is neither `Trimesh` nor `Computed`.
    InvalidColliderType,
    /// Another entity of the simulation has the index.
    IndexInUse,
}

/// One component of an entity.
#[derive(Clone, Debug, PartialEq, Eq)]
pub enum Component {
    Transform(Transform),
    GlobalTransform(Transform),
    Velocity(Velocity),
    RigidBody(RigidBody),
    Name(Name),
    RecordInitializer(RecordInitializer),
    ColliderInitializer(ColliderInitializer),
    Gun(Gun),
    CanFire(CanFire),
    TestModel(TestModel),
    Warhead(Warhead),
    DragCurve(DragCurve),
}

/// A component as a mathematical value.
pub enum ComponentView {
    Transform(Transform),
    GlobalTransform(Transform),
    Velocity(Velocity),
    RigidBody(RigidBody),
    Name(Seq<char>),
    RecordInitializer(Seq<char>),
    ColliderInitializer { path: Seq<char>, shape: Shape },
    Gun(Gun),
    CanFire,
    TestModel(Seq<char>),
    Warhead(Warhead),
    DragCurve { cd: Seq<Real>, mach_number: Seq<Real> },
}

impl View for Component {
    type V = ComponentView;

    open spec fn view(&self) -> ComponentView {
        match self {
            Component::Transform(t) => ComponentView::Transform(*t),
            Component::GlobalTransform(t) => ComponentView::GlobalTransform(*t),
            Component::Velocity(v) => ComponentView::Velocity(*v),
            Component::RigidBody(b) => ComponentView::RigidBody(*b),
            Component::Name(n) => ComponentView::Name(n.0@),
            Component::RecordInitializer(r) => ComponentView::RecordInitializer(r.0@),
            Component::ColliderInitializer(c) => ComponentView::ColliderInitializer {
                path: c.path@,
                shape: c.shape,
            },
            Component::Gun(g) => ComponentView::Gun(*g),
            Component::CanFire(_) => ComponentView::CanFire,
            Component::TestModel(m) => ComponentView::TestModel(m.test@),
            Component::Warhead(w) => ComponentView::Warhead(*w),
            Component::DragCurve(d) => ComponentView::DragCurve {
                cd: d.cd@,
                mach_number: d.mach_number@,
            },
        }
    }
}

impl Component {
    /// A copy of this component.
    pub fn duplicate(&self) -> (copy: Component)
        ensures
            copy@ == self@,
    {
        match self {
            Component::Transform(t) => Component::Transform(*t),
            Component::GlobalTransform(t) => Component::GlobalTransform(*t),
            Component::Velocity(v) => Component::Velocity(*v),
            Component::RigidBody(b) => Component::RigidBody(*b),
            Component::Name(n) => Component::Name(Name(n.0.clone())),
            Component::RecordInitializer(r) => Component::RecordInitializer(
                RecordInitializer(r.0.clone()),
            ),
            Component::ColliderInitializer(c) => Component::ColliderInitializer(
                ColliderInitializer { path: c.path.clone(), shape: c.shape },
            ),
            Component::Gun(g) => Component::Gun(*g),
            Component::CanFire(_) => Component::CanFire(CanFire),
            Component::TestModel(m) => Component::TestModel(m.duplicate()),
            Component::Warhead(w) => Component::Warhead(*w),
            Component::DragCurve(d) => Component::DragCurve(d.duplicate()),
        }
    }
}

/// The views of a list of components.
pub open spec fn components_view(components: Seq<Component>) -> Seq<ComponentView> {
    Seq::new(components.len(), |i: int| components[i]@)
}

/// A copy of a list of components.
pub fn duplicate_components(components: &Vec<Component>) -> (copy: Vec<Component>)
    ensures
        components_view(copy@) == components_view(components@),
{
    let mut copy: Vec<Component> = Vec::new();
    let mut i: usize = 0;
    while i < components.len()
        invariant
            i <= components.len(),
            copy.len() == i,
            forall|k: int| 0 <= k < i ==> copy[k]@ == components[k]@,
        decreases components.len() - i,
    {
        copy.push(components[i].duplicate());
        i = i + 1;
    }
    assert(components_view(copy@) =~= components_view(components@));
    copy
}

/// The description of an entity: its name and its components, in the order
/// in which they were added.
#[derive(Debug, PartialEq, Eq)]
pub struct Entity {
    pub name: String,
    pub components: Vec<Component>,
}

/// An entity description as a mathematical value.
pub struct EntityView {
    pub name: Seq<char>,
    pub components: Seq<ComponentView>,
}

impl View for Entity {
    type V = EntityView;

    open spec fn view(&self) -> EntityView {
        EntityView { name: self.name@, components: components_view(self.components@) }
    }
}

/// The body that an entity type names, if it names one.
pub open spec fn body_of(entity_type: Seq<char>) -> Option<RigidBody> {
    if entity_type == "Dynamic"@ {
        Some(RigidBody::Dynamic)
    } else if entity_type == "Fixed"@ {
        Some(RigidBody::Fixed)
    } else {
        None
    }
}

/// The shape that a collider type names, if it names one.
pub open spec fn shape_of(collider_type: Seq<char>) -> Option<Shape> {
    if collider_type == "Trimesh"@ {
        Some(Shape::Trimesh)
    } else if collider_type == "Computed"@ {
        Some(Shape::Computed)
    } else {
        None
    }
}

/// Reads an entity type.
pub fn parse_body(entity_type: &String) -> (body: Option<RigidBody>)
    ensures
        body == body_of(entity_type@),
{
    if *entity_type == "Dynamic".to_owned() {
        Some(RigidBody::Dynamic)
    } else if *entity_type == "Fixed".to_owned() {
        Some(RigidBody::Fixed)
    } else {
        None
    }
}

/// Reads a collider type.
pub fn parse_shape(collider_type: &String) -> (shape: Option<Shape>)
    ensures
        shape == shape_of(collider_type@),
{
    if *collider_type == "Trimesh".to_owned() {
        Some(Shape::Trimesh)
    } else if *collider_type == "Computed".to_owned() {
        Some(Shape::Computed)
    } else {
        None
    }
}

/// The two components that place an entity at a position.
pub open spec fn transform_components(x: Real, y: Real, z: Real) -> Seq<ComponentView> {
    let placed = Transform {
        translation: Vec3 { x, y, z },
        rotation: Quat::spec_identity(),
    };
    seq![ComponentView::Transform(placed), ComponentView::GlobalTransform(placed)]
}

/// The component that gives an entity a velocity without spin.
pub open spec fn velocity_component(x: Real, y: Real, z: Real) -> ComponentView {
    ComponentView::Velocity(Velocity { linvel: Vec3 { x, y, z }, angvel: Vec3::spec_zero() })
}

impl Entity {
    /// The description of an entity of the given type that wants its
    /// telemetry recorded. The type is `Dynamic` or `Fixed`; any other is
    /// refused.
    pub fn new(entity_type: String, name: String) -> (result: Result<Entity, BuildError>)
        ensures
            match body_of(entity_type@) {
                Some(body) => result.is_ok() && result.unwrap()@ == (EntityView {
                    name: name@,
                    components: seq![
                        ComponentView::RigidBody(body),
                        ComponentView::RecordInitializer(name@),
                    ],
                }),
                None => result == Err::<Entity, BuildError>(BuildError::InvalidEntityType),
            },
    {
        let body = match parse_body(&entity_type) {
            Some(body) => body,
            None => {
                return Err(BuildError::InvalidEntityType);
            },
        };
        let mut e = Entity { name: name.clone(), components: Vec::new() };
        e.components.push(Component::RigidBody(body));
        e.components.push(Component::RecordInitializer(RecordInitializer(name)));
        assert(e@.components =~= seq![
            ComponentView::RigidBody(body),
            ComponentView::RecordInitializer(name@),
        ]);
        Ok(e)
    }

    /// A copy of this description.
    pub fn duplicate(&self) -> (copy: Entity)
        ensures
            copy@ == self@,
    {
        Entity { name: self.name.clone(), components: duplicate_components(&self.components) }
    }

    /// Lets `component` attach itself, and gives back the description that
    /// carries it.
    pub fn add_component<C: PSComponent>(&mut self, component: &C) -> (attached: Entity)
        ensures
            final(self)@.name == old(self)@.name,
            final(self)@.components == old(self)@.components + component.companions(),
            attached@.name == old(self)@.name,
            attached@.components == (old(self)@.components + component.companions()).push(
                component.component_view(),
            ),
    {
        component.attach_to_entity(self)
    }

    /// Places the entity at a position, and gives back a copy of the
    /// description.
    pub fn add_transform(&mut self, x: Real, y: Real, z: Real) -> (attached: Entity)
        ensures
            final(self)@.name == old(self)@.name,
            final(self)@.components == old(self)@.components + transform_components(x, y, z),
            attached@ == final(self)@,
    {
        let placed = Transform::from_xyz(x, y, z);
        self.components.push(Component::Transform(placed));
        self.components.push(Component::GlobalTransform(placed));
        assert(self@.components =~= old(self)@.components + transform_components(x, y, z));
        self.duplicate()
    }

    /// Gives the entity a velocity without spin, and gives back a copy of the
    /// description.
    pub fn add_velocity(&mut self, x: Real, y: Real, z: Real) -> (attached: Entity)
        ensures
            final(self)@.name == old(self)@.name,
            final(self)@.components == old(self)@.components.push(velocity_component(x, y, z)),
            attached@ == final(self)@,
    {
        let velocity = Velocity::linear(Vec3::new(x, y, z));
        self.components.push(Component::Velocity(velocity));
        assert(self@.components =~= old(self)@.components.push(velocity_component(x, y, z)));
        self.duplicate()
    }

    /// Gives the entity a geometry, and gives back a copy of the description.
    /// The collider type is `Trimesh` or `Computed`; any other is refused, and
    /// the description stays as it was.
    pub fn add_geometry(&mut self, geometry: String, collider_type: String) -> (result: Result<
        Entity,
        BuildError,
    >)
        ensures
            final(self)@.name == old(self)@.name,
            match shape_of(collider_type@) {
                Some(shape) => {
                    &&& final(self)@.components == old(self)@.components.push(
                        ComponentView::ColliderInitializer { path: geometry@, shape },
                    )
                    &&& result.is_ok()
                    &&& result.unwrap()@ == final(self)@
                },
                None => {
                    &&& final(self)@ == old(self)@
                    &&& result == Err::<Entity, BuildError>(BuildError::InvalidColliderType)
                },
            },
    {
        let shape = match parse_shape(&collider_type) {
            Some(shape) => shape,
            None => {
                return Err(BuildError::InvalidColliderType);
            },
        };
        self.components.push(
            Component::ColliderInitializer(ColliderInitializer { path: geometry, shape }),
        );
        assert(self@.components =~= old(self)@.components.push(
            ComponentView::ColliderInitializer { path: geometry@, shape },
        ));
        Ok(self.duplicate())
    }
}

impl Clone for Entity {
    fn clone(&self) -> (copy: Entity)
        ensures
            copy@ == self@,
    {
        self.duplicate()
    }
}

/// A component that can be attached to the description of an entity.
pub trait PSComponent: Sized {
    /// This component, as it stands in a description.
    spec fn component_view(&self) -> ComponentView;

    /// The components that this one brings along: attaching it adds them to
    /// the description that it is attached to.
    spec fn companions(&self) -> Seq<ComponentView>;

    /// This component, ready to stand in a description.
    fn into_component(self) -> (component: Component)
        ensures
            component@ == self.component_view(),
    ;

    /// The description `e` with this component as its last.
    fn _attach_to_entity(self, e: Entity) -> (attached: Entity)
        ensures
            attached@.name == e@.name,
            attached@.components == e@.components.push(self.component_view()),
    {
        let mut e = e;
        let ghost before = e@.components;
        let ghost view = self.component_view();
        e.components.push(self.into_component());
        assert(e@.components =~= before.push(view));
        e
    }

    /// Adds the companions of this component to `e`, and gives back a copy of
    /// `e` that carries a copy of this component as its last.
    fn attach_to_entity(&self, e: &mut Entity) -> (attached: Entity)
        ensures
            final(e)@.name == old(e)@.name,
            final(e)@.components == old(e)@.components + self.companions(),
            attached@.name == old(e)@.name,
            attached@.components == (old(e)@.components + self.companions()).push(
                self.component_view(),
            ),
    ;
}

} // verus!
