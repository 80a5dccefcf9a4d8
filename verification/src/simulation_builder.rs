//! Building a simulation: its timing and the scene of entities that it starts
//! from.

use crate::entity_builder::{
    body_of, components_view, duplicate_components, parse_body, BuildError, ColliderInitializer,
    Component, ComponentView, Entity, EntityView, Name, RecordInitializer, RigidBody, Shape,
};
use crate::kinematics::{Quat, Real, Transform, Vec3, Velocity};
use vstd::prelude::*;

verus! {

/// One entity of a scene: its index and its components.
#[derive(Debug, PartialEq, Eq)]
pub struct DynamicEntity {
    pub entity: u32,
    pub components: Vec<Component>,
}

/// A scene entity as a mathematical value.
pub struct DynamicEntityView {
    pub entity: u32,
    pub components: Seq<ComponentView>,
}

impl View for DynamicEntity {
    type V = DynamicEntityView;

    open spec fn view(&self) -> DynamicEntityView {
        DynamicEntityView { entity: self.entity, components: components_view(self.components@) }
    }
}

/// The entities that a run starts from.
#[derive(Debug, PartialEq, Eq)]
pub struct DynamicScene {
    pub entities: Vec<DynamicEntity>,
}

/// The views of the entities of a scene.
pub open spec fn scene_view(entities: Seq<DynamicEntity>) -> Seq<DynamicEntityView> {
    Seq::new(entities.len(), |i: int| entities[i]@)
}

/// A simulation before it runs.
#[derive(Debug, PartialEq, Eq)]
pub struct Simulation {
    /// The indices that entities of the scene were given.
    pub entity_ids: Vec<u32>,
    pub timestep: Real,
    pub wall_time: Real,
    pub sim_duration: Real,
    pub scene: DynamicScene,
}

/// A simulation as a mathematical value.
pub struct SimulationView {
    pub entity_ids: Seq<u32>,
    pub timestep: Real,
    pub wall_time: Real,
    pub sim_duration: Real,
    pub entities: Seq<DynamicEntityView>,
}

impl View for Simulation {
    type V = SimulationView;

    open spec fn view(&self) -> SimulationView {
        SimulationView {
            entity_ids: self.entity_ids@,
            timestep: self.timestep,
            wall_time: self.wall_time,
            sim_duration: self.sim_duration,
            entities: scene_view(self.scene.entities@),
        }
    }
}

/// The components of an entity that is created in place, in their order.
pub open spec fn created_components(
    name: Seq<char>,
    body: RigidBody,
    position: (Real, Real, Real),
    velocity: (Real, Real, Real),
    geometry: Seq<char>,
) -> Seq<ComponentView> {
    let placed = Transform {
        translation: Vec3 { x: position.0, y: position.1, z: position.2 },
        rotation: Quat::spec_identity(),
    };
    seq![
        ComponentView::Transform(placed),
        ComponentView::GlobalTransform(placed),
        ComponentView::Velocity(
            Velocity {
                linvel: Vec3 { x: velocity.0, y: velocity.1, z: velocity.2 },
                angvel: Vec3::spec_zero(),
            },
        ),
        ComponentView::RigidBody(body),
        ComponentView::Name(name),
        ComponentView::RecordInitializer(name),
        ComponentView::ColliderInitializer { path: geometry, shape: Shape::Trimesh },
    ]
}

/// The index that the next added entity gets: the number of indices given so
/// far, unless that number is itself among them; then zero.
pub open spec fn first_unused_index(entity_ids: Seq<u32>) -> u32 {
    let len = entity_ids.len() as u32;
    if entity_ids.contains(len) {
        0
    } else {
        len
    }
}

/// The scene entity that an added description becomes.
pub open spec fn added_entity(index: u32, e: EntityView) -> DynamicEntityView {
    DynamicEntityView { entity: index, components: e.components.push(ComponentView::Name(e.name)) }
}

/// A simulation after the descriptions `entities` were added to it, one after
/// the other.
pub open spec fn with_entities(sim: SimulationView, entities: Seq<EntityView>) -> SimulationView
    decreases entities.len(),
{
    if entities.len() == 0 {
        sim
    } else {
        let before = with_entities(sim, entities.drop_last());
        let index = first_unused_index(before.entity_ids);
        SimulationView {
            entity_ids: before.entity_ids.push(index),
            entities: before.entities.push(added_entity(index, entities.last())),
            ..before
        }
    }
}

/// The views of a list of descriptions.
pub open spec fn entities_view(entities: Seq<Entity>) -> Seq<EntityView> {
    Seq::new(entities.len(), |i: int| entities[i]@)
}

/// Whether `index` is among `ids`.
pub fn index_in_use(ids: &Vec<u32>, index: u32) -> (used: bool)
    ensures
        used == ids@.contains(index),
{
    let mut i: usize = 0;
    while i < ids.len()
        invariant
            i <= ids.len(),
            forall|k: int| 0 <= k < i ==> ids[k] != index,
        decreases ids.len() - i,
    {
        if ids[i] == index {
            return true;
        }
        i = i + 1;
    }
    false
}

impl Simulation {
    /// A simulation with an empty scene.
    pub fn new(timestep: Real, sim_duration: Real, wall_time: Real) -> (sim: Simulation)
        ensures
            sim@ == (SimulationView {
                entity_ids: Seq::empty(),
                timestep,
                wall_time,
                sim_duration,
                entities: Seq::empty(),
            }),
    {
        let sim = Simulation {
            entity_ids: Vec::new(),
            timestep,
            wall_time,
            sim_duration,
            scene: DynamicScene { entities: Vec::new() },
        };
        assert(sim@.entities =~= Seq::empty());
        sim
    }

    /// Creates an entity in place and adds it to the scene.
    ///
    /// An index that another entity has is refused, and nothing changes. An
    /// entity type other than `Dynamic` and `Fixed` is refused too; the index
    /// is then taken all the same, but no entity is added.
    pub fn create_entity(
        &mut self,
        index: u32,
        name: String,
        entity_type: String,
        position: (Real, Real, Real),
        velocity: (Real, Real, Real),
        geometry: String,
    ) -> (result: Result<(), BuildError>)
        ensures
            final(self)@.timestep == old(self)@.timestep,
            final(self)@.wall_time == old(self)@.wall_time,
            final(self)@.sim_duration == old(self)@.sim_duration,
            old(self)@.entity_ids.contains(index) ==> {
                &&& result == Err::<(), BuildError>(BuildError::IndexInUse)
                &&& final(self)@ == old(self)@
            },
            !old(self)@.entity_ids.contains(index) ==> {
                &&& final(self)@.entity_ids == old(self)@.entity_ids.push(index)
                &&& match body_of(entity_type@) {
                    Some(body) => {
                        &&& result.is_ok()
                        &&& final(self)@.entities == old(self)@.entities.push(
                            DynamicEntityView {
                                entity: index,
                                components: created_components(
                                    name@,
                                    body,
                                    position,
                                    velocity,
                                    geometry@,
                                ),
                            },
                        )
                    },
                    None => {
                        &&& result == Err::<(), BuildError>(BuildError::InvalidEntityType)
                        &&& final(self)@.entities == old(self)@.entities
                    },
                }
            },
    {
        if index_in_use(&self.entity_ids, index) {
            return Err(BuildError::IndexInUse);
        }
        self.entity_ids.push(index);
        let body = match parse_body(&entity_type) {
            Some(body) => body,
            None => {
                return Err(BuildError::InvalidEntityType);
            },
        };
        let placed = Transform::from_xyz(position.0, position.1, position.2);
        let moving = Velocity::linear(Vec3::new(velocity.0, velocity.1, velocity.2));
        let mut components: Vec<Component> = Vec::new();
        components.push(Component::Transform(placed));
        components.push(Component::GlobalTransform(placed));
        components.push(Component::Velocity(moving));
        components.push(Component::RigidBody(body));
        components.push(Component::Name(Name(name.clone())));
        components.push(Component::RecordInitializer(RecordInitializer(name)));
        components.push(
            Component::ColliderInitializer(
                ColliderInitializer { path: geometry, shape: Shape::Trimesh },
            ),
        );
        let entity = DynamicEntity { entity: index, components };
        assert(entity@.components =~= created_components(
            name@,
            body,
            position,
            velocity,
            geometry@,
        ));
        self.scene.entities.push(entity);
        assert(self@.entities =~= old(self)@.entities.push(entity@));
        Ok(())
    }

    /// Adds a description to the scene, under the first unused index and with
    /// its name as its last component.
    pub fn add_entity(&mut self, e: Entity) -> (result: Result<(), BuildError>)
        ensures
            result.is_ok(),
            final(self)@ == with_entities(old(self)@, seq![e@]),
    {
        let index = self.get_first_unused_index();
        let Entity { name, components } = e;
        let mut e1 = DynamicEntity { entity: index, components };
        e1.components.push(Component::Name(Name(name)));
        assert(e1@ == added_entity(index, e@)) by {
            assert(e1@.components =~= e@.components.push(ComponentView::Name(e@.name)));
        }
        self.scene.entities.push(e1);
        self.entity_ids.push(index);
        proof {
            assert(self@.entities =~= old(self)@.entities.push(added_entity(index, e@)));
            let one = seq![e@];
            assert(one.drop_last() =~= Seq::<EntityView>::empty());
            assert(with_entities(old(self)@, one.drop_last()) == old(self)@);
            assert(one.last() == e@);
        }
        Ok(())
    }

    /// Adds the descriptions to the scene, in their order.
    pub fn add_entities(&mut self, entities: Vec<Entity>) -> (result: Result<(), BuildError>)
        ensures
            result.is_ok(),
            final(self)@ == with_entities(old(self)@, entities_view(entities@)),
    {
        let mut entities = entities;
        let ghost all = entities_view(entities@);
        let mut reversed: Vec<Entity> = Vec::new();
        while entities.len() > 0
            invariant
                entities_view(entities@) + entities_view(reversed@).reverse() == all,
            decreases entities.len(),
        {
            let ghost rest = entities_view(entities@);
            let ghost done = entities_view(reversed@);
            let e = entities.pop().unwrap();
            reversed.push(e);
            proof {
                assert(entities_view(entities@) =~= rest.drop_last());
                assert(entities_view(reversed@) =~= done.push(rest.last()));
                assert(entities_view(reversed@).reverse() =~= seq![rest.last()] + done.reverse());
                assert(rest =~= rest.drop_last() + seq![rest.last()]);
                assert(entities_view(entities@) + entities_view(reversed@).reverse() =~= rest
                    + done.reverse());
            }
        }
        assert(entities_view(reversed@).reverse() =~= all);
        let ghost mut added: Seq<EntityView> = Seq::empty();
        while reversed.len() > 0
            invariant
                added + entities_view(reversed@).reverse() == all,
                self@ == with_entities(old(self)@, added),
            decreases reversed.len(),
        {
            let ghost rest = entities_view(reversed@);
            let ghost before = self@;
            let e = reversed.pop().unwrap();
            let _ = self.add_entity(e);
            proof {
                let next = added.push(rest.last());
                assert(entities_view(reversed@) =~= rest.drop_last());
                assert(rest.reverse() =~= seq![rest.last()] + rest.drop_last().reverse());
                assert(next + entities_view(reversed@).reverse() =~= added + rest.reverse());
                assert(next.drop_last() =~= added);
                assert(seq![rest.last()].drop_last() =~= Seq::<EntityView>::empty());
                assert(with_entities(before, seq![rest.last()].drop_last()) == before);
                added = next;
            }
        }
        assert(added =~= all);
        Ok(())
    }

    /// The index that the next added entity gets.
    pub fn get_first_unused_index(&self) -> (index: u32)
        ensures
            index == first_unused_index(self@.entity_ids),
    {
        let len = #[verifier::truncate] (self.entity_ids.len() as u32);
        if !index_in_use(&self.entity_ids, len) {
            len
        } else {
            0
        }
    }
}

impl Clone for Simulation {
    /// A simulation with the same timing and a copy of the scene. The copy
    /// starts without a list of indices given.
    fn clone(&self) -> (copy: Simulation)
        ensures
            copy@ == (SimulationView { entity_ids: Seq::empty(), ..self@ }),
    {
        let mut entities: Vec<DynamicEntity> = Vec::new();
        let mut i: usize = 0;
        while i < self.scene.entities.len()
            invariant
                i <= self.scene.entities.len(),
                entities.len() == i,
                forall|k: int| 0 <= k < i ==> entities[k]@ == self.scene.entities[k]@,
            decreases self.scene.entities.len() - i,
        {
            let entity = &self.scene.entities[i];
            entities.push(
                DynamicEntity {
                    entity: entity.entity,
                    components: duplicate_components(&entity.components),
                },
            );
            i = i + 1;
        }
        assert(scene_view(entities@) =~= scene_view(self.scene.entities@));
        Simulation {
            entity_ids: Vec::new(),
            timestep: self.timestep,
            wall_time: self.wall_time,
            sim_duration: self.sim_duration,
            scene: DynamicScene { entities },
        }
    }
}

} // verus!
