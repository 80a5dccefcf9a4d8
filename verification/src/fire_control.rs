//! Guns executing fire missions.
//!
//! Missions are executed in the order in which they come, each by the next
//! gun in the world that can fire. A gun fires once: with the shot it loses
//! its marker. The direction of fire is worked out between the choice of the
//! gun and the shot, by whoever computes with real numbers.

use crate::lifecycle::{LiveEntity, Telemetry};
use crate::models::gun::{fire_mission_columns, fire_mission_row, Bullet, FireMission, Gun, Launch};
use crate::records::{UpdateRecordEvent, UpdateRecordEventView};
use crate::table::single_row;
use crate::timer::WorldTimer;
use vstd::prelude::*;

verus! {

impl LiveEntity {
    /// Whether the entity can execute a fire mission: it carries a gun that
    /// has yet to fire, and it has a place.
    pub open spec fn can_execute(&self) -> bool {
        self.gun is Some && self.transform is Some && self.can_fire
    }

    /// Whether the entity can execute a fire mission.
    pub fn may_execute(&self) -> (may: bool)
        ensures
            may == self.can_execute(),
    {
        self.gun.is_some() && self.transform.is_some() && self.can_fire
    }
}

/// The place of the first entity, from the place `from` on, that can execute
/// a fire mission.
pub fn next_gun(entities: &Vec<LiveEntity>, from: usize) -> (place: Option<usize>)
    ensures
        match place {
            Some(i) => {
                &&& from <= i < entities.len()
                &&& entities[i as int].can_execute()
                &&& forall|k: int| from <= k < i ==> !(#[trigger] entities[k]).can_execute()
            },
            None => forall|k: int|
                from <= k < entities.len() ==> !(#[trigger] entities[k]).can_execute(),
        },
{
    let mut i: usize = from;
    while i < entities.len()
        invariant
            from <= i,
            forall|k: int| from <= k < i && k < entities.len() ==> !(#[trigger] entities[k]).can_execute(),
        decreases entities.len() - i,
    {
        if entities[i].may_execute() {
            return Some(i);
        }
        i = i + 1;
    }
    None
}

/// Whether `after` is the entity `before` after its gun has fired: the gun
/// has one round less and can fire no more, and nothing else has changed.
pub open spec fn has_fired(before: LiveEntity, after: LiveEntity) -> bool {
    &&& after.index == before.index
    &&& after.name == before.name
    &&& after.telemetry == before.telemetry
    &&& after.transform == before.transform
    &&& after.physics == before.physics
    &&& after.test_model == before.test_model
    &&& after.gun == Some(Gun { ammo_count: (before.gun.unwrap().ammo_count - 1) as u32 })
    &&& !after.can_fire
}

/// The line that a recording gun at `place` adds to its fire-mission log.
pub open spec fn fire_mission_event(place: usize, issued: u64, executed: u64) -> UpdateRecordEventView {
    UpdateRecordEventView {
        record: place,
        table_name: "FireMissionsExecuted"@,
        new_row: single_row(fire_mission_columns(issued, executed)),
    }
}

/// The gun at `place` executes `mission`: it fires one round on `launch` and
/// can fire no more. If its entity is recording, it asks for one line in its
/// fire-mission log, with the time at which the mission was issued and the
/// time now.
pub fn execute_fire_mission(
    entities: &mut Vec<LiveEntity>,
    place: usize,
    mission: &FireMission,
    launch: Launch,
    world_timer: &WorldTimer,
) -> (fired: (Bullet, Option<UpdateRecordEvent>))
    requires
        place < old(entities).len(),
        old(entities)[place as int].can_execute(),
        old(entities)[place as int].gun.unwrap().ammo_count > 0,
        world_timer.elapsed() <= u64::MAX,
    ensures
        final(entities).len() == old(entities).len(),
        forall|i: int|
            0 <= i < old(entities).len() && i != place ==> final(entities)[i] == old(entities)[i],
        has_fired(old(entities)[place as int], final(entities)[place as int]),
        fired.0.launched_by(launch),
        match fired.1 {
            Some(event) => old(entities)[place as int].telemetry is Recording && event@
                == fire_mission_event(place, mission.time, world_timer.elapsed() as u64),
            None => !(old(entities)[place as int].telemetry is Recording),
        },
{
    let mut gun = match entities[place].gun {
        Some(gun) => gun,
        None => Gun::new(1),
    };
    let bullet = gun.fire(launch);
    entities[place].gun = Some(gun);
    entities[place].can_fire = false;
    let recording = match &entities[place].telemetry {
        Telemetry::Recording(_) => true,
        _ => false,
    };
    let event = if recording {
        let (table_name, new_row) = fire_mission_row(mission, world_timer.now());
        Some(UpdateRecordEvent { record: place, table_name, new_row })
    } else {
        None
    };
    (bullet, event)
}

impl Bullet {
    /// The bullet as an entity of the world: it is recording from the start,
    /// and the position recorder sees it where it was launched.
    pub fn into_live(self, index: u32) -> (live: LiveEntity)
        ensures
            live.index == index,
            live.name is None,
            live.telemetry == Telemetry::Recording(self.record),
            live.transform == Some(self.transform),
            live.physics is None,
            live.gun is None,
            !live.can_fire,
            live.test_model is None,
    {
        LiveEntity {
            index,
            name: None,
            telemetry: Telemetry::Recording(self.record),
            transform: Some(self.transform),
            physics: None,
            gun: None,
            can_fire: false,
            test_model: None,
        }
    }
}

} // verus!
