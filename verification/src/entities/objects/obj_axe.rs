//! A woodcutter's axe: a weapon that lies in the world.

use vstd::prelude::*;

use crate::entities::entity::EntityData;
use crate::entities::entity::EntityType;
use crate::entities::entity::GameEntity;
use crate::geometry::Rect;

verus! {

/// A woodcutter's axe: a weapon that lies in the world.
#[derive(Debug)]
pub struct ObjAxe {
    pub entity_data: EntityData,
}

impl ObjAxe {
    /// Whether `data` is the record a new one starts with, at the origin.
    pub open spec fn is_fresh(data: EntityData) -> bool {
        &&& data.name@ == "Woodcutter`s Axe"@
        &&& data.description@ == "[Woodcutter`s Axe]\nA bit rusty but still can cut some trees."@
        &&& data.dialogues@.len() == 0
        &&& data.entity_type == EntityType::Object
        &&& data.attack_value == 2
        &&& data.attack_area == (Rect { x: 0, y: 0, w: 30, h: 30 })
        &&& (EntityData {
            entity_type: EntityType::Monster,
            attack_value: 0,
            attack_area: Rect { x: 0, y: 0, w: 0, h: 0 },
            ..data
        }).is_blank_but_text()
    }

    /// A new one, at the origin.
    pub fn new() -> (made: ObjAxe)
        ensures
            Self::is_fresh(made.entity_data),
            made.entity_data.wf(),
    {
        let mut entity_data = EntityData::default();
        entity_data.name = "Woodcutter`s Axe".to_owned();
        entity_data.description = "[Woodcutter`s Axe]\nA bit rusty but still can cut some trees.".to_owned();
        entity_data.entity_type = EntityType::Object;
        entity_data.attack_value = 2;
        entity_data.attack_area = Rect { x: 0, y: 0, w: 30, h: 30 };
        ObjAxe { entity_data }
    }

    /// A new one at (`world_x`, `world_y`).
    pub fn new_positioned(world_x: i32, world_y: i32) -> (made: ObjAxe)
        ensures
            Self::is_fresh(EntityData { world_x: 0, world_y: 0, ..made.entity_data }),
            made.entity_data.world_x == world_x,
            made.entity_data.world_y == world_y,
            made.entity_data.wf(),
    {
        let mut made = ObjAxe::new();
        made.entity_data.world_x = world_x;
        made.entity_data.world_y = world_y;
        made
    }
}

impl GameEntity for ObjAxe {
    open spec fn data(&self) -> EntityData {
        self.entity_data
    }

    open spec fn with_data(self, data: EntityData) -> Self {
        ObjAxe { entity_data: data }
    }

    fn entity_data(&self) -> (data: &EntityData) {
        &self.entity_data
    }

    fn entity_data_mut(&mut self) -> (data: &mut EntityData) {
        &mut self.entity_data
    }
}

} // verus!
