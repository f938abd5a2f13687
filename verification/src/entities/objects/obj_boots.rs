//! A pair of boots.

use vstd::prelude::*;

use crate::entities::entity::EntityData;
use crate::entities::entity::EntityType;
use crate::entities::entity::GameEntity;

verus! {

/// A pair of boots.
#[derive(Debug)]
pub struct ObjBoots {
    pub entity_data: EntityData,
}

impl ObjBoots {
    /// Whether `data` is the record a new one starts with, at the origin.
    pub open spec fn is_fresh(data: EntityData) -> bool {
        &&& data.name@ == "Boots"@
        &&& data.description@.len() == 0
        &&& data.dialogues@.len() == 0
        &&& data.entity_type == EntityType::Object
        &&& (EntityData {
            entity_type: EntityType::Monster,
            ..data
        }).is_blank_but_text()
    }

    /// A new one at (`world_x`, `world_y`).
    pub fn new(world_x: i32, world_y: i32) -> (made: ObjBoots)
        ensures
            Self::is_fresh(EntityData { world_x: 0, world_y: 0, ..made.entity_data }),
            made.entity_data.world_x == world_x,
            made.entity_data.world_y == world_y,
            made.entity_data.wf(),
    {
        let mut entity_data = EntityData::default();
        entity_data.name = "Boots".to_owned();
        entity_data.entity_type = EntityType::Object;
        entity_data.world_x = world_x;
        entity_data.world_y = world_y;
        ObjBoots { entity_data }
    }
}

impl GameEntity for ObjBoots {
    open spec fn data(&self) -> EntityData {
        self.entity_data
    }

    open spec fn with_data(self, data: EntityData) -> Self {
        ObjBoots { entity_data: data }
    }

    fn entity_data(&self) -> (data: &EntityData) {
        &self.entity_data
    }

    fn entity_data_mut(&mut self) -> (data: &mut EntityData) {
        &mut self.entity_data
    }
}

} // verus!
