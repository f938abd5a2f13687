//! A heart: the unit the player's life is shown in.

use vstd::prelude::*;

use crate::entities::entity::EntityData;
use crate::entities::entity::EntityType;
use crate::entities::entity::GameEntity;

verus! {

/// A heart: the unit the player's life is shown in.
#[derive(Debug)]
pub struct ObjHeart {
    pub entity_data: EntityData,
}

impl ObjHeart {
    /// Whether `data` is the record a new one starts with, at the origin.
    pub open spec fn is_fresh(data: EntityData) -> bool {
        &&& data.name@ == "Heart"@
        &&& data.description@.len() == 0
        &&& data.dialogues@.len() == 0
        &&& data.entity_type == EntityType::Object
        &&& data.is_collidable
        &&& (EntityData {
            entity_type: EntityType::Monster,
            is_collidable: false,
            ..data
        }).is_blank_but_text()
    }

    /// A new one at (`world_x`, `world_y`).
    pub fn new(world_x: i32, world_y: i32) -> (made: ObjHeart)
        ensures
            Self::is_fresh(EntityData { world_x: 0, world_y: 0, ..made.entity_data }),
            made.entity_data.world_x == world_x,
            made.entity_data.world_y == world_y,
            made.entity_data.wf(),
    {
        let mut entity_data = EntityData::default();
        entity_data.name = "Heart".to_owned();
        entity_data.entity_type = EntityType::Object;
        entity_data.is_collidable = true;
        entity_data.world_x = world_x;
        entity_data.world_y = world_y;
        ObjHeart { entity_data }
    }
}

impl GameEntity for ObjHeart {
    open spec fn data(&self) -> EntityData {
        self.entity_data
    }

    open spec fn with_data(self, data: EntityData) -> Self {
        ObjHeart { entity_data: data }
    }

    fn entity_data(&self) -> (data: &EntityData) {
        &self.entity_data
    }

    fn entity_data_mut(&mut self) -> (data: &mut EntityData) {
        &mut self.entity_data
    }
}

} // verus!
