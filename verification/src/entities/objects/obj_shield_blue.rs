//! A blue shield.

use vstd::prelude::*;

use crate::entities::entity::EntityData;
use crate::entities::entity::EntityType;
use crate::entities::entity::GameEntity;

verus! {

/// A blue shield.
#[derive(Debug)]
pub struct ObjShieldBlue {
    pub entity_data: EntityData,
}

impl ObjShieldBlue {
    /// Whether `data` is the record a new one starts with, at the origin.
    pub open spec fn is_fresh(data: EntityData) -> bool {
        &&& data.name@ == "Blue Shield"@
        &&& data.description@ == "[Blue Shield]\nA shiny blue shield."@
        &&& data.dialogues@.len() == 0
        &&& data.entity_type == EntityType::Object
        &&& data.defense_value == 2
        &&& (EntityData {
            entity_type: EntityType::Monster,
            defense_value: 0,
            ..data
        }).is_blank_but_text()
    }

    /// A new one, at the origin.
    pub fn new() -> (made: ObjShieldBlue)
        ensures
            Self::is_fresh(made.entity_data),
            made.entity_data.wf(),
    {
        let mut entity_data = EntityData::default();
        entity_data.name = "Blue Shield".to_owned();
        entity_data.description = "[Blue Shield]\nA shiny blue shield.".to_owned();
        entity_data.entity_type = EntityType::Object;
        entity_data.defense_value = 2;
        ObjShieldBlue { entity_data }
    }

    /// A new one at (`world_x`, `world_y`).
    pub fn new_positioned(world_x: i32, world_y: i32) -> (made: ObjShieldBlue)
        ensures
            Self::is_fresh(EntityData { world_x: 0, world_y: 0, ..made.entity_data }),
            made.entity_data.world_x == world_x,
            made.entity_data.world_y == world_y,
            made.entity_data.wf(),
    {
        let mut made = ObjShieldBlue::new();
        made.entity_data.world_x = world_x;
        made.entity_data.world_y = world_y;
        made
    }
}

impl GameEntity for ObjShieldBlue {
    open spec fn data(&self) -> EntityData {
        self.entity_data
    }

    open spec fn with_data(self, data: EntityData) -> Self {
        ObjShieldBlue { entity_data: data }
    }

    fn entity_data(&self) -> (data: &EntityData) {
        &self.entity_data
    }

    fn entity_data_mut(&mut self) -> (data: &mut EntityData) {
        &mut self.entity_data
    }
}

} // verus!
