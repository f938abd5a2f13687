//! A wooden shield.

use vstd::prelude::*;

use crate::entities::entity::EntityData;
use crate::entities::entity::EntityType;
use crate::entities::entity::GameEntity;

verus! {

/// A wooden shield.
#[derive(Debug)]
pub struct ObjShieldWood {
    pub entity_data: EntityData,
}

impl ObjShieldWood {
    /// Whether `data` is the record a new one starts with, at the origin.
    pub open spec fn is_fresh(data: EntityData) -> bool {
        &&& data.name@ == "Wood Sword"@
        &&& data.description@ == "[Wood Sword]\nMade of wood."@
        &&& data.dialogues@.len() == 0
        &&& data.entity_type == EntityType::Object
        &&& data.defense_value == 1
        &&& (EntityData {
            entity_type: EntityType::Monster,
            defense_value: 0,
            ..data
        }).is_blank_but_text()
    }

    /// A new one, at the origin.
    pub fn new() -> (made: ObjShieldWood)
        ensures
            Self::is_fresh(made.entity_data),
            made.entity_data.wf(),
    {
        let mut entity_data = EntityData::default();
        entity_data.name = "Wood Sword".to_owned();
        entity_data.description = "[Wood Sword]\nMade of wood.".to_owned();
        entity_data.entity_type = EntityType::Object;
        entity_data.defense_value = 1;
        ObjShieldWood { entity_data }
    }
}

impl GameEntity for ObjShieldWood {
    open spec fn data(&self) -> EntityData {
        self.entity_data
    }

    open spec fn with_data(self, data: EntityData) -> Self {
        ObjShieldWood { entity_data: data }
    }

    fn entity_data(&self) -> (data: &EntityData) {
        &self.entity_data
    }

    fn entity_data_mut(&mut self) -> (data: &mut EntityData) {
        &mut self.entity_data
    }
}

} // verus!
