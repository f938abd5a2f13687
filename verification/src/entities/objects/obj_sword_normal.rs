//! A plain sword.

use vstd::prelude::*;

use crate::entities::entity::EntityData;
use crate::entities::entity::EntityType;
use crate::entities::entity::GameEntity;
use crate::geometry::Rect;

verus! {

/// A plain sword.
#[derive(Debug)]
pub struct ObjSwordNormal {
    pub entity_data: EntityData,
}

impl ObjSwordNormal {
    /// Whether `data` is the record a new one starts with, at the origin.
    pub open spec fn is_fresh(data: EntityData) -> bool {
        &&& data.name@ == "Normal Sword"@
        &&& data.description@ == "[Normal Sword]\nAn old sword."@
        &&& data.dialogues@.len() == 0
        &&& data.entity_type == EntityType::Object
        &&& data.attack_value == 1
        &&& data.attack_area == (Rect { x: 0, y: 0, w: 36, h: 36 })
        &&& (EntityData {
            entity_type: EntityType::Monster,
            attack_value: 0,
            attack_area: Rect { x: 0, y: 0, w: 0, h: 0 },
            ..data
        }).is_blank_but_text()
    }

    /// A new one, at the origin.
    pub fn new() -> (made: ObjSwordNormal)
        ensures
            Self::is_fresh(made.entity_data),
            made.entity_data.wf(),
    {
        let mut entity_data = EntityData::default();
        entity_data.name = "Normal Sword".to_owned();
        entity_data.description = "[Normal Sword]\nAn old sword.".to_owned();
        entity_data.entity_type = EntityType::Object;
        entity_data.attack_value = 1;
        entity_data.attack_area = Rect { x: 0, y: 0, w: 36, h: 36 };
        ObjSwordNormal { entity_data }
    }
}

impl GameEntity for ObjSwordNormal {
    open spec fn data(&self) -> EntityData {
        self.entity_data
    }

    open spec fn with_data(self, data: EntityData) -> Self {
        ObjSwordNormal { entity_data: data }
    }

    fn entity_data(&self) -> (data: &EntityData) {
        &self.entity_data
    }

    fn entity_data_mut(&mut self) -> (data: &mut EntityData) {
        &mut self.entity_data
    }
}

} // verus!
