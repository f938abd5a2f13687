//! A green slime: a slow monster that wanders.

use vstd::prelude::*;

use crate::entities::entity::EntityData;
use crate::entities::entity::GameEntity;
use crate::geometry::Rect;

verus! {

/// A green slime: a slow monster that wanders.
#[derive(Debug)]
pub struct MonGreenSlime {
    pub entity_data: EntityData,
}

impl MonGreenSlime {
    /// Whether `data` is the record a new one starts with, at the origin.
    pub open spec fn is_fresh(data: EntityData) -> bool {
        &&& data.name@ == "Green Slime"@
        &&& data.description@.len() == 0
        &&& data.dialogues@.len() == 0
        &&& data.speed == 1
        &&& data.max_life == 4
        &&& data.life == 4
        &&& data.solid_area == (Rect { x: 3, y: 18, w: 42, h: 30 })
        &&& data.solid_area_default_x == 3
        &&& data.solid_area_default_y == 18
        &&& (EntityData {
            speed: 0,
            max_life: 0,
            life: 0,
            solid_area: Rect { x: 0, y: 0, w: 48, h: 48 },
            solid_area_default_x: 0,
            solid_area_default_y: 0,
            ..data
        }).is_blank_but_text()
    }

    /// A new one, at the origin.
    pub fn new() -> (made: MonGreenSlime)
        ensures
            Self::is_fresh(made.entity_data),
            made.entity_data.wf(),
    {
        let mut entity_data = EntityData::default();
        entity_data.name = "Green Slime".to_owned();
        entity_data.speed = 1;
        entity_data.max_life = 4;
        entity_data.life = 4;
        entity_data.solid_area = Rect { x: 3, y: 18, w: 42, h: 30 };
        entity_data.solid_area_default_x = 3;
        entity_data.solid_area_default_y = 18;
        MonGreenSlime { entity_data }
    }
}

impl GameEntity for MonGreenSlime {
    open spec fn data(&self) -> EntityData {
        self.entity_data
    }

    open spec fn with_data(self, data: EntityData) -> Self {
        MonGreenSlime { entity_data: data }
    }

    fn entity_data(&self) -> (data: &EntityData) {
        &self.entity_data
    }

    fn entity_data_mut(&mut self) -> (data: &mut EntityData) {
        &mut self.entity_data
    }
}

} // verus!
