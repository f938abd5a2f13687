//! An old man: an NPC that wanders and talks.

use vstd::prelude::*;

use crate::entities::entity::Direction;
use crate::entities::entity::EntityData;
use crate::entities::entity::EntityType;
use crate::entities::entity::GameEntity;
use crate::geometry::Rect;

verus! {

/// An old man: an NPC that wanders and talks.
#[derive(Debug)]
pub struct NPCOldMan {
    pub screen_x: u32,
    pub screen_y: u32,
    pub entity_data: EntityData,
}

impl NPCOldMan {
    /// The four lines the old man says, in order.
    pub open spec fn spec_dialogue() -> Seq<Seq<char>> {
        seq![
            "Hello, lad."@,
            "So you've como to this island to find the treasure?"@,
            "I used to be a great wizard but now... I'm a bit too old for taking adventure."@,
            "Well, good luck on you."@,
        ]
    }

    /// Whether `data` holds the old man's lines.
    pub open spec fn has_dialogue(data: EntityData) -> bool {
        &&& data.dialogues@.len() == Self::spec_dialogue().len()
        &&& forall|i: int|
            0 <= i < data.dialogues@.len() ==> (#[trigger] data.dialogues@[i])@
                == Self::spec_dialogue()[i]
    }

    /// Whether `data` is the record a new one starts with, at the origin.
    pub open spec fn is_fresh(data: EntityData) -> bool {
        &&& data.name@.len() == 0
        &&& data.description@.len() == 0
        &&& Self::has_dialogue(data)
        &&& data.direction == Direction::Down
        &&& data.speed == 1
        &&& data.solid_area == (Rect { x: 0, y: 24, w: 48, h: 24 })
        &&& data.solid_area_default_x == 0
        &&& data.solid_area_default_y == 24
        &&& data.entity_type == EntityType::Npc
        &&& (EntityData {
            speed: 0,
            solid_area: Rect { x: 0, y: 0, w: 48, h: 48 },
            solid_area_default_y: 0,
            entity_type: EntityType::Monster,
            ..data
        }).is_blank_but_text()
    }

    /// A new one, at the origin, with its lines.
    pub fn new() -> (made: NPCOldMan)
        ensures
            Self::is_fresh(made.entity_data),
            made.screen_x == 0,
            made.screen_y == 0,
            made.entity_data.wf(),
    {
        let mut entity_data = EntityData::default();
        entity_data.direction = Direction::Down;
        entity_data.speed = 1;
        entity_data.solid_area_default_x = 0;
        entity_data.solid_area_default_y = 24;
        entity_data.solid_area = Rect { x: 0, y: 24, w: 48, h: 24 };
        entity_data.entity_type = EntityType::Npc;
        let mut made = NPCOldMan { screen_x: 0, screen_y: 0, entity_data };
        made.set_dialogue();
        made
    }

    /// Gives the old man its lines.
    pub fn set_dialogue(&mut self)
        ensures
            Self::has_dialogue(final(self).entity_data),
            *final(self) == (NPCOldMan {
                entity_data: EntityData {
                    dialogues: final(self).entity_data.dialogues,
                    ..old(self).entity_data
                },
                ..*old(self)
            }),
    {
        let mut lines: Vec<String> = Vec::new();
        lines.push("Hello, lad.".to_owned());
        lines.push("So you've como to this island to find the treasure?".to_owned());
        lines.push(
            "I used to be a great wizard but now... I'm a bit too old for taking adventure.".to_owned(),
        );
        lines.push("Well, good luck on you.".to_owned());
        self.entity_data.dialogues = lines;
    }
}

impl GameEntity for NPCOldMan {
    open spec fn data(&self) -> EntityData {
        self.entity_data
    }

    open spec fn with_data(self, data: EntityData) -> Self {
        NPCOldMan { entity_data: data, ..self }
    }

    fn entity_data(&self) -> (data: &EntityData) {
        &self.entity_data
    }

    fn entity_data_mut(&mut self) -> (data: &mut EntityData) {
        &mut self.entity_data
    }
}

} // verus!
