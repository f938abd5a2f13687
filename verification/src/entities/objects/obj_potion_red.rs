//! A red potion: drinking it restores life.

use vstd::prelude::*;
use vstd::string::StringExecFns;

use crate::entities::entity::EntityData;
use crate::entities::entity::EntityType;
use crate::entities::entity::GameEntity;
use crate::geometry::Rect;
use crate::utils::game_state_handler::GameState;
use crate::utils::game_state_handler::GameStateHandler;
use crate::utils::sound_handler::SOUND_POWER_UP;
use crate::utils::sound_handler::SoundHandler;
use crate::utils::sound_handler::SoundRequest;
use crate::utils::text::decimal;
use crate::utils::text::spec_decimal;
use crate::utils::ui::UIHandler;

verus! {

/// A red potion: drinking it restores life.
#[derive(Debug)]
pub struct ObjPotionRed {
    pub entity_data: EntityData,
    pub value: i32,
}

impl ObjPotionRed {
    /// Whether `data` is the record a new one starts with, at the origin.
    pub open spec fn is_fresh(data: EntityData) -> bool {
        &&& data.name@ == "Red Potion"@
        &&& data.description@ == "[Red Potion]\nHeals your life by 5."@
        &&& data.dialogues@.len() == 0
        &&& data.entity_type == EntityType::Object
        &&& data.attack_area == (Rect { x: 0, y: 0, w: 30, h: 30 })
        &&& (EntityData {
            entity_type: EntityType::Monster,
            attack_area: Rect { x: 0, y: 0, w: 0, h: 0 },
            ..data
        }).is_blank_but_text()
    }

    /// A new one, at the origin.
    pub fn new() -> (made: ObjPotionRed)
        ensures
            Self::is_fresh(made.entity_data),
            made.value == 5,
            made.entity_data.wf(),
    {
        let mut entity_data = EntityData::default();
        entity_data.name = "Red Potion".to_owned();
        entity_data.description = "[Red Potion]\nHeals your life by 5.".to_owned();
        entity_data.entity_type = EntityType::Object;
        entity_data.attack_area = Rect { x: 0, y: 0, w: 30, h: 30 };
        ObjPotionRed { entity_data, value: 5 }
    }

    /// A new one at (`world_x`, `world_y`).
    pub fn new_positioned(world_x: i32, world_y: i32) -> (made: ObjPotionRed)
        ensures
            Self::is_fresh(EntityData { world_x: 0, world_y: 0, ..made.entity_data }),
            made.entity_data.world_x == world_x,
            made.entity_data.world_y == world_y,
            made.value == 5,
            made.entity_data.wf(),
    {
        let mut made = ObjPotionRed::new();
        made.entity_data.world_x = world_x;
        made.entity_data.world_y = world_y;
        made
    }

    /// The life of `entity` after drinking a potion worth `value`: more by
    /// `value`, but no more than its greatest life.
    pub open spec fn spec_healed_life(entity: EntityData, value: i32) -> int {
        if entity.life + value > entity.max_life {
            entity.max_life as int
        } else {
            entity.life + value
        }
    }

    /// The text shown when a potion called `name` and worth `value` is drunk.
    pub open spec fn spec_message(name: Seq<char>, value: i32) -> Seq<char> {
        "You drink the "@ + name + "!\nYour life has been recovered by "@ + spec_decimal(
            value as int,
        ) + "."@
    }

    /// `entity` drinks the potion: a dialogue tells of it, the life of
    /// `entity` grows by the potion's value, up to its greatest life, and
    /// the power-up sound is asked for.
    pub fn use_item(
        &mut self,
        entity: &mut EntityData,
        game_state_handler: &mut GameStateHandler,
        ui_handler: &mut UIHandler,
        sound_handler: &mut SoundHandler,
    )
        requires
            i32::MIN <= old(entity).life + old(self).value <= i32::MAX,
        ensures
            *final(self) == *old(self),
            *final(entity) == (EntityData {
                life: Self::spec_healed_life(*old(entity), old(self).value) as i32,
                ..*old(entity)
            }),
            *final(game_state_handler) == (GameStateHandler {
                game_state: GameState::Dialogue,
                ..*old(game_state_handler)
            }),
            final(ui_handler).current_dialogue@ == Self::spec_message(
                old(self).entity_data.name@,
                old(self).value,
            ),
            *final(ui_handler) == (UIHandler {
                current_dialogue: final(ui_handler).current_dialogue,
                ..*old(ui_handler)
            }),
            final(sound_handler).sounds == old(sound_handler).sounds,
            final(sound_handler).requests@ == old(sound_handler).requests@.push(
                SoundRequest::PlayEffect(SOUND_POWER_UP),
            ),
            old(entity).wf() && old(self).value >= 0 ==> final(entity).wf(),
    {
        game_state_handler.game_state = GameState::Dialogue;
        let mut message: String = "You drink the ".to_owned();
        message.append(self.entity_data.name.as_str());
        message.append("!\nYour life has been recovered by ");
        let amount: String = decimal(self.value);
        message.append(amount.as_str());
        message.append(".");
        ui_handler.current_dialogue = message;
        let raised: i32 = entity.life + self.value;
        entity.life = if raised > entity.max_life { entity.max_life } else { raised };
        sound_handler.play_sound_effect(SOUND_POWER_UP);
    }
}

impl GameEntity for ObjPotionRed {
    open spec fn data(&self) -> EntityData {
        self.entity_data
    }

    open spec fn with_data(self, data: EntityData) -> Self {
        ObjPotionRed { entity_data: data, ..self }
    }

    fn entity_data(&self) -> (data: &EntityData) {
        &self.entity_data
    }

    fn entity_data_mut(&mut self) -> (data: &mut EntityData) {
        &mut self.entity_data
    }
}

} // verus!
