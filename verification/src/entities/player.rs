//! The player character.

use vstd::prelude::*;

use crate::entities::entity::sprite_for;
use crate::entities::entity::spec_sprite;
use crate::entities::entity::Direction;
use crate::entities::entity::Drawing;
use crate::entities::entity::EntityData;
use crate::entities::entity::EntityType;
use crate::entities::entity::Equipment;
use crate::entities::entity::GameEntity;
use crate::entities::entity::ATTACK_LAST_TICK;
use crate::entities::entity::ATTACK_WINDUP_TICKS;
use crate::entities::entity::PLAYER_INVINCIBLE_TICKS;
use crate::entities::game_event::GameEvent;
use crate::entities::objects::asset_setter::AssetSetter;
use crate::geometry::Rect;
use crate::utils::camera::ScreenPoint;
use crate::utils::game_event_handler::spec_check_event;
use crate::utils::game_event_handler::spec_shows;
use crate::utils::game_event_handler::EventOutcome;
use crate::utils::game_state_handler::GameState;
use crate::utils::game_state_handler::GameStateHandler;
use crate::utils::key_handler::KeyHandler;
use crate::utils::sound_handler::SoundHandler;
use crate::utils::ui::UIHandler;
use crate::GameHandlers;
use crate::TILE_SIZE;

verus! {

/// Damage a monster deals to the player on contact.
pub const CONTACT_DAMAGE: u32 = 1;

/// The player: its entity record and where it is drawn on screen.
#[derive(Debug)]
pub struct Player {
    pub entity: EntityData,
    pub screen_x: u32,
    pub screen_y: u32,
}

/// The attack value an equipped item adds, or nothing without an item.
pub open spec fn spec_attack_bonus(item: Option<Equipment>) -> int {
    match item {
        Some(equipment) => equipment.attack_value as int,
        None => 0,
    }
}

/// The defense value an equipped item adds, or nothing without an item.
pub open spec fn spec_defense_bonus(item: Option<Equipment>) -> int {
    match item {
        Some(equipment) => equipment.defense_value as int,
        None => 0,
    }
}

/// The damage an attack of strength `attack_power` deals to a target with
/// defense `defense`: their difference, or nothing if the defense is at
/// least as strong.
pub open spec fn spec_damage(attack_power: int, defense: int) -> u32 {
    if attack_power - defense <= 0 {
        0
    } else if attack_power - defense >= u32::MAX {
        u32::MAX
    } else {
        (attack_power - defense) as u32
    }
}

/// The damage an attack of strength `attack_power` deals to a target with
/// defense `defense`.
pub fn damage(attack_power: i64, defense: i64) -> (amount: u32)
    ensures
        amount == spec_damage(attack_power as int, defense as int),
{
    let difference: i128 = attack_power as i128 - defense as i128;
    if difference <= 0 {
        0
    } else if difference >= 0xffff_ffff {
        0xffff_ffff
    } else {
        difference as u32
    }
}

/// The direction the held keys ask for: left before right before up before
/// down, or `current` if none is held.
pub open spec fn spec_intended_direction(keys: KeyHandler, current: Direction) -> Direction {
    if keys.left_pressed {
        Direction::Left
    } else if keys.right_pressed {
        Direction::Right
    } else if keys.up_pressed {
        Direction::Up
    } else if keys.down_pressed {
        Direction::Down
    } else {
        current
    }
}

/// The mode after the player touched an NPC: on confirm a dialogue opens.
pub open spec fn spec_mode_after_contact(state: GameStateHandler, confirm: bool) -> GameStateHandler {
    if confirm {
        GameStateHandler { game_state: GameState::Dialogue, ..state }
    } else {
        state
    }
}

/// What a tick of the player reads of the handlers.
pub struct PlayerInput {
    /// The held keys.
    pub keys: KeyHandler,
    /// The triggers.
    pub events: Seq<GameEvent>,
    /// Whether the monsters are already asked back.
    pub respawn_monsters: bool,
    /// The mode and the page of the title screen.
    pub game_state: GameStateHandler,
}

/// What a tick of the player reads of `handlers`.
pub open spec fn spec_input(handlers: GameHandlers) -> PlayerInput {
    PlayerInput {
        keys: handlers.key_handler,
        events: handlers.event_handler.game_events@,
        respawn_monsters: handlers.event_handler.respawn_monsters,
        game_state: handlers.game_state_handler,
    }
}

/// What one tick of the player leads to.
pub struct PlayerOutcome {
    /// The player afterwards.
    pub player: Player,
    /// The held keys afterwards.
    pub key_handler: KeyHandler,
    /// What the check of the triggers led to.
    pub event: EventOutcome,
}

/// The outcome of a tick in which the triggers were not checked.
pub open spec fn spec_no_event(input: PlayerInput, player: Player) -> EventOutcome {
    EventOutcome {
        fired: None,
        events: input.events,
        respawn_monsters: input.respawn_monsters,
        player,
        game_state: input.game_state,
        text: None,
    }
}

/// Whether `after` is `before` once a tick of the player with this outcome
/// has passed: the keys, the triggers, the mode and the dialogue text follow
/// the outcome and everything else stays.
pub open spec fn spec_handlers_follow(
    before: GameHandlers,
    after: GameHandlers,
    outcome: PlayerOutcome,
) -> bool {
    &&& after.key_handler == outcome.key_handler
    &&& after.tile_manager == before.tile_manager
    &&& after.asset_setter == before.asset_setter
    &&& after.sound_handler == before.sound_handler
    &&& spec_shows(before.ui_handler, after.ui_handler, outcome.event.text)
    &&& after.game_state_handler == outcome.event.game_state
    &&& after.event_handler.game_events@ == outcome.event.events
    &&& after.event_handler.respawn_monsters == outcome.event.respawn_monsters
}

impl Player {
    /// The strength of the player's attack: its own attack and that of the
    /// weapon it holds.
    pub open spec fn spec_attack_power(self) -> int {
        self.entity.attack + spec_attack_bonus(self.entity.current_weapon)
    }

    /// The strength of the player's defense: its own defense and that of the
    /// shield it holds.
    pub open spec fn spec_defense_power(self) -> int {
        self.entity.defense + spec_defense_bonus(self.entity.current_shield)
    }

    /// Whether the attack is in its active swing: only then can it hurt.
    pub open spec fn spec_attack_is_live(self) -> bool {
        &&& self.entity.attacking
        &&& ATTACK_WINDUP_TICKS < self.entity.sprite_counter <= ATTACK_LAST_TICK
    }

    /// The player facing the way the held keys ask for; an attack in progress
    /// keeps its direction.
    #[verifier::opaque]
    pub open spec fn spec_resolve_intent(self, keys: KeyHandler) -> Player {
        if self.entity.attacking {
            self
        } else {
            Player {
                entity: EntityData {
                    direction: spec_intended_direction(keys, self.entity.direction),
                    ..self.entity
                },
                ..self
            }
        }
    }

    /// The player after one tick of an attack: wind-up pose for the first
    /// ticks, swing pose until the last tick, and on the tick after that the
    /// attack is over.
    #[verifier::opaque]
    pub open spec fn spec_attack(self) -> Player {
        let counter = self.entity.sprite_counter + 1;
        let entity = if counter <= ATTACK_WINDUP_TICKS {
            EntityData { sprite_counter: counter as u32, sprite_num: 1, ..self.entity }
        } else if counter <= ATTACK_LAST_TICK {
            EntityData { sprite_counter: counter as u32, sprite_num: 2, ..self.entity }
        } else {
            EntityData { sprite_counter: 0, sprite_num: 1, attacking: false, ..self.entity }
        };
        Player { entity, ..self }
    }

    /// The player once an attack has begun: the attack clock starts at zero.
    #[verifier::opaque]
    pub open spec fn spec_start_attack(self) -> Player {
        Player {
            entity: EntityData { attacking: true, sprite_counter: 0, ..self.entity },
            ..self
        }
    }

    /// The player after being hit by an attack of strength `attack`.
    #[verifier::opaque]
    pub open spec fn spec_damage_player(self, attack: int) -> Player {
        Player {
            entity: self.entity.spec_apply_damage(spec_damage(attack, self.spec_defense_power())),
            ..self
        }
    }

    /// The player after touching a monster: a live monster deals contact
    /// damage.
    #[verifier::opaque]
    pub open spec fn spec_interact_monster(self, monster: EntityData) -> Player {
        if monster.alive {
            Player { entity: self.entity.spec_apply_damage(CONTACT_DAMAGE), ..self }
        } else {
            self
        }
    }

    /// What a tick leads to for a player in the middle of an attack: the
    /// attack and the invincibility window advance.
    pub open spec fn spec_tick_attack(self, input: PlayerInput) -> PlayerOutcome {
        let struck = self.spec_attack();
        let after = Player {
            entity: struck.entity.spec_decay_invincibility(PLAYER_INVINCIBLE_TICKS),
            ..struck
        };
        PlayerOutcome { player: after, key_handler: input.keys, event: spec_no_event(input, after) }
    }

    /// What a tick leads to for a player with a key held: the player moves
    /// one step unless blocked or confirming, the triggers are checked,
    /// confirm is used up, and the sprite clock and the invincibility window
    /// advance.
    pub open spec fn spec_tick_walk(self, input: PlayerInput, has_collided: bool) -> PlayerOutcome {
        let keys = input.keys;
        let flagged = EntityData { is_collision_on: has_collided, ..self.entity };
        let moved = if !has_collided && !keys.enter_pressed {
            flagged.spec_step()
        } else {
            flagged
        };
        let event = spec_check_event(
            input.events,
            input.respawn_monsters,
            input.game_state,
            Player { entity: moved, ..self },
            keys.enter_pressed,
        );
        let after = Player {
            entity: event.player.entity.spec_animate().spec_decay_invincibility(
                PLAYER_INVINCIBLE_TICKS,
            ),
            ..event.player
        };
        PlayerOutcome {
            player: after,
            key_handler: KeyHandler { enter_pressed: false, ..keys },
            event: EventOutcome { player: after, ..event },
        }
    }

    /// What a tick leads to for a player at rest: the invincibility window
    /// advances.
    pub open spec fn spec_tick_idle(self, input: PlayerInput) -> PlayerOutcome {
        let after = Player {
            entity: self.entity.spec_decay_invincibility(PLAYER_INVINCIBLE_TICKS),
            ..self
        };
        PlayerOutcome { player: after, key_handler: input.keys, event: spec_no_event(input, after) }
    }

    /// What one tick of the player leads to: an attacking player advances
    /// the attack, a player with a key held walks, and any other rests.
    pub open spec fn spec_update(self, input: PlayerInput, has_collided: bool) -> PlayerOutcome {
        if self.entity.attacking {
            self.spec_tick_attack(input)
        } else if input.keys.spec_direction_held() || input.keys.enter_pressed {
            self.spec_tick_walk(input, has_collided)
        } else {
            self.spec_tick_idle(input)
        }
    }

    /// The NPC after the player touched it: on confirm it speaks.
    #[verifier::opaque]
    pub open spec fn spec_npc_after_contact(self, npc: EntityData, confirm: bool) -> EntityData {
        if confirm {
            npc.spec_speak(self.entity.direction)
        } else {
            npc
        }
    }

    /// Whether the step that a walking player may take is representable.
    pub open spec fn spec_walk_fits(self, keys: KeyHandler, has_collided: bool) -> bool {
        !has_collided && !keys.enter_pressed ==> self.entity.step_fits()
    }

    /// Whether the step that `update` may take is representable.
    pub open spec fn spec_update_fits(self, keys: KeyHandler, has_collided: bool) -> bool {
        !self.entity.attacking && keys.spec_direction_held() && !keys.enter_pressed
            && !has_collided ==> self.entity.step_fits()
    }

    /// How the player is drawn: at its place on screen, with the picture of
    /// its direction and frame, walking or attacking; the pictures of an
    /// attack upwards or to the left are two tiles large and start one tile
    /// before the player; an invincible player is faded.
    pub open spec fn spec_draw(self) -> Drawing {
        let attacking = self.entity.attacking;
        Drawing {
            sprite: spec_sprite(self.entity.direction, self.entity.sprite_num, attacking),
            at: ScreenPoint {
                x: if attacking && self.entity.direction == Direction::Left {
                    self.screen_x - TILE_SIZE
                } else {
                    self.screen_x as int
                } as i64,
                y: if attacking && self.entity.direction == Direction::Up {
                    self.screen_y - TILE_SIZE
                } else {
                    self.screen_y as int
                } as i64,
            },
            visible: true,
            alpha: if self.entity.is_invincible {
                70
            } else {
                100
            },
            hp_bar: false,
        }
    }

    /// How the player is drawn.
    pub fn draw(&self) -> (drawing: Drawing)
        ensures
            drawing == self.spec_draw(),
    {
        let attacking: bool = self.entity.attacking;
        let x: i64 = match self.entity.direction {
            Direction::Left if attacking => self.screen_x as i64 - 48,
            _ => self.screen_x as i64,
        };
        let y: i64 = match self.entity.direction {
            Direction::Up if attacking => self.screen_y as i64 - 48,
            _ => self.screen_y as i64,
        };
        Drawing {
            sprite: sprite_for(self.entity.direction, self.entity.sprite_num, attacking),
            at: ScreenPoint { x, y },
            visible: true,
            alpha: if self.entity.is_invincible { 70 } else { 100 },
            hp_bar: false,
        }
    }

    /// The strength of the player's attack.
    pub fn attack_power(&self) -> (power: i64)
        ensures
            power == self.spec_attack_power(),
    {
        let bonus: i64 = match &self.entity.current_weapon {
            Some(equipment) => equipment.attack_value as i64,
            None => 0,
        };
        self.entity.attack as i64 + bonus
    }

    /// The strength of the player's defense.
    pub fn defense_power(&self) -> (power: i64)
        ensures
            power == self.spec_defense_power(),
    {
        let bonus: i64 = match &self.entity.current_shield {
            Some(equipment) => equipment.defense_value as i64,
            None => 0,
        };
        self.entity.defense as i64 + bonus
    }

    /// Whether the attack is in its active swing.
    pub fn attack_is_live(&self) -> (live: bool)
        ensures
            live == self.spec_attack_is_live(),
    {
        self.entity.attacking && ATTACK_WINDUP_TICKS < self.entity.sprite_counter
            && self.entity.sprite_counter <= ATTACK_LAST_TICK
    }

    /// Turns the player the way the held keys ask for, unless it attacks.
    pub fn resolve_intent(&mut self, keys: &KeyHandler)
        ensures
            *final(self) == old(self).spec_resolve_intent(*keys),
            old(self).entity.wf() ==> final(self).entity.wf(),
    {
        reveal(Player::spec_resolve_intent);
        let direction: Direction = if self.entity.attacking {
            self.entity.direction
        } else if keys.left_pressed {
            Direction::Left
        } else if keys.right_pressed {
            Direction::Right
        } else if keys.up_pressed {
            Direction::Up
        } else if keys.down_pressed {
            Direction::Down
        } else {
            self.entity.direction
        };
        self.entity.direction = direction;
    }

    /// The player does not pick up the object at place `index`: whatever the
    /// place, nothing changes.
    pub fn pick_up_object(
        &mut self,
        index: usize,
        asset_setter: &mut AssetSetter,
        sound_handler: &mut SoundHandler,
        ui: &mut UIHandler,
    )
        ensures
            *final(self) == *old(self),
            *final(asset_setter) == *old(asset_setter),
            *final(sound_handler) == *old(sound_handler),
            *final(ui) == *old(ui),
    {
    }

    /// Takes `weapon` in hand: its attack value adds to the player's attack
    /// and its reach becomes the player's reach.
    pub fn equip_weapon(&mut self, weapon: Equipment)
        ensures
            *final(self) == (Player {
                entity: EntityData {
                    attack_area: weapon.attack_area,
                    current_weapon: Some(weapon),
                    ..old(self).entity
                },
                ..*old(self)
            }),
            old(self).entity.wf() ==> final(self).entity.wf(),
    {
        self.entity.attack_area = weapon.attack_area;
        self.entity.current_weapon = Some(weapon);
    }

    /// Takes `shield` in hand: its defense value adds to the player's
    /// defense.
    pub fn equip_shield(&mut self, shield: Equipment)
        ensures
            *final(self) == (Player {
                entity: EntityData { current_shield: Some(shield), ..old(self).entity },
                ..*old(self)
            }),
            old(self).entity.wf() ==> final(self).entity.wf(),
    {
        self.entity.current_shield = Some(shield);
    }

    /// Begins an attack.
    pub fn start_attack(&mut self)
        ensures
            *final(self) == old(self).spec_start_attack(),
            old(self).entity.wf() ==> final(self).entity.wf(),
    {
        reveal(Player::spec_start_attack);
        self.entity.attacking = true;
        self.entity.sprite_counter = 0;
    }

    /// Advances the attack by one tick.
    pub fn attack(&mut self)
        requires
            old(self).entity.sprite_counter < u32::MAX,
        ensures
            *final(self) == old(self).spec_attack(),
            old(self).entity.wf() ==> final(self).entity.wf(),
    {
        reveal(Player::spec_attack);
        let counter: u32 = self.entity.sprite_counter + 1;
        let over: bool = counter > ATTACK_LAST_TICK;
        let swinging: bool = ATTACK_WINDUP_TICKS < counter && !over;
        self.entity.sprite_counter = if over { 0 } else { counter };
        self.entity.sprite_num = if swinging { 2 } else { 1 };
        self.entity.attacking = self.entity.attacking && !over;
    }

    /// Hits `monster` with an attack of strength `attack`: the damage is
    /// `attack` less the monster's defense. Returns whether the monster died
    /// by it.
    pub fn damage_monster(&mut self, monster: &mut EntityData, attack: i64) -> (died: bool)
        ensures
            *final(self) == *old(self),
            *final(monster) == old(monster).spec_apply_damage(
                spec_damage(attack as int, old(monster).defense as int),
            ),
            died == old(monster).spec_dies_from(
                spec_damage(attack as int, old(monster).defense as int),
            ),
            old(monster).wf() ==> final(monster).wf(),
    {
        monster.apply_damage(damage(attack, monster.defense as i64))
    }

    /// The player is hit by an attack of strength `attack`: the damage is
    /// `attack` less the player's defense.
    pub fn damage_player(&mut self, attack: i64)
        ensures
            *final(self) == old(self).spec_damage_player(attack as int),
            old(self).entity.wf() ==> final(self).entity.wf(),
    {
        reveal(Player::spec_damage_player);
        let amount: u32 = damage(attack, self.defense_power());
        self.entity.apply_damage(amount);
    }

    /// The player touches `monster`: a live monster deals contact damage.
    pub fn interact_monster(&mut self, monster: &EntityData)
        ensures
            *final(self) == old(self).spec_interact_monster(*monster),
            old(self).entity.wf() ==> final(self).entity.wf(),
    {
        reveal(Player::spec_interact_monster);
        if monster.alive {
            self.entity.apply_damage(CONTACT_DAMAGE);
        }
    }

    /// The player touches `npc`: on confirm a dialogue opens and the NPC
    /// says its next line.
    pub fn interact_npc(&mut self, npc: &mut EntityData, game_handlers: &mut GameHandlers)
        ensures
            *final(self) == *old(self),
            *final(npc) == old(self).spec_npc_after_contact(
                *old(npc),
                old(game_handlers).key_handler.enter_pressed,
            ),
            spec_shows(
                old(game_handlers).ui_handler,
                final(game_handlers).ui_handler,
                if old(game_handlers).key_handler.enter_pressed {
                    old(npc).spec_next_line()
                } else {
                    None
                },
            ),
            final(game_handlers).game_state_handler == spec_mode_after_contact(
                old(game_handlers).game_state_handler,
                old(game_handlers).key_handler.enter_pressed,
            ),
            final(game_handlers).key_handler == old(game_handlers).key_handler,
            final(game_handlers).tile_manager == old(game_handlers).tile_manager,
            final(game_handlers).asset_setter == old(game_handlers).asset_setter,
            final(game_handlers).sound_handler == old(game_handlers).sound_handler,
            final(game_handlers).event_handler == old(game_handlers).event_handler,
            old(npc).wf() ==> final(npc).wf(),
    {
        reveal(Player::spec_npc_after_contact);
        if game_handlers.key_handler.enter_pressed {
            game_handlers.game_state_handler.game_state = GameState::Dialogue;
            npc.speak(game_handlers, self);
        }
    }

    fn tick_attack(&mut self, game_handlers: &GameHandlers)
        requires
            old(self).entity.wf(),
        ensures
            *final(self) == old(self).spec_tick_attack(spec_input(*game_handlers)).player,
            final(self).entity.wf(),
    {
        self.attack();
        self.entity.decay_invincibility(PLAYER_INVINCIBLE_TICKS);
    }

    fn tick_walk(&mut self, game_handlers: &mut GameHandlers, has_collided: bool) -> (fired:
        Option<usize>)
        requires
            old(self).entity.wf(),
            old(self).spec_walk_fits(old(game_handlers).key_handler, has_collided),
        ensures
            ({
                let outcome = old(self).spec_tick_walk(
                    spec_input(*old(game_handlers)),
                    has_collided,
                );
                &&& *final(self) == outcome.player
                &&& fired == outcome.event.fired
                &&& spec_handlers_follow(*old(game_handlers), *final(game_handlers), outcome)
            }),
            final(self).entity.wf(),
    {
        let ghost start = *self;
        let ghost before = *game_handlers;
        self.entity.is_collision_on = has_collided;
        self.entity.advance(has_collided || game_handlers.key_handler.enter_pressed);
        let ghost moved = *self;
        let ghost event = spec_check_event(
            before.event_handler.game_events@,
            before.event_handler.respawn_monsters,
            before.game_state_handler,
            moved,
            before.key_handler.enter_pressed,
        );
        let fired = game_handlers.event_handler.check_event(
            &mut game_handlers.game_state_handler,
            &mut game_handlers.ui_handler,
            &game_handlers.key_handler,
            self,
        );
        assert(*self == event.player);
        game_handlers.key_handler.enter_pressed = false;
        self.entity.animate();
        assert(self.entity == event.player.entity.spec_animate());
        self.entity.decay_invincibility(PLAYER_INVINCIBLE_TICKS);
        fired
    }

    fn tick_idle(&mut self, game_handlers: &GameHandlers)
        requires
            old(self).entity.wf(),
        ensures
            *final(self) == old(self).spec_tick_idle(spec_input(*game_handlers)).player,
            final(self).entity.wf(),
    {
        self.entity.decay_invincibility(PLAYER_INVINCIBLE_TICKS);
    }

    /// One tick of the player. Returns the place of the trigger that fired,
    /// if one did.
    pub fn update(&mut self, game_handlers: &mut GameHandlers, has_collided: bool) -> (fired:
        Option<usize>)
        requires
            old(self).entity.wf(),
            old(self).spec_update_fits(old(game_handlers).key_handler, has_collided),
        ensures
            ({
                let outcome = old(self).spec_update(spec_input(*old(game_handlers)), has_collided);
                &&& *final(self) == outcome.player
                &&& fired == outcome.event.fired
                &&& spec_handlers_follow(*old(game_handlers), *final(game_handlers), outcome)
            }),
            final(self).entity.wf(),
    {
        if self.entity.attacking {
            self.tick_attack(game_handlers);
            None
        } else if game_handlers.key_handler.direction_held()
            || game_handlers.key_handler.enter_pressed {
            self.tick_walk(game_handlers, has_collided)
        } else {
            self.tick_idle(game_handlers);
            None
        }
    }
}

impl GameEntity for Player {
    open spec fn data(&self) -> EntityData {
        self.entity
    }

    open spec fn with_data(self, data: EntityData) -> Self {
        Player { entity: data, ..self }
    }

    fn entity_data(&self) -> (data: &EntityData) {
        &self.entity
    }

    fn entity_data_mut(&mut self) -> (data: &mut EntityData) {
        &mut self.entity
    }
}

impl Default for Player {
    fn default() -> (player: Player)
        ensures
            player.screen_x == 1128,
            player.screen_y == 360,
            player.entity.world_x == 1104,
            player.entity.world_y == 1008,
            player.entity.speed == 4,
            player.entity.solid_area == (Rect { x: 8, y: 16, w: 32, h: 32 }),
            player.entity.solid_area_default_x == 8,
            player.entity.solid_area_default_y == 16,
            player.entity.max_life == 6,
            player.entity.life == 6,
            player.entity.entity_type == EntityType::Player,
            player.entity.attack_area == (Rect { x: 0, y: 0, w: 36, h: 36 }),
            player.entity.direction == Direction::Down,
            player.entity.alive,
            !player.entity.dying,
            !player.entity.attacking,
            !player.entity.is_invincible,
            player.entity.current_weapon is None,
            player.entity.current_shield is None,
            player.entity.attack == 0,
            player.entity.defense == 0,
            player.entity.wf(),
    {
        let mut entity = EntityData::default();
        entity.world_x = 48 * 23;
        entity.world_y = 48 * 21;
        entity.speed = 4;
        entity.solid_area = Rect { x: 8, y: 16, w: 32, h: 32 };
        entity.solid_area_default_x = 8;
        entity.solid_area_default_y = 16;
        entity.max_life = 6;
        entity.life = 6;
        entity.entity_type = EntityType::Player;
        entity.attack_area = Rect { x: 0, y: 0, w: 36, h: 36 };
        Player { screen_x: 1128, screen_y: 360, entity }
    }
}

} // verus!
