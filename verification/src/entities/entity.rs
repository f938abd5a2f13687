//! The record shared by every game entity and the rules that advance it.

use rand::Rng;
use vstd::prelude::*;
use vstd::std_specs::cmp::PartialEqSpecImpl;

use crate::entities::player::Player;
use crate::geometry::Area;
use crate::geometry::Rect;
use crate::geometry::Span;
use crate::utils::camera::is_on_screen;
use crate::utils::camera::screen_position;
use crate::utils::camera::spec_on_screen;
use crate::utils::camera::spec_screen_position;
use crate::utils::camera::ScreenPoint;
use crate::utils::game_event_handler::spec_shows;
use crate::GameHandlers;
use crate::WORLD_HEIGHT;
use crate::WORLD_WIDTH;

verus! {

/// Ticks between two sprite-frame toggles; the toggle happens on the tick
/// after the counter has exceeded this value.
pub const SPRITE_PERIOD: u32 = 12;

/// Ticks a wandering entity keeps its direction before choosing a new one.
pub const ACTION_LOCK_TICKS: i32 = 120;

/// Ticks a non-player entity stays invincible after taking damage.
pub const INVINCIBLE_TICKS: i32 = 50;

/// Ticks the player stays invincible after taking damage.
pub const PLAYER_INVINCIBLE_TICKS: i32 = 75;

/// Ticks between lethal damage and removal from the simulation.
pub const DYING_TICKS: i32 = 60;

/// Ticks a monster's health bar stays visible after its last hit.
pub const HP_BAR_TICKS: i32 = 750;

/// Last tick of an attack; the swing ends on the tick after it.
pub const ATTACK_LAST_TICK: u32 = 25;

/// Last tick of the wind-up pose of an attack.
pub const ATTACK_WINDUP_TICKS: u32 = 5;

/// The four directions an entity can face or move in.
#[derive(Debug, Clone, Copy, PartialEq, Eq, Structural)]
pub enum Direction {
    Up,
    Down,
    Left,
    Right,
}

impl Default for Direction {
    fn default() -> (d: Direction)
        ensures
            d == Direction::Down,
    {
        Direction::Down
    }
}

impl Direction {
    /// The direction that faces this one.
    pub open spec fn spec_opposite(self) -> Direction {
        match self {
            Direction::Up => Direction::Down,
            Direction::Down => Direction::Up,
            Direction::Left => Direction::Right,
            Direction::Right => Direction::Left,
        }
    }

    /// The direction that faces this one.
    pub fn opposite(self) -> (d: Direction)
        ensures
            d == self.spec_opposite(),
    {
        match self {
            Direction::Up => Direction::Down,
            Direction::Down => Direction::Up,
            Direction::Left => Direction::Right,
            Direction::Right => Direction::Left,
        }
    }
}

/// The category an entity belongs to.
#[derive(Debug, Clone, Copy, PartialEq, Eq, Structural)]
pub enum EntityType {
    Player,
    Npc,
    Monster,
    Object,
}

impl Default for EntityType {
    fn default() -> (t: EntityType)
        ensures
            t == EntityType::Monster,
    {
        EntityType::Monster
    }
}

/// The pictures an entity can be drawn with: one for each direction and
/// frame, walking or attacking.
#[derive(Debug, Clone, Copy, PartialEq, Eq, Hash, Structural)]
pub enum Sprite {
    Up1,
    Up2,
    Down1,
    Down2,
    Left1,
    Left2,
    Right1,
    Right2,
    AttackUp1,
    AttackUp2,
    AttackDown1,
    AttackDown2,
    AttackLeft1,
    AttackLeft2,
    AttackRight1,
    AttackRight2,
}

/// How to draw an entity.
#[derive(Debug, Clone, Copy, PartialEq, Eq, Structural)]
pub struct Drawing {
    /// The picture, if the sprite frame names one.
    pub sprite: Option<Sprite>,
    /// Where on screen the picture goes.
    pub at: ScreenPoint,
    /// Whether the entity is near enough to the player to be drawn.
    pub visible: bool,
    /// How opaque the picture is, in percent.
    pub alpha: u8,
    /// Whether a health bar is drawn above the picture.
    pub hp_bar: bool,
}

/// The picture of an entity that faces `direction` in the sprite frame
/// `frame`, walking or attacking; frames other than 1 and 2 have none.
pub open spec fn spec_sprite(direction: Direction, frame: u32, attacking: bool) -> Option<Sprite> {
    if frame != 1 && frame != 2 {
        None
    } else {
        Some(
            match (direction, attacking, frame == 1) {
                (Direction::Up, false, true) => Sprite::Up1,
                (Direction::Up, false, false) => Sprite::Up2,
                (Direction::Down, false, true) => Sprite::Down1,
                (Direction::Down, false, false) => Sprite::Down2,
                (Direction::Left, false, true) => Sprite::Left1,
                (Direction::Left, false, false) => Sprite::Left2,
                (Direction::Right, false, true) => Sprite::Right1,
                (Direction::Right, false, false) => Sprite::Right2,
                (Direction::Up, true, true) => Sprite::AttackUp1,
                (Direction::Up, true, false) => Sprite::AttackUp2,
                (Direction::Down, true, true) => Sprite::AttackDown1,
                (Direction::Down, true, false) => Sprite::AttackDown2,
                (Direction::Left, true, true) => Sprite::AttackLeft1,
                (Direction::Left, true, false) => Sprite::AttackLeft2,
                (Direction::Right, true, true) => Sprite::AttackRight1,
                (Direction::Right, true, false) => Sprite::AttackRight2,
            },
        )
    }
}

/// The picture of an entity that faces `direction` in the sprite frame
/// `frame`, walking or attacking.
pub fn sprite_for(direction: Direction, frame: u32, attacking: bool) -> (sprite: Option<Sprite>)
    ensures
        sprite == spec_sprite(direction, frame, attacking),
{
    if frame != 1 && frame != 2 {
        return None;
    }
    let first: bool = frame == 1;
    Some(
        match direction {
            Direction::Up => if attacking {
                if first {
                    Sprite::AttackUp1
                } else {
                    Sprite::AttackUp2
                }
            } else if first {
                Sprite::Up1
            } else {
                Sprite::Up2
            },
            Direction::Down => if attacking {
                if first {
                    Sprite::AttackDown1
                } else {
                    Sprite::AttackDown2
                }
            } else if first {
                Sprite::Down1
            } else {
                Sprite::Down2
            },
            Direction::Left => if attacking {
                if first {
                    Sprite::AttackLeft1
                } else {
                    Sprite::AttackLeft2
                }
            } else if first {
                Sprite::Left1
            } else {
                Sprite::Left2
            },
            Direction::Right => if attacking {
                if first {
                    Sprite::AttackRight1
                } else {
                    Sprite::AttackRight2
                }
            } else if first {
                Sprite::Right1
            } else {
                Sprite::Right2
            },
        },
    )
}

/// What an equipped weapon or shield contributes to its owner.
#[derive(Debug, Clone)]
pub struct Equipment {
    pub name: String,
    pub description: String,
    pub attack_value: i32,
    pub defense_value: i32,
    pub attack_area: Rect,
}

/// The state of one entity: player, NPC, monster, object or projectile.
#[derive(Debug, Clone)]
pub struct EntityData {
    pub world_x: i32,
    pub world_y: i32,
    pub speed: i32,
    pub direction: Direction,
    pub sprite_counter: u32,
    pub sprite_num: u32,
    pub solid_area: Rect,
    pub is_collision_on: bool,
    pub solid_area_default_x: i32,
    pub solid_area_default_y: i32,
    pub action_lock_counter: i32,
    pub dialogues: Vec<String>,
    pub dialogue_index: usize,
    pub max_life: i32,
    pub life: i32,
    pub name: String,
    pub description: String,
    pub is_collidable: bool,
    pub is_invincible: bool,
    pub invincible_counter: i32,
    pub entity_type: EntityType,
    pub attacking: bool,
    pub attack_area: Rect,
    pub alive: bool,
    pub dying: bool,
    pub dying_counter: i32,
    pub hp_bar_on: bool,
    pub hp_bar_counter: i32,
    pub level: i32,
    pub strength: i32,
    pub dexterity: i32,
    pub attack: i32,
    pub defense: i32,
    pub exp: i32,
    pub next_level_exp: i32,
    pub coin: i32,
    pub current_weapon: Option<Equipment>,
    pub current_shield: Option<Equipment>,
    pub attack_value: i32,
    pub defense_value: i32,
    pub use_cost: i32,
    pub projectile_thrown_by: Option<EntityType>,
}

impl Default for EntityData {
    fn default() -> (entity: EntityData)
        ensures
            entity.is_blank(),
            entity.wf(),
    {
        EntityData {
            world_x: 0,
            world_y: 0,
            speed: 0,
            direction: Direction::Down,
            sprite_counter: 0,
            sprite_num: 1,
            solid_area: Rect { x: 0, y: 0, w: 48, h: 48 },
            is_collision_on: false,
            solid_area_default_x: 0,
            solid_area_default_y: 0,
            action_lock_counter: 0,
            dialogues: Vec::new(),
            dialogue_index: 0,
            max_life: 0,
            life: 0,
            name: String::new(),
            description: String::new(),
            is_collidable: false,
            is_invincible: false,
            invincible_counter: 0,
            entity_type: EntityType::Monster,
            attacking: false,
            attack_area: Rect { x: 0, y: 0, w: 0, h: 0 },
            alive: true,
            dying: false,
            dying_counter: 0,
            hp_bar_on: false,
            hp_bar_counter: 0,
            level: 0,
            strength: 0,
            dexterity: 0,
            attack: 0,
            defense: 0,
            exp: 0,
            next_level_exp: 0,
            coin: 0,
            current_weapon: None,
            current_shield: None,
            attack_value: 0,
            defense_value: 0,
            use_cost: 0,
            projectile_thrown_by: None,
        }
    }
}

impl PartialEq for EntityData {
    /// Two records stand for the same entity when they agree on position,
    /// speed, hit-box, greatest life and name.
    fn eq(&self, other: &Self) -> (same: bool) {
        self.world_x == other.world_x && self.world_y == other.world_y && self.speed
            == other.speed && self.solid_area == other.solid_area && self.solid_area_default_x
            == other.solid_area_default_x && self.solid_area_default_y
            == other.solid_area_default_y && self.max_life == other.max_life && self.name
            == other.name
    }
}

impl PartialEqSpecImpl for EntityData {
    open spec fn obeys_eq_spec() -> bool {
        true
    }

    open spec fn eq_spec(&self, other: &EntityData) -> bool {
        self.same_entity(*other)
    }
}

/// The direction a wandering entity takes for a roll between 1 and 100: each
/// quarter of the range stands for one direction.
pub open spec fn spec_direction_for_roll(roll: u32) -> Direction {
    if roll <= 25 {
        Direction::Up
    } else if roll <= 50 {
        Direction::Down
    } else if roll <= 75 {
        Direction::Left
    } else {
        Direction::Right
    }
}

/// The direction a wandering entity takes for a roll between 1 and 100.
pub fn direction_for_roll(roll: u32) -> (d: Direction)
    ensures
        d == spec_direction_for_roll(roll),
{
    if roll <= 25 {
        Direction::Up
    } else if roll <= 50 {
        Direction::Down
    } else if roll <= 75 {
        Direction::Left
    } else {
        Direction::Right
    }
}

impl EntityData {
    /// The invariant every simulated entity keeps: life within its bounds, a
    /// valid sprite frame, counters inside their windows, and a hit-box at its
    /// default offset that lies at or after the entity's position and is no
    /// larger than the world.
    pub open spec fn wf(self) -> bool {
        &&& 0 <= self.life <= self.max_life
        &&& (self.sprite_num == 1 || self.sprite_num == 2)
        &&& self.sprite_counter <= ATTACK_LAST_TICK
        &&& 0 <= self.action_lock_counter < ACTION_LOCK_TICKS
        &&& 0 <= self.invincible_counter < PLAYER_INVINCIBLE_TICKS
        &&& 0 <= self.dying_counter < DYING_TICKS
        &&& 0 <= self.hp_bar_counter <= HP_BAR_TICKS
        &&& self.solid_area.x == self.solid_area_default_x
        &&& self.solid_area.y == self.solid_area_default_y
        &&& 0 <= self.solid_area.x
        &&& 0 <= self.solid_area.y
        &&& 0 <= self.solid_area.w
        &&& 0 <= self.solid_area.h
        &&& self.solid_area.x + self.solid_area.w <= WORLD_WIDTH
        &&& self.solid_area.y + self.solid_area.h <= WORLD_HEIGHT
        &&& self.dialogues@.len() > 0 ==> self.dialogue_index < self.dialogues@.len()
    }

    /// Whether everything but the name, the description and the lines is as
    /// in the blank record every entity starts from: a living monster at the
    /// origin that faces down, stands still, has no life and no equipment,
    /// with a hit-box of one tile and every counter at zero.
    pub open spec fn is_blank_but_text(self) -> bool {
        &&& self.world_x == 0
        &&& self.world_y == 0
        &&& self.speed == 0
        &&& self.direction == Direction::Down
        &&& self.sprite_counter == 0
        &&& self.sprite_num == 1
        &&& self.solid_area == (Rect { x: 0, y: 0, w: 48, h: 48 })
        &&& !self.is_collision_on
        &&& self.solid_area_default_x == 0
        &&& self.solid_area_default_y == 0
        &&& self.action_lock_counter == 0
        &&& self.dialogue_index == 0
        &&& self.max_life == 0
        &&& self.life == 0
        &&& !self.is_collidable
        &&& !self.is_invincible
        &&& self.invincible_counter == 0
        &&& self.entity_type == EntityType::Monster
        &&& !self.attacking
        &&& self.attack_area == (Rect { x: 0, y: 0, w: 0, h: 0 })
        &&& self.alive
        &&& !self.dying
        &&& self.dying_counter == 0
        &&& !self.hp_bar_on
        &&& self.hp_bar_counter == 0
        &&& self.level == 0
        &&& self.strength == 0
        &&& self.dexterity == 0
        &&& self.attack == 0
        &&& self.defense == 0
        &&& self.exp == 0
        &&& self.next_level_exp == 0
        &&& self.coin == 0
        &&& self.current_weapon is None
        &&& self.current_shield is None
        &&& self.attack_value == 0
        &&& self.defense_value == 0
        &&& self.use_cost == 0
        &&& self.projectile_thrown_by is None
    }

    /// The blank record every entity starts from: as above, and without a
    /// name, a description or lines.
    pub open spec fn is_blank(self) -> bool {
        &&& self.is_blank_but_text()
        &&& self.dialogues@.len() == 0
        &&& self.name@.len() == 0
        &&& self.description@.len() == 0
    }

    /// Whether two records stand for the same entity: they agree on position,
    /// speed, hit-box, greatest life and name.
    pub open spec fn same_entity(self, other: EntityData) -> bool {
        &&& self.world_x == other.world_x
        &&& self.world_y == other.world_y
        &&& self.speed == other.speed
        &&& self.solid_area == other.solid_area
        &&& self.solid_area_default_x == other.solid_area_default_x
        &&& self.solid_area_default_y == other.solid_area_default_y
        &&& self.max_life == other.max_life
        &&& self.name@ == other.name@
    }

    /// The hit-box in world coordinates.
    pub open spec fn solid_span(self) -> Span {
        Area::spec_place(self.solid_area, self.world_x as int, self.world_y as int)
    }

    /// The hit-box one step ahead: where it will be after moving by `speed`
    /// towards `direction`.
    pub open spec fn probe_span(self) -> Span {
        self.solid_span().shifted(self.direction, self.speed as int)
    }

    /// The horizontal position after one step.
    pub open spec fn stepped_x(self) -> int {
        match self.direction {
            Direction::Left => self.world_x - self.speed,
            Direction::Right => self.world_x + self.speed,
            _ => self.world_x as int,
        }
    }

    /// The vertical position after one step.
    pub open spec fn stepped_y(self) -> int {
        match self.direction {
            Direction::Up => self.world_y - self.speed,
            Direction::Down => self.world_y + self.speed,
            _ => self.world_y as int,
        }
    }

    /// Whether the position after one step is representable.
    pub open spec fn step_fits(self) -> bool {
        &&& i32::MIN <= self.stepped_x() <= i32::MAX
        &&& i32::MIN <= self.stepped_y() <= i32::MAX
    }

    /// The entity after moving by `speed` towards `direction`.
    #[verifier::opaque]
    pub open spec fn spec_step(self) -> EntityData {
        EntityData { world_x: self.stepped_x() as i32, world_y: self.stepped_y() as i32, ..self }
    }

    /// Whether the entity picks its own direction while idle.
    pub open spec fn wanders(self) -> bool {
        self.entity_type == EntityType::Npc || self.entity_type == EntityType::Monster
    }

    /// Whether the next call of `set_action` picks a new direction.
    pub open spec fn action_due(self) -> bool {
        self.wanders() && self.action_lock_counter + 1 >= ACTION_LOCK_TICKS
    }

    /// The entity after one tick of its wandering clock, where `choice` is
    /// the direction taken if a new one is due.
    #[verifier::opaque]
    pub open spec fn spec_set_action(self, choice: Direction) -> EntityData {
        if !self.wanders() {
            self
        } else if self.action_due() {
            EntityData { direction: choice, action_lock_counter: 0, ..self }
        } else {
            EntityData { action_lock_counter: (self.action_lock_counter + 1) as i32, ..self }
        }
    }

    /// The entity after one tick of the sprite clock.
    #[verifier::opaque]
    pub open spec fn spec_animate(self) -> EntityData {
        if self.sprite_counter + 1 > SPRITE_PERIOD {
            EntityData {
                sprite_num: if self.sprite_num == 1 { 2 } else { 1 },
                sprite_counter: 0,
                ..self
            }
        } else {
            EntityData { sprite_counter: (self.sprite_counter + 1) as u32, ..self }
        }
    }

    /// The entity after one tick of invincibility decay over a window of
    /// `window` ticks.
    #[verifier::opaque]
    pub open spec fn spec_decay_invincibility(self, window: i32) -> EntityData {
        if !self.is_invincible {
            self
        } else if self.invincible_counter + 1 >= window {
            EntityData { is_invincible: false, invincible_counter: 0, ..self }
        } else {
            EntityData { invincible_counter: (self.invincible_counter + 1) as i32, ..self }
        }
    }

    /// The entity after one tick of the dying countdown.
    #[verifier::opaque]
    pub open spec fn spec_decay_dying(self) -> EntityData {
        if !self.dying {
            self
        } else if self.dying_counter + 1 >= DYING_TICKS {
            EntityData { alive: false, dying: false, dying_counter: 0, ..self }
        } else {
            EntityData { dying_counter: (self.dying_counter + 1) as i32, ..self }
        }
    }

    /// The entity after one tick of the health-bar clock: the bar is shown
    /// anew while the entity is invincible, and a monster's bar is hidden
    /// once it has been visible for longer than `HP_BAR_TICKS`.
    #[verifier::opaque]
    pub open spec fn spec_tick_hp_bar(self, was_invincible: bool) -> EntityData {
        let shown = if was_invincible {
            EntityData { hp_bar_on: true, hp_bar_counter: 0, ..self }
        } else {
            self
        };
        if shown.entity_type == EntityType::Monster && shown.hp_bar_on {
            if shown.hp_bar_counter + 1 > HP_BAR_TICKS {
                EntityData { hp_bar_on: false, hp_bar_counter: 0, ..shown }
            } else {
                EntityData { hp_bar_counter: (shown.hp_bar_counter + 1) as i32, ..shown }
            }
        } else {
            shown
        }
    }

    /// The entity after damage of `amount`: untouched while invincible,
    /// otherwise life drops by `amount` but not below zero, the
    /// invincibility window opens, and the entity starts dying when no life
    /// is left.
    #[verifier::opaque]
    pub open spec fn spec_apply_damage(self, amount: u32) -> EntityData {
        if self.is_invincible {
            self
        } else {
            let life: i32 = if self.life > amount { (self.life - amount) as i32 } else { 0 };
            EntityData {
                life,
                is_invincible: true,
                invincible_counter: 0,
                dying: self.dying || life <= 0,
                ..self
            }
        }
    }

    /// Whether damage of `amount` kills the entity: it is vulnerable, not yet
    /// dying, and the damage takes its last life.
    pub open spec fn spec_dies_from(self, amount: u32) -> bool {
        !self.is_invincible && !self.dying && self.life <= amount
    }

    /// The entity after one tick of `update`: the collision flag is stored,
    /// an unobstructed entity moves one step, then the sprite clock, the
    /// invincibility window, the dying countdown and the health-bar clock
    /// advance.
    pub open spec fn spec_update(self, has_collided: bool) -> EntityData {
        let flagged = EntityData { is_collision_on: has_collided, ..self };
        let moved = if has_collided { flagged } else { flagged.spec_step() };
        moved.spec_animate().spec_decay_invincibility(INVINCIBLE_TICKS).spec_decay_dying()
            .spec_tick_hp_bar(self.is_invincible)
    }

    /// The entity after reacting to a hit that came from `damage_direction`:
    /// a monster turns to flee that way and restarts its wandering clock.
    #[verifier::opaque]
    pub open spec fn spec_damage_reaction(self, damage_direction: Direction) -> EntityData {
        if self.entity_type == EntityType::Monster {
            EntityData { action_lock_counter: 0, direction: damage_direction, ..self }
        } else {
            self
        }
    }

    /// The line the entity says next, if its cursor points at one.
    pub open spec fn spec_next_line(self) -> Option<Seq<char>> {
        if self.dialogue_index < self.dialogues@.len() {
            Some(self.dialogues@[self.dialogue_index as int]@)
        } else {
            None
        }
    }

    /// The entity after speaking to someone who faces `listener`: the cursor
    /// moves to the next line, back to the first after the last, and the
    /// entity turns to face the listener.
    #[verifier::opaque]
    pub open spec fn spec_speak(self, listener: Direction) -> EntityData {
        let cursor: usize = if self.dialogue_index >= self.dialogues@.len() {
            self.dialogue_index
        } else if self.dialogue_index + 1 == self.dialogues@.len() {
            0
        } else {
            (self.dialogue_index + 1) as usize
        };
        EntityData { dialogue_index: cursor, direction: listener.spec_opposite(), ..self }
    }

    /// How the entity is drawn when the camera follows `player`: with the
    /// walking picture of its direction and frame, at its place relative to
    /// the player, if it is near enough; a monster whose health bar is on
    /// gets the bar.
    pub open spec fn spec_draw(self, player: Player) -> Drawing {
        Drawing {
            sprite: spec_sprite(self.direction, self.sprite_num, false),
            at: spec_screen_position(self.world_x as int, self.world_y as int, player),
            visible: spec_on_screen(self.world_x as int, self.world_y as int, player),
            alpha: self.spec_transparency(),
            hp_bar: self.entity_type == EntityType::Monster && self.hp_bar_on,
        }
    }

    /// How opaque the entity is drawn, in percent: faded while invincible,
    /// blinking in spans of five ticks while dying, solid otherwise.
    pub open spec fn spec_transparency(self) -> u8 {
        if self.is_invincible && !self.dying {
            70
        } else if self.dying && self.dying_counter >= 0 && (self.dying_counter / 5) % 2 == 1 {
            0
        } else {
            100
        }
    }

    /// Whether the entity keeps its invariant.
    pub fn is_wf(&self) -> (kept: bool)
        ensures
            kept == self.wf(),
    {
        0 <= self.life && self.life <= self.max_life && (self.sprite_num == 1 || self.sprite_num
            == 2) && self.sprite_counter <= ATTACK_LAST_TICK && 0 <= self.action_lock_counter
            && self.action_lock_counter < ACTION_LOCK_TICKS && 0 <= self.invincible_counter
            && self.invincible_counter < PLAYER_INVINCIBLE_TICKS && 0 <= self.dying_counter
            && self.dying_counter < DYING_TICKS && 0 <= self.hp_bar_counter && self.hp_bar_counter
            <= HP_BAR_TICKS && self.solid_area.x == self.solid_area_default_x && self.solid_area.y
            == self.solid_area_default_y && 0 <= self.solid_area.x && 0 <= self.solid_area.y && 0
            <= self.solid_area.w && 0 <= self.solid_area.h && self.solid_area.x as i64
            + self.solid_area.w as i64 <= WORLD_WIDTH as i64 && self.solid_area.y as i64
            + self.solid_area.h as i64 <= WORLD_HEIGHT as i64 && (self.dialogues.len() == 0
            || self.dialogue_index < self.dialogues.len())
    }

    /// Applies damage of `amount` and reports whether the entity died by it.
    pub fn apply_damage(&mut self, amount: u32) -> (died: bool)
        ensures
            *final(self) == old(self).spec_apply_damage(amount),
            died == old(self).spec_dies_from(amount),
            old(self).wf() ==> final(self).wf(),
    {
        reveal(EntityData::spec_apply_damage);
        let vulnerable: bool = !self.is_invincible;
        let left: i32 = if self.life > 0 && amount < self.life as u32 {
            self.life - amount as i32
        } else {
            0
        };
        let died: bool = vulnerable && !self.dying && left <= 0;
        self.life = if vulnerable { left } else { self.life };
        self.invincible_counter = if vulnerable { 0 } else { self.invincible_counter };
        self.dying = self.dying || (vulnerable && left <= 0);
        self.is_invincible = true;
        died
    }
    /// Whether the position after one step is representable.
    pub fn can_step(&self) -> (fits: bool)
        ensures
            fits == self.step_fits(),
    {
        let x: i64 = match self.direction {
            Direction::Left => self.world_x as i64 - self.speed as i64,
            Direction::Right => self.world_x as i64 + self.speed as i64,
            _ => self.world_x as i64,
        };
        let y: i64 = match self.direction {
            Direction::Up => self.world_y as i64 - self.speed as i64,
            Direction::Down => self.world_y as i64 + self.speed as i64,
            _ => self.world_y as i64,
        };
        -0x8000_0000 <= x && x <= 0x7fff_ffff && -0x8000_0000 <= y && y <= 0x7fff_ffff
    }

    /// Moves the entity one step unless it is blocked.
    pub fn advance(&mut self, blocked: bool)
        requires
            !blocked ==> old(self).step_fits(),
        ensures
            *final(self) == if blocked { *old(self) } else { old(self).spec_step() },
            old(self).wf() ==> final(self).wf(),
    {
        reveal(EntityData::spec_step);
        let x: i32 = match self.direction {
            Direction::Left if !blocked => self.world_x - self.speed,
            Direction::Right if !blocked => self.world_x + self.speed,
            _ => self.world_x,
        };
        let y: i32 = match self.direction {
            Direction::Up if !blocked => self.world_y - self.speed,
            Direction::Down if !blocked => self.world_y + self.speed,
            _ => self.world_y,
        };
        self.world_x = x;
        self.world_y = y;
    }

    /// Advances the wandering clock, taking `choice` as the new direction
    /// when one is due.
    pub fn set_action_with(&mut self, choice: Direction)
        requires
            old(self).action_lock_counter < i32::MAX,
        ensures
            *final(self) == old(self).spec_set_action(choice),
            old(self).wf() ==> final(self).wf(),
    {
        reveal(EntityData::spec_set_action);
        let wanders: bool = self.entity_type == EntityType::Npc || self.entity_type
            == EntityType::Monster;
        let due: bool = wanders && self.action_lock_counter + 1 >= ACTION_LOCK_TICKS;
        let counter: i32 = if !wanders {
            self.action_lock_counter
        } else if due {
            0
        } else {
            self.action_lock_counter + 1
        };
        self.direction = if due { choice } else { self.direction };
        self.action_lock_counter = counter;
    }

    /// Advances the wandering clock. When a new direction is due it is drawn
    /// at random, each of the four with the same chance; until then the
    /// direction stays.
    pub fn set_action(&mut self)
        requires
            old(self).action_lock_counter < i32::MAX,
        ensures
            *final(self) == old(self).spec_set_action(final(self).direction),
            !old(self).action_due() ==> final(self).direction == old(self).direction,
            old(self).wf() ==> final(self).wf(),
    {
        reveal(EntityData::spec_set_action);
        let due: bool = (self.entity_type == EntityType::Npc || self.entity_type
            == EntityType::Monster) && self.action_lock_counter + 1 >= ACTION_LOCK_TICKS;
        let choice: Direction = if due {
            direction_for_roll(random_roll())
        } else {
            self.direction
        };
        self.set_action_with(choice);
    }

    /// Advances the sprite clock: once the counter exceeds `SPRITE_PERIOD`
    /// the frame toggles between 1 and 2 and the counter restarts.
    pub fn animate(&mut self)
        requires
            old(self).sprite_counter < u32::MAX,
        ensures
            *final(self) == old(self).spec_animate(),
            old(self).wf() ==> final(self).wf(),
    {
        reveal(EntityData::spec_animate);
        let due: bool = self.sprite_counter + 1 > SPRITE_PERIOD;
        let frame: u32 = if !due {
            self.sprite_num
        } else if self.sprite_num == 1 {
            2
        } else {
            1
        };
        let counter: u32 = if due { 0 } else { self.sprite_counter + 1 };
        self.sprite_num = frame;
        self.sprite_counter = counter;
    }

    /// Advances the invincibility window of `window` ticks and closes it when
    /// the counter reaches `window`.
    pub fn decay_invincibility(&mut self, window: i32)
        requires
            old(self).invincible_counter < i32::MAX,
        ensures
            *final(self) == old(self).spec_decay_invincibility(window),
            old(self).wf() && window <= PLAYER_INVINCIBLE_TICKS ==> final(self).wf(),
    {
        reveal(EntityData::spec_decay_invincibility);
        let over: bool = self.is_invincible && self.invincible_counter + 1 >= window;
        let counter: i32 = if !self.is_invincible {
            self.invincible_counter
        } else if over {
            0
        } else {
            self.invincible_counter + 1
        };
        self.is_invincible = self.is_invincible && !over;
        self.invincible_counter = counter;
    }

    /// Advances the dying countdown; when it reaches `DYING_TICKS` the entity
    /// is no longer alive.
    pub fn decay_dying(&mut self)
        requires
            old(self).dying_counter < i32::MAX,
        ensures
            *final(self) == old(self).spec_decay_dying(),
            old(self).wf() ==> final(self).wf(),
    {
        reveal(EntityData::spec_decay_dying);
        let over: bool = self.dying && self.dying_counter + 1 >= DYING_TICKS;
        let counter: i32 = if !self.dying {
            self.dying_counter
        } else if over {
            0
        } else {
            self.dying_counter + 1
        };
        self.alive = self.alive && !over;
        self.dying = self.dying && !over;
        self.dying_counter = counter;
    }

    /// Advances the health-bar clock.
    pub fn tick_hp_bar(&mut self, was_invincible: bool)
        requires
            old(self).hp_bar_counter < i32::MAX,
        ensures
            *final(self) == old(self).spec_tick_hp_bar(was_invincible),
            old(self).wf() ==> final(self).wf(),
    {
        reveal(EntityData::spec_tick_hp_bar);
        let shown: bool = was_invincible || self.hp_bar_on;
        let since: i32 = if was_invincible { 0 } else { self.hp_bar_counter };
        let counted: bool = self.entity_type == EntityType::Monster && shown;
        let over: bool = counted && since + 1 > HP_BAR_TICKS;
        self.hp_bar_on = shown && !over;
        self.hp_bar_counter = if !counted {
            since
        } else if over {
            0
        } else {
            since + 1
        };
    }

    /// One tick of an NPC, monster or object: stores the collision flag,
    /// moves unless blocked, and advances the sprite clock, the
    /// invincibility window, the dying countdown and the health-bar clock.
    pub fn update(&mut self, has_collided: bool)
        requires
            old(self).wf(),
            !has_collided ==> old(self).step_fits(),
        ensures
            *final(self) == old(self).spec_update(has_collided),
            final(self).wf(),
    {
        let was_invincible = self.is_invincible;
        self.is_collision_on = has_collided;
        self.advance(has_collided);
        self.animate();
        self.decay_invincibility(INVINCIBLE_TICKS);
        self.decay_dying();
        self.tick_hp_bar(was_invincible);
    }

    /// Says the next line to the player: the line becomes the dialogue text,
    /// the cursor moves on, and the entity turns to face the player. Without
    /// a line at the cursor the text stays as it is.
    pub fn speak(&mut self, game_handlers: &mut GameHandlers, player: &Player)
        ensures
            *final(self) == old(self).spec_speak(player.entity.direction),
            spec_shows(
                old(game_handlers).ui_handler,
                final(game_handlers).ui_handler,
                old(self).spec_next_line(),
            ),
            final(game_handlers).key_handler == old(game_handlers).key_handler,
            final(game_handlers).tile_manager == old(game_handlers).tile_manager,
            final(game_handlers).asset_setter == old(game_handlers).asset_setter,
            final(game_handlers).sound_handler == old(game_handlers).sound_handler,
            final(game_handlers).game_state_handler == old(game_handlers).game_state_handler,
            final(game_handlers).event_handler == old(game_handlers).event_handler,
            old(self).wf() ==> final(self).wf(),
    {
        reveal(EntityData::spec_speak);
        let has_line: bool = self.dialogue_index < self.dialogues.len();
        let cursor: usize = if !has_line {
            self.dialogue_index
        } else if self.dialogue_index + 1 == self.dialogues.len() {
            0
        } else {
            self.dialogue_index + 1
        };
        if has_line {
            game_handlers.ui_handler.current_dialogue = self.dialogues[self.dialogue_index].clone();
        }
        self.dialogue_index = cursor;
        self.direction = player.entity.direction.opposite();
    }

    /// What this entity contributes when it is equipped.
    pub fn as_equipment(&self) -> (equipment: Equipment)
        ensures
            equipment.name == self.name,
            equipment.description == self.description,
            equipment.attack_value == self.attack_value,
            equipment.defense_value == self.defense_value,
            equipment.attack_area == self.attack_area,
    {
        Equipment {
            name: self.name.clone(),
            description: self.description.clone(),
            attack_value: self.attack_value,
            defense_value: self.defense_value,
            attack_area: self.attack_area,
        }
    }

    /// Reacts to a hit that came from `damage_direction`.
    pub fn damage_reaction(&mut self, damage_direction: Direction)
        ensures
            *final(self) == old(self).spec_damage_reaction(damage_direction),
            old(self).wf() ==> final(self).wf(),
    {
        reveal(EntityData::spec_damage_reaction);
        let reacts: bool = self.entity_type == EntityType::Monster;
        self.action_lock_counter = if reacts { 0 } else { self.action_lock_counter };
        self.direction = if reacts { damage_direction } else { self.direction };
    }

    /// How the entity is drawn when the camera follows `player`.
    pub fn draw(&self, player: &Player) -> (drawing: Drawing)
        ensures
            drawing == self.spec_draw(*player),
    {
        Drawing {
            sprite: sprite_for(self.direction, self.sprite_num, false),
            at: screen_position(self.world_x, self.world_y, player),
            visible: is_on_screen(self.world_x, self.world_y, player),
            alpha: self.get_transparency(),
            hp_bar: self.entity_type == EntityType::Monster && self.hp_bar_on,
        }
    }

    /// How opaque the entity is drawn, in percent.
    pub fn get_transparency(&self) -> (alpha: u8)
        ensures
            alpha == self.spec_transparency(),
    {
        if self.is_invincible && !self.dying {
            70
        } else if self.dying && self.dying_counter >= 0 && (self.dying_counter / 5) % 2 == 1 {
            0
        } else {
            100
        }
    }
}

/// The entity after `ticks` ticks of invincibility decay over a window of
/// `window` ticks.
pub open spec fn spec_decay_invincibility_for(entity: EntityData, window: i32, ticks: nat) -> EntityData
    decreases ticks,
{
    if ticks == 0 {
        entity
    } else {
        spec_decay_invincibility_for(entity, window, (ticks - 1) as nat).spec_decay_invincibility(
            window,
        )
    }
}

/// The entity after `ticks` ticks of the wandering clock, where `choices`
/// holds for each tick the direction taken if a new one is due.
pub open spec fn spec_set_action_for(entity: EntityData, choices: Seq<Direction>, ticks: nat) -> EntityData
    decreases ticks,
{
    if ticks == 0 {
        entity
    } else {
        spec_set_action_for(entity, choices, (ticks - 1) as nat).spec_set_action(
            choices[ticks - 1],
        )
    }
}

/// The entity after `ticks` ticks of the sprite clock.
pub open spec fn spec_animate_for(entity: EntityData, ticks: nat) -> EntityData
    decreases ticks,
{
    if ticks == 0 {
        entity
    } else {
        spec_animate_for(entity, (ticks - 1) as nat).spec_animate()
    }
}

/// The other sprite frame.
pub open spec fn spec_other_frame(frame: u32) -> u32 {
    if frame == 1 {
        2
    } else {
        1
    }
}

/// Damage never takes the life out of its bounds: after any damage the life
/// of an entity that kept its invariant is between zero and its greatest
/// life, and no greater than before.
pub proof fn lemma_damage_keeps_life_in_bounds(entity: EntityData, amount: u32)
    requires
        entity.wf(),
    ensures
        0 <= entity.spec_apply_damage(amount).life <= entity.life,
        entity.spec_apply_damage(amount).life <= entity.spec_apply_damage(amount).max_life,
        entity.spec_apply_damage(amount).wf(),
{
    reveal(EntityData::spec_apply_damage);
}

/// Damage is applied once: a second hit right after the first changes
/// nothing, whatever the amounts.
pub proof fn lemma_second_hit_changes_nothing(entity: EntityData, first: u32, second: u32)
    ensures
        entity.spec_apply_damage(first).spec_apply_damage(second) == entity.spec_apply_damage(
            first,
        ),
        !entity.spec_apply_damage(first).spec_dies_from(second),
{
    reveal(EntityData::spec_apply_damage);
}

/// An entity that was hit stays invincible while fewer ticks have passed
/// than its window is long, and its counter tells how many.
pub proof fn lemma_invincible_within_window(
    entity: EntityData,
    amount: u32,
    window: i32,
    ticks: nat,
)
    requires
        !entity.is_invincible,
        ticks < window,
    ensures
        ({
            let later = spec_decay_invincibility_for(
                entity.spec_apply_damage(amount),
                window,
                ticks,
            );
            &&& later.is_invincible
            &&& later.invincible_counter == ticks
            &&& later == (EntityData {
                invincible_counter: ticks as i32,
                ..entity.spec_apply_damage(amount)
            })
        }),
    decreases ticks,
{
    reveal(EntityData::spec_apply_damage);
    reveal(EntityData::spec_decay_invincibility);
    if ticks > 0 {
        lemma_invincible_within_window(entity, amount, window, (ticks - 1) as nat);
    }
}

/// Within the invincibility window life changes at most once: a hit that
/// comes fewer ticks after another than the window is long changes
/// nothing.
pub proof fn lemma_hit_within_window_changes_nothing(
    entity: EntityData,
    first: u32,
    second: u32,
    window: i32,
    ticks: nat,
)
    requires
        !entity.is_invincible,
        ticks < window,
    ensures
        ({
            let later = spec_decay_invincibility_for(
                entity.spec_apply_damage(first),
                window,
                ticks,
            );
            &&& later.spec_apply_damage(second) == later
            &&& later.life == entity.spec_apply_damage(first).life
        }),
{
    reveal(EntityData::spec_apply_damage);
    lemma_invincible_within_window(entity, first, window, ticks);
}

/// The window closes on time: when as many ticks have passed as the window
/// is long, the entity can be hit again.
pub proof fn lemma_window_closes(entity: EntityData, amount: u32, window: i32)
    requires
        !entity.is_invincible,
        0 < window,
    ensures
        ({
            let later = spec_decay_invincibility_for(
                entity.spec_apply_damage(amount),
                window,
                window as nat,
            );
            &&& !later.is_invincible
            &&& later.invincible_counter == 0
        }),
{
    reveal(EntityData::spec_decay_invincibility);
    lemma_invincible_within_window(entity, amount, window, (window - 1) as nat);
}

/// The sprite frame holds for twelve ticks: from a counter at zero, fewer
/// than thirteen ticks leave the frame as it is and count the ticks.
pub proof fn lemma_frame_holds(entity: EntityData, ticks: nat)
    requires
        entity.sprite_counter == 0,
        ticks <= SPRITE_PERIOD,
    ensures
        spec_animate_for(entity, ticks) == (EntityData { sprite_counter: ticks as u32, ..entity }),
    decreases ticks,
{
    reveal(EntityData::spec_animate);
    if ticks > 0 {
        lemma_frame_holds(entity, (ticks - 1) as nat);
    }
}

/// The sprite frame toggles on the thirteenth tick: from a counter at zero,
/// thirteen ticks lead to the other frame and to a counter at zero again.
pub proof fn lemma_frame_toggles(entity: EntityData)
    requires
        entity.sprite_counter == 0,
    ensures
        spec_animate_for(entity, 13) == (EntityData {
            sprite_num: spec_other_frame(entity.sprite_num),
            ..entity
        }),
{
    reveal(EntityData::spec_animate);
    lemma_frame_holds(entity, 12);
}

/// A tick keeps the invariant of an entity, and with it the life between
/// zero and the greatest life; it leaves the greatest life and the hit-box
/// as they are, and never adds life.
pub proof fn lemma_update_keeps_invariant(entity: EntityData, has_collided: bool)
    requires
        entity.wf(),
    ensures
        entity.spec_update(has_collided).wf(),
        0 <= entity.spec_update(has_collided).life <= entity.spec_update(has_collided).max_life,
        entity.spec_update(has_collided).life == entity.life,
        entity.spec_update(has_collided).max_life == entity.max_life,
        entity.spec_update(has_collided).solid_area == entity.solid_area,
        entity.spec_update(has_collided).solid_area_default_x == entity.solid_area_default_x,
        entity.spec_update(has_collided).solid_area_default_y == entity.solid_area_default_y,
{
    reveal(EntityData::spec_animate);
    reveal(EntityData::spec_step);
    reveal(EntityData::spec_decay_invincibility);
    reveal(EntityData::spec_decay_dying);
    reveal(EntityData::spec_tick_hp_bar);
}

/// Whether an entity is blocked makes no difference to its sprite clock:
/// one tick of `update` moves the clock as one tick of `animate` does.
pub proof fn lemma_update_animates(entity: EntityData, has_collided: bool)
    ensures
        entity.spec_update(has_collided).sprite_counter == entity.spec_animate().sprite_counter,
        entity.spec_update(has_collided).sprite_num == entity.spec_animate().sprite_num,
{
    reveal(EntityData::spec_animate);
    reveal(EntityData::spec_step);
    reveal(EntityData::spec_decay_invincibility);
    reveal(EntityData::spec_decay_dying);
    reveal(EntityData::spec_tick_hp_bar);
}

/// The wandering clock runs for a hundred and twenty ticks: from a clock
/// at zero, fewer ticks than that only count up and leave the direction as
/// it is, whatever the choices.
pub proof fn lemma_wandering_clock_counts(entity: EntityData, choices: Seq<Direction>, ticks: nat)
    requires
        entity.wanders(),
        entity.action_lock_counter == 0,
        ticks < ACTION_LOCK_TICKS,
        ticks <= choices.len(),
    ensures
        spec_set_action_for(entity, choices, ticks) == (EntityData {
            action_lock_counter: ticks as i32,
            ..entity
        }),
    decreases ticks,
{
    reveal(EntityData::spec_set_action);
    if ticks > 0 {
        lemma_wandering_clock_counts(entity, choices, (ticks - 1) as nat);
    }
}

/// On the hundred and twentieth tick the wandering clock is back at zero
/// and the entity faces the way that was chosen on that tick.
pub proof fn lemma_wandering_clock_resets(entity: EntityData, choices: Seq<Direction>)
    requires
        entity.wanders(),
        entity.action_lock_counter == 0,
        choices.len() >= ACTION_LOCK_TICKS,
    ensures
        spec_set_action_for(entity, choices, ACTION_LOCK_TICKS as nat) == (EntityData {
            direction: choices[ACTION_LOCK_TICKS - 1],
            ..entity
        }),
{
    reveal(EntityData::spec_set_action);
    lemma_wandering_clock_counts(entity, choices, (ACTION_LOCK_TICKS - 1) as nat);
}

/// Every direction can be drawn: each of the four is the direction of
/// twenty-five of the hundred rolls.
pub proof fn lemma_rolls_are_fair(direction: Direction)
    ensures
        forall|roll: u32|
            1 <= roll <= 100 ==> (spec_direction_for_roll(roll) == direction <==> match direction {
                Direction::Up => 1 <= roll <= 25,
                Direction::Down => 26 <= roll <= 50,
                Direction::Left => 51 <= roll <= 75,
                Direction::Right => 76 <= roll <= 100,
            }),
{
}

/// What every game entity offers: its record, and through it the rules
/// that advance it.
pub trait GameEntity: Sized {
    /// The entity record.
    spec fn data(&self) -> EntityData;

    /// The entity with its record replaced by `data`.
    spec fn with_data(self, data: EntityData) -> Self;

    /// The entity record.
    fn entity_data(&self) -> (data: &EntityData)
        ensures
            *data == self.data(),
    ;

    /// The entity record, to change it.
    fn entity_data_mut(&mut self) -> (data: &mut EntityData)
        ensures
            *data == old(self).data(),
            *final(self) == old(self).with_data(*final(data)),
    ;

    /// One tick of the entity.
    fn update(&mut self, has_collided: bool)
        requires
            old(self).data().wf(),
            !has_collided ==> old(self).data().step_fits(),
        ensures
            *final(self) == old(self).with_data(old(self).data().spec_update(has_collided)),
    {
        self.entity_data_mut().update(has_collided);
    }

    /// How the entity is drawn when the camera follows `player`.
    fn draw(&self, player: &Player) -> (drawing: Drawing)
        ensures
            drawing == self.data().spec_draw(*player),
    {
        self.entity_data().draw(player)
    }

    /// How opaque the entity is drawn, in percent.
    fn get_transparency(&self) -> (alpha: u8)
        ensures
            alpha == self.data().spec_transparency(),
    {
        self.entity_data().get_transparency()
    }

    /// Advances the wandering clock; a direction that comes due is drawn at
    /// random.
    fn set_action(&mut self)
        requires
            old(self).data().action_lock_counter < i32::MAX,
        ensures
            exists|choice: Direction| *final(self) == old(self).with_data(
                #[trigger] old(self).data().spec_set_action(choice),
            ),
    {
        self.entity_data_mut().set_action();
    }

    /// Reacts to a hit that came from `damage_direction`.
    fn damage_reaction(&mut self, damage_direction: Direction)
        ensures
            *final(self) == old(self).with_data(
                old(self).data().spec_damage_reaction(damage_direction),
            ),
    {
        self.entity_data_mut().damage_reaction(damage_direction);
    }

    /// Says the next line to the player.
    fn speak(&mut self, game_handlers: &mut GameHandlers, player: &Player)
        ensures
            *final(self) == old(self).with_data(
                old(self).data().spec_speak(player.entity.direction),
            ),
            spec_shows(
                old(game_handlers).ui_handler,
                final(game_handlers).ui_handler,
                old(self).data().spec_next_line(),
            ),
            final(game_handlers).key_handler == old(game_handlers).key_handler,
            final(game_handlers).tile_manager == old(game_handlers).tile_manager,
            final(game_handlers).asset_setter == old(game_handlers).asset_setter,
            final(game_handlers).sound_handler == old(game_handlers).sound_handler,
            final(game_handlers).game_state_handler == old(game_handlers).game_state_handler,
            final(game_handlers).event_handler == old(game_handlers).event_handler,
    {
        self.entity_data_mut().speak(game_handlers, player);
    }
}

/// Draws a number with `rand::Rng::gen_range` over `1..101` from the
/// thread-local generator `rand::thread_rng`. The range is not empty, so the
/// call returns, and the number lies in it: at least 1 and at most 100. Which
/// number comes is left open.
#[verifier::external_body]
fn random_roll() -> (roll: u32)
    ensures
        1 <= roll <= 100,
{
    rand::thread_rng().gen_range(1..101)
}

} // verus!
