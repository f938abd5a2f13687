//! A fireball: a projectile that flies for eighty ticks.

use vstd::prelude::*;

use crate::entities::entity::Direction;
use crate::entities::entity::EntityData;
use crate::entities::entity::EntityType;
use crate::entities::entity::GameEntity;
use crate::entities::projectiles::projectile::Projectile;

verus! {

/// A fireball: a projectile that flies for eighty ticks.
#[derive(Debug)]
pub struct ObjFireball {
    pub entity_data: EntityData,
}

impl ObjFireball {
    /// Whether `data` is the record a new one starts with, at the origin.
    pub open spec fn is_fresh(data: EntityData) -> bool {
        &&& data.name@ == "Fireball"@
        &&& data.description@.len() == 0
        &&& data.dialogues@.len() == 0
        &&& data.entity_type == EntityType::Object
        &&& data.speed == 10
        &&& data.max_life == 80
        &&& data.life == 80
        &&& data.attack == 2
        &&& data.use_cost == 1
        &&& !data.alive
        &&& data.is_collidable
        &&& (EntityData {
            entity_type: EntityType::Monster,
            speed: 0,
            max_life: 0,
            life: 0,
            attack: 0,
            use_cost: 0,
            alive: true,
            is_collidable: false,
            ..data
        }).is_blank_but_text()
    }

    /// A new one, at the origin.
    pub fn new() -> (made: ObjFireball)
        ensures
            Self::is_fresh(made.entity_data),
            made.entity_data.wf(),
    {
        let mut entity_data = EntityData::default();
        entity_data.name = "Fireball".to_owned();
        entity_data.entity_type = EntityType::Object;
        entity_data.speed = 10;
        entity_data.max_life = 80;
        entity_data.life = 80;
        entity_data.attack = 2;
        entity_data.use_cost = 1;
        entity_data.alive = false;
        entity_data.is_collidable = true;
        ObjFireball { entity_data }
    }

    /// A new one at (`world_x`, `world_y`).
    pub fn new_positioned(world_x: i32, world_y: i32) -> (made: ObjFireball)
        ensures
            Self::is_fresh(EntityData { world_x: 0, world_y: 0, ..made.entity_data }),
            made.entity_data.world_x == world_x,
            made.entity_data.world_y == world_y,
            made.entity_data.wf(),
    {
        let mut made = ObjFireball::new();
        made.entity_data.world_x = world_x;
        made.entity_data.world_y = world_y;
        made
    }
}

impl GameEntity for ObjFireball {
    open spec fn data(&self) -> EntityData {
        self.entity_data
    }

    open spec fn with_data(self, data: EntityData) -> Self {
        ObjFireball { entity_data: data }
    }

    fn entity_data(&self) -> (data: &EntityData) {
        &self.entity_data
    }

    fn entity_data_mut(&mut self) -> (data: &mut EntityData) {
        &mut self.entity_data
    }
}

impl Projectile for ObjFireball {
    open spec fn projectile_data(&self) -> EntityData {
        self.entity_data
    }

    fn set(
        &mut self,
        world_x: i32,
        world_y: i32,
        direction: Direction,
        alive: bool,
        throw_by: EntityType,
    ) {
        self.entity_data.throw(world_x, world_y, direction, alive, throw_by);
    }

    fn update(&mut self) {
        self.entity_data.fly();
    }
}

} // verus!
