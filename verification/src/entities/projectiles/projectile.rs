//! Projectiles: entities that fly straight until their life runs out.

use vstd::prelude::*;

use crate::entities::entity::Direction;
use crate::entities::entity::EntityData;
use crate::entities::entity::EntityType;

verus! {

impl EntityData {
    /// Whether the whole remaining flight is representable: the projectile
    /// flies `speed` units for each life it has left.
    pub open spec fn flight_fits(self) -> bool {
        &&& 0 <= self.speed
        &&& i32::MIN <= self.world_x - self.life * self.speed
        &&& self.world_x + self.life * self.speed <= i32::MAX
        &&& i32::MIN <= self.world_y - self.life * self.speed
        &&& self.world_y + self.life * self.speed <= i32::MAX
    }

    /// The projectile after being thrown by `throw_by` from (`world_x`,
    /// `world_y`) towards `direction`.
    #[verifier::opaque]
    pub open spec fn spec_set(
        self,
        world_x: i32,
        world_y: i32,
        direction: Direction,
        alive: bool,
        throw_by: EntityType,
    ) -> EntityData {
        EntityData {
            world_x,
            world_y,
            direction,
            alive,
            projectile_thrown_by: Some(throw_by),
            ..self
        }
    }

    /// The projectile after one tick of flight: with life left it moves one
    /// step and loses one life; without life left it is no longer alive; and
    /// the sprite clock advances.
    #[verifier::opaque]
    pub open spec fn spec_fly(self) -> EntityData {
        let moved = if self.life > 0 {
            self.spec_step()
        } else {
            self
        };
        let life: i32 = if self.life > 0 {
            (self.life - 1) as i32
        } else {
            self.life
        };
        (EntityData { life, alive: self.alive && life > 0, ..moved }).spec_animate()
    }

    /// A projectile with life left can take its next step.
    pub proof fn lemma_flight_step_fits(self)
        requires
            self.flight_fits(),
            self.life > 0,
        ensures
            self.step_fits(),
            self.world_x - self.speed - (self.life - 1) * self.speed == self.world_x - self.life
                * self.speed,
            self.world_x + self.speed + (self.life - 1) * self.speed == self.world_x + self.life
                * self.speed,
            self.world_y - self.speed - (self.life - 1) * self.speed == self.world_y - self.life
                * self.speed,
            self.world_y + self.speed + (self.life - 1) * self.speed == self.world_y + self.life
                * self.speed,
            0 <= (self.life - 1) * self.speed,
    {
        let life = self.life as int;
        let speed = self.speed as int;
        assert((life - 1) * speed == life * speed - speed) by (nonlinear_arith);
        assert(0 <= (life - 1) * speed) by (nonlinear_arith)
            requires
                life > 0,
                speed >= 0,
        ;
    }

    /// Whether the whole remaining flight is representable.
    pub fn can_finish_flight(&self) -> (fits: bool)
        ensures
            fits == self.flight_fits(),
    {
        let life: i64 = self.life as i64;
        let speed: i64 = self.speed as i64;
        assert(-0x4000_0000_0000_0000 <= life * speed <= 0x4000_0000_0000_0000)
            by (nonlinear_arith)
            requires
                -0x8000_0000 <= life <= 0x8000_0000,
                -0x8000_0000 <= speed <= 0x8000_0000,
        ;
        let reach: i64 = life * speed;
        0 <= speed && -0x8000_0000 <= self.world_x as i64 - reach && self.world_x as i64 + reach
            <= 0x7fff_ffff && -0x8000_0000 <= self.world_y as i64 - reach && self.world_y as i64
            + reach <= 0x7fff_ffff
    }

    /// A tick of flight keeps the invariant of a projectile, and with it
    /// the life between zero and the greatest life.
    pub proof fn lemma_fly_keeps_invariant(self)
        requires
            self.wf(),
        ensures
            self.spec_fly().wf(),
            0 <= self.spec_fly().life <= self.life,
            self.spec_fly().max_life == self.max_life,
            self.spec_fly().alive ==> self.alive && self.spec_fly().life > 0,
    {
        reveal(EntityData::spec_fly);
        reveal(EntityData::spec_step);
        reveal(EntityData::spec_animate);
    }

    /// Throws the projectile: it starts at (`world_x`, `world_y`), flies
    /// towards `direction` and remembers who threw it.
    pub fn throw(
        &mut self,
        world_x: i32,
        world_y: i32,
        direction: Direction,
        alive: bool,
        throw_by: EntityType,
    )
        ensures
            *final(self) == old(self).spec_set(world_x, world_y, direction, alive, throw_by),
            old(self).wf() ==> final(self).wf(),
    {
        reveal(EntityData::spec_set);
        self.world_x = world_x;
        self.world_y = world_y;
        self.direction = direction;
        self.alive = alive;
        self.projectile_thrown_by = Some(throw_by);
    }

    /// One tick of flight.
    pub fn fly(&mut self)
        requires
            old(self).wf(),
            old(self).flight_fits(),
        ensures
            *final(self) == old(self).spec_fly(),
            final(self).wf(),
            final(self).flight_fits(),
    {
        reveal(EntityData::spec_fly);
        reveal(EntityData::spec_step);
        reveal(EntityData::spec_animate);
        proof {
            if self.life > 0 {
                self.lemma_flight_step_fits();
            }
        }
        let flying: bool = self.life > 0;
        let life: i32 = if flying { self.life - 1 } else { self.life };
        self.advance(!flying);
        self.life = life;
        self.alive = self.alive && life > 0;
        self.animate();
    }
}

/// What every projectile can do.
pub trait Projectile {
    /// The entity record of the projectile.
    spec fn projectile_data(&self) -> EntityData;

    /// Throws the projectile: it starts at (`world_x`, `world_y`), flies
    /// towards `direction` and remembers who threw it.
    fn set(
        &mut self,
        world_x: i32,
        world_y: i32,
        direction: Direction,
        alive: bool,
        throw_by: EntityType,
    )
        ensures
            final(self).projectile_data() == old(self).projectile_data().spec_set(
                world_x,
                world_y,
                direction,
                alive,
                throw_by,
            ),
    ;

    /// One tick of flight.
    fn update(&mut self)
        requires
            old(self).projectile_data().wf(),
            old(self).projectile_data().flight_fits(),
        ensures
            final(self).projectile_data() == old(self).projectile_data().spec_fly(),
            final(self).projectile_data().wf(),
            final(self).projectile_data().flight_fits(),
    ;
}

} // verus!
