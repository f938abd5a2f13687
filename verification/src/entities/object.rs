//! The record of a plain object that lies in the world.

use vstd::prelude::*;

use crate::entities::player::Player;
use crate::geometry::Rect;
use crate::utils::camera::is_on_screen;
use crate::utils::camera::screen_position;
use crate::utils::camera::spec_on_screen;
use crate::utils::camera::spec_screen_position;
use crate::utils::camera::ScreenPoint;

verus! {

/// What the simulation knows of a plain object.
#[derive(Debug)]
pub struct ObjectData {
    pub name: String,
    pub is_collidable: bool,
    pub world_x: i32,
    pub world_y: i32,
    pub solid_area: Rect,
    pub solid_area_default_x: i32,
    pub solid_area_default_y: i32,
}

impl Default for ObjectData {
    fn default() -> (object: ObjectData)
        ensures
            object.name@.len() == 0,
            !object.is_collidable,
            object.world_x == 0,
            object.world_y == 0,
            object.solid_area == (Rect { x: 0, y: 0, w: 48, h: 48 }),
            object.solid_area_default_x == 0,
            object.solid_area_default_y == 0,
    {
        ObjectData {
            name: String::new(),
            is_collidable: false,
            world_x: 0,
            world_y: 0,
            solid_area: Rect { x: 0, y: 0, w: 48, h: 48 },
            solid_area_default_x: 0,
            solid_area_default_y: 0,
        }
    }
}

impl ObjectData {
    /// Where on screen the object is drawn when the camera follows
    /// `player`, if it is near enough to be drawn.
    pub open spec fn spec_draw(self, player: Player) -> Option<ScreenPoint> {
        if spec_on_screen(self.world_x as int, self.world_y as int, player) {
            Some(spec_screen_position(self.world_x as int, self.world_y as int, player))
        } else {
            None
        }
    }

    /// Where on screen the object is drawn when the camera follows
    /// `player`, if it is near enough to be drawn.
    pub fn draw(&self, player: &Player) -> (at: Option<ScreenPoint>)
        ensures
            at == self.spec_draw(*player),
    {
        if is_on_screen(self.world_x, self.world_y, player) {
            Some(screen_position(self.world_x, self.world_y, player))
        } else {
            None
        }
    }
}

/// An object that gives access to its record.
pub trait HasObjectData {
    /// The object's record.
    fn object_data(&self) -> &ObjectData;

    /// The object's record, to change it.
    fn object_data_mut(&mut self) -> &mut ObjectData;
}

} // verus!
