//! Where things appear on screen: the camera follows the player.

use vstd::prelude::*;

use crate::entities::player::Player;
use crate::TILE_SIZE;

verus! {

/// A position on screen.
#[derive(Debug, Clone, Copy, PartialEq, Eq, Structural)]
pub struct ScreenPoint {
    pub x: i64,
    pub y: i64,
}

/// Where the world point (`world_x`, `world_y`) appears on screen: as far
/// from the player's place on screen as it is from the player in the world.
pub open spec fn spec_screen_position(world_x: int, world_y: int, player: Player) -> ScreenPoint {
    ScreenPoint {
        x: (world_x - player.entity.world_x + player.screen_x) as i64,
        y: (world_y - player.entity.world_y + player.screen_y) as i64,
    }
}

/// Whether something of one tile at the world point (`world_x`, `world_y`)
/// is near enough to the player to be drawn: less than the player's place
/// on screen plus one tile away, in both directions.
pub open spec fn spec_on_screen(world_x: int, world_y: int, player: Player) -> bool {
    &&& world_x + TILE_SIZE > player.entity.world_x - player.screen_x
    &&& world_x - TILE_SIZE < player.entity.world_x + player.screen_x
    &&& world_y + TILE_SIZE > player.entity.world_y - player.screen_y
    &&& world_y - TILE_SIZE < player.entity.world_y + player.screen_y
}

/// Where the world point (`world_x`, `world_y`) appears on screen.
pub fn screen_position(world_x: i32, world_y: i32, player: &Player) -> (point: ScreenPoint)
    ensures
        point == spec_screen_position(world_x as int, world_y as int, *player),
        point.x == world_x - player.entity.world_x + player.screen_x,
        point.y == world_y - player.entity.world_y + player.screen_y,
{
    ScreenPoint {
        x: world_x as i64 - player.entity.world_x as i64 + player.screen_x as i64,
        y: world_y as i64 - player.entity.world_y as i64 + player.screen_y as i64,
    }
}

/// Whether something of one tile at the world point (`world_x`, `world_y`)
/// is near enough to the player to be drawn.
pub fn is_on_screen(world_x: i32, world_y: i32, player: &Player) -> (visible: bool)
    ensures
        visible == spec_on_screen(world_x as int, world_y as int, *player),
{
    let x: i64 = world_x as i64;
    let y: i64 = world_y as i64;
    let player_x: i64 = player.entity.world_x as i64;
    let player_y: i64 = player.entity.world_y as i64;
    let reach_x: i64 = player.screen_x as i64;
    let reach_y: i64 = player.screen_y as i64;
    x + 48 > player_x - reach_x && x - 48 < player_x + reach_x && y + 48 > player_y - reach_y && y
        - 48 < player_y + reach_y
}

} // verus!
