//! Simulation core of a tile-based action-adventure game: the entity model,
//! the collision probes, combat, the event triggers and the fixed-tick update
//! pipeline. Rendering, audio playback and windowing live outside this crate.

use vstd::prelude::*;

use crate::entities::objects::asset_setter::AssetSetter;
use crate::tiles::tile::TileManager;
use crate::utils::game_event_handler::GameEventHandler;
use crate::utils::game_state_handler::GameStateHandler;
use crate::utils::key_handler::KeyHandler;
use crate::utils::sound_handler::SoundHandler;
use crate::utils::ui::UIHandler;

pub mod entities;
pub mod geometry;
pub mod simulation;
pub mod tiles;
pub mod utils;

verus! {

/// Edge length of one unscaled tile.
pub const UNSCALED_TILE_SIZE: i32 = 16;

/// Scale factor applied to every sprite and tile.
pub const SCALE: i32 = 3;

/// Edge length of one world tile, in world units.
pub const TILE_SIZE: i32 = 48;

/// Number of tile columns shown on screen.
pub const MAX_SCREEN_COL: u32 = 48;

/// Number of tile rows shown on screen.
pub const MAX_SCREEN_ROW: u32 = 16;

/// Screen width in world units.
pub const SCREEN_WIDTH: u32 = 2304;

/// Screen height in world units.
pub const SCREEN_HEIGHT: u32 = 768;

/// Number of fixed ticks simulated per second.
pub const DESIRED_FPS: u32 = 75;

/// Number of tile columns in the world grid.
pub const MAX_WORLD_COL: usize = 50;

/// Number of tile rows in the world grid.
pub const MAX_WORLD_ROW: usize = 50;

/// Width of the world in world units.
pub const WORLD_WIDTH: i32 = 2400;

/// Height of the world in world units.
pub const WORLD_HEIGHT: i32 = 2400;

/// Everything the entities consult or change besides each other: the held
/// keys, the world grid, the interface, the mode, the triggers and the
/// requests to the audio player.
#[derive(Debug)]
pub struct GameHandlers {
    pub key_handler: KeyHandler,
    pub tile_manager: TileManager,
    pub asset_setter: AssetSetter,
    pub sound_handler: SoundHandler,
    pub ui_handler: UIHandler,
    pub game_state_handler: GameStateHandler,
    pub event_handler: GameEventHandler,
}

} // verus!
