pub mod entity;
pub mod game_event;
pub mod monsters;
pub mod npc;
pub mod object;
pub mod objects;
pub mod player;
pub mod projectiles;
