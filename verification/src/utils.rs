pub mod camera;
pub mod collision_checker;
pub mod game_event_handler;
pub mod game_state_handler;
pub mod key_handler;
pub mod sound_handler;
pub mod text;
pub mod ui;
