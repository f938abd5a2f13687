pub mod map_text;
pub mod tile;
