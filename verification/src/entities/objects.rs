pub mod asset_setter;
pub mod obj_axe;
pub mod obj_boots;
pub mod obj_chest;
pub mod obj_door;
pub mod obj_fireball;
pub mod obj_heart;
pub mod obj_key;
pub mod obj_potion_red;
pub mod obj_shield_blue;
pub mod obj_shield_wood;
pub mod obj_sword_normal;
