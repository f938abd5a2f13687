//! The initial rosters of the world.

use vstd::prelude::*;

use crate::entities::entity::EntityData;
use crate::entities::monsters::mon_green_slime::MonGreenSlime;
use crate::entities::npc::npc_old_man::NPCOldMan;
use crate::entities::objects::obj_axe::ObjAxe;
use crate::entities::objects::obj_key::ObjKey;
use crate::entities::objects::obj_potion_red::ObjPotionRed;
use crate::entities::objects::obj_shield_blue::ObjShieldBlue;

verus! {

/// Builds the initial rosters of objects, NPCs and monsters.
#[derive(Debug, Clone, Copy, PartialEq, Eq, Structural)]
pub struct AssetSetter {}

impl Default for AssetSetter {
    fn default() -> (setter: AssetSetter) {
        AssetSetter {  }
    }
}

/// Whether `data` stands on the tile (`col`, `row`).
pub open spec fn stands_on(data: EntityData, col: int, row: int) -> bool {
    data.world_x == 48 * col && data.world_y == 48 * row
}

/// The record `data` moved to the origin.
pub open spec fn at_origin(data: EntityData) -> EntityData {
    EntityData { world_x: 0, world_y: 0, ..data }
}

impl AssetSetter {
    /// Whether `roster` is the initial roster of objects: three keys, an
    /// axe, a blue shield and a red potion, each on its tile.
    pub open spec fn is_initial_objects(roster: Seq<EntityData>) -> bool {
        &&& roster.len() == 6
        &&& ObjKey::is_fresh(at_origin(roster[0])) && stands_on(roster[0], 25, 23)
        &&& ObjKey::is_fresh(at_origin(roster[1])) && stands_on(roster[1], 21, 19)
        &&& ObjKey::is_fresh(at_origin(roster[2])) && stands_on(roster[2], 26, 21)
        &&& ObjAxe::is_fresh(at_origin(roster[3])) && stands_on(roster[3], 33, 21)
        &&& ObjShieldBlue::is_fresh(at_origin(roster[4])) && stands_on(roster[4], 35, 21)
        &&& ObjPotionRed::is_fresh(at_origin(roster[5])) && stands_on(roster[5], 22, 27)
    }

    /// Whether `roster` is the initial roster of NPCs: the old man on the
    /// tile (21, 21).
    pub open spec fn is_initial_npcs(roster: Seq<EntityData>) -> bool {
        &&& roster.len() == 1
        &&& NPCOldMan::is_fresh(at_origin(roster[0])) && stands_on(roster[0], 21, 21)
    }

    /// Whether `roster` is the initial roster of monsters: four green
    /// slimes in column 23, on the rows 36 to 39.
    pub open spec fn is_initial_monsters(roster: Seq<EntityData>) -> bool {
        &&& roster.len() == 4
        &&& forall|j: int|
            0 <= j < 4 ==> MonGreenSlime::is_fresh(at_origin(#[trigger] roster[j])) && stands_on(
                roster[j],
                23,
                36 + j,
            )
    }

    /// The initial roster of objects.
    pub fn initialize_objects() -> (roster: Vec<EntityData>)
        ensures
            Self::is_initial_objects(roster@),
            forall|j: int| 0 <= j < roster@.len() ==> (#[trigger] roster@[j]).wf(),
    {
        let mut roster: Vec<EntityData> = Vec::new();
        roster.push(ObjKey::new(48 * 25, 48 * 23).entity_data);
        roster.push(ObjKey::new(48 * 21, 48 * 19).entity_data);
        roster.push(ObjKey::new(48 * 26, 48 * 21).entity_data);
        roster.push(ObjAxe::new_positioned(48 * 33, 48 * 21).entity_data);
        roster.push(ObjShieldBlue::new_positioned(48 * 35, 48 * 21).entity_data);
        roster.push(ObjPotionRed::new_positioned(48 * 22, 48 * 27).entity_data);
        roster
    }

    /// The initial roster of NPCs.
    pub fn initialize_npcs() -> (roster: Vec<EntityData>)
        ensures
            Self::is_initial_npcs(roster@),
            forall|j: int| 0 <= j < roster@.len() ==> (#[trigger] roster@[j]).wf(),
    {
        let mut old_man = NPCOldMan::new();
        old_man.entity_data.world_x = 48 * 21;
        old_man.entity_data.world_y = 48 * 21;
        let mut roster: Vec<EntityData> = Vec::new();
        roster.push(old_man.entity_data);
        roster
    }

    /// The initial roster of monsters.
    pub fn initialize_monsters() -> (roster: Vec<EntityData>)
        ensures
            Self::is_initial_monsters(roster@),
            forall|j: int| 0 <= j < roster@.len() ==> (#[trigger] roster@[j]).wf(),
    {
        let mut roster: Vec<EntityData> = Vec::new();
        let mut row: i32 = 36;
        while row < 40
            invariant
                36 <= row <= 40,
                roster@.len() == row - 36,
                forall|j: int|
                    0 <= j < roster@.len() ==> MonGreenSlime::is_fresh(
                        at_origin(#[trigger] roster@[j]),
                    ) && stands_on(roster@[j], 23, 36 + j) && roster@[j].wf(),
            decreases 40 - row,
        {
            let mut slime = MonGreenSlime::new();
            slime.entity_data.world_x = 48 * 23;
            slime.entity_data.world_y = 48 * row;
            roster.push(slime.entity_data);
            row = row + 1;
        }
        roster
    }
}

} // verus!
