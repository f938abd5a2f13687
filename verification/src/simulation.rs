//! The fixed-tick update pipeline: the player, then the NPCs, the monsters
//! and the projectiles, in this order.

use vstd::prelude::*;

use crate::entities::entity::Direction;
use crate::entities::entity::EntityData;
use crate::entities::entity::EntityType;
use crate::entities::objects::asset_setter::AssetSetter;
use crate::entities::objects::obj_fireball::ObjFireball;
use crate::entities::objects::obj_shield_wood::ObjShieldWood;
use crate::entities::objects::obj_sword_normal::ObjSwordNormal;
use crate::entities::player::spec_damage;
use crate::entities::player::spec_input;
use crate::entities::player::spec_mode_after_contact;
use crate::entities::player::PlayerInput;
use crate::entities::player::Player;
use crate::tiles::tile::TileManager;
use crate::utils::collision_checker::check_entity;
use crate::utils::collision_checker::check_entity_hit;
use crate::utils::collision_checker::check_object;
use crate::utils::collision_checker::spec_check_entity_hit;
use crate::utils::collision_checker::spec_check_object;
use crate::utils::collision_checker::check_player;
use crate::utils::collision_checker::check_tile;
use crate::utils::collision_checker::spec_check_entity;
use crate::utils::collision_checker::spec_check_player;
use crate::utils::collision_checker::spec_check_tile;
use crate::utils::game_event_handler::spec_shows;
use crate::utils::game_event_handler::EventOutcome;
use crate::utils::game_state_handler::GameState;
use crate::utils::game_state_handler::GameStateHandler;
use crate::utils::key_handler::KeyHandler;
use crate::utils::game_event_handler::GameEventHandler;
use crate::utils::sound_handler::SoundHandler;
use crate::utils::sound_handler::SoundRequest;
use crate::utils::sound_handler::SOUND_POWER_UP;
use crate::utils::sound_handler::SOUND_RECEIVE_DAMAGE;
use crate::utils::ui::spec_aged;
use crate::utils::ui::UIHandler;
use crate::GameHandlers;

verus! {

/// Whether every entity of the roster keeps its invariant.
pub open spec fn all_wf(roster: Seq<EntityData>) -> bool {
    forall|j: int| 0 <= j < roster.len() ==> (#[trigger] roster[j]).wf()
}

/// Whether every entity of the roster keeps its invariant.
pub fn roster_is_wf(roster: &Vec<EntityData>) -> (kept: bool)
    ensures
        kept == all_wf(roster@),
{
    let mut i: usize = 0;
    while i < roster.len()
        invariant
            i <= roster@.len(),
            forall|j: int| 0 <= j < i ==> (#[trigger] roster@[j]).wf(),
        decreases roster@.len() - i,
    {
        if !roster[i].is_wf() {
            return false;
        }
        i = i + 1;
    }
    true
}

/// Whether one step of the NPC `npc` is blocked: by the grid, by another
/// NPC, by the player or by a monster.
pub open spec fn spec_npc_blocked(
    npc: EntityData,
    npcs: Seq<EntityData>,
    tiles: TileManager,
    player: Player,
    monsters: Seq<EntityData>,
) -> bool {
    ||| spec_check_tile(npc, tiles)
    ||| spec_check_entity(npc, npcs) is Some
    ||| spec_check_player(npc, player)
    ||| spec_check_entity(npc, monsters) is Some
}

/// The roster after the turn of the NPC at place `i`: it advances its
/// wandering clock, taking `choice` if a new direction is due, looks one
/// step ahead, and then passes one tick.
#[verifier::opaque]
pub open spec fn spec_npc_turn(
    npcs: Seq<EntityData>,
    i: int,
    choice: Direction,
    tiles: TileManager,
    player: Player,
    monsters: Seq<EntityData>,
) -> Seq<EntityData> {
    let chosen = npcs[i].spec_set_action(choice);
    let roster = npcs.update(i, chosen);
    roster.update(i, chosen.spec_update(spec_npc_blocked(chosen, roster, tiles, player, monsters)))
}

/// The roster after the turns of the first `count` NPCs, in order, where
/// `choices` holds the direction each takes if a new one is due.
pub open spec fn spec_update_npcs(
    npcs: Seq<EntityData>,
    choices: Seq<Direction>,
    tiles: TileManager,
    player: Player,
    monsters: Seq<EntityData>,
    count: int,
) -> Seq<EntityData>
    decreases count,
{
    if count <= 0 {
        npcs
    } else {
        spec_npc_turn(
            spec_update_npcs(npcs, choices, tiles, player, monsters, count - 1),
            count - 1,
            choices[count - 1],
            tiles,
            player,
            monsters,
        )
    }
}

/// The turns of the first `count` NPCs read only the first `count` choices.
pub proof fn lemma_update_npcs_reads_prefix(
    npcs: Seq<EntityData>,
    choices: Seq<Direction>,
    more: Seq<Direction>,
    tiles: TileManager,
    player: Player,
    monsters: Seq<EntityData>,
    count: int,
)
    requires
        count <= choices.len() <= more.len(),
        forall|j: int| 0 <= j < choices.len() ==> choices[j] == more[j],
    ensures
        spec_update_npcs(npcs, choices, tiles, player, monsters, count) == spec_update_npcs(
            npcs,
            more,
            tiles,
            player,
            monsters,
            count,
        ),
    decreases count,
{
    if count > 0 {
        lemma_update_npcs_reads_prefix(npcs, choices, more, tiles, player, monsters, count - 1);
    }
}

/// One tick of every NPC, in roster order: each advances its wandering
/// clock, looks one step ahead for the grid, the other NPCs, the player and
/// the monsters, and passes one tick. The directions that come due are drawn
/// at random.
pub fn update_npcs(
    npcs: &mut Vec<EntityData>,
    objects: &Vec<EntityData>,
    monsters: &Vec<EntityData>,
    game_handlers: &GameHandlers,
    player: &Player,
)
    requires
        all_wf(old(npcs)@),
        game_handlers.tile_manager.wf(),
    ensures
        exists|choices: Seq<Direction>|
            choices.len() == old(npcs)@.len() && final(npcs)@ == #[trigger] spec_update_npcs(
                old(npcs)@,
                choices,
                game_handlers.tile_manager,
                *player,
                monsters@,
                old(npcs)@.len() as int,
            ),
        final(npcs)@.len() == old(npcs)@.len(),
        all_wf(final(npcs)@),
{
    let count: usize = npcs.len();
    let ghost mut choices: Seq<Direction> = Seq::empty();
    let mut i: usize = 0;
    while i < count
        invariant
            i <= count,
            count == npcs@.len(),
            count == old(npcs)@.len(),
            all_wf(npcs@),
            game_handlers.tile_manager.wf(),
            choices.len() == i,
            npcs@ == spec_update_npcs(
                old(npcs)@,
                choices,
                game_handlers.tile_manager,
                *player,
                monsters@,
                i as int,
            ),
        decreases count - i,
    {
        let ghost before = npcs@;
        let ghost earlier = choices;
        npcs[i].set_action();
        let ghost choice = npcs@[i as int].direction;
        let ghost roster = npcs@;
        let blocked: bool = check_tile(&npcs[i], &game_handlers.tile_manager) || check_entity(
            &npcs[i],
            npcs,
        ).is_some() || check_player(&npcs[i], player) || check_entity(&npcs[i], monsters).is_some();
        npcs[i].update(blocked);
        proof {
            reveal(spec_npc_turn);
            choices = earlier.push(choice);
            assert(roster =~= before.update(i as int, before[i as int].spec_set_action(choice)));
            assert(npcs@ =~= roster.update(i as int, roster[i as int].spec_update(blocked)));
            lemma_update_npcs_reads_prefix(
                old(npcs)@,
                earlier,
                choices,
                game_handlers.tile_manager,
                *player,
                monsters@,
                i as int,
            );
            assert forall|j: int| 0 <= j < npcs@.len() implies (#[trigger] npcs@[j]).wf() by {
                if j != i {
                    assert(npcs@[j] == before[j]);
                }
            }
        }
        i = i + 1;
    }
}

/// The entities of the roster that are alive, in their order.
pub open spec fn spec_alive_only(roster: Seq<EntityData>) -> Seq<EntityData>
    decreases roster.len(),
{
    if roster.len() == 0 {
        Seq::empty()
    } else if roster.last().alive {
        spec_alive_only(roster.drop_last()).push(roster.last())
    } else {
        spec_alive_only(roster.drop_last())
    }
}

/// Every entity that `spec_alive_only` keeps is alive, and keeps its
/// invariant if every entity of the roster did.
pub proof fn lemma_alive_only(roster: Seq<EntityData>)
    ensures
        forall|j: int|
            0 <= j < spec_alive_only(roster).len() ==> (#[trigger] spec_alive_only(roster)[j]).alive,
        all_wf(roster) ==> all_wf(spec_alive_only(roster)),
        spec_alive_only(roster).len() <= roster.len(),
    decreases roster.len(),
{
    if roster.len() > 0 {
        lemma_alive_only(roster.drop_last());
        if all_wf(roster) {
            assert forall|j: int| 0 <= j < roster.drop_last().len() implies (
            #[trigger] roster.drop_last()[j]).wf() by {
                assert(roster.drop_last()[j] == roster[j]);
            }
        }
    }
}

/// Removes the entities that are no longer alive; the others keep their
/// order.
pub fn remove_dead(roster: &mut Vec<EntityData>)
    ensures
        final(roster)@ == spec_alive_only(old(roster)@),
{
    let ghost mut seen: int = 0;
    let mut i: usize = 0;
    while i < roster.len()
        invariant
            i <= roster@.len(),
            0 <= seen <= old(roster)@.len(),
            roster@.len() - i == old(roster)@.len() - seen,
            roster@.take(i as int) == spec_alive_only(old(roster)@.take(seen)),
            roster@.skip(i as int) == old(roster)@.skip(seen),
        decreases roster@.len() - i,
    {
        let ghost before = roster@;
        proof {
            assert(before[i as int] == before.skip(i as int)[0]);
            assert(old(roster)@[seen] == old(roster)@.skip(seen)[0]);
            assert(old(roster)@.take(seen + 1).drop_last() =~= old(roster)@.take(seen));
            assert(old(roster)@.take(seen + 1).last() == old(roster)@[seen]);
        }
        if roster[i].alive {
            proof {
                assert(before.take(i + 1) =~= before.take(i as int).push(before[i as int]));
                assert(before.skip(i + 1) =~= before.skip(i as int).skip(1));
                assert(old(roster)@.skip(seen + 1) =~= old(roster)@.skip(seen).skip(1));
            }
            i = i + 1;
        } else {
            roster.remove(i);
            proof {
                assert(roster@.take(i as int) =~= before.take(i as int));
                assert(roster@.skip(i as int) =~= before.skip(i as int).skip(1));
                assert(old(roster)@.skip(seen + 1) =~= old(roster)@.skip(seen).skip(1));
            }
        }
        proof {
            seen = seen + 1;
        }
    }
    proof {
        assert(roster@.take(i as int) =~= roster@);
        assert(old(roster)@.take(seen) =~= old(roster)@);
    }
}

/// What the turns of the monsters lead to.
pub struct MonsterStage {
    /// The monsters afterwards.
    pub monsters: Seq<EntityData>,
    /// The player afterwards.
    pub player: Player,
}

/// The roster and the player after the turn of the monster at place `i`. A
/// monster that is no longer alive does nothing. A live one advances its
/// wandering clock, taking `choice` if a new direction is due, and looks one
/// step ahead: for the grid, then the NPCs, then the player, then the other
/// monsters. If it is the player that stops it, the player takes contact
/// damage. At last the monster passes one tick.
#[verifier::opaque]
pub open spec fn spec_monster_turn(
    stage: MonsterStage,
    i: int,
    choice: Direction,
    tiles: TileManager,
    npcs: Seq<EntityData>,
) -> MonsterStage {
    if !stage.monsters[i].alive {
        stage
    } else {
        let chosen = stage.monsters[i].spec_set_action(choice);
        let roster = stage.monsters.update(i, chosen);
        let on_way = spec_check_tile(chosen, tiles) || spec_check_entity(chosen, npcs) is Some;
        let touches = !on_way && spec_check_player(chosen, stage.player);
        let blocked = on_way || touches || spec_check_entity(chosen, roster) is Some;
        MonsterStage {
            monsters: roster.update(i, chosen.spec_update(blocked)),
            player: if touches {
                stage.player.spec_interact_monster(chosen)
            } else {
                stage.player
            },
        }
    }
}

/// The roster and the player after the turns of the first `count` monsters,
/// in order, where `choices` holds the direction each takes if a new one is
/// due.
pub open spec fn spec_monster_turns(
    stage: MonsterStage,
    choices: Seq<Direction>,
    tiles: TileManager,
    npcs: Seq<EntityData>,
    count: int,
) -> MonsterStage
    decreases count,
{
    if count <= 0 {
        stage
    } else {
        spec_monster_turn(
            spec_monster_turns(stage, choices, tiles, npcs, count - 1),
            count - 1,
            choices[count - 1],
            tiles,
            npcs,
        )
    }
}

/// The roster and the player after one tick of the monsters: every monster
/// takes its turn, then those no longer alive leave the roster.
pub open spec fn spec_update_monsters(
    monsters: Seq<EntityData>,
    player: Player,
    choices: Seq<Direction>,
    tiles: TileManager,
    npcs: Seq<EntityData>,
) -> MonsterStage {
    let turned = spec_monster_turns(
        MonsterStage { monsters, player },
        choices,
        tiles,
        npcs,
        monsters.len() as int,
    );
    MonsterStage { monsters: spec_alive_only(turned.monsters), player: turned.player }
}

/// The turns of the first `count` monsters read only the first `count`
/// choices.
pub proof fn lemma_monster_turns_read_prefix(
    stage: MonsterStage,
    choices: Seq<Direction>,
    more: Seq<Direction>,
    tiles: TileManager,
    npcs: Seq<EntityData>,
    count: int,
)
    requires
        count <= choices.len() <= more.len(),
        forall|j: int| 0 <= j < choices.len() ==> choices[j] == more[j],
    ensures
        spec_monster_turns(stage, choices, tiles, npcs, count) == spec_monster_turns(
            stage,
            more,
            tiles,
            npcs,
            count,
        ),
    decreases count,
{
    if count > 0 {
        lemma_monster_turns_read_prefix(stage, choices, more, tiles, npcs, count - 1);
    }
}

/// The turn of the monster at place `i`.
fn monster_turn(
    npcs: &Vec<EntityData>,
    monsters: &mut Vec<EntityData>,
    game_handlers: &GameHandlers,
    player: &mut Player,
    i: usize,
) -> (choice: Ghost<Direction>)
    requires
        i < old(monsters)@.len(),
        all_wf(old(monsters)@),
        old(player).entity.wf(),
        game_handlers.tile_manager.wf(),
    ensures
        (MonsterStage { monsters: final(monsters)@, player: *final(player) }) == spec_monster_turn(
            MonsterStage { monsters: old(monsters)@, player: *old(player) },
            i as int,
            choice@,
            game_handlers.tile_manager,
            npcs@,
        ),
        final(monsters)@.len() == old(monsters)@.len(),
        all_wf(final(monsters)@),
        final(player).entity.wf(),
{
    proof {
        reveal(spec_monster_turn);
    }
    if !monsters[i].alive {
        return Ghost(monsters@[i as int].direction);
    }
    let ghost before = monsters@;
    monsters[i].set_action();
    let ghost choice = monsters@[i as int].direction;
    let ghost roster = monsters@;
    let on_way: bool = check_tile(&monsters[i], &game_handlers.tile_manager) || check_entity(
        &monsters[i],
        npcs,
    ).is_some();
    let touches: bool = !on_way && check_player(&monsters[i], player);
    let blocked: bool = on_way || touches || check_entity(&monsters[i], monsters).is_some();
    if touches {
        player.interact_monster(&monsters[i]);
    }
    monsters[i].update(blocked);
    proof {
        assert(roster =~= before.update(i as int, before[i as int].spec_set_action(choice)));
        assert(monsters@ =~= roster.update(i as int, roster[i as int].spec_update(blocked)));
        assert forall|j: int| 0 <= j < monsters@.len() implies (#[trigger] monsters@[j]).wf() by {
            if j != i {
                assert(monsters@[j] == before[j]);
            }
        }
    }
    Ghost(choice)
}

/// One tick of every monster, in roster order, after which the monsters
/// that are no longer alive leave the roster. A monster stopped by the
/// player deals contact damage. The directions that come due are drawn at
/// random.
pub fn update_monsters(
    npcs: &Vec<EntityData>,
    objects: &Vec<EntityData>,
    monsters: &mut Vec<EntityData>,
    game_handlers: &GameHandlers,
    player: &mut Player,
)
    requires
        all_wf(old(monsters)@),
        old(player).entity.wf(),
        game_handlers.tile_manager.wf(),
    ensures
        exists|choices: Seq<Direction>|
            choices.len() == old(monsters)@.len() && (MonsterStage {
                monsters: final(monsters)@,
                player: *final(player),
            }) == #[trigger] spec_update_monsters(
                old(monsters)@,
                *old(player),
                choices,
                game_handlers.tile_manager,
                npcs@,
            ),
        all_wf(final(monsters)@),
        final(player).entity.wf(),
        forall|j: int| 0 <= j < final(monsters)@.len() ==> (#[trigger] final(monsters)@[j]).alive,
{
    let count: usize = monsters.len();
    let ghost start = MonsterStage { monsters: monsters@, player: *player };
    let ghost mut choices: Seq<Direction> = Seq::empty();
    let mut i: usize = 0;
    while i < count
        invariant
            i <= count,
            count == monsters@.len(),
            count == start.monsters.len(),
            start == (MonsterStage { monsters: old(monsters)@, player: *old(player) }),
            all_wf(monsters@),
            player.entity.wf(),
            game_handlers.tile_manager.wf(),
            choices.len() == i,
            (MonsterStage { monsters: monsters@, player: *player }) == spec_monster_turns(
                start,
                choices,
                game_handlers.tile_manager,
                npcs@,
                i as int,
            ),
        decreases count - i,
    {
        let ghost earlier = choices;
        let choice = monster_turn(npcs, monsters, game_handlers, player, i);
        proof {
            choices = earlier.push(choice@);
            lemma_monster_turns_read_prefix(
                start,
                earlier,
                choices,
                game_handlers.tile_manager,
                npcs@,
                i as int,
            );
        }
        i = i + 1;
    }
    proof {
        lemma_alive_only(monsters@);
    }
    remove_dead(monsters);
    proof {
        assert((MonsterStage { monsters: monsters@, player: *player }) == spec_update_monsters(
            old(monsters)@,
            *old(player),
            choices,
            game_handlers.tile_manager,
            npcs@,
        ));
    }
}

/// Whether every projectile of the roster can finish its flight.
pub open spec fn all_fit(roster: Seq<EntityData>) -> bool {
    forall|j: int| 0 <= j < roster.len() ==> (#[trigger] roster[j]).flight_fits()
}

/// Whether every projectile of the roster can finish its flight.
pub fn roster_fits(roster: &Vec<EntityData>) -> (fits: bool)
    ensures
        fits == all_fit(roster@),
{
    let mut i: usize = 0;
    while i < roster.len()
        invariant
            i <= roster@.len(),
            forall|j: int| 0 <= j < i ==> (#[trigger] roster@[j]).flight_fits(),
        decreases roster@.len() - i,
    {
        if !roster[i].can_finish_flight() {
            return false;
        }
        i = i + 1;
    }
    true
}

/// What the turns of the projectiles lead to.
pub struct ProjectileStage {
    /// The monsters afterwards.
    pub monsters: Seq<EntityData>,
    /// The projectiles afterwards.
    pub projectiles: Seq<EntityData>,
    /// The player afterwards.
    pub player: Player,
}

/// The monster that the projectile hits: the first one in its way, if the
/// player threw it.
pub open spec fn spec_projectile_target(
    projectile: EntityData,
    monsters: Seq<EntityData>,
) -> Option<usize> {
    if projectile.projectile_thrown_by == Some(EntityType::Player) {
        spec_check_entity(projectile, monsters)
    } else {
        None
    }
}

/// Whether the projectile hits the player: a monster threw it and the
/// player is in its way.
pub open spec fn spec_projectile_hits_player(projectile: EntityData, player: Player) -> bool {
    projectile.projectile_thrown_by == Some(EntityType::Monster) && spec_check_player(
        projectile,
        player,
    )
}

/// The rosters and the player after the turn of the projectile at place
/// `i`. A projectile that is no longer alive does nothing. A live one hurts
/// what it hits with its attack, and is spent by the hit; then it flies one
/// tick.
#[verifier::opaque]
pub open spec fn spec_projectile_turn(stage: ProjectileStage, i: int) -> ProjectileStage {
    let projectile = stage.projectiles[i];
    if !projectile.alive {
        stage
    } else {
        let target = spec_projectile_target(projectile, stage.monsters);
        let hits_player = spec_projectile_hits_player(projectile, stage.player);
        let spent = EntityData { alive: target is None && !hits_player, ..projectile };
        ProjectileStage {
            monsters: match target {
                Some(place) => stage.monsters.update(
                    place as int,
                    stage.monsters[place as int].spec_apply_damage(
                        spec_damage(
                            projectile.attack as int,
                            stage.monsters[place as int].defense as int,
                        ),
                    ),
                ),
                None => stage.monsters,
            },
            projectiles: stage.projectiles.update(i, spent.spec_fly()),
            player: if hits_player {
                stage.player.spec_damage_player(projectile.attack as int)
            } else {
                stage.player
            },
        }
    }
}

/// The rosters and the player after the turns of the first `count`
/// projectiles, in order.
pub open spec fn spec_projectile_turns(stage: ProjectileStage, count: int) -> ProjectileStage
    decreases count,
{
    if count <= 0 {
        stage
    } else {
        spec_projectile_turn(spec_projectile_turns(stage, count - 1), count - 1)
    }
}

/// The rosters and the player after one tick of the projectiles: every
/// projectile takes its turn, then those no longer alive leave the roster.
pub open spec fn spec_update_projectiles(
    monsters: Seq<EntityData>,
    projectiles: Seq<EntityData>,
    player: Player,
) -> ProjectileStage {
    let turned = spec_projectile_turns(
        ProjectileStage { monsters, projectiles, player },
        projectiles.len() as int,
    );
    ProjectileStage { projectiles: spec_alive_only(turned.projectiles), ..turned }
}

/// Every projectile that `spec_alive_only` keeps can finish its flight, if
/// every projectile of the roster could.
pub proof fn lemma_alive_only_fit(roster: Seq<EntityData>)
    requires
        all_fit(roster),
    ensures
        all_fit(spec_alive_only(roster)),
    decreases roster.len(),
{
    if roster.len() > 0 {
        assert forall|j: int| 0 <= j < roster.drop_last().len() implies (
        #[trigger] roster.drop_last()[j]).flight_fits() by {
            assert(roster.drop_last()[j] == roster[j]);
        }
        lemma_alive_only_fit(roster.drop_last());
    }
}

/// The turn of the projectile at place `i`.
fn projectile_turn(
    monsters: &mut Vec<EntityData>,
    projectiles: &mut Vec<EntityData>,
    player: &mut Player,
    i: usize,
)
    requires
        i < old(projectiles)@.len(),
        all_wf(old(projectiles)@),
        all_fit(old(projectiles)@),
        all_wf(old(monsters)@),
        old(player).entity.wf(),
    ensures
        (ProjectileStage {
            monsters: final(monsters)@,
            projectiles: final(projectiles)@,
            player: *final(player),
        }) == spec_projectile_turn(
            ProjectileStage {
                monsters: old(monsters)@,
                projectiles: old(projectiles)@,
                player: *old(player),
            },
            i as int,
        ),
        final(projectiles)@.len() == old(projectiles)@.len(),
        final(monsters)@.len() == old(monsters)@.len(),
        all_wf(final(projectiles)@),
        all_fit(final(projectiles)@),
        all_wf(final(monsters)@),
        final(player).entity.wf(),
{
    proof {
        reveal(spec_projectile_turn);
    }
    if !projectiles[i].alive {
        return ;
    }
    let ghost before = projectiles@;
    let ghost horde = monsters@;
    let attack: i64 = projectiles[i].attack as i64;
    let target: Option<usize> = match projectiles[i].projectile_thrown_by {
        Some(EntityType::Player) => check_entity(&projectiles[i], monsters),
        _ => None,
    };
    let hits_player: bool = match projectiles[i].projectile_thrown_by {
        Some(EntityType::Monster) => check_player(&projectiles[i], player),
        _ => false,
    };
    if let Some(place) = target {
        player.damage_monster(&mut monsters[place], attack);
    }
    if hits_player {
        player.damage_player(attack);
    }
    projectiles[i].alive = target.is_none() && !hits_player;
    projectiles[i].fly();
    proof {
        let spent = EntityData { alive: target is None && !hits_player, ..before[i as int] };
        assert(projectiles@ =~= before.update(i as int, spent.spec_fly()));
        assert forall|j: int| 0 <= j < projectiles@.len() implies (#[trigger] projectiles@[j]).wf()
            && projectiles@[j].flight_fits() by {
            if j != i {
                assert(projectiles@[j] == before[j]);
            }
        }
        match target {
            Some(place) => {
                assert(monsters@ =~= horde.update(
                    place as int,
                    horde[place as int].spec_apply_damage(
                        spec_damage(attack as int, horde[place as int].defense as int),
                    ),
                ));
                assert forall|j: int| 0 <= j < monsters@.len() implies (
                #[trigger] monsters@[j]).wf() by {
                    if j != place {
                        assert(monsters@[j] == horde[j]);
                    }
                }
            },
            None => {},
        }
    }
}

/// One tick of every projectile, in roster order, after which the
/// projectiles that are no longer alive leave the roster. A projectile
/// thrown by the player hurts the first monster in its way, one thrown by a
/// monster hurts the player, and either is spent by the hit.
pub fn update_projectiles(
    monsters: &mut Vec<EntityData>,
    projectiles: &mut Vec<EntityData>,
    player: &mut Player,
)
    requires
        all_wf(old(projectiles)@),
        all_fit(old(projectiles)@),
        all_wf(old(monsters)@),
        old(player).entity.wf(),
    ensures
        (ProjectileStage {
            monsters: final(monsters)@,
            projectiles: final(projectiles)@,
            player: *final(player),
        }) == spec_update_projectiles(old(monsters)@, old(projectiles)@, *old(player)),
        final(monsters)@.len() == old(monsters)@.len(),
        all_wf(final(projectiles)@),
        all_fit(final(projectiles)@),
        all_wf(final(monsters)@),
        final(player).entity.wf(),
        forall|j: int|
            0 <= j < final(projectiles)@.len() ==> (#[trigger] final(projectiles)@[j]).alive,
{
    let count: usize = projectiles.len();
    let ghost start = ProjectileStage {
        monsters: monsters@,
        projectiles: projectiles@,
        player: *player,
    };
    let mut i: usize = 0;
    while i < count
        invariant
            i <= count,
            count == projectiles@.len(),
            count == old(projectiles)@.len(),
            monsters@.len() == old(monsters)@.len(),
            start == (ProjectileStage {
                monsters: old(monsters)@,
                projectiles: old(projectiles)@,
                player: *old(player),
            }),
            all_wf(projectiles@),
            all_fit(projectiles@),
            all_wf(monsters@),
            player.entity.wf(),
            (ProjectileStage { monsters: monsters@, projectiles: projectiles@, player: *player })
                == spec_projectile_turns(start, i as int),
        decreases count - i,
    {
        projectile_turn(monsters, projectiles, player, i);
        i = i + 1;
    }
    proof {
        lemma_alive_only(projectiles@);
        lemma_alive_only_fit(projectiles@);
    }
    remove_dead(projectiles);
}

/// What the turn of the player leads to.
pub struct PlayerStage {
    /// The player afterwards.
    pub player: Player,
    /// The NPCs afterwards.
    pub npcs: Seq<EntityData>,
    /// The monsters afterwards.
    pub monsters: Seq<EntityData>,
    /// The held keys afterwards.
    pub keys: KeyHandler,
    /// What the check of the triggers led to.
    pub event: EventOutcome,
    /// The new dialogue text, if there is one.
    pub text: Option<Seq<char>>,
}

/// What the player runs into one step ahead.
pub struct PlayerProbes {
    /// Whether the grid blocks the step.
    pub on_tile: bool,
    /// The NPC in the way.
    pub npc: Option<usize>,
    /// The solid object in the way.
    pub object: Option<usize>,
    /// The monster in the way.
    pub monster: Option<usize>,
}

impl PlayerProbes {
    /// Whether anything blocks the step.
    pub open spec fn blocked(self) -> bool {
        self.on_tile || self.npc is Some || self.object is Some || self.monster is Some
    }
}

/// What `player` runs into one step ahead.
pub open spec fn spec_player_probes(
    player: Player,
    npcs: Seq<EntityData>,
    objects: Seq<EntityData>,
    monsters: Seq<EntityData>,
    tiles: TileManager,
) -> PlayerProbes {
    PlayerProbes {
        on_tile: spec_check_tile(player.entity, tiles),
        npc: spec_check_entity(player.entity, npcs),
        object: spec_check_object(player.entity, objects),
        monster: spec_check_entity(player.entity, monsters),
    }
}

/// The monsters after the player's attack: while the attack is in its
/// active swing, the first monster it reaches is hit with the player's
/// attack strength.
#[verifier::opaque]
pub open spec fn spec_swing(player: Player, monsters: Seq<EntityData>) -> Seq<EntityData> {
    if player.spec_attack_is_live() {
        match spec_check_entity_hit(player.entity, monsters) {
            Some(place) => monsters.update(
                place as int,
                monsters[place as int].spec_apply_damage(
                    spec_damage(player.spec_attack_power(), monsters[place as int].defense as int),
                ),
            ),
            None => monsters,
        }
    } else {
        monsters
    }
}

/// What the turn of the player leads to. The player turns the way the keys
/// ask for and looks one step ahead. An NPC in the way speaks on confirm, a
/// live monster in the way deals contact damage. Then the player passes one
/// tick, blocked if anything was in the way. Confirm begins an attack
/// unless the player was attacking, spoke to an NPC or fired a trigger. At
/// last an attack in its active swing hits the first monster it reaches.
#[verifier::opaque]
pub open spec fn spec_update_player(
    player: Player,
    npcs: Seq<EntityData>,
    objects: Seq<EntityData>,
    monsters: Seq<EntityData>,
    tiles: TileManager,
    input: PlayerInput,
) -> PlayerStage {
    let facing = player.spec_resolve_intent(input.keys);
    let probes = spec_player_probes(facing, npcs, objects, monsters, tiles);
    let confirm = input.keys.enter_pressed;
    let talks = probes.npc is Some && confirm;
    let hurt = match probes.monster {
        Some(place) => facing.spec_interact_monster(monsters[place as int]),
        None => facing,
    };
    let outcome = hurt.spec_update(
        PlayerInput { game_state: spec_mode_after_contact(input.game_state, talks), ..input },
        probes.blocked(),
    );
    let starts = !facing.entity.attacking && confirm && probes.npc is None && outcome.event.fired
        is None;
    let armed = if starts {
        outcome.player.spec_start_attack()
    } else {
        outcome.player
    };
    PlayerStage {
        player: armed,
        npcs: match probes.npc {
            Some(place) => npcs.update(
                place as int,
                facing.spec_npc_after_contact(npcs[place as int], confirm),
            ),
            None => npcs,
        },
        monsters: spec_swing(armed, monsters),
        keys: outcome.key_handler,
        event: outcome.event,
        text: match outcome.event.text {
            Some(line) => Some(line),
            None => if talks {
                npcs[probes.npc.unwrap() as int].spec_next_line()
            } else {
                None
            },
        },
    }
}

/// Whether `after` is `before` once the turn of the player with this
/// outcome has passed: the keys, the triggers, the mode and the dialogue
/// text follow the outcome and everything else stays.
pub open spec fn spec_handlers_after_player(
    before: GameHandlers,
    after: GameHandlers,
    stage: PlayerStage,
) -> bool {
    &&& after.key_handler == stage.keys
    &&& after.tile_manager == before.tile_manager
    &&& after.asset_setter == before.asset_setter
    &&& after.sound_handler == before.sound_handler
    &&& spec_shows(before.ui_handler, after.ui_handler, stage.text)
    &&& after.game_state_handler == stage.event.game_state
    &&& after.event_handler.game_events@ == stage.event.events
    &&& after.event_handler.respawn_monsters == stage.event.respawn_monsters
}

/// The player's attack, while in its active swing, hits the first monster
/// it reaches.
fn swing(player: &mut Player, monsters: &mut Vec<EntityData>)
    requires
        all_wf(old(monsters)@),
    ensures
        *final(player) == *old(player),
        final(monsters)@ == spec_swing(*old(player), old(monsters)@),
        final(monsters)@.len() == old(monsters)@.len(),
        all_wf(final(monsters)@),
{
    proof {
        reveal(spec_swing);
    }
    if !player.attack_is_live() {
        return ;
    }
    let ghost horde = monsters@;
    if let Some(place) = check_entity_hit(&player.entity, monsters) {
        let power: i64 = player.attack_power();
        player.damage_monster(&mut monsters[place], power);
        proof {
            assert(monsters@ =~= horde.update(
                place as int,
                horde[place as int].spec_apply_damage(
                    spec_damage(power as int, horde[place as int].defense as int),
                ),
            ));
            assert forall|j: int| 0 <= j < monsters@.len() implies (#[trigger] monsters@[j]).wf() by {
                if j != place {
                    assert(monsters@[j] == horde[j]);
                }
            }
        }
    }
}

/// The turn of the player: it turns the way the keys ask for, looks one
/// step ahead, deals with what is in the way, passes one tick, may begin an
/// attack, and hits with an attack in its active swing.
pub fn update_player(
    npcs: &mut Vec<EntityData>,
    objects: &mut Vec<EntityData>,
    monsters: &mut Vec<EntityData>,
    game_handlers: &mut GameHandlers,
    player: &mut Player,
)
    requires
        old(player).entity.wf(),
        all_wf(old(npcs)@),
        all_wf(old(monsters)@),
        old(game_handlers).tile_manager.wf(),
    ensures
        ({
            let stage = spec_update_player(
                *old(player),
                old(npcs)@,
                old(objects)@,
                old(monsters)@,
                old(game_handlers).tile_manager,
                spec_input(*old(game_handlers)),
            );
            &&& *final(player) == stage.player
            &&& final(npcs)@ == stage.npcs
            &&& final(monsters)@ == stage.monsters
            &&& spec_handlers_after_player(*old(game_handlers), *final(game_handlers), stage)
        }),
        final(objects)@ == old(objects)@,
        final(npcs)@.len() == old(npcs)@.len(),
        final(monsters)@.len() == old(monsters)@.len(),
        final(player).entity.wf(),
        all_wf(final(npcs)@),
        all_wf(final(monsters)@),
{
    proof {
        reveal(spec_update_player);
    }
    let ghost crowd = npcs@;
    let ghost before = *game_handlers;
    player.resolve_intent(&game_handlers.key_handler);
    let ghost facing = *player;
    let confirm: bool = game_handlers.key_handler.enter_pressed;
    let was_attacking: bool = player.entity.attacking;
    let on_tile: bool = check_tile(&player.entity, &game_handlers.tile_manager);
    let npc: Option<usize> = check_entity(&player.entity, npcs);
    let object: Option<usize> = check_object(&player.entity, objects);
    let contact: Option<usize> = check_entity(&player.entity, monsters);
    let blocked: bool = on_tile || npc.is_some() || object.is_some() || contact.is_some();
    if let Some(place) = npc {
        player.interact_npc(&mut npcs[place], game_handlers);
        proof {
            assert(npcs@ =~= crowd.update(
                place as int,
                facing.spec_npc_after_contact(crowd[place as int], confirm),
            ));
            assert forall|j: int| 0 <= j < npcs@.len() implies (#[trigger] npcs@[j]).wf() by {
                if j != place {
                    assert(npcs@[j] == crowd[j]);
                }
            }
        }
    }
    let ghost spoken = *game_handlers;
    if let Some(place) = object {
        player.pick_up_object(
            place,
            &mut game_handlers.asset_setter,
            &mut game_handlers.sound_handler,
            &mut game_handlers.ui_handler,
        );
    }
    if let Some(place) = contact {
        player.interact_monster(&monsters[place]);
    }
    proof {
        reveal(Player::spec_interact_monster);
        reveal(EntityData::spec_apply_damage);
        assert(*game_handlers == spoken);
    }
    let fired: Option<usize> = player.update(game_handlers, blocked);
    if !was_attacking && confirm && npc.is_none() && fired.is_none() {
        player.start_attack();
    }
    swing(player, monsters);
}

/// One tick of the interface: the messages grow one tick older.
pub fn update_ui(game_handlers: &mut GameHandlers)
    requires
        old(game_handlers).ui_handler.wf(),
    ensures
        final(game_handlers).ui_handler.messages@ == spec_aged(
            old(game_handlers).ui_handler.messages@,
        ),
        final(game_handlers).ui_handler == (UIHandler {
            messages: final(game_handlers).ui_handler.messages,
            ..old(game_handlers).ui_handler
        }),
        *final(game_handlers) == (GameHandlers {
            ui_handler: final(game_handlers).ui_handler,
            ..*old(game_handlers)
        }),
        final(game_handlers).ui_handler.wf(),
{
    game_handlers.ui_handler.upadte();
}

/// The whole state of the game: the player, the rosters and the handlers.
#[derive(Debug)]
pub struct GameData {
    pub player: Player,
    pub objects: Vec<EntityData>,
    pub npcs: Vec<EntityData>,
    pub monsters: Vec<EntityData>,
    pub projectiles: Vec<EntityData>,
    pub game_handlers: GameHandlers,
}

/// The sound requests after a tick: a request for the damage sound if the
/// player has less life than before, then one for the power-up sound if the
/// monsters are asked back.
pub open spec fn spec_tick_sounds(
    requests: Seq<SoundRequest>,
    hurt: bool,
    healed: bool,
) -> Seq<SoundRequest> {
    let first = if hurt {
        requests.push(SoundRequest::PlayEffect(SOUND_RECEIVE_DAMAGE))
    } else {
        requests
    };
    if healed {
        first.push(SoundRequest::PlayEffect(SOUND_POWER_UP))
    } else {
        first
    }
}

/// Whether the interface `after` is `before` one tick later, with the
/// dialogue text replaced by `text`, if there is one: the messages are one
/// tick older and nothing else has changed.
pub open spec fn spec_ui_after_tick(
    before: UIHandler,
    after: UIHandler,
    text: Option<Seq<char>>,
) -> bool {
    &&& after.messages@ == spec_aged(before.messages@)
    &&& after.current_dialogue@ == match text {
        Some(line) => line,
        None => before.current_dialogue@,
    }
    &&& text is None ==> after.current_dialogue == before.current_dialogue
    &&& after == (UIHandler {
        messages: after.messages,
        current_dialogue: after.current_dialogue,
        ..before
    })
}

/// Whether the life of every entity of the roster is between zero and its
/// greatest life.
pub open spec fn all_lives_in_bounds(roster: Seq<EntityData>) -> bool {
    forall|j: int| 0 <= j < roster.len() ==> 0 <= (#[trigger] roster[j]).life <= roster[j].max_life
}

/// In a game that keeps its invariant the life of every entity is between
/// zero and its greatest life. A tick keeps the invariant, so this holds
/// after every tick.
pub proof fn lemma_lives_in_bounds(game: GameData)
    requires
        game.wf(),
    ensures
        0 <= game.player.entity.life <= game.player.entity.max_life,
        all_lives_in_bounds(game.objects@),
        all_lives_in_bounds(game.npcs@),
        all_lives_in_bounds(game.monsters@),
        all_lives_in_bounds(game.projectiles@),
{
}

impl GameData {
    /// The invariant of the game: every entity keeps its own, every
    /// projectile can finish its flight, the world grid is whole and the
    /// interface is sound.
    pub open spec fn wf(self) -> bool {
        &&& self.player.entity.wf()
        &&& all_wf(self.objects@)
        &&& all_wf(self.npcs@)
        &&& all_wf(self.monsters@)
        &&& all_wf(self.projectiles@)
        &&& all_fit(self.projectiles@)
        &&& self.game_handlers.tile_manager.wf()
        &&& self.game_handlers.ui_handler.wf()
    }

    /// Whether the life of every entity is between zero and its greatest
    /// life.
    pub open spec fn lives_in_bounds(self) -> bool {
        &&& 0 <= self.player.entity.life <= self.player.entity.max_life
        &&& all_lives_in_bounds(self.objects@)
        &&& all_lives_in_bounds(self.npcs@)
        &&& all_lives_in_bounds(self.monsters@)
        &&& all_lives_in_bounds(self.projectiles@)
    }

    /// Whether a tick advances the simulation: only during play, and only
    /// until the game is finished.
    pub open spec fn spec_runs(self) -> bool {
        self.game_handlers.game_state_handler.game_state == GameState::Play
            && !self.game_handlers.ui_handler.game_finished
    }

    /// Whether `after` is what one tick of play makes of `self`, where the
    /// choices hold the directions that the NPCs and the monsters take if a
    /// new one is due. The player takes its turn, then the NPCs, then the
    /// monsters, then the projectiles; the messages grow older; a player
    /// with less life than before asks for the damage sound; and if the
    /// monsters are asked back, the power-up sound is asked for and the
    /// initial roster of monsters takes the place of the old.
    pub open spec fn spec_plays(
        self,
        after: GameData,
        npc_choices: Seq<Direction>,
        monster_choices: Seq<Direction>,
    ) -> bool {
        let tiles = self.game_handlers.tile_manager;
        let first = spec_update_player(
            self.player,
            self.npcs@,
            self.objects@,
            self.monsters@,
            tiles,
            spec_input(self.game_handlers),
        );
        let npcs = spec_update_npcs(
            first.npcs,
            npc_choices,
            tiles,
            first.player,
            first.monsters,
            first.npcs.len() as int,
        );
        let third = spec_update_monsters(first.monsters, first.player, monster_choices, tiles, npcs);
        let last = spec_update_projectiles(third.monsters, self.projectiles@, third.player);
        let respawn = first.event.respawn_monsters;
        &&& npc_choices.len() == first.npcs.len()
        &&& monster_choices.len() == first.monsters.len()
        &&& after.player == last.player
        &&& after.objects@ == self.objects@
        &&& after.npcs@ == npcs
        &&& after.projectiles@ == last.projectiles
        &&& if respawn {
            AssetSetter::is_initial_monsters(after.monsters@)
        } else {
            after.monsters@ == last.monsters
        }
        &&& after.game_handlers.key_handler == first.keys
        &&& after.game_handlers.tile_manager == tiles
        &&& after.game_handlers.asset_setter == self.game_handlers.asset_setter
        &&& after.game_handlers.sound_handler.sounds == self.game_handlers.sound_handler.sounds
        &&& after.game_handlers.sound_handler.requests@ == spec_tick_sounds(
            self.game_handlers.sound_handler.requests@,
            last.player.entity.life < self.player.entity.life,
            respawn,
        )
        &&& spec_ui_after_tick(
            self.game_handlers.ui_handler,
            after.game_handlers.ui_handler,
            first.text,
        )
        &&& after.game_handlers.game_state_handler == first.event.game_state
        &&& after.game_handlers.event_handler.game_events@ == first.event.events
        &&& !after.game_handlers.event_handler.respawn_monsters
    }

    /// Whether the game keeps its invariant.
    pub fn is_wf(&self) -> (kept: bool)
        ensures
            kept == self.wf(),
    {
        self.player.entity.is_wf() && roster_is_wf(&self.objects) && roster_is_wf(&self.npcs)
            && roster_is_wf(&self.monsters) && roster_is_wf(&self.projectiles) && roster_fits(
            &self.projectiles,
        ) && self.game_handlers.tile_manager.is_wf() && self.game_handlers.ui_handler.is_wf()
    }

    /// The game at its start, in the world `tile_manager`: the player with
    /// sword and shield, the initial rosters, one fireball at rest, and the
    /// title screen.
    pub fn new(tile_manager: TileManager) -> (game: GameData)
        requires
            tile_manager.wf(),
        ensures
            game.wf(),
            game.game_handlers.tile_manager == tile_manager,
            game.game_handlers.game_state_handler.game_state == GameState::Title,
            game.game_handlers.key_handler == KeyHandler::released(),
            game.game_handlers.event_handler.game_events@
                == GameEventHandler::spec_initial_events(),
            !game.game_handlers.event_handler.respawn_monsters,
            game.game_handlers.sound_handler.requests@.len() == 0,
            game.game_handlers.ui_handler.messages@.len() == 0,
            AssetSetter::is_initial_objects(game.objects@),
            AssetSetter::is_initial_npcs(game.npcs@),
            AssetSetter::is_initial_monsters(game.monsters@),
            game.projectiles@.len() == 1,
            ObjFireball::is_fresh(game.projectiles@[0]),
            game.player.entity.life == 6,
            game.player.entity.max_life == 6,
            game.player.spec_attack_power() == 1,
            game.player.spec_defense_power() == 1,
    {
        let mut player = Player::default();
        player.equip_weapon(ObjSwordNormal::new().entity_data.as_equipment());
        player.equip_shield(ObjShieldWood::new().entity_data.as_equipment());
        let mut projectiles: Vec<EntityData> = Vec::new();
        let fireball = ObjFireball::new();
        proof {
            assert(80 * 10 == 800) by (nonlinear_arith);
            assert(fireball.entity_data.life * fireball.entity_data.speed == 800);
        }
        projectiles.push(fireball.entity_data);
        GameData {
            player,
            objects: AssetSetter::initialize_objects(),
            npcs: AssetSetter::initialize_npcs(),
            monsters: AssetSetter::initialize_monsters(),
            projectiles,
            game_handlers: GameHandlers {
                key_handler: KeyHandler::default(),
                tile_manager,
                asset_setter: AssetSetter::default(),
                sound_handler: SoundHandler::default(),
                ui_handler: UIHandler::new(),
                game_state_handler: GameStateHandler::default(),
                event_handler: GameEventHandler::new(),
            },
        }
    }

    /// One fixed tick. Outside of play, and once the game is finished,
    /// nothing changes. During play the player, the NPCs, the monsters and
    /// the projectiles take their turns in this order, the messages grow
    /// older, and a request to bring the monsters back is served.
    pub fn update(&mut self)
        requires
            old(self).wf(),
        ensures
            !old(self).spec_runs() ==> *final(self) == *old(self),
            old(self).spec_runs() ==> exists|
                npc_choices: Seq<Direction>,
                monster_choices: Seq<Direction>,
            | #[trigger] old(self).spec_plays(*final(self), npc_choices, monster_choices),
            final(self).wf(),
            final(self).lives_in_bounds(),
    {
        let plays: bool = match self.game_handlers.game_state_handler.game_state {
            GameState::Play => !self.game_handlers.ui_handler.game_finished,
            _ => false,
        };
        proof {
            lemma_lives_in_bounds(*self);
        }
        if !plays {
            return ;
        }
        let life_before: i32 = self.player.entity.life;
        let ghost tiles = self.game_handlers.tile_manager;
        update_player(
            &mut self.npcs,
            &mut self.objects,
            &mut self.monsters,
            &mut self.game_handlers,
            &mut self.player,
        );
        let ghost first = spec_update_player(
            old(self).player,
            old(self).npcs@,
            old(self).objects@,
            old(self).monsters@,
            tiles,
            spec_input(old(self).game_handlers),
        );
        update_npcs(&mut self.npcs, &self.objects, &self.monsters, &self.game_handlers, &self.player);
        let ghost npc_choices = choose|choices: Seq<Direction>|
            choices.len() == first.npcs.len() && self.npcs@ == #[trigger] spec_update_npcs(
                first.npcs,
                choices,
                tiles,
                first.player,
                first.monsters,
                first.npcs.len() as int,
            );
        update_monsters(
            &self.npcs,
            &self.objects,
            &mut self.monsters,
            &self.game_handlers,
            &mut self.player,
        );
        let ghost monster_choices = choose|choices: Seq<Direction>|
            choices.len() == first.monsters.len() && (MonsterStage {
                monsters: self.monsters@,
                player: self.player,
            }) == #[trigger] spec_update_monsters(
                first.monsters,
                first.player,
                choices,
                tiles,
                self.npcs@,
            );
        update_projectiles(&mut self.monsters, &mut self.projectiles, &mut self.player);
        update_ui(&mut self.game_handlers);
        if self.player.entity.life < life_before {
            self.game_handlers.sound_handler.play_sound_effect(SOUND_RECEIVE_DAMAGE);
        }
        if self.game_handlers.event_handler.respawn_monsters {
            self.game_handlers.sound_handler.play_sound_effect(SOUND_POWER_UP);
            self.monsters = AssetSetter::initialize_monsters();
            self.game_handlers.event_handler.respawn_monsters = false;
        }
        proof {
            assert(old(self).spec_plays(*self, npc_choices, monster_choices));
            lemma_lives_in_bounds(*self);
        }
    }
}

} // verus!
