//! The collision probes: each looks one step ahead of an entity.

use vstd::prelude::*;

use crate::entities::entity::Direction;
use crate::entities::entity::EntityData;
use crate::entities::player::Player;
use crate::geometry::Area;
use crate::geometry::Span;
use crate::tiles::tile::TileManager;

verus! {

/// A point of the world.
pub struct Point {
    pub x: int,
    pub y: int,
}

/// The two corners of the leading edge of the hit-box of `entity`, one step
/// ahead: the edge that faces the way the entity moves.
pub open spec fn spec_leading_corners(entity: EntityData) -> (Point, Point) {
    let probe = entity.probe_span();
    match entity.direction {
        Direction::Up => (
            Point { x: probe.left, y: probe.top },
            Point { x: probe.right, y: probe.top },
        ),
        Direction::Down => (
            Point { x: probe.left, y: probe.bottom },
            Point { x: probe.right, y: probe.bottom },
        ),
        Direction::Left => (
            Point { x: probe.left, y: probe.top },
            Point { x: probe.left, y: probe.bottom },
        ),
        Direction::Right => (
            Point { x: probe.right, y: probe.top },
            Point { x: probe.right, y: probe.bottom },
        ),
    }
}

/// Whether one step of `entity` is blocked by the grid: the hit-box is moved
/// one step ahead and the two corners of its leading edge are looked up.
pub open spec fn spec_check_tile(entity: EntityData, tile_manager: TileManager) -> bool {
    let corners = spec_leading_corners(entity);
    tile_manager.point_blocks(corners.0.x, corners.0.y) || tile_manager.point_blocks(
        corners.1.x,
        corners.1.y,
    )
}

/// The grid cell that holds the world point `point`, as (row, column).
pub open spec fn spec_cell_of(point: Point) -> (int, int) {
    (point.y / 48, point.x / 48)
}

/// Only the leading edge decides: two worlds that agree on the cells under
/// the two leading corners give the same answer, whatever lies behind the
/// entity, beside it or anywhere else.
pub proof fn lemma_tile_probe_reads_leading_edge(
    entity: EntityData,
    world: TileManager,
    other: TileManager,
)
    requires
        ({
            let corners = spec_leading_corners(entity);
            let first = spec_cell_of(corners.0);
            let second = spec_cell_of(corners.1);
            &&& world.cell_blocks(first.0, first.1) == other.cell_blocks(first.0, first.1)
            &&& world.cell_blocks(second.0, second.1) == other.cell_blocks(second.0, second.1)
        }),
    ensures
        spec_check_tile(entity, world) == spec_check_tile(entity, other),
{
}

/// A collidable tile ahead blocks: if a leading corner, one step ahead,
/// lies on a cell of the grid whose tile is collidable, the step is
/// blocked.
pub proof fn lemma_tile_probe_blocked_ahead(entity: EntityData, world: TileManager, first: bool)
    requires
        ({
            let corners = spec_leading_corners(entity);
            let corner = if first { corners.0 } else { corners.1 };
            let cell = spec_cell_of(corner);
            &&& corner.x >= 0
            &&& corner.y >= 0
            &&& world.has_cell(cell.0, cell.1)
            &&& world.tiles@[world.map_tile_num@[cell.0]@[cell.1] as int].is_collidable
        }),
    ensures
        spec_check_tile(entity, world),
{
}

/// Clear tiles ahead do not block: if both leading corners, one step ahead,
/// lie on cells of the grid whose tiles are not collidable, the step is
/// free.
pub proof fn lemma_tile_probe_free_ahead(entity: EntityData, world: TileManager)
    requires
        ({
            let corners = spec_leading_corners(entity);
            let first = spec_cell_of(corners.0);
            let second = spec_cell_of(corners.1);
            &&& corners.0.x >= 0 && corners.0.y >= 0
            &&& corners.1.x >= 0 && corners.1.y >= 0
            &&& world.has_cell(first.0, first.1)
            &&& world.has_cell(second.0, second.1)
            &&& !world.tiles@[world.map_tile_num@[first.0]@[first.1] as int].is_collidable
            &&& !world.tiles@[world.map_tile_num@[second.0]@[second.1] as int].is_collidable
        }),
    ensures
        !spec_check_tile(entity, world),
{
}

/// The hit-box of `entity` one step ahead.
pub fn probe_area(entity: &EntityData) -> (area: Area)
    ensures
        area@ == entity.probe_span(),
{
    Area::place(entity.solid_area, entity.world_x, entity.world_y).shift(
        entity.direction,
        entity.speed,
    )
}

/// Whether one step of `entity` is blocked by the grid. Only the cells under
/// the leading edge of the hit-box, one step ahead, decide.
pub fn check_tile(entity: &EntityData, tile_manager: &TileManager) -> (blocked: bool)
    ensures
        blocked == spec_check_tile(*entity, *tile_manager),
        entity.wf() && tile_manager.wf() && !blocked ==> entity.step_fits(),
{
    let probe = probe_area(entity);
    match entity.direction {
        Direction::Up => tile_manager.is_point_blocked(probe.left, probe.top)
            || tile_manager.is_point_blocked(probe.right, probe.top),
        Direction::Down => tile_manager.is_point_blocked(probe.left, probe.bottom)
            || tile_manager.is_point_blocked(probe.right, probe.bottom),
        Direction::Left => tile_manager.is_point_blocked(probe.left, probe.top)
            || tile_manager.is_point_blocked(probe.left, probe.bottom),
        Direction::Right => tile_manager.is_point_blocked(probe.right, probe.top)
            || tile_manager.is_point_blocked(probe.right, probe.bottom),
    }
}

/// Whether one step of `entity` runs into the object `object`: the hit-box
/// one step ahead overlaps the object's hit-box, and the object is solid.
pub open spec fn hits_object(entity: EntityData, object: EntityData) -> bool {
    entity.probe_span().overlaps(object.solid_span()) && object.is_collidable
}

/// Whether one step of `entity` runs into `target`: the hit-box one step
/// ahead overlaps the target's hit-box, and the target is another entity.
pub open spec fn hits_entity(entity: EntityData, target: EntityData) -> bool {
    entity.probe_span().overlaps(target.solid_span()) && !entity.same_entity(target)
}

/// The attack box of `entity`: as large as its attack area, placed ahead of
/// the hit-box by the attack area's extent in the facing direction.
pub open spec fn attack_span(entity: EntityData) -> Span {
    let width = entity.attack_area.w as int;
    let height = entity.attack_area.h as int;
    let left = match entity.direction {
        Direction::Left => entity.world_x + entity.solid_area.x - width,
        Direction::Right => entity.world_x + entity.solid_area.x + width,
        _ => entity.world_x + entity.solid_area.x,
    };
    let top = match entity.direction {
        Direction::Up => entity.world_y + entity.solid_area.y - height,
        Direction::Down => entity.world_y + entity.solid_area.y + height,
        _ => entity.world_y + entity.solid_area.y,
    };
    Span { left, top, right: left + width, bottom: top + height }
}

/// Whether an attack of `entity` reaches `target`: the attack box, moved one
/// step ahead, overlaps the target's hit-box, and the target is another
/// entity.
pub open spec fn attack_hits(entity: EntityData, target: EntityData) -> bool {
    attack_span(entity).shifted(entity.direction, entity.speed as int).overlaps(
        target.solid_span(),
    ) && !entity.same_entity(target)
}

/// The first solid object at or after place `from` that one step of
/// `entity` runs into.
pub open spec fn spec_check_object_from(
    entity: EntityData,
    objects: Seq<EntityData>,
    from: int,
) -> Option<usize>
    decreases objects.len() - from,
{
    if from < 0 || from >= objects.len() {
        None
    } else if hits_object(entity, objects[from]) {
        Some(from as usize)
    } else {
        spec_check_object_from(entity, objects, from + 1)
    }
}

/// The first solid object that one step of `entity` runs into.
pub open spec fn spec_check_object(entity: EntityData, objects: Seq<EntityData>) -> Option<usize> {
    spec_check_object_from(entity, objects, 0)
}

/// The first entity at or after place `from`, other than `entity` itself,
/// that one step of `entity` runs into.
pub open spec fn spec_check_entity_from(
    entity: EntityData,
    targets: Seq<EntityData>,
    from: int,
) -> Option<usize>
    decreases targets.len() - from,
{
    if from < 0 || from >= targets.len() {
        None
    } else if hits_entity(entity, targets[from]) {
        Some(from as usize)
    } else {
        spec_check_entity_from(entity, targets, from + 1)
    }
}

/// The first entity, other than `entity` itself, that one step of `entity`
/// runs into.
pub open spec fn spec_check_entity(entity: EntityData, targets: Seq<EntityData>) -> Option<usize> {
    spec_check_entity_from(entity, targets, 0)
}

/// The first entity at or after place `from`, other than `entity` itself,
/// that an attack of `entity` reaches.
pub open spec fn spec_check_entity_hit_from(
    entity: EntityData,
    targets: Seq<EntityData>,
    from: int,
) -> Option<usize>
    decreases targets.len() - from,
{
    if from < 0 || from >= targets.len() {
        None
    } else if attack_hits(entity, targets[from]) {
        Some(from as usize)
    } else {
        spec_check_entity_hit_from(entity, targets, from + 1)
    }
}

/// The first entity, other than `entity` itself, that an attack of `entity`
/// reaches.
pub open spec fn spec_check_entity_hit(
    entity: EntityData,
    targets: Seq<EntityData>,
) -> Option<usize> {
    spec_check_entity_hit_from(entity, targets, 0)
}

/// The hit-box of `entity` where it stands.
pub fn solid_area_of(entity: &EntityData) -> (area: Area)
    ensures
        area@ == entity.solid_span(),
{
    Area::place(entity.solid_area, entity.world_x, entity.world_y)
}

/// The attack box of `entity`, one step ahead.
pub fn attack_area_of(entity: &EntityData) -> (area: Area)
    ensures
        area@ == attack_span(*entity).shifted(entity.direction, entity.speed as int),
{
    let width: i64 = entity.attack_area.w as i64;
    let height: i64 = entity.attack_area.h as i64;
    let base_x: i64 = entity.world_x as i64 + entity.solid_area.x as i64;
    let base_y: i64 = entity.world_y as i64 + entity.solid_area.y as i64;
    let left: i64 = match entity.direction {
        Direction::Left => base_x - width,
        Direction::Right => base_x + width,
        _ => base_x,
    };
    let top: i64 = match entity.direction {
        Direction::Up => base_y - height,
        Direction::Down => base_y + height,
        _ => base_y,
    };
    let area = Area { left, top, right: left + width, bottom: top + height };
    area.shift(entity.direction, entity.speed)
}

/// The first solid object that one step of `entity` runs into, by its place
/// in `objects`.
pub fn check_object(entity: &EntityData, objects: &Vec<EntityData>) -> (found: Option<usize>)
    ensures
        found == spec_check_object(*entity, objects@),
        match found {
            Some(index) => {
                &&& index < objects@.len()
                &&& hits_object(*entity, objects@[index as int])
                &&& forall|j: int| 0 <= j < index ==> !hits_object(*entity, #[trigger] objects@[j])
            },
            None => forall|j: int|
                0 <= j < objects@.len() ==> !hits_object(*entity, #[trigger] objects@[j]),
        },
{
    let probe = probe_area(entity);
    let mut i: usize = 0;
    while i < objects.len()
        invariant
            i <= objects@.len(),
            probe@ == entity.probe_span(),
            forall|j: int| 0 <= j < i ==> !hits_object(*entity, #[trigger] objects@[j]),
            spec_check_object(*entity, objects@) == spec_check_object_from(*entity, objects@, i as int),
        decreases objects@.len() - i,
    {
        let area = solid_area_of(&objects[i]);
        if probe.overlaps(&area) && objects[i].is_collidable {
            return Some(i);
        }
        i = i + 1;
    }
    None
}

/// The first entity of `targets`, other than `entity` itself, that one step
/// of `entity` runs into, by its place in `targets`.
pub fn check_entity(entity: &EntityData, targets: &Vec<EntityData>) -> (found: Option<usize>)
    ensures
        found == spec_check_entity(*entity, targets@),
        match found {
            Some(index) => {
                &&& index < targets@.len()
                &&& hits_entity(*entity, targets@[index as int])
                &&& forall|j: int| 0 <= j < index ==> !hits_entity(*entity, #[trigger] targets@[j])
            },
            None => forall|j: int|
                0 <= j < targets@.len() ==> !hits_entity(*entity, #[trigger] targets@[j]),
        },
{
    let probe = probe_area(entity);
    let mut i: usize = 0;
    while i < targets.len()
        invariant
            i <= targets@.len(),
            probe@ == entity.probe_span(),
            forall|j: int| 0 <= j < i ==> !hits_entity(*entity, #[trigger] targets@[j]),
            spec_check_entity(*entity, targets@) == spec_check_entity_from(*entity, targets@, i as int),
        decreases targets@.len() - i,
    {
        let area = solid_area_of(&targets[i]);
        if probe.overlaps(&area) && !(*entity == targets[i]) {
            return Some(i);
        }
        i = i + 1;
    }
    None
}

/// The first entity of `targets`, other than `entity` itself, that an attack
/// of `entity` reaches, by its place in `targets`.
pub fn check_entity_hit(entity: &EntityData, targets: &Vec<EntityData>) -> (found: Option<usize>)
    ensures
        found == spec_check_entity_hit(*entity, targets@),
        match found {
            Some(index) => {
                &&& index < targets@.len()
                &&& attack_hits(*entity, targets@[index as int])
                &&& forall|j: int| 0 <= j < index ==> !attack_hits(*entity, #[trigger] targets@[j])
            },
            None => forall|j: int|
                0 <= j < targets@.len() ==> !attack_hits(*entity, #[trigger] targets@[j]),
        },
{
    let reach = attack_area_of(entity);
    let mut i: usize = 0;
    while i < targets.len()
        invariant
            i <= targets@.len(),
            reach@ == attack_span(*entity).shifted(entity.direction, entity.speed as int),
            forall|j: int| 0 <= j < i ==> !attack_hits(*entity, #[trigger] targets@[j]),
            spec_check_entity_hit(*entity, targets@) == spec_check_entity_hit_from(*entity, targets@, i as int),
        decreases targets@.len() - i,
    {
        let area = solid_area_of(&targets[i]);
        if reach.overlaps(&area) && !(*entity == targets[i]) {
            return Some(i);
        }
        i = i + 1;
    }
    None
}

/// Whether one step of `entity` runs into the player.
pub open spec fn spec_check_player(entity: EntityData, player: Player) -> bool {
    entity.probe_span().overlaps(player.entity.solid_span())
}

/// Whether one step of `entity` runs into the player.
pub fn check_player(entity: &EntityData, player: &Player) -> (hit: bool)
    ensures
        hit == spec_check_player(*entity, *player),
{
    let probe = probe_area(entity);
    let area = solid_area_of(&player.entity);
    probe.overlaps(&area)
}

} // verus!
