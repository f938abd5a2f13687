use blue_boy_adventure::entities::entity::Direction;
use blue_boy_adventure::entities::entity::EntityData;
use blue_boy_adventure::entities::player::Player;
use blue_boy_adventure::geometry::Area;
use blue_boy_adventure::geometry::Rect;
use blue_boy_adventure::tiles::tile::TileManager;
use blue_boy_adventure::utils::collision_checker::attack_area_of;
use blue_boy_adventure::utils::collision_checker::check_entity;
use blue_boy_adventure::utils::collision_checker::check_entity_hit;
use blue_boy_adventure::utils::collision_checker::check_object;
use blue_boy_adventure::utils::collision_checker::check_player;
use blue_boy_adventure::utils::collision_checker::check_tile;
use blue_boy_adventure::utils::collision_checker::probe_area;
use blue_boy_adventure::utils::collision_checker::solid_area_of;

const GRASS: u32 = 10;
const WALL: u32 = 40;

fn world_with(walls: &[(usize, usize)]) -> TileManager {
    let mut map = vec![vec![GRASS; 50]; 50];
    for (row, col) in walls {
        map[*row][*col] = WALL;
    }
    TileManager::from_grid(map).unwrap()
}

fn entity_at(world_x: i32, world_y: i32, direction: Direction) -> EntityData {
    let mut entity = EntityData::default();
    entity.world_x = world_x;
    entity.world_y = world_y;
    entity.speed = 4;
    entity.direction = direction;
    entity.solid_area = Rect { x: 8, y: 16, w: 32, h: 32 };
    entity.solid_area_default_x = 8;
    entity.solid_area_default_y = 16;
    entity.name = format!("entity at {} {}", world_x, world_y);
    entity
}

#[test]
fn a_wall_one_step_ahead_blocks() {
    let up = world_with(&[(9, 10)]);
    assert!(check_tile(&entity_at(480, 466, Direction::Up), &up));
    let down = world_with(&[(11, 10)]);
    assert!(check_tile(&entity_at(480, 477, Direction::Down), &down));
    let left = world_with(&[(10, 9)]);
    assert!(check_tile(&entity_at(474, 470, Direction::Left), &left));
    let right = world_with(&[(10, 11)]);
    assert!(check_tile(&entity_at(485, 470, Direction::Right), &right));
}

#[test]
fn the_probe_looks_exactly_one_step_ahead() {
    let world = world_with(&[(9, 10)]);
    assert!(!check_tile(&entity_at(480, 468, Direction::Up), &world));
    assert!(check_tile(&entity_at(480, 467, Direction::Up), &world));
    let mut slow = entity_at(480, 467, Direction::Up);
    slow.speed = 3;
    assert!(!check_tile(&slow, &world));
}

#[test]
fn clear_tiles_do_not_block() {
    let world = world_with(&[]);
    for direction in [Direction::Up, Direction::Down, Direction::Left, Direction::Right] {
        assert!(!check_tile(&entity_at(480, 480, direction), &world));
    }
}

#[test]
fn walls_behind_and_beside_do_not_block() {
    let around_up = world_with(&[(11, 10), (10, 9), (10, 11), (11, 9), (11, 11), (9, 9), (9, 11)]);
    assert!(!check_tile(&entity_at(480, 466, Direction::Up), &around_up));
    let around_right =
        world_with(&[(10, 9), (9, 10), (11, 10), (9, 9), (11, 9), (9, 11), (11, 11)]);
    assert!(!check_tile(&entity_at(485, 470, Direction::Right), &around_right));
}

#[test]
fn either_corner_of_the_leading_edge_blocks() {
    let left_corner = world_with(&[(9, 9)]);
    let right_corner = world_with(&[(9, 10)]);
    let entity = entity_at(456, 466, Direction::Up);
    assert!(check_tile(&entity, &left_corner));
    assert!(check_tile(&entity, &right_corner));
}

#[test]
fn the_edge_of_the_world_blocks() {
    let world = world_with(&[]);
    assert!(check_tile(&entity_at(0, -14, Direction::Up), &world));
    assert!(!check_tile(&entity_at(0, -12, Direction::Up), &world));
    assert!(check_tile(&entity_at(-6, 100, Direction::Left), &world));
    assert!(check_tile(&entity_at(2358, 100, Direction::Right), &world));
    assert!(!check_tile(&entity_at(2355, 100, Direction::Right), &world));
    assert!(check_tile(&entity_at(100, 2350, Direction::Down), &world));
}

#[test]
fn a_probe_leaves_the_hit_box_at_its_default() {
    let world = world_with(&[(9, 10)]);
    let entity = entity_at(480, 466, Direction::Up);
    let others = vec![entity_at(480, 440, Direction::Down)];
    let player = Player::default();
    check_tile(&entity, &world);
    check_entity(&entity, &others);
    check_object(&entity, &others);
    check_entity_hit(&entity, &others);
    check_player(&entity, &player);
    assert_eq!(entity.solid_area, Rect { x: 8, y: 16, w: 32, h: 32 });
    assert_eq!(entity.solid_area.x, entity.solid_area_default_x);
    assert_eq!(entity.solid_area.y, entity.solid_area_default_y);
    assert_eq!(others[0].solid_area.x, others[0].solid_area_default_x);
    assert_eq!(player.entity.solid_area.x, player.entity.solid_area_default_x);
    assert_eq!(player.entity.solid_area.y, player.entity.solid_area_default_y);
}

#[test]
fn areas_are_placed_shifted_and_compared() {
    let entity = entity_at(100, 200, Direction::Right);
    let solid = solid_area_of(&entity);
    assert_eq!((solid.left, solid.top, solid.right, solid.bottom), (108, 216, 140, 248));
    let probe = probe_area(&entity);
    assert_eq!((probe.left, probe.top, probe.right, probe.bottom), (112, 216, 144, 248));
    let placed = Area::place(Rect { x: 1, y: 2, w: 3, h: 4 }, 10, 20);
    assert_eq!((placed.left, placed.top, placed.right, placed.bottom), (11, 22, 14, 26));
    let shifted = placed.shift(Direction::Up, 5);
    assert_eq!((shifted.left, shifted.top, shifted.right, shifted.bottom), (11, 17, 14, 21));
    assert!(placed.overlaps(&Area { left: 14, top: 26, right: 20, bottom: 30 }));
    assert!(!placed.overlaps(&Area { left: 15, top: 26, right: 20, bottom: 30 }));
    assert!(!placed.overlaps(&Area { left: 0, top: 0, right: 10, bottom: 30 }));
    assert!(placed.overlaps(&Area { left: 12, top: 23, right: 13, bottom: 24 }));
}

#[test]
fn the_first_overlapping_entity_wins() {
    let entity = entity_at(480, 480, Direction::Down);
    let far = entity_at(1000, 1000, Direction::Down);
    let near = entity_at(480, 500, Direction::Down);
    let also_near = entity_at(490, 500, Direction::Down);
    assert_eq!(check_entity(&entity, &vec![far, near, also_near]), Some(1));
    let far = entity_at(1000, 1000, Direction::Down);
    assert_eq!(check_entity(&entity, &vec![far]), None);
    assert_eq!(check_entity(&entity, &Vec::new()), None);
}

#[test]
fn an_entity_does_not_collide_with_itself() {
    let entity = entity_at(480, 480, Direction::Down);
    let same = entity_at(480, 480, Direction::Down);
    let other = entity_at(480, 481, Direction::Down);
    assert_eq!(check_entity(&entity, &vec![same, other]), Some(1));
}

#[test]
fn only_the_probing_box_is_moved() {
    let entity = entity_at(480, 480, Direction::Down);
    let touching = entity_at(480, 516, Direction::Up);
    assert_eq!(check_entity(&entity, &vec![touching]), Some(0));
    let apart = entity_at(480, 517, Direction::Up);
    assert_eq!(check_entity(&entity, &vec![apart]), None);
}

#[test]
fn only_solid_objects_stop_an_entity() {
    let entity = entity_at(480, 480, Direction::Down);
    let mut key = entity_at(480, 490, Direction::Down);
    key.is_collidable = false;
    let mut door = entity_at(480, 495, Direction::Down);
    door.is_collidable = true;
    assert_eq!(check_object(&entity, &vec![key, door]), Some(1));
    let mut key = entity_at(480, 490, Direction::Down);
    key.is_collidable = false;
    assert_eq!(check_object(&entity, &vec![key]), None);
}

#[test]
fn the_player_is_found_one_step_ahead() {
    let mut player = Player::default();
    player.entity.world_x = 480;
    player.entity.world_y = 480;
    assert!(check_player(&entity_at(480, 444, Direction::Down), &player));
    assert!(!check_player(&entity_at(480, 443, Direction::Down), &player));
    assert!(!check_player(&entity_at(480, 444, Direction::Up), &player));
}

#[test]
fn an_attack_reaches_ahead_of_the_attacker() {
    let mut attacker = entity_at(480, 480, Direction::Right);
    attacker.attack_area = Rect { x: 0, y: 0, w: 36, h: 36 };
    let reach = attack_area_of(&attacker);
    assert_eq!((reach.left, reach.top, reach.right, reach.bottom), (528, 496, 564, 532));
    let in_reach = entity_at(550, 480, Direction::Left);
    let behind = entity_at(400, 480, Direction::Left);
    assert_eq!(check_entity_hit(&attacker, &vec![behind, in_reach]), Some(1));
    let behind = entity_at(400, 480, Direction::Left);
    assert_eq!(check_entity_hit(&attacker, &vec![behind]), None);
    let mut upward = entity_at(480, 480, Direction::Up);
    upward.attack_area = Rect { x: 0, y: 0, w: 36, h: 36 };
    let reach = attack_area_of(&upward);
    assert_eq!((reach.left, reach.top, reach.right, reach.bottom), (488, 456, 524, 492));
}
