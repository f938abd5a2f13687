use blue_boy_adventure::entities::entity::direction_for_roll;
use blue_boy_adventure::entities::entity::Direction;
use blue_boy_adventure::entities::entity::EntityData;
use blue_boy_adventure::entities::entity::EntityType;
use blue_boy_adventure::entities::monsters::mon_green_slime::MonGreenSlime;
use blue_boy_adventure::entities::npc::npc_old_man::NPCOldMan;

fn walker() -> EntityData {
    let mut entity = MonGreenSlime::new().entity_data;
    entity.world_x = 480;
    entity.world_y = 480;
    entity
}

#[test]
fn the_frame_toggles_on_every_thirteenth_tick() {
    let mut entity = walker();
    assert_eq!(entity.sprite_num, 1);
    for round in 0..4 {
        let frame = if round % 2 == 0 { 1 } else { 2 };
        for tick in 1..=12 {
            entity.update(false);
            assert_eq!(entity.sprite_num, frame);
            assert_eq!(entity.sprite_counter, tick);
        }
        entity.update(false);
        assert_eq!(entity.sprite_num, 3 - frame);
        assert_eq!(entity.sprite_counter, 0);
    }
}

#[test]
fn a_blocked_entity_animates_at_the_same_pace() {
    let mut blocked = walker();
    let mut free = walker();
    for _ in 0..40 {
        blocked.update(true);
        free.update(false);
        assert_eq!(blocked.sprite_num, free.sprite_num);
        assert_eq!(blocked.sprite_counter, free.sprite_counter);
    }
    assert_eq!(blocked.sprite_num, 2);
    assert_eq!(blocked.sprite_counter, 1);
}

#[test]
fn animate_alone_keeps_the_cadence() {
    let mut entity = walker();
    for _ in 0..12 {
        entity.animate();
    }
    assert_eq!(entity.sprite_num, 1);
    assert_eq!(entity.sprite_counter, 12);
    entity.animate();
    assert_eq!(entity.sprite_num, 2);
    assert_eq!(entity.sprite_counter, 0);
}

#[test]
fn an_unblocked_entity_moves_by_its_speed() {
    let mut entity = walker();
    entity.speed = 3;
    entity.direction = Direction::Up;
    entity.update(false);
    assert_eq!((entity.world_x, entity.world_y), (480, 477));
    entity.direction = Direction::Down;
    entity.update(false);
    assert_eq!((entity.world_x, entity.world_y), (480, 480));
    entity.direction = Direction::Left;
    entity.update(false);
    assert_eq!((entity.world_x, entity.world_y), (477, 480));
    entity.direction = Direction::Right;
    entity.update(false);
    assert_eq!((entity.world_x, entity.world_y), (480, 480));
    assert!(!entity.is_collision_on);
}

#[test]
fn a_blocked_entity_stays_where_it_is() {
    let mut entity = walker();
    entity.direction = Direction::Right;
    entity.update(true);
    assert_eq!((entity.world_x, entity.world_y), (480, 480));
    assert!(entity.is_collision_on);
}

#[test]
fn a_step_fits_unless_it_leaves_the_numbers() {
    let mut entity = walker();
    assert!(entity.can_step());
    entity.world_x = i32::MAX;
    entity.direction = Direction::Right;
    assert!(!entity.can_step());
    entity.direction = Direction::Up;
    assert!(entity.can_step());
    entity.world_y = i32::MIN;
    assert!(!entity.can_step());
    entity.speed = 0;
    assert!(entity.can_step());
}

#[test]
fn advance_moves_one_step_unless_blocked() {
    let mut entity = walker();
    entity.speed = 5;
    entity.direction = Direction::Left;
    entity.advance(false);
    assert_eq!(entity.world_x, 475);
    entity.advance(true);
    assert_eq!(entity.world_x, 475);
    entity.advance(false);
    assert_eq!(entity.world_x, 470);
}

#[test]
fn a_roll_picks_the_direction_by_quarters() {
    assert_eq!(direction_for_roll(1), Direction::Up);
    assert_eq!(direction_for_roll(25), Direction::Up);
    assert_eq!(direction_for_roll(26), Direction::Down);
    assert_eq!(direction_for_roll(50), Direction::Down);
    assert_eq!(direction_for_roll(51), Direction::Left);
    assert_eq!(direction_for_roll(75), Direction::Left);
    assert_eq!(direction_for_roll(76), Direction::Right);
    assert_eq!(direction_for_roll(100), Direction::Right);
}

#[test]
fn the_wandering_clock_resets_on_the_hundred_and_twentieth_tick() {
    let mut monster = walker();
    for tick in 1..120 {
        monster.set_action();
        assert_eq!(monster.action_lock_counter, tick);
        assert_eq!(monster.direction, Direction::Down);
    }
    monster.set_action();
    assert_eq!(monster.action_lock_counter, 0);
    assert!(matches!(
        monster.direction,
        Direction::Up | Direction::Down | Direction::Left | Direction::Right
    ));
}

#[test]
fn set_action_with_takes_the_choice_only_when_due() {
    let mut monster = walker();
    monster.set_action_with(Direction::Left);
    assert_eq!(monster.direction, Direction::Down);
    assert_eq!(monster.action_lock_counter, 1);
    monster.action_lock_counter = 119;
    monster.set_action_with(Direction::Left);
    assert_eq!(monster.direction, Direction::Left);
    assert_eq!(monster.action_lock_counter, 0);
}

#[test]
fn objects_and_the_player_do_not_wander() {
    let mut object = EntityData::default();
    object.entity_type = EntityType::Object;
    object.action_lock_counter = 119;
    object.set_action();
    assert_eq!(object.action_lock_counter, 119);
    assert_eq!(object.direction, Direction::Down);
    let mut player = EntityData::default();
    player.entity_type = EntityType::Player;
    player.set_action();
    assert_eq!(player.action_lock_counter, 0);
}

#[test]
fn an_npc_wanders_like_a_monster() {
    let mut npc = NPCOldMan::new().entity_data;
    npc.action_lock_counter = 118;
    npc.set_action();
    assert_eq!(npc.action_lock_counter, 119);
    npc.set_action();
    assert_eq!(npc.action_lock_counter, 0);
}

#[test]
fn the_drawn_directions_are_spread_evenly() {
    let mut counts = [0u32; 4];
    let mut monster = walker();
    for _ in 0..4000 {
        monster.action_lock_counter = 119;
        monster.set_action();
        assert_eq!(monster.action_lock_counter, 0);
        let slot = match monster.direction {
            Direction::Up => 0,
            Direction::Down => 1,
            Direction::Left => 2,
            Direction::Right => 3,
        };
        counts[slot] += 1;
    }
    for count in counts {
        assert!(count > 800, "a direction came only {} times in 4000", count);
        assert!(count < 1200, "a direction came {} times in 4000", count);
    }
}
