use blue_boy_adventure::entities::entity::Direction;
use blue_boy_adventure::entities::entity::EntityData;
use blue_boy_adventure::entities::entity::EntityType;
use blue_boy_adventure::entities::entity::GameEntity;
use blue_boy_adventure::entities::monsters::mon_green_slime::MonGreenSlime;
use blue_boy_adventure::entities::objects::obj_shield_blue::ObjShieldBlue;
use blue_boy_adventure::entities::objects::obj_sword_normal::ObjSwordNormal;
use blue_boy_adventure::entities::player::damage;
use blue_boy_adventure::entities::player::Player;

fn fighter(life: i32, max_life: i32) -> EntityData {
    let mut entity = EntityData::default();
    entity.max_life = max_life;
    entity.life = life;
    entity
}

#[test]
fn apply_damage_takes_life_and_opens_the_window() {
    let mut target = fighter(6, 6);
    let died = target.apply_damage(1);
    assert!(!died);
    assert_eq!(target.life, 5);
    assert!(target.is_invincible);
    assert_eq!(target.invincible_counter, 0);
    assert!(!target.dying);
    assert!(target.alive);
}

#[test]
fn apply_damage_clamps_life_at_zero_and_starts_dying() {
    let mut target = fighter(1, 4);
    let died = target.apply_damage(5);
    assert!(died);
    assert_eq!(target.life, 0);
    assert!(target.dying);
    assert!(target.alive);
    assert!(target.is_invincible);
}

#[test]
fn apply_damage_of_exactly_the_life_left_kills() {
    let mut target = fighter(3, 4);
    assert!(target.apply_damage(3));
    assert_eq!(target.life, 0);
}

#[test]
fn apply_damage_of_zero_still_opens_the_window() {
    let mut target = fighter(3, 4);
    assert!(!target.apply_damage(0));
    assert_eq!(target.life, 3);
    assert!(target.is_invincible);
}

#[test]
fn apply_damage_does_nothing_while_invincible() {
    let mut target = fighter(6, 6);
    target.apply_damage(1);
    let died = target.apply_damage(4);
    assert!(!died);
    assert_eq!(target.life, 5);
    assert!(target.is_invincible);
    assert_eq!(target.invincible_counter, 0);
}

#[test]
fn a_hit_inside_the_window_changes_life_at_most_once() {
    let mut target = fighter(6, 6);
    target.apply_damage(1);
    for tick in 1..50 {
        target.decay_invincibility(50);
        assert!(target.is_invincible);
        assert_eq!(target.invincible_counter, tick);
        target.apply_damage(1);
        assert_eq!(target.life, 5);
    }
    target.decay_invincibility(50);
    assert!(!target.is_invincible);
    assert_eq!(target.invincible_counter, 0);
    target.apply_damage(1);
    assert_eq!(target.life, 4);
}

#[test]
fn death_is_reported_once() {
    let mut target = fighter(1, 4);
    assert!(target.apply_damage(1));
    for _ in 0..50 {
        target.decay_invincibility(50);
    }
    assert!(!target.is_invincible);
    assert!(target.dying);
    assert!(!target.apply_damage(1));
    assert_eq!(target.life, 0);
    assert!(target.dying);
}

#[test]
fn dying_ends_after_sixty_ticks() {
    let mut target = fighter(1, 4);
    target.apply_damage(1);
    for tick in 1..60 {
        target.decay_dying();
        assert!(target.alive);
        assert!(target.dying);
        assert_eq!(target.dying_counter, tick);
    }
    target.decay_dying();
    assert!(!target.alive);
    assert!(!target.dying);
    assert_eq!(target.dying_counter, 0);
}

#[test]
fn damage_is_attack_less_defense_and_never_negative() {
    assert_eq!(damage(3, 1), 2);
    assert_eq!(damage(1, 1), 0);
    assert_eq!(damage(1, 3), 0);
    assert_eq!(damage(0, 0), 0);
    assert_eq!(damage(7, -2), 9);
    assert_eq!(damage(i64::MAX, i64::MIN), u32::MAX);
    assert_eq!(damage(i64::MIN, i64::MAX), 0);
    assert_eq!(damage(4294967295, 0), u32::MAX);
    assert_eq!(damage(4294967294, 0), 4294967294);
}

#[test]
fn attack_power_counts_the_weapon_and_defense_power_the_shield() {
    let mut player = Player::default();
    assert_eq!(player.attack_power(), 0);
    assert_eq!(player.defense_power(), 0);
    player.entity.attack = 2;
    player.entity.defense = 1;
    player.equip_weapon(ObjSwordNormal::new().entity_data.as_equipment());
    player.equip_shield(ObjShieldBlue::new().entity_data.as_equipment());
    assert_eq!(player.attack_power(), 3);
    assert_eq!(player.defense_power(), 3);
    assert_eq!(player.entity.attack_area.w, 36);
    assert_eq!(player.entity.attack_area.h, 36);
}

#[test]
fn damage_monster_subtracts_the_defense() {
    let mut player = Player::default();
    let mut monster = MonGreenSlime::new().entity_data;
    monster.defense = 1;
    let died = player.damage_monster(&mut monster, 3);
    assert!(!died);
    assert_eq!(monster.life, 2);
    assert!(monster.is_invincible);
}

#[test]
fn damage_monster_weaker_than_the_defense_takes_no_life() {
    let mut player = Player::default();
    let mut monster = MonGreenSlime::new().entity_data;
    monster.defense = 5;
    assert!(!player.damage_monster(&mut monster, 3));
    assert_eq!(monster.life, 4);
}

#[test]
fn damage_player_subtracts_the_defense_power() {
    let mut player = Player::default();
    player.entity.defense = 1;
    player.damage_player(3);
    assert_eq!(player.entity.life, 4);
    assert!(player.entity.is_invincible);
}

#[test]
fn contact_with_a_live_monster_costs_one_life() {
    let mut player = Player::default();
    player.entity.direction = Direction::Down;
    let monster = MonGreenSlime::new().entity_data;
    player.interact_monster(&monster);
    assert_eq!(player.entity.life, 5);
    assert!(player.entity.is_invincible);
    assert_eq!(player.entity.direction, Direction::Down);
    player.interact_monster(&monster);
    assert_eq!(player.entity.life, 5);
}

#[test]
fn contact_with_a_dead_monster_costs_nothing() {
    let mut player = Player::default();
    let mut monster = MonGreenSlime::new().entity_data;
    monster.alive = false;
    player.interact_monster(&monster);
    assert_eq!(player.entity.life, 6);
    assert!(!player.entity.is_invincible);
}

#[test]
fn the_monster_window_is_fifty_ticks_and_the_players_seventy_five() {
    let mut player = Player::default();
    let mut monster = MonGreenSlime::new().entity_data;
    player.interact_monster(&monster);
    monster.apply_damage(1);
    for _ in 0..50 {
        monster.update(true);
        player.entity.decay_invincibility(75);
    }
    assert!(!monster.is_invincible);
    assert!(player.entity.is_invincible);
    assert_eq!(player.entity.invincible_counter, 50);
    assert_eq!(player.entity.life, 5);
    for _ in 0..24 {
        player.entity.decay_invincibility(75);
    }
    assert!(player.entity.is_invincible);
    player.entity.decay_invincibility(75);
    assert!(!player.entity.is_invincible);
    assert_eq!(player.entity.invincible_counter, 0);
}

#[test]
fn an_attack_winds_up_swings_and_ends() {
    let mut player = Player::default();
    player.entity.sprite_counter = 9;
    player.start_attack();
    assert!(player.entity.attacking);
    assert_eq!(player.entity.sprite_counter, 0);
    assert!(!player.attack_is_live());
    for tick in 1..=5 {
        player.attack();
        assert_eq!(player.entity.sprite_counter, tick);
        assert_eq!(player.entity.sprite_num, 1);
        assert!(player.entity.attacking);
        assert!(!player.attack_is_live());
    }
    for tick in 6..=25 {
        player.attack();
        assert_eq!(player.entity.sprite_counter, tick);
        assert_eq!(player.entity.sprite_num, 2);
        assert!(player.attack_is_live());
    }
    player.attack();
    assert!(!player.entity.attacking);
    assert_eq!(player.entity.sprite_counter, 0);
    assert_eq!(player.entity.sprite_num, 1);
    assert!(!player.attack_is_live());
}

#[test]
fn transparency_fades_the_invincible_and_blinks_the_dying() {
    let mut entity = fighter(2, 4);
    assert_eq!(entity.get_transparency(), 100);
    entity.is_invincible = true;
    assert_eq!(entity.get_transparency(), 70);
    entity.dying = true;
    entity.dying_counter = 0;
    assert_eq!(entity.get_transparency(), 100);
    entity.dying_counter = 5;
    assert_eq!(entity.get_transparency(), 0);
    entity.dying_counter = 9;
    assert_eq!(entity.get_transparency(), 0);
    entity.dying_counter = 10;
    assert_eq!(entity.get_transparency(), 100);
    entity.is_invincible = false;
    entity.dying_counter = 15;
    assert_eq!(entity.get_transparency(), 0);
    entity.dying_counter = -5;
    assert_eq!(entity.get_transparency(), 100);
}

#[test]
fn a_hit_monster_turns_the_way_the_blow_came_from() {
    let mut monster = MonGreenSlime::new().entity_data;
    monster.action_lock_counter = 77;
    monster.damage_reaction(Direction::Left);
    assert_eq!(monster.direction, Direction::Left);
    assert_eq!(monster.action_lock_counter, 0);
    let mut object = EntityData::default();
    object.entity_type = EntityType::Object;
    object.action_lock_counter = 7;
    object.damage_reaction(Direction::Left);
    assert_eq!(object.direction, Direction::Down);
    assert_eq!(object.action_lock_counter, 7);
}

#[test]
fn the_health_bar_shows_on_a_hit_and_hides_after_its_time() {
    let mut monster = MonGreenSlime::new().entity_data;
    monster.apply_damage(1);
    monster.update(true);
    assert!(monster.hp_bar_on);
    assert_eq!(monster.hp_bar_counter, 1);
    for _ in 0..49 {
        monster.update(true);
    }
    assert!(!monster.is_invincible);
    assert!(monster.hp_bar_on);
    assert_eq!(monster.hp_bar_counter, 1);
    for _ in 0..749 {
        monster.update(true);
    }
    assert!(monster.hp_bar_on);
    assert_eq!(monster.hp_bar_counter, 750);
    monster.update(true);
    assert!(!monster.hp_bar_on);
    assert_eq!(monster.hp_bar_counter, 0);
}

#[test]
fn the_trait_gives_the_same_tick_as_the_record() {
    let mut slime = MonGreenSlime::new();
    let mut record = MonGreenSlime::new().entity_data;
    slime.update(true);
    record.update(true);
    assert_eq!(slime.entity_data().sprite_counter, record.sprite_counter);
    assert_eq!(slime.entity_data().world_x, record.world_x);
    slime.entity_data_mut().life = 2;
    assert_eq!(slime.entity_data.life, 2);
    assert_eq!(slime.get_transparency(), 100);
    slime.damage_reaction(Direction::Up);
    assert_eq!(slime.entity_data.direction, Direction::Up);
}
