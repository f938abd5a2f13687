use blue_boy_adventure::entities::entity::Direction;
use blue_boy_adventure::entities::entity::EntityData;
use blue_boy_adventure::entities::entity::EntityType;
use blue_boy_adventure::entities::entity::GameEntity;
use blue_boy_adventure::entities::monsters::mon_green_slime::MonGreenSlime;
use blue_boy_adventure::entities::npc::npc_old_man::NPCOldMan;
use blue_boy_adventure::entities::object::ObjectData;
use blue_boy_adventure::entities::objects::asset_setter::AssetSetter;
use blue_boy_adventure::entities::objects::obj_axe::ObjAxe;
use blue_boy_adventure::entities::objects::obj_boots::ObjBoots;
use blue_boy_adventure::entities::objects::obj_chest::ObjChest;
use blue_boy_adventure::entities::objects::obj_door::ObjDoor;
use blue_boy_adventure::entities::objects::obj_fireball::ObjFireball;
use blue_boy_adventure::entities::objects::obj_heart::ObjHeart;
use blue_boy_adventure::entities::objects::obj_key::ObjKey;
use blue_boy_adventure::entities::objects::obj_potion_red::ObjPotionRed;
use blue_boy_adventure::entities::objects::obj_shield_blue::ObjShieldBlue;
use blue_boy_adventure::entities::objects::obj_shield_wood::ObjShieldWood;
use blue_boy_adventure::entities::objects::obj_sword_normal::ObjSwordNormal;
use blue_boy_adventure::entities::player::Player;
use blue_boy_adventure::entities::projectiles::projectile::Projectile;
use blue_boy_adventure::geometry::Rect;
use blue_boy_adventure::simulation::GameData;
use blue_boy_adventure::tiles::tile::TileManager;
use blue_boy_adventure::utils::game_event_handler::GameEventHandler;
use blue_boy_adventure::utils::game_state_handler::GameState;
use blue_boy_adventure::utils::game_state_handler::GameStateHandler;
use blue_boy_adventure::utils::key_handler::KeyHandler;
use blue_boy_adventure::utils::sound_handler::SoundHandler;
use blue_boy_adventure::utils::sound_handler::SoundRequest;
use blue_boy_adventure::utils::ui::UIHandler;
use blue_boy_adventure::GameHandlers;

fn handlers() -> GameHandlers {
    GameHandlers {
        key_handler: KeyHandler::default(),
        tile_manager: TileManager::from_grid(vec![vec![10; 50]; 50]).unwrap(),
        asset_setter: AssetSetter::default(),
        sound_handler: SoundHandler::default(),
        ui_handler: UIHandler::new(),
        game_state_handler: GameStateHandler::default(),
        event_handler: GameEventHandler::new(),
    }
}

#[test]
fn the_blank_record_is_a_living_monster_at_the_origin() {
    let entity = EntityData::default();
    assert_eq!((entity.world_x, entity.world_y, entity.speed), (0, 0, 0));
    assert_eq!(entity.direction, Direction::Down);
    assert_eq!(Direction::default(), Direction::Down);
    assert_eq!(entity.entity_type, EntityType::Monster);
    assert_eq!(EntityType::default(), EntityType::Monster);
    assert_eq!((entity.sprite_counter, entity.sprite_num), (0, 1));
    assert_eq!(entity.solid_area, Rect { x: 0, y: 0, w: 48, h: 48 });
    assert_eq!(entity.attack_area, Rect { x: 0, y: 0, w: 0, h: 0 });
    assert_eq!((entity.life, entity.max_life), (0, 0));
    assert!(entity.alive);
    assert!(!entity.dying && !entity.is_invincible && !entity.attacking);
    assert!(!entity.is_collidable && !entity.is_collision_on && !entity.hp_bar_on);
    assert_eq!(entity.name, "");
    assert_eq!(entity.description, "");
    assert!(entity.dialogues.is_empty());
    assert!(entity.current_weapon.is_none() && entity.current_shield.is_none());
    assert!(entity.projectile_thrown_by.is_none());
}

#[test]
fn the_player_starts_with_six_lives_on_its_tile() {
    let player = Player::default();
    assert_eq!((player.screen_x, player.screen_y), (1128, 360));
    assert_eq!((player.entity.world_x, player.entity.world_y), (48 * 23, 48 * 21));
    assert_eq!(player.entity.speed, 4);
    assert_eq!(player.entity.solid_area, Rect { x: 8, y: 16, w: 32, h: 32 });
    assert_eq!((player.entity.solid_area_default_x, player.entity.solid_area_default_y), (8, 16));
    assert_eq!((player.entity.life, player.entity.max_life), (6, 6));
    assert_eq!(player.entity.entity_type, EntityType::Player);
    assert_eq!(player.entity.attack_area, Rect { x: 0, y: 0, w: 36, h: 36 });
    assert_eq!(player.entity_data().life, 6);
}

#[test]
fn the_slime_is_a_slow_monster_with_four_lives() {
    let slime = MonGreenSlime::new();
    let data = slime.entity_data();
    assert_eq!(data.name, "Green Slime");
    assert_eq!(data.speed, 1);
    assert_eq!((data.life, data.max_life), (4, 4));
    assert_eq!(data.solid_area, Rect { x: 3, y: 18, w: 42, h: 30 });
    assert_eq!((data.solid_area_default_x, data.solid_area_default_y), (3, 18));
    assert_eq!(data.entity_type, EntityType::Monster);
    assert_eq!((data.world_x, data.world_y), (0, 0));
    assert!(data.alive);
}

#[test]
fn the_old_man_has_four_lines() {
    let npc = NPCOldMan::new();
    assert_eq!((npc.screen_x, npc.screen_y), (0, 0));
    let data = &npc.entity_data;
    assert_eq!(data.direction, Direction::Down);
    assert_eq!(data.speed, 1);
    assert_eq!(data.solid_area, Rect { x: 0, y: 24, w: 48, h: 24 });
    assert_eq!((data.solid_area_default_x, data.solid_area_default_y), (0, 24));
    assert_eq!(data.entity_type, EntityType::Npc);
    assert_eq!(
        data.dialogues,
        vec![
            "Hello, lad.",
            "So you've como to this island to find the treasure?",
            "I used to be a great wizard but now... I'm a bit too old for taking adventure.",
            "Well, good luck on you.",
        ]
    );
    assert_eq!(data.dialogue_index, 0);
}

#[test]
fn speaking_walks_through_the_lines_and_wraps() {
    let mut npc = NPCOldMan::new().entity_data;
    let mut handlers = handlers();
    let mut player = Player::default();
    player.entity.direction = Direction::Left;
    npc.speak(&mut handlers, &player);
    assert_eq!(handlers.ui_handler.current_dialogue, "Hello, lad.");
    assert_eq!(npc.dialogue_index, 1);
    assert_eq!(npc.direction, Direction::Right);
    player.entity.direction = Direction::Up;
    npc.speak(&mut handlers, &player);
    assert_eq!(npc.direction, Direction::Down);
    npc.speak(&mut handlers, &player);
    npc.speak(&mut handlers, &player);
    assert_eq!(handlers.ui_handler.current_dialogue, "Well, good luck on you.");
    assert_eq!(npc.dialogue_index, 0);
    npc.speak(&mut handlers, &player);
    assert_eq!(handlers.ui_handler.current_dialogue, "Hello, lad.");
}

#[test]
fn an_entity_without_lines_only_turns() {
    let mut slime = MonGreenSlime::new().entity_data;
    let mut handlers = handlers();
    handlers.ui_handler.current_dialogue = "before".to_string();
    let mut player = Player::default();
    player.entity.direction = Direction::Down;
    slime.speak(&mut handlers, &player);
    assert_eq!(handlers.ui_handler.current_dialogue, "before");
    assert_eq!(slime.dialogue_index, 0);
    assert_eq!(slime.direction, Direction::Up);
    assert_eq!(Direction::Right.opposite(), Direction::Left);
    assert_eq!(Direction::Up.opposite(), Direction::Down);
}

#[test]
fn talking_to_an_npc_needs_confirm() {
    let mut npc = NPCOldMan::new().entity_data;
    let mut handlers = handlers();
    handlers.game_state_handler.game_state = GameState::Play;
    let mut player = Player::default();
    player.interact_npc(&mut npc, &mut handlers);
    assert_eq!(handlers.game_state_handler.game_state, GameState::Play);
    assert_eq!(npc.dialogue_index, 0);
    handlers.key_handler.enter_pressed = true;
    player.interact_npc(&mut npc, &mut handlers);
    assert_eq!(handlers.game_state_handler.game_state, GameState::Dialogue);
    assert_eq!(handlers.ui_handler.current_dialogue, "Hello, lad.");
    assert_eq!(npc.dialogue_index, 1);
    assert_eq!(npc.direction, Direction::Up);
}

#[test]
fn the_objects_carry_their_names_and_values() {
    let axe = ObjAxe::new().entity_data;
    assert_eq!(axe.name, "Woodcutter`s Axe");
    assert_eq!(axe.description, "[Woodcutter`s Axe]\nA bit rusty but still can cut some trees.");
    assert_eq!(axe.attack_value, 2);
    assert_eq!(axe.attack_area, Rect { x: 0, y: 0, w: 30, h: 30 });
    assert_eq!(axe.entity_type, EntityType::Object);
    let axe = ObjAxe::new_positioned(7, 9).entity_data;
    assert_eq!((axe.world_x, axe.world_y), (7, 9));
    let boots = ObjBoots::new(1, 2).entity_data;
    assert_eq!(boots.name, "Boots");
    assert_eq!((boots.world_x, boots.world_y), (1, 2));
    assert!(!boots.is_collidable);
    let chest = ObjChest::new(3, 4).entity_data;
    assert_eq!(chest.name, "Chest");
    assert_eq!((chest.world_x, chest.world_y), (3, 4));
    let door = ObjDoor::new(5, 6).entity_data;
    assert_eq!(door.name, "Door");
    assert!(door.is_collidable);
    assert_eq!((door.world_x, door.world_y), (5, 6));
    let heart = ObjHeart::new(7, 8).entity_data;
    assert_eq!(heart.name, "Heart");
    assert!(heart.is_collidable);
    let key = ObjKey::new(9, 10).entity_data;
    assert_eq!(key.name, "Key");
    assert_eq!(key.description, "[Key]\nIt opens a door.");
    assert_eq!((key.world_x, key.world_y), (9, 10));
    let blue = ObjShieldBlue::new().entity_data;
    assert_eq!(blue.name, "Blue Shield");
    assert_eq!(blue.defense_value, 2);
    assert_eq!(blue.description, "[Blue Shield]\nA shiny blue shield.");
    assert_eq!(ObjShieldBlue::new_positioned(4, 5).entity_data.world_y, 5);
    let wood = ObjShieldWood::new().entity_data;
    assert_eq!(wood.name, "Wood Sword");
    assert_eq!(wood.defense_value, 1);
    assert_eq!(wood.description, "[Wood Sword]\nMade of wood.");
    let sword = ObjSwordNormal::new().entity_data;
    assert_eq!(sword.name, "Normal Sword");
    assert_eq!(sword.attack_value, 1);
    assert_eq!(sword.attack_area, Rect { x: 0, y: 0, w: 36, h: 36 });
    assert_eq!(sword.description, "[Normal Sword]\nAn old sword.");
    let equipment = sword.as_equipment();
    assert_eq!(equipment.name, "Normal Sword");
    assert_eq!(equipment.attack_value, 1);
    assert_eq!(equipment.defense_value, 0);
    assert_eq!(equipment.attack_area, Rect { x: 0, y: 0, w: 36, h: 36 });
    let object = ObjectData::default();
    assert_eq!(object.name, "");
    assert_eq!(object.solid_area, Rect { x: 0, y: 0, w: 48, h: 48 });
    assert!(!object.is_collidable);
}

#[test]
fn the_fireball_rests_until_it_is_thrown() {
    let mut fireball = ObjFireball::new();
    assert_eq!(fireball.entity_data.name, "Fireball");
    assert_eq!(fireball.entity_data.speed, 10);
    assert_eq!((fireball.entity_data.life, fireball.entity_data.max_life), (80, 80));
    assert_eq!(fireball.entity_data.attack, 2);
    assert_eq!(fireball.entity_data.use_cost, 1);
    assert!(!fireball.entity_data.alive);
    assert!(fireball.entity_data.is_collidable);
    fireball.set(100, 200, Direction::Right, true, EntityType::Player);
    let data = &fireball.entity_data;
    assert_eq!((data.world_x, data.world_y), (100, 200));
    assert_eq!(data.direction, Direction::Right);
    assert!(data.alive);
    assert_eq!(data.projectile_thrown_by, Some(EntityType::Player));
    assert_eq!(data.life, 80);
    let placed = ObjFireball::new_positioned(3, 4);
    assert_eq!((placed.entity_data.world_x, placed.entity_data.world_y), (3, 4));
}

#[test]
fn a_projectile_flies_until_its_life_runs_out() {
    let mut fireball = ObjFireball::new();
    fireball.set(1000, 1000, Direction::Left, true, EntityType::Player);
    Projectile::update(&mut fireball);
    assert_eq!(fireball.entity_data.world_x, 990);
    assert_eq!(fireball.entity_data.life, 79);
    assert_eq!(fireball.entity_data.sprite_counter, 1);
    assert!(fireball.entity_data.alive);
    for _ in 0..78 {
        Projectile::update(&mut fireball);
    }
    assert!(fireball.entity_data.alive);
    assert_eq!(fireball.entity_data.life, 1);
    assert_eq!(fireball.entity_data.world_x, 210);
    Projectile::update(&mut fireball);
    assert!(!fireball.entity_data.alive);
    assert_eq!(fireball.entity_data.life, 0);
    assert_eq!(fireball.entity_data.world_x, 200);
    Projectile::update(&mut fireball);
    assert_eq!(fireball.entity_data.life, 0);
    assert_eq!(fireball.entity_data.world_x, 200);
}

#[test]
fn a_potion_heals_up_to_the_greatest_life() {
    let mut potion = ObjPotionRed::new();
    assert_eq!(potion.value, 5);
    assert_eq!(potion.entity_data.name, "Red Potion");
    assert_eq!(potion.entity_data.description, "[Red Potion]\nHeals your life by 5.");
    assert_eq!(ObjPotionRed::new_positioned(1, 2).entity_data.world_x, 1);
    let mut state = GameStateHandler::default();
    state.game_state = GameState::Play;
    let mut ui = UIHandler::new();
    let mut sound = SoundHandler::default();
    let mut drinker = EntityData::default();
    drinker.max_life = 12;
    drinker.life = 3;
    potion.use_item(&mut drinker, &mut state, &mut ui, &mut sound);
    assert_eq!(drinker.life, 8);
    assert_eq!(state.game_state, GameState::Dialogue);
    assert_eq!(
        ui.current_dialogue,
        "You drink the Red Potion!\nYour life has been recovered by 5."
    );
    assert_eq!(sound.requests, vec![SoundRequest::PlayEffect(2)]);
    potion.use_item(&mut drinker, &mut state, &mut ui, &mut sound);
    assert_eq!(drinker.life, 12);
    potion.use_item(&mut drinker, &mut state, &mut ui, &mut sound);
    assert_eq!(drinker.life, 12);
    assert_eq!(sound.requests.len(), 3);
}

#[test]
fn the_initial_rosters_stand_on_their_tiles() {
    let objects = AssetSetter::initialize_objects();
    let places: Vec<(String, i32, i32)> = objects
        .iter()
        .map(|object| (object.name.clone(), object.world_x / 48, object.world_y / 48))
        .collect();
    assert_eq!(
        places,
        vec![
            ("Key".to_string(), 25, 23),
            ("Key".to_string(), 21, 19),
            ("Key".to_string(), 26, 21),
            ("Woodcutter`s Axe".to_string(), 33, 21),
            ("Blue Shield".to_string(), 35, 21),
            ("Red Potion".to_string(), 22, 27),
        ]
    );
    let npcs = AssetSetter::initialize_npcs();
    assert_eq!(npcs.len(), 1);
    assert_eq!((npcs[0].world_x, npcs[0].world_y), (48 * 21, 48 * 21));
    assert_eq!(npcs[0].dialogues.len(), 4);
    let monsters = AssetSetter::initialize_monsters();
    assert_eq!(monsters.len(), 4);
    for (place, monster) in monsters.iter().enumerate() {
        assert_eq!(monster.name, "Green Slime");
        assert_eq!(monster.world_x, 48 * 23);
        assert_eq!(monster.world_y, 48 * (36 + place as i32));
        assert_eq!(monster.life, 4);
    }
}

#[test]
fn a_new_game_starts_on_the_title_screen() {
    let game = GameData::new(TileManager::from_grid(vec![vec![10; 50]; 50]).unwrap());
    assert_eq!(game.game_handlers.game_state_handler.game_state, GameState::Title);
    assert_eq!(game.objects.len(), 6);
    assert_eq!(game.npcs.len(), 1);
    assert_eq!(game.monsters.len(), 4);
    assert_eq!(game.projectiles.len(), 1);
    assert_eq!(game.projectiles[0].name, "Fireball");
    assert!(!game.projectiles[0].alive);
    assert_eq!(game.player.entity.life, 6);
    assert_eq!(game.player.attack_power(), 1);
    assert_eq!(game.player.defense_power(), 1);
    assert_eq!(game.player.entity.current_weapon.as_ref().unwrap().name, "Normal Sword");
    assert_eq!(game.player.entity.current_shield.as_ref().unwrap().name, "Wood Sword");
    assert_eq!(game.game_handlers.event_handler.game_events.len(), 2);
    assert!(game.game_handlers.sound_handler.requests.is_empty());
}
