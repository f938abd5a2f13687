use blue_boy_adventure::utils::game_state_handler::GameState;
use blue_boy_adventure::utils::game_state_handler::GameStateHandler;
use blue_boy_adventure::utils::game_state_handler::TitleScreenSubState;
use blue_boy_adventure::utils::key_handler::Key;
use blue_boy_adventure::utils::key_handler::KeyHandler;
use blue_boy_adventure::utils::sound_handler::SoundHandler;
use blue_boy_adventure::utils::sound_handler::SoundRequest;
use blue_boy_adventure::utils::ui::UIHandler;

struct Desk {
    keys: KeyHandler,
    state: GameStateHandler,
    ui: UIHandler,
    sound: SoundHandler,
}

impl Desk {
    fn new(game_state: GameState) -> Desk {
        let mut state = GameStateHandler::default();
        state.game_state = game_state;
        Desk { keys: KeyHandler::default(), state, ui: UIHandler::new(), sound: SoundHandler::default() }
    }

    fn press(&mut self, key: Option<Key>) -> bool {
        self.keys.handle_key_down(key, &mut self.state, &mut self.ui, &mut self.sound)
    }
}

#[test]
fn the_game_starts_on_the_main_menu() {
    let state = GameStateHandler::default();
    assert_eq!(state.game_state, GameState::Title);
    assert_eq!(state.title_screen_state, TitleScreenSubState::MainMenu);
    assert_eq!(GameState::default(), GameState::Title);
    assert_eq!(TitleScreenSubState::default(), TitleScreenSubState::MainMenu);
    let keys = KeyHandler::default();
    assert!(!keys.direction_held());
    assert!(!keys.enter_pressed);
}

#[test]
fn keys_become_intents_during_play() {
    let mut desk = Desk::new(GameState::Play);
    assert!(!desk.press(Some(Key::A)));
    assert!(desk.keys.left_pressed);
    desk.press(Some(Key::W));
    desk.press(Some(Key::D));
    desk.press(Some(Key::S));
    desk.press(Some(Key::Return));
    desk.press(Some(Key::Other));
    assert!(desk.keys.up_pressed && desk.keys.right_pressed && desk.keys.down_pressed);
    assert!(desk.keys.enter_pressed);
    assert!(desk.keys.direction_held());
    assert_eq!(desk.state.game_state, GameState::Play);
    desk.keys.handle_key_up(Some(Key::A));
    assert!(!desk.keys.left_pressed);
    assert!(desk.keys.up_pressed);
    desk.keys.handle_key_up(Some(Key::Return));
    assert!(!desk.keys.enter_pressed);
    desk.keys.handle_key_up(Some(Key::P));
    assert!(desk.keys.up_pressed);
    desk.keys.handle_key_up(None);
    assert_eq!(desk.keys, KeyHandler::default());
}

#[test]
fn an_event_without_a_key_releases_everything() {
    let mut desk = Desk::new(GameState::Play);
    desk.press(Some(Key::A));
    desk.press(Some(Key::Return));
    desk.press(None);
    assert_eq!(desk.keys, KeyHandler::default());
}

#[test]
fn keys_are_not_intents_outside_of_play() {
    for mode in [GameState::Paused, GameState::Dialogue, GameState::Character, GameState::Title] {
        let mut desk = Desk::new(mode);
        desk.press(Some(Key::A));
        desk.press(Some(Key::D));
        assert_eq!(desk.keys, KeyHandler::default());
    }
}

#[test]
fn the_mode_keys_open_and_close_their_screens() {
    let mut desk = Desk::new(GameState::Play);
    desk.press(Some(Key::P));
    assert_eq!(desk.state.game_state, GameState::Paused);
    desk.press(Some(Key::C));
    assert_eq!(desk.state.game_state, GameState::Paused);
    desk.press(Some(Key::P));
    assert_eq!(desk.state.game_state, GameState::Play);
    desk.press(Some(Key::C));
    assert_eq!(desk.state.game_state, GameState::Character);
    desk.press(Some(Key::Return));
    assert_eq!(desk.state.game_state, GameState::Character);
    desk.press(Some(Key::C));
    assert_eq!(desk.state.game_state, GameState::Play);
    let mut desk = Desk::new(GameState::Dialogue);
    desk.press(Some(Key::P));
    assert_eq!(desk.state.game_state, GameState::Dialogue);
    desk.press(Some(Key::Return));
    assert_eq!(desk.state.game_state, GameState::Play);
    assert!(!desk.keys.enter_pressed);
}

#[test]
fn the_main_menu_wraps_at_both_ends() {
    let mut desk = Desk::new(GameState::Title);
    desk.press(Some(Key::W));
    assert_eq!(desk.ui.command_num, 2);
    desk.press(Some(Key::S));
    assert_eq!(desk.ui.command_num, 0);
    desk.press(Some(Key::S));
    desk.press(Some(Key::S));
    assert_eq!(desk.ui.command_num, 2);
    desk.press(Some(Key::W));
    assert_eq!(desk.ui.command_num, 1);
    assert!(!desk.press(Some(Key::Return)));
    assert_eq!(desk.state.title_screen_state, TitleScreenSubState::MainMenu);
}

#[test]
fn the_last_entry_of_the_main_menu_quits() {
    let mut desk = Desk::new(GameState::Title);
    desk.ui.command_num = 2;
    assert!(desk.press(Some(Key::Return)));
    assert_eq!(desk.state.game_state, GameState::Title);
    assert!(desk.sound.requests.is_empty());
}

#[test]
fn a_class_starts_the_game_and_the_music() {
    for entry in 0..3 {
        let mut desk = Desk::new(GameState::Title);
        assert!(!desk.press(Some(Key::Return)));
        assert_eq!(desk.state.title_screen_state, TitleScreenSubState::ClassMenu);
        assert_eq!(desk.state.game_state, GameState::Title);
        desk.ui.command_num = entry;
        assert!(!desk.press(Some(Key::Return)));
        assert_eq!(desk.state.game_state, GameState::Play);
        assert_eq!(desk.sound.requests, vec![SoundRequest::PlayMusic(0)]);
    }
}

#[test]
fn the_class_menu_wraps_and_leads_back() {
    let mut desk = Desk::new(GameState::Title);
    desk.press(Some(Key::Return));
    desk.press(Some(Key::W));
    assert_eq!(desk.ui.command_num, 3);
    desk.press(Some(Key::S));
    assert_eq!(desk.ui.command_num, 0);
    desk.press(Some(Key::W));
    desk.press(Some(Key::Return));
    assert_eq!(desk.state.title_screen_state, TitleScreenSubState::MainMenu);
    assert_eq!(desk.ui.command_num, 0);
    assert_eq!(desk.state.game_state, GameState::Title);
    assert!(desk.sound.requests.is_empty());
}

#[test]
fn sound_requests_are_kept_in_order_until_taken() {
    let mut sound = SoundHandler::default();
    assert_eq!(sound.sounds.len(), 7);
    assert_eq!(sound.sounds[0], "/sound/BlueBoyAdventure.wav");
    assert_eq!(sound.sounds[6], "/sound/receivedamage.wav");
    sound.play_music(0);
    sound.play_sound_effect(5);
    sound.stop_music();
    let taken = sound.take_requests();
    assert_eq!(
        taken,
        vec![SoundRequest::PlayMusic(0), SoundRequest::PlayEffect(5), SoundRequest::StopMusic]
    );
    assert!(sound.requests.is_empty());
    assert!(sound.take_requests().is_empty());
    assert_eq!(sound.sounds.len(), 7);
}
