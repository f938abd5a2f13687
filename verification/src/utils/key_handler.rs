//! Turns key presses into the intents the simulation reads, and into mode
//! changes.

use vstd::prelude::*;

use crate::utils::game_state_handler::GameState;
use crate::utils::game_state_handler::GameStateHandler;
use crate::utils::game_state_handler::TitleScreenSubState;
use crate::utils::sound_handler::SoundHandler;
use crate::utils::sound_handler::SoundRequest;
use crate::utils::sound_handler::SOUND_MUSIC;
use crate::utils::ui::UIHandler;

verus! {

/// The keys the game reacts to; every other key is `Other`.
#[derive(Debug, Clone, Copy, PartialEq, Eq, Structural)]
pub enum Key {
    A,
    W,
    D,
    S,
    P,
    C,
    Return,
    Other,
}

/// Which intents are currently held.
#[derive(Debug, Clone, Copy, PartialEq, Eq, Structural)]
pub struct KeyHandler {
    pub left_pressed: bool,
    pub right_pressed: bool,
    pub up_pressed: bool,
    pub down_pressed: bool,
    pub enter_pressed: bool,
}

impl Default for KeyHandler {
    fn default() -> (keys: KeyHandler)
        ensures
            keys == KeyHandler::released(),
    {
        KeyHandler {
            left_pressed: false,
            right_pressed: false,
            up_pressed: false,
            down_pressed: false,
            enter_pressed: false,
        }
    }
}

/// The menu entry above `entry`, wrapping from the first to `last`.
pub open spec fn spec_menu_up(entry: i8, last: i8) -> i8 {
    if entry <= 0 {
        last
    } else {
        (entry - 1) as i8
    }
}

/// The menu entry below `entry`, wrapping from `last` to the first.
pub open spec fn spec_menu_down(entry: i8, last: i8) -> i8 {
    if entry >= last {
        0
    } else {
        (entry + 1) as i8
    }
}

/// What a key press does on the title screen.
pub struct TitleOutcome {
    /// The mode and page afterwards.
    pub state: GameStateHandler,
    /// The menu entry afterwards.
    pub command_num: i8,
    /// Whether the background music starts.
    pub music: bool,
    /// Whether the game is asked to quit.
    pub quit: bool,
}

/// What pressing `input` does on the title screen, where the menu cursor is
/// at `command_num`.
pub open spec fn spec_title_state(
    state: GameStateHandler,
    command_num: i8,
    input: Option<Key>,
) -> TitleOutcome {
    let stay = TitleOutcome { state, command_num, music: false, quit: false };
    match state.title_screen_state {
        TitleScreenSubState::MainMenu => match input {
            Some(Key::W) => TitleOutcome { command_num: spec_menu_up(command_num, 2), ..stay },
            Some(Key::S) => TitleOutcome { command_num: spec_menu_down(command_num, 2), ..stay },
            Some(Key::Return) => if command_num == 0 {
                TitleOutcome {
                    state: GameStateHandler {
                        title_screen_state: TitleScreenSubState::ClassMenu,
                        ..state
                    },
                    ..stay
                }
            } else if command_num == 2 {
                TitleOutcome { quit: true, ..stay }
            } else {
                stay
            },
            _ => stay,
        },
        TitleScreenSubState::ClassMenu => match input {
            Some(Key::W) => TitleOutcome { command_num: spec_menu_up(command_num, 3), ..stay },
            Some(Key::S) => TitleOutcome { command_num: spec_menu_down(command_num, 3), ..stay },
            Some(Key::Return) => if 0 <= command_num <= 2 {
                TitleOutcome {
                    state: GameStateHandler { game_state: GameState::Play, ..state },
                    music: true,
                    ..stay
                }
            } else if command_num == 3 {
                TitleOutcome {
                    state: GameStateHandler {
                        title_screen_state: TitleScreenSubState::MainMenu,
                        ..state
                    },
                    command_num: 0,
                    ..stay
                }
            } else {
                stay
            },
            _ => stay,
        },
    }
}

/// The mode after pressing `input` outside the title screen.
pub open spec fn spec_mode_after_key(state: GameState, input: Option<Key>) -> GameState {
    match (state, input) {
        (GameState::Play, Some(Key::P)) => GameState::Paused,
        (GameState::Play, Some(Key::C)) => GameState::Character,
        (GameState::Paused, Some(Key::P)) => GameState::Play,
        (GameState::Dialogue, Some(Key::Return)) => GameState::Play,
        (GameState::Character, Some(Key::C)) => GameState::Play,
        _ => state,
    }
}

impl KeyHandler {
    /// No intent is held.
    pub open spec fn released() -> KeyHandler {
        KeyHandler {
            left_pressed: false,
            right_pressed: false,
            up_pressed: false,
            down_pressed: false,
            enter_pressed: false,
        }
    }

    /// The intents after `input` changed to `held`: the key's own intent
    /// follows it, a key without an intent changes nothing, and an event
    /// without a key releases everything.
    pub open spec fn spec_with_key(self, input: Option<Key>, held: bool) -> KeyHandler {
        match input {
            Some(Key::A) => KeyHandler { left_pressed: held, ..self },
            Some(Key::W) => KeyHandler { up_pressed: held, ..self },
            Some(Key::D) => KeyHandler { right_pressed: held, ..self },
            Some(Key::S) => KeyHandler { down_pressed: held, ..self },
            Some(Key::Return) => KeyHandler { enter_pressed: held, ..self },
            Some(_) => self,
            None => Self::released(),
        }
    }

    /// Whether any direction is held.
    pub open spec fn spec_direction_held(self) -> bool {
        self.left_pressed || self.right_pressed || self.up_pressed || self.down_pressed
    }

    /// Whether any direction is held.
    pub fn direction_held(&self) -> (held: bool)
        ensures
            held == self.spec_direction_held(),
    {
        self.left_pressed || self.right_pressed || self.up_pressed || self.down_pressed
    }

    fn set_key(&mut self, input: Option<Key>, held: bool)
        ensures
            *final(self) == old(self).spec_with_key(input, held),
    {
        match input {
            Some(Key::A) => {
                self.left_pressed = held;
            },
            Some(Key::W) => {
                self.up_pressed = held;
            },
            Some(Key::D) => {
                self.right_pressed = held;
            },
            Some(Key::S) => {
                self.down_pressed = held;
            },
            Some(Key::Return) => {
                self.enter_pressed = held;
            },
            Some(_) => {},
            None => {
                self.left_pressed = false;
                self.right_pressed = false;
                self.up_pressed = false;
                self.down_pressed = false;
                self.enter_pressed = false;
            },
        }
    }

    fn title_state(
        game_state_handler: &mut GameStateHandler,
        input: Option<Key>,
        ui_handler: &mut UIHandler,
        sound_handler: &mut SoundHandler,
    ) -> (quit: bool)
        ensures
            ({
                let outcome = spec_title_state(
                    *old(game_state_handler),
                    old(ui_handler).command_num,
                    input,
                );
                &&& *final(game_state_handler) == outcome.state
                &&& *final(ui_handler) == (UIHandler {
                    command_num: outcome.command_num,
                    ..*old(ui_handler)
                })
                &&& final(sound_handler).sounds == old(sound_handler).sounds
                &&& final(sound_handler).requests@ == if outcome.music {
                    old(sound_handler).requests@.push(SoundRequest::PlayMusic(SOUND_MUSIC))
                } else {
                    old(sound_handler).requests@
                }
                &&& quit == outcome.quit
            }),
    {
        let entry: i8 = ui_handler.command_num;
        match game_state_handler.title_screen_state {
            TitleScreenSubState::MainMenu => match input {
                Some(Key::W) => {
                    ui_handler.command_num = if entry <= 0 { 2 } else { entry - 1 };
                    false
                },
                Some(Key::S) => {
                    ui_handler.command_num = if entry >= 2 { 0 } else { entry + 1 };
                    false
                },
                Some(Key::Return) => {
                    if entry == 0 {
                        game_state_handler.title_screen_state = TitleScreenSubState::ClassMenu;
                    }
                    entry == 2
                },
                _ => false,
            },
            TitleScreenSubState::ClassMenu => match input {
                Some(Key::W) => {
                    ui_handler.command_num = if entry <= 0 { 3 } else { entry - 1 };
                    false
                },
                Some(Key::S) => {
                    ui_handler.command_num = if entry >= 3 { 0 } else { entry + 1 };
                    false
                },
                Some(Key::Return) => {
                    if 0 <= entry && entry <= 2 {
                        game_state_handler.game_state = GameState::Play;
                        sound_handler.play_music(SOUND_MUSIC);
                    } else if entry == 3 {
                        game_state_handler.title_screen_state = TitleScreenSubState::MainMenu;
                        ui_handler.command_num = 0;
                    }
                    false
                },
                _ => false,
            },
        }
    }

    fn play_state(&mut self, input: Option<Key>, game_state_handler: &mut GameStateHandler)
        requires
            old(game_state_handler).game_state == GameState::Play,
        ensures
            *final(self) == old(self).spec_with_key(input, true),
            *final(game_state_handler) == (GameStateHandler {
                game_state: spec_mode_after_key(GameState::Play, input),
                ..*old(game_state_handler)
            }),
    {
        self.set_key(input, true);
        match input {
            Some(Key::P) => {
                game_state_handler.game_state = GameState::Paused;
            },
            Some(Key::C) => {
                game_state_handler.game_state = GameState::Character;
            },
            _ => {},
        }
    }

    fn pause_state(input: Option<Key>, game_state_handler: &mut GameStateHandler)
        requires
            old(game_state_handler).game_state == GameState::Paused,
        ensures
            *final(game_state_handler) == (GameStateHandler {
                game_state: spec_mode_after_key(GameState::Paused, input),
                ..*old(game_state_handler)
            }),
    {
        if let Some(Key::P) = input {
            game_state_handler.game_state = GameState::Play;
        }
    }

    fn dialogue_state(input: Option<Key>, game_state_handler: &mut GameStateHandler)
        requires
            old(game_state_handler).game_state == GameState::Dialogue,
        ensures
            *final(game_state_handler) == (GameStateHandler {
                game_state: spec_mode_after_key(GameState::Dialogue, input),
                ..*old(game_state_handler)
            }),
    {
        if let Some(Key::Return) = input {
            game_state_handler.game_state = GameState::Play;
        }
    }

    fn character_state(input: Option<Key>, game_state_handler: &mut GameStateHandler)
        requires
            old(game_state_handler).game_state == GameState::Character,
        ensures
            *final(game_state_handler) == (GameStateHandler {
                game_state: spec_mode_after_key(GameState::Character, input),
                ..*old(game_state_handler)
            }),
    {
        if let Some(Key::C) = input {
            game_state_handler.game_state = GameState::Play;
        }
    }

    /// Handles a key press in the current mode. During play the key's intent
    /// becomes held and `P` and `C` open the pause and character screens;
    /// on those screens and in a dialogue the closing key returns to play;
    /// on the title screen the key moves through the menus. Returns whether
    /// the game is asked to quit.
    pub fn handle_key_down(
        &mut self,
        input: Option<Key>,
        game_state_handler: &mut GameStateHandler,
        ui_handler: &mut UIHandler,
        sound_handler: &mut SoundHandler,
    ) -> (quit: bool)
        ensures
            old(game_state_handler).game_state == GameState::Title ==> {
                let outcome = spec_title_state(
                    *old(game_state_handler),
                    old(ui_handler).command_num,
                    input,
                );
                &&& *final(self) == *old(self)
                &&& *final(game_state_handler) == outcome.state
                &&& *final(ui_handler) == (UIHandler {
                    command_num: outcome.command_num,
                    ..*old(ui_handler)
                })
                &&& final(sound_handler).sounds == old(sound_handler).sounds
                &&& final(sound_handler).requests@ == if outcome.music {
                    old(sound_handler).requests@.push(SoundRequest::PlayMusic(SOUND_MUSIC))
                } else {
                    old(sound_handler).requests@
                }
                &&& quit == outcome.quit
            },
            old(game_state_handler).game_state != GameState::Title ==> {
                &&& *final(self) == if old(game_state_handler).game_state == GameState::Play {
                    old(self).spec_with_key(input, true)
                } else {
                    *old(self)
                }
                &&& *final(game_state_handler) == (GameStateHandler {
                    game_state: spec_mode_after_key(old(game_state_handler).game_state, input),
                    ..*old(game_state_handler)
                })
                &&& *final(ui_handler) == *old(ui_handler)
                &&& *final(sound_handler) == *old(sound_handler)
                &&& !quit
            },
    {
        match game_state_handler.game_state {
            GameState::Play => {
                self.play_state(input, game_state_handler);
                false
            },
            GameState::Paused => {
                Self::pause_state(input, game_state_handler);
                false
            },
            GameState::Dialogue => {
                Self::dialogue_state(input, game_state_handler);
                false
            },
            GameState::Character => {
                Self::character_state(input, game_state_handler);
                false
            },
            GameState::Title => Self::title_state(
                game_state_handler,
                input,
                ui_handler,
                sound_handler,
            ),
        }
    }

    /// Handles a key release: the key's intent is no longer held, and an
    /// event without a key releases everything.
    pub fn handle_key_up(&mut self, input: Option<Key>)
        ensures
            *final(self) == old(self).spec_with_key(input, false),
    {
        self.set_key(input, false);
    }
}

} // verus!
