//! The top-level mode of the game.

use vstd::prelude::*;

verus! {

/// The mode the game is in. Only `Play` advances the simulation.
#[derive(Debug, Clone, Copy, PartialEq, Eq, Structural)]
pub enum GameState {
    Play,
    Paused,
    Dialogue,
    Title,
    Character,
}

impl Default for GameState {
    fn default() -> (state: GameState)
        ensures
            state == GameState::Title,
    {
        GameState::Title
    }
}

/// The page of the title screen that is shown.
#[derive(Debug, Clone, Copy, PartialEq, Eq, Structural)]
pub enum TitleScreenSubState {
    MainMenu,
    ClassMenu,
}

impl Default for TitleScreenSubState {
    fn default() -> (state: TitleScreenSubState)
        ensures
            state == TitleScreenSubState::MainMenu,
    {
        TitleScreenSubState::MainMenu
    }
}

/// Holds the current mode and the current page of the title screen.
#[derive(Debug, Clone, Copy, PartialEq, Eq, Structural)]
pub struct GameStateHandler {
    pub game_state: GameState,
    pub title_screen_state: TitleScreenSubState,
}

impl Default for GameStateHandler {
    fn default() -> (handler: GameStateHandler)
        ensures
            handler.game_state == GameState::Title,
            handler.title_screen_state == TitleScreenSubState::MainMenu,
    {
        GameStateHandler {
            game_state: GameState::Title,
            title_screen_state: TitleScreenSubState::MainMenu,
        }
    }
}

} // verus!
