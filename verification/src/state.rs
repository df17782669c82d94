//! The stages that the game goes through.

use vstd::prelude::*;

verus! {

/// Where the application is: in its menu or in the game.
#[derive(Clone, Copy, Eq, PartialEq, Debug, Hash)]
pub enum AppState {
    Menu,
    Game,
}

/// Where the game is: not started, loading its assets, or running.
#[derive(Clone, Copy, Eq, PartialEq, Debug, Hash)]
pub enum GameState {
    Null,
    AssetLoading,
    InGame,
}

} // verus!
