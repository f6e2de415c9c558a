//! The running game.

use vstd::prelude::*;
use crate::data::kingdom::{Kingdom, KingdomView};

pub mod game_loop;

verus! {

/// The state of a running game: the player's kingdom.
#[derive(Debug, Clone, PartialEq, Eq)]
pub struct GameState {
    /// The player's kingdom.
    pub kingdom: Kingdom,
}

/// A game state as a mathematical value.
pub struct GameStateView {
    /// The kingdom.
    pub kingdom: KingdomView,
}

impl View for GameState {
    type V = GameStateView;

    open spec fn view(&self) -> GameStateView {
        GameStateView { kingdom: self.kingdom@ }
    }
}

impl GameState {
    /// The state of a game that starts with `kingdom`.
    pub fn new(kingdom: Kingdom) -> (state: GameState)
        ensures
            state.kingdom == kingdom,
            state@.kingdom == kingdom@,
    {
        GameState { kingdom }
    }
}

} // verus!
