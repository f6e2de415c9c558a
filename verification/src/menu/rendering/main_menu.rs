//! The main menu.

use vstd::prelude::*;
use crate::game::{GameState, GameStateView};
use crate::menu::assets::Asset;
use crate::menu::rendering::{Frame, FrameView, TerminalRenderer};

verus! {

/// The screen of the main menu.
pub struct MainMenu;

impl TerminalRenderer for MainMenu {
    open spec fn scrolls(&self) -> bool {
        false
    }

    open spec fn scroll_offset(&self) -> u16 {
        0
    }

    /// The menu, and the main menu's text file in the main pane.
    open spec fn frame(&self, game_state: GameStateView) -> FrameView {
        FrameView::AssetPane { asset: Asset::Main, scroll: 0 }
    }

    fn render(&self, game_state: &GameState) -> (frame: Frame) {
        Frame::AssetPane { asset: Asset::Main, scroll: 0 }
    }

    fn set_scroll_offset(&mut self, offset: u16) {
    }

    fn get_scroll_offset(&self) -> (offset: u16) {
        0
    }
}

} // verus!
