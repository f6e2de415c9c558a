//! The diplomacy screen.

use vstd::prelude::*;
use vstd::string::StringExecFns;
use crate::game::{GameState, GameStateView};
use crate::menu::rendering::{Frame, FrameView, TerminalRenderer};

verus! {

/// The screen of the player's diplomatic relations.
pub struct DiplomacyMenu {
    /// By how many lines the main pane is moved up.
    scroll_offset: u16,
}

impl DiplomacyMenu {
    /// The screen, shown from its top.
    pub fn new() -> (menu: DiplomacyMenu)
        ensures
            menu.scroll_offset() == 0,
    {
        DiplomacyMenu { scroll_offset: 0 }
    }
}

impl TerminalRenderer for DiplomacyMenu {
    open spec fn scrolls(&self) -> bool {
        true
    }

    closed spec fn scroll_offset(&self) -> u16 {
        self.scroll_offset
    }

    /// The menu, and a fixed text in the main pane.
    open spec fn frame(&self, game_state: GameStateView) -> FrameView {
        FrameView::TextPane { text: "Not done yet"@, scroll: self.scroll_offset() }
    }

    fn render(&self, game_state: &GameState) -> (frame: Frame) {
        Frame::TextPane { text: String::from_str("Not done yet"), scroll: self.scroll_offset }
    }

    fn set_scroll_offset(&mut self, offset: u16) {
        self.scroll_offset = offset;
    }

    fn get_scroll_offset(&self) -> (offset: u16) {
        self.scroll_offset
    }
}

} // verus!
