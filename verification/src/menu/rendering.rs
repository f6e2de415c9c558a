//! What each screen puts on the terminal.

use vstd::prelude::*;
use crate::game::{GameState, GameStateView};
use crate::menu::assets::Asset;

pub mod craft_menu;
pub mod diplomacy_menu;
pub mod full_screen;
pub mod main_menu;
pub mod village_menu;

verus! {

/// For how many seconds a message over the whole terminal is held.
pub const MESSAGE_HOLD_SECS: u64 = 3;

/// One frame of the terminal, before it is laid out and coloured.
#[derive(Debug, Clone, PartialEq, Eq)]
pub enum Frame {
    /// Nothing is drawn.
    Blank,
    /// A text file is shown over the whole terminal, and the terminal then
    /// rests for `hold_secs` seconds.
    Message { asset: Asset, hold_secs: u64 },
    /// The menu stands on the left; the main pane shows a text file.
    AssetPane { asset: Asset, scroll: u16 },
    /// The menu stands on the left; the main pane shows `text`, moved up
    /// by `scroll` lines.
    TextPane { text: String, scroll: u16 },
}

/// A frame as a mathematical value.
pub enum FrameView {
    /// Nothing is drawn.
    Blank,
    /// A text file over the whole terminal.
    Message { asset: Asset, hold_secs: u64 },
    /// The menu, and a text file in the main pane.
    AssetPane { asset: Asset, scroll: u16 },
    /// The menu, and a text in the main pane.
    TextPane { text: Seq<char>, scroll: u16 },
}

impl View for Frame {
    type V = FrameView;

    open spec fn view(&self) -> FrameView {
        match self {
            Frame::Blank => FrameView::Blank,
            Frame::Message { asset, hold_secs } => FrameView::Message {
                asset: *asset,
                hold_secs: *hold_secs,
            },
            Frame::AssetPane { asset, scroll } => FrameView::AssetPane {
                asset: *asset,
                scroll: *scroll,
            },
            Frame::TextPane { text, scroll } => FrameView::TextPane { text: text@, scroll: *scroll },
        }
    }
}

/// A screen: it says what a frame of it shows, and it may keep a scroll
/// offset.
pub trait TerminalRenderer {
    /// Whether the screen keeps a scroll offset.
    spec fn scrolls(&self) -> bool;

    /// The screen's scroll offset; 0 for a screen that keeps none.
    spec fn scroll_offset(&self) -> u16;

    /// The frame that the screen shows for a game state.
    spec fn frame(&self, game_state: GameStateView) -> FrameView;

    /// Says what the screen shows for `game_state`.
    fn render(&self, game_state: &GameState) -> (frame: Frame)
        ensures
            frame@ == self.frame(game_state@),
    ;

    /// Sets the scroll offset. A screen that keeps none stays as it is.
    fn set_scroll_offset(&mut self, offset: u16)
        ensures
            final(self).scrolls() == old(self).scrolls(),
            final(self).scroll_offset() == (if old(self).scrolls() {
                offset
            } else {
                0
            }),
    ;

    /// The scroll offset; 0 for a screen that keeps none.
    fn get_scroll_offset(&self) -> (offset: u16)
        ensures
            offset == self.scroll_offset(),
            !self.scrolls() ==> offset == 0,
    ;
}

} // verus!
