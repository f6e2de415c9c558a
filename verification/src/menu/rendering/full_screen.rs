//! Messages over the whole terminal.

use vstd::prelude::*;
use crate::game::{GameState, GameStateView};
use crate::menu::assets::Asset;
use crate::menu::rendering::{Frame, FrameView, TerminalRenderer, MESSAGE_HOLD_SECS};
use crate::menu::ui_foundations::UIType;

verus! {

/// A screen that shows one message over the whole terminal.
pub struct FullScreenMessage {
    /// The screen that the message belongs to: the welcome for `Start`,
    /// the farewell for `Quit`.
    pub ui_type: UIType,
}

impl TerminalRenderer for FullScreenMessage {
    open spec fn scrolls(&self) -> bool {
        false
    }

    open spec fn scroll_offset(&self) -> u16 {
        0
    }

    /// The welcome for `Start` and the farewell for `Quit`, each held for
    /// three seconds; nothing for any other screen.
    open spec fn frame(&self, game_state: GameStateView) -> FrameView {
        match self.ui_type {
            UIType::Start => FrameView::Message { asset: Asset::Welcome, hold_secs: 3 },
            UIType::Quit => FrameView::Message { asset: Asset::Exit, hold_secs: 3 },
            _ => FrameView::Blank,
        }
    }

    fn render(&self, game_state: &GameState) -> (frame: Frame) {
        match self.ui_type {
            UIType::Start => Frame::Message { asset: Asset::Welcome, hold_secs: MESSAGE_HOLD_SECS },
            UIType::Quit => Frame::Message { asset: Asset::Exit, hold_secs: MESSAGE_HOLD_SECS },
            _ => Frame::Blank,
        }
    }

    fn set_scroll_offset(&mut self, offset: u16)
        ensures
            *final(self) == *old(self),
    {
    }

    fn get_scroll_offset(&self) -> (offset: u16) {
        0
    }
}

} // verus!
