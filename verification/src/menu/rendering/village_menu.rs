//! The screen of the villages.

use vstd::prelude::*;
use vstd::string::StringExecFns;
use crate::data::kingdom::village_views;
use crate::data::village::{Village, VillageView};
use crate::data::TerminalDisplay;
use crate::game::{GameState, GameStateView};
use crate::menu::rendering::{Frame, FrameView, TerminalRenderer};

verus! {

/// The lines of the villages, one after the other.
pub open spec fn village_lines(villages: Seq<VillageView>) -> Seq<char> {
    villages.map_values(|village: VillageView| village.display_text()).flatten()
}

/// The text of the villages' pane: a heading, then the line of each
/// village in the kingdom's order.
pub open spec fn villages_text(villages: Seq<VillageView>) -> Seq<char> {
    "Your villages:\n "@ + village_lines(villages)
}

/// Writes the text of the villages' pane.
pub fn write_villages(villages: &Vec<Village>) -> (text: String)
    ensures
        text@ == villages_text(village_views(villages@)),
{
    let ghost views = village_views(villages@);
    let mut text = String::from_str("Your villages:\n ");
    let mut i: usize = 0;
    while i < villages.len()
        invariant
            i <= villages.len(),
            views == village_views(villages@),
            text@ == villages_text(views.take(i as int)),
        decreases villages.len() - i,
    {
        let line = villages[i].display();
        text.append(line.as_str());
        proof {
            let lines = |village: VillageView| village.display_text();
            let before = views.take(i as int);
            assert(views.take(i + 1) =~= before.push(views[i as int]));
            assert(before.push(views[i as int]).map_values(lines) =~= before.map_values(
                lines,
            ).push(views[i as int].display_text()));
            before.map_values(lines).lemma_flatten_push(views[i as int].display_text());
            assert(text@ =~= villages_text(views.take(i + 1)));
        }
        i = i + 1;
    }
    assert(views.take(i as int) =~= views);
    text
}

/// The screen that lists the player's villages.
pub struct VillageMenu {
    /// By how many lines the main pane is moved up.
    scroll_offset: u16,
}

impl VillageMenu {
    /// The screen, shown from its top.
    pub fn new() -> (menu: VillageMenu)
        ensures
            menu.scroll_offset() == 0,
    {
        VillageMenu { scroll_offset: 0 }
    }
}

impl TerminalRenderer for VillageMenu {
    open spec fn scrolls(&self) -> bool {
        true
    }

    closed spec fn scroll_offset(&self) -> u16 {
        self.scroll_offset
    }

    /// The menu, and the villages' text in the main pane, moved up by the
    /// scroll offset.
    open spec fn frame(&self, game_state: GameStateView) -> FrameView {
        FrameView::TextPane {
            text: villages_text(game_state.kingdom.villages),
            scroll: self.scroll_offset(),
        }
    }

    fn render(&self, game_state: &GameState) -> (frame: Frame) {
        Frame::TextPane {
            text: write_villages(&game_state.kingdom.villages),
            scroll: self.scroll_offset,
        }
    }

    fn set_scroll_offset(&mut self, offset: u16) {
        self.scroll_offset = offset;
    }

    fn get_scroll_offset(&self) -> (offset: u16) {
        self.scroll_offset
    }
}

} // verus!
