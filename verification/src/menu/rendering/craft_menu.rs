//! The screen of the crafts.

use vstd::prelude::*;
use vstd::string::StringExecFns;
use crate::data::craft::{Craft, CraftType};
use crate::data::kingdom::craft_views;
use crate::data::TerminalDisplay;
use crate::game::{GameState, GameStateView};
use crate::menu::rendering::{Frame, FrameView, TerminalRenderer};

verus! {

/// The lines of some crafts, one after the other.
pub open spec fn craft_lines(crafts: Seq<Craft>) -> Seq<char> {
    crafts.map_values(|craft: Craft| craft.display_text()).flatten()
}

/// The text of one category: its name, a colon and a line break, a blank,
/// then the line of each of its crafts.
pub open spec fn category_text(entry: (CraftType, Seq<Craft>)) -> Seq<char> {
    entry.0.name_text() + ":\n "@ + craft_lines(entry.1)
}

/// The text of the crafts' pane: the text of each category in the
/// kingdom's order.
pub open spec fn crafts_text(crafts: Seq<(CraftType, Seq<Craft>)>) -> Seq<char> {
    crafts.map_values(|entry: (CraftType, Seq<Craft>)| category_text(entry)).flatten()
}

/// Writes the text of one category onto the end of `text`.
fn write_category(text: &mut String, craft_type: CraftType, crafts: &Vec<Craft>)
    ensures
        final(text)@ == old(text)@ + category_text((craft_type, crafts@)),
{
    let ghost start = text@;
    text.append(craft_type.to_string().as_str());
    text.append(":\n ");
    let ghost head = craft_type.name_text() + ":\n "@;
    assert(text@ =~= start + head);
    let mut i: usize = 0;
    while i < crafts.len()
        invariant
            i <= crafts.len(),
            text@ == start + (head + craft_lines(crafts@.take(i as int))),
        decreases crafts.len() - i,
    {
        let line = crafts[i].display();
        text.append(line.as_str());
        proof {
            let lines = |craft: Craft| craft.display_text();
            let before = crafts@.take(i as int);
            assert(crafts@.take(i + 1) =~= before.push(crafts[i as int]));
            assert(before.push(crafts[i as int]).map_values(lines) =~= before.map_values(
                lines,
            ).push(crafts[i as int].display_text()));
            before.map_values(lines).lemma_flatten_push(crafts[i as int].display_text());
            assert(text@ =~= start + (head + craft_lines(crafts@.take(i + 1))));
        }
        i = i + 1;
    }
    assert(crafts@.take(i as int) =~= crafts@);
}

/// Writes the text of the crafts' pane.
pub fn write_crafts(crafts: &Vec<(CraftType, Vec<Craft>)>) -> (text: String)
    ensures
        text@ == crafts_text(craft_views(crafts@)),
{
    let ghost views = craft_views(crafts@);
    let mut text = String::new();
    let mut i: usize = 0;
    assert(crafts_text(views.take(0)) =~= Seq::<char>::empty());
    while i < crafts.len()
        invariant
            i <= crafts.len(),
            views == craft_views(crafts@),
            text@ == crafts_text(views.take(i as int)),
        decreases crafts.len() - i,
    {
        write_category(&mut text, crafts[i].0, &crafts[i].1);
        proof {
            let texts = |entry: (CraftType, Seq<Craft>)| category_text(entry);
            let before = views.take(i as int);
            assert(views.take(i + 1) =~= before.push(views[i as int]));
            assert(before.push(views[i as int]).map_values(texts) =~= before.map_values(
                texts,
            ).push(category_text(views[i as int])));
            before.map_values(texts).lemma_flatten_push(category_text(views[i as int]));
        }
        i = i + 1;
    }
    assert(views.take(i as int) =~= views);
    text
}

/// The screen that lists the player's crafts.
pub struct CraftMenu {
    /// By how many lines the main pane is moved up.
    scroll_offset: u16,
}

impl CraftMenu {
    /// The screen, shown from its top.
    pub fn new() -> (menu: CraftMenu)
        ensures
            menu.scroll_offset() == 0,
    {
        CraftMenu { scroll_offset: 0 }
    }
}

impl TerminalRenderer for CraftMenu {
    open spec fn scrolls(&self) -> bool {
        true
    }

    closed spec fn scroll_offset(&self) -> u16 {
        self.scroll_offset
    }

    /// The menu, and the crafts' text in the main pane, moved up by the
    /// scroll offset.
    open spec fn frame(&self, game_state: GameStateView) -> FrameView {
        FrameView::TextPane {
            text: crafts_text(game_state.kingdom.crafts),
            scroll: self.scroll_offset(),
        }
    }

    fn render(&self, game_state: &GameState) -> (frame: Frame) {
        Frame::TextPane { text: write_crafts(&game_state.kingdom.crafts), scroll: self.scroll_offset }
    }

    fn set_scroll_offset(&mut self, offset: u16) {
        self.scroll_offset = offset;
    }

    fn get_scroll_offset(&self) -> (offset: u16) {
        self.scroll_offset
    }
}

} // verus!
