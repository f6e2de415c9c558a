//! The state machine of the screens: which one is shown, until when, and
//! how far it is scrolled.

use vstd::prelude::*;
use std::time::Instant;
use crate::game::{GameState, GameStateView};
use crate::menu::clock;
use crate::menu::rendering::craft_menu::{crafts_text, CraftMenu};
use crate::menu::rendering::diplomacy_menu::DiplomacyMenu;
use crate::menu::rendering::full_screen::FullScreenMessage;
use crate::menu::rendering::main_menu::MainMenu;
use crate::menu::rendering::village_menu::{villages_text, VillageMenu};
use crate::menu::rendering::{Frame, FrameView, TerminalRenderer};
use crate::menu::ui_foundations::{ScrollingDirection, UIType};

verus! {

/// For how long the welcome and the farewell are shown: three seconds, in
/// nanoseconds.
pub const EXPIRY_NANOS: u64 = 3_000_000_000;

/// Whether a screen keeps a scroll offset: the villages, the crafts and
/// the diplomacy screen do.
pub open spec fn keeps_scroll_offset(ui_type: UIType) -> bool {
    ui_type == UIType::Villages || ui_type == UIType::Crafts || ui_type == UIType::Diplomacy
}

/// The state of the screens as a mathematical value. Times are readings of
/// the state's clock, in nanoseconds since it was started.
pub struct CurrentUIView {
    /// The screen that is shown.
    pub ui_type: UIType,
    /// The reading after which the screen has expired, if it expires.
    pub expiration_time: Option<nat>,
    /// The scroll offset of the villages' screen.
    pub villages_offset: u16,
    /// The scroll offset of the crafts' screen.
    pub crafts_offset: u16,
    /// The scroll offset of the diplomacy screen.
    pub diplomacy_offset: u16,
}

impl CurrentUIView {
    /// The state at the start: the welcome is shown from reading 0 on and
    /// for three seconds, and nothing is scrolled.
    pub open spec fn initial() -> CurrentUIView {
        CurrentUIView {
            ui_type: UIType::Start,
            expiration_time: Some(EXPIRY_NANOS as nat),
            villages_offset: 0,
            crafts_offset: 0,
            diplomacy_offset: 0,
        }
    }

    /// The scroll offset of the screen that is shown; 0 where the screen
    /// keeps none.
    pub open spec fn scroll_offset(self) -> u16 {
        match self.ui_type {
            UIType::Villages => self.villages_offset,
            UIType::Crafts => self.crafts_offset,
            UIType::Diplomacy => self.diplomacy_offset,
            _ => 0,
        }
    }

    /// The state with the scroll offset of the shown screen set to
    /// `offset`. A screen that keeps none leaves the state as it is.
    pub open spec fn with_scroll_offset(self, offset: u16) -> CurrentUIView {
        match self.ui_type {
            UIType::Villages => CurrentUIView { villages_offset: offset, ..self },
            UIType::Crafts => CurrentUIView { crafts_offset: offset, ..self },
            UIType::Diplomacy => CurrentUIView { diplomacy_offset: offset, ..self },
            _ => self,
        }
    }

    /// Whether the shown screen has expired at the reading `now`: it has an
    /// expiry, and `now` is past it.
    pub open spec fn is_expired(self, now: u64) -> bool {
        self.expiration_time matches Some(expiry) && expiry < now
    }

    /// The state after a change to the screen `ui_type` at the reading
    /// `now`. The farewell expires three seconds later; no other screen
    /// expires. The screen that is entered is shown from its top.
    pub open spec fn change_ui_type(self, ui_type: UIType, now: u64) -> CurrentUIView {
        CurrentUIView {
            ui_type,
            expiration_time: if ui_type == UIType::Quit {
                Some((now + EXPIRY_NANOS) as nat)
            } else {
                None
            },
            ..self
        }.with_scroll_offset(0)
    }

    /// Whether the shown screen can be scrolled one step: upwards always,
    /// downwards unless the offset is the largest that the state can hold.
    pub open spec fn can_scroll(self, direction: ScrollingDirection) -> bool {
        direction == ScrollingDirection::Down && keeps_scroll_offset(self.ui_type)
            ==> self.scroll_offset() < u16::MAX
    }

    /// The state after one scrolling step: upwards the offset of the shown
    /// screen falls by one but not below 0, downwards it rises by one.
    pub open spec fn scroll(self, direction: ScrollingDirection) -> CurrentUIView
        recommends
            self.can_scroll(direction),
    {
        self.with_scroll_offset(
            match direction {
                ScrollingDirection::Up => if self.scroll_offset() > 0 {
                    (self.scroll_offset() - 1) as u16
                } else {
                    0
                },
                ScrollingDirection::Down => (self.scroll_offset() + 1) as u16,
            },
        )
    }

    /// The frame that the shown screen puts on the terminal: the welcome
    /// and the farewell over the whole terminal, nothing once the
    /// interface has terminated, and the menu with a main pane otherwise.
    pub open spec fn frame(self, game_state: GameStateView) -> FrameView {
        match self.ui_type {
            UIType::Start => (FullScreenMessage { ui_type: UIType::Start }).frame(game_state),
            UIType::Quit => (FullScreenMessage { ui_type: UIType::Quit }).frame(game_state),
            UIType::Main => MainMenu.frame(game_state),
            UIType::Villages => FrameView::TextPane {
                text: villages_text(game_state.kingdom.villages),
                scroll: self.villages_offset,
            },
            UIType::Crafts => FrameView::TextPane {
                text: crafts_text(game_state.kingdom.crafts),
                scroll: self.crafts_offset,
            },
            UIType::Diplomacy => FrameView::TextPane {
                text: "Not done yet"@,
                scroll: self.diplomacy_offset,
            },
            UIType::Terminated => FrameView::Blank,
        }
    }
}

/// The state after the changes of screen in `changes`, made in their order,
/// each at the reading that stands beside it.
pub open spec fn after_changes(state: CurrentUIView, changes: Seq<(UIType, u64)>) -> CurrentUIView
    decreases changes.len(),
{
    if changes.len() == 0 {
        state
    } else {
        after_changes(state, changes.drop_last()).change_ui_type(
            changes.last().0,
            changes.last().1,
        )
    }
}

/// A state that the interface can be in: only the welcome and the
/// farewell expire.
pub open spec fn expiry_fits_screen(state: CurrentUIView) -> bool {
    state.expiration_time is Some ==> state.ui_type == UIType::Start || state.ui_type
        == UIType::Quit
}

/// After any changes of screen, at least one, from any state, the screen
/// that was entered last is shown, and it is shown from its top, whatever
/// its scroll offset was before.
pub proof fn lemma_entered_screen_is_at_top(state: CurrentUIView, changes: Seq<(UIType, u64)>)
    requires
        changes.len() > 0,
    ensures
        after_changes(state, changes).ui_type == changes.last().0,
        after_changes(state, changes).scroll_offset() == 0,
{
}

/// A change of screen touches the offset of no screen but the one that is
/// entered.
pub proof fn lemma_change_keeps_other_offsets(state: CurrentUIView, ui_type: UIType, now: u64)
    ensures
        ui_type != UIType::Villages ==> state.change_ui_type(ui_type, now).villages_offset
            == state.villages_offset,
        ui_type != UIType::Crafts ==> state.change_ui_type(ui_type, now).crafts_offset
            == state.crafts_offset,
        ui_type != UIType::Diplomacy ==> state.change_ui_type(ui_type, now).diplomacy_offset
            == state.diplomacy_offset,
{
}

/// Scrolling up lowers the offset by one, and at 0 it changes nothing:
/// however often it is repeated there, the state stays as it is.
pub proof fn lemma_scroll_up_stays_at_floor(state: CurrentUIView)
    ensures
        state.scroll_offset() > 0 ==> state.scroll(ScrollingDirection::Up).scroll_offset()
            == state.scroll_offset() - 1,
        state.scroll_offset() == 0 ==> state.scroll(ScrollingDirection::Up) == state,
        state.scroll(ScrollingDirection::Up).scroll_offset() == 0 ==> state.scroll(
            ScrollingDirection::Up,
        ).scroll(ScrollingDirection::Up) == state.scroll(ScrollingDirection::Up),
{
}

/// Scrolling down raises the offset of a screen that keeps one by exactly
/// one, from every offset below the largest that the state can hold. The
/// screen, its expiry and the other screens' offsets stay.
pub proof fn lemma_scroll_down_adds_one(state: CurrentUIView)
    requires
        keeps_scroll_offset(state.ui_type),
        state.scroll_offset() < u16::MAX,
    ensures
        state.scroll(ScrollingDirection::Down).scroll_offset() == state.scroll_offset() + 1,
        state.scroll(ScrollingDirection::Down).ui_type == state.ui_type,
        state.scroll(ScrollingDirection::Down).expiration_time == state.expiration_time,
{
}

/// A screen that keeps no scroll offset is not changed by scrolling.
pub proof fn lemma_scroll_without_offset(state: CurrentUIView, direction: ScrollingDirection)
    requires
        !keeps_scroll_offset(state.ui_type),
    ensures
        state.scroll(direction) == state,
{
}

/// A change to the farewell sets an expiry three seconds after the
/// reading; a change to any other screen leaves none.
pub proof fn lemma_only_quit_expires(state: CurrentUIView, ui_type: UIType, now: u64)
    ensures
        ui_type == UIType::Quit ==> state.change_ui_type(ui_type, now).expiration_time == Some(
            (now + 3_000_000_000) as nat,
        ),
        ui_type != UIType::Quit ==> state.change_ui_type(ui_type, now).expiration_time is None,
        expiry_fits_screen(state.change_ui_type(ui_type, now)),
{
}

/// The state at the start can be reached, and scrolling leaves a state
/// among those that can be.
pub proof fn lemma_expiry_fits_screen_is_kept(state: CurrentUIView, direction: ScrollingDirection)
    ensures
        expiry_fits_screen(CurrentUIView::initial()),
        expiry_fits_screen(state) ==> expiry_fits_screen(state.scroll(direction)),
{
}

/// A screen with an expiry has not expired up to and at the expiry, and
/// has at every later reading; a screen without one never has.
pub proof fn lemma_expired_after_expiry(state: CurrentUIView, now: u64)
    ensures
        state.expiration_time is None ==> !state.is_expired(now),
        state.expiration_time matches Some(expiry) ==> (state.is_expired(now) <==> now > expiry),
{
}

/// The screen that is shown, the time at which it expires, and the
/// screens that keep a scroll offset.
pub struct CurrentUI {
    /// The screen that is shown.
    pub ui_type: UIType,
    /// The villages' screen.
    villages: VillageMenu,
    /// The crafts' screen.
    crafts: CraftMenu,
    /// The diplomacy screen.
    diplomacy: DiplomacyMenu,
    /// The reading of the clock after which the shown screen has expired.
    expiration_time: Option<u128>,
    /// The start of the clock that the expiry is measured by.
    clock: Instant,
}

impl View for CurrentUI {
    type V = CurrentUIView;

    closed spec fn view(&self) -> CurrentUIView {
        CurrentUIView {
            ui_type: self.ui_type,
            expiration_time: match self.expiration_time {
                Some(expiry) => Some(expiry as nat),
                None => None,
            },
            villages_offset: self.villages.scroll_offset(),
            crafts_offset: self.crafts.scroll_offset(),
            diplomacy_offset: self.diplomacy.scroll_offset(),
        }
    }
}

impl CurrentUI {
    /// Starts the clock and shows the welcome, which expires three seconds
    /// later.
    pub fn new() -> (ui: CurrentUI)
        ensures
            ui@ == CurrentUIView::initial(),
    {
        CurrentUI {
            ui_type: UIType::Start,
            villages: VillageMenu::new(),
            crafts: CraftMenu::new(),
            diplomacy: DiplomacyMenu::new(),
            expiration_time: Some(EXPIRY_NANOS as u128),
            clock: clock::present(),
        }
    }

    /// Reads the clock: the nanoseconds since the state was made.
    pub fn now(&self) -> (reading: u64) {
        clock::read(&self.clock)
    }

    /// The screen that is shown.
    pub fn get_ui_type(&self) -> (ui_type: UIType)
        ensures
            ui_type == self@.ui_type,
    {
        self.ui_type
    }

    /// The scroll offset of the shown screen; 0 where it keeps none.
    pub fn get_scroll_offset(&self) -> (offset: u16)
        ensures
            offset == self@.scroll_offset(),
    {
        match self.ui_type {
            UIType::Villages => self.villages.get_scroll_offset(),
            UIType::Crafts => self.crafts.get_scroll_offset(),
            UIType::Diplomacy => self.diplomacy.get_scroll_offset(),
            _ => 0,
        }
    }

    /// Whether the shown screen has expired at the reading `now`.
    pub fn is_expired_at(&self, now: u64) -> (expired: bool)
        ensures
            expired == self@.is_expired(now),
    {
        match self.expiration_time {
            None => false,
            Some(expiration_time) => expiration_time < now as u128,
        }
    }

    /// Whether the shown screen has expired by now. A screen without an
    /// expiry never has; for one with an expiry the clock decides.
    pub fn is_expired(&self) -> (expired: bool)
        ensures
            exists|now: u64| expired == self@.is_expired(now),
            self@.expiration_time is None ==> !expired,
    {
        let now = self.now();
        let expired = self.is_expired_at(now);
        assert(expired == self@.is_expired(now));
        expired
    }

    /// Shows the screen `ui_type` from the reading `now` on.
    pub fn change_ui_type_at(&mut self, ui_type: UIType, now: u64)
        ensures
            final(self)@ == old(self)@.change_ui_type(ui_type, now),
            final(self)@.ui_type == ui_type,
            final(self)@.scroll_offset() == 0,
            final(self)@.expiration_time is Some <==> ui_type == UIType::Quit,
    {
        self.ui_type = ui_type;
        if ui_type == UIType::Quit {
            self.expiration_time = Some(now as u128 + EXPIRY_NANOS as u128);
        } else {
            self.expiration_time = None;
        }
        self.reset_scroll_offset();
    }

    /// Shows the screen `ui_type` from now on. Only the farewell's expiry
    /// depends on the clock.
    pub fn change_ui_type(&mut self, ui_type: UIType)
        ensures
            exists|now: u64| final(self)@ == old(self)@.change_ui_type(ui_type, now),
            ui_type != UIType::Quit ==> final(self)@ == old(self)@.change_ui_type(ui_type, 0),
            final(self)@.ui_type == ui_type,
            final(self)@.scroll_offset() == 0,
            final(self)@.expiration_time is Some <==> ui_type == UIType::Quit,
    {
        let now = self.now();
        self.change_ui_type_at(ui_type, now);
        assert(self@ == old(self)@.change_ui_type(ui_type, now));
    }

    /// Whether `scroll` may be called with `direction`.
    pub fn can_scroll(&self, direction: ScrollingDirection) -> (possible: bool)
        ensures
            possible == self@.can_scroll(direction),
    {
        match direction {
            ScrollingDirection::Up => true,
            ScrollingDirection::Down => match self.ui_type {
                UIType::Villages | UIType::Crafts | UIType::Diplomacy => self.get_scroll_offset()
                    < u16::MAX,
                _ => true,
            },
        }
    }

    /// Scrolls the shown screen one step. Upwards the offset stays at 0
    /// once it is there; downwards it always rises by one. The other
    /// screens keep their offsets, and a screen that keeps none stays as
    /// it is.
    pub fn scroll(&mut self, direction: ScrollingDirection)
        requires
            old(self)@.can_scroll(direction),
        ensures
            final(self)@ == old(self)@.scroll(direction),
    {
        let mut scroll_offset = self.get_scroll_offset();
        match direction {
            ScrollingDirection::Up => {
                if scroll_offset > 0 {
                    scroll_offset -= 1
                }
            },
            ScrollingDirection::Down => {
                if self.keeps_offset() {
                    scroll_offset += 1
                }
            },
        }
        self.set_scroll_offset(scroll_offset);
    }

    /// What the shown screen puts on the terminal for `game_state`.
    pub fn render(&self, game_state: &GameState) -> (frame: Frame)
        ensures
            frame@ == self@.frame(game_state@),
    {
        match self.ui_type {
            UIType::Start => (FullScreenMessage { ui_type: UIType::Start }).render(game_state),
            UIType::Quit => (FullScreenMessage { ui_type: UIType::Quit }).render(game_state),
            UIType::Main => MainMenu.render(game_state),
            UIType::Villages => self.villages.render(game_state),
            UIType::Crafts => self.crafts.render(game_state),
            UIType::Diplomacy => self.diplomacy.render(game_state),
            UIType::Terminated => Frame::Blank,
        }
    }

    /// Whether the shown screen keeps a scroll offset.
    fn keeps_offset(&self) -> (keeps: bool)
        ensures
            keeps == keeps_scroll_offset(self@.ui_type),
    {
        match self.ui_type {
            UIType::Villages | UIType::Crafts | UIType::Diplomacy => true,
            _ => false,
        }
    }

    /// Sets the scroll offset of the shown screen.
    fn set_scroll_offset(&mut self, offset: u16)
        ensures
            final(self)@ == old(self)@.with_scroll_offset(offset),
    {
        match self.ui_type {
            UIType::Villages => self.villages.set_scroll_offset(offset),
            UIType::Crafts => self.crafts.set_scroll_offset(offset),
            UIType::Diplomacy => self.diplomacy.set_scroll_offset(offset),
            _ => {},
        }
    }

    /// Shows the screen from its top.
    fn reset_scroll_offset(&mut self)
        ensures
            final(self)@ == old(self)@.with_scroll_offset(0),
    {
        self.set_scroll_offset(0);
    }
}

} // verus!
