//! The user interface: the screens' state machine together with the table
//! that says what each event does to it.

use vstd::prelude::*;
use crate::game::GameState;
use crate::menu::current_ui::{expiry_fits_screen, CurrentUI, CurrentUIView};
use crate::menu::event_table::EventActionMap;
use crate::menu::events::{InputEvent, Key, KeyInput, KeyKind, UIEvent, UIEventBuilder};
use crate::menu::rendering::Frame;
use crate::menu::ui_foundations::{ActionType, ScrollingDirection, UIType};

verus! {

/// The event of pressing `key` with no modifier and no keyboard state.
pub open spec fn key_event(key: Key) -> UIEvent {
    UIEvent::Input(InputEvent::Key(KeyInput::spec_press(key)))
}

/// The table of the events that do something. The keys `v`, `c`, `d` and
/// `q` show the villages, the crafts, the diplomacy screen and the
/// farewell; the arrows scroll; the expiry of the welcome and of the
/// farewell is handled. No other event is in the table.
pub open spec fn default_bindings() -> Map<UIEvent, ActionType> {
    Map::<UIEvent, ActionType>::empty().insert(
        key_event(Key::Char('v')),
        ActionType::ChangeView(UIType::Villages),
    ).insert(key_event(Key::Char('c')), ActionType::ChangeView(UIType::Crafts)).insert(
        key_event(Key::Char('d')),
        ActionType::ChangeView(UIType::Diplomacy),
    ).insert(key_event(Key::Char('q')), ActionType::ChangeView(UIType::Quit)).insert(
        UIEvent::Timeout(UIType::Start),
        ActionType::HandleUITimeout(UIType::Start),
    ).insert(UIEvent::Timeout(UIType::Quit), ActionType::HandleUITimeout(UIType::Quit)).insert(
        key_event(Key::Down),
        ActionType::Scroll(ScrollingDirection::Down),
    ).insert(key_event(Key::Up), ActionType::Scroll(ScrollingDirection::Up))
}

/// The action of an event, if the table holds one.
pub open spec fn action_for(event: UIEvent) -> Option<ActionType> {
    default_bindings().get(event)
}

/// Whether `action` can be applied in `state`: every action can, but a
/// step down from the largest scroll offset that the state can hold.
pub open spec fn can_apply(state: CurrentUIView, action: ActionType) -> bool {
    action matches ActionType::Scroll(direction) ==> state.can_scroll(direction)
}

/// The state after `action` at the reading `now`.
///
/// A scrolling step scrolls the shown screen. A change of view shows the
/// named screen, or the main menu if the named screen is already shown.
/// The expiry of the welcome shows the main menu, that of the farewell
/// terminates the interface, and that of any other screen does nothing.
pub open spec fn apply_action(state: CurrentUIView, action: ActionType, now: u64) -> CurrentUIView {
    match action {
        ActionType::Scroll(direction) => state.scroll(direction),
        ActionType::ChangeView(ui_type) => if state.ui_type == ui_type {
            state.change_ui_type(UIType::Main, now)
        } else {
            state.change_ui_type(ui_type, now)
        },
        ActionType::HandleUITimeout(ui_type) => match ui_type {
            UIType::Start => state.change_ui_type(UIType::Main, now),
            UIType::Quit => state.change_ui_type(UIType::Terminated, now),
            _ => state,
        },
    }
}

/// Whether `event` can be processed in `state`: its action, if it has one,
/// can be applied.
pub open spec fn can_process(state: CurrentUIView, event: UIEvent) -> bool {
    action_for(event) matches Some(action) ==> can_apply(state, action)
}

/// The state after `event` at the reading `now`: the event's action is
/// applied, and an event without an action changes nothing.
pub open spec fn process_ui_event(state: CurrentUIView, event: UIEvent, now: u64) -> CurrentUIView {
    match action_for(event) {
        Some(action) => apply_action(state, action, now),
        None => state,
    }
}

/// The state after the check for expiry at the reading `now`: if the shown
/// screen has expired, the timeout of that screen is processed.
pub open spec fn update_terminal(state: CurrentUIView, now: u64) -> CurrentUIView {
    if state.is_expired(now) {
        process_ui_event(state, UIEvent::Timeout(state.ui_type), now)
    } else {
        state
    }
}

/// The table says this of each event, and nothing else: the four letters
/// change the view, the two arrows scroll, the two timeouts are handled,
/// and every other event has no action.
pub proof fn lemma_bindings()
    ensures
        action_for(key_event(Key::Char('v'))) == Some(ActionType::ChangeView(UIType::Villages)),
        action_for(key_event(Key::Char('c'))) == Some(ActionType::ChangeView(UIType::Crafts)),
        action_for(key_event(Key::Char('d'))) == Some(ActionType::ChangeView(UIType::Diplomacy)),
        action_for(key_event(Key::Char('q'))) == Some(ActionType::ChangeView(UIType::Quit)),
        action_for(key_event(Key::Down)) == Some(ActionType::Scroll(ScrollingDirection::Down)),
        action_for(key_event(Key::Up)) == Some(ActionType::Scroll(ScrollingDirection::Up)),
        action_for(UIEvent::Timeout(UIType::Start)) == Some(
            ActionType::HandleUITimeout(UIType::Start),
        ),
        action_for(UIEvent::Timeout(UIType::Quit)) == Some(
            ActionType::HandleUITimeout(UIType::Quit),
        ),
        forall|event: UIEvent|
            event != key_event(Key::Char('v')) && event != key_event(Key::Char('c')) && event
                != key_event(Key::Char('d')) && event != key_event(Key::Char('q')) && event
                != key_event(Key::Down) && event != key_event(Key::Up) && event != UIEvent::Timeout(
                UIType::Start,
            ) && event != UIEvent::Timeout(UIType::Quit) ==> #[trigger] action_for(event) is None,
{
}

/// A timeout never scrolls, so it can be processed in every state.
pub proof fn lemma_timeout_can_be_processed(state: CurrentUIView, ui_type: UIType)
    ensures
        can_process(state, UIEvent::Timeout(ui_type)),
{
    lemma_bindings();
}

/// An event that the table does not hold changes nothing.
pub proof fn lemma_unmapped_event_is_ignored(state: CurrentUIView, event: UIEvent, now: u64)
    requires
        action_for(event) is None,
    ensures
        can_process(state, event),
        process_ui_event(state, event, now) == state,
{
}

/// A change of view to the screen that is already shown leads to the main
/// menu, also where that screen is the main menu itself; a change of view
/// to any other screen leads to that screen. Either way the screen that
/// is entered is shown from its top.
pub proof fn lemma_change_view_toggles(state: CurrentUIView, ui_type: UIType, now: u64)
    ensures
        state.ui_type == ui_type ==> apply_action(state, ActionType::ChangeView(ui_type), now)
            == state.change_ui_type(UIType::Main, now),
        state.ui_type == ui_type ==> apply_action(
            state,
            ActionType::ChangeView(ui_type),
            now,
        ).ui_type == UIType::Main,
        state.ui_type != ui_type ==> apply_action(
            state,
            ActionType::ChangeView(ui_type),
            now,
        ).ui_type == ui_type,
        apply_action(state, ActionType::ChangeView(ui_type), now).scroll_offset() == 0,
{
}

/// The expiry of the welcome leads to the main menu and that of the
/// farewell to the terminal state, from every state; the expiry of any
/// other screen changes nothing.
pub proof fn lemma_timeout_actions(state: CurrentUIView, ui_type: UIType, now: u64)
    ensures
        apply_action(state, ActionType::HandleUITimeout(UIType::Start), now).ui_type
            == UIType::Main,
        apply_action(state, ActionType::HandleUITimeout(UIType::Quit), now).ui_type
            == UIType::Terminated,
        ui_type != UIType::Start && ui_type != UIType::Quit ==> apply_action(
            state,
            ActionType::HandleUITimeout(ui_type),
            now,
        ) == state,
{
}

/// A fresh interface shows the welcome up to and at three seconds on its
/// clock, and the main menu, without an expiry, once a check finds the
/// three seconds past.
pub proof fn lemma_welcome_gives_way_to_main(now: u64)
    ensures
        now <= 3_000_000_000 ==> update_terminal(CurrentUIView::initial(), now)
            == CurrentUIView::initial(),
        now > 3_000_000_000 ==> update_terminal(CurrentUIView::initial(), now).ui_type
            == UIType::Main,
        now > 3_000_000_000 ==> update_terminal(
            CurrentUIView::initial(),
            now,
        ).expiration_time is None,
{
    lemma_bindings();
}

/// From the main menu the key `v` shows the villages from their top, and
/// the key `v` once more shows the main menu again.
pub proof fn lemma_village_key_toggles(state: CurrentUIView, first: u64, second: u64)
    requires
        state.ui_type == UIType::Main,
    ensures
        process_ui_event(state, key_event(Key::Char('v')), first).ui_type == UIType::Villages,
        process_ui_event(state, key_event(Key::Char('v')), first).scroll_offset() == 0,
        process_ui_event(
            process_ui_event(state, key_event(Key::Char('v')), first),
            key_event(Key::Char('v')),
            second,
        ).ui_type == UIType::Main,
{
    lemma_bindings();
}

/// From every screen but the farewell itself, the key `q` shows the
/// farewell with an expiry three seconds after the key. A check up to and
/// at that expiry leaves the farewell; a later check terminates the
/// interface. On the farewell itself the key `q` shows the main menu.
pub proof fn lemma_quit_key_leads_to_termination(state: CurrentUIView, pressed: u64, checked: u64)
    ensures
        state.ui_type != UIType::Quit ==> ({
            let farewell = process_ui_event(state, key_event(Key::Char('q')), pressed);
            &&& farewell.ui_type == UIType::Quit
            &&& farewell.expiration_time == Some((pressed + 3_000_000_000) as nat)
            &&& checked <= pressed + 3_000_000_000 ==> update_terminal(farewell, checked)
                == farewell
            &&& checked > pressed + 3_000_000_000 ==> update_terminal(farewell, checked).ui_type
                == UIType::Terminated
        }),
        state.ui_type == UIType::Quit ==> process_ui_event(
            state,
            key_event(Key::Char('q')),
            pressed,
        ).ui_type == UIType::Main,
{
    lemma_bindings();
}

/// Whatever is processed, only the welcome and the farewell ever have an
/// expiry.
pub proof fn lemma_processing_keeps_expiry_fitting(state: CurrentUIView, event: UIEvent, now: u64)
    requires
        expiry_fits_screen(state),
    ensures
        expiry_fits_screen(process_ui_event(state, event, now)),
        expiry_fits_screen(update_terminal(state, now)),
{
}

/// The table, built once and never changed.
struct ActionTable {
    /// The entries: always those of `default_bindings`.
    map: EventActionMap,
}

impl ActionTable {
    #[verifier::type_invariant]
    spec fn holds_default_bindings(&self) -> bool {
        self.map@ == default_bindings()
    }

    /// The action of `event`, if the table holds one.
    fn get(&self, event: &UIEvent) -> (action: Option<ActionType>)
        ensures
            action == action_for(*event),
    {
        proof {
            use_type_invariant(self);
        }
        match self.map.get(event) {
            Some(found) => Some(*found),
            None => None,
        }
    }
}

/// The user interface: the screens' state and the table of events.
pub struct UserInterface {
    /// The screen that is shown, its expiry and the scroll offsets.
    cur_ui: CurrentUI,
    /// What each event does.
    event_to_action_type: ActionTable,
}

impl View for UserInterface {
    type V = CurrentUIView;

    closed spec fn view(&self) -> CurrentUIView {
        self.cur_ui@
    }
}

impl UserInterface {
    /// A user interface that shows the welcome, with the table of events
    /// filled.
    pub fn new() -> (ui: UserInterface)
        ensures
            ui@ == CurrentUIView::initial(),
    {
        UserInterface {
            cur_ui: CurrentUI::new(),
            event_to_action_type: {
                let village_menu_event = UIEventBuilder::new().input_key_event(
                    InputEvent::Key(
                        KeyInput {
                            key: Key::Char('v'),
                            modifiers: 0,
                            kind: KeyKind::Press,
                            state: 0,
                        },
                    ),
                ).build().unwrap();

                let craft_menu_event = UIEventBuilder::new().input_key_event(
                    InputEvent::Key(
                        KeyInput {
                            key: Key::Char('c'),
                            modifiers: 0,
                            kind: KeyKind::Press,
                            state: 0,
                        },
                    ),
                ).build().unwrap();

                let diplomacy_menu_event = UIEventBuilder::new().input_key_event(
                    InputEvent::Key(
                        KeyInput {
                            key: Key::Char('d'),
                            modifiers: 0,
                            kind: KeyKind::Press,
                            state: 0,
                        },
                    ),
                ).build().unwrap();

                let quit_event = UIEventBuilder::new().input_key_event(
                    InputEvent::Key(
                        KeyInput {
                            key: Key::Char('q'),
                            modifiers: 0,
                            kind: KeyKind::Press,
                            state: 0,
                        },
                    ),
                ).build().unwrap();

                let timeout_start = UIEventBuilder::new().timeout_ui(UIType::Start).build().unwrap();

                let timeout_quit = UIEventBuilder::new().timeout_ui(UIType::Quit).build().unwrap();

                let scroll_down = UIEventBuilder::new().input_key_event(
                    InputEvent::Key(
                        KeyInput { key: Key::Down, modifiers: 0, kind: KeyKind::Press, state: 0 },
                    ),
                ).build().unwrap();

                let scroll_up = UIEventBuilder::new().input_key_event(
                    InputEvent::Key(
                        KeyInput { key: Key::Up, modifiers: 0, kind: KeyKind::Press, state: 0 },
                    ),
                ).build().unwrap();

                let mut event_to_action_type = EventActionMap::new();
                event_to_action_type.insert(
                    village_menu_event,
                    ActionType::ChangeView(UIType::Villages),
                );
                event_to_action_type.insert(craft_menu_event, ActionType::ChangeView(UIType::Crafts));
                event_to_action_type.insert(
                    diplomacy_menu_event,
                    ActionType::ChangeView(UIType::Diplomacy),
                );
                event_to_action_type.insert(quit_event, ActionType::ChangeView(UIType::Quit));
                event_to_action_type.insert(
                    timeout_start,
                    ActionType::HandleUITimeout(UIType::Start),
                );
                event_to_action_type.insert(timeout_quit, ActionType::HandleUITimeout(UIType::Quit));
                event_to_action_type.insert(
                    scroll_down,
                    ActionType::Scroll(ScrollingDirection::Down),
                );
                event_to_action_type.insert(scroll_up, ActionType::Scroll(ScrollingDirection::Up));

                ActionTable { map: event_to_action_type }
            },
        }
    }

    /// The action of `event`, if the table holds one.
    pub fn get_action_for_event(&self, event: &UIEvent) -> (action: Option<ActionType>)
        ensures
            action == action_for(*event),
    {
        self.event_to_action_type.get(event)
    }

    /// Whether the shown screen has expired by now.
    fn is_current_ui_type_expired(&self) -> (expired: bool)
        ensures
            exists|now: u64| expired == self@.is_expired(now),
            self@.expiration_time is None ==> !expired,
    {
        self.cur_ui.is_expired()
    }

    /// The screen that is shown.
    pub fn get_current_uitype(&self) -> (ui_type: UIType)
        ensures
            ui_type == self@.ui_type,
    {
        self.cur_ui.get_ui_type()
    }

    /// The scroll offset of the shown screen; 0 where it keeps none.
    pub fn get_scroll_offset(&self) -> (offset: u16)
        ensures
            offset == self@.scroll_offset(),
    {
        self.cur_ui.get_scroll_offset()
    }

    /// Reads the interface's clock: the nanoseconds since it was made.
    pub fn now(&self) -> (reading: u64) {
        self.cur_ui.now()
    }

    /// Checks at the reading `now` whether the shown screen has expired,
    /// and if so processes its timeout.
    pub fn update_terminal_at(&mut self, now: u64)
        ensures
            final(self)@ == update_terminal(old(self)@, now),
    {
        if self.cur_ui.is_expired_at(now) {
            let timeout_event = UIEventBuilder::new().timeout_ui(
                self.get_current_uitype(),
            ).build().unwrap();
            proof {
                lemma_timeout_can_be_processed(self@, self@.ui_type);
            }
            self.process_ui_event_at(&timeout_event, now);
        }
    }

    /// Checks whether the shown screen has expired by now, and if so
    /// processes its timeout. A screen without an expiry stays.
    pub fn update_terminal(&mut self)
        ensures
            exists|now: u64| final(self)@ == update_terminal(old(self)@, now),
            old(self)@.expiration_time is None ==> final(self)@ == old(self)@,
    {
        let now = self.now();
        self.update_terminal_at(now);
        assert(self@ == update_terminal(old(self)@, now));
    }

    /// What the shown screen puts on the terminal for `game_state`.
    pub fn render_terminal(&self, game_state: &GameState) -> (frame: Frame)
        ensures
            frame@ == self@.frame(game_state@),
    {
        self.cur_ui.render(game_state)
    }

    /// Whether `process_ui_event` may be called with `event`.
    pub fn can_process(&self, event: &UIEvent) -> (possible: bool)
        ensures
            possible == can_process(self@, *event),
    {
        match self.get_action_for_event(event) {
            Some(ActionType::Scroll(direction)) => self.cur_ui.can_scroll(direction),
            _ => true,
        }
    }

    /// Applies `action` at the reading `now`.
    pub fn apply_action_at(&mut self, action: ActionType, now: u64)
        requires
            can_apply(old(self)@, action),
        ensures
            final(self)@ == apply_action(old(self)@, action, now),
    {
        match action {
            ActionType::Scroll(scroll_direction) => {
                self.cur_ui.scroll(scroll_direction);
            },
            ActionType::ChangeView(ui_type) => {
                if self.get_current_uitype() == ui_type {
                    self.cur_ui.change_ui_type_at(UIType::Main, now)
                } else {
                    self.cur_ui.change_ui_type_at(ui_type, now);
                }
            },
            ActionType::HandleUITimeout(ui_type) => {
                match ui_type {
                    UIType::Start => { self.cur_ui.change_ui_type_at(UIType::Main, now) },
                    UIType::Quit => { self.cur_ui.change_ui_type_at(UIType::Terminated, now) },
                    _ => {},
                }
            },
        }
    }

    /// Processes `event` at the reading `now`: applies its action, or does
    /// nothing if the table holds none for it.
    pub fn process_ui_event_at(&mut self, event: &UIEvent, now: u64)
        requires
            can_process(old(self)@, *event),
        ensures
            final(self)@ == process_ui_event(old(self)@, *event, now),
    {
        if let Some(action_for_event) = self.get_action_for_event(event) {
            self.apply_action_at(action_for_event, now);
        }
    }

    /// Processes `event` now: applies its action, or does nothing if the
    /// table holds none for it. Only a change to the farewell depends on
    /// the clock.
    pub fn process_ui_event(&mut self, event: &UIEvent)
        requires
            can_process(old(self)@, *event),
        ensures
            exists|now: u64| final(self)@ == process_ui_event(old(self)@, *event, now),
            final(self)@.ui_type == process_ui_event(old(self)@, *event, 0).ui_type,
            final(self)@.ui_type != UIType::Quit ==> final(self)@ == process_ui_event(
                old(self)@,
                *event,
                0,
            ),
    {
        let now = self.now();
        self.process_ui_event_at(event, now);
        assert(self@ == process_ui_event(old(self)@, *event, now));
    }
}

} // verus!
