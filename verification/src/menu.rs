//! The terminal menu: screens, events and the interaction loop.
//!
//! The interaction loop runs in turns. Each turn begins with
//! `render_terminal`: it checks for expiry, says what is to be drawn, and
//! says whether the loop then waits for an input or shuts the game down.
//! An input that arrives within the wait is handed to `receive_input`.

use vstd::prelude::*;
use crate::game::GameState;
use crate::menu::current_ui::CurrentUIView;
use crate::menu::events::{InputEvent, Key, UIEvent, UIEventBuilder};
use crate::menu::rendering::Frame;
use crate::menu::ui_foundations::UIType;
use crate::menu::user_interface::{
    can_process, key_event, lemma_quit_key_leads_to_termination, process_ui_event, update_terminal,
    UserInterface,
};
use crate::threadcom::{BACKGROUND_ACTIVITIES, QUIT_CHANNEL_CAPACITY};

pub mod assets;
pub mod clock;
pub mod current_ui;
pub mod event_listener;
pub mod event_table;
pub mod events;
pub mod rendering;
pub mod ui_foundations;
pub mod user_interface;

verus! {

/// For how many milliseconds the interaction loop waits for an input in
/// one turn.
pub const EVENT_WAIT_MILLIS: u64 = 200;

/// How many stop tokens the interaction loop sends when it ends: one for
/// the ticker and one for the input listener.
pub const STOP_TOKENS: usize = 2;

/// What the interaction loop does after it has drawn a frame.
#[derive(Debug, Copy, Clone, PartialEq, Eq, Structural, Hash)]
pub enum NextStep {
    /// The loop waits up to `millis` milliseconds for an input, hands it
    /// to `receive_input` if one comes, and begins its next turn.
    AwaitInput { millis: u64 },
    /// The loop sends `tokens` stop tokens and ends.
    ShutDown { tokens: usize },
}

/// What follows the drawing in a state: the game is shut down with two
/// stop tokens once the interface has terminated, and the loop waits a
/// fifth of a second for an input otherwise.
pub open spec fn next_step(state: CurrentUIView) -> NextStep {
    if state.ui_type == UIType::Terminated {
        NextStep::ShutDown { tokens: 2 }
    } else {
        NextStep::AwaitInput { millis: 200 }
    }
}

/// What follows the drawing in the interface's present state.
pub fn after_render(ui: &UserInterface) -> (step: NextStep)
    ensures
        step == next_step(ui@),
{
    if ui.get_current_uitype() == UIType::Terminated {
        NextStep::ShutDown { tokens: STOP_TOKENS }
    } else {
        NextStep::AwaitInput { millis: EVENT_WAIT_MILLIS }
    }
}

/// The first half of a turn of the interaction loop, at the reading `now`
/// of the interface's clock: the shown screen gives way if it has
/// expired; then the frame of the screen that is shown is made up from
/// `game_state`, and the step that follows the drawing is decided.
pub fn render_terminal_at(ui: &mut UserInterface, game_state: &GameState, now: u64) -> (turn: (
    Frame,
    NextStep,
))
    ensures
        final(ui)@ == update_terminal(old(ui)@, now),
        turn.0@ == final(ui)@.frame(game_state@),
        turn.1 == next_step(final(ui)@),
{
    ui.update_terminal_at(now);
    let frame = ui.render_terminal(game_state);
    let step = after_render(ui);
    (frame, step)
}

/// The first half of a turn of the interaction loop, by the interface's
/// own clock. A screen without an expiry stays whatever the clock says.
pub fn render_terminal(ui: &mut UserInterface, game_state: &GameState) -> (turn: (Frame, NextStep))
    ensures
        exists|now: u64| final(ui)@ == update_terminal(old(ui)@, now),
        old(ui)@.expiration_time is None ==> final(ui)@ == old(ui)@,
        turn.0@ == final(ui)@.frame(game_state@),
        turn.1 == next_step(final(ui)@),
{
    let now = ui.now();
    let turn = render_terminal_at(ui, game_state, now);
    assert(ui@ == update_terminal(old(ui)@, now));
    turn
}

/// Whether `receive_input` may be called with `event`.
pub fn can_receive(ui: &UserInterface, event: InputEvent) -> (possible: bool)
    ensures
        possible == can_process(ui@, UIEvent::Input(event)),
{
    ui.can_process(&UIEvent::Input(event))
}

/// The second half of a turn of the interaction loop, at the reading
/// `now`: the input that arrived is made an event of the user interface
/// and processed.
pub fn receive_input_at(ui: &mut UserInterface, event: InputEvent, now: u64)
    requires
        can_process(old(ui)@, UIEvent::Input(event)),
    ensures
        final(ui)@ == process_ui_event(old(ui)@, UIEvent::Input(event), now),
{
    let event = UIEventBuilder::new().input_key_event(event).build();
    match event {
        Ok(event) => ui.process_ui_event_at(&event, now),
        Err(_) => {},
    }
}

/// The second half of a turn of the interaction loop, by the interface's
/// own clock.
pub fn receive_input(ui: &mut UserInterface, event: InputEvent)
    requires
        can_process(old(ui)@, UIEvent::Input(event)),
    ensures
        exists|now: u64| final(ui)@ == process_ui_event(old(ui)@, UIEvent::Input(event), now),
        final(ui)@.ui_type == process_ui_event(old(ui)@, UIEvent::Input(event), 0).ui_type,
        final(ui)@.ui_type != UIType::Quit ==> final(ui)@ == process_ui_event(
            old(ui)@,
            UIEvent::Input(event),
            0,
        ),
{
    let now = ui.now();
    receive_input_at(ui, event, now);
    assert(ui@ == process_ui_event(old(ui)@, UIEvent::Input(event), now));
}

/// The loop sends as many stop tokens as activities wait for one, and the
/// channel of the tokens has room for all of them.
pub proof fn lemma_one_token_for_each_activity()
    ensures
        STOP_TOKENS == BACKGROUND_ACTIVITIES,
        STOP_TOKENS <= QUIT_CHANNEL_CAPACITY,
{
}

/// The key `q`, on any screen but the farewell itself, ends the loop: the
/// first turn that begins more than three seconds after the key finds the
/// farewell expired, draws nothing more, and shuts the game down with two
/// stop tokens. A turn that begins earlier goes on waiting for inputs.
pub proof fn lemma_quit_key_ends_the_loop(state: CurrentUIView, pressed: u64, checked: u64)
    requires
        state.ui_type != UIType::Quit,
    ensures
        checked > pressed + 3_000_000_000 ==> next_step(
            update_terminal(process_ui_event(state, key_event(Key::Char('q')), pressed), checked),
        ) == (NextStep::ShutDown { tokens: 2 }),
        checked <= pressed + 3_000_000_000 ==> next_step(
            update_terminal(process_ui_event(state, key_event(Key::Char('q')), pressed), checked),
        ) == (NextStep::AwaitInput { millis: 200 }),
{
    lemma_quit_key_leads_to_termination(state, pressed, checked);
}

/// The loop ends exactly when the interface has terminated, and then with
/// two stop tokens: in every other state it waits for the next input.
pub proof fn lemma_shutdown_only_when_terminated(state: CurrentUIView)
    ensures
        state.ui_type == UIType::Terminated <==> next_step(state) == (NextStep::ShutDown {
            tokens: 2,
        }),
        state.ui_type != UIType::Terminated <==> next_step(state) == (NextStep::AwaitInput {
            millis: 200,
        }),
{
}

} // verus!
