//! Input events as plain values, and the events that the user interface
//! acts on.

use vstd::prelude::*;
use crate::menu::ui_foundations::{UIError, UIType};

verus! {

/// The keys that the user interface tells apart. Every other key is `Other`.
#[derive(Debug, Eq, PartialEq, Structural, Copy, Clone, Hash)]
pub enum Key {
    /// A character key.
    Char(char),
    /// The arrow that points up.
    Up,
    /// The arrow that points down.
    Down,
    /// Any other key.
    Other,
}

/// How a key was used.
#[derive(Debug, Eq, PartialEq, Structural, Copy, Clone, Hash)]
pub enum KeyKind {
    /// The key went down.
    Press,
    /// The key is held down.
    Repeat,
    /// The key went up.
    Release,
}

/// One key event of the terminal: the key, the modifier keys held with it
/// as a bit set, the kind of use, and the keyboard state as a bit set.
#[derive(Debug, Eq, PartialEq, Structural, Copy, Clone, Hash)]
pub struct KeyInput {
    /// The key itself.
    pub key: Key,
    /// The modifier keys held down, one bit each; 0 for none.
    pub modifiers: u8,
    /// Press, repeat or release.
    pub kind: KeyKind,
    /// The keyboard state, one bit each; 0 for none.
    pub state: u8,
}

impl KeyInput {
    /// The press of `key` with no modifier and no keyboard state.
    pub open spec fn spec_press(key: Key) -> KeyInput {
        KeyInput { key, modifiers: 0, kind: KeyKind::Press, state: 0 }
    }

    /// The press of `key` with no modifier and no keyboard state.
    #[verifier::when_used_as_spec(spec_press)]
    pub fn press(key: Key) -> (input: KeyInput)
        ensures
            input == Self::spec_press(key),
    {
        KeyInput { key, modifiers: 0, kind: KeyKind::Press, state: 0 }
    }
}

/// What the terminal reports: a key event, or something else (the mouse, a
/// resize, a change of focus), which the user interface never acts on.
#[derive(Debug, Eq, PartialEq, Structural, Copy, Clone, Hash)]
pub enum InputEvent {
    /// A key event.
    Key(KeyInput),
    /// Any other event of the terminal.
    Other,
}

/// An event that the user interface acts on: an input of the terminal, or
/// the expiry of a screen. It is always exactly one of the two.
#[derive(Debug, Eq, PartialEq, Structural, Copy, Clone, Hash)]
pub enum UIEvent {
    /// The terminal reported an input.
    Input(InputEvent),
    /// The named screen has been shown for as long as it may be.
    Timeout(UIType),
}

/// The error text of an event that is both an input and a timeout.
pub open spec fn both_set_text() -> Seq<char> {
    "Cannot be both, a timeout-event and an input key event."@
}

/// The error text of an event that is neither an input nor a timeout.
pub open spec fn none_set_text() -> Seq<char> {
    "Must be either a timeout-event or an input key event."@
}

/// Puts a `UIEvent` together from its parts, and refuses to build one that
/// is not exactly one of an input and a timeout.
pub struct UIEventBuilder {
    /// The input, if one was given.
    input_key_event: Option<InputEvent>,
    /// The expired screen, if one was given.
    timeout_ui: Option<UIType>,
}

impl UIEventBuilder {
    /// The input that the builder holds.
    pub closed spec fn input(&self) -> Option<InputEvent> {
        self.input_key_event
    }

    /// The expired screen that the builder holds.
    pub closed spec fn timeout(&self) -> Option<UIType> {
        self.timeout_ui
    }

    /// A builder that holds neither an input nor a timeout.
    pub fn new() -> (builder: UIEventBuilder)
        ensures
            builder.input() is None,
            builder.timeout() is None,
    {
        UIEventBuilder { input_key_event: None, timeout_ui: None }
    }

    /// Makes the event an input event. A timeout given before is dropped.
    pub fn input_key_event(&mut self, event: InputEvent) -> (builder: &mut UIEventBuilder)
        ensures
            builder.input() == Some(event),
            builder.timeout() is None,
            *final(self) == *final(builder),
    {
        self.input_key_event = Some(event);
        self.timeout_ui = None;
        self
    }

    /// Makes the event a timeout of the screen `ui_type`. An input given
    /// before stays, and `build` will then refuse.
    pub fn timeout_ui(&mut self, ui_type: UIType) -> (builder: &mut UIEventBuilder)
        ensures
            builder.input() == old(self).input(),
            builder.timeout() == Some(ui_type),
            *final(self) == *final(builder),
    {
        self.timeout_ui = Some(ui_type);
        self
    }

    /// Builds the event. It succeeds exactly when the builder holds one of
    /// an input and a timeout; with both or with neither it returns
    /// `MisconfiguredUIEvent` with the text that says which. The builder
    /// keeps what it holds.
    pub fn build(&mut self) -> (result: Result<UIEvent, UIError>)
        ensures
            *final(self) == *old(self),
            result is Ok <==> (old(self).input() is Some) != (old(self).timeout() is Some),
            old(self).input() is Some && old(self).timeout() is None ==> result == Ok::<
                UIEvent,
                UIError,
            >(UIEvent::Input(old(self).input()->0)),
            old(self).input() is None && old(self).timeout() is Some ==> result == Ok::<
                UIEvent,
                UIError,
            >(UIEvent::Timeout(old(self).timeout()->0)),
            old(self).input() is Some && old(self).timeout() is Some ==> (
            result matches Err(UIError::MisconfiguredUIEvent(message)) && message@
                == both_set_text()),
            old(self).input() is None && old(self).timeout() is None ==> (
            result matches Err(UIError::MisconfiguredUIEvent(message)) && message@
                == none_set_text()),
    {
        match (self.input_key_event, self.timeout_ui) {
            (Some(event), None) => Ok(UIEvent::Input(event)),
            (None, Some(ui_type)) => Ok(UIEvent::Timeout(ui_type)),
            (Some(_), Some(_)) => Err(
                UIError::MisconfiguredUIEvent(
                    "Cannot be both, a timeout-event and an input key event.",
                ),
            ),
            (None, None) => Err(
                UIError::MisconfiguredUIEvent(
                    "Must be either a timeout-event or an input key event.",
                ),
            ),
        }
    }
}

} // verus!
