//! The small closed vocabularies that the menu is built from.

use vstd::prelude::*;

verus! {

/// The screens that the terminal can show.
#[derive(Debug, Eq, PartialEq, Structural, Copy, Clone, Hash)]
pub enum UIType {
    /// The welcome message, shown at startup.
    Start,
    /// The main menu.
    Main,
    /// The list of villages.
    Villages,
    /// The list of crafts.
    Crafts,
    /// The diplomacy screen.
    Diplomacy,
    /// The farewell message.
    Quit,
    /// The terminal state: nothing is shown and the interaction loop ends.
    Terminated,
}

/// The direction of one scrolling step.
#[derive(Copy, Clone, Debug, Eq, PartialEq, Structural, Hash)]
pub enum ScrollingDirection {
    /// Towards the top.
    Up,
    /// Towards the bottom.
    Down,
}

/// What an event makes the user interface do.
#[derive(Copy, Clone, Debug, Eq, PartialEq, Structural, Hash)]
pub enum ActionType {
    /// Show the given screen, or the main menu if that screen is already shown.
    ChangeView(UIType),
    /// React to the expiry of the given screen.
    HandleUITimeout(UIType),
    /// Scroll the shown screen one step.
    Scroll(ScrollingDirection),
}

/// The errors of the user interface.
#[derive(Hash, Debug, Clone, Copy, PartialEq, Eq)]
pub enum UIError {
    /// An event was put together that is not exactly one of a key input and
    /// a timeout. The text says which of the two ways it went wrong.
    MisconfiguredUIEvent(&'static str),
}

} // verus!
