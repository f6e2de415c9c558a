//! The input listener: it waits for inputs of the terminal and hands them
//! on, until it is told to stop.

use vstd::prelude::*;
use crate::threadcom::{check_for_quit, tells_to_stop, Activity};

verus! {

/// For how many milliseconds the listener waits for an input in one turn.
pub const POLL_MILLIS: u64 = 100;

/// What the listener does in a turn.
#[derive(Debug, Copy, Clone, PartialEq, Eq, Structural, Hash)]
pub enum ListenerStep {
    /// The listener ends.
    Stop,
    /// The listener waits up to `millis` milliseconds for an input. If one
    /// comes, it reads it and puts it on the channel of the events.
    Poll { millis: u64 },
}

/// The start of a turn of the listener. `message` is what the listener
/// found on the channel of the stop tokens, if anything.
///
/// On the stop token the listener ends. On anything else, or nothing, it
/// waits a tenth of a second for an input.
pub fn listen_for_input_events(message: Option<String>) -> (step: ListenerStep)
    ensures
        step == (if tells_to_stop(message) {
            ListenerStep::Stop
        } else {
            ListenerStep::Poll { millis: 100 }
        }),
{
    match check_for_quit(&message) {
        Activity::Stopped => ListenerStep::Stop,
        Activity::Running => ListenerStep::Poll { millis: POLL_MILLIS },
    }
}

} // verus!
