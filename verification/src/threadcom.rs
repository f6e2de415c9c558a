//! How the three activities talk to each other: the sizes of the two
//! channels, and the token that tells an activity to stop.
//!
//! The interaction loop is the only sender of stop tokens. It sends one for
//! each of the two other activities, the ticker and the input listener,
//! and the channel of the tokens has room for exactly those two. The
//! channel of the input events has room for one event, so that the
//! listener waits until the interaction loop has taken the last one.

use vstd::prelude::*;
use vstd::string::StringExecFns;

verus! {

/// How many activities run beside the interaction loop and wait for a stop
/// token: the ticker and the input listener.
pub const BACKGROUND_ACTIVITIES: usize = 2;

/// How many stop tokens the channel of the tokens can hold.
pub const QUIT_CHANNEL_CAPACITY: usize = 2;

/// How many input events the channel of the events can hold.
pub const EVENT_CHANNEL_CAPACITY: usize = 1;

/// Whether an activity goes on or has stopped.
#[derive(Debug, Copy, Clone, PartialEq, Eq, Structural, Hash)]
pub enum Activity {
    /// The activity goes on with its next turn.
    Running,
    /// The activity has taken a stop token and ends.
    Stopped,
}

/// The text of the stop token.
pub open spec fn quit_token_text() -> Seq<char> {
    "quit"@
}

/// Whether what an activity found on the channel of the tokens tells it to
/// stop: there was a message, and it is the stop token.
pub open spec fn tells_to_stop(message: Option<String>) -> bool {
    message matches Some(text) && text@ == quit_token_text()
}

/// A stop token, to be sent to one activity.
pub fn quit_token() -> (token: String)
    ensures
        token@ == quit_token_text(),
        tells_to_stop(Some(token)),
{
    String::from_str("quit")
}

/// Whether `message` is the stop token.
pub fn is_quit_token(message: &str) -> (is_token: bool)
    ensures
        is_token == (message@ == quit_token_text()),
{
    String::from_str(message) == String::from_str("quit")
}

/// What an activity does with what it found on the channel of the tokens:
/// it stops on the stop token, and goes on if the channel was empty or held
/// anything else.
pub fn check_for_quit(message: &Option<String>) -> (activity: Activity)
    ensures
        activity == (if tells_to_stop(*message) {
            Activity::Stopped
        } else {
            Activity::Running
        }),
{
    match message {
        Some(text) => {
            if is_quit_token(text.as_str()) {
                Activity::Stopped
            } else {
                Activity::Running
            }
        },
        None => Activity::Running,
    }
}

/// The channel of the tokens has room for one token for each activity that
/// waits for one, so the interaction loop never has to wait when it sends
/// them.
pub proof fn lemma_room_for_every_token()
    ensures
        BACKGROUND_ACTIVITIES <= QUIT_CHANNEL_CAPACITY,
{
}

} // verus!
