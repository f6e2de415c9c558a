//! The ticker: once a second the first village grows by one citizen.

use vstd::prelude::*;
use crate::data::kingdom::KingdomView;
use crate::game::GameState;
use crate::threadcom::{check_for_quit, tells_to_stop, Activity};

verus! {

/// The seconds that the ticker sleeps before each turn.
pub const TICK_SECS: u64 = 1;

/// By how many citizens the first village grows in one turn.
pub const CITIZENS_PER_TICK: i32 = 1;

/// The kingdom after `ticks` turns of the ticker.
pub open spec fn after_ticks(kingdom: KingdomView, ticks: nat) -> KingdomView
    decreases ticks,
{
    if ticks == 0 {
        kingdom
    } else {
        after_ticks(kingdom, (ticks - 1) as nat).add_citizen(1)
    }
}

/// After any number of turns the first village has grown by exactly that
/// number of citizens: no turn is lost and none counts twice. Nothing else
/// in the kingdom has changed.
pub proof fn lemma_ticks_add_up(kingdom: KingdomView, ticks: nat)
    requires
        kingdom.villages.len() > 0,
    ensures
        after_ticks(kingdom, ticks).villages.len() == kingdom.villages.len(),
        after_ticks(kingdom, ticks).default_citizens() == kingdom.default_citizens() + ticks,
        after_ticks(kingdom, ticks) == kingdom.add_citizen(ticks as int),
    decreases ticks,
{
    if ticks > 0 {
        lemma_ticks_add_up(kingdom, (ticks - 1) as nat);
        let before = after_ticks(kingdom, (ticks - 1) as nat);
        assert(before.add_citizen(1).villages =~= kingdom.add_citizen(ticks as int).villages);
    } else {
        assert(kingdom.add_citizen(0).villages =~= kingdom.villages);
    }
}

/// One turn of the ticker, after its sleep. `message` is what the ticker
/// found on the channel of the stop tokens, if anything.
///
/// On the stop token the ticker stops and leaves the game as it is. On
/// anything else, or nothing, the first village grows by one citizen and
/// the ticker goes on.
pub fn game_loop(game_state: &mut GameState, message: Option<String>) -> (activity: Activity)
    requires
        !tells_to_stop(message) ==> old(game_state)@.kingdom.villages.len() > 0 && old(
            game_state,
        )@.kingdom.default_citizens() < i32::MAX,
    ensures
        tells_to_stop(message) ==> activity == Activity::Stopped && *final(game_state) == *old(
            game_state,
        ),
        !tells_to_stop(message) ==> activity == Activity::Running && final(game_state)@.kingdom
            == old(game_state)@.kingdom.add_citizen(1),
{
    match check_for_quit(&message) {
        Activity::Stopped => Activity::Stopped,
        Activity::Running => {
            game_state.kingdom.add_citizen(CITIZENS_PER_TICK);
            Activity::Running
        },
    }
}

} // verus!
