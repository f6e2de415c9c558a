//! Railan: the rules of a terminal kingdom game.
//!
//! The crate holds the kingdom's data model, the state machine that decides
//! which screen the terminal shows, the table that maps key presses and
//! timeouts to actions, and the decisions of the three activities that run
//! side by side: the ticker, the input listener and the interaction loop.

pub mod data;
pub mod game;
pub mod menu;
pub mod threadcom;
