//! Command handlers' decision logic: for each command, what the bot does
//! given the message and the answers of the services it consults.

pub mod common;
pub mod media;
pub mod ban;
pub mod mute;
pub mod warn;
pub mod admin;
pub mod filters;
pub mod help;
pub mod afk;
pub mod antiflood;
pub mod approval;
pub mod greeting;
pub mod welcome;
pub mod bye;
pub mod notes;
pub mod purge;
pub mod pin;
pub mod rules;
pub mod settings;
pub mod start;
pub mod ping;

use vstd::prelude::*;
use crate::text::{chars_of, opt_str, starts_with, starts_with_vec};

verus! {

/// The handler a callback query goes to.
#[derive(Debug, Clone, Copy, PartialEq, Eq, Structural)]
pub enum CallbackRoute {
    /// Data `warn_remove:...`: removing a warning.
    Warn,
    /// Anything else: the help pages.
    Help,
}

/// Build the callback query routing: warning removals, else help.
pub fn callback_route(data: Option<&str>) -> (r: CallbackRoute)
    ensures
        r == if opt_str(data) matches Some(d) && starts_with(d, "warn_remove:"@) {
            CallbackRoute::Warn
        } else {
            CallbackRoute::Help
        },
{
    match data {
        Some(d) => if starts_with_vec(&chars_of(d), &chars_of("warn_remove:")) {
            CallbackRoute::Warn
        } else {
            CallbackRoute::Help
        },
        None => CallbackRoute::Help,
    }
}

} // verus!
