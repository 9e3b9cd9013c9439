//! /start command plugin.
//!
//! The greeting of /start, and where a start link leads.

use vstd::prelude::*;
use crate::markup::{ActionModel, ButtonAction, Keyboard, KeyboardButton, TextModelRows, single_button_keyboard};
use crate::plugins::common::{Text, TextModel, key_text};
use crate::text::{chars_of, is_text, slice_vec, starts_with, starts_with_vec, string_of};

verus! {

/// The /start greeting: the translation of `start.welcome` (MarkdownV2),
/// with a button to the developer's page labelled by `start.btn_dev`.
pub open spec fn start_model() -> (TextModel, TextModelRows) {
    (
        TextModel::Key("start.welcome"@, Seq::empty()),
        seq![
            seq![
                (
                    TextModel::Key("start.btn_dev"@, Seq::empty()),
                    ActionModel::Url("https://github.com/ziyu4"@),
                ),
            ],
        ],
    )
}

/// Handle the /start command.
pub fn start_handler() -> (r: (Text, Keyboard))
    ensures
        (r.0@, r.1@) == start_model(),
{
    let b = KeyboardButton {
        label: key_text("start.btn_dev"),
        action: ButtonAction::Url("https://github.com/ziyu4".to_owned()),
    };
    (key_text("start.welcome"), single_button_keyboard(b))
}

/// Where /start leads.
#[derive(Debug, Clone, PartialEq, Eq)]
pub enum StartRoute {
    /// `rules_<chat>`: the rules of that chat (the text after `rules_`).
    Rules(String),
    /// `help`: the help menu.
    Help,
    /// Anything else: the greeting.
    Greeting,
}

pub enum StartRouteModel {
    Rules(Seq<char>),
    Help,
    Greeting,
}

pub open spec fn spec_start_route(args: Seq<char>) -> StartRouteModel {
    if starts_with(args, "rules_"@) {
        StartRouteModel::Rules(args.skip(6))
    } else if args == "help"@ {
        StartRouteModel::Help
    } else {
        StartRouteModel::Greeting
    }
}

/// Handle /start command with optional deep link.
pub fn handle_start(args: &str) -> (r: StartRoute)
    ensures
        match r {
            StartRoute::Rules(s) => spec_start_route(args@) == StartRouteModel::Rules(s@),
            StartRoute::Help => spec_start_route(args@) == StartRouteModel::Help,
            StartRoute::Greeting => spec_start_route(args@) == StartRouteModel::Greeting,
        },
{
    let a = chars_of(args);
    let prefix = chars_of("rules_");
    proof {
        reveal_strlit("rules_");
    }
    if starts_with_vec(&a, &prefix) {
        let rest = slice_vec(&a, 6, a.len());
        assert(rest@ =~= a@.skip(6));
        StartRoute::Rules(string_of(&rest))
    } else if is_text(&a, "help") {
        StartRoute::Help
    } else {
        StartRoute::Greeting
    }
}

} // verus!
