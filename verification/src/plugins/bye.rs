//! Goodbye command handlers.
//!
//! Commands for configuring goodbye messages in groups; the logic is shared
//! with the welcome message in `greeting`.

use vstd::prelude::*;
use crate::markup::{InlineButton, Keyboard, UserInfo, rows_model, url_keyboard, url_rows};
use crate::plugins::common::CommandMsg;
use crate::plugins::greeting::{
    Greeting, GreetingConfig, GreetingOutcome, format_greeting_text, greeting_command,
    greeting_text, reply_photos_fit, reset_greeting_command, set_reads_media, set_greeting_buttons_command,
    set_greeting_command, spec_greeting_command, spec_reset_greeting, spec_set_greeting,
    spec_set_greeting_buttons, total_buttons,
};

verus! {

/// Handle /bye command - show or toggle the goodbye message.
pub fn bye_command(m: &CommandMsg, can_change: Option<bool>, config: Option<&GreetingConfig>) -> (r:
    GreetingOutcome)
    requires
        config matches Some(c) ==> total_buttons(c@.buttons) <= usize::MAX,
    ensures
        r@ == spec_greeting_command(
            Greeting::Bye,
            *m,
            can_change,
            match config {
                Some(c) => Some(c@),
                None => None,
            },
        ),
{
    greeting_command(Greeting::Bye, m, can_change, config)
}

/// Handle /setbye command - set the goodbye message by replying to a
/// message, or from the text after the command.
pub fn setbye_command(m: &CommandMsg, can_change: Option<bool>) -> (r: GreetingOutcome)
    requires
        set_reads_media(*m, can_change) ==> reply_photos_fit(*m),
    ensures
        r@ == spec_set_greeting(Greeting::Bye, *m, can_change),
{
    set_greeting_command(Greeting::Bye, m, can_change)
}

/// Handle /setbyebuttons command - set inline buttons.
pub fn setbyebuttons_command(m: &CommandMsg, can_change: Option<bool>) -> (r: GreetingOutcome)
    ensures
        r@ == spec_set_greeting_buttons(Greeting::Bye, *m, can_change),
{
    set_greeting_buttons_command(Greeting::Bye, m, can_change)
}

/// Handle /resetbye command.
pub fn resetbye_command(m: &CommandMsg, can_change: Option<bool>) -> (r: GreetingOutcome)
    ensures
        r@ == spec_reset_greeting(Greeting::Bye, *m, can_change),
{
    reset_greeting_command(Greeting::Bye, m, can_change)
}

/// Format goodbye text with placeholders.
pub fn format_bye_text(template: &str, user: &UserInfo, group: &str) -> (r: String)
    ensures
        r@ == greeting_text(Greeting::Bye, template@, user@, group@, 0),
{
    format_greeting_text(Greeting::Bye, template, user, group, 0)
}

/// Build inline keyboard from buttons config: each row keeps the buttons
/// whose URL parses.
pub fn build_bye_keyboard(buttons: &Vec<Vec<InlineButton>>) -> (k: Keyboard)
    ensures
        k@ == url_rows(rows_model(buttons@)),
{
    url_keyboard(buttons)
}

} // verus!
