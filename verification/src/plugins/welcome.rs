//! Welcome command handlers.
//!
//! Commands for configuring welcome messages in groups; the logic is shared
//! with the goodbye message in `greeting`.

use vstd::prelude::*;
use crate::markup::{InlineButton, Keyboard, UserInfo, rows_model, url_keyboard, url_rows};
use crate::plugins::common::CommandMsg;
use crate::plugins::greeting::{
    Greeting, GreetingConfig, GreetingOutcome, format_greeting_text, greeting_command,
    greeting_text, reply_photos_fit, reset_greeting_command, set_reads_media, set_greeting_buttons_command,
    set_greeting_command, spec_greeting_command, spec_reset_greeting, spec_set_greeting,
    spec_set_greeting_buttons, total_buttons,
};

verus! {

/// Handle /welcome command - show or toggle the welcome message.
pub fn welcome_command(m: &CommandMsg, can_change: Option<bool>, config: Option<&GreetingConfig>) -> (r:
    GreetingOutcome)
    requires
        config matches Some(c) ==> total_buttons(c@.buttons) <= usize::MAX,
    ensures
        r@ == spec_greeting_command(
            Greeting::Welcome,
            *m,
            can_change,
            match config {
                Some(c) => Some(c@),
                None => None,
            },
        ),
{
    greeting_command(Greeting::Welcome, m, can_change, config)
}

/// Handle /setwelcome command - set the welcome message by replying to a
/// message, or from the text after the command.
pub fn setwelcome_command(m: &CommandMsg, can_change: Option<bool>) -> (r: GreetingOutcome)
    requires
        set_reads_media(*m, can_change) ==> reply_photos_fit(*m),
    ensures
        r@ == spec_set_greeting(Greeting::Welcome, *m, can_change),
{
    set_greeting_command(Greeting::Welcome, m, can_change)
}

/// Handle /setwelcomebuttons command - set inline buttons.
pub fn setwelcomebuttons_command(m: &CommandMsg, can_change: Option<bool>) -> (r: GreetingOutcome)
    ensures
        r@ == spec_set_greeting_buttons(Greeting::Welcome, *m, can_change),
{
    set_greeting_buttons_command(Greeting::Welcome, m, can_change)
}

/// Handle /resetwelcome command.
pub fn resetwelcome_command(m: &CommandMsg, can_change: Option<bool>) -> (r: GreetingOutcome)
    ensures
        r@ == spec_reset_greeting(Greeting::Welcome, *m, can_change),
{
    reset_greeting_command(Greeting::Welcome, m, can_change)
}

/// Format welcome text with placeholders.
pub fn format_welcome_text(template: &str, user: &UserInfo, group: &str, count: u64) -> (r: String)
    ensures
        r@ == greeting_text(Greeting::Welcome, template@, user@, group@, count as nat),
{
    format_greeting_text(Greeting::Welcome, template, user, group, count)
}

/// Build inline keyboard from buttons config: each row keeps the buttons
/// whose URL parses.
pub fn build_welcome_keyboard(buttons: &Vec<Vec<InlineButton>>) -> (k: Keyboard)
    ensures
        k@ == url_rows(rows_model(buttons@)),
{
    url_keyboard(buttons)
}

} // verus!
