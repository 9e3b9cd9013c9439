//! Ping command plugin.
//!
//! Shows the measured Telegram API latency.

use vstd::prelude::*;
use crate::text::{chars_of, concat_vec, dec, string_of, u128_dec};

verus! {

/// The latency's colour: green under 100 ms, yellow under 300 ms, else
/// red.
pub open spec fn latency_emoji(ms: nat) -> Seq<char> {
    if ms < 100 {
        "🟢"@
    } else if ms < 300 {
        "🟡"@
    } else {
        "🔴"@
    }
}

/// `<emoji> Pong! <code>Nms</code>` (HTML).
pub open spec fn spec_ping_text(ms: nat) -> Seq<char> {
    latency_emoji(ms) + " Pong! <code>"@ + dec(ms) + "ms</code>"@
}

/// The answer to /ping for a latency of `ms` milliseconds.
pub fn ping_text(ms: u128) -> (r: String)
    ensures
        r@ == spec_ping_text(ms as nat),
{
    let emoji = if ms < 100 {
        "🟢"
    } else if ms < 300 {
        "🟡"
    } else {
        "🔴"
    };
    let v = concat_vec(
        &concat_vec(&concat_vec(&chars_of(emoji), &chars_of(" Pong! <code>")), &u128_dec(ms)),
        &chars_of("ms</code>"),
    );
    string_of(&v)
}

} // verus!
