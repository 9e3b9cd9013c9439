//! Reply helper utilities.
//!
//! Provides consistent reply behavior across all handlers.

use vstd::prelude::*;
use crate::plugins::common::CommandMsg;

verus! {

/// Determines what message the bot should reply to.
///
/// For notes with hashtag (#note):
/// - If user replied to someone's message, reply to that message
/// - Otherwise, reply to the user's message
///
/// For commands:
/// - Always reply to the command message
pub fn get_reply_target(msg_id: i32, reply_to: Option<i32>, is_note_hashtag: bool) -> (r: i32)
    ensures
        r == (match reply_to {
            Some(reply) if is_note_hashtag => reply,
            _ => msg_id,
        }),
{
    if is_note_hashtag {
        if let Some(reply) = reply_to {
            return reply;
        }
    }
    msg_id
}

/// The id of the replied message, if any.
pub open spec fn replied_msg(m: CommandMsg) -> Option<i32> {
    match m.reply {
        Some(r) => Some(r.msg_id),
        None => None,
    }
}

/// Extension trait for easier reply handling.
pub trait ReplyExt {
    /// Get the message ID to reply to for command responses.
    fn reply_target(&self) -> i32;

    /// Get the message ID to reply to for notes (smart reply).
    fn note_reply_target(&self) -> i32;
}

impl ReplyExt for CommandMsg {
    /// A command is answered in reply to itself.
    fn reply_target(&self) -> (r: i32)
        ensures
            r == self.msg_id,
    {
        let reply_to = match &self.reply {
            Some(rp) => Some(rp.msg_id),
            None => None,
        };
        get_reply_target(self.msg_id, reply_to, false)
    }

    /// A note is answered in reply to the message the caller replied to,
    /// else to the caller's message.
    fn note_reply_target(&self) -> (r: i32)
        ensures
            r == match replied_msg(*self) {
                Some(id) => id,
                None => self.msg_id,
            },
    {
        let reply_to = match &self.reply {
            Some(rp) => Some(rp.msg_id),
            None => None,
        };
        get_reply_target(self.msg_id, reply_to, true)
    }
}

} // verus!
