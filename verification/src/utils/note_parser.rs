//! Note parser utilities.
//!
//! Handles parsing of note content including:
//! - Buttons: `{button:Text|url}` and `{button:Text|url}:same`
//! - Tags: `{admin}`, `{private}`, `{protect}`, etc.
//! - Fillings: `{first}`, `{mention}`, `{chatname}`, etc.

use vstd::prelude::*;
use crate::markup::{ButtonModel, InlineButton, UserInfo, UserModel, rows_model};
use crate::text::{chars_of, dec, replace_all, string_of, trim, trim_vec, u64_dec};
use crate::utils::buttons::{split_buttons, split_buttons_vec};
use crate::utils::parser::{
    flagged_model, fullname_vec, html_escape_vec, last_or_empty, mention_vec, replace_lit,
    rules_filling, spec_fullname, spec_html_escape, spec_mention, spec_rules_filling,
    spec_username_filling, tag_step, tag_step_vec, user_last_vec,
};

verus! {

/// Tags of a note.
#[derive(Debug, Clone, Copy, PartialEq, Eq)]
pub struct NoteTags {
    pub admin_only: bool,
    pub is_private: bool,
    pub no_private: bool,
    pub protect: bool,
    pub preview: bool,
    pub no_notif: bool,
    pub media_spoiler: bool,
}

/// Result of parsing note content.
#[derive(Debug, Clone, PartialEq, Eq)]
pub struct ParsedNote {
    /// Clean text without buttons and tags
    pub text: String,
    /// Extracted buttons (rows)
    pub buttons: Vec<Vec<InlineButton>>,
    /// Extracted tags
    pub tags: NoteTags,
}

/// Tag removal applied in order: `{admin}`, `{private}`, `{noprivate}`,
/// `{protect}`, `{preview}`, `{nonotif}`, `{mediaspoiler}`.
pub open spec fn spec_note_tags(input: Seq<char>) -> (Seq<char>, NoteTags) {
    let (t1, a) = tag_step(input, "{admin}"@);
    let (t2, p) = tag_step(t1, "{private}"@);
    let (t3, np) = tag_step(t2, "{noprivate}"@);
    let (t4, pr) = tag_step(t3, "{protect}"@);
    let (t5, pv) = tag_step(t4, "{preview}"@);
    let (t6, nn) = tag_step(t5, "{nonotif}"@);
    let (t7, ms) = tag_step(t6, "{mediaspoiler}"@);
    (
        t7,
        NoteTags {
            admin_only: a,
            is_private: p,
            no_private: np,
            protect: pr,
            preview: pv,
            no_notif: nn,
            media_spoiler: ms,
        },
    )
}

/// Parse tags from text.
///
/// Tags: `{admin}`, `{private}`, `{noprivate}`, `{protect}`,
///       `{preview}`, `{nonotif}`, `{mediaspoiler}`
///
/// Returns (text without tags, parsed tags)
pub fn parse_tags(input: &str) -> (r: (String, NoteTags))
    ensures
        (r.0@, r.1) == spec_note_tags(input@),
{
    proof {
        reveal_strlit("{admin}");
        reveal_strlit("{private}");
        reveal_strlit("{noprivate}");
        reveal_strlit("{protect}");
        reveal_strlit("{preview}");
        reveal_strlit("{nonotif}");
        reveal_strlit("{mediaspoiler}");
    }
    let t0 = chars_of(input);
    let (t1, a) = tag_step_vec(t0, "{admin}");
    let (t2, p) = tag_step_vec(t1, "{private}");
    let (t3, np) = tag_step_vec(t2, "{noprivate}");
    let (t4, pr) = tag_step_vec(t3, "{protect}");
    let (t5, pv) = tag_step_vec(t4, "{preview}");
    let (t6, nn) = tag_step_vec(t5, "{nonotif}");
    let (t7, ms) = tag_step_vec(t6, "{mediaspoiler}");
    let tags = NoteTags {
        admin_only: a,
        is_private: p,
        no_private: np,
        protect: pr,
        preview: pv,
        no_notif: nn,
        media_spoiler: ms,
    };
    (string_of(&t7), tags)
}

/// Parse buttons from text.
///
/// Syntax:
/// - `{button:Text|url}` - Single button
/// - `{button:A|url}:{button:B|url}` - Multiple buttons on SAME row (colon joins)
/// - `{button:A|url} {button:B|url}` - Different rows (space/newline separates)
///
/// Returns (text without buttons, parsed buttons as rows)
pub fn parse_buttons(input: &str) -> (r: (String, Vec<Vec<InlineButton>>))
    ensures
        (r.0@, rows_model(r.1@)) == split_buttons(input@, true),
{
    let chars = chars_of(input);
    let (text, rows) = split_buttons_vec(&chars, true);
    (string_of(&text), rows)
}

/// Parse note content to extract buttons, tags, and clean text.
pub fn parse_note_content(input: &str) -> (r: ParsedNote)
    ensures
        r.text@ == trim(spec_note_tags(split_buttons(input@, true).0).0),
        rows_model(r.buttons@) == split_buttons(input@, true).1,
        r.tags == spec_note_tags(split_buttons(input@, true).0).1,
{
    let (text_without_buttons, buttons) = parse_buttons(input);
    let (clean_text, tags) = parse_tags(text_without_buttons.as_str());
    let clean = chars_of(clean_text.as_str());
    let trimmed = trim_vec(&clean);
    ParsedNote { text: string_of(&trimmed), buttons, tags }
}

/// The fillings of a note, replaced in this order.
pub open spec fn spec_note_fillings(text: Seq<char>, u: UserModel, chat_name: Seq<char>) -> Seq<
    char,
> {
    let first = spec_html_escape(u.first_name);
    let t1 = replace_all(text, "{first}"@, first);
    let t2 = replace_all(t1, "{last}"@, spec_html_escape(last_or_empty(u)));
    let t3 = replace_all(
        t2,
        "{fullname}"@,
        spec_html_escape(spec_fullname(u.first_name, last_or_empty(u))),
    );
    let t4 = replace_all(t3, "{username}"@, spec_username_filling(u));
    let t5 = replace_all(t4, "{mention}"@, spec_mention(u.id, u.first_name));
    let t6 = replace_all(t5, "{id}"@, dec(u.id as nat));
    replace_all(t6, "{chatname}"@, spec_html_escape(chat_name))
}

/// Apply fillings (placeholders) to note text.
///
/// Fillings:
/// - `{first}` - First name
/// - `{last}` - Last name
/// - `{fullname}` - Full name
/// - `{username}` - @username or mention
/// - `{mention}` - Mention with name
/// - `{id}` - User ID
/// - `{chatname}` - Chat name
pub fn apply_fillings(text: &str, user: &UserInfo, chat_name: &str, _bot_username: &str) -> (r:
    String)
    ensures
        r@ == spec_note_fillings(text@, user@, chat_name@),
{
    proof {
        reveal_strlit("{first}");
        reveal_strlit("{last}");
        reveal_strlit("{fullname}");
        reveal_strlit("{username}");
        reveal_strlit("{mention}");
        reveal_strlit("{id}");
        reveal_strlit("{chatname}");
    }
    let first_raw = chars_of(user.first_name.as_str());
    let last_raw = user_last_vec(user);
    let mention = mention_vec(user.id, &first_raw);
    let username = match &user.username {
        Some(n) => {
            let mut at: Vec<char> = Vec::new();
            at.push('@');
            let nv = chars_of(n.as_str());
            assert(at@ =~= seq!['@']);
            crate::text::concat_vec(&at, &nv)
        },
        None => mention.clone(),
    };
    let t0 = chars_of(text);
    let t1 = replace_lit(&t0, "{first}", &html_escape_vec(&first_raw));
    let t2 = replace_lit(&t1, "{last}", &html_escape_vec(&last_raw));
    let t3 = replace_lit(&t2, "{fullname}", &html_escape_vec(&fullname_vec(&first_raw, &last_raw)));
    let t4 = replace_lit(&t3, "{username}", &username);
    let t5 = replace_lit(&t4, "{mention}", &mention);
    let t6 = replace_lit(&t5, "{id}", &u64_dec(user.id));
    let t7 = replace_lit(&t6, "{chatname}", &html_escape_vec(&chars_of(chat_name)));
    string_of(&t7)
}

/// Apply {rules} and {rules:same} fillings.
/// Returns (text, additional rule buttons to add)
pub fn apply_rules_filling(text: &str, chat_id: i64, bot_username: &str) -> (r: (
    String,
    Vec<(InlineButton, bool)>,
))
    ensures
        (r.0@, flagged_model(r.1@)) == spec_rules_filling(text@, chat_id, bot_username@),
{
    rules_filling(text, chat_id, bot_username)
}

} // verus!
