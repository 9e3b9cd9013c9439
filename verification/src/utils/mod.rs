//! Utility functions.
//!
//! Collection of helper functions used across the bot.

pub mod buttons;
pub mod note_parser;
pub mod parser;
pub mod reply;
pub mod target;

pub use note_parser::{apply_fillings, apply_rules_filling, parse_note_content, ParsedNote};
pub use parser::{
    apply_fillings as apply_fillings_new, format_duration_full, html_escape, parse_content,
    parse_duration,
};

use vstd::prelude::*;
use crate::text::{chars_of, string_of};

verus! {

/// `@username` when there is a username, else the first name.
pub open spec fn spec_format_username(username: Option<Seq<char>>, first_name: Seq<char>) -> Seq<
    char,
> {
    match username {
        Some(u) => seq!['@'] + u,
        None => first_name,
    }
}

/// Format a username for display.
///
/// If the user has a username, returns @username.
/// Otherwise, returns the first name.
pub fn format_username(username: Option<&str>, first_name: &str) -> (r: String)
    ensures
        r@ == spec_format_username(
            match username {
                Some(u) => Some(u@),
                None => None,
            },
            first_name@,
        ),
{
    match username {
        Some(u) => {
            let mut at: Vec<char> = Vec::new();
            at.push('@');
            assert(at@ =~= seq!['@']);
            let v = crate::text::concat_vec(&at, &chars_of(u));
            string_of(&v)
        },
        None => first_name.to_owned(),
    }
}

/// The characters MarkdownV2 requires to be escaped.
pub open spec fn md_special(c: char) -> bool {
    c == '_' || c == '*' || c == '[' || c == ']' || c == '(' || c == ')' || c == '~' || c == '`'
        || c == '>' || c == '#' || c == '+' || c == '-' || c == '=' || c == '|' || c == '{' || c
        == '}' || c == '.' || c == '!'
}

/// Each special character preceded by a backslash.
pub open spec fn spec_escape_markdown(s: Seq<char>) -> Seq<char>
    decreases s.len(),
{
    if s.len() == 0 {
        Seq::empty()
    } else {
        spec_escape_markdown(s.drop_last()) + if md_special(s.last()) {
            seq!['\\', s.last()]
        } else {
            seq![s.last()]
        }
    }
}

fn is_md_special(c: char) -> (b: bool)
    ensures
        b == md_special(c),
{
    c == '_' || c == '*' || c == '[' || c == ']' || c == '(' || c == ')' || c == '~' || c == '`'
        || c == '>' || c == '#' || c == '+' || c == '-' || c == '=' || c == '|' || c == '{' || c
        == '}' || c == '.' || c == '!'
}

/// Escape special characters for MarkdownV2.
pub fn escape_markdown(text: &str) -> (r: String)
    ensures
        r@ == spec_escape_markdown(text@),
{
    let s = chars_of(text);
    let mut out: Vec<char> = Vec::new();
    let mut i: usize = 0;
    assert(s@.take(0) =~= Seq::<char>::empty());
    while i < s.len()
        invariant
            i <= s.len(),
            out@ == spec_escape_markdown(s@.take(i as int)),
        decreases s.len() - i,
    {
        let c = s[i];
        assert(s@.take(i + 1).drop_last() =~= s@.take(i as int));
        let ghost before = out@;
        if is_md_special(c) {
            out.push('\\');
        }
        out.push(c);
        assert(out@ =~= spec_escape_markdown(s@.take(i + 1)));
        i = i + 1;
    }
    assert(s@.take(s.len() as int) =~= s@);
    string_of(&out)
}

} // verus!
