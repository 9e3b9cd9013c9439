//! Settings plugin.
//!
//! Handles configuration commands like /setlang. The language is read
//! lower-cased with `str::to_lowercase`; `setlang_command` states its answer
//! for the word that call gives, and `set_lang` states the rest exactly.

use vstd::prelude::*;
use crate::plugins::common::{
    CommandMsg, Query, Text, TextModel, key_text, missing_permission, missing_permission_text,
    text_chars, text_of,
};
use crate::plugins::media::opt_view;
use crate::text::{chars_of, is_text, lowercase, string_of, to_lowercase, views, words, words_vec};

verus! {

/// What /setlang does.
#[derive(Debug, Clone, PartialEq, Eq)]
pub enum LangOutcome {
    Ignore,
    Ask(Query),
    /// Reply to the command with the text.
    Reply(Text),
    /// Send the text without replying (as HTML when the flag is set).
    Say(Text, bool),
    /// Store the sender's language, then send the text rendered in that
    /// language.
    SetUserLang(String, Text),
    /// Store the chat's language with its title, then send the text (HTML)
    /// rendered in that language.
    SetGroupLang(String, String, Text),
}

pub enum LangModel {
    Ignore,
    Ask(Query),
    Reply(TextModel),
    Say(TextModel, bool),
    SetUserLang(Seq<char>, TextModel),
    SetGroupLang(Seq<char>, Seq<char>, TextModel),
}

impl View for LangOutcome {
    type V = LangModel;

    open spec fn view(&self) -> LangModel {
        match self {
            LangOutcome::Ignore => LangModel::Ignore,
            LangOutcome::Ask(q) => LangModel::Ask(*q),
            LangOutcome::Reply(t) => LangModel::Reply(t@),
            LangOutcome::Say(t, h) => LangModel::Say(t@, *h),
            LangOutcome::SetUserLang(l, t) => LangModel::SetUserLang(l@, t@),
            LangOutcome::SetGroupLang(l, g, t) => LangModel::SetGroupLang(l@, g@, t@),
        }
    }
}

/// The languages the bot speaks.
pub open spec fn known_lang(lang: Seq<char>) -> bool {
    lang == "en"@ || lang == "id"@
}

/// Setting the (lower-cased) language `lang`: in a private chat for the
/// sender; elsewhere for the chat, by members who may change its info.
pub open spec fn spec_set_lang(m: CommandMsg, lang: Seq<char>, can_change: Option<bool>) -> LangModel {
    if !known_lang(lang) {
        LangModel::Say(TextModel::Key("settings.invalid_lang"@, Seq::empty()), true)
    } else if m.in_private {
        LangModel::SetUserLang(lang, TextModel::Key("settings.success_user"@, Seq::empty()))
    } else {
        match can_change {
            None => LangModel::Ask(Query::CanChangeInfo),
            Some(false) => LangModel::Say(missing_permission("CanChangeInfo"@), false),
            Some(true) => LangModel::SetGroupLang(
                lang,
                match m.chat_title {
                    Some(t) => t@,
                    None => "Unknown Group"@,
                },
                TextModel::Key("settings.success_group"@, Seq::empty()),
            ),
        }
    }
}

/// A chat's language is set by a known sender: storing it reads the
/// sender's id, which has no fallback.
pub open spec fn set_lang_ok(m: CommandMsg, lang: Seq<char>) -> bool {
    known_lang(lang) && !m.in_private ==> m.from is Some
}

pub fn set_lang(m: &CommandMsg, lang: &str, can_change: Option<bool>) -> (r: LangOutcome)
    requires
        set_lang_ok(*m, lang@),
    ensures
        r@ == spec_set_lang(*m, lang@, can_change),
{
    let l = chars_of(lang);
    if !(is_text(&l, "en") || is_text(&l, "id")) {
        return LangOutcome::Say(key_text("settings.invalid_lang"), true);
    }
    if m.in_private {
        return LangOutcome::SetUserLang(lang.to_owned(), key_text("settings.success_user"));
    }
    match can_change {
        None => LangOutcome::Ask(Query::CanChangeInfo),
        Some(false) => LangOutcome::Say(missing_permission_text("CanChangeInfo"), false),
        Some(true) => {
            let title = match &m.chat_title {
                Some(t) => t.clone(),
                None => "Unknown Group".to_owned(),
            };
            LangOutcome::SetGroupLang(lang.to_owned(), title, key_text("settings.success_group"))
        },
    }
}

/// /setlang <lang>: the usage without a language; else `set_lang` with the
/// word lower-cased. None where the sender is missing but needed: a known
/// language set for a chat by a message without a sender.
pub fn setlang_command(m: &CommandMsg, can_change: Option<bool>) -> (r: Option<LangOutcome>)
    ensures
        words(text_of(*m)).len() < 2 ==> (r matches Some(o) && o@ == LangModel::Reply(
            TextModel::Key("settings.usage"@, Seq::empty()),
        )),
        words(text_of(*m)).len() >= 2 ==> match r {
            Some(o) => set_lang_ok(*m, lowercase(words(text_of(*m))[1])) && o@ == spec_set_lang(
                *m,
                lowercase(words(text_of(*m))[1]),
                can_change,
            ),
            None => !set_lang_ok(*m, lowercase(words(text_of(*m))[1])),
        },
{
    let w = words_vec(&text_chars(m));
    if w.len() < 2 {
        return Some(LangOutcome::Reply(key_text("settings.usage")));
    }
    assert(views(w@)[1] == w@[1]@);
    let lang = to_lowercase(string_of(&w[1]).as_str());
    let l = chars_of(lang.as_str());
    let known = is_text(&l, "en") || is_text(&l, "id");
    if known && !m.in_private && m.from.is_none() {
        return None;
    }
    Some(set_lang(m, lang.as_str(), can_change))
}

} // verus!
