//! Rules command handlers.
//!
//! Commands for setting and viewing group rules, and the `rules_<chat>`
//! start link that shows them in a private chat.

use vstd::prelude::*;
use crate::markup::{ActionModel, ButtonAction, Keyboard, KeyboardButton, TextModelRows, single_button_keyboard};
use crate::plugins::common::{
    CommandMsg, Fragment, FragmentModel, Query, Text, TextModel, args_of, args_vec, key_text,
    missing_permission, missing_permission_text, params_model, push_fragment, push_plain, rest_of,
    rest_vec,
};
use crate::plugins::media::{opt_view, text_or_caption, text_or_caption_of};
use crate::text::{
    chars_of, concat_vec, dec_int, i64_dec, lower_eq, lower_eq_vec, parse_i64_vec, parse_signed,
    string_of, trim, trim_vec,
};
use crate::utils::parser::{html_escape_vec, spec_html_escape};

verus! {

/// A chat's rules.
#[derive(Debug, Clone, PartialEq, Eq)]
pub struct RulesSettings {
    pub text: Option<String>,
    /// Show the rules in a private chat (through a button) instead of in
    /// the group.
    pub show_in_pm: bool,
    /// The label of that button.
    pub button_text: String,
}

pub struct RulesModel {
    pub text: Option<Seq<char>>,
    pub show_in_pm: bool,
    pub button_text: Seq<char>,
}

impl View for RulesSettings {
    type V = RulesModel;

    open spec fn view(&self) -> RulesModel {
        RulesModel { text: opt_view(self.text), show_in_pm: self.show_in_pm, button_text: self.button_text@ }
    }
}

/// What a rules command does.
#[derive(Debug, Clone, PartialEq, Eq)]
pub enum RulesOutcome {
    Ignore,
    Ask(Query),
    /// Read the rules of this chat and call again with them.
    LoadRules(i64),
    /// Read the title of this chat and call again with it.
    GetTitle(i64),
    /// Reply to the command with the text (as HTML when the flag is set).
    Reply(Text, bool),
    /// Send the text without replying (as HTML when the flag is set).
    Say(Text, bool),
    /// Reply with the text and a keyboard.
    ReplyWithKeyboard(Text, Keyboard),
    /// Store the rules text, then reply with the text.
    SetRules(String, Text),
    /// Remove the rules text, then reply with the text.
    ClearRules(Text),
    /// Store where the rules are shown, then reply with the text.
    SetShowInPm(bool, Text),
}

pub enum RulesOutcomeModel {
    Ignore,
    Ask(Query),
    LoadRules(i64),
    GetTitle(i64),
    Reply(TextModel, bool),
    Say(TextModel, bool),
    ReplyWithKeyboard(TextModel, TextModelRows),
    SetRules(Seq<char>, TextModel),
    ClearRules(TextModel),
    SetShowInPm(bool, TextModel),
}

impl View for RulesOutcome {
    type V = RulesOutcomeModel;

    open spec fn view(&self) -> RulesOutcomeModel {
        match self {
            RulesOutcome::Ignore => RulesOutcomeModel::Ignore,
            RulesOutcome::Ask(q) => RulesOutcomeModel::Ask(*q),
            RulesOutcome::LoadRules(c) => RulesOutcomeModel::LoadRules(*c),
            RulesOutcome::GetTitle(c) => RulesOutcomeModel::GetTitle(*c),
            RulesOutcome::Reply(t, h) => RulesOutcomeModel::Reply(t@, *h),
            RulesOutcome::Say(t, h) => RulesOutcomeModel::Say(t@, *h),
            RulesOutcome::ReplyWithKeyboard(t, k) => RulesOutcomeModel::ReplyWithKeyboard(t@, k@),
            RulesOutcome::SetRules(s, t) => RulesOutcomeModel::SetRules(s@, t@),
            RulesOutcome::ClearRules(t) => RulesOutcomeModel::ClearRules(t@),
            RulesOutcome::SetShowInPm(b, t) => RulesOutcomeModel::SetShowInPm(*b, t@),
        }
    }
}

pub open spec fn key_only(k: Seq<char>) -> TextModel {
    TextModel::Key(k, Seq::empty())
}

/// The rules text, when it holds more than whitespace.
pub open spec fn shown_rules(r: RulesModel) -> Option<Seq<char>> {
    match r.text {
        Some(t) => if trim(t).len() > 0 {
            Some(t)
        } else {
            None
        },
        None => None,
    }
}

fn shown_rules_of(r: &RulesSettings) -> (o: Option<String>)
    ensures
        opt_view(o) == shown_rules(r@),
{
    match &r.text {
        Some(t) => if trim_vec(&chars_of(t.as_str())).len() > 0 {
            Some(t.clone())
        } else {
            None
        },
        None => None,
    }
}

/// The rules under the chat's title: `rules.title_format` with the escaped
/// title and the text.
pub open spec fn titled_rules(title: Seq<char>, text: Seq<char>) -> TextModel {
    TextModel::Key(
        "rules.title_format"@,
        seq![
            ("{title}"@, FragmentModel::Plain(spec_html_escape(title))),
            ("{text}"@, FragmentModel::Plain(text)),
        ],
    )
}

fn titled_rules_of(title: &Vec<char>, text: &String) -> (t: Text)
    ensures
        t@ == titled_rules(title@, text@),
{
    let mut ps: Vec<(String, Fragment)> = Vec::new();
    push_plain(&mut ps, "{title}", html_escape_vec(title));
    push_plain(&mut ps, "{text}", chars_of(text.as_str()));
    assert(params_model(ps@) =~= seq![
        ("{title}"@, FragmentModel::Plain(spec_html_escape(title@))),
        ("{text}"@, FragmentModel::Plain(text@)),
    ]);
    Text::Key("rules.title_format".to_owned(), ps)
}

/// `https://t.me/<bot>?start=rules_<chat id>`.
pub open spec fn rules_link(bot_username: Seq<char>, chat_id: i64) -> Seq<char> {
    "https://t.me/"@ + bot_username + "?start=rules_"@ + dec_int(chat_id as int)
}

/// /rules: the rules, in the group under its title or, when they are
/// shown in private, as a button opening the private chat.
pub open spec fn spec_rules(m: CommandMsg, chat_id: i64, bot_username: Seq<char>, rules: Option<RulesModel>) -> RulesOutcomeModel {
    if !m.in_group {
        RulesOutcomeModel::Reply(key_only("rules.error_group_only"@), false)
    } else {
        match rules {
            None => RulesOutcomeModel::LoadRules(chat_id),
            Some(r) => match shown_rules(r) {
                None => RulesOutcomeModel::Reply(key_only("rules.none_setup"@), false),
                Some(text) => if r.show_in_pm {
                    RulesOutcomeModel::ReplyWithKeyboard(
                        key_only("rules.pm_click_text"@),
                        seq![
                            seq![
                                (
                                    TextModel::Plain(r.button_text),
                                    ActionModel::Url(rules_link(bot_username, chat_id)),
                                ),
                            ],
                        ],
                    )
                } else {
                    RulesOutcomeModel::Reply(
                        titled_rules(
                            match m.chat_title {
                                Some(t) => t@,
                                None => "Grup"@,
                            },
                            text,
                        ),
                        true,
                    )
                },
            },
        }
    }
}

/// Handle /rules command - show group rules.
pub fn rules_command(m: &CommandMsg, chat_id: i64, bot_username: &str, rules: Option<&RulesSettings>) -> (r:
    RulesOutcome)
    ensures
        r@ == spec_rules(
            *m,
            chat_id,
            bot_username@,
            match rules {
                Some(s) => Some(s@),
                None => None,
            },
        ),
{
    if !m.in_group {
        return RulesOutcome::Reply(key_text("rules.error_group_only"), false);
    }
    let s = match rules {
        None => {
            return RulesOutcome::LoadRules(chat_id);
        },
        Some(s) => s,
    };
    let text = match shown_rules_of(s) {
        None => {
            return RulesOutcome::Reply(key_text("rules.none_setup"), false);
        },
        Some(t) => t,
    };
    if s.show_in_pm {
        let link = concat_vec(
            &concat_vec(&concat_vec(&chars_of("https://t.me/"), &chars_of(bot_username)), &chars_of("?start=rules_")),
            &i64_dec(chat_id),
        );
        let b = KeyboardButton { label: Text::Plain(s.button_text.clone()), action: ButtonAction::Url(string_of(&link)) };
        RulesOutcome::ReplyWithKeyboard(key_text("rules.pm_click_text"), single_button_keyboard(b))
    } else {
        let title = match &m.chat_title {
            Some(t) => chars_of(t.as_str()),
            None => chars_of("Grup"),
        };
        RulesOutcome::Reply(titled_rules_of(&title, &text), true)
    }
}

/// The rules text a /setrules gives: the replied message's text or
/// caption, else the trimmed text after the command when not empty.
pub open spec fn spec_rules_text(m: CommandMsg) -> Option<Seq<char>> {
    match m.reply {
        Some(r) => match text_or_caption(r.content) {
            Some(t) => Some(t),
            None => if rest_of(m).len() > 0 {
                Some(rest_of(m))
            } else {
                None
            },
        },
        None => if rest_of(m).len() > 0 {
            Some(rest_of(m))
        } else {
            None
        },
    }
}

/// Get rules text from message (reply or args).
pub fn get_rules_text(m: &CommandMsg) -> (r: Option<String>)
    ensures
        opt_view(r) == spec_rules_text(*m),
{
    if let Some(rp) = &m.reply {
        if let Some(t) = text_or_caption_of(&rp.content) {
            return Some(t);
        }
    }
    let rest = rest_vec(m);
    if rest.len() > 0 {
        Some(string_of(&rest))
    } else {
        None
    }
}

/// /setrules: members who may change the chat's info set its rules.
pub open spec fn spec_setrules(m: CommandMsg, can_change: Option<bool>) -> RulesOutcomeModel {
    if m.from is None {
        RulesOutcomeModel::Ignore
    } else if !m.in_group {
        RulesOutcomeModel::Reply(key_only("rules.error_group_only"@), false)
    } else {
        match can_change {
            None => RulesOutcomeModel::Ask(Query::CanChangeInfo),
            Some(false) => RulesOutcomeModel::Reply(missing_permission("CanChangeInfo"@), false),
            Some(true) => match spec_rules_text(m) {
                None => RulesOutcomeModel::Reply(key_only("rules.set_usage"@), true),
                Some(t) => RulesOutcomeModel::SetRules(t, key_only("rules.set_success"@)),
            },
        }
    }
}

/// Handle /setrules command - set group rules.
pub fn setrules_command(m: &CommandMsg, can_change: Option<bool>) -> (r: RulesOutcome)
    ensures
        r@ == spec_setrules(*m, can_change),
{
    if m.from.is_none() {
        return RulesOutcome::Ignore;
    }
    if !m.in_group {
        return RulesOutcome::Reply(key_text("rules.error_group_only"), false);
    }
    match can_change {
        None => RulesOutcome::Ask(Query::CanChangeInfo),
        Some(false) => RulesOutcome::Reply(missing_permission_text("CanChangeInfo"), false),
        Some(true) => match get_rules_text(m) {
            None => RulesOutcome::Reply(key_text("rules.set_usage"), true),
            Some(t) => RulesOutcome::SetRules(t, key_text("rules.set_success")),
        },
    }
}

/// /clearrules: members who may change the chat's info remove its rules.
pub open spec fn spec_clearrules(m: CommandMsg, can_change: Option<bool>) -> RulesOutcomeModel {
    if m.from is None {
        RulesOutcomeModel::Ignore
    } else {
        match can_change {
            None => RulesOutcomeModel::Ask(Query::CanChangeInfo),
            Some(false) => RulesOutcomeModel::Reply(missing_permission("CanChangeInfo"@), false),
            Some(true) => RulesOutcomeModel::ClearRules(key_only("rules.cleared"@)),
        }
    }
}

/// Handle /clearrules command.
pub fn clearrules_command(m: &CommandMsg, can_change: Option<bool>) -> (r: RulesOutcome)
    ensures
        r@ == spec_clearrules(*m, can_change),
{
    if m.from.is_none() {
        return RulesOutcome::Ignore;
    }
    match can_change {
        None => RulesOutcome::Ask(Query::CanChangeInfo),
        Some(false) => RulesOutcome::Reply(missing_permission_text("CanChangeInfo"), false),
        Some(true) => RulesOutcome::ClearRules(key_text("rules.cleared")),
    }
}

/// The display a word asks for: `on`, `yes`, `true`, `pm` for the private
/// chat; `off`, `no`, `false`, `group` for the group (any case).
pub open spec fn pm_choice(s: Seq<char>) -> Option<bool> {
    if lower_eq(s, "on"@) || lower_eq(s, "yes"@) || lower_eq(s, "true"@) || lower_eq(s, "pm"@) {
        Some(true)
    } else if lower_eq(s, "off"@) || lower_eq(s, "no"@) || lower_eq(s, "false"@) || lower_eq(s, "group"@) {
        Some(false)
    } else {
        None
    }
}

fn pm_choice_of(s: &Vec<char>) -> (r: Option<bool>)
    ensures
        r == pm_choice(s@),
{
    if lower_eq_vec(s, &chars_of("on")) || lower_eq_vec(s, &chars_of("yes")) || lower_eq_vec(s, &chars_of("true"))
        || lower_eq_vec(s, &chars_of("pm")) {
        Some(true)
    } else if lower_eq_vec(s, &chars_of("off")) || lower_eq_vec(s, &chars_of("no")) || lower_eq_vec(
        s,
        &chars_of("false"),
    ) || lower_eq_vec(s, &chars_of("group")) {
        Some(false)
    } else {
        None
    }
}

/// The confirmation naming the new display.
pub open spec fn private_set(show_in_pm: bool) -> TextModel {
    TextModel::Key(
        "rules.private_set"@,
        seq![
            (
                "{mode}"@,
                FragmentModel::Key(
                    if show_in_pm {
                        "rules.private_mode"@
                    } else {
                        "rules.group_mode"@
                    },
                    Seq::empty(),
                ),
            ),
        ],
    )
}

/// /setrulesprivate [mode]: without argument the display is toggled.
pub open spec fn spec_setrulesprivate(
    m: CommandMsg,
    chat_id: i64,
    can_change: Option<bool>,
    rules: Option<RulesModel>,
) -> RulesOutcomeModel {
    let args = args_of(m);
    if m.from is None {
        RulesOutcomeModel::Ignore
    } else {
        match can_change {
            None => RulesOutcomeModel::Ask(Query::CanChangeInfo),
            Some(false) => RulesOutcomeModel::Reply(missing_permission("CanChangeInfo"@), false),
            Some(true) => match rules {
                None => RulesOutcomeModel::LoadRules(chat_id),
                Some(r) => if args.len() == 0 {
                    RulesOutcomeModel::SetShowInPm(!r.show_in_pm, private_set(!r.show_in_pm))
                } else {
                    match pm_choice(args[0]) {
                        Some(b) => RulesOutcomeModel::SetShowInPm(b, private_set(b)),
                        None => RulesOutcomeModel::Reply(key_only("rules.private_usage"@), false),
                    }
                },
            },
        }
    }
}

fn private_set_text(b: bool) -> (t: Text)
    ensures
        t@ == private_set(b),
{
    let mode = if b {
        "rules.private_mode"
    } else {
        "rules.group_mode"
    };
    let mut ps: Vec<(String, Fragment)> = Vec::new();
    push_fragment(&mut ps, "{mode}", Fragment::Key(mode.to_owned(), Vec::new()));
    assert(crate::plugins::common::pairs_model(Seq::<(String, String)>::empty()) =~= Seq::empty());
    assert(params_model(ps@) =~= seq![("{mode}"@, FragmentModel::Key(mode@, Seq::empty()))]);
    Text::Key("rules.private_set".to_owned(), ps)
}

/// Handle /setrulesprivate command - toggle rules display mode.
pub fn setrulesprivate_command(m: &CommandMsg, chat_id: i64, can_change: Option<bool>, rules: Option<&RulesSettings>) -> (r:
    RulesOutcome)
    ensures
        r@ == spec_setrulesprivate(
            *m,
            chat_id,
            can_change,
            match rules {
                Some(s) => Some(s@),
                None => None,
            },
        ),
{
    if m.from.is_none() {
        return RulesOutcome::Ignore;
    }
    match can_change {
        None => {
            return RulesOutcome::Ask(Query::CanChangeInfo);
        },
        Some(false) => {
            return RulesOutcome::Reply(missing_permission_text("CanChangeInfo"), false);
        },
        Some(true) => {},
    }
    let s = match rules {
        None => {
            return RulesOutcome::LoadRules(chat_id);
        },
        Some(s) => s,
    };
    let args = args_vec(m);
    if args.len() == 0 {
        let b = !s.show_in_pm;
        return RulesOutcome::SetShowInPm(b, private_set_text(b));
    }
    assert(crate::text::views(args@)[0] == args@[0]@);
    match pm_choice_of(&args[0]) {
        Some(b) => RulesOutcome::SetShowInPm(b, private_set_text(b)),
        None => RulesOutcome::Reply(key_text("rules.private_usage"), false),
    }
}

/// The `rules_<chat>` start link: the chat id is read, its rules looked
/// up, and shown under the chat's current title (`Grup` when it has none
/// or cannot be read).
pub open spec fn spec_rules_deeplink(
    chat_id_str: Seq<char>,
    rules: Option<Option<RulesModel>>,
    title: Option<Option<Seq<char>>>,
) -> RulesOutcomeModel {
    match parse_signed(chat_id_str, i64::MAX as nat) {
        None => RulesOutcomeModel::Say(key_only("rules.error_link"@), false),
        Some(id) => match rules {
            None => RulesOutcomeModel::LoadRules(id as i64),
            Some(None) => RulesOutcomeModel::Say(key_only("rules.error_group_not_found"@), false),
            Some(Some(r)) => match shown_rules(r) {
                None => RulesOutcomeModel::Say(key_only("rules.deeplink_none"@), false),
                Some(text) => match title {
                    None => RulesOutcomeModel::GetTitle(id as i64),
                    Some(t) => RulesOutcomeModel::Say(
                        titled_rules(
                            match t {
                                Some(s) => s,
                                None => "Grup"@,
                            },
                            text,
                        ),
                        true,
                    ),
                },
            },
        },
    }
}

/// Handle deep link for rules: /start rules_CHATID
pub fn handle_rules_deeplink(
    chat_id_str: &str,
    rules: Option<Option<&RulesSettings>>,
    title: Option<Option<String>>,
) -> (r: RulesOutcome)
    ensures
        r@ == spec_rules_deeplink(
            chat_id_str@,
            match rules {
                Some(Some(s)) => Some(Some(s@)),
                Some(None) => Some(None),
                None => None,
            },
            match title {
                Some(t) => Some(opt_view(t)),
                None => None,
            },
        ),
{
    let id = match parse_i64_vec(&chars_of(chat_id_str)) {
        None => {
            return RulesOutcome::Say(key_text("rules.error_link"), false);
        },
        Some(id) => id,
    };
    let s = match rules {
        None => {
            return RulesOutcome::LoadRules(id);
        },
        Some(None) => {
            return RulesOutcome::Say(key_text("rules.error_group_not_found"), false);
        },
        Some(Some(s)) => s,
    };
    let text = match shown_rules_of(s) {
        None => {
            return RulesOutcome::Say(key_text("rules.deeplink_none"), false);
        },
        Some(t) => t,
    };
    match title {
        None => RulesOutcome::GetTitle(id),
        Some(t) => {
            let tv = match &t {
                Some(s) => chars_of(s.as_str()),
                None => chars_of("Grup"),
            };
            RulesOutcome::Say(titled_rules_of(&tv, &text), true)
        },
    }
}

} // verus!
