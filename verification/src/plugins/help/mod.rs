//! The interactive help: a menu of sections, each page with its text and
//! its keyboard. In a group the help command points to the private chat.

pub mod admin;
pub mod afk;
pub mod antiflood;
pub mod approval;
pub mod bye;
pub mod filters;
pub mod main_help;
pub mod notes;
pub mod purge;
pub mod rules;
pub mod warns;
pub mod welcome;

use vstd::prelude::*;
use crate::markup::{
    ActionModel, ButtonAction, Keyboard, KeyboardButton, callback_button, key_model,
    single_button_keyboard,
};
use crate::plugins::common::{Fragment, FragmentModel, Text, TextModel, fragments_model};
use crate::text::{chars_of, concat_vec, is_text, opt_str, slice_vec, starts_with, starts_with_vec, string_of};

verus! {

/// One row with one button, `🔙 Kembali`, back to the menu.
pub open spec fn back_keyboard_model() -> Seq<Seq<(TextModel, ActionModel)>> {
    seq![seq![(TextModel::Plain("🔙 Kembali"@), ActionModel::Callback("help:back"@))]]
}

pub fn back_keyboard() -> (k: Keyboard)
    ensures
        k@ == back_keyboard_model(),
{
    single_button_keyboard(callback_button(Text::Plain("🔙 Kembali".to_owned()), "help:back"))
}

/// The pages of the help.
#[derive(Debug, Clone, Copy, PartialEq, Eq, Structural)]
pub enum Section {
    Main,
    Notes,
    Afk,
    Admin,
    Filters,
    Welcome,
    Bye,
    Warns,
    Antiflood,
    Approval,
    Purge,
    Rules,
}

/// A help page: its text (HTML) and its keyboard.
#[derive(Debug, Clone, PartialEq, Eq)]
pub struct HelpPage {
    pub text: Text,
    pub keyboard: Keyboard,
}

pub type PageModel = (TextModel, Seq<Seq<(TextModel, ActionModel)>>);

pub open spec fn page_view(p: HelpPage) -> PageModel {
    (p.text@, p.keyboard@)
}

/// The section a callback names after `help:` (`main` and `back` both name
/// the menu).
pub open spec fn section_named(part: Seq<char>) -> Option<Section> {
    if part == "main"@ || part == "back"@ {
        Some(Section::Main)
    } else if part == "notes"@ {
        Some(Section::Notes)
    } else if part == "afk"@ {
        Some(Section::Afk)
    } else if part == "admin"@ {
        Some(Section::Admin)
    } else if part == "filters"@ {
        Some(Section::Filters)
    } else if part == "welcome"@ {
        Some(Section::Welcome)
    } else if part == "bye"@ {
        Some(Section::Bye)
    } else if part == "warns"@ {
        Some(Section::Warns)
    } else if part == "antiflood"@ {
        Some(Section::Antiflood)
    } else if part == "approval"@ {
        Some(Section::Approval)
    } else if part == "purge"@ {
        Some(Section::Purge)
    } else if part == "rules"@ {
        Some(Section::Rules)
    } else {
        None
    }
}

/// The page of each section.
pub open spec fn page_model(s: Section) -> PageModel {
    match s {
        Section::Main => (main_help::main_text(), main_help::main_keyboard()),
        Section::Filters => (
            TextModel::Key("help.filters_text"@, Seq::empty()),
            seq![seq![(filters::back_label(), ActionModel::Callback("help:back"@))]],
        ),
        Section::Notes => (TextModel::Plain(notes::section_text()), back_keyboard_model()),
        Section::Afk => (TextModel::Plain(afk::section_text()), back_keyboard_model()),
        Section::Admin => (TextModel::Plain(admin::section_text()), back_keyboard_model()),
        Section::Welcome => (TextModel::Plain(welcome::section_text()), back_keyboard_model()),
        Section::Bye => (TextModel::Plain(bye::section_text()), back_keyboard_model()),
        Section::Warns => (TextModel::Plain(warns::section_text()), back_keyboard_model()),
        Section::Antiflood => (TextModel::Plain(antiflood::section_text()), back_keyboard_model()),
        Section::Approval => (TextModel::Plain(approval::section_text()), back_keyboard_model()),
        Section::Purge => (TextModel::Plain(purge::section_text()), back_keyboard_model()),
        Section::Rules => (TextModel::Plain(rules::section_text()), back_keyboard_model()),
    }
}

/// The page of a section.
pub fn page(s: Section) -> (p: HelpPage)
    ensures
        page_view(p) == page_model(s),
{
    match s {
        Section::Main => HelpPage { text: main_help::get_text(), keyboard: main_help::get_keyboard() },
        Section::Filters => HelpPage { text: filters::get_text(), keyboard: filters::get_keyboard() },
        Section::Notes => HelpPage { text: Text::Plain(notes::get_text()), keyboard: notes::get_keyboard() },
        Section::Afk => HelpPage { text: Text::Plain(afk::get_text()), keyboard: afk::get_keyboard() },
        Section::Admin => HelpPage { text: Text::Plain(admin::get_text()), keyboard: admin::get_keyboard() },
        Section::Welcome => HelpPage {
            text: Text::Plain(welcome::get_text()),
            keyboard: welcome::get_keyboard(),
        },
        Section::Bye => HelpPage { text: Text::Plain(bye::get_text()), keyboard: bye::get_keyboard() },
        Section::Warns => HelpPage { text: Text::Plain(warns::get_text()), keyboard: warns::get_keyboard() },
        Section::Antiflood => HelpPage {
            text: Text::Plain(antiflood::get_text()),
            keyboard: antiflood::get_keyboard(),
        },
        Section::Approval => HelpPage {
            text: Text::Plain(approval::get_text()),
            keyboard: approval::get_keyboard(),
        },
        Section::Purge => HelpPage { text: Text::Plain(purge::get_text()), keyboard: purge::get_keyboard() },
        Section::Rules => HelpPage { text: Text::Plain(rules::get_text()), keyboard: rules::get_keyboard() },
    }
}

fn section_of(part: &Vec<char>) -> (r: Option<Section>)
    ensures
        r == section_named(part@),
{
    if is_text(part, "main") || is_text(part, "back") {
        Some(Section::Main)
    } else if is_text(part, "notes") {
        Some(Section::Notes)
    } else if is_text(part, "afk") {
        Some(Section::Afk)
    } else if is_text(part, "admin") {
        Some(Section::Admin)
    } else if is_text(part, "filters") {
        Some(Section::Filters)
    } else if is_text(part, "welcome") {
        Some(Section::Welcome)
    } else if is_text(part, "bye") {
        Some(Section::Bye)
    } else if is_text(part, "warns") {
        Some(Section::Warns)
    } else if is_text(part, "antiflood") {
        Some(Section::Antiflood)
    } else if is_text(part, "approval") {
        Some(Section::Approval)
    } else if is_text(part, "purge") {
        Some(Section::Purge)
    } else if is_text(part, "rules") {
        Some(Section::Rules)
    } else {
        None
    }
}

/// The section a help callback opens: its data is `help:` and a section
/// name.
pub open spec fn callback_section(data: Option<Seq<char>>) -> Option<Section> {
    match data {
        Some(d) => if starts_with(d, "help:"@) {
            section_named(d.skip(5))
        } else {
            None
        },
        None => None,
    }
}

/// Handle help callback queries (`help:*`): the page to show in place of
/// the menu, none when the data names no page (then nothing is done).
pub fn callback_handler(data: Option<&str>) -> (r: Option<HelpPage>)
    ensures
        match r {
            Some(p) => callback_section(opt_str(data)) matches Some(s) && page_view(p) == page_model(
                s,
            ),
            None => callback_section(opt_str(data)) is None,
        },
{
    let d = match data {
        Some(d) => chars_of(d),
        None => {
            return None;
        },
    };
    let prefix = chars_of("help:");
    proof {
        reveal_strlit("help:");
    }
    if !starts_with_vec(&d, &prefix) {
        return None;
    }
    let part = slice_vec(&d, 5, d.len());
    assert(part@ =~= d@.skip(5));
    match section_of(&part) {
        Some(s) => Some(page(s)),
        None => None,
    }
}

/// Send the main help menu.
pub fn send_help_menu() -> (p: HelpPage)
    ensures
        page_view(p) == page_model(Section::Main),
{
    page(Section::Main)
}

/// What the help command answers.
#[derive(Debug, Clone, PartialEq, Eq)]
pub enum HelpReply {
    /// In a group: a text and a keyboard pointing to the private chat.
    Redirect(Text, Keyboard),
    /// In a private chat: the menu.
    Menu(HelpPage),
}

/// `https://t.me/<bot>?start=help`.
pub open spec fn help_link(bot_username: Seq<char>) -> Seq<char> {
    "https://t.me/"@ + bot_username + "?start=help"@
}

/// The redirect's text: the translation of `help.redirect_pm`, or
/// `Contact me in PM.`.
pub open spec fn redirect_text() -> TextModel {
    TextModel::Concat(seq![FragmentModel::KeyOr("help.redirect_pm"@, "Contact me in PM."@)])
}

/// The redirect's keyboard: one URL button labelled by `common.help_btn`
/// (or `📚 Help / Bantuan`) opening the help link.
pub open spec fn redirect_keyboard(bot_username: Seq<char>) -> Seq<Seq<(TextModel, ActionModel)>> {
    seq![
        seq![
            (
                TextModel::Concat(seq![FragmentModel::KeyOr("common.help_btn"@, "📚 Help / Bantuan"@)]),
                ActionModel::Url(help_link(bot_username)),
            ),
        ],
    ]
}

/// Handle /help: in a group, point to the private chat; else show the menu.
pub fn help_handler(in_group: bool, bot_username: &str) -> (r: HelpReply)
    ensures
        match r {
            HelpReply::Redirect(t, k) => in_group && t@ == redirect_text() && k@ == redirect_keyboard(
                bot_username@,
            ),
            HelpReply::Menu(p) => !in_group && page_view(p) == page_model(Section::Main),
        },
{
    if in_group {
        let url = concat_vec(&concat_vec(&chars_of("https://t.me/"), &chars_of(bot_username)), &chars_of("?start=help"));
        let mut lf: Vec<Fragment> = Vec::new();
        lf.push(Fragment::KeyOr("common.help_btn".to_owned(), "📚 Help / Bantuan".to_owned()));
        let mut tf: Vec<Fragment> = Vec::new();
        tf.push(Fragment::KeyOr("help.redirect_pm".to_owned(), "Contact me in PM.".to_owned()));
        assert(fragments_model(lf@) =~= seq![FragmentModel::KeyOr("common.help_btn"@, "📚 Help / Bantuan"@)]);
        assert(fragments_model(tf@) =~= seq![FragmentModel::KeyOr("help.redirect_pm"@, "Contact me in PM."@)]);
        let b = KeyboardButton { label: Text::Concat(lf), action: ButtonAction::Url(string_of(&url)) };
        let k = single_button_keyboard(b);
        HelpReply::Redirect(Text::Concat(tf), k)
    } else {
        HelpReply::Menu(send_help_menu())
    }
}

} // verus!
