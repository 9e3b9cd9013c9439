//! The main help menu: a title and an introduction from the translations,
//! and one button per help section.

use vstd::prelude::*;
use crate::markup::{Keyboard, KeyboardButton, ActionModel, callback_button, key_model, key_row_model};
use crate::plugins::common::{Fragment, FragmentModel, Text, TextModel, fragments_model};

verus! {

/// The translations of `help.title` and `help.intro`, a blank line between.
pub open spec fn main_text() -> TextModel {
    TextModel::Concat(
        seq![
            FragmentModel::Key("help.title"@, Seq::empty()),
            FragmentModel::Plain("\n\n"@),
            FragmentModel::Key("help.intro"@, Seq::empty()),
        ],
    )
}

pub fn get_text() -> (t: Text)
    ensures
        t@ == main_text(),
{
    let mut fs: Vec<Fragment> = Vec::new();
    fs.push(Fragment::Key("help.title".to_owned(), Vec::new()));
    fs.push(Fragment::Plain("\n\n".to_owned()));
    fs.push(Fragment::Key("help.intro".to_owned(), Vec::new()));
    let t = Text::Concat(fs);
    assert(crate::plugins::common::pairs_model(Seq::<(String, String)>::empty()) =~= Seq::empty());
    assert(fragments_model(fs@) =~= seq![
        FragmentModel::Key("help.title"@, Seq::empty()),
        FragmentModel::Plain("\n\n"@),
        FragmentModel::Key("help.intro"@, Seq::empty()),
    ]);
    t
}

/// A section button: the translation of `key` (or `default`), opening the
/// section `data`.
pub open spec fn menu_key(key: Seq<char>, default: Seq<char>, data: Seq<char>) -> (
    TextModel,
    ActionModel,
) {
    (TextModel::Concat(seq![FragmentModel::KeyOr(key, default)]), ActionModel::Callback(data))
}

/// The section buttons, two per row.
pub open spec fn main_keyboard() -> Seq<Seq<(TextModel, ActionModel)>> {
    seq![
        seq![
            menu_key("help.notes"@, "📝 Notes"@, "help:notes"@),
            menu_key("help.filters"@, "⚙️ Filters"@, "help:filters"@),
        ],
        seq![
            menu_key("help.welcome"@, "👋 Welcome"@, "help:welcome"@),
            menu_key("help.bye"@, "👋 Goodbye"@, "help:bye"@),
        ],
        seq![
            menu_key("help.admin"@, "🛡️ Admin"@, "help:admin"@),
            menu_key("help.warns"@, "⚠️ Warns"@, "help:warns"@),
        ],
        seq![
            menu_key("help.antiflood"@, "🌊 Antiflood"@, "help:antiflood"@),
            menu_key("help.approval"@, "✅ Approval"@, "help:approval"@),
        ],
        seq![
            menu_key("help.afk"@, "💤 AFK"@, "help:afk"@),
            menu_key("help.purge"@, "🗑️ Purge"@, "help:purge"@),
        ],
        seq![menu_key("help.rules"@, "📜 Rules"@, "help:rules"@)],
    ]
}

fn menu_button(key: &str, default: &str, data: &str) -> (b: KeyboardButton)
    ensures
        key_model(b) == menu_key(key@, default@, data@),
{
    let mut fs: Vec<Fragment> = Vec::new();
    fs.push(Fragment::KeyOr(key.to_owned(), default.to_owned()));
    assert(fragments_model(fs@) =~= seq![FragmentModel::KeyOr(key@, default@)]);
    callback_button(Text::Concat(fs), data)
}

fn menu_row(a: KeyboardButton, b: KeyboardButton) -> (r: Vec<KeyboardButton>)
    ensures
        key_row_model(r) == seq![key_model(a), key_model(b)],
{
    let ghost (ma, mb) = (key_model(a), key_model(b));
    let mut r: Vec<KeyboardButton> = Vec::new();
    r.push(a);
    r.push(b);
    assert(key_row_model(r) =~= seq![ma, mb]);
    r
}

pub fn get_keyboard() -> (k: Keyboard)
    ensures
        k@ == main_keyboard(),
{
    let mut rows: Vec<Vec<KeyboardButton>> = Vec::new();
    rows.push(
        menu_row(
            menu_button("help.notes", "📝 Notes", "help:notes"),
            menu_button("help.filters", "⚙️ Filters", "help:filters"),
        ),
    );
    rows.push(
        menu_row(
            menu_button("help.welcome", "👋 Welcome", "help:welcome"),
            menu_button("help.bye", "👋 Goodbye", "help:bye"),
        ),
    );
    rows.push(
        menu_row(
            menu_button("help.admin", "🛡️ Admin", "help:admin"),
            menu_button("help.warns", "⚠️ Warns", "help:warns"),
        ),
    );
    rows.push(
        menu_row(
            menu_button("help.antiflood", "🌊 Antiflood", "help:antiflood"),
            menu_button("help.approval", "✅ Approval", "help:approval"),
        ),
    );
    rows.push(
        menu_row(
            menu_button("help.afk", "💤 AFK", "help:afk"),
            menu_button("help.purge", "🗑️ Purge", "help:purge"),
        ),
    );
    let last = menu_button("help.rules", "📜 Rules", "help:rules");
    let ghost ml = key_model(last);
    let mut r6: Vec<KeyboardButton> = Vec::new();
    r6.push(last);
    assert(key_row_model(r6) =~= seq![ml]);
    rows.push(r6);
    let k = Keyboard { rows };
    assert(k@ =~= main_keyboard());
    k
}

} // verus!
