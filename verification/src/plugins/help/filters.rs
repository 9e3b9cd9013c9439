//! Help section: Filters. Its text is the translation of
//! `help.filters_text`.

use vstd::prelude::*;
use crate::markup::{Keyboard, ActionModel, callback_button, single_button_keyboard};
use crate::plugins::common::{Fragment, FragmentModel, Text, TextModel, key_text};

verus! {

pub fn get_text() -> (t: Text)
    ensures
        t@ == TextModel::Key("help.filters_text"@, Seq::empty()),
{
    key_text("help.filters_text")
}

/// `🔙 ` followed by the translation of `help.back`, or `🔙 Back` where it
/// has none.
pub open spec fn back_label() -> TextModel {
    TextModel::Concat(seq![FragmentModel::Plain("🔙 "@), FragmentModel::KeyOr("help.back"@, "Back"@)])
}

pub fn get_keyboard() -> (k: Keyboard)
    ensures
        k@ == seq![seq![(back_label(), ActionModel::Callback("help:back"@))]],
{
    let mut fs: Vec<Fragment> = Vec::new();
    fs.push(Fragment::Plain("🔙 ".to_owned()));
    fs.push(Fragment::KeyOr("help.back".to_owned(), "Back".to_owned()));
    let label = Text::Concat(fs);
    assert(label@ == back_label()) by {
        assert(crate::plugins::common::fragments_model(fs@) =~= seq![
            FragmentModel::Plain("🔙 "@),
            FragmentModel::KeyOr("help.back"@, "Back"@),
        ]);
    }
    single_button_keyboard(callback_button(label, "help:back"))
}

} // verus!
