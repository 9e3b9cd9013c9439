//! Plain-value models of what the bot sends: URL buttons parsed from
//! content, and inline keyboards.

use vstd::prelude::*;
use crate::plugins::common::{Text, TextModel};

verus! {

/// A URL button written in content as `{button:Text|url}`.
#[derive(Debug, Clone, PartialEq, Eq)]
pub struct InlineButton {
    pub text: String,
    pub url: String,
}

/// A button as a pair of its label and its URL.
pub type ButtonModel = (Seq<char>, Seq<char>);

impl View for InlineButton {
    type V = ButtonModel;

    open spec fn view(&self) -> ButtonModel {
        (self.text@, self.url@)
    }
}

impl InlineButton {
    pub fn new(text: String, url: String) -> (b: InlineButton)
        ensures
            b.text == text,
            b.url == url,
    {
        InlineButton { text, url }
    }

    pub fn duplicate(&self) -> (b: InlineButton)
        ensures
            b@ == self@,
    {
        InlineButton { text: self.text.clone(), url: self.url.clone() }
    }
}

pub open spec fn row_model(r: Vec<InlineButton>) -> Seq<ButtonModel> {
    r@.map_values(|b: InlineButton| b@)
}

/// Rows of buttons, each row as the sequence of its buttons' models.
pub open spec fn rows_model(rows: Seq<Vec<InlineButton>>) -> Seq<Seq<ButtonModel>> {
    rows.map_values(|r: Vec<InlineButton>| row_model(r))
}

/// What pressing a keyboard button does.
#[derive(Debug, Clone, PartialEq, Eq)]
pub enum ButtonAction {
    /// Opens a URL.
    Url(String),
    /// Sends callback data back to the bot.
    Callback(String),
}

/// One button of an inline keyboard.
#[derive(Debug, Clone, PartialEq, Eq)]
pub struct KeyboardButton {
    pub label: Text,
    pub action: ButtonAction,
}

/// An inline keyboard: rows of buttons.
#[derive(Debug, Clone, PartialEq, Eq)]
pub struct Keyboard {
    pub rows: Vec<Vec<KeyboardButton>>,
}

pub enum ActionModel {
    Url(Seq<char>),
    Callback(Seq<char>),
}

pub open spec fn key_model(b: KeyboardButton) -> (TextModel, ActionModel) {
    (
        b.label@,
        match b.action {
            ButtonAction::Url(u) => ActionModel::Url(u@),
            ButtonAction::Callback(d) => ActionModel::Callback(d@),
        },
    )
}

/// A keyboard's rows of (label, action) pairs.
pub type TextModelRows = Seq<Seq<(TextModel, ActionModel)>>;

pub open spec fn key_row_model(r: Vec<KeyboardButton>) -> Seq<(TextModel, ActionModel)> {
    r@.map_values(|b: KeyboardButton| key_model(b))
}

impl View for Keyboard {
    type V = Seq<Seq<(TextModel, ActionModel)>>;

    open spec fn view(&self) -> Self::V {
        self.rows@.map_values(|r: Vec<KeyboardButton>| key_row_model(r))
    }
}

/// A button that sends `data` back to the bot.
pub fn callback_button(label: Text, data: &str) -> (b: KeyboardButton)
    ensures
        key_model(b) == (label@, ActionModel::Callback(data@)),
{
    KeyboardButton { label, action: ButtonAction::Callback(data.to_owned()) }
}

/// A keyboard of one row holding one button.
pub fn single_button_keyboard(b: KeyboardButton) -> (k: Keyboard)
    ensures
        k@ == seq![seq![key_model(b)]],
{
    let ghost bm = key_model(b);
    let mut row: Vec<KeyboardButton> = Vec::new();
    row.push(b);
    let mut rows: Vec<Vec<KeyboardButton>> = Vec::new();
    rows.push(row);
    let k = Keyboard { rows };
    assert(k@[0] =~= seq![bm]);
    assert(k@ =~= seq![seq![bm]]);
    k
}

/// What `url::Url::parse` decides of a text: whether it is a URL that a URL
/// button can carry.
pub uninterp spec fn url_accepted(s: Seq<char>) -> bool;

/// `url::Url::parse` from the `url` crate, whose `Url` type Telegram URL
/// buttons carry: whether the text parses. The parser follows the WHATWG
/// URL standard; its verdict is named by `url_accepted`.
#[verifier::external_body]
fn url_parses(s: &str) -> (r: bool)
    ensures
        r == url_accepted(s@),
{
    url::Url::parse(s).is_ok()
}

/// The URL buttons of a row whose URL parses, in order.
pub open spec fn url_row(r: Seq<ButtonModel>) -> Seq<(TextModel, ActionModel)> {
    r.filter(|b: ButtonModel| url_accepted(b.1)).map_values(
        |b: ButtonModel| (TextModel::Plain(b.0), ActionModel::Url(b.1)),
    )
}

/// A keyboard of URL buttons from button rows: each row keeps the buttons
/// whose URL parses.
pub open spec fn url_rows(rows: Seq<Seq<ButtonModel>>) -> Seq<Seq<(TextModel, ActionModel)>> {
    rows.map_values(|r: Seq<ButtonModel>| url_row(r))
}

/// The row of URL buttons for the buttons of `r` whose URL parses.
pub fn url_row_vec(r: &Vec<InlineButton>) -> (k: Vec<KeyboardButton>)
    ensures
        key_row_model(k) == url_row(row_model(*r)),
{
    let mut k: Vec<KeyboardButton> = Vec::new();
    let mut i: usize = 0;
    let ghost pred = |b: ButtonModel| url_accepted(b.1);
    let ghost f = |b: ButtonModel| (TextModel::Plain(b.0), ActionModel::Url(b.1));
    let ghost rm = row_model(*r);
    assert(key_row_model(k) =~= rm.take(0).filter(pred).map_values(f)) by {
        assert(rm.take(0) =~= Seq::<ButtonModel>::empty());
        assert(rm.take(0).filter(pred) =~= Seq::<ButtonModel>::empty()) by {
            rm.take(0).lemma_filter_len(pred);
        }
    }
    while i < r.len()
        invariant
            i <= r.len(),
            rm == row_model(*r),
            pred == (|b: ButtonModel| url_accepted(b.1)),
            f == (|b: ButtonModel| (TextModel::Plain(b.0), ActionModel::Url(b.1))),
            key_row_model(k) == rm.take(i as int).filter(pred).map_values(f),
        decreases r.len() - i,
    {
        let ghost before = rm.take(i as int);
        let ghost x = rm[i as int];
        assert(rm.take(i + 1) =~= before.push(x));
        proof {
            before.lemma_filter_push(x, pred);
        }
        if url_parses(r[i].url.as_str()) {
            let ghost o = key_row_model(k);
            let b = KeyboardButton {
                label: Text::Plain(r[i].text.clone()),
                action: ButtonAction::Url(r[i].url.clone()),
            };
            k.push(b);
            assert(before.push(x).filter(pred) == before.filter(pred).push(x));
            assert(before.filter(pred).push(x).map_values(f) =~= before.filter(pred).map_values(f).push(f(x)));
            assert(key_row_model(k) =~= o.push(f(x)));
        } else {
            assert(before.push(x).filter(pred) == before.filter(pred));
        }
        i = i + 1;
    }
    assert(rm.take(r.len() as int) =~= rm);
    k
}

/// A keyboard of URL buttons, row by row, keeping the buttons whose URL
/// parses (rows may end up empty).
pub fn url_keyboard(rows: &Vec<Vec<InlineButton>>) -> (k: Keyboard)
    ensures
        k@ == url_rows(rows_model(rows@)),
{
    let mut out: Vec<Vec<KeyboardButton>> = Vec::new();
    let mut i: usize = 0;
    while i < rows.len()
        invariant
            i <= rows.len(),
            out@.map_values(|r: Vec<KeyboardButton>| key_row_model(r)) == url_rows(
                rows_model(rows@),
            ).take(i as int),
        decreases rows.len() - i,
    {
        let ghost o = out@.map_values(|r: Vec<KeyboardButton>| key_row_model(r));
        let row = url_row_vec(&rows[i]);
        let ghost rm = key_row_model(row);
        out.push(row);
        assert(out@.map_values(|r: Vec<KeyboardButton>| key_row_model(r)) =~= o.push(rm));
        assert(url_rows(rows_model(rows@)).take(i + 1) =~= url_rows(rows_model(rows@)).take(
            i as int,
        ).push(rm));
        i = i + 1;
    }
    assert(url_rows(rows_model(rows@)).take(rows.len() as int) =~= url_rows(rows_model(rows@)));
    Keyboard { rows: out }
}

/// The URL rows that keep at least one button.
pub open spec fn nonempty_url_rows(rows: Seq<Seq<ButtonModel>>) -> Seq<
    Seq<(TextModel, ActionModel)>,
> {
    url_rows(rows).filter(|r: Seq<(TextModel, ActionModel)>| r.len() > 0)
}

/// A keyboard of URL buttons without its empty rows; none when no button
/// is left.
pub fn compact_url_keyboard(rows: &Vec<Vec<InlineButton>>) -> (k: Option<Keyboard>)
    ensures
        match k {
            Some(kb) => kb@ == nonempty_url_rows(rows_model(rows@)) && kb@.len() > 0,
            None => nonempty_url_rows(rows_model(rows@)).len() == 0,
        },
{
    let mut out: Vec<Vec<KeyboardButton>> = Vec::new();
    let mut i: usize = 0;
    let ghost keep = |r: Seq<(TextModel, ActionModel)>| r.len() > 0;
    let ghost all = url_rows(rows_model(rows@));
    assert(all.take(0).filter(keep) =~= Seq::<Seq<(TextModel, ActionModel)>>::empty()) by {
        all.take(0).lemma_filter_len(keep);
    }
    assert(out@.map_values(|r: Vec<KeyboardButton>| key_row_model(r)) =~= all.take(0).filter(
        keep,
    ));
    while i < rows.len()
        invariant
            i <= rows.len(),
            all == url_rows(rows_model(rows@)),
            keep == (|r: Seq<(TextModel, ActionModel)>| r.len() > 0),
            out@.map_values(|r: Vec<KeyboardButton>| key_row_model(r)) == all.take(i as int).filter(
                keep,
            ),
        decreases rows.len() - i,
    {
        let ghost o = out@.map_values(|r: Vec<KeyboardButton>| key_row_model(r));
        let row = url_row_vec(&rows[i]);
        let ghost rm = key_row_model(row);
        assert(all.take(i + 1) =~= all.take(i as int).push(rm));
        proof {
            all.take(i as int).lemma_filter_push(rm, keep);
        }
        if row.len() > 0 {
            out.push(row);
            assert(out@.map_values(|r: Vec<KeyboardButton>| key_row_model(r)) =~= o.push(rm));
        }
        i = i + 1;
    }
    assert(all.take(rows.len() as int) =~= all);
    if out.len() == 0 {
        None
    } else {
        Some(Keyboard { rows: out })
    }
}

} // verus!

verus! {

/// The parts of a Telegram user that content fillings use.
#[derive(Debug, Clone, PartialEq, Eq)]
pub struct UserInfo {
    pub id: u64,
    pub first_name: String,
    pub last_name: Option<String>,
    pub username: Option<String>,
}

pub struct UserModel {
    pub id: u64,
    pub first_name: Seq<char>,
    pub last_name: Option<Seq<char>>,
    pub username: Option<Seq<char>>,
}

impl View for UserInfo {
    type V = UserModel;

    open spec fn view(&self) -> UserModel {
        UserModel {
            id: self.id,
            first_name: self.first_name@,
            last_name: match self.last_name {
                Some(l) => Some(l@),
                None => None,
            },
            username: match self.username {
                Some(u) => Some(u@),
                None => None,
            },
        }
    }
}

} // verus!
