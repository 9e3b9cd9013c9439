//! What the command handlers read of an incoming message, what they answer
//! with, and the argument helpers they share.

use vstd::prelude::*;
use crate::markup::UserInfo;
use crate::text::{chars_of, concat_vec, string_of, words, words_vec, views};

verus! {

/// The message a command replies to.
#[derive(Debug, Clone, PartialEq, Eq)]
pub struct Replied {
    pub msg_id: i32,
    pub from: Option<UserInfo>,
    pub content: crate::plugins::media::Content,
}

/// What a handler reads of the message carrying a command.
#[derive(Debug, Clone, PartialEq, Eq)]
pub struct CommandMsg {
    pub msg_id: i32,
    /// The chat is a group or a supergroup.
    pub in_group: bool,
    /// The chat is a private chat with the bot.
    pub in_private: bool,
    /// The chat's title, when it has one.
    pub chat_title: Option<String>,
    pub from: Option<UserInfo>,
    pub text: Option<String>,
    pub reply: Option<Replied>,
}

/// The text of the message, or the empty text (`msg.text().unwrap_or("")`).
pub open spec fn text_of(m: CommandMsg) -> Seq<char> {
    match m.text {
        Some(t) => t@,
        None => Seq::empty(),
    }
}

/// The words after the command word.
pub open spec fn args_of(m: CommandMsg) -> Seq<Seq<char>> {
    let w = words(text_of(m));
    if w.len() == 0 {
        Seq::empty()
    } else {
        w.skip(1)
    }
}

/// The replied-to message's sender, as `(id, first name)`.
pub open spec fn reply_sender(m: CommandMsg) -> Option<(u64, Seq<char>)> {
    match m.reply {
        Some(r) => match r.from {
            Some(s) => Some((s.id, s.first_name@)),
            None => None,
        },
        None => None,
    }
}

pub fn text_chars(m: &CommandMsg) -> (r: Vec<char>)
    ensures
        r@ == text_of(*m),
{
    match &m.text {
        Some(t) => chars_of(t.as_str()),
        None => Vec::new(),
    }
}

/// The words after the command word.
pub fn args_vec(m: &CommandMsg) -> (r: Vec<Vec<char>>)
    ensures
        views(r@) == args_of(*m),
{
    let t = text_chars(m);
    let w = words_vec(&t);
    let mut r: Vec<Vec<char>> = Vec::new();
    if w.len() == 0 {
        assert(views(r@) =~= Seq::<Seq<char>>::empty());
        return r;
    }
    let mut i: usize = 1;
    assert(views(r@) =~= views(w@).skip(1).take(0));
    while i < w.len()
        invariant
            1 <= i <= w.len(),
            views(r@) == views(w@).skip(1).take(i - 1),
        decreases w.len() - i,
    {
        let ghost o = r@;
        r.push(w[i].clone());
        assert(views(r@) =~= views(o).push(w@[i as int]@));
        assert(views(r@) =~= views(w@).skip(1).take(i as int));
        i = i + 1;
    }
    assert(views(w@).skip(1).take(views(w@).skip(1).len() as int) =~= views(w@).skip(1));
    r
}

pub fn reply_sender_of(m: &CommandMsg) -> (r: Option<(u64, String)>)
    ensures
        match r {
            Some((id, name)) => reply_sender(*m) == Some((id, name@)),
            None => reply_sender(*m) is None,
        },
{
    match &m.reply {
        Some(rp) => match &rp.from {
            Some(s) => Some((s.id, s.first_name.clone())),
            None => None,
        },
        None => None,
    }
}

/// The words joined by single spaces (`[&str]::join(" ")`).
pub open spec fn join_space(ws: Seq<Seq<char>>) -> Seq<char>
    decreases ws.len(),
{
    if ws.len() == 0 {
        Seq::empty()
    } else if ws.len() == 1 {
        ws[0]
    } else {
        join_space(ws.drop_last()) + seq![' '] + ws.last()
    }
}

/// The words from index `from` on, joined by spaces.
pub fn join_from(ws: &Vec<Vec<char>>, from: usize) -> (r: Vec<char>)
    requires
        from <= ws.len(),
    ensures
        r@ == join_space(views(ws@).skip(from as int)),
{
    let mut r: Vec<char> = Vec::new();
    let mut i = from;
    assert(views(ws@).skip(from as int).take(0) =~= Seq::<Seq<char>>::empty());
    while i < ws.len()
        invariant
            from <= i <= ws.len(),
            r@ == join_space(views(ws@).skip(from as int).take(i - from)),
        decreases ws.len() - i,
    {
        let ghost part = views(ws@).skip(from as int).take(i - from + 1);
        assert(part.drop_last() =~= views(ws@).skip(from as int).take(i - from));
        assert(part.last() == ws@[i as int]@);
        if i > from {
            r.push(' ');
            r = concat_vec(&r, &ws[i]);
        } else {
            r = ws[i].clone();
        }
        i = i + 1;
    }
    assert(views(ws@).skip(from as int).take(ws.len() - from) =~= views(ws@).skip(from as int));
    r
}

/// A piece of text placed into a localized message.
#[derive(Debug, Clone, PartialEq, Eq)]
pub enum Fragment {
    Plain(String),
    /// A translated text (by key) with its own placeholder replacements.
    Key(String, Vec<(String, String)>),
    /// A translated text (by key), HTML-escaped.
    EscapedKey(String),
    /// The translation of the key, or the given default where the key has
    /// no translation.
    KeyOr(String, String),
}

/// A message to send: literal text, or a translation key with placeholder
/// replacements applied in order.
#[derive(Debug, Clone, PartialEq, Eq)]
pub enum Text {
    Plain(String),
    Key(String, Vec<(String, Fragment)>),
    /// The fragments one after another.
    Concat(Vec<Fragment>),
}

pub enum FragmentModel {
    Plain(Seq<char>),
    Key(Seq<char>, Seq<(Seq<char>, Seq<char>)>),
    EscapedKey(Seq<char>),
    KeyOr(Seq<char>, Seq<char>),
}

pub enum TextModel {
    Plain(Seq<char>),
    Key(Seq<char>, Seq<(Seq<char>, FragmentModel)>),
    Concat(Seq<FragmentModel>),
}

pub open spec fn pairs_model(v: Seq<(String, String)>) -> Seq<(Seq<char>, Seq<char>)> {
    v.map_values(|p: (String, String)| (p.0@, p.1@))
}

pub open spec fn fragment_model(f: Fragment) -> FragmentModel {
    match f {
        Fragment::Plain(s) => FragmentModel::Plain(s@),
        Fragment::Key(k, ps) => FragmentModel::Key(k@, pairs_model(ps@)),
        Fragment::EscapedKey(k) => FragmentModel::EscapedKey(k@),
        Fragment::KeyOr(k, d) => FragmentModel::KeyOr(k@, d@),
    }
}

pub open spec fn fragments_model(v: Seq<Fragment>) -> Seq<FragmentModel> {
    v.map_values(|f: Fragment| fragment_model(f))
}

pub open spec fn params_model(v: Seq<(String, Fragment)>) -> Seq<(Seq<char>, FragmentModel)> {
    v.map_values(|p: (String, Fragment)| (p.0@, fragment_model(p.1)))
}

impl View for Text {
    type V = TextModel;

    open spec fn view(&self) -> TextModel {
        match self {
            Text::Plain(s) => TextModel::Plain(s@),
            Text::Key(k, ps) => TextModel::Key(k@, params_model(ps@)),
            Text::Concat(fs) => TextModel::Concat(fragments_model(fs@)),
        }
    }
}

/// A translated text with no placeholders.
pub fn key_text(key: &str) -> (t: Text)
    ensures
        t@ == TextModel::Key(key@, Seq::empty()),
{
    let ps: Vec<(String, Fragment)> = Vec::new();
    let t = Text::Key(key.to_owned(), ps);
    assert(params_model(ps@) =~= Seq::<(Seq<char>, FragmentModel)>::empty());
    t
}

/// A translated text with one placeholder filled by plain text.
pub fn key_text1(key: &str, p: &str, v: Vec<char>) -> (t: Text)
    ensures
        t@ == TextModel::Key(key@, seq![(p@, FragmentModel::Plain(v@))]),
{
    let mut ps: Vec<(String, Fragment)> = Vec::new();
    ps.push((p.to_owned(), Fragment::Plain(string_of(&v))));
    let t = Text::Key(key.to_owned(), ps);
    assert(params_model(ps@) =~= seq![(p@, FragmentModel::Plain(v@))]);
    t
}

/// A literal text.
pub fn plain_text(s: &str) -> (t: Text)
    ensures
        t@ == TextModel::Plain(s@),
{
    Text::Plain(s.to_owned())
}

/// Adds a placeholder replacement filled by plain text.
pub fn push_plain(ps: &mut Vec<(String, Fragment)>, p: &str, v: Vec<char>)
    ensures
        params_model(final(ps)@) == params_model(old(ps)@).push((p@, FragmentModel::Plain(v@))),
{
    let ghost o = ps@;
    ps.push((p.to_owned(), Fragment::Plain(string_of(&v))));
    assert(params_model(ps@) =~= params_model(o).push((p@, FragmentModel::Plain(v@))));
}

/// Adds a placeholder replacement filled by a fragment.
pub fn push_fragment(ps: &mut Vec<(String, Fragment)>, p: &str, f: Fragment)
    ensures
        params_model(final(ps)@) == params_model(old(ps)@).push((p@, fragment_model(f))),
{
    let ghost o = ps@;
    let ghost fm = fragment_model(f);
    ps.push((p.to_owned(), f));
    assert(params_model(ps@) =~= params_model(o).push((p@, fm)));
}

/// Adds a fragment to a concatenation.
pub fn push_piece(fs: &mut Vec<Fragment>, f: Fragment)
    ensures
        fragments_model(final(fs)@) == fragments_model(old(fs)@).push(fragment_model(f)),
{
    let ghost o = fs@;
    let ghost fm = fragment_model(f);
    fs.push(f);
    assert(fragments_model(fs@) =~= fragments_model(o).push(fm));
}

/// The "missing permission" error naming the permission.
pub open spec fn missing_permission(perm: Seq<char>) -> TextModel {
    TextModel::Key("common.error_missing_permission"@, seq![("{permission}"@, FragmentModel::Plain(perm))])
}

pub fn missing_permission_text(perm: &str) -> (t: Text)
    ensures
        t@ == missing_permission(perm@),
{
    key_text1("common.error_missing_permission", "{permission}", chars_of(perm))
}

} // verus!

verus! {

/// A question a handler asks a service before it can decide: whether the
/// sender holds a right in the chat, or whether a user is an admin there.
#[derive(Debug, Clone, Copy, PartialEq, Eq, Structural)]
pub enum Query {
    CanRestrictMembers,
    CanPromoteMembers,
    CanChangeInfo,
    CanPinMessages,
    CanDeleteMessages,
    SenderIsAdmin,
    SenderIsOwner,
    TargetIsAdmin(u64),
}

/// `User {id}`: the name shown for a user known only by id.
pub open spec fn user_placeholder(id: u64) -> Seq<char> {
    "User "@ + crate::text::dec(id as nat)
}

pub fn user_placeholder_vec(id: u64) -> (r: Vec<char>)
    ensures
        r@ == user_placeholder(id),
{
    concat_vec(&chars_of("User "), &crate::text::u64_dec(id))
}

/// The reason words from `idx` on, when there are any.
pub open spec fn reason_from(args: Seq<Seq<char>>, idx: int) -> Option<Seq<char>> {
    if args.len() > idx {
        let r = join_space(args.skip(idx));
        if r.len() == 0 {
            None
        } else {
            Some(r)
        }
    } else {
        None
    }
}

pub fn reason_from_vec(args: &Vec<Vec<char>>, idx: usize) -> (r: Option<Vec<char>>)
    ensures
        match r {
            Some(v) => reason_from(views(args@), idx as int) == Some(v@),
            None => reason_from(views(args@), idx as int) is None,
        },
{
    if args.len() > idx {
        let r = join_from(args, idx);
        if r.len() == 0 {
            None
        } else {
            Some(r)
        }
    } else {
        None
    }
}

} // verus!

verus! {

/// The text after the command word, trimmed (empty when there is none).
pub open spec fn rest_of(m: CommandMsg) -> Seq<char> {
    match crate::text::after_first_ws(text_of(m)) {
        Some(r) => crate::text::trim(r),
        None => Seq::empty(),
    }
}

pub fn rest_vec(m: &CommandMsg) -> (r: Vec<char>)
    ensures
        r@ == rest_of(*m),
{
    let t = text_chars(m);
    match crate::text::after_first_ws_vec(&t) {
        Some(r) => crate::text::trim_vec(&r),
        None => Vec::new(),
    }
}

} // verus!
