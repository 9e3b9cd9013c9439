//! Target resolution utilities for user commands.
//!
//! Resolves the user a command is about, from the replied message, a user
//! id argument, a clickable text mention, or an `@username` argument. Some
//! of these need a lookup (the user store, or the chat itself); resolution
//! asks for them one at a time.

use vstd::prelude::*;
use crate::markup::UserInfo;
use crate::plugins::common::{user_placeholder, user_placeholder_vec};
use crate::text::{chars_of, parse_u64_vec, parse_unsigned, string_of, words, words_vec, views};

verus! {

/// A clickable mention of a user (an entity of kind `TextMention`) at
/// `offset` in the message text.
#[derive(Debug, Clone, PartialEq, Eq)]
pub struct TextMention {
    pub offset: usize,
    pub user: UserInfo,
}

/// What `get_chat` tells of a chat.
#[derive(Debug, Clone, PartialEq, Eq)]
pub struct ChatFacts {
    pub is_private: bool,
    pub id: i64,
    pub first_name: Option<String>,
}

/// The next step of target resolution.
#[derive(Debug, Clone, PartialEq, Eq)]
pub enum TargetStep {
    /// The target: id, first name, and how many argument words it used.
    Found(u64, String, usize),
    NotFound,
    /// Look the user id up in the user store.
    LookupId(u64),
    /// Look the username (without `@`) up in the user store.
    LookupUsername(String),
    /// Ask for the chat named by this `@handle`.
    GetChat(String),
}

pub enum TargetModel {
    Found(u64, Seq<char>, nat),
    NotFound,
    LookupId(u64),
    LookupUsername(Seq<char>),
    GetChat(Seq<char>),
}

impl View for TargetStep {
    type V = TargetModel;

    open spec fn view(&self) -> TargetModel {
        match self {
            TargetStep::Found(id, n, k) => TargetModel::Found(*id, n@, *k as nat),
            TargetStep::NotFound => TargetModel::NotFound,
            TargetStep::LookupId(id) => TargetModel::LookupId(*id),
            TargetStep::LookupUsername(u) => TargetModel::LookupUsername(u@),
            TargetStep::GetChat(h) => TargetModel::GetChat(h@),
        }
    }
}

/// The first mention placed before offset 20.
pub open spec fn first_near_mention(ms: Seq<TextMention>) -> Option<(u64, Seq<char>)>
    decreases ms.len(),
{
    if ms.len() == 0 {
        None
    } else if ms[0].offset < 20 {
        Some((ms[0].user.id, ms[0].user.first_name@))
    } else {
        first_near_mention(ms.drop_first())
    }
}

/// `s` without its leading `@` characters (`trim_start_matches('@')`).
pub open spec fn strip_ats(s: Seq<char>) -> Seq<char>
    decreases s.len(),
{
    if s.len() > 0 && s[0] == '@' {
        strip_ats(s.drop_first())
    } else {
        s
    }
}

/// A private chat's id as a user id (`chat.id.0 as u64`).
pub open spec fn chat_user_id(id: i64) -> u64 {
    id as u64
}

/// Resolution: the replied message's sender; else, with an argument word,
/// a numeric id (named from the user store, else `User {id}`), the first
/// text mention before offset 20, or an `@username` found in the user store
/// or, failing that, as a private chat.
pub open spec fn spec_resolve_target(
    reply_from: Option<(u64, Seq<char>)>,
    text: Option<Seq<char>>,
    mentions: Seq<TextMention>,
    by_id: Option<Option<Seq<char>>>,
    by_username: Option<Option<(u64, Seq<char>)>>,
    chat: Option<Option<(bool, i64, Option<Seq<char>>)>>,
) -> TargetModel {
    match reply_from {
        Some((id, name)) => TargetModel::Found(id, name, 0),
        None => {
            let w = match text {
                Some(t) => words(t),
                None => Seq::empty(),
            };
            if w.len() <= 1 {
                TargetModel::NotFound
            } else {
                let arg = w[1];
                match parse_unsigned(arg, u64::MAX as nat) {
                    Some(id) => match by_id {
                        None => TargetModel::LookupId(id as u64),
                        Some(found) => TargetModel::Found(
                            id as u64,
                            match found {
                                Some(n) => n,
                                None => user_placeholder(id as u64),
                            },
                            1,
                        ),
                    },
                    None => match first_near_mention(mentions) {
                        Some((id, name)) => TargetModel::Found(id, name, 1),
                        None => if arg[0] == '@' {
                            match by_username {
                                None => TargetModel::LookupUsername(strip_ats(arg)),
                                Some(Some((id, name))) => TargetModel::Found(id, name, 1),
                                Some(None) => match chat {
                                    None => TargetModel::GetChat(arg),
                                    Some(Some((true, cid, first))) => TargetModel::Found(
                                        chat_user_id(cid),
                                        match first {
                                            Some(f) => f,
                                            None => "User"@,
                                        },
                                        1,
                                    ),
                                    Some(_) => TargetModel::NotFound,
                                },
                            }
                        } else {
                            TargetModel::NotFound
                        },
                    },
                }
            }
        },
    }
}

fn first_near_mention_of(ms: &Vec<TextMention>) -> (r: Option<(u64, String)>)
    ensures
        match r {
            Some((id, n)) => first_near_mention(ms@) == Some((id, n@)),
            None => first_near_mention(ms@) is None,
        },
{
    let mut i: usize = 0;
    assert(ms@.skip(0) =~= ms@);
    while i < ms.len()
        invariant
            i <= ms.len(),
            first_near_mention(ms@) == first_near_mention(ms@.skip(i as int)),
        decreases ms.len() - i,
    {
        assert(ms@.skip(i as int).drop_first() =~= ms@.skip(i + 1));
        if ms[i].offset < 20 {
            return Some((ms[i].user.id, ms[i].user.first_name.clone()));
        }
        i = i + 1;
    }
    None
}

pub fn strip_ats_vec(s: &Vec<char>) -> (r: Vec<char>)
    ensures
        r@ == strip_ats(s@),
{
    let mut i: usize = 0;
    assert(s@.skip(0) =~= s@);
    while i < s.len() && s[i] == '@'
        invariant
            i <= s.len(),
            strip_ats(s@) == strip_ats(s@.skip(i as int)),
        decreases s.len() - i,
    {
        assert(s@.skip(i as int).drop_first() =~= s@.skip(i + 1));
        i = i + 1;
    }
    let r = crate::text::slice_vec(s, i, s.len());
    assert(r@ =~= s@.skip(i as int));
    r
}

/// The next step of resolving the target of a command, given the answers
/// of the lookups made so far (`None`: not asked yet).
pub fn resolve_target(
    reply_from: Option<(u64, String)>,
    text: Option<String>,
    mentions: &Vec<TextMention>,
    by_id: Option<Option<String>>,
    by_username: Option<Option<(u64, String)>>,
    chat: Option<Option<ChatFacts>>,
) -> (r: TargetStep)
    ensures
        r@ == spec_resolve_target(
            match reply_from {
                Some((id, n)) => Some((id, n@)),
                None => None,
            },
            match text {
                Some(t) => Some(t@),
                None => None,
            },
            mentions@,
            match by_id {
                Some(Some(n)) => Some(Some(n@)),
                Some(None) => Some(None),
                None => None,
            },
            match by_username {
                Some(Some((id, n))) => Some(Some((id, n@))),
                Some(None) => Some(None),
                None => None,
            },
            match chat {
                Some(Some(c)) => Some(
                    Some(
                        (
                            c.is_private,
                            c.id,
                            match c.first_name {
                                Some(f) => Some(f@),
                                None => None,
                            },
                        ),
                    ),
                ),
                Some(None) => Some(None),
                None => None,
            },
        ),
{
    if let Some((id, name)) = reply_from {
        return TargetStep::Found(id, name, 0);
    }
    let t = match &text {
        Some(t) => chars_of(t.as_str()),
        None => Vec::new(),
    };
    let w = words_vec(&t);
    if w.len() <= 1 {
        return TargetStep::NotFound;
    }
    let arg = &w[1];
    assert(views(w@)[1] == arg@);
    match parse_u64_vec(arg) {
        Some(id) => {
            return match by_id {
                None => TargetStep::LookupId(id),
                Some(Some(n)) => TargetStep::Found(id, n, 1),
                Some(None) => TargetStep::Found(id, string_of(&user_placeholder_vec(id)), 1),
            };
        },
        None => {},
    }
    if let Some((id, name)) = first_near_mention_of(mentions) {
        return TargetStep::Found(id, name, 1);
    }
    assert(arg@.len() > 0) by {
        crate::text::lemma_words_nonempty(t@);
        assert(views(w@)[1].len() > 0);
    }
    if arg[0] != '@' {
        return TargetStep::NotFound;
    }
    match by_username {
        None => TargetStep::LookupUsername(string_of(&strip_ats_vec(arg))),
        Some(Some((id, name))) => TargetStep::Found(id, name, 1),
        Some(None) => match chat {
            None => TargetStep::GetChat(string_of(arg)),
            Some(Some(c)) => if c.is_private {
                TargetStep::Found(
                    c.id as u64,
                    match c.first_name {
                        Some(f) => f,
                        None => "User".to_owned(),
                    },
                    1,
                )
            } else {
                TargetStep::NotFound
            },
            Some(None) => TargetStep::NotFound,
        },
    }
}

} // verus!
