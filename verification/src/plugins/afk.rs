//! AFK status: setting it with /afk (or /brb), clearing it when the user
//! speaks again, and telling whoever replies to or mentions an AFK user.
//!
//! The user store is read and written by the caller; these functions decide
//! which users to look up and what to say.

use vstd::prelude::*;
use crate::plugins::common::{
    CommandMsg, Fragment, FragmentModel, Text, TextModel, params_model, pairs_model, push_fragment,
    push_plain, rest_of, rest_vec,
};
use crate::text::{byte_slice, chars_of, str_get, string_of, u64_dec, dec};
use crate::utils::parser::{
    format_duration_full, html_escape, html_escape_vec, spec_format_duration_full, spec_html_escape,
};
use crate::utils::target::{strip_ats, strip_ats_vec};

verus! {

/// What the user store holds of a user's AFK status.
#[derive(Debug, Clone, PartialEq, Eq)]
pub struct AfkUser {
    pub user_id: u64,
    pub first_name: String,
    /// Set while the user is AFK.
    pub afk_reason: Option<String>,
    /// When the user went AFK, as a Unix timestamp.
    pub afk_time: Option<i64>,
}

pub struct AfkUserModel {
    pub user_id: u64,
    pub first_name: Seq<char>,
    pub afk_reason: Option<Seq<char>>,
    pub afk_time: Option<i64>,
}

impl View for AfkUser {
    type V = AfkUserModel;

    open spec fn view(&self) -> AfkUserModel {
        AfkUserModel {
            user_id: self.user_id,
            first_name: self.first_name@,
            afk_reason: match self.afk_reason {
                Some(r) => Some(r@),
                None => None,
            },
            afk_time: self.afk_time,
        }
    }
}

/// The reason given with /afk: the trimmed text after the command word,
/// when it is not empty.
pub open spec fn afk_reason(m: CommandMsg) -> Option<Seq<char>> {
    if rest_of(m).len() > 0 {
        Some(rest_of(m))
    } else {
        None
    }
}

/// `{reason}` of the AFK texts: the translation of `afk.reason` with the
/// escaped reason, or nothing.
pub open spec fn reason_fragment(reason: Option<Seq<char>>) -> FragmentModel {
    match reason {
        Some(r) => FragmentModel::Key("afk.reason"@, seq![("{reason}"@, spec_html_escape(r))]),
        None => FragmentModel::Plain(Seq::empty()),
    }
}

fn reason_fragment_of(reason: &Option<String>) -> (f: Fragment)
    ensures
        crate::plugins::common::fragment_model(f) == reason_fragment(
            match reason {
                Some(r) => Some(r@),
                None => None,
            },
        ),
{
    match reason {
        Some(r) => {
            let mut ps: Vec<(String, String)> = Vec::new();
            ps.push(("{reason}".to_owned(), html_escape(r.as_str())));
            assert(pairs_model(ps@) =~= seq![("{reason}"@, spec_html_escape(r@))]);
            Fragment::Key("afk.reason".to_owned(), ps)
        },
        None => Fragment::Plain(String::new()),
    }
}

/// What /afk does.
#[derive(Debug, Clone, PartialEq, Eq)]
pub enum AfkOutcome {
    /// No sender: nothing is done.
    Ignore,
    /// Store the user as AFK with the reason, then reply with the text.
    Store(u64, Option<String>, Text),
}

pub enum AfkModel {
    Ignore,
    Store(u64, Option<Seq<char>>, TextModel),
}

impl View for AfkOutcome {
    type V = AfkModel;

    open spec fn view(&self) -> AfkModel {
        match self {
            AfkOutcome::Ignore => AfkModel::Ignore,
            AfkOutcome::Store(id, r, t) => AfkModel::Store(
                *id,
                match r {
                    Some(s) => Some(s@),
                    None => None,
                },
                t@,
            ),
        }
    }
}

/// The /afk answer: `afk.now_afk` with the user's id, escaped first name
/// and reason.
pub open spec fn spec_afk(m: CommandMsg) -> AfkModel {
    match m.from {
        None => AfkModel::Ignore,
        Some(u) => AfkModel::Store(
            u.id,
            afk_reason(m),
            TextModel::Key(
                "afk.now_afk"@,
                seq![
                    ("{id}"@, FragmentModel::Plain(dec(u.id as nat))),
                    ("{name}"@, FragmentModel::Plain(spec_html_escape(u.first_name@))),
                    ("{reason}"@, reason_fragment(afk_reason(m))),
                ],
            ),
        ),
    }
}

/// Handle /afk command - set AFK status.
///
/// Usage: /afk [reason]
pub fn afk_command(m: &CommandMsg) -> (r: AfkOutcome)
    ensures
        r@ == spec_afk(*m),
{
    let u = match &m.from {
        Some(u) => u,
        None => {
            return AfkOutcome::Ignore;
        },
    };
    let rest = rest_vec(m);
    let reason: Option<String> = if rest.len() > 0 {
        Some(string_of(&rest))
    } else {
        None
    };
    let mut ps: Vec<(String, Fragment)> = Vec::new();
    push_plain(&mut ps, "{id}", u64_dec(u.id));
    push_plain(&mut ps, "{name}", html_escape_vec(&chars_of(u.first_name.as_str())));
    push_fragment(&mut ps, "{reason}", reason_fragment_of(&reason));
    assert(params_model(ps@) =~= seq![
        ("{id}"@, FragmentModel::Plain(dec(u.id as nat))),
        ("{name}"@, FragmentModel::Plain(spec_html_escape(u.first_name@))),
        ("{reason}"@, reason_fragment(afk_reason(*m))),
    ]);
    AfkOutcome::Store(u.id, reason, Text::Key("afk.now_afk".to_owned(), ps))
}

/// Handle /brb command - alias for /afk.
pub fn brb_command(m: &CommandMsg) -> (r: AfkOutcome)
    ensures
        r@ == spec_afk(*m),
{
    afk_command(m)
}

/// Seconds since `afk_time` at `now` (`(now - t) as u64`, 0 without a
/// time); a negative difference wraps as the cast does.
pub open spec fn elapsed(now: i64, afk_time: Option<i64>) -> nat {
    match afk_time {
        Some(t) => if now - t >= 0 {
            (now - t) as nat
        } else {
            (now - t + 0x1_0000_0000_0000_0000) as nat
        },
        None => 0,
    }
}

/// The difference `now - t` fits in `i64`.
pub open spec fn time_fits(now: i64, afk_time: Option<i64>) -> bool {
    match afk_time {
        Some(t) => i64::MIN <= now - t <= i64::MAX,
        None => true,
    }
}

fn elapsed_of(now: i64, afk_time: Option<i64>) -> (r: u64)
    requires
        time_fits(now, afk_time),
    ensures
        r == elapsed(now, afk_time),
{
    match afk_time {
        Some(t) => {
            let d: i64 = now - t;
            if d >= 0 {
                d as u64
            } else {
                let m: i64 = -(d + 1);
                u64::MAX - (m as u64)
            }
        },
        None => 0,
    }
}

/// A text about an AFK user: `key` with the id, the escaped first name,
/// the reason and how long the user has been away.
pub open spec fn afk_text(key: Seq<char>, id: u64, name: Seq<char>, reason: Option<Seq<char>>, secs: nat) -> TextModel {
    TextModel::Key(
        key,
        seq![
            ("{id}"@, FragmentModel::Plain(dec(id as nat))),
            ("{name}"@, FragmentModel::Plain(spec_html_escape(name))),
            ("{reason}"@, reason_fragment(reason)),
            ("{duration}"@, FragmentModel::Plain(spec_format_duration_full(secs))),
        ],
    )
}

fn afk_text_of(key: &str, id: u64, name: &String, reason: &Option<String>, secs: u64) -> (t: Text)
    ensures
        t@ == afk_text(
            key@,
            id,
            name@,
            match reason {
                Some(r) => Some(r@),
                None => None,
            },
            secs as nat,
        ),
{
    let mut ps: Vec<(String, Fragment)> = Vec::new();
    push_plain(&mut ps, "{id}", u64_dec(id));
    push_plain(&mut ps, "{name}", html_escape_vec(&chars_of(name.as_str())));
    push_fragment(&mut ps, "{reason}", reason_fragment_of(reason));
    push_plain(&mut ps, "{duration}", chars_of(format_duration_full(secs).as_str()));
    let ghost r = match reason {
        Some(r) => Some(r@),
        None => None,
    };
    assert(params_model(ps@) =~= seq![
        ("{id}"@, FragmentModel::Plain(dec(id as nat))),
        ("{name}"@, FragmentModel::Plain(spec_html_escape(name@))),
        ("{reason}"@, reason_fragment(r)),
        ("{duration}"@, FragmentModel::Plain(spec_format_duration_full(secs as nat))),
    ]);
    Text::Key(key.to_owned(), ps)
}

/// The system clock as Unix seconds: none when it reads before the epoch
/// or later than an `i64` of seconds holds.
fn clock_now() -> (r: Option<i64>)
    ensures
        r matches Some(t) ==> 0 <= t,
{
    match crate::utils::parser::since_epoch(crate::utils::parser::system_now()) {
        Some(d) => {
            let secs = crate::utils::parser::whole_secs(&d);
            if secs <= i64::MAX as u64 {
                Some(secs as i64)
            } else {
                None
            }
        },
        None => None,
    }
}

/// The time to measure from `afk_time`: any time when there is none (the
/// elapsed time is then 0), else the clock's reading where it is readable
/// and its distance to `afk_time` fits in an `i64`.
fn now_for(afk_time: Option<i64>) -> (r: Option<i64>)
    ensures
        afk_time is None ==> r is Some,
        r matches Some(now) ==> time_fits(now, afk_time),
{
    match afk_time {
        None => Some(0),
        Some(t) => match clock_now() {
            Some(now) => if t >= 0 || now <= i64::MAX + t {
                Some(now)
            } else {
                None
            },
            None => None,
        },
    }
}

/// The user to check when a message arrives: its sender, in groups only.
pub open spec fn spec_returning_user(in_group: bool, sender: Option<u64>) -> Option<u64> {
    if in_group {
        sender
    } else {
        None
    }
}

pub fn returning_user(in_group: bool, sender: Option<u64>) -> (r: Option<u64>)
    ensures
        r == spec_returning_user(in_group, sender),
{
    if in_group {
        sender
    } else {
        None
    }
}

/// When the sender was AFK (the store has a reason), the text telling the
/// group they are back (`afk.returned_afk`, named as in the message); the
/// caller then clears the status. None when they were not AFK.
pub open spec fn spec_return_text(sender_id: u64, sender_name: Seq<char>, data: AfkUserModel, now: i64) -> Option<TextModel> {
    match data.afk_reason {
        Some(r) => Some(
            afk_text("afk.returned_afk"@, sender_id, sender_name, Some(r), elapsed(now, data.afk_time)),
        ),
        None => None,
    }
}

pub fn return_text(sender_id: u64, sender_name: &String, data: &AfkUser, now: i64) -> (r: Option<Text>)
    requires
        time_fits(now, data.afk_time),
    ensures
        match r {
            Some(t) => spec_return_text(sender_id, sender_name@, data@, now) == Some(t@),
            None => spec_return_text(sender_id, sender_name@, data@, now) is None,
        },
{
    if data.afk_reason.is_some() {
        let secs = elapsed_of(now, data.afk_time);
        Some(afk_text_of("afk.returned_afk", sender_id, sender_name, &data.afk_reason, secs))
    } else {
        None
    }
}

/// `return_text` at the current time, which is returned with it. The
/// clock is read only for a user who is AFK since a known time; none when
/// that reading fails (see `now_for`).
pub fn return_text_now(sender_id: u64, sender_name: &String, data: &AfkUser) -> (r: Option<(Option<Text>, i64)>)
    ensures
        match r {
            Some((Some(t), now)) => spec_return_text(sender_id, sender_name@, data@, now) == Some(t@),
            Some((None, now)) => spec_return_text(sender_id, sender_name@, data@, now) is None,
            None => data.afk_reason is Some && data.afk_time is Some,
        },
{
    if data.afk_reason.is_none() {
        return Some((None, 0));
    }
    match now_for(data.afk_time) {
        Some(now) => Some((return_text(sender_id, sender_name, data, now), now)),
        None => None,
    }
}

/// Who a message points at.
#[derive(Debug, Clone, PartialEq, Eq)]
pub enum EntityKind {
    /// A clickable name of the user with this id.
    TextMention(u64),
    /// An `@username` written in the text.
    Mention,
    Other,
}

/// An entity of the message: its kind and where it stands (offset and
/// length as the message gives them).
#[derive(Debug, Clone, PartialEq, Eq)]
pub struct MessageEntity {
    pub kind: EntityKind,
    pub offset: usize,
    pub length: usize,
}

/// A user to look up in the store.
#[derive(Debug, Clone, PartialEq, Eq)]
pub enum AfkLookup {
    Id(u64),
    /// A username, without `@`.
    Username(String),
}

pub enum LookupModel {
    Id(u64),
    Username(Seq<char>),
}

impl View for AfkLookup {
    type V = LookupModel;

    open spec fn view(&self) -> LookupModel {
        match self {
            AfkLookup::Id(id) => LookupModel::Id(*id),
            AfkLookup::Username(u) => LookupModel::Username(u@),
        }
    }
}

pub open spec fn lookups_model(v: Seq<AfkLookup>) -> Seq<LookupModel> {
    v.map_values(|l: AfkLookup| l@)
}

/// The lookup an entity asks for: a text mention's user, or the username
/// an `@` mention spells (the text at its offsets, without leading `@`;
/// nothing when the offsets do not cut the text at character boundaries).
pub open spec fn entity_lookup(text: Seq<char>, e: MessageEntity) -> Option<LookupModel> {
    match e.kind {
        EntityKind::TextMention(id) => Some(LookupModel::Id(id)),
        EntityKind::Mention => match byte_slice(text, e.offset as int, e.offset + e.length) {
            Some(m) => Some(LookupModel::Username(strip_ats(m))),
            None => None,
        },
        EntityKind::Other => None,
    }
}

pub open spec fn entity_lookups(text: Seq<char>, es: Seq<MessageEntity>) -> Seq<LookupModel>
    decreases es.len(),
{
    if es.len() == 0 {
        Seq::empty()
    } else {
        let rest = entity_lookups(text, es.drop_last());
        match entity_lookup(text, es.last()) {
            Some(l) => rest.push(l),
            None => rest,
        }
    }
}

/// The users to look up, in order: the sender of the replied message, then
/// one per entity that names a user.
pub open spec fn spec_afk_lookups(reply_from: Option<u64>, text: Seq<char>, es: Seq<MessageEntity>) -> Seq<LookupModel> {
    let first = match reply_from {
        Some(id) => seq![LookupModel::Id(id)],
        None => Seq::empty(),
    };
    first + entity_lookups(text, es)
}

/// The offsets of every entity add up without overflow.
pub open spec fn entities_fit(es: Seq<MessageEntity>) -> bool {
    forall|i: int| 0 <= i < es.len() ==> #[trigger] es[i].offset + es[i].length <= usize::MAX
}

pub fn afk_lookups(reply_from: Option<u64>, text: &str, entities: &Vec<MessageEntity>) -> (r: Vec<AfkLookup>)
    requires
        entities_fit(entities@),
    ensures
        lookups_model(r@) == spec_afk_lookups(reply_from, text@, entities@),
{
    let mut r: Vec<AfkLookup> = Vec::new();
    let ghost first = match reply_from {
        Some(id) => seq![LookupModel::Id(id)],
        None => Seq::<LookupModel>::empty(),
    };
    match reply_from {
        Some(id) => {
            r.push(AfkLookup::Id(id));
        },
        None => {},
    }
    assert(lookups_model(r@) =~= first);
    assert(entities@.take(0) =~= Seq::<MessageEntity>::empty());
    let mut i: usize = 0;
    while i < entities.len()
        invariant
            i <= entities.len(),
            entities_fit(entities@),
            lookups_model(r@) == first + entity_lookups(text@, entities@.take(i as int)),
        decreases entities.len() - i,
    {
        let ghost o = lookups_model(r@);
        let e = &entities[i];
        assert(entities@.take(i + 1).drop_last() =~= entities@.take(i as int));
        let next: Option<AfkLookup> = match e.kind {
            EntityKind::TextMention(id) => Some(AfkLookup::Id(id)),
            EntityKind::Mention => {
                assert(e.offset + e.length <= usize::MAX);
                match str_get(text, e.offset, e.offset + e.length) {
                    Some(m) => Some(AfkLookup::Username(string_of(&strip_ats_vec(&chars_of(m))))),
                    None => None,
                }
            },
            EntityKind::Other => None,
        };
        match next {
            Some(l) => {
                let ghost lm = l@;
                r.push(l);
                assert(lookups_model(r@) =~= o.push(lm));
            },
            None => {},
        }
        i = i + 1;
    }
    assert(entities@.take(entities.len() as int) =~= entities@);
    r
}

/// The id a notice is kept under: the looked-up id, or the id the store
/// gives for a username.
pub open spec fn lookup_key(l: LookupModel, u: AfkUserModel) -> u64 {
    match l {
        LookupModel::Id(id) => id,
        LookupModel::Username(_) => u.user_id,
    }
}

/// From index `i` on, the indices of the looked-up users to tell about:
/// those found AFK whose id was not told about before (`done`).
pub open spec fn notice_scan(
    ls: Seq<LookupModel>,
    fs: Seq<Option<AfkUserModel>>,
    i: int,
    done: Seq<u64>,
) -> Seq<int>
    decreases ls.len() - i,
{
    if i < 0 || i >= ls.len() || i >= fs.len() {
        Seq::empty()
    } else {
        match fs[i] {
            Some(u) => if u.afk_reason is Some && !done.contains(lookup_key(ls[i], u)) {
                seq![i] + notice_scan(ls, fs, i + 1, done.push(lookup_key(ls[i], u)))
            } else {
                notice_scan(ls, fs, i + 1, done)
            },
            None => notice_scan(ls, fs, i + 1, done),
        }
    }
}

pub open spec fn found_model(v: Seq<Option<AfkUser>>) -> Seq<Option<AfkUserModel>> {
    v.map_values(
        |o: Option<AfkUser>|
            match o {
                Some(u) => Some(u@),
                None => None,
            },
    )
}

/// The key of a found entry.
pub open spec fn key_at(ls: Seq<LookupModel>, fs: Seq<Option<AfkUserModel>>, i: int) -> u64 {
    lookup_key(ls[i], fs[i].unwrap())
}

proof fn lemma_notice_scan(ls: Seq<LookupModel>, fs: Seq<Option<AfkUserModel>>, i: int, done: Seq<u64>)
    requires
        0 <= i,
    ensures
        forall|k: int| 0 <= k < notice_scan(ls, fs, i, done).len() ==> {
            let j = #[trigger] notice_scan(ls, fs, i, done)[k];
            &&& i <= j < ls.len()
            &&& j < fs.len()
            &&& fs[j] is Some
            &&& fs[j].unwrap().afk_reason is Some
            &&& !done.contains(key_at(ls, fs, j))
        },
        forall|a: int, b: int|
            0 <= a < b < notice_scan(ls, fs, i, done).len() ==> #[trigger] notice_scan(ls, fs, i, done)[a]
                < #[trigger] notice_scan(ls, fs, i, done)[b] && key_at(
                ls,
                fs,
                notice_scan(ls, fs, i, done)[a],
            ) != key_at(ls, fs, notice_scan(ls, fs, i, done)[b]),
    decreases ls.len() - i,
{
    if i < 0 || i >= ls.len() || i >= fs.len() {
    } else {
        match fs[i] {
            Some(u) => {
                if u.afk_reason is Some && !done.contains(lookup_key(ls[i], u)) {
                    let d2 = done.push(lookup_key(ls[i], u));
                    lemma_notice_scan(ls, fs, i + 1, d2);
                    let tail = notice_scan(ls, fs, i + 1, d2);
                    let all = notice_scan(ls, fs, i, done);
                    assert(all == seq![i] + tail);
                    assert forall|k: int| 0 <= k < all.len() implies {
                        let j = #[trigger] all[k];
                        &&& i <= j < ls.len()
                        &&& j < fs.len()
                        &&& fs[j] is Some
                        &&& fs[j].unwrap().afk_reason is Some
                        &&& !done.contains(key_at(ls, fs, j))
                    } by {
                        if k > 0 {
                            assert(all[k] == tail[k - 1]);
                            let j = tail[k - 1];
                            if done.contains(key_at(ls, fs, j)) {
                                let p = choose|p: int| 0 <= p < done.len() && done[p] == key_at(ls, fs, j);
                                assert(d2[p] == key_at(ls, fs, j));
                                assert(d2.contains(key_at(ls, fs, j)));
                            }
                        }
                    }
                    assert forall|a: int, b: int| 0 <= a < b < all.len() implies #[trigger] all[a]
                        < #[trigger] all[b] && key_at(ls, fs, all[a]) != key_at(ls, fs, all[b]) by {
                        if a == 0 {
                            assert(all[b] == tail[b - 1]);
                            assert(d2[done.len() as int] == key_at(ls, fs, i));
                            assert(d2.contains(key_at(ls, fs, i)));
                        } else {
                            assert(all[a] == tail[a - 1]);
                            assert(all[b] == tail[b - 1]);
                        }
                    }
                } else {
                    lemma_notice_scan(ls, fs, i + 1, done);
                }
            },
            None => {
                lemma_notice_scan(ls, fs, i + 1, done);
            },
        }
    }
}

/// Which looked-up users to tell about, by index into the lookups: each
/// found AFK user once, in order. The ids told about are distinct.
pub fn afk_notice_targets(lookups: &Vec<AfkLookup>, found: &Vec<Option<AfkUser>>) -> (r: Vec<usize>)
    requires
        lookups.len() == found.len(),
    ensures
        r@.map_values(|j: usize| j as int) == notice_scan(
            lookups_model(lookups@),
            found_model(found@),
            0,
            Seq::empty(),
        ),
        forall|a: int, b: int|
            0 <= a < b < r@.len() ==> key_at(lookups_model(lookups@), found_model(found@), #[trigger] r@[a] as int)
                != key_at(lookups_model(lookups@), found_model(found@), #[trigger] r@[b] as int),
{
    let ghost ls = lookups_model(lookups@);
    let ghost fs = found_model(found@);
    let mut r: Vec<usize> = Vec::new();
    let mut done: Vec<u64> = Vec::new();
    let mut i: usize = 0;
    while i < lookups.len()
        invariant
            i <= lookups.len(),
            lookups.len() == found.len(),
            ls == lookups_model(lookups@),
            fs == found_model(found@),
            r@.map_values(|j: usize| j as int) + notice_scan(ls, fs, i as int, done@) == notice_scan(
                ls,
                fs,
                0,
                Seq::empty(),
            ),
        decreases lookups.len() - i,
    {
        let ghost before = r@.map_values(|j: usize| j as int);
        match &found[i] {
            Some(u) => {
                let key: u64 = match &lookups[i] {
                    AfkLookup::Id(id) => *id,
                    AfkLookup::Username(_) => u.user_id,
                };
                assert(fs[i as int] == Some(u@));
                assert(key == lookup_key(ls[i as int], u@));
                let mut seen = false;
                let mut k: usize = 0;
                while k < done.len()
                    invariant
                        k <= done.len(),
                        seen == (exists|p: int| 0 <= p < k && done@[p] == key),
                    decreases done.len() - k,
                {
                    if done[k] == key {
                        seen = true;
                    }
                    k = k + 1;
                }
                assert(seen == done@.contains(key));
                if u.afk_reason.is_some() && !seen {
                    r.push(i);
                    let ghost old_done = done@;
                    done.push(key);
                    assert(r@.map_values(|j: usize| j as int) =~= before.push(i as int));
                    assert(notice_scan(ls, fs, i as int, old_done) == seq![i as int] + notice_scan(
                        ls,
                        fs,
                        i + 1,
                        done@,
                    ));
                    assert(before.push(i as int) + notice_scan(ls, fs, i + 1, done@) =~= before + (
                    seq![i as int] + notice_scan(ls, fs, i + 1, done@)));
                }
            },
            None => {},
        }
        i = i + 1;
    }
    proof {
        lemma_notice_scan(ls, fs, 0, Seq::empty());
        let s = notice_scan(ls, fs, 0, Seq::empty());
        assert(r@.map_values(|j: usize| j as int) =~= s);
        assert forall|a: int, b: int| 0 <= a < b < r@.len() implies key_at(ls, fs, #[trigger] r@[a] as int)
            != key_at(ls, fs, #[trigger] r@[b] as int) by {
            assert(s[a] == r@[a] as int);
            assert(s[b] == r@[b] as int);
        }
    }
    r
}

/// The notice about an AFK user found in the store (`afk.is_afk`, named as
/// the store has it).
pub open spec fn spec_notice_text(user: AfkUserModel, now: i64) -> TextModel {
    afk_text("afk.is_afk"@, user.user_id, user.first_name, user.afk_reason, elapsed(now, user.afk_time))
}

pub fn notice_text(user: &AfkUser, now: i64) -> (t: Text)
    requires
        time_fits(now, user.afk_time),
    ensures
        t@ == spec_notice_text(user@, now),
{
    let secs = elapsed_of(now, user.afk_time);
    afk_text_of("afk.is_afk", user.user_id, &user.first_name, &user.afk_reason, secs)
}

/// `notice_text` at the current time, which is returned with it. The
/// clock is read only when the user's AFK time is known; none when that
/// reading fails (see `now_for`).
pub fn notice_text_now(user: &AfkUser) -> (r: Option<(Text, i64)>)
    ensures
        match r {
            Some((t, now)) => t@ == spec_notice_text(user@, now),
            None => user.afk_time is Some,
        },
{
    match now_for(user.afk_time) {
        Some(now) => Some((notice_text(user, now), now)),
        None => None,
    }
}

} // verus!
