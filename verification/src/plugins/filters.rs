//! Filter command handlers.
//!
//! Commands for managing auto-reply filters in groups.

use vstd::prelude::*;
use crate::markup::{InlineButton, rows_model};
use crate::plugins::common::{
    CommandMsg, Fragment, FragmentModel, Query, Text, TextModel, key_text, key_text1,
    missing_permission, missing_permission_text, plain_text, rest_of, rest_vec,
};
use crate::plugins::media::{
    extract_media, filter_media, opt_clone, opt_view, photo_areas_checked, photo_areas_fit, text_or_caption,
    text_or_caption_of,
};
use crate::text::{
    chars_of, concat_vec, index_of_char, index_of_char_vec, index_of_ws, index_of_ws_vec,
    lowercase, slice_vec, split_on, split_on_vec, starts_with, starts_with_vec, string_of, to_lowercase,
    trim, trim_vec, views,
};
use crate::utils::buttons::split_buttons;
use crate::utils::parser::{ContentTags, html_escape_vec, parse_content, spec_html_escape, spec_parse_tags};

verus! {

/// How a filter's trigger matches a message.
#[derive(Debug, Clone, Copy, PartialEq, Eq, Structural)]
pub enum MatchType {
    Exact,
    Prefix,
    Keyword,
}

/// Trigger and reply: a quoted trigger (`"multi word" reply`), else the
/// first word and the trimmed rest.
pub open spec fn spec_parse_filter_args(args: Seq<char>) -> (Seq<char>, Seq<char>) {
    let t = trim(args);
    let q = index_of_char(t, '"', 1);
    if t.len() > 0 && t[0] == '"' && q < t.len() {
        (t.subrange(1, q), trim(t.skip(q + 1)))
    } else {
        let k = index_of_ws(t, 0);
        (t.take(k), if k < t.len() { trim(t.skip(k + 1)) } else { Seq::empty() })
    }
}

/// Parse filter arguments to extract trigger and reply.
pub fn parse_filter_args(args: &Vec<char>) -> (r: (Vec<char>, Vec<char>))
    ensures
        (r.0@, r.1@) == spec_parse_filter_args(args@),
{
    let t = trim_vec(args);
    if t.len() > 0 && t[0] == '"' {
        let q = index_of_char_vec(&t, '"', 1);
        if q < t.len() {
            let trigger = slice_vec(&t, 1, q);
            let rest = slice_vec(&t, q + 1, t.len());
            assert(rest@ =~= t@.skip(q + 1));
            return (trigger, trim_vec(&rest));
        }
    }
    let k = index_of_ws_vec(&t, 0);
    let trigger = slice_vec(&t, 0, k);
    assert(trigger@ =~= t@.take(k as int));
    let reply = if k < t.len() {
        let rest = slice_vec(&t, k + 1, t.len());
        assert(rest@ =~= t@.skip(k + 1));
        trim_vec(&rest)
    } else {
        Vec::new()
    };
    (trigger, reply)
}

/// The trimmed, non-empty pieces, in order.
pub open spec fn trimmed_nonempty(parts: Seq<Seq<char>>) -> Seq<Seq<char>>
    decreases parts.len(),
{
    if parts.len() == 0 {
        Seq::empty()
    } else {
        let rest = trimmed_nonempty(parts.drop_last());
        let t = trim(parts.last());
        if t.len() == 0 {
            rest
        } else {
            rest.push(t)
        }
    }
}

/// Triggers and reply: a parenthesised list (`(hi, hello) reply`) gives
/// one trigger per comma-separated, trimmed, non-empty item; otherwise the
/// single trigger of `spec_parse_filter_args` (none when it is empty).
pub open spec fn spec_filter_triggers(args: Seq<char>) -> (Seq<Seq<char>>, Seq<char>) {
    let t = trim(args);
    let p = index_of_char(t, ')', 1);
    if t.len() > 0 && t[0] == '(' && p < t.len() {
        (trimmed_nonempty(split_on(t.subrange(1, p), ","@)), trim(t.skip(p + 1)))
    } else {
        let (trigger, reply) = spec_parse_filter_args(args);
        (if trigger.len() == 0 { Seq::empty() } else { seq![trigger] }, reply)
    }
}

fn trimmed_nonempty_vec(parts: &Vec<Vec<char>>) -> (r: Vec<Vec<char>>)
    ensures
        views(r@) == trimmed_nonempty(views(parts@)),
{
    let mut r: Vec<Vec<char>> = Vec::new();
    let mut i: usize = 0;
    assert(views(r@) =~= trimmed_nonempty(views(parts@).take(0)));
    while i < parts.len()
        invariant
            i <= parts.len(),
            views(r@) == trimmed_nonempty(views(parts@).take(i as int)),
        decreases parts.len() - i,
    {
        let ghost o = r@;
        assert(views(parts@).take(i + 1).drop_last() =~= views(parts@).take(i as int));
        assert(views(parts@).take(i + 1).last() == parts@[i as int]@);
        let t = trim_vec(&parts[i]);
        if t.len() > 0 {
            r.push(t);
            assert(views(r@) =~= views(o).push(t@));
        }
        i = i + 1;
    }
    assert(views(parts@).take(parts.len() as int) =~= views(parts@));
    r
}

/// Parse the triggers and the reply of `/filter`.
pub fn parse_filter_triggers(args: &Vec<char>) -> (r: (Vec<Vec<char>>, Vec<char>))
    ensures
        (views(r.0@), r.1@) == spec_filter_triggers(args@),
{
    proof {
        reveal_strlit(",");
    }
    let t = trim_vec(args);
    if t.len() > 0 && t[0] == '(' {
        let p = index_of_char_vec(&t, ')', 1);
        if p < t.len() {
            let inner = slice_vec(&t, 1, p);
            let parts = split_on_vec(&inner, &chars_of(","));
            let triggers = trimmed_nonempty_vec(&parts);
            let rest = slice_vec(&t, p + 1, t.len());
            assert(rest@ =~= t@.skip(p + 1));
            return (triggers, trim_vec(&rest));
        }
    }
    let (trigger, reply) = parse_filter_args(args);
    let mut triggers: Vec<Vec<char>> = Vec::new();
    if trigger.len() > 0 {
        triggers.push(trigger);
    }
    assert(views(triggers@) =~= (if trigger@.len() == 0 { Seq::empty() } else { seq![trigger@] }));
    (triggers, reply)
}

/// `exact:` and `prefix:` prefixes choose the match type; otherwise a
/// keyword match.
pub open spec fn spec_trigger_type(trigger: Seq<char>) -> (Seq<char>, MatchType) {
    if starts_with(trigger, "exact:"@) {
        (trigger.skip(6), MatchType::Exact)
    } else if starts_with(trigger, "prefix:"@) {
        (trigger.skip(7), MatchType::Prefix)
    } else {
        (trigger, MatchType::Keyword)
    }
}

/// Parse trigger type from prefix.
pub fn parse_trigger_type(trigger: &Vec<char>) -> (r: (Vec<char>, MatchType))
    ensures
        (r.0@, r.1) == spec_trigger_type(trigger@),
{
    proof {
        reveal_strlit("exact:");
        reveal_strlit("prefix:");
    }
    if starts_with_vec(trigger, &chars_of("exact:")) {
        let r = slice_vec(trigger, 6, trigger.len());
        assert(r@ =~= trigger@.skip(6));
        (r, MatchType::Exact)
    } else if starts_with_vec(trigger, &chars_of("prefix:")) {
        let r = slice_vec(trigger, 7, trigger.len());
        assert(r@ =~= trigger@.skip(7));
        (r, MatchType::Prefix)
    } else {
        (trigger.clone(), MatchType::Keyword)
    }
}

/// A filter to save.
#[derive(Debug, Clone, PartialEq, Eq)]
pub struct FilterDraft {
    pub trigger: String,
    pub match_type: MatchType,
    pub reply: String,
    pub buttons: Vec<Vec<InlineButton>>,
    pub media_file_id: Option<String>,
    pub media_type: Option<String>,
    pub admin_only: bool,
    pub user_only: bool,
    pub protect: bool,
    pub replytag: bool,
}

#[derive(Debug, Clone, PartialEq, Eq)]
pub enum FilterOutcome {
    Ask(Query),
    /// Reply to the command (as HTML when set) and stop.
    Reply(Text, bool),
    /// Save the filters (one per trigger), then reply (HTML) with the text.
    Save(Vec<FilterDraft>, Text),
}

/// The reply text of a filter: the given reply, else (when replying to a
/// message) that message's text or caption.
pub open spec fn filter_reply_text(m: CommandMsg, reply: Seq<char>) -> Seq<char> {
    if reply.len() == 0 {
        match m.reply {
            Some(r) => match text_or_caption(r.content) {
                Some(t) => t,
                None => Seq::empty(),
            },
            None => reply,
        }
    } else {
        reply
    }
}

pub open spec fn message_media(m: CommandMsg) -> (Option<Seq<char>>, Option<Seq<char>>) {
    match m.reply {
        Some(r) => filter_media(r.content),
        None => (None, None),
    }
}

pub open spec fn reply_photos_fit(m: CommandMsg) -> bool {
    match m.reply {
        Some(r) => photo_areas_fit(r.content),
        None => true,
    }
}

/// `/filter` gets as far as reading the replied message's media: in a
/// group, for a permitted sender, with arguments that name a trigger.
pub open spec fn filter_reads_media(m: CommandMsg, can_change_info: Option<bool>) -> bool {
    m.in_group && can_change_info == Some(true) && rest_of(m).len() > 0
        && spec_filter_triggers(rest_of(m)).0.len() > 0
}

/// Whether the replied message's photo sizes, where `/filter` reads them,
/// can be compared without overflow.
pub fn filter_media_fits(m: &CommandMsg, can_change_info: Option<bool>) -> (b: bool)
    ensures
        b == (filter_reads_media(*m, can_change_info) ==> reply_photos_fit(*m)),
{
    if m.in_group && can_change_info == Some(true) {
        let args = rest_vec(m);
        if args.len() > 0 {
            let (triggers, _) = parse_filter_triggers(&args);
            if triggers.len() > 0 {
                return match &m.reply {
                    Some(rp) => photo_areas_checked(&rp.content),
                    None => true,
                };
            }
        }
    }
    true
}

pub struct FilterDraftModel {
    pub trigger: Seq<char>,
    pub match_type: MatchType,
    pub reply: Seq<char>,
    pub buttons: Seq<Seq<crate::markup::ButtonModel>>,
    pub media_file_id: Option<Seq<char>>,
    pub media_type: Option<Seq<char>>,
    pub tags: ContentTags,
}

pub enum FilterModel {
    Ask(Query),
    Reply(TextModel, bool),
    Save(Seq<FilterDraftModel>, TextModel),
}

impl View for FilterDraft {
    type V = FilterDraftModel;

    open spec fn view(&self) -> FilterDraftModel {
        FilterDraftModel {
            trigger: self.trigger@,
            match_type: self.match_type,
            reply: self.reply@,
            buttons: rows_model(self.buttons@),
            media_file_id: opt_view(self.media_file_id),
            media_type: opt_view(self.media_type),
            tags: ContentTags {
                admin_only: self.admin_only,
                user_only: self.user_only,
                is_private: false,
                no_private: false,
                protect: self.protect,
                preview: false,
                no_notif: false,
                media_spoiler: false,
                replytag: self.replytag,
            },
        }
    }
}

impl View for FilterOutcome {
    type V = FilterModel;

    open spec fn view(&self) -> FilterModel {
        match self {
            FilterOutcome::Ask(q) => FilterModel::Ask(*q),
            FilterOutcome::Reply(t, h) => FilterModel::Reply(t@, *h),
            FilterOutcome::Save(ds, t) => FilterModel::Save(ds@.map_values(|d: FilterDraft| d@), t@),
        }
    }
}

/// The tags a filter keeps.
pub open spec fn kept_tags(t: ContentTags) -> ContentTags {
    ContentTags {
        admin_only: t.admin_only,
        user_only: t.user_only,
        is_private: false,
        no_private: false,
        protect: t.protect,
        preview: false,
        no_notif: false,
        media_spoiler: false,
        replytag: t.replytag,
    }
}

/// The filter saved for one trigger: its match type and lower-cased text
/// from the trigger's prefix, the reply with buttons and tags taken out,
/// and the replied message's media.
pub open spec fn filter_draft(
    trigger: Seq<char>,
    final_reply: Seq<char>,
    media: (Option<Seq<char>>, Option<Seq<char>>),
) -> FilterDraftModel {
    let (clean, match_type) = spec_trigger_type(trigger);
    let (text, rows) = split_buttons(final_reply, false);
    let (tagless, tags) = spec_parse_tags(text);
    FilterDraftModel {
        trigger: lowercase(clean),
        match_type,
        reply: trim(tagless),
        buttons: rows,
        media_file_id: media.0,
        media_type: media.1,
        tags: kept_tags(tags),
    }
}

/// The triggers named in the confirmation: each without its match-type
/// prefix, HTML-escaped, separated by `, `.
pub open spec fn added_triggers(triggers: Seq<Seq<char>>) -> Seq<char>
    decreases triggers.len(),
{
    if triggers.len() == 0 {
        Seq::empty()
    } else if triggers.len() == 1 {
        spec_html_escape(spec_trigger_type(triggers[0]).0)
    } else {
        added_triggers(triggers.drop_last()) + ", "@ + spec_html_escape(spec_trigger_type(triggers.last()).0)
    }
}

/// What `/filter` does, given the sender's right to change chat info.
pub open spec fn spec_filter(m: CommandMsg, can_change_info: Option<bool>) -> FilterModel {
    if !m.in_group {
        FilterModel::Reply(TextModel::Plain("⚠️ Perintah ini hanya untuk grup."@), false)
    } else {
        match can_change_info {
            None => FilterModel::Ask(Query::CanChangeInfo),
            Some(false) => FilterModel::Reply(missing_permission("CanChangeInfo"@), false),
            Some(true) => {
                let args = rest_of(m);
                if args.len() == 0 {
                    FilterModel::Reply(TextModel::Key("help.filters_text"@, Seq::empty()), true)
                } else {
                    let (triggers, reply) = spec_filter_triggers(args);
                    let media = message_media(m);
                    let final_reply = filter_reply_text(m, reply);
                    if triggers.len() == 0 {
                        FilterModel::Reply(TextModel::Key("filters.error_empty_trigger"@, Seq::empty()), false)
                    } else if final_reply.len() == 0 && media.0 is None {
                        FilterModel::Reply(TextModel::Key("filters.error_empty_reply"@, Seq::empty()), false)
                    } else {
                        FilterModel::Save(
                            Seq::new(triggers.len(), |i: int| filter_draft(triggers[i], final_reply, media)),
                            TextModel::Key(
                                "filters.added"@,
                                seq![("{trigger}"@, FragmentModel::Plain(added_triggers(triggers)))],
                            ),
                        )
                    }
                }
            },
        }
    }
}

pub fn filter_command(m: &CommandMsg, can_change_info: Option<bool>) -> (r: FilterOutcome)
    requires
        filter_reads_media(*m, can_change_info) ==> reply_photos_fit(*m),
    ensures
        r@ == spec_filter(*m, can_change_info),
{
    if !m.in_group {
        return FilterOutcome::Reply(plain_text("⚠️ Perintah ini hanya untuk grup."), false);
    }
    match can_change_info {
        None => {
            return FilterOutcome::Ask(Query::CanChangeInfo);
        },
        Some(false) => {
            return FilterOutcome::Reply(missing_permission_text("CanChangeInfo"), false);
        },
        Some(true) => {},
    }
    let args = rest_vec(m);
    if args.len() == 0 {
        return FilterOutcome::Reply(key_text("help.filters_text"), true);
    }
    let (triggers, reply) = parse_filter_triggers(&args);
    if triggers.len() == 0 {
        return FilterOutcome::Reply(key_text("filters.error_empty_trigger"), false);
    }
    let (media_file_id, media_type) = match &m.reply {
        Some(rp) => extract_media(&rp.content),
        None => (None, None),
    };
    let ghost media = (opt_view(media_file_id), opt_view(media_type));
    assert(media == message_media(*m));
    let final_reply = if reply.len() == 0 {
        match &m.reply {
            Some(rp) => match text_or_caption_of(&rp.content) {
                Some(t) => chars_of(t.as_str()),
                None => Vec::new(),
            },
            None => reply,
        }
    } else {
        reply
    };
    if final_reply.len() == 0 && media_file_id.is_none() {
        return FilterOutcome::Reply(key_text("filters.error_empty_reply"), false);
    }
    let ghost ts = views(triggers@);
    let reply_string = string_of(&final_reply);
    let mut drafts: Vec<FilterDraft> = Vec::new();
    let mut added: Vec<char> = Vec::new();
    let mut i: usize = 0;
    while i < triggers.len()
        invariant
            i <= triggers.len(),
            ts == views(triggers@),
            reply_string@ == final_reply@,
            media == (opt_view(media_file_id), opt_view(media_type)),
            drafts@.map_values(|d: FilterDraft| d@) =~= Seq::new(
                i as nat,
                |j: int| filter_draft(ts[j], final_reply@, media),
            ),
            added@ == added_triggers(ts.take(i as int)),
        decreases triggers.len() - i,
    {
        let ghost od = drafts@;
        let (clean_trigger, match_type) = parse_trigger_type(&triggers[i]);
        let parsed = parse_content(reply_string.as_str());
        let clean_string = string_of(&clean_trigger);
        let draft = FilterDraft {
            trigger: to_lowercase(clean_string.as_str()),
            match_type,
            reply: parsed.text,
            buttons: parsed.buttons,
            media_file_id: opt_clone(&media_file_id),
            media_type: opt_clone(&media_type),
            admin_only: parsed.tags.admin_only,
            user_only: parsed.tags.user_only,
            protect: parsed.tags.protect,
            replytag: parsed.tags.replytag,
        };
        assert(draft@ == filter_draft(ts[i as int], final_reply@, media));
        let ghost dm = draft@;
        drafts.push(draft);
        assert(drafts@.map_values(|d: FilterDraft| d@) =~= od.map_values(|d: FilterDraft| d@).push(dm));
        assert(ts.take(i + 1).drop_last() =~= ts.take(i as int));
        assert(ts.take(i + 1).last() == ts[i as int]);
        let escaped = html_escape_vec(&clean_trigger);
        if i == 0 {
            added = escaped;
        } else {
            added = concat_vec(&concat_vec(&added, &chars_of(", ")), &escaped);
        }
        i = i + 1;
    }
    assert(ts.take(triggers.len() as int) =~= ts);
    let added_text = key_text1("filters.added", "{trigger}", added);
    FilterOutcome::Save(drafts, added_text)
}

/// `/filters`: the chat's triggers, as HTML.
pub open spec fn filter_lines(ts: Seq<Seq<char>>) -> Seq<FragmentModel>
    decreases ts.len(),
{
    if ts.len() == 0 {
        Seq::empty()
    } else {
        filter_lines(ts.drop_last()).push(
            FragmentModel::Plain("• <code>"@ + spec_html_escape(ts.last()) + "</code>\n"@),
        )
    }
}

pub open spec fn spec_filters_list(ts: Seq<Seq<char>>) -> TextModel {
    if ts.len() == 0 {
        TextModel::Key("filters.none"@, Seq::empty())
    } else {
        TextModel::Concat(
            seq![
                FragmentModel::Key(
                    "filters.list_header"@,
                    seq![("{count}"@, crate::text::dec(ts.len()))],
                ),
            ] + filter_lines(ts) + seq![FragmentModel::Key("filters.list_footer"@, Seq::empty())],
        )
    }
}

pub fn filters_list_text(triggers: &Vec<String>) -> (t: Text)
    ensures
        t@ == spec_filters_list(crate::utils::parser::strings_model(triggers@)),
{
    let ghost ts = crate::utils::parser::strings_model(triggers@);
    if triggers.len() == 0 {
        return key_text("filters.none");
    }
    let mut hp: Vec<(String, String)> = Vec::new();
    hp.push(("{count}".to_owned(), string_of(&crate::text::u64_dec(triggers.len() as u64))));
    assert(crate::plugins::common::pairs_model(hp@) =~= seq![("{count}"@, crate::text::dec(ts.len()))]);
    let mut fs: Vec<Fragment> = Vec::new();
    crate::plugins::common::push_piece(&mut fs, Fragment::Key("filters.list_header".to_owned(), hp));
    let ghost head = crate::plugins::common::fragments_model(fs@);
    let mut i: usize = 0;
    assert(ts.take(0) =~= Seq::<Seq<char>>::empty());
    assert(crate::plugins::common::fragments_model(fs@) =~= head + filter_lines(ts.take(0)));
    while i < triggers.len()
        invariant
            i <= triggers.len(),
            ts == crate::utils::parser::strings_model(triggers@),
            crate::plugins::common::fragments_model(fs@) == head + filter_lines(ts.take(i as int)),
        decreases triggers.len() - i,
    {
        assert(ts.take(i + 1).drop_last() =~= ts.take(i as int));
        assert(ts.take(i + 1).last() == triggers@[i as int]@);
        let line = concat_vec(
            &concat_vec(&chars_of("• <code>"), &html_escape_vec(&chars_of(triggers[i].as_str()))),
            &chars_of("</code>\n"),
        );
        crate::plugins::common::push_piece(&mut fs, Fragment::Plain(string_of(&line)));
        assert(crate::plugins::common::fragments_model(fs@) =~= head + filter_lines(ts.take(i + 1)));
        i = i + 1;
    }
    assert(ts.take(triggers.len() as int) =~= ts);
    let empty: Vec<(String, String)> = Vec::new();
    assert(crate::plugins::common::pairs_model(empty@) =~= Seq::<(Seq<char>, Seq<char>)>::empty());
    crate::plugins::common::push_piece(&mut fs, Fragment::Key("filters.list_footer".to_owned(), empty));
    let t = Text::Concat(fs);
    assert(crate::plugins::common::fragments_model(fs@) =~= seq![
        FragmentModel::Key("filters.list_header"@, seq![("{count}"@, crate::text::dec(ts.len()))]),
    ] + filter_lines(ts) + seq![FragmentModel::Key("filters.list_footer"@, Seq::empty())]);
    t
}

/// What the filter list and removal commands do.
#[derive(Debug, Clone, PartialEq, Eq)]
pub enum FilterAdminOutcome {
    /// Reply to the command with the text (as HTML when the flag is set).
    Reply(Text, bool),
    Ask(Query),
    /// Read the chat's triggers and reply with `filters_list_text` (HTML).
    LoadTriggers,
    /// Delete the filter of this trigger, then reply with `stopped_reply`.
    Delete(String),
    /// Delete every filter of the chat, then reply with
    /// `stopped_all_reply` of how many there were.
    DeleteAll,
}

pub enum FilterAdminModel {
    Reply(TextModel, bool),
    Ask(Query),
    LoadTriggers,
    Delete(Seq<char>),
    DeleteAll,
}

impl View for FilterAdminOutcome {
    type V = FilterAdminModel;

    open spec fn view(&self) -> FilterAdminModel {
        match self {
            FilterAdminOutcome::Reply(t, h) => FilterAdminModel::Reply(t@, *h),
            FilterAdminOutcome::Ask(q) => FilterAdminModel::Ask(*q),
            FilterAdminOutcome::LoadTriggers => FilterAdminModel::LoadTriggers,
            FilterAdminOutcome::Delete(t) => FilterAdminModel::Delete(t@),
            FilterAdminOutcome::DeleteAll => FilterAdminModel::DeleteAll,
        }
    }
}

pub open spec fn group_only_reply() -> FilterAdminModel {
    FilterAdminModel::Reply(TextModel::Plain("⚠️ Perintah ini hanya untuk grup."@), false)
}

/// /filters: in groups, the chat's triggers.
pub fn filters_command(m: &CommandMsg) -> (r: FilterAdminOutcome)
    ensures
        r@ == if m.in_group {
            FilterAdminModel::LoadTriggers
        } else {
            group_only_reply()
        },
{
    if !m.in_group {
        FilterAdminOutcome::Reply(plain_text("⚠️ Perintah ini hanya untuk grup."), false)
    } else {
        FilterAdminOutcome::LoadTriggers
    }
}

/// /stop <trigger>: members who may change the chat's info remove the
/// filter of the trigger (the trimmed text after the command).
pub open spec fn spec_stop(m: CommandMsg, can_change: Option<bool>) -> FilterAdminModel {
    if !m.in_group {
        group_only_reply()
    } else {
        match can_change {
            None => FilterAdminModel::Ask(Query::CanChangeInfo),
            Some(false) => FilterAdminModel::Reply(missing_permission("CanChangeInfo"@), false),
            Some(true) => if rest_of(m).len() == 0 {
                FilterAdminModel::Reply(TextModel::Key("filters.stop_usage"@, Seq::empty()), true)
            } else {
                FilterAdminModel::Delete(rest_of(m))
            },
        }
    }
}

pub fn stop_command(m: &CommandMsg, can_change: Option<bool>) -> (r: FilterAdminOutcome)
    ensures
        r@ == spec_stop(*m, can_change),
{
    if !m.in_group {
        return FilterAdminOutcome::Reply(plain_text("⚠️ Perintah ini hanya untuk grup."), false);
    }
    match can_change {
        None => FilterAdminOutcome::Ask(Query::CanChangeInfo),
        Some(false) => FilterAdminOutcome::Reply(missing_permission_text("CanChangeInfo"), false),
        Some(true) => {
            let t = rest_vec(m);
            if t.len() == 0 {
                FilterAdminOutcome::Reply(key_text("filters.stop_usage"), true)
            } else {
                FilterAdminOutcome::Delete(string_of(&t))
            }
        },
    }
}

/// The answer after removing a filter (HTML): the escaped trigger, as
/// deleted or as not found.
pub fn stopped_reply(deleted: bool, trigger: &str) -> (t: Text)
    ensures
        t@ == TextModel::Key(
            if deleted {
                "filters.deleted"@
            } else {
                "filters.not_found"@
            },
            seq![("{trigger}"@, FragmentModel::Plain(spec_html_escape(trigger@)))],
        ),
{
    let key = if deleted {
        "filters.deleted"
    } else {
        "filters.not_found"
    };
    key_text1(key, "{trigger}", html_escape_vec(&chars_of(trigger)))
}

/// /stopall: the chat's owner removes every filter.
pub open spec fn spec_stopall(m: CommandMsg, is_owner: Option<bool>) -> FilterAdminModel {
    if !m.in_group {
        group_only_reply()
    } else {
        match is_owner {
            None => FilterAdminModel::Ask(Query::SenderIsOwner),
            Some(false) => FilterAdminModel::Reply(missing_permission("GroupOwner"@), false),
            Some(true) => FilterAdminModel::DeleteAll,
        }
    }
}

pub fn stopall_command(m: &CommandMsg, is_owner: Option<bool>) -> (r: FilterAdminOutcome)
    ensures
        r@ == spec_stopall(*m, is_owner),
{
    if !m.in_group {
        return FilterAdminOutcome::Reply(plain_text("⚠️ Perintah ini hanya untuk grup."), false);
    }
    match is_owner {
        None => FilterAdminOutcome::Ask(Query::SenderIsOwner),
        Some(false) => FilterAdminOutcome::Reply(missing_permission_text("GroupOwner"), false),
        Some(true) => FilterAdminOutcome::DeleteAll,
    }
}

/// The answer after removing every filter: how many there were.
pub fn stopped_all_reply(count: usize) -> (t: Text)
    ensures
        t@ == TextModel::Key(
            "filters.deleted_all"@,
            seq![("{count}"@, FragmentModel::Plain(crate::text::dec(count as nat)))],
        ),
{
    key_text1("filters.deleted_all", "{count}", crate::text::u64_dec(count as u64))
}

} // verus!
