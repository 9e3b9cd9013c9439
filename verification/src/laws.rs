//! Properties of the library as a whole: what parsing and formatting keep,
//! what one operation undoes of another, and what every answer satisfies.

use vstd::prelude::*;
use crate::text::{
    all_digits, dec, digit_char, digits_value, is_digit, is_ws, parse_unsigned, replace_all, trim,
    trim_end, trim_start,
};
use crate::utils::md_special;
use crate::utils::parser::{spec_html_escape, spec_parse_duration, spec_random_parts, unit_secs};
use crate::utils::spec_escape_markdown;
use crate::markup::ButtonModel;
use crate::text::{ascii_fold, contains, lower_eq, occurs_at};
use crate::utils::buttons::{
    button_at, button_open, close_row, find_close, find_label_end, join_same,
    lemma_button_at_advances, same_at, scan_buttons, split_buttons,
};
use crate::utils::note_parser::{NoteTags, spec_note_tags};
use crate::utils::parser::tag_step;
use crate::markup::{ActionModel, url_accepted, url_rows};
use crate::plugins::antiflood::{AntifloodConfig, FloodModel, spec_antiflood, spec_setflood, spec_setfloodpenalty};
use crate::plugins::common::{CommandMsg, TextModel};
use crate::plugins::help::{Section, callback_section, page_model, section_named};
use crate::plugins::warn::{
    RemovalRequestModel, WarnAction, WarnConfig, WarnVerdictModel, remove_callback_data,
    spec_removal_request, spec_warn_verdict, warnings_kept,
};
use crate::text::{dec_int, parse_signed, split_on, split_scan};
use crate::plugins::purge::{
    PurgeModel, purgeto_ids, purgeto_reads_mark, spec_del, spec_purge, spec_purgefrom, spec_purgeto,
};
use crate::plugins::admin::{AdminModel, spec_admin_change};
use crate::plugins::ban::{BanMode, BanModel, spec_ban};
use crate::plugins::mute::{MuteMode, MuteModel, spec_mute};
use crate::plugins::warn::{
    ClearAllModel, RemovalKind, RemovalStartModel, SettingModel, WarnSetting, WarnStartModel, spec_clear_all,
    spec_removal_start, spec_setting, spec_warn_start,
};
use crate::plugins::pin::{PinModel, spec_permapin, spec_pin, spec_unpin, spec_unpinall};
use crate::plugins::approval::{ApprovalModel, spec_approve, spec_unapprove, spec_unapproveall};
use crate::plugins::common::{args_of, text_of};
use crate::plugins::media::opt_view;
use crate::plugins::notes::{
    NoteOutcomeModel, hashtag_word, is_note_call, note_content, spec_get_note, spec_hashtag_note, spec_save_note,
    strip_ats_hash,
};
use crate::plugins::rules::{RulesOutcomeModel, rules_link, spec_rules_deeplink};
use crate::plugins::start::{StartRouteModel, spec_start_route};
use crate::text::{lowercase, scan_words, words, starts_with};
use crate::utils::parser::spec_rules_url;
use crate::utils::parser::{ContentTags, no_content_tags, spec_apply_fillings, spec_parse_tags};
use crate::markup::UserModel;
use crate::utils::target::{TargetModel, TextMention, spec_resolve_target};
use crate::plugins::filters::{FilterModel, filter_reply_text, spec_filter, spec_filter_triggers};
use crate::plugins::common::rest_of;
use crate::plugins::warn::{Penalty, WarnMode};
use crate::plugins::antiflood::FloodPenalty;

verus! {

proof fn lemma_trim_start_shape(s: Seq<char>)
    ensures
        trim_start(s).len() == 0 || !is_ws(trim_start(s)[0]),
        trim_start(s).len() <= s.len(),
        trim_start(s) == s.skip(s.len() - trim_start(s).len()),
    decreases s.len(),
{
    if s.len() > 0 && is_ws(s[0]) {
        lemma_trim_start_shape(s.drop_first());
        assert(s.drop_first().skip(s.drop_first().len() - trim_start(s.drop_first()).len()) =~= s.skip(
            s.len() - trim_start(s).len(),
        ));
    } else {
        assert(s.skip(0) =~= s);
    }
}

proof fn lemma_trim_end_shape(s: Seq<char>)
    ensures
        trim_end(s).len() == 0 || !is_ws(trim_end(s).last()),
        trim_end(s).len() <= s.len(),
        trim_end(s) == s.take(trim_end(s).len() as int),
    decreases s.len(),
{
    if s.len() > 0 && is_ws(s.last()) {
        lemma_trim_end_shape(s.drop_last());
        assert(s.drop_last().take(trim_end(s.drop_last()).len() as int) =~= s.take(
            trim_end(s).len() as int,
        ));
    } else {
        assert(s.take(s.len() as int) =~= s);
    }
}

/// Text that neither starts nor ends with whitespace is its own trim.
pub proof fn lemma_trim_of_trimmed(s: Seq<char>)
    requires
        s.len() == 0 || (!is_ws(s[0]) && !is_ws(s.last())),
    ensures
        trim(s) == s,
{
}

/// Trimming twice is trimming once.
pub proof fn law_trim_idempotent(s: Seq<char>)
    ensures
        trim(trim(s)) == trim(s),
{
    lemma_trim_start_shape(s);
    let t = trim_start(s);
    lemma_trim_end_shape(t);
    let r = trim_end(t);
    if r.len() > 0 {
        assert(r[0] == t[0]);
    }
    lemma_trim_of_trimmed(r);
}

/// Every random part of a content is non-empty and already trimmed.
pub proof fn law_random_parts_trimmed(s: Seq<char>)
    ensures
        forall|i: int|
            0 <= i < spec_random_parts(s).len() ==> #[trigger] spec_random_parts(s)[i].len() > 0
                && trim(spec_random_parts(s)[i]) == spec_random_parts(s)[i],
{
    let pieces = crate::text::split_on(s, "%%%"@);
    let trimmed = pieces.map_values(|p: Seq<char>| trim(p));
    let keep = |p: Seq<char>| p.len() > 0;
    let parts = trimmed.filter(keep);
    assert(parts == spec_random_parts(s));
    assert forall|i: int| 0 <= i < parts.len() implies #[trigger] parts[i].len() > 0 && trim(parts[i])
        == parts[i] by {
        trimmed.lemma_filter_pred(keep, i);
        assert(parts.contains(parts[i]));
        trimmed.lemma_filter_contains_rev(keep, parts[i]);
        let j = choose|j: int| 0 <= j < trimmed.len() && trimmed[j] == parts[i];
        assert(trimmed[j] == trim(pieces[j]));
        law_trim_idempotent(pieces[j]);
    }
}

proof fn lemma_replace_single_removes(t: Seq<char>, c: char, rep: Seq<char>)
    requires
        forall|k: int| 0 <= k < rep.len() ==> rep[k] != c,
    ensures
        forall|k: int| 0 <= k < replace_all(t, seq![c], rep).len() ==> #[trigger] replace_all(t, seq![c], rep)[k] != c,
    decreases t.len(),
{
    let pat = seq![c];
    let r = replace_all(t, pat, rep);
    if t.len() < 1 {
    } else if t.take(1) == pat {
        let rest = replace_all(t.skip(1), pat, rep);
        lemma_replace_single_removes(t.skip(1), c, rep);
        assert(r == rep + rest);
        assert forall|k: int| 0 <= k < r.len() implies #[trigger] r[k] != c by {
            if k >= rep.len() {
                assert(r[k] == rest[k - rep.len()]);
            }
        }
    } else {
        assert(t.take(1)[0] == t[0]);
        if t[0] == c {
            assert(t.take(1) =~= pat);
        }
        let rest = replace_all(t.drop_first(), pat, rep);
        lemma_replace_single_removes(t.drop_first(), c, rep);
        assert(r == seq![t[0]] + rest);
        assert forall|k: int| 0 <= k < r.len() implies #[trigger] r[k] != c by {
            if k >= 1 {
                assert(r[k] == rest[k - 1]);
            }
        }
    }
}

proof fn lemma_replace_keeps_absent(t: Seq<char>, pat: Seq<char>, rep: Seq<char>, c: char)
    requires
        forall|k: int| 0 <= k < t.len() ==> t[k] != c,
        forall|k: int| 0 <= k < rep.len() ==> rep[k] != c,
    ensures
        forall|k: int| 0 <= k < replace_all(t, pat, rep).len() ==> #[trigger] replace_all(t, pat, rep)[k] != c,
    decreases t.len(),
{
    let r = replace_all(t, pat, rep);
    if pat.len() == 0 || t.len() < pat.len() {
    } else if t.take(pat.len() as int) == pat {
        let rest = replace_all(t.skip(pat.len() as int), pat, rep);
        lemma_replace_keeps_absent(t.skip(pat.len() as int), pat, rep, c);
        assert(r == rep + rest);
        assert forall|k: int| 0 <= k < r.len() implies #[trigger] r[k] != c by {
            if k >= rep.len() {
                assert(r[k] == rest[k - rep.len()]);
            }
        }
    } else {
        let rest = replace_all(t.drop_first(), pat, rep);
        lemma_replace_keeps_absent(t.drop_first(), pat, rep, c);
        assert(r == seq![t[0]] + rest);
        assert forall|k: int| 0 <= k < r.len() implies #[trigger] r[k] != c by {
            if k >= 1 {
                assert(r[k] == rest[k - 1]);
            }
        }
    }
}

/// Replacing in a text that starts with the pattern: the replacement,
/// then the rest replaced.
proof fn lemma_replace_at_match(pat: Seq<char>, rest: Seq<char>, rep: Seq<char>)
    requires
        pat.len() > 0,
    ensures
        replace_all(pat + rest, pat, rep) == rep + replace_all(rest, pat, rep),
{
    assert((pat + rest).take(pat.len() as int) =~= pat);
    assert((pat + rest).skip(pat.len() as int) =~= rest);
}

/// Replacing in a text that does not start with an occurrence: its first
/// character, then the rest replaced.
proof fn lemma_replace_no_match(s: Seq<char>, pat: Seq<char>, rep: Seq<char>)
    requires
        s.len() > 0,
        pat.len() > 0,
        !(s.len() >= pat.len() && s.take(pat.len() as int) == pat),
    ensures
        replace_all(s, pat, rep) == seq![s[0]] + replace_all(s.drop_first(), pat, rep),
{
    if s.len() < pat.len() {
        assert(replace_all(s.drop_first(), pat, rep) == s.drop_first());
        assert(seq![s[0]] + s.drop_first() =~= s);
    }
}

/// A prefix that holds no first character of the pattern passes unchanged.
proof fn lemma_replace_skips_prefix(p: Seq<char>, rest: Seq<char>, pat: Seq<char>, rep: Seq<char>)
    requires
        pat.len() > 0,
        forall|i: int| 0 <= i < p.len() ==> p[i] != pat[0],
    ensures
        replace_all(p + rest, pat, rep) == p + replace_all(rest, pat, rep),
    decreases p.len(),
{
    let s = p + rest;
    if p.len() > 0 {
        assert(s[0] == p[0]);
        if s.len() >= pat.len() {
            assert(s.take(pat.len() as int)[0] != pat[0]);
        }
        lemma_replace_no_match(s, pat, rep);
        assert(s.drop_first() =~= p.drop_first() + rest);
        lemma_replace_skips_prefix(p.drop_first(), rest, pat, rep);
        assert(seq![p[0]] + (p.drop_first() + replace_all(rest, pat, rep)) =~= p + replace_all(rest, pat, rep));
    } else {
        assert(s =~= rest);
        assert(p + replace_all(rest, pat, rep) =~= replace_all(rest, pat, rep));
    }
}

/// A text that differs from the pattern at some index `j`, and holds the
/// pattern's first character only at its start, passes unchanged.
proof fn lemma_replace_skips_mismatch(e: Seq<char>, rest: Seq<char>, pat: Seq<char>, rep: Seq<char>, j: int)
    requires
        0 <= j < e.len(),
        j < pat.len(),
        e[j] != pat[j],
        forall|i: int| 1 <= i < e.len() ==> e[i] != pat[0],
    ensures
        replace_all(e + rest, pat, rep) == e + replace_all(rest, pat, rep),
{
    let s = e + rest;
    if s.len() >= pat.len() {
        assert(s.take(pat.len() as int)[j] != pat[j]);
    }
    lemma_replace_no_match(s, pat, rep);
    assert(s.drop_first() =~= e.drop_first() + rest);
    lemma_replace_skips_prefix(e.drop_first(), rest, pat, rep);
    assert(seq![e[0]] + (e.drop_first() + replace_all(rest, pat, rep)) =~= e + replace_all(rest, pat, rep));
}

/// An entity other than the pattern, which shares the pattern's first
/// character only at its start, passes unchanged.
proof fn lemma_replace_skips_entity(e: Seq<char>, rest: Seq<char>, pat: Seq<char>, rep: Seq<char>)
    requires
        e.len() >= 2,
        pat.len() >= 2,
        e[1] != pat[1],
        forall|i: int| 1 <= i < e.len() ==> e[i] != pat[0],
    ensures
        replace_all(e + rest, pat, rep) == e + replace_all(rest, pat, rep),
{
    let s = e + rest;
    if s.len() >= pat.len() {
        assert(s.take(pat.len() as int)[1] != pat[1]);
    }
    lemma_replace_no_match(s, pat, rep);
    assert(s.drop_first() =~= e.drop_first() + rest);
    lemma_replace_skips_prefix(e.drop_first(), rest, pat, rep);
    assert(seq![e[0]] + (e.drop_first() + replace_all(rest, pat, rep)) =~= e + replace_all(rest, pat, rep));
}

pub open spec fn amp_entity() -> Seq<char> {
    seq!['&', 'a', 'm', 'p', ';']
}

pub open spec fn lt_entity() -> Seq<char> {
    seq!['&', 'l', 't', ';']
}

pub open spec fn gt_entity() -> Seq<char> {
    seq!['&', 'g', 't', ';']
}

/// Each character escaped on its own, except `<` (when `lt_kept`) and `>`
/// (when `gt_kept`), which stay as they are.
pub open spec fn partly_escaped(s: Seq<char>, lt_kept: bool, gt_kept: bool) -> Seq<char>
    decreases s.len(),
{
    if s.len() == 0 {
        Seq::empty()
    } else {
        let c = s[0];
        let piece = if c == '&' {
            amp_entity()
        } else if c == '<' && !lt_kept {
            lt_entity()
        } else if c == '>' && !gt_kept {
            gt_entity()
        } else {
            seq![c]
        };
        piece + partly_escaped(s.drop_first(), lt_kept, gt_kept)
    }
}

/// `&`, `<` or `>` entity starting at `k`.
pub open spec fn starts_entity(e: Seq<char>, k: int) -> bool {
    ||| k + 5 <= e.len() && e.subrange(k, k + 5) == amp_entity()
    ||| k + 4 <= e.len() && e.subrange(k, k + 4) == lt_entity()
    ||| k + 4 <= e.len() && e.subrange(k, k + 4) == gt_entity()
}

/// The three replacements of HTML escaping amount to escaping each
/// character on its own.
proof fn lemma_html_escape_each(s: Seq<char>)
    ensures
        spec_html_escape(s) == partly_escaped(s, false, false),
    decreases s.len(),
{
    let amp1 = seq!['&'];
    let lt1 = seq!['<'];
    let gt1 = seq!['>'];
    if s.len() > 0 {
        let c = s[0];
        let rest = s.drop_first();
        assert(s =~= seq![c] + rest);
        let r1 = replace_all(rest, amp1, amp_entity());
        let p1 = if c == '&' { amp_entity() } else { seq![c] };
        if c == '&' {
            assert(seq![c] =~= amp1);
            lemma_replace_at_match(amp1, rest, amp_entity());
        } else {
            lemma_replace_skips_prefix(seq![c], rest, amp1, amp_entity());
        }
        assert(replace_all(s, amp1, amp_entity()) == p1 + r1);
        let r2 = replace_all(r1, lt1, lt_entity());
        let p2 = if c == '<' { lt_entity() } else { p1 };
        if c == '<' {
            assert(p1 =~= lt1);
            lemma_replace_at_match(lt1, r1, lt_entity());
        } else {
            lemma_replace_skips_prefix(p1, r1, lt1, lt_entity());
        }
        let r3 = replace_all(r2, gt1, gt_entity());
        if c == '>' {
            assert(p2 =~= gt1);
            lemma_replace_at_match(gt1, r2, gt_entity());
        } else {
            lemma_replace_skips_prefix(p2, r2, gt1, gt_entity());
        }
        lemma_html_escape_each(rest);
    } else {
        assert(replace_all(s, amp1, amp_entity()) == s);
    }
}

proof fn lemma_escaped_amps(s: Seq<char>)
    ensures
        forall|k: int|
            0 <= k < partly_escaped(s, false, false).len() && #[trigger] partly_escaped(s, false, false)[k]
                == '&' ==> starts_entity(partly_escaped(s, false, false), k),
    decreases s.len(),
{
    if s.len() > 0 {
        let c = s[0];
        let r = partly_escaped(s.drop_first(), false, false);
        let e = partly_escaped(s, false, false);
        let p = if c == '&' {
            amp_entity()
        } else if c == '<' {
            lt_entity()
        } else if c == '>' {
            gt_entity()
        } else {
            seq![c]
        };
        assert(e == p + r);
        lemma_escaped_amps(s.drop_first());
        assert forall|k: int| 0 <= k < e.len() && #[trigger] e[k] == '&' implies starts_entity(e, k) by {
            if k < p.len() {
                assert(k == 0);
                assert(e.subrange(0, p.len() as int) =~= p);
            } else {
                let j = k - p.len();
                assert(e[k] == r[j]);
                assert(starts_entity(r, j));
                if j + 5 <= r.len() {
                    assert(e.subrange(k, k + 5) =~= r.subrange(j, j + 5));
                }
                if j + 4 <= r.len() {
                    assert(e.subrange(k, k + 4) =~= r.subrange(j, j + 4));
                }
            }
        }
    }
}

proof fn lemma_unescape_lt(s: Seq<char>)
    ensures
        replace_all(partly_escaped(s, false, false), lt_entity(), seq!['<']) == partly_escaped(s, true, false),
    decreases s.len(),
{
    if s.len() > 0 {
        let c = s[0];
        let x = partly_escaped(s.drop_first(), false, false);
        lemma_unescape_lt(s.drop_first());
        if c == '&' {
            lemma_replace_skips_entity(amp_entity(), x, lt_entity(), seq!['<']);
        } else if c == '<' {
            lemma_replace_at_match(lt_entity(), x, seq!['<']);
        } else if c == '>' {
            lemma_replace_skips_entity(gt_entity(), x, lt_entity(), seq!['<']);
        } else {
            lemma_replace_skips_prefix(seq![c], x, lt_entity(), seq!['<']);
        }
    } else {
        assert(replace_all(Seq::<char>::empty(), lt_entity(), seq!['<']) == Seq::<char>::empty());
    }
}

proof fn lemma_unescape_gt(s: Seq<char>)
    ensures
        replace_all(partly_escaped(s, true, false), gt_entity(), seq!['>']) == partly_escaped(s, true, true),
    decreases s.len(),
{
    if s.len() > 0 {
        let c = s[0];
        let x = partly_escaped(s.drop_first(), true, false);
        lemma_unescape_gt(s.drop_first());
        if c == '&' {
            lemma_replace_skips_entity(amp_entity(), x, gt_entity(), seq!['>']);
        } else if c == '>' {
            lemma_replace_at_match(gt_entity(), x, seq!['>']);
        } else {
            lemma_replace_skips_prefix(seq![c], x, gt_entity(), seq!['>']);
        }
    } else {
        assert(replace_all(Seq::<char>::empty(), gt_entity(), seq!['>']) == Seq::<char>::empty());
    }
}

proof fn lemma_unescape_amp(s: Seq<char>)
    ensures
        replace_all(partly_escaped(s, true, true), amp_entity(), seq!['&']) == s,
    decreases s.len(),
{
    if s.len() > 0 {
        let c = s[0];
        let x = partly_escaped(s.drop_first(), true, true);
        lemma_unescape_amp(s.drop_first());
        if c == '&' {
            lemma_replace_at_match(amp_entity(), x, seq!['&']);
        } else {
            lemma_replace_skips_prefix(seq![c], x, amp_entity(), seq!['&']);
        }
        assert(seq![c] + s.drop_first() =~= s);
    } else {
        assert(replace_all(Seq::<char>::empty(), amp_entity(), seq!['&']) =~= s);
    }
}

/// HTML escaping loses nothing: every `&` it leaves starts `&amp;`, `&lt;`
/// or `&gt;`, and replacing `&lt;`, then `&gt;`, then `&amp;` back gives
/// the text again.
pub proof fn law_html_escape_round_trip(s: Seq<char>)
    ensures
        forall|k: int|
            0 <= k < spec_html_escape(s).len() && #[trigger] spec_html_escape(s)[k] == '&' ==> starts_entity(
                spec_html_escape(s),
                k,
            ),
        replace_all(
            replace_all(replace_all(spec_html_escape(s), lt_entity(), seq!['<']), gt_entity(), seq!['>']),
            amp_entity(),
            seq!['&'],
        ) == s,
{
    lemma_html_escape_each(s);
    lemma_escaped_amps(s);
    lemma_unescape_lt(s);
    lemma_unescape_gt(s);
    lemma_unescape_amp(s);
}

/// HTML-escaped text holds no `<` and no `>`: nothing in it can open or
/// close a tag.
pub proof fn law_html_escape_no_tags(s: Seq<char>)
    ensures
        forall|k: int|
            0 <= k < spec_html_escape(s).len() ==> #[trigger] spec_html_escape(s)[k] != '<'
                && spec_html_escape(s)[k] != '>',
{
    let a = replace_all(s, seq!['&'], seq!['&', 'a', 'm', 'p', ';']);
    let b = replace_all(a, seq!['<'], seq!['&', 'l', 't', ';']);
    lemma_replace_single_removes(a, '<', seq!['&', 'l', 't', ';']);
    lemma_replace_keeps_absent(b, seq!['>'], seq!['&', 'g', 't', ';'], '<');
    lemma_replace_single_removes(b, '>', seq!['&', 'g', 't', ';']);
}

/// The escaping of one character.
pub open spec fn md_piece(c: char) -> Seq<char> {
    if md_special(c) {
        seq!['\\', c]
    } else {
        seq![c]
    }
}

/// Each backslash placed before a special character removed, read from
/// the front.
pub open spec fn md_unescape(s: Seq<char>) -> Seq<char>
    decreases s.len(),
{
    if s.len() == 0 {
        Seq::empty()
    } else if s.len() >= 2 && s[0] == '\\' && md_special(s[1]) {
        seq![s[1]] + md_unescape(s.skip(2))
    } else {
        seq![s[0]] + md_unescape(s.drop_first())
    }
}

proof fn lemma_escape_concat(a: Seq<char>, b: Seq<char>)
    ensures
        spec_escape_markdown(a + b) == spec_escape_markdown(a) + spec_escape_markdown(b),
    decreases b.len(),
{
    if b.len() == 0 {
        assert(a + b =~= a);
    } else {
        lemma_escape_concat(a, b.drop_last());
        assert((a + b).drop_last() =~= a + b.drop_last());
        assert((a + b).last() == b.last());
    }
}

proof fn lemma_escape_front(s: Seq<char>)
    requires
        s.len() > 0,
    ensures
        spec_escape_markdown(s) == md_piece(s[0]) + spec_escape_markdown(s.drop_first()),
{
    assert(s =~= seq![s[0]] + s.drop_first());
    lemma_escape_concat(seq![s[0]], s.drop_first());
    let one = seq![s[0]];
    assert(one.drop_last() =~= Seq::<char>::empty());
    assert(spec_escape_markdown(one.drop_last()) == Seq::<char>::empty());
    assert(one.last() == s[0]);
    assert(spec_escape_markdown(one) =~= md_piece(s[0]));
}

/// Escaping for MarkdownV2 can be undone: removing each backslash placed
/// before a special character gives back the text.
pub proof fn law_escape_markdown_reversible(s: Seq<char>)
    ensures
        md_unescape(spec_escape_markdown(s)) == s,
    decreases s.len(),
{
    if s.len() > 0 {
        let rest = s.drop_first();
        let x = spec_escape_markdown(rest);
        lemma_escape_front(s);
        law_escape_markdown_reversible(rest);
        if x.len() > 0 {
            lemma_escape_front(rest);
            assert(x[0] == md_piece(rest[0])[0]);
        }
        let e = md_piece(s[0]) + x;
        if md_special(s[0]) {
            assert(e.skip(2) =~= x);
        } else {
            assert(e.drop_first() =~= x);
        }
        assert(seq![s[0]] + rest =~= s);
    }
}

proof fn lemma_dec_digits(n: nat)
    ensures
        dec(n).len() > 0,
        all_digits(dec(n)),
        digits_value(dec(n)) == n,
    decreases n,
{
    if n >= 10 {
        lemma_dec_digits(n / 10);
        let d = dec(n / 10);
        assert(dec(n).drop_last() =~= d);
        assert(dec(n).last() == digit_char(n % 10));
        assert(crate::text::digit_val(digit_char(n % 10)) == n % 10);
        assert(digits_value(dec(n)) == digits_value(d) * 10 + crate::text::digit_val(dec(n).last()));
        assert(n == (n / 10) * 10 + n % 10);
        assert forall|i: int| 0 <= i < dec(n).len() implies is_digit(#[trigger] dec(n)[i]) by {
            if i < d.len() {
                assert(dec(n)[i] == d[i]);
            }
        }
    } else {
        assert(dec(n).drop_last() =~= Seq::<char>::empty());
        assert(digits_value(dec(n).drop_last()) == 0);
        assert(dec(n).last() == digit_char(n));
        assert(crate::text::digit_val(digit_char(n)) == n);
    }
}

/// A duration written as a number and a unit (`m`, `h`, `d` or `w`) reads
/// back as that many minutes, hours, days or weeks.
pub proof fn law_parse_duration_reads_units(n: nat, unit: char)
    requires
        unit == 'm' || unit == 'h' || unit == 'd' || unit == 'w',
        n <= u64::MAX,
    ensures
        spec_parse_duration(dec(n).push(unit)) == Some(n * unit_secs(unit).unwrap()),
{
    lemma_dec_digits(n);
    let t = dec(n).push(unit);
    assert(is_digit(dec(n)[0]));
    assert(!is_ws(t[0]));
    assert(!is_ws(t.last()));
    lemma_trim_of_trimmed(t);
    assert(t.drop_last() =~= dec(n));
    assert(dec(n)[0] != '+');
}

/// A button whose label and URL are non-empty and trimmed.
pub open spec fn button_ok(b: ButtonModel) -> bool {
    b.0.len() > 0 && b.1.len() > 0 && trim(b.0) == b.0 && trim(b.1) == b.1
}

/// Rows that are non-empty and hold well-formed buttons.
pub open spec fn rows_ok(rows: Seq<Seq<ButtonModel>>) -> bool {
    forall|r: int|
        0 <= r < rows.len() ==> #[trigger] rows[r].len() > 0 && forall|k: int|
            0 <= k < rows[r].len() ==> button_ok(#[trigger] rows[r][k])
}

pub open spec fn row_ok(row: Seq<ButtonModel>) -> bool {
    forall|k: int| 0 <= k < row.len() ==> button_ok(#[trigger] row[k])
}

proof fn lemma_button_at_ok(s: Seq<char>, i: int)
    requires
        button_at(s, i) is Some,
    ensures
        button_ok(button_at(s, i).unwrap().0),
{
    let j = find_label_end(s, i + 8);
    let k = find_close(s, j + 1);
    law_trim_idempotent(s.subrange(i + 8, j));
    law_trim_idempotent(s.subrange(j + 1, k));
}

proof fn lemma_push_row_ok(rows: Seq<Seq<ButtonModel>>, row: Seq<ButtonModel>)
    requires
        rows_ok(rows),
        row_ok(row),
        row.len() > 0,
    ensures
        rows_ok(rows.push(row)),
{
    assert forall|r: int| 0 <= r < rows.push(row).len() implies #[trigger] rows.push(row)[r].len() > 0
        && forall|k: int| 0 <= k < rows.push(row)[r].len() ==> button_ok(#[trigger] rows.push(row)[r][k]) by {
        if r < rows.len() {
            assert(rows.push(row)[r] == rows[r]);
        } else {
            assert(rows.push(row)[r] == row);
        }
    }
}

proof fn lemma_scan_rows_ok(
    s: Seq<char>,
    joins: bool,
    i: int,
    text: Seq<char>,
    rows: Seq<Seq<ButtonModel>>,
    cur: Seq<ButtonModel>,
)
    requires
        rows_ok(rows),
        row_ok(cur),
    ensures
        rows_ok(scan_buttons(s, joins, i, text, rows, cur).1),
    decreases s.len() - i,
{
    if i < 0 || i >= s.len() {
        if cur.len() > 0 {
            lemma_push_row_ok(rows, cur);
        }
    } else {
        match button_at(s, i) {
            Some((b, e)) => {
                lemma_button_at_advances(s, i);
                lemma_button_at_ok(s, i);
                let cb = cur.push(b);
                assert(row_ok(cb)) by {
                    assert forall|k: int| 0 <= k < cb.len() implies button_ok(#[trigger] cb[k]) by {
                        if k < cur.len() {
                            assert(cb[k] == cur[k]);
                        }
                    }
                }
                if joins && same_at(s, e) {
                    let nr = join_same(rows, cur, b);
                    if cur.len() == 0 && rows.len() > 0 {
                        let last = rows.last().push(b);
                        assert(row_ok(last)) by {
                            assert(rows[rows.len() - 1].len() > 0);
                            assert forall|k: int| 0 <= k < last.len() implies button_ok(#[trigger] last[k]) by {
                                if k < rows.last().len() {
                                    assert(last[k] == rows[rows.len() - 1][k]);
                                }
                            }
                        }
                        assert(rows_ok(nr)) by {
                            assert forall|r: int| 0 <= r < nr.len() implies #[trigger] nr[r].len() > 0
                                && forall|k: int| 0 <= k < nr[r].len() ==> button_ok(#[trigger] nr[r][k]) by {
                                if r < rows.len() - 1 {
                                    assert(nr[r] == rows[r]);
                                } else {
                                    assert(nr[r] == last);
                                }
                            }
                        }
                    } else {
                        lemma_push_row_ok(rows, cb);
                    }
                    lemma_scan_rows_ok(s, joins, e + 5, text, nr, Seq::empty());
                } else if e < s.len() && s[e] == ':' {
                    lemma_scan_rows_ok(s, joins, e + 1, text, rows, cb);
                } else {
                    lemma_push_row_ok(rows, cb);
                    lemma_scan_rows_ok(s, joins, e, text, rows.push(cb), Seq::empty());
                }
            },
            None => {
                lemma_scan_rows_ok(s, joins, i + 1, text.push(s[i]), rows, cur);
            },
        }
    }
}

/// Every row of parsed buttons holds at least one button, and every button
/// has a non-empty, trimmed label and URL.
pub proof fn law_button_rows_well_formed(s: Seq<char>, joins: bool)
    ensures
        rows_ok(split_buttons(s, joins).1),
{
    lemma_scan_rows_ok(s, joins, 0, Seq::empty(), Seq::empty(), Seq::empty());
}

/// The text holds no `{`.
pub open spec fn no_brace(s: Seq<char>) -> bool {
    forall|k: int| 0 <= k < s.len() ==> s[k] != '{'
}

proof fn lemma_no_button_without_brace(s: Seq<char>, i: int)
    requires
        no_brace(s),
    ensures
        button_at(s, i) is None,
{
    if !(i < 0 || i + 8 >= s.len()) && lower_eq(s.subrange(i, i + 8), button_open()) {
        assert(ascii_fold(s.subrange(i, i + 8)[0]) == button_open()[0]);
        assert(s.subrange(i, i + 8)[0] == s[i]);
        assert(s[i] != '{');
    }
}

proof fn lemma_scan_plain(
    s: Seq<char>,
    joins: bool,
    i: int,
    text: Seq<char>,
    rows: Seq<Seq<ButtonModel>>,
    cur: Seq<ButtonModel>,
)
    requires
        no_brace(s),
        0 <= i <= s.len(),
    ensures
        scan_buttons(s, joins, i, text, rows, cur) == (text + s.skip(i), close_row(rows, cur)),
    decreases s.len() - i,
{
    if i >= s.len() {
        assert(text + s.skip(i) =~= text);
    } else {
        lemma_no_button_without_brace(s, i);
        lemma_scan_plain(s, joins, i + 1, text.push(s[i]), rows, cur);
        assert(text.push(s[i]) + s.skip(i + 1) =~= text + s.skip(i));
    }
}

proof fn lemma_tag_absent(t: Seq<char>, tag: Seq<char>)
    requires
        no_brace(t),
        tag.len() > 0,
        tag[0] == '{',
    ensures
        tag_step(t, tag) == (t, false),
{
    if contains(t, tag) {
        let i = choose|i: int| occurs_at(t, tag, i);
        assert(t.subrange(i, i + tag.len())[0] == t[i]);
    }
}

/// Content without `{` is plain text: a note keeps it whole, with no
/// buttons and no tags set.
pub proof fn law_plain_note_unchanged(s: Seq<char>)
    requires
        no_brace(s),
    ensures
        split_buttons(s, true) == (s, Seq::<Seq<ButtonModel>>::empty()),
        spec_note_tags(s).0 == s,
        spec_note_tags(s).1 == (NoteTags {
            admin_only: false,
            is_private: false,
            no_private: false,
            protect: false,
            preview: false,
            no_notif: false,
            media_spoiler: false,
        }),
{
    lemma_scan_plain(s, true, 0, Seq::empty(), Seq::empty(), Seq::empty());
    assert(Seq::<char>::empty() + s.skip(0) =~= s);
    reveal_strlit("{admin}");
    reveal_strlit("{private}");
    reveal_strlit("{noprivate}");
    reveal_strlit("{protect}");
    reveal_strlit("{preview}");
    reveal_strlit("{nonotif}");
    reveal_strlit("{mediaspoiler}");
    lemma_tag_absent(s, "{admin}"@);
    lemma_tag_absent(s, "{private}"@);
    lemma_tag_absent(s, "{noprivate}"@);
    lemma_tag_absent(s, "{protect}"@);
    lemma_tag_absent(s, "{preview}"@);
    lemma_tag_absent(s, "{nonotif}"@);
    lemma_tag_absent(s, "{mediaspoiler}"@);
}

proof fn lemma_colon_occurs(s: Seq<char>, k: int)
    ensures
        occurs_at(s, seq![':'], k) <==> (0 <= k < s.len() && s[k] == ':'),
{
    if 0 <= k < s.len() && s[k] == ':' {
        assert(s.subrange(k, k + 1) =~= seq![':']);
    }
    if occurs_at(s, seq![':'], k) {
        assert(s.subrange(k, k + 1)[0] == s[k]);
    }
}

proof fn lemma_split_segment(s: Seq<char>, i: int, j: int, cur: Seq<char>, acc: Seq<Seq<char>>)
    requires
        0 <= i <= j <= s.len(),
        forall|k: int| i <= k < j ==> s[k] != ':',
    ensures
        split_scan(s, seq![':'], i, cur, acc) == split_scan(s, seq![':'], j, cur + s.subrange(i, j), acc),
    decreases j - i,
{
    if i == j {
        assert(cur + s.subrange(i, j) =~= cur);
    } else {
        lemma_colon_occurs(s, i);
        lemma_split_segment(s, i + 1, j, cur.push(s[i]), acc);
        assert(cur.push(s[i]) + s.subrange(i + 1, j) =~= cur + s.subrange(i, j));
    }
}

proof fn lemma_dec_int_parses(n: int)
    requires
        i64::MIN <= n <= i64::MAX,
    ensures
        parse_signed(dec_int(n), i64::MAX as nat) == Some(n),
        forall|k: int| 0 <= k < dec_int(n).len() ==> #[trigger] dec_int(n)[k] != ':',
{
    if n < 0 {
        lemma_dec_digits((-n) as nat);
        let d = dec((-n) as nat);
        assert(dec_int(n).drop_first() =~= d);
        assert forall|k: int| 0 <= k < dec_int(n).len() implies #[trigger] dec_int(n)[k] != ':' by {
            if k > 0 {
                assert(dec_int(n)[k] == d[k - 1]);
                assert(is_digit(d[k - 1]));
            }
        }
    } else {
        lemma_dec_digits(n as nat);
        assert(is_digit(dec(n as nat)[0]));
        assert forall|k: int| 0 <= k < dec_int(n).len() implies #[trigger] dec_int(n)[k] != ':' by {
            assert(is_digit(dec(n as nat)[k]));
        }
    }
}

/// The button that comes with a warning removes that warning: its data
/// reads back as the chat and the warned user (both non-zero ids), and the
/// removal then waits only for the presser's right to restrict members.
pub proof fn law_remove_button_round_trip(chat_id: i64, target: u64)
    requires
        chat_id != 0,
        target != 0,
    ensures
        spec_removal_request(Some(remove_callback_data(chat_id, target)), Some(true))
            == RemovalRequestModel::Remove(chat_id, target),
        spec_removal_request(Some(remove_callback_data(chat_id, target)), None)
            == RemovalRequestModel::AskPermission(chat_id),
{
    reveal_strlit("warn_remove:");
    reveal_strlit(":");
    let a = dec_int(chat_id as int);
    let b = dec(target as nat);
    let d = remove_callback_data(chat_id, target);
    lemma_dec_int_parses(chat_id as int);
    lemma_dec_digits(target as nat);
    let head: Seq<char> = "warn_remove"@;
    assert(head.len() == 11) by {
        reveal_strlit("warn_remove");
    }
    assert(d =~= head + seq![':'] + a + seq![':'] + b) by {
        reveal_strlit("warn_remove");
    }
    assert(crate::text::starts_with(d, "warn_remove:"@)) by {
        assert(d.take(12) =~= "warn_remove:"@);
    }
    let p1: int = 11;
    let p2: int = 12 + a.len() as int;
    let e: int = d.len() as int;
    assert forall|k: int| 0 <= k < p1 implies d[k] != ':' by {
        reveal_strlit("warn_remove");
        assert(d[k] == head[k]);
    }
    assert forall|k: int| p1 + 1 <= k < p2 implies d[k] != ':' by {
        assert(d[k] == a[k - 12]);
    }
    assert forall|k: int| p2 + 1 <= k < e implies d[k] != ':' by {
        assert(d[k] == b[k - p2 - 1]);
        assert(is_digit(b[k - p2 - 1]));
    }
    lemma_split_segment(d, 0, p1, Seq::empty(), Seq::empty());
    lemma_colon_occurs(d, p1);
    lemma_split_segment(d, p1 + 1, p2, Seq::empty(), seq![d.subrange(0, p1)]);
    lemma_colon_occurs(d, p2);
    lemma_split_segment(d, p2 + 1, e, Seq::empty(), seq![d.subrange(0, p1), d.subrange(p1 + 1, p2)]);
    assert(Seq::<char>::empty() + d.subrange(0, p1) =~= d.subrange(0, p1));
    assert(Seq::<char>::empty() + d.subrange(p1 + 1, p2) =~= d.subrange(p1 + 1, p2));
    assert(Seq::<char>::empty() + d.subrange(p2 + 1, e) =~= d.subrange(p2 + 1, e));
    assert(seq![d.subrange(0, p1)].push(d.subrange(p1 + 1, p2)) =~= seq![d.subrange(0, p1), d.subrange(p1 + 1, p2)]);
    let parts = split_on(d, seq![':']);
    assert(parts =~= seq![d.subrange(0, p1), d.subrange(p1 + 1, p2), d.subrange(p2 + 1, e)]);
    assert(d.subrange(p1 + 1, p2) =~= a);
    assert(d.subrange(p2 + 1, e) =~= b);
    assert(b[0] != '+') by {
        assert(is_digit(b[0]));
    }
}

/// From every help section the back button returns to the menu.
pub proof fn law_help_back_returns(s: Section)
    requires
        s != Section::Main,
    ensures
        page_model(s).1.len() == 1,
        page_model(s).1[0].len() == 1,
        page_model(s).1[0][0].1 == ActionModel::Callback("help:back"@),
        callback_section(Some("help:back"@)) == Some(Section::Main),
{
    reveal_strlit("help:back");
    reveal_strlit("help:");
    reveal_strlit("back");
    reveal_strlit("main");
    assert("help:back"@.take(5) =~= "help:"@);
    assert("help:back"@.skip(5) =~= "back"@);
}

/// A callback `help:<name>` opens the section that `name` names.
pub proof fn law_help_link(name: Seq<char>)
    ensures
        callback_section(Some("help:"@ + name)) == section_named(name),
{
    reveal_strlit("help:");
    assert(("help:"@ + name).take(5) =~= "help:"@);
    assert(("help:"@ + name).skip(5) =~= name);
}

/// `/setflood` either turns protection off and keeps every other setting,
/// or saves a limit within 2 to 100 messages with the window kept or set
/// within 1 to 300 seconds, keeping the other settings.
pub proof fn law_setflood_in_range(m: CommandMsg, can_change: Option<bool>, config: Option<AntifloodConfig>)
    ensures
        spec_setflood(m, can_change, config) matches FloodModel::Save(c, _, _) ==> config matches Some(old) && (
        c == (AntifloodConfig { enabled: false, ..old }) || {
            &&& 2 <= c.max_messages <= 100
            &&& (c.time_window_secs == old.time_window_secs || 1 <= c.time_window_secs <= 300)
            &&& c == (AntifloodConfig {
                max_messages: c.max_messages,
                time_window_secs: c.time_window_secs,
                ..old
            })
        }),
{
}

/// A warning penalizes exactly when the user's count reaches the chat's
/// limit, and then clears the user's warnings, so that no user keeps as
/// many warnings as the limit; an announced warning carries the button
/// that removes it, and a silent warning is never announced.
pub proof fn law_warn_limit(
    action: WarnAction,
    chat_id: i64,
    target: u64,
    name: Seq<char>,
    reason: Option<Seq<char>>,
    count: u64,
    config: WarnConfig,
)
    requires
        count <= u32::MAX,
        config.limit >= 1,
    ensures
        ({
            let v = spec_warn_verdict(action, chat_id, target, name, reason, count, config);
            &&& (v is LimitReached) <==> count >= config.limit
            &&& v matches WarnVerdictModel::LimitReached { reset_warnings, .. } ==> reset_warnings
            &&& warnings_kept(v, count) < config.limit
            &&& action != WarnAction::Silent ==> (v matches WarnVerdictModel::Warned { announce } ==> (
            announce matches Some((_, _, data)) && data == remove_callback_data(chat_id, target)))
            &&& action == WarnAction::Silent ==> match v {
                WarnVerdictModel::LimitReached { announce_applied, announce_failed, .. } => announce_applied is None
                    && announce_failed is None,
                WarnVerdictModel::Warned { announce } => announce is None,
            }
        }),
{
    assert((#[verifier::truncate] (count as u32)) == count);
}

/// The action opens a URL that `url::Url::parse` accepts.
pub open spec fn opens_accepted_url(a: ActionModel) -> bool {
    match a {
        ActionModel::Url(u) => url_accepted(u),
        ActionModel::Callback(_) => false,
    }
}

/// Every button of a URL keyboard built from button rows carries a URL
/// that `url::Url::parse` accepts.
pub proof fn law_url_keyboard_accepted(rows: Seq<Seq<ButtonModel>>)
    ensures
        url_rows(rows).len() == rows.len(),
        forall|r: int, k: int|
            0 <= r < rows.len() && 0 <= k < url_rows(rows)[r].len() ==> opens_accepted_url(
                #[trigger] url_rows(rows)[r][k].1,
            ),
{
    assert forall|r: int, k: int|
        0 <= r < rows.len() && 0 <= k < url_rows(rows)[r].len() implies opens_accepted_url(
        #[trigger] url_rows(rows)[r][k].1,
    ) by {
        let pred = |b: ButtonModel| url_accepted(b.1);
        let kept = rows[r].filter(pred);
        rows[r].lemma_filter_pred(pred, k);
        assert(url_rows(rows)[r][k] == (TextModel::Plain(kept[k].0), ActionModel::Url(kept[k].1)));
    }
}

/// A purge start is read once: after /purgefrom marks the replied message
/// in a chat, /purgeto there deletes from that message to its own reply and
/// the command, and consumes the mark, so a second /purgeto finds none.
pub proof fn law_purge_mark_read_once(from: CommandMsg, to: CommandMsg, chat_id: i64, markers: Map<i64, i32>)
    requires
        from.in_group,
        from.reply is Some,
        to.in_group,
        to.reply is Some,
    ensures
        spec_purgefrom(from, Some(true)) is Marked,
        purgeto_reads_mark(to, Some(true)),
        ({
            let marked = markers.insert(chat_id, from.reply.unwrap().msg_id);
            &&& spec_purgeto(
                to,
                Some(true),
                if marked.contains_key(chat_id) {
                    Some(marked[chat_id])
                } else {
                    None
                },
            ) == PurgeModel::Delete(
                purgeto_ids(from.reply.unwrap().msg_id, to.reply.unwrap().msg_id, to.msg_id),
                true,
            )
            &&& !marked.remove(chat_id).contains_key(chat_id)
        }),
        spec_purgeto(to, Some(true), None) is Reply,
{
}

/// Moderation acts only for a sender holding the right, in a group, and
/// never against an admin: a ban, kick or mute (but an unban or unmute) is
/// carried out only once the target is known not to be an admin, a warning
/// is recorded only against a non-admin, and a promotion or demotion, a
/// warning removal or the clearing of all warnings only for a sender with
/// the right it needs.
pub proof fn law_moderation_needs_rights(
    m: CommandMsg,
    ban_mode: BanMode,
    mute_mode: MuteMode,
    action: WarnAction,
    kind: RemovalKind,
    right: Option<bool>,
    target_is_admin: Option<bool>,
    target: Option<Option<(u64, Seq<char>, nat)>>,
    promote: bool,
    cleared: Option<u64>,
)
    ensures
        spec_ban(ban_mode, m, right, target, target_is_admin) is Execute ==> m.in_group && right == Some(true) && (
        ban_mode != BanMode::Unban ==> target_is_admin == Some(false)),
        spec_mute(mute_mode, m, right, target, target_is_admin) is Execute ==> m.in_group && right == Some(true) && (
        mute_mode != MuteMode::Unmute ==> target_is_admin == Some(false)),
        spec_warn_start(action, m, right, target, target_is_admin) is Proceed ==> m.in_group && right == Some(
            true,
        ) && target_is_admin == Some(false),
        spec_admin_change(promote, m, right, target) is Change ==> m.in_group && right == Some(true),
        spec_removal_start(kind, m, right, target) is Remove ==> m.in_group && right == Some(true),
        (spec_clear_all(m, right, cleared) is Clear || spec_clear_all(m, right, cleared) is Done) ==> m.in_group
            && right == Some(true),
{
}

/// Settings change only for a sender holding the right: warning settings
/// are saved only for one who may restrict members, and each warning
/// setting command changes its own setting alone (a limit within 1 to
/// 100); antiflood settings are saved only for one who may change the
/// chat's info.
pub proof fn law_settings_need_rights(
    m: CommandMsg,
    setting: WarnSetting,
    right: Option<bool>,
    config: Option<WarnConfig>,
    flood: Option<AntifloodConfig>,
)
    ensures
        spec_setting(setting, m, right, config) matches SettingModel::Save(c, _, _) ==> {
            &&& m.in_group && right == Some(true)
            &&& config matches Some(old) && match setting {
                WarnSetting::Mode => c.limit == old.limit && c.action_duration_secs == old.action_duration_secs
                    && c.warn_time_secs == old.warn_time_secs,
                WarnSetting::Limit => 1 <= c.limit <= 100 && c.mode == old.mode && c.action_duration_secs
                    == old.action_duration_secs && c.warn_time_secs == old.warn_time_secs,
                WarnSetting::Time => c.limit == old.limit && c.mode == old.mode && c.action_duration_secs
                    == old.action_duration_secs,
            }
        },
        spec_setflood(m, right, flood) is Save ==> right == Some(true),
        spec_antiflood(m, right, flood) matches FloodModel::Save(c, _, _) ==> {
            &&& right == Some(true)
            &&& flood matches Some(old) && c == (AntifloodConfig { enabled: c.enabled, ..old })
        },
        spec_setfloodpenalty(m, right, flood) matches FloodModel::Save(c, _, _) ==> {
            &&& right == Some(true)
            &&& flood matches Some(old) && c == (AntifloodConfig {
                penalty: c.penalty,
                penalty_duration_secs: c.penalty_duration_secs,
                ..old
            })
        },
{
}

/// Deleting, pinning and approving happen only in groups and for a sender
/// holding the right: messages are deleted only by one who may delete
/// them, pins change only for one who may pin, and approvals only for
/// admins (all approvals at once only for one who may promote members).
pub proof fn law_cleanup_needs_rights(
    m: CommandMsg,
    silent: bool,
    right: Option<bool>,
    mark: Option<i32>,
    target: Option<Option<(u64, Seq<char>, nat)>>,
)
    ensures
        (spec_purge(m, silent, right) is Delete || spec_del(m, right) is DeleteQuietly || spec_purgeto(
            m,
            right,
            mark,
        ) is Delete || spec_purgefrom(m, right) is Marked) ==> m.in_group && right == Some(true),
        (spec_pin(m, right) is Pin || spec_permapin(m, right) is SendAndPin || spec_unpin(m, right) is Unpin
            || spec_unpinall(m, right) is UnpinAll) ==> m.in_group && right == Some(true),
        (spec_approve(m, right, target) is Approve || spec_unapprove(m, right, target) is Unapprove || spec_unapproveall(
            m,
            right,
        ) is UnapproveAll) ==> m.in_group && right == Some(true),
{
}

/// A note saved by `/save <w> <content>` is the note `/get <w>` fetches:
/// both use the lower-cased word, and /get strips only leading `#`s, which
/// the saved name does not start with.
pub proof fn law_saved_note_fetched_by_get(save: CommandMsg, get: CommandMsg)
    requires
        args_of(save).len() >= 2,
        args_of(get).len() > 0,
        args_of(get)[0] == args_of(save)[0],
        note_content(save, lowercase(args_of(save)[0])).len() > 0,
        !(lowercase(args_of(save)[0]).len() > 0 && lowercase(args_of(save)[0])[0] == '#'),
    ensures
        spec_save_note(save, lowercase(args_of(save)[0])) matches NoteOutcomeModel::Save(note, _) && spec_get_note(
            lowercase(args_of(get)[0]),
        ) == NoteOutcomeModel::Fetch(note.name),
{
}

proof fn lemma_single_word(w: Seq<char>, i: int)
    requires
        0 <= i <= w.len(),
        w.len() > 0,
        forall|k: int| 0 <= k < w.len() ==> !is_ws(#[trigger] w[k]),
    ensures
        scan_words(w, i, w.take(i), Seq::empty()) == seq![w],
    decreases w.len() - i,
{
    if i < w.len() {
        assert(w.take(i).push(w[i]) =~= w.take(i + 1));
        lemma_single_word(w, i + 1);
    } else {
        assert(w.take(i) =~= w);
    }
}

/// A group message `#<w>` (one word, not starting with another `#`) calls
/// the note that `/save <w> ...` stored: the lower-cased word.
pub proof fn law_saved_note_called_by_hashtag(save: CommandMsg, hash: CommandMsg, w: Seq<char>)
    requires
        args_of(save).len() >= 2,
        args_of(save)[0] == w,
        note_content(save, lowercase(w)).len() > 0,
        hash.in_group,
        text_of(hash) == seq!['#'] + w,
        w.len() > 0,
        w[0] != '#',
        forall|k: int| 0 <= k < w.len() ==> !is_ws(#[trigger] w[k]),
        lowercase(w).len() > 0,
    ensures
        is_note_call(opt_view(hash.text)),
        spec_save_note(save, lowercase(w)) matches NoteOutcomeModel::Save(note, _) && spec_hashtag_note(
            lowercase(hashtag_word(text_of(hash))),
        ) == NoteOutcomeModel::Fetch(note.name),
{
    reveal_strlit("#");
    reveal_strlit("##");
    let t = text_of(hash);
    assert(hash.text is Some);
    assert(t.take(1) =~= "#"@);
    assert(t.take(2) != "##"@) by {
        assert(t.take(2)[1] == w[0]);
    }
    assert(t.skip(1) =~= w);
    lemma_single_word(w, 0);
    assert(w.take(0) =~= Seq::<char>::empty());
    assert(words(w) == seq![w]);
}

/// The rules button leads back to the rules: its link (in /rules and in
/// the `{rules}` filling alike) starts the bot with `rules_<chat>`, which
/// /start routes to the rules of that same chat.
pub proof fn law_rules_link_round_trip(bot_username: Seq<char>, chat_id: i64)
    ensures
        rules_link(bot_username, chat_id) == "https://t.me/"@ + bot_username + "?start="@ + ("rules_"@ + dec_int(
            chat_id as int,
        )),
        spec_rules_url(bot_username, chat_id) == rules_link(bot_username, chat_id),
        spec_start_route("rules_"@ + dec_int(chat_id as int)) == StartRouteModel::Rules(dec_int(chat_id as int)),
        spec_rules_deeplink(dec_int(chat_id as int), None, None) == RulesOutcomeModel::LoadRules(chat_id),
{
    reveal_strlit("?start=rules_");
    reveal_strlit("?start=");
    reveal_strlit("rules_");
    let d = dec_int(chat_id as int);
    assert("?start=rules_"@ =~= "?start="@ + "rules_"@);
    assert("https://t.me/"@ + bot_username + "?start=rules_"@ + d =~= "https://t.me/"@ + bot_username
        + "?start="@ + ("rules_"@ + d));
    assert(starts_with("rules_"@ + d, "rules_"@)) by {
        assert(("rules_"@ + d).take(6) =~= "rules_"@);
    }
    assert(("rules_"@ + d).skip(6) =~= d);
    lemma_dec_int_parses(chat_id as int);
}

} // verus!

verus! {

/// No `{` in the text.
pub open spec fn brace_free(s: Seq<char>) -> bool {
    forall|i: int| 0 <= i < s.len() ==> s[i] != '{'
}

/// A pattern that starts with `{` occurs nowhere in a text without `{`.
proof fn lemma_no_brace_no_tag(s: Seq<char>, pat: Seq<char>)
    requires
        brace_free(s),
        pat.len() > 0,
        pat[0] == '{',
    ensures
        !contains(s, pat),
{
    assert forall|i: int| !occurs_at(s, pat, i) by {
        if occurs_at(s, pat, i) {
            assert(s.subrange(i, i + pat.len())[0] == pat[0]);
        }
    }
}

/// A text without `{` passes unchanged through a replacement whose
/// pattern starts with `{`.
proof fn lemma_brace_free_unchanged(s: Seq<char>, pat: Seq<char>, rep: Seq<char>)
    requires
        brace_free(s),
        pat.len() > 0,
        pat[0] == '{',
    ensures
        replace_all(s, pat, rep) == s,
{
    lemma_replace_skips_prefix(s, Seq::empty(), pat, rep);
    assert(s + Seq::<char>::empty() =~= s);
    assert(replace_all(Seq::<char>::empty(), pat, rep) == Seq::<char>::empty());
}

/// In `t1 + tag + t2`, whose only `{` starts `tag`, a pattern that starts
/// with `{` and differs from `tag` at `j` does not occur.
proof fn lemma_only_tag_brace(t1: Seq<char>, tag: Seq<char>, t2: Seq<char>, pat: Seq<char>, j: int)
    requires
        brace_free(t1),
        brace_free(t2),
        tag.len() > 0,
        forall|i: int| 1 <= i < tag.len() ==> tag[i] != '{',
        pat.len() > 0,
        pat[0] == '{',
        0 <= j < tag.len(),
        j < pat.len(),
        tag[j] != pat[j],
    ensures
        !contains(t1 + tag + t2, pat),
{
    let s = t1 + tag + t2;
    assert forall|i: int| !occurs_at(s, pat, i) by {
        if occurs_at(s, pat, i) {
            assert(s.subrange(i, i + pat.len())[0] == pat[0]);
            assert(s[i] == '{');
            if i < t1.len() {
                assert(s[i] == t1[i]);
            } else if i < t1.len() + tag.len() {
                if i > t1.len() {
                    assert(s[i] == tag[i - t1.len()]);
                }
            } else {
                assert(s[i] == t2[i - t1.len() - tag.len()]);
            }
            assert(i == t1.len());
            assert(s.subrange(i, i + pat.len())[j] == pat[j]);
            assert(s[i + j] == tag[j]);
        }
    }
}

/// `text + tag`, with `{` only at the start of `tag`, passes unchanged
/// through a replacement of a `{` pattern that differs from `tag` at `j`.
proof fn lemma_unmatched_tag_kept(text: Seq<char>, tag: Seq<char>, pat: Seq<char>, rep: Seq<char>, j: int)
    requires
        brace_free(text),
        forall|i: int| 1 <= i < tag.len() ==> tag[i] != '{',
        pat.len() > 0,
        pat[0] == '{',
        0 <= j < tag.len(),
        j < pat.len(),
        tag[j] != pat[j],
    ensures
        replace_all(text + tag, pat, rep) == text + tag,
{
    lemma_replace_skips_prefix(text, tag, pat, rep);
    assert(tag + Seq::<char>::empty() =~= tag);
    lemma_replace_skips_mismatch(tag, Seq::empty(), pat, rep, j);
    assert(replace_all(Seq::<char>::empty(), pat, rep) == Seq::<char>::empty());
}

/// HTML escaping adds no `{`.
proof fn lemma_escape_brace_free(s: Seq<char>)
    requires
        brace_free(s),
    ensures
        brace_free(spec_html_escape(s)),
{
    let a = replace_all(s, seq!['&'], seq!['&', 'a', 'm', 'p', ';']);
    let b = replace_all(a, seq!['<'], seq!['&', 'l', 't', ';']);
    lemma_replace_keeps_absent(s, seq!['&'], seq!['&', 'a', 'm', 'p', ';'], '{');
    lemma_replace_keeps_absent(a, seq!['<'], seq!['&', 'l', 't', ';'], '{');
    lemma_replace_keeps_absent(b, seq!['>'], seq!['&', 'g', 't', ';'], '{');
}

/// The `{fullname}` filling is the user's full name: the first name, a
/// space and the last name when the user has a non-empty last name, else
/// the first name alone, HTML-escaped. (Names and the text before it are
/// taken without `{`, which later fillings would read as placeholders.)
pub proof fn law_fullname_filling(text: Seq<char>, u: UserModel, chat_name: Seq<char>, count: Option<u64>)
    requires
        brace_free(text),
        brace_free(u.first_name),
        u.last_name matches Some(l) ==> brace_free(l),
    ensures
        spec_apply_fillings(text + "{fullname}"@, u, chat_name, count) == text + spec_html_escape(
            match u.last_name {
                Some(l) => if l.len() > 0 {
                    u.first_name + seq![' '] + l
                } else {
                    u.first_name
                },
                None => u.first_name,
            },
        ),
{
    reveal_strlit("{fullname}");
    reveal_strlit("{first}");
    reveal_strlit("{firstname}");
    reveal_strlit("{last}");
    reveal_strlit("{lastname}");
    reveal_strlit("{username}");
    reveal_strlit("{mention}");
    reveal_strlit("{id}");
    reveal_strlit("{chatname}");
    reveal_strlit("{group}");
    reveal_strlit("{count}");
    let fl = "{fullname}"@;
    let name = match u.last_name {
        Some(l) => if l.len() > 0 {
            u.first_name + seq![' '] + l
        } else {
            u.first_name
        },
        None => u.first_name,
    };
    assert(brace_free(name));
    let full = spec_html_escape(name);
    lemma_escape_brace_free(name);
    let s0 = text + fl;
    let first = spec_html_escape(u.first_name);
    let last = spec_html_escape(crate::utils::parser::last_or_empty(u));
    lemma_unmatched_tag_kept(text, fl, "{first}"@, first, 2);
    lemma_unmatched_tag_kept(text, fl, "{firstname}"@, first, 2);
    lemma_unmatched_tag_kept(text, fl, "{last}"@, last, 1);
    lemma_unmatched_tag_kept(text, fl, "{lastname}"@, last, 1);
    lemma_replace_skips_prefix(text, fl, fl, full);
    assert(fl + Seq::<char>::empty() =~= fl);
    lemma_replace_at_match(fl, Seq::empty(), full);
    assert(replace_all(Seq::<char>::empty(), fl, full) == Seq::<char>::empty());
    assert(full + Seq::<char>::empty() =~= full);
    let t5 = text + full;
    assert(replace_all(s0, fl, full) == t5);
    assert(brace_free(t5));
    lemma_brace_free_unchanged(t5, "{username}"@, crate::utils::parser::spec_username_filling(u));
    lemma_brace_free_unchanged(t5, "{mention}"@, crate::utils::parser::spec_mention(u.id, u.first_name));
    lemma_brace_free_unchanged(t5, "{id}"@, dec(u.id as nat));
    lemma_brace_free_unchanged(t5, "{chatname}"@, spec_html_escape(chat_name));
    lemma_brace_free_unchanged(t5, "{group}"@, spec_html_escape(chat_name));
    lemma_brace_free_unchanged(
        t5,
        "{count}"@,
        match count {
            Some(c) => dec(c as nat),
            None => Seq::empty(),
        },
    );
}

/// A `{protect}` tag in a text otherwise free of `{` is read: the text
/// comes out without it, and protection is the only tag set.
pub proof fn law_protect_tag_read(t1: Seq<char>, t2: Seq<char>)
    requires
        brace_free(t1),
        brace_free(t2),
    ensures
        spec_parse_tags(t1 + "{protect}"@ + t2) == (t1 + t2, ContentTags { protect: true, ..no_content_tags() }),
{
    reveal_strlit("{protect}");
    reveal_strlit("{admin}");
    reveal_strlit("{user}");
    reveal_strlit("{private}");
    reveal_strlit("{noprivate}");
    reveal_strlit("{preview}");
    reveal_strlit("{nonotif}");
    reveal_strlit("{mediaspoiler}");
    reveal_strlit("{replytag}");
    let p = "{protect}"@;
    let s = t1 + p + t2;
    lemma_only_tag_brace(t1, p, t2, "{admin}"@, 1);
    lemma_only_tag_brace(t1, p, t2, "{user}"@, 1);
    lemma_only_tag_brace(t1, p, t2, "{private}"@, 3);
    lemma_only_tag_brace(t1, p, t2, "{noprivate}"@, 1);
    assert(s.subrange(t1.len() as int, t1.len() + p.len() as int) =~= p);
    assert(occurs_at(s, p, t1.len() as int));
    assert(s =~= t1 + (p + t2));
    lemma_replace_skips_prefix(t1, p + t2, p, Seq::empty());
    lemma_replace_at_match(p, t2, Seq::empty());
    lemma_brace_free_unchanged(t2, p, Seq::empty());
    let r = t1 + t2;
    assert(Seq::<char>::empty() + t2 =~= t2);
    assert(replace_all(s, p, Seq::empty()) == r);
    assert(brace_free(r));
    lemma_no_brace_no_tag(r, "{preview}"@);
    lemma_no_brace_no_tag(r, "{nonotif}"@);
    lemma_no_brace_no_tag(r, "{mediaspoiler}"@);
    lemma_no_brace_no_tag(r, "{replytag}"@);
}

/// Every filter `/filter` saves keeps exactly the tags the reply asks for:
/// admin-only, user-only, protection and reply-tagging as the tag reader
/// reports them for the reply text (without its buttons), and no other.
pub proof fn law_filter_keeps_tags(m: CommandMsg, can_change_info: Option<bool>)
    ensures
        spec_filter(m, can_change_info) matches FilterModel::Save(ds, _) ==> {
            let tags = spec_parse_tags(
                split_buttons(filter_reply_text(m, spec_filter_triggers(rest_of(m)).1), false).0,
            ).1;
            forall|i: int|
                0 <= i < ds.len() ==> {
                    &&& (#[trigger] ds[i]).tags.protect == tags.protect
                    &&& ds[i].tags.admin_only == tags.admin_only
                    &&& ds[i].tags.user_only == tags.user_only
                    &&& ds[i].tags.replytag == tags.replytag
                    &&& !ds[i].tags.is_private && !ds[i].tags.no_private && !ds[i].tags.preview
                    &&& !ds[i].tags.no_notif && !ds[i].tags.media_spoiler
                }
        },
{
}

/// A resolved target is the replied message's sender, skipping no
/// argument, when there is a reply; otherwise it was named by the first
/// argument word, and the arguments after it start at index 1.
pub proof fn law_resolve_target_skip(
    reply_from: Option<(u64, Seq<char>)>,
    text: Option<Seq<char>>,
    mentions: Seq<TextMention>,
    by_id: Option<Option<Seq<char>>>,
    by_username: Option<Option<(u64, Seq<char>)>>,
    chat: Option<Option<(bool, i64, Option<Seq<char>>)>>,
)
    ensures
        spec_resolve_target(reply_from, text, mentions, by_id, by_username, chat) matches TargetModel::Found(
            id,
            name,
            skip,
        ) ==> match reply_from {
            Some((rid, rname)) => id == rid && name == rname && skip == 0,
            None => skip == 1,
        },
{
}

/// When the limit is reached the penalty is the chat's warn mode: a ban,
/// a kick, a mute for 366 days, or a ban or mute for the configured
/// duration (366 days are 31,622,400 seconds); and the announcement names that same penalty.
pub proof fn law_warn_penalty_follows_mode(
    action: WarnAction,
    chat_id: i64,
    target: u64,
    name: Seq<char>,
    reason: Option<Seq<char>>,
    count: u64,
    config: WarnConfig,
)
    ensures
        spec_warn_verdict(action, chat_id, target, name, reason, count, config) matches WarnVerdictModel::LimitReached {
            penalty,
            announce_applied,
            ..
        } ==> {
            &&& config.mode == WarnMode::Ban ==> penalty == Penalty::Ban
            &&& config.mode == WarnMode::Kick ==> penalty == Penalty::Kick
            &&& config.mode == WarnMode::Mute ==> penalty == Penalty::MuteFor(31_622_400)
            &&& config.mode == WarnMode::TBan ==> penalty == Penalty::BanFor(config.action_duration_secs)
            &&& config.mode == WarnMode::TMute ==> penalty == Penalty::MuteFor(config.action_duration_secs)
            &&& announce_applied matches Some(TextModel::Key(_, ps)) ==> ps.len() == 5 && ps[4].0 == "{penalty}"@
                && (ps[4].1 matches crate::plugins::common::FragmentModel::Key(k, _) && (
            (penalty == Penalty::Kick <==> k == "warn.penalty_kick"@)
            && (penalty == Penalty::Ban <==> k == "warn.penalty_ban"@)))
        },
{
    reveal_strlit("warn.penalty_kick");
    reveal_strlit("warn.penalty_ban");
    reveal_strlit("warn.penalty_mute");
    reveal_strlit("warn.penalty_tban");
    reveal_strlit("warn.penalty_tmute");
    assert("warn.penalty_kick"@[13] != "warn.penalty_mute"@[13]);
    assert("warn.penalty_kick"@[13] != "warn.penalty_tban"@[13]);
    assert("warn.penalty_kick"@[13] != "warn.penalty_ban"@[13]);
    assert("warn.penalty_kick"@.len() != "warn.penalty_tmute"@.len());
    assert("warn.penalty_ban"@.len() != "warn.penalty_mute"@.len());
    assert("warn.penalty_ban"@.len() != "warn.penalty_tban"@.len());
    assert("warn.penalty_ban"@.len() != "warn.penalty_tmute"@.len());
}

/// The antiflood decision saves settings with this penalty.
pub open spec fn saves_penalty(r: FloodModel, p: FloodPenalty) -> bool {
    r matches FloodModel::Save(nc, _, _) && nc.penalty == p
}

/// `/setfloodpenalty <word>`, from a sender who may change chat info with
/// the settings loaded, saves the penalty the word names in any case
/// (`warn`, `mute`, `kick`, `tempban` or `tban`, `ban`) and keeps every
/// setting but the penalty and its duration; any other word is refused.
pub proof fn law_setfloodpenalty_names(m: CommandMsg, c: AntifloodConfig)
    requires
        m.from is Some,
        args_of(m).len() > 0,
    ensures
        ({
            let w = args_of(m)[0];
            let r = spec_setfloodpenalty(m, Some(true), Some(c));
            &&& r matches FloodModel::Save(nc, _, _) ==> nc == (AntifloodConfig {
                penalty: nc.penalty,
                penalty_duration_secs: nc.penalty_duration_secs,
                ..c
            })
            &&& lower_eq(w, "warn"@) ==> saves_penalty(r, FloodPenalty::Warn)
            &&& lower_eq(w, "mute"@) ==> saves_penalty(r, FloodPenalty::Mute)
            &&& lower_eq(w, "kick"@) ==> saves_penalty(r, FloodPenalty::Kick)
            &&& lower_eq(w, "tempban"@) ==> saves_penalty(r, FloodPenalty::TempBan)
            &&& lower_eq(w, "tban"@) ==> saves_penalty(r, FloodPenalty::TempBan)
            &&& lower_eq(w, "ban"@) ==> saves_penalty(r, FloodPenalty::Ban)
            &&& !(lower_eq(w, "warn"@) || lower_eq(w, "mute"@) || lower_eq(w, "kick"@) || lower_eq(w, "tempban"@)
                || lower_eq(w, "tban"@) || lower_eq(w, "ban"@)) ==> r is Reply
        }),
{
    reveal_strlit("warn");
    reveal_strlit("mute");
    reveal_strlit("kick");
    reveal_strlit("tempban");
    reveal_strlit("tban");
    reveal_strlit("ban");
    let w = args_of(m)[0];
    let four = seq!["warn"@, "mute"@, "kick"@, "tban"@];
    assert forall|a: int, b: int| 0 <= a < 4 && 0 <= b < 4 && a != b && lower_eq(w, #[trigger] four[a]) implies !lower_eq(
        w,
        #[trigger] four[b],
    ) by {
        lemma_lower_eq_exclusive(w, four[a], four[b], 0);
    }
    assert(four[0] == "warn"@ && four[1] == "mute"@ && four[2] == "kick"@ && four[3] == "tban"@);
}

/// Two words of one length that differ at `k` are not both the lower
/// case of one text.
proof fn lemma_lower_eq_exclusive(w: Seq<char>, a: Seq<char>, b: Seq<char>, k: int)
    requires
        a.len() == b.len(),
        0 <= k < a.len(),
        a[k] != b[k],
    ensures
        lower_eq(w, a) ==> !lower_eq(w, b),
{
    if lower_eq(w, a) && lower_eq(w, b) {
        assert(ascii_fold(w[k]) == a[k]);
        assert(ascii_fold(w[k]) == b[k]);
    }
}

} // verus!
