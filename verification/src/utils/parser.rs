//! Content parser shared by notes, filters, welcome messages and other
//! content: buttons (`{button:Text|url}`), tags (`{admin}`, `{user}`, ...),
//! fillings (`{first}`, `{mention}`, ...) and random parts split by `%%%`.

use vstd::prelude::*;
use crate::markup::{ButtonModel, InlineButton, UserInfo, UserModel, rows_model};
use crate::text::{
    chars_of, concat_vec, contains, contains_vec, dec, dec_int, i64_dec, parse_unsigned,
    parse_u64_vec, replace_all, replace_vec, split_on, split_on_vec, string_of, trim, trim_vec,
    u64_dec, views,
};
use crate::utils::buttons::{split_buttons, split_buttons_vec};

verus! {

/// Content tags that modify behavior.
#[derive(Debug, Clone, Copy, PartialEq, Eq)]
pub struct ContentTags {
    /// Only admins can trigger/see this content
    pub admin_only: bool,
    /// Only non-admins can trigger/see this content
    pub user_only: bool,
    /// Send to private/PM
    pub is_private: bool,
    /// Disable private sending
    pub no_private: bool,
    /// Protect content (no forward)
    pub protect: bool,
    /// Enable link preview
    pub preview: bool,
    /// Disable notification
    pub no_notif: bool,
    /// Media spoiler
    pub media_spoiler: bool,
    /// Reply to the user that was replied to (for filters)
    pub replytag: bool,
}

pub open spec fn no_content_tags() -> ContentTags {
    ContentTags {
        admin_only: false,
        user_only: false,
        is_private: false,
        no_private: false,
        protect: false,
        preview: false,
        no_notif: false,
        media_spoiler: false,
        replytag: false,
    }
}

impl Default for ContentTags {
    fn default() -> (t: ContentTags)
        ensures
            t == no_content_tags(),
    {
        ContentTags {
            admin_only: false,
            user_only: false,
            is_private: false,
            no_private: false,
            protect: false,
            preview: false,
            no_notif: false,
            media_spoiler: false,
            replytag: false,
        }
    }
}

/// Result of parsing content.
#[derive(Debug, Clone, PartialEq, Eq)]
pub struct ParsedContent {
    /// Clean text without buttons/tags
    pub text: String,
    /// Extracted buttons (rows)
    pub buttons: Vec<Vec<InlineButton>>,
    /// Extracted tags
    pub tags: ContentTags,
    /// Random content parts (split by %%%)
    pub random_parts: Vec<String>,
}

pub open spec fn strings_model(v: Seq<String>) -> Seq<Seq<char>> {
    v.map_values(|s: String| s@)
}

/// A tag found in `t` is recorded and every occurrence of it removed.
pub open spec fn tag_step(t: Seq<char>, tag: Seq<char>) -> (Seq<char>, bool) {
    if contains(t, tag) {
        (replace_all(t, tag, Seq::empty()), true)
    } else {
        (t, false)
    }
}

/// Tag removal applied in order: `{admin}`, `{user}`, `{private}`,
/// `{noprivate}`, `{protect}`, `{preview}`, `{nonotif}`, `{mediaspoiler}`,
/// `{replytag}`.
pub open spec fn spec_parse_tags(input: Seq<char>) -> (Seq<char>, ContentTags) {
    let (t1, a) = tag_step(input, "{admin}"@);
    let (t2, u) = tag_step(t1, "{user}"@);
    let (t3, p) = tag_step(t2, "{private}"@);
    let (t4, np) = tag_step(t3, "{noprivate}"@);
    let (t5, pr) = tag_step(t4, "{protect}"@);
    let (t6, pv) = tag_step(t5, "{preview}"@);
    let (t7, nn) = tag_step(t6, "{nonotif}"@);
    let (t8, ms) = tag_step(t7, "{mediaspoiler}"@);
    let (t9, rt) = tag_step(t8, "{replytag}"@);
    (
        t9,
        ContentTags {
            admin_only: a,
            user_only: u,
            is_private: p,
            no_private: np,
            protect: pr,
            preview: pv,
            no_notif: nn,
            media_spoiler: ms,
            replytag: rt,
        },
    )
}

/// One step of tag removal on characters.
pub fn tag_step_vec(t: Vec<char>, tag: &str) -> (r: (Vec<char>, bool))
    requires
        tag@.len() > 0,
    ensures
        (r.0@, r.1) == tag_step(t@, tag@),
{
    let pat = chars_of(tag);
    if contains_vec(&t, &pat) {
        let empty: Vec<char> = Vec::new();
        (replace_vec(&t, &pat, &empty), true)
    } else {
        (t, false)
    }
}

/// Parse tags from text.
///
/// Tags: `{admin}`, `{user}`, `{private}`, `{noprivate}`, `{protect}`,
///       `{preview}`, `{nonotif}`, `{mediaspoiler}`, `{replytag}`
///
/// Returns (text without tags, parsed tags)
pub fn parse_tags(input: &str) -> (r: (String, ContentTags))
    ensures
        (r.0@, r.1) == spec_parse_tags(input@),
{
    proof {
        reveal_strlit("{admin}");
        reveal_strlit("{user}");
        reveal_strlit("{private}");
        reveal_strlit("{noprivate}");
        reveal_strlit("{protect}");
        reveal_strlit("{preview}");
        reveal_strlit("{nonotif}");
        reveal_strlit("{mediaspoiler}");
        reveal_strlit("{replytag}");
    }
    let t0 = chars_of(input);
    let (t1, a) = tag_step_vec(t0, "{admin}");
    let (t2, u) = tag_step_vec(t1, "{user}");
    let (t3, p) = tag_step_vec(t2, "{private}");
    let (t4, np) = tag_step_vec(t3, "{noprivate}");
    let (t5, pr) = tag_step_vec(t4, "{protect}");
    let (t6, pv) = tag_step_vec(t5, "{preview}");
    let (t7, nn) = tag_step_vec(t6, "{nonotif}");
    let (t8, ms) = tag_step_vec(t7, "{mediaspoiler}");
    let (t9, rt) = tag_step_vec(t8, "{replytag}");
    let tags = ContentTags {
        admin_only: a,
        user_only: u,
        is_private: p,
        no_private: np,
        protect: pr,
        preview: pv,
        no_notif: nn,
        media_spoiler: ms,
        replytag: rt,
    };
    (string_of(&t9), tags)
}

/// Parse buttons from text.
///
/// Syntax:
/// - `{button:Text|url}` - Single button
/// - `{button:A|url}:{button:B|url}` - Same row (colon joins)
/// - `{button:A|url} {button:B|url}` - Different rows
///
/// Returns (text without buttons, parsed buttons as rows)
pub fn parse_buttons(input: &str) -> (r: (String, Vec<Vec<InlineButton>>))
    ensures
        (r.0@, rows_model(r.1@)) == split_buttons(input@, false),
{
    let chars = chars_of(input);
    let (text, rows) = split_buttons_vec(&chars, false);
    (string_of(&text), rows)
}

/// The non-empty trimmed pieces of `s` between `%%%` separators.
pub open spec fn spec_random_parts(s: Seq<char>) -> Seq<Seq<char>> {
    split_on(s, "%%%"@).map_values(|p: Seq<char>| trim(p)).filter(|p: Seq<char>| p.len() > 0)
}

/// Parse random content separated by %%%
pub fn parse_random_parts(input: &str) -> (r: Vec<String>)
    ensures
        strings_model(r@) == spec_random_parts(input@),
{
    proof {
        reveal_strlit("%%%");
    }
    let chars = chars_of(input);
    let sep = chars_of("%%%");
    let pieces = split_on_vec(&chars, &sep);
    let ghost all = views(pieces@);
    let ghost f = |p: Seq<char>| trim(p);
    let ghost keep = |p: Seq<char>| p.len() > 0;
    let mut out: Vec<String> = Vec::new();
    let mut i: usize = 0;
    assert(all.take(0).map_values(f).filter(keep) =~= Seq::<Seq<char>>::empty());
    assert(strings_model(out@) =~= Seq::<Seq<char>>::empty());
    while i < pieces.len()
        invariant
            i <= pieces.len(),
            all == views(pieces@),
            all == split_on(chars@, sep@),
            f == (|p: Seq<char>| trim(p)),
            keep == (|p: Seq<char>| p.len() > 0),
            strings_model(out@) == all.take(i as int).map_values(f).filter(keep),
        decreases pieces.len() - i,
    {
        let t = trim_vec(&pieces[i]);
        assert(all.take(i + 1).map_values(f) =~= all.take(i as int).map_values(f).push(f(all[i as int])));
        assert(all[i as int] == pieces@[i as int]@);
        proof {
            all.take(i as int).map_values(f).lemma_filter_push(f(all[i as int]), keep);
        }
        if t.len() > 0 {
            let ghost o = out@;
            out.push(string_of(&t));
            assert(strings_model(out@) =~= strings_model(o).push(t@));
        }
        i = i + 1;
    }
    assert(all.take(pieces.len() as int) =~= all);
    out
}

/// Parse content to extract buttons, tags, random parts, and clean text.
pub fn parse_content(input: &str) -> (r: ParsedContent)
    ensures
        r.text@ == trim(spec_parse_tags(split_buttons(input@, false).0).0),
        rows_model(r.buttons@) == split_buttons(input@, false).1,
        r.tags == spec_parse_tags(split_buttons(input@, false).0).1,
        strings_model(r.random_parts@) == (if spec_random_parts(input@).len() > 1 {
            spec_random_parts(input@)
        } else {
            Seq::empty()
        }),
{
    let random_parts = parse_random_parts(input);
    let (text_without_buttons, buttons) = parse_buttons(input);
    let (clean_text, tags) = parse_tags(text_without_buttons.as_str());
    let final_random_parts = if random_parts.len() > 1 {
        random_parts
    } else {
        let v: Vec<String> = Vec::new();
        assert(strings_model(v@) =~= Seq::<Seq<char>>::empty());
        v
    };
    let clean = chars_of(clean_text.as_str());
    let trimmed = trim_vec(&clean);
    ParsedContent {
        text: string_of(&trimmed),
        buttons,
        tags,
        random_parts: final_random_parts,
    }
}

/// `std::time::SystemTime`, a reading of the system clock.
#[verifier::external_type_specification]
#[verifier::external_body]
pub struct ExSystemTime(std::time::SystemTime);

/// `SystemTime::now`: the clock's current reading. Nothing is stated of it.
#[verifier::external_body]
pub(crate) fn system_now() -> std::time::SystemTime {
    std::time::SystemTime::now()
}

/// `SystemTime::duration_since(UNIX_EPOCH)`: the time elapsed since the
/// epoch, none when the reading lies before it. Nothing is stated of the
/// value: it depends on the clock.
#[verifier::external_body]
pub(crate) fn since_epoch(t: std::time::SystemTime) -> Option<core::time::Duration> {
    t.duration_since(std::time::UNIX_EPOCH).ok()
}

/// `Duration::as_secs`: the whole seconds of a duration. Nothing is stated
/// of the value: the duration it reads is a clock reading here.
#[verifier::external_body]
pub(crate) fn whole_secs(d: &core::time::Duration) -> u64 {
    d.as_secs()
}

/// `Duration::subsec_nanos`: the fractional part of a duration in
/// nanoseconds, which the documentation bounds below one second.
#[verifier::external_body]
fn subsec_nanos(d: &core::time::Duration) -> (r: u32)
    ensures
        r < 1_000_000_000,
{
    d.subsec_nanos()
}

impl ParsedContent {
    /// The text to send when the clock reads `nanos` sub-second
    /// nanoseconds: the text when there are no random parts, the only part
    /// when there is one, else the part `nanos` selects.
    pub fn random_text_at(&self, nanos: u32) -> (r: &str)
        ensures
            self.random_parts@.len() == 0 ==> r@ == self.text@,
            self.random_parts@.len() > 0 ==> r@ == self.random_parts@[(nanos as int) % (
            self.random_parts@.len() as int)]@,
    {
        if self.random_parts.len() == 0 {
            self.text.as_str()
        } else if self.random_parts.len() == 1 {
            self.random_parts[0].as_str()
        } else {
            let idx = (nanos as usize) % self.random_parts.len();
            self.random_parts[idx].as_str()
        }
    }

    /// Get a random part (or the text if no random parts)
    pub fn _get_random_text(&self) -> (r: &str)
        ensures
            self.random_parts@.len() == 0 ==> r@ == self.text@,
            self.random_parts@.len() > 0 ==> exists|i: int|
                0 <= i < self.random_parts@.len() && r@ == #[trigger] self.random_parts@[i]@,
    {
        let nanos: u32 = match since_epoch(system_now()) {
            Some(d) => subsec_nanos(&d),
            None => 0,
        };
        let r = self.random_text_at(nanos);
        proof {
            if self.random_parts@.len() > 0 {
                let i = (nanos as int) % (self.random_parts@.len() as int);
                assert(r@ == self.random_parts@[i]@);
            }
        }
        r
    }
}

} // verus!

verus! {

/// `&`, `<` and `>` written as HTML entities, in that order of replacement.
pub open spec fn spec_html_escape(s: Seq<char>) -> Seq<char> {
    replace_all(
        replace_all(replace_all(s, seq!['&'], seq!['&', 'a', 'm', 'p', ';']), seq!['<'], seq!['&', 'l', 't', ';']),
        seq!['>'],
        seq!['&', 'g', 't', ';'],
    )
}

pub fn html_escape_vec(s: &Vec<char>) -> (r: Vec<char>)
    ensures
        r@ == spec_html_escape(s@),
{
    let amp = vec!['&'];
    let amp_e = vec!['&', 'a', 'm', 'p', ';'];
    let lt = vec!['<'];
    let lt_e = vec!['&', 'l', 't', ';'];
    let gt = vec!['>'];
    let gt_e = vec!['&', 'g', 't', ';'];
    assert(amp@ =~= seq!['&']);
    assert(amp_e@ =~= seq!['&', 'a', 'm', 'p', ';']);
    assert(lt@ =~= seq!['<']);
    assert(lt_e@ =~= seq!['&', 'l', 't', ';']);
    assert(gt@ =~= seq!['>']);
    assert(gt_e@ =~= seq!['&', 'g', 't', ';']);
    let a = replace_vec(s, &amp, &amp_e);
    let b = replace_vec(&a, &lt, &lt_e);
    replace_vec(&b, &gt, &gt_e)
}

/// Escape HTML special characters.
pub fn html_escape(s: &str) -> (r: String)
    ensures
        r@ == spec_html_escape(s@),
{
    let v = chars_of(s);
    string_of(&html_escape_vec(&v))
}

/// `<a href="tg://user?id=ID">first name</a>`.
pub open spec fn spec_mention(id: u64, first: Seq<char>) -> Seq<char> {
    "<a href=\"tg://user?id="@ + dec(id as nat) + "\">"@ + spec_html_escape(first) + "</a>"@
}

pub fn mention_vec(id: u64, first: &Vec<char>) -> (r: Vec<char>)
    ensures
        r@ == spec_mention(id, first@),
{
    let a = chars_of("<a href=\"tg://user?id=");
    let b = u64_dec(id);
    let c = chars_of("\">");
    let d = html_escape_vec(first);
    let e = chars_of("</a>");
    let ab = concat_vec(&a, &b);
    let abc = concat_vec(&ab, &c);
    let abcd = concat_vec(&abc, &d);
    concat_vec(&abcd, &e)
}

/// First and last name joined by a space; the first name alone when the
/// last name is empty or absent.
pub open spec fn spec_fullname(first: Seq<char>, last: Seq<char>) -> Seq<char> {
    if last.len() == 0 {
        first
    } else {
        first + seq![' '] + last
    }
}

pub open spec fn last_or_empty(u: UserModel) -> Seq<char> {
    match u.last_name {
        Some(l) => l,
        None => Seq::empty(),
    }
}

/// `@username`, or the mention when the user has no username.
pub open spec fn spec_username_filling(u: UserModel) -> Seq<char> {
    match u.username {
        Some(n) => seq!['@'] + n,
        None => spec_mention(u.id, u.first_name),
    }
}

/// The fillings of `apply_fillings`, replaced in this order.
pub open spec fn spec_apply_fillings(
    text: Seq<char>,
    u: UserModel,
    chat_name: Seq<char>,
    count: Option<u64>,
) -> Seq<char> {
    let first = spec_html_escape(u.first_name);
    let last = spec_html_escape(last_or_empty(u));
    let full = spec_html_escape(spec_fullname(u.first_name, last_or_empty(u)));
    let chat = spec_html_escape(chat_name);
    let count_str = match count {
        Some(c) => dec(c as nat),
        None => Seq::empty(),
    };
    let t1 = replace_all(text, "{first}"@, first);
    let t2 = replace_all(t1, "{firstname}"@, first);
    let t3 = replace_all(t2, "{last}"@, last);
    let t4 = replace_all(t3, "{lastname}"@, last);
    let t5 = replace_all(t4, "{fullname}"@, full);
    let t6 = replace_all(t5, "{username}"@, spec_username_filling(u));
    let t7 = replace_all(t6, "{mention}"@, spec_mention(u.id, u.first_name));
    let t8 = replace_all(t7, "{id}"@, dec(u.id as nat));
    let t9 = replace_all(t8, "{chatname}"@, chat);
    let t10 = replace_all(t9, "{group}"@, chat);
    replace_all(t10, "{count}"@, count_str)
}

/// Every occurrence of the literal `pat` in `t` replaced by `rep`.
pub fn replace_lit(t: &Vec<char>, pat: &str, rep: &Vec<char>) -> (r: Vec<char>)
    requires
        pat@.len() > 0,
    ensures
        r@ == replace_all(t@, pat@, rep@),
{
    let p = chars_of(pat);
    replace_vec(t, &p, rep)
}

pub fn fullname_vec(first: &Vec<char>, last: &Vec<char>) -> (r: Vec<char>)
    ensures
        r@ == spec_fullname(first@, last@),
{
    if last.len() == 0 {
        first.clone()
    } else {
        let mut a = first.clone();
        a.push(' ');
        concat_vec(&a, last)
    }
}

pub fn user_last_vec(user: &UserInfo) -> (r: Vec<char>)
    ensures
        r@ == last_or_empty(user@),
{
    match &user.last_name {
        Some(l) => chars_of(l.as_str()),
        None => Vec::new(),
    }
}

/// Apply fillings (placeholders) to text.
///
/// Fillings:
/// - `{first}` / `{firstname}` - First name
/// - `{last}` / `{lastname}` - Last name
/// - `{fullname}` - Full name
/// - `{username}` - @username or mention
/// - `{mention}` - Mention with name
/// - `{id}` - User ID
/// - `{chatname}` / `{group}` - Chat name
/// - `{count}` - Member count (if provided)
pub fn apply_fillings(text: &str, user: &UserInfo, chat_name: &str, count: Option<u64>) -> (r:
    String)
    ensures
        r@ == spec_apply_fillings(text@, user@, chat_name@, count),
{
    proof {
        reveal_strlit("{first}");
        reveal_strlit("{firstname}");
        reveal_strlit("{last}");
        reveal_strlit("{lastname}");
        reveal_strlit("{fullname}");
        reveal_strlit("{username}");
        reveal_strlit("{mention}");
        reveal_strlit("{id}");
        reveal_strlit("{chatname}");
        reveal_strlit("{group}");
        reveal_strlit("{count}");
    }
    let first_raw = chars_of(user.first_name.as_str());
    let last_raw = user_last_vec(user);
    let first = html_escape_vec(&first_raw);
    let last = html_escape_vec(&last_raw);
    let full = html_escape_vec(&fullname_vec(&first_raw, &last_raw));
    let mention = mention_vec(user.id, &first_raw);
    let username = match &user.username {
        Some(n) => {
            let mut at: Vec<char> = Vec::new();
            at.push('@');
            let nv = chars_of(n.as_str());
            assert(at@ =~= seq!['@']);
            concat_vec(&at, &nv)
        },
        None => mention.clone(),
    };
    let chat = html_escape_vec(&chars_of(chat_name));
    let count_str = match count {
        Some(c) => u64_dec(c),
        None => Vec::new(),
    };
    let t0 = chars_of(text);
    let t1 = replace_lit(&t0, "{first}", &first);
    let t2 = replace_lit(&t1, "{firstname}", &first);
    let t3 = replace_lit(&t2, "{last}", &last);
    let t4 = replace_lit(&t3, "{lastname}", &last);
    let t5 = replace_lit(&t4, "{fullname}", &full);
    let t6 = replace_lit(&t5, "{username}", &username);
    let t7 = replace_lit(&t6, "{mention}", &mention);
    let t8 = replace_lit(&t7, "{id}", &u64_dec(user.id));
    let t9 = replace_lit(&t8, "{chatname}", &chat);
    let t10 = replace_lit(&t9, "{group}", &chat);
    let t11 = replace_lit(&t10, "{count}", &count_str);
    string_of(&t11)
}

/// The deep link that opens a group's rules in private chat.
pub open spec fn spec_rules_url(bot_username: Seq<char>, chat_id: i64) -> Seq<char> {
    "https://t.me/"@ + bot_username + "?start=rules_"@ + dec_int(chat_id as int)
}

pub fn rules_url_vec(bot_username: &str, chat_id: i64) -> (r: Vec<char>)
    ensures
        r@ == spec_rules_url(bot_username@, chat_id),
{
    let a = chars_of("https://t.me/");
    let b = chars_of(bot_username);
    let c = chars_of("?start=rules_");
    let d = i64_dec(chat_id);
    let ab = concat_vec(&a, &b);
    let abc = concat_vec(&ab, &c);
    concat_vec(&abc, &d)
}

/// The label of the rules button.
pub open spec fn rules_label() -> Seq<char> {
    "📜 Peraturan"@
}

/// `{rules:same}` then `{rules}`: each one present is removed and adds a
/// rules button, on the previous row (`true`) or on a new row (`false`).
pub open spec fn spec_rules_filling(text: Seq<char>, chat_id: i64, bot_username: Seq<char>) -> (
    Seq<char>,
    Seq<(ButtonModel, bool)>,
) {
    let btn = (rules_label(), spec_rules_url(bot_username, chat_id));
    let (r1, b1) = if contains(text, "{rules:same}"@) {
        (replace_all(text, "{rules:same}"@, Seq::empty()), seq![(btn, true)])
    } else {
        (text, Seq::empty())
    };
    if contains(r1, "{rules}"@) {
        (replace_all(r1, "{rules}"@, Seq::empty()), b1.push((btn, false)))
    } else {
        (r1, b1)
    }
}

pub open spec fn flagged_model(v: Seq<(InlineButton, bool)>) -> Seq<(ButtonModel, bool)> {
    v.map_values(|p: (InlineButton, bool)| (p.0@, p.1))
}

pub fn rules_filling(text: &str, chat_id: i64, bot_username: &str) -> (r: (
    String,
    Vec<(InlineButton, bool)>,
))
    ensures
        (r.0@, flagged_model(r.1@)) == spec_rules_filling(text@, chat_id, bot_username@),
{
    proof {
        reveal_strlit("{rules:same}");
        reveal_strlit("{rules}");
    }
    let url = rules_url_vec(bot_username, chat_id);
    let label = "📜 Peraturan";
    let mut buttons: Vec<(InlineButton, bool)> = Vec::new();
    let t0 = chars_of(text);
    let same = chars_of("{rules:same}");
    let plain = chars_of("{rules}");
    let empty: Vec<char> = Vec::new();
    let t1 = if contains_vec(&t0, &same) {
        let b = InlineButton::new(label.to_owned(), string_of(&url));
        buttons.push((b, true));
        replace_vec(&t0, &same, &empty)
    } else {
        t0
    };
    let ghost b1 = flagged_model(buttons@);
    let t2 = if contains_vec(&t1, &plain) {
        let b = InlineButton::new(label.to_owned(), string_of(&url));
        buttons.push((b, false));
        assert(flagged_model(buttons@) =~= b1.push(((rules_label(), url@), false)));
        replace_vec(&t1, &plain, &empty)
    } else {
        t1
    };
    assert(flagged_model(buttons@) =~= spec_rules_filling(text@, chat_id, bot_username@).1);
    (string_of(&t2), buttons)
}

/// Apply {rules} filling - creates a deep link button.
/// Returns (text, additional rule buttons with same_row flag)
pub fn _apply_rules_filling(text: &str, chat_id: i64, bot_username: &str) -> (r: (
    String,
    Vec<(InlineButton, bool)>,
))
    ensures
        (r.0@, flagged_model(r.1@)) == spec_rules_filling(text@, chat_id, bot_username@),
{
    rules_filling(text, chat_id, bot_username)
}

} // verus!

verus! {

/// Format relative time duration in Indonesian.
pub open spec fn spec_format_duration_id(secs: nat) -> Seq<char> {
    if secs < 60 {
        dec(secs) + " detik"@
    } else if secs < 3600 {
        dec(secs / 60) + " menit"@
    } else if secs < 86400 {
        dec(secs / 3600) + " jam"@
    } else {
        dec(secs / 86400) + " hari"@
    }
}

fn number_then(n: u64, suffix: &str) -> (r: Vec<char>)
    ensures
        r@ == dec(n as nat) + suffix@,
{
    let a = u64_dec(n);
    let b = chars_of(suffix);
    concat_vec(&a, &b)
}

/// Format relative time duration in Indonesian.
pub fn _format_duration_id(secs: u64) -> (r: String)
    ensures
        r@ == spec_format_duration_id(secs as nat),
{
    let v = if secs < 60 {
        number_then(secs, " detik")
    } else if secs < 3600 {
        number_then(secs / 60, " menit")
    } else if secs < 86400 {
        number_then(secs / 3600, " jam")
    } else {
        number_then(secs / 86400, " hari")
    };
    string_of(&v)
}

/// Seconds, minutes, hours (with minutes when there are any) or days (with
/// hours when there are any), in Indonesian.
pub open spec fn spec_format_duration_full(secs: nat) -> Seq<char> {
    if secs < 60 {
        dec(secs) + " detik"@
    } else if secs < 3600 {
        dec(secs / 60) + " menit"@
    } else if secs < 86400 {
        let hours = secs / 3600;
        let mins = (secs % 3600) / 60;
        if mins > 0 {
            dec(hours) + " jam "@ + dec(mins) + " menit"@
        } else {
            dec(hours) + " jam"@
        }
    } else {
        let days = secs / 86400;
        let hours = (secs % 86400) / 3600;
        if hours > 0 {
            dec(days) + " hari "@ + dec(hours) + " jam"@
        } else {
            dec(days) + " hari"@
        }
    }
}

/// Format relative time duration with more detail (hours + minutes).
pub fn format_duration_full(secs: u64) -> (r: String)
    ensures
        r@ == spec_format_duration_full(secs as nat),
{
    let v = if secs < 60 {
        number_then(secs, " detik")
    } else if secs < 3600 {
        number_then(secs / 60, " menit")
    } else if secs < 86400 {
        let hours = secs / 3600;
        let mins = (secs % 3600) / 60;
        if mins > 0 {
            let a = number_then(hours, " jam ");
            let b = number_then(mins, " menit");
            let r = concat_vec(&a, &b);
            assert(r@ =~= dec(hours as nat) + " jam "@ + dec(mins as nat) + " menit"@);
            r
        } else {
            number_then(hours, " jam")
        }
    } else {
        let days = secs / 86400;
        let hours = (secs % 86400) / 3600;
        if hours > 0 {
            let a = number_then(days, " hari ");
            let b = number_then(hours, " jam");
            let r = concat_vec(&a, &b);
            assert(r@ =~= dec(days as nat) + " hari "@ + dec(hours as nat) + " jam"@);
            r
        } else {
            number_then(days, " hari")
        }
    };
    string_of(&v)
}

/// Seconds per unit: `m` minutes, `h` hours, `d` days, `w` weeks.
pub open spec fn unit_secs(c: char) -> Option<nat> {
    if c == 'm' {
        Some(60)
    } else if c == 'h' {
        Some(3600)
    } else if c == 'd' {
        Some(86400)
    } else if c == 'w' {
        Some(604800)
    } else {
        None
    }
}

/// The seconds written as a number followed by one unit letter, after
/// trimming.
pub open spec fn spec_parse_duration(s: Seq<char>) -> Option<nat> {
    let t = trim(s);
    if t.len() == 0 {
        None
    } else {
        match parse_unsigned(t.drop_last(), u64::MAX as nat) {
            Some(a) => match unit_secs(t.last()) {
                Some(k) => Some(a * k),
                None => None,
            },
            None => None,
        }
    }
}

/// The inputs `parse_duration` takes without panicking: the trimmed text
/// ends in an ASCII character (it is split one byte before its end) and the
/// seconds fit in `u64`.
pub open spec fn duration_input_ok(s: Seq<char>) -> bool {
    let t = trim(s);
    t.len() > 0 ==> ((t.last() as u32) < 0x80 && (spec_parse_duration(s) matches Some(n) ==> n
        <= u64::MAX))
}

/// Seconds of a duration text, as `parse_duration` reads it.
pub fn parse_duration_secs(input: &Vec<char>) -> (r: Option<u64>)
    requires
        duration_input_ok(input@),
    ensures
        match r {
            Some(n) => spec_parse_duration(input@) == Some(n as nat),
            None => spec_parse_duration(input@) is None,
        },
{
    let t = trim_vec(input);
    if t.len() == 0 {
        return None;
    }
    let digits = crate::text::slice_vec(&t, 0, t.len() - 1);
    assert(digits@ =~= t@.drop_last());
    let amount = match parse_u64_vec(&digits) {
        Some(a) => a,
        None => {
            return None;
        },
    };
    let unit = t[t.len() - 1];
    let k: u64 = if unit == 'm' {
        60
    } else if unit == 'h' {
        3600
    } else if unit == 'd' {
        86400
    } else if unit == 'w' {
        604800
    } else {
        return None;
    };
    assert(spec_parse_duration(input@) == Some(amount as nat * k as nat));
    Some(amount * k)
}

/// Whether `parse_duration` reads the text without panicking.
pub fn duration_input_checked(input: &Vec<char>) -> (b: bool)
    ensures
        b == duration_input_ok(input@),
{
    let t = trim_vec(input);
    if t.len() == 0 {
        return true;
    }
    let unit = t[t.len() - 1];
    if (unit as u32) >= 0x80 {
        return false;
    }
    let digits = crate::text::slice_vec(&t, 0, t.len() - 1);
    assert(digits@ =~= t@.drop_last());
    let amount = match parse_u64_vec(&digits) {
        Some(a) => a,
        None => {
            return true;
        },
    };
    let k: u64 = if unit == 'm' {
        60
    } else if unit == 'h' {
        3600
    } else if unit == 'd' {
        86400
    } else if unit == 'w' {
        604800
    } else {
        return true;
    };
    assert(spec_parse_duration(input@) == Some(amount as nat * k as nat));
    let fits = amount <= u64::MAX / k;
    assert(fits <==> amount as nat * k as nat <= u64::MAX) by (nonlinear_arith)
        requires
            fits == (amount <= u64::MAX / k),
            k > 0,
    ;
    fits
}

/// `core::time::Duration::from_secs`, by what it is given.
pub uninterp spec fn duration_of_secs(secs: u64) -> core::time::Duration;

/// `Duration::from_secs`: the duration of `secs` whole seconds; the result is
/// named by `duration_of_secs`.
#[verifier::external_body]
fn duration_from_secs(secs: u64) -> (d: core::time::Duration)
    ensures
        d == duration_of_secs(secs),
{
    core::time::Duration::from_secs(secs)
}

/// Parse duration string (e.g., "1h", "30m", "1d").
///
/// Supported units:
/// - m: minutes
/// - h: hours
/// - d: days
/// - w: weeks
pub fn parse_duration(input: &str) -> (r: Option<core::time::Duration>)
    requires
        duration_input_ok(input@),
    ensures
        r == match spec_parse_duration(input@) {
            Some(n) => Some(duration_of_secs(n as u64)),
            None => None,
        },
{
    let v = chars_of(input);
    match parse_duration_secs(&v) {
        Some(n) => Some(duration_from_secs(n)),
        None => None,
    }
}

} // verus!
