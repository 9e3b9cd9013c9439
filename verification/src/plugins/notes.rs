//! Notes plugin.
//!
//! Saving, listing, fetching and deleting a chat's notes, and the message a
//! note is answered with. Note names are lower-cased with `str::to_lowercase`;
//! each command that does so states its answer for the name that call gives,
//! and a function taking that name as argument states the rest exactly.

use vstd::prelude::*;
use crate::markup::{
    ButtonModel, InlineButton, Keyboard, TextModelRows, UserInfo, compact_url_keyboard,
    nonempty_url_rows, rows_model,
};
use crate::plugins::common::{CommandMsg, Text, TextModel, args_of, args_vec, text_chars, text_of};
use crate::plugins::media::{Content, media_view, note_media, note_media_of, opt_view};
use crate::text::{
    chars_of, concat_vec, lowercase, occurs_at, occurs_at_vec, slice_vec, starts_with, string_of,
    to_lowercase, trim, trim_vec, views, words, words_vec,
};
use crate::utils::buttons::{split_buttons, split_buttons_vec};
use crate::utils::parser::{apply_fillings, html_escape_vec, spec_apply_fillings, spec_html_escape};
use crate::utils::target::{strip_ats, strip_ats_vec};

verus! {

/// A saved note.
#[derive(Debug, Clone, PartialEq, Eq)]
pub struct Note {
    pub name: String,
    pub content: String,
    pub buttons: Vec<Vec<InlineButton>>,
    pub file_id: Option<String>,
    pub file_type: Option<String>,
}

pub struct NoteModel {
    pub name: Seq<char>,
    pub content: Seq<char>,
    pub buttons: Seq<Seq<ButtonModel>>,
    pub file_id: Option<Seq<char>>,
    pub file_type: Option<Seq<char>>,
}

impl View for Note {
    type V = NoteModel;

    open spec fn view(&self) -> NoteModel {
        NoteModel {
            name: self.name@,
            content: self.content@,
            buttons: rows_model(self.buttons@),
            file_id: opt_view(self.file_id),
            file_type: opt_view(self.file_type),
        }
    }
}

/// The decision of a notes command.
#[derive(Debug, Clone, PartialEq, Eq)]
pub enum NoteOutcome {
    Ignore,
    /// Reply with the text (as HTML when the flag is set).
    Reply(Text, bool),
    /// Send the text to the chat without replying to the command.
    Say(Text),
    /// Store the note, then reply with the text (HTML).
    Save(Note, Text),
    /// Read the chat's note names and answer with `list_notes`.
    LoadNames,
    /// Read the note of this name; answer with `send_note_response` when it
    /// exists, else with `note_not_found`.
    Fetch(String),
    /// Delete the note of this name, then answer with `cleared_reply`.
    Delete(String),
}

pub enum NoteOutcomeModel {
    Ignore,
    Reply(TextModel, bool),
    Say(TextModel),
    Save(NoteModel, TextModel),
    LoadNames,
    Fetch(Seq<char>),
    Delete(Seq<char>),
}

impl View for NoteOutcome {
    type V = NoteOutcomeModel;

    open spec fn view(&self) -> NoteOutcomeModel {
        match self {
            NoteOutcome::Ignore => NoteOutcomeModel::Ignore,
            NoteOutcome::Reply(t, h) => NoteOutcomeModel::Reply(t@, *h),
            NoteOutcome::Say(t) => NoteOutcomeModel::Say(t@),
            NoteOutcome::Save(n, t) => NoteOutcomeModel::Save(n@, t@),
            NoteOutcome::LoadNames => NoteOutcomeModel::LoadNames,
            NoteOutcome::Fetch(n) => NoteOutcomeModel::Fetch(n@),
            NoteOutcome::Delete(n) => NoteOutcomeModel::Delete(n@),
        }
    }
}

/// The first index from `i` on where `pat` occurs in `s`.
pub open spec fn first_occurrence(s: Seq<char>, pat: Seq<char>, i: int) -> Option<int>
    decreases s.len() + 1 - i,
{
    if i < 0 || i + pat.len() > s.len() {
        None
    } else if occurs_at(s, pat, i) {
        Some(i)
    } else {
        first_occurrence(s, pat, i + 1)
    }
}

/// `str::split_once`: the text before and after the first occurrence of
/// `pat`.
pub open spec fn split_once(s: Seq<char>, pat: Seq<char>) -> Option<(Seq<char>, Seq<char>)> {
    match first_occurrence(s, pat, 0) {
        Some(i) => Some((s.take(i), s.skip(i + pat.len()))),
        None => None,
    }
}

proof fn lemma_first_occurrence(s: Seq<char>, pat: Seq<char>, i: int)
    requires
        0 <= i,
    ensures
        first_occurrence(s, pat, i) matches Some(j) ==> i <= j && j + pat.len() <= s.len(),
    decreases s.len() + 1 - i,
{
    if i + pat.len() <= s.len() && !occurs_at(s, pat, i) {
        lemma_first_occurrence(s, pat, i + 1);
    }
}

fn split_once_vec(s: &Vec<char>, pat: &Vec<char>) -> (r: Option<(Vec<char>, Vec<char>)>)
    ensures
        match r {
            Some((a, b)) => split_once(s@, pat@) == Some((a@, b@)),
            None => split_once(s@, pat@) is None,
        },
{
    if pat.len() > s.len() {
        return None;
    }
    if pat.len() == 0 {
        assert(occurs_at(s@, pat@, 0)) by {
            assert(s@.subrange(0, 0) =~= pat@);
        }
        let b = slice_vec(s, 0, s.len());
        assert(b@ =~= s@.skip(0));
        assert(Seq::<char>::empty() =~= s@.take(0));
        return Some((Vec::new(), b));
    }
    let limit = s.len() - pat.len() + 1;
    let mut i: usize = 0;
    while i < limit
        invariant
            1 <= pat.len() <= s.len(),
            limit == s.len() - pat.len() + 1,
            i <= limit,
            first_occurrence(s@, pat@, 0) == first_occurrence(s@, pat@, i as int),
        decreases limit - i,
    {
        if occurs_at_vec(s, pat, i) {
            let a = slice_vec(s, 0, i);
            let b = slice_vec(s, i + pat.len(), s.len());
            assert(a@ =~= s@.take(i as int));
            assert(b@ =~= s@.skip(i + pat.len()));
            return Some((a, b));
        }
        i = i + 1;
    }
    None
}

/// The content saved under `name`: the trimmed text after the first
/// occurrence of `name` in the message (empty when it does not occur).
pub open spec fn note_content(m: CommandMsg, name: Seq<char>) -> Seq<char> {
    match split_once(text_of(m), name) {
        Some((_, after)) => trim(after),
        None => Seq::empty(),
    }
}

/// `✅ Note <code>name</code> berhasil disimpan!` with the name escaped.
pub open spec fn saved_text(name: Seq<char>) -> Seq<char> {
    "✅ Note <code>"@ + spec_html_escape(name) + "</code> berhasil disimpan!"@
}

/// The media a saved note keeps: from the replied message.
pub open spec fn saved_media(m: CommandMsg) -> (Option<Seq<char>>, Option<Seq<char>>) {
    match m.reply {
        Some(r) => note_media(r.content),
        None => (None, None),
    }
}

/// /save with `name` (the lower-cased first argument): the text after the
/// name, without its buttons, is saved with them and with the replied
/// message's media.
pub open spec fn spec_save_note(m: CommandMsg, name: Seq<char>) -> NoteOutcomeModel {
    let content = note_content(m, name);
    if args_of(m).len() < 2 {
        NoteOutcomeModel::Reply(TextModel::Plain("❌ Format: <code>/save nama konten</code>"@), true)
    } else if content.len() == 0 {
        NoteOutcomeModel::Reply(TextModel::Plain("❌ Konten tidak boleh kosong."@), false)
    } else {
        let (clean, rows) = split_buttons(content, false);
        NoteOutcomeModel::Save(
            NoteModel {
                name,
                content: clean,
                buttons: rows,
                file_id: saved_media(m).0,
                file_type: saved_media(m).1,
            },
            TextModel::Plain(saved_text(name)),
        )
    }
}

fn saved_media_of(m: &CommandMsg) -> (r: (Option<String>, Option<String>))
    ensures
        media_view(r) == saved_media(*m),
{
    match &m.reply {
        Some(r) => note_media_of(&r.content),
        None => (None, None),
    }
}

/// Saves a note named `name` (the lower-cased name) from the message.
pub fn save_note(m: &CommandMsg, name: &str) -> (r: NoteOutcome)
    ensures
        r@ == spec_save_note(*m, name@),
{
    let args = args_vec(m);
    if args.len() < 2 {
        return NoteOutcome::Reply(Text::Plain("❌ Format: <code>/save nama konten</code>".to_owned()), true);
    }
    let text = text_chars(m);
    let content = match split_once_vec(&text, &chars_of(name)) {
        Some((_, after)) => trim_vec(&after),
        None => Vec::new(),
    };
    if content.len() == 0 {
        return NoteOutcome::Reply(Text::Plain("❌ Konten tidak boleh kosong.".to_owned()), false);
    }
    let (clean, rows) = split_buttons_vec(&content, false);
    let (file_id, file_type) = saved_media_of(m);
    let reply = concat_vec(
        &concat_vec(&chars_of("✅ Note <code>"), &html_escape_vec(&chars_of(name))),
        &chars_of("</code> berhasil disimpan!"),
    );
    let note = Note { name: name.to_owned(), content: string_of(&clean), buttons: rows, file_id, file_type };
    NoteOutcome::Save(note, Text::Plain(string_of(&reply)))
}

/// Save note command: in groups, saves the note named by the first
/// argument, lower-cased.
pub fn save_command(m: &CommandMsg) -> (r: NoteOutcome)
    ensures
        !m.in_group ==> r@ == NoteOutcomeModel::Ignore,
        m.in_group && args_of(*m).len() < 2 ==> r@ == spec_save_note(*m, Seq::empty()),
        m.in_group && args_of(*m).len() >= 2 ==> r@ == spec_save_note(*m, lowercase(args_of(*m)[0])),
{
    if !m.in_group {
        return NoteOutcome::Ignore;
    }
    let args = args_vec(m);
    if args.len() < 2 {
        return save_note(m, "");
    }
    assert(views(args@)[0] == args@[0]@);
    let name = to_lowercase(string_of(&args[0]).as_str());
    save_note(m, name.as_str())
}

/// The list of names: `• <code>#name</code>` lines under a title.
pub open spec fn note_lines(names: Seq<Seq<char>>) -> Seq<char>
    decreases names.len(),
{
    if names.len() == 0 {
        Seq::empty()
    } else if names.len() == 1 {
        "• <code>#"@ + spec_html_escape(names[0]) + "</code>"@
    } else {
        note_lines(names.drop_last()) + "\n• <code>#"@ + spec_html_escape(names.last()) + "</code>"@
    }
}

pub open spec fn strings_view(v: Seq<String>) -> Seq<Seq<char>> {
    v.map_values(|s: String| s@)
}

/// The answer to /notes: the chat's note names, or that there are none.
pub open spec fn spec_list_notes(names: Seq<Seq<char>>) -> (TextModel, bool) {
    if names.len() == 0 {
        (TextModel::Plain("❌ Belum ada notes di grup ini."@), false)
    } else {
        (TextModel::Plain("<b>📝 Daftar Notes:</b>\n\n"@ + note_lines(names)), true)
    }
}

/// The answer to /notes once the names are read: the text, and whether it
/// is HTML.
pub fn list_notes(names: &Vec<String>) -> (r: (Text, bool))
    ensures
        (r.0@, r.1) == spec_list_notes(strings_view(names@)),
{
    if names.len() == 0 {
        return (Text::Plain("❌ Belum ada notes di grup ini.".to_owned()), false);
    }
    let ghost nv = strings_view(names@);
    let mut lines: Vec<char> = Vec::new();
    let mut i: usize = 0;
    while i < names.len()
        invariant
            i <= names.len(),
            nv == strings_view(names@),
            lines@ == note_lines(nv.take(i as int)),
        decreases names.len() - i,
    {
        let item = concat_vec(
            &concat_vec(&chars_of("• <code>#"), &html_escape_vec(&chars_of(names[i].as_str()))),
            &chars_of("</code>"),
        );
        assert(nv.take(i + 1).drop_last() =~= nv.take(i as int));
        assert(nv.take(i + 1).last() == names@[i as int]@);
        if i == 0 {
            assert(nv.take(1)[0] == names@[0]@);
            lines = item;
        } else {
            let ghost before = lines@;
            lines = concat_vec(&concat_vec(&lines, &chars_of("\n")), &item);
            assert(lines@ =~= before + "\n• <code>#"@ + spec_html_escape(names@[i as int]@) + "</code>"@) by {
                reveal_strlit("\n");
                reveal_strlit("• <code>#");
                reveal_strlit("\n• <code>#");
            }
        }
        i = i + 1;
    }
    assert(nv.take(names.len() as int) =~= nv);
    let t = concat_vec(&chars_of("<b>📝 Daftar Notes:</b>\n\n"), &lines);
    (Text::Plain(string_of(&t)), true)
}

/// List notes command.
pub fn notes_command(m: &CommandMsg) -> (r: NoteOutcome)
    ensures
        r@ == if m.in_group {
            NoteOutcomeModel::LoadNames
        } else {
            NoteOutcomeModel::Ignore
        },
{
    if !m.in_group {
        NoteOutcome::Ignore
    } else {
        NoteOutcome::LoadNames
    }
}

/// The note /get looks up, from the lower-cased first argument: without
/// leading `#`.
pub open spec fn spec_get_note(name: Seq<char>) -> NoteOutcomeModel {
    NoteOutcomeModel::Fetch(strip_ats_hash(name))
}

/// `s` without its leading `#` characters.
pub open spec fn strip_ats_hash(s: Seq<char>) -> Seq<char>
    decreases s.len(),
{
    if s.len() > 0 && s[0] == '#' {
        strip_ats_hash(s.drop_first())
    } else {
        s
    }
}

fn strip_hash_vec(s: &Vec<char>) -> (r: Vec<char>)
    ensures
        r@ == strip_ats_hash(s@),
{
    let mut i: usize = 0;
    assert(s@.skip(0) =~= s@);
    while i < s.len() && s[i] == '#'
        invariant
            i <= s.len(),
            strip_ats_hash(s@) == strip_ats_hash(s@.skip(i as int)),
        decreases s.len() - i,
    {
        assert(s@.skip(i as int).drop_first() =~= s@.skip(i + 1));
        i = i + 1;
    }
    assert(i < s.len() ==> s@.skip(i as int)[0] == s@[i as int]);
    slice_vec(s, i, s.len())
}

/// The note looked up for the lower-cased name.
pub fn get_note(name: &str) -> (r: NoteOutcome)
    ensures
        r@ == spec_get_note(name@),
{
    NoteOutcome::Fetch(string_of(&strip_hash_vec(&chars_of(name))))
}

/// Get note command: in groups, fetches the note named by the first
/// argument, lower-cased.
pub fn get_command(m: &CommandMsg) -> (r: NoteOutcome)
    ensures
        !m.in_group || args_of(*m).len() == 0 ==> r@ == NoteOutcomeModel::Ignore,
        m.in_group && args_of(*m).len() > 0 ==> r@ == spec_get_note(lowercase(args_of(*m)[0])),
{
    if !m.in_group {
        return NoteOutcome::Ignore;
    }
    let args = args_vec(m);
    if args.len() == 0 {
        return NoteOutcome::Ignore;
    }
    assert(views(args@)[0] == args@[0]@);
    let name = to_lowercase(string_of(&args[0]).as_str());
    get_note(name.as_str())
}

/// The answer when the looked-up note does not exist (HTML).
pub fn note_not_found(name: &str) -> (t: Text)
    ensures
        t@ == TextModel::Plain(
            "❌ Note <code>"@ + spec_html_escape(name@) + "</code> tidak ditemukan."@,
        ),
{
    let v = concat_vec(
        &concat_vec(&chars_of("❌ Note <code>"), &html_escape_vec(&chars_of(name))),
        &chars_of("</code> tidak ditemukan."),
    );
    Text::Plain(string_of(&v))
}

/// Clear note command: in groups, deletes the note named by the first
/// argument, lower-cased.
pub fn clear_command(m: &CommandMsg) -> (r: NoteOutcome)
    ensures
        !m.in_group || args_of(*m).len() == 0 ==> r@ == NoteOutcomeModel::Ignore,
        m.in_group && args_of(*m).len() > 0 ==> r@ == NoteOutcomeModel::Delete(
            lowercase(args_of(*m)[0]),
        ),
{
    if !m.in_group {
        return NoteOutcome::Ignore;
    }
    let args = args_vec(m);
    if args.len() == 0 {
        return NoteOutcome::Ignore;
    }
    assert(views(args@)[0] == args@[0]@);
    NoteOutcome::Delete(to_lowercase(string_of(&args[0]).as_str()))
}

/// The answer after a deletion: the note's name when it existed (HTML).
pub fn cleared_reply(deleted: bool, name: &str) -> (r: (Text, bool))
    ensures
        deleted ==> r.0@ == TextModel::Plain(
            "✅ Note <code>"@ + spec_html_escape(name@) + "</code> berhasil dihapus."@,
        ) && r.1,
        !deleted ==> r.0@ == TextModel::Plain("❌ Note tidak ditemukan."@) && !r.1,
{
    if deleted {
        let v = concat_vec(
            &concat_vec(&chars_of("✅ Note <code>"), &html_escape_vec(&chars_of(name))),
            &chars_of("</code> berhasil dihapus."),
        );
        (Text::Plain(string_of(&v)), true)
    } else {
        (Text::Plain("❌ Note tidak ditemukan.".to_owned()), false)
    }
}

/// Clear all notes command (not available yet).
pub fn clearall_command(m: &CommandMsg) -> (r: NoteOutcome)
    ensures
        r@ == if m.in_group {
            NoteOutcomeModel::Say(TextModel::Plain("❌ Fitur clearall belum diimplementasikan."@))
        } else {
            NoteOutcomeModel::Ignore
        },
{
    if !m.in_group {
        NoteOutcome::Ignore
    } else {
        NoteOutcome::Say(Text::Plain("❌ Fitur clearall belum diimplementasikan.".to_owned()))
    }
}

/// Toggle private notes command (not available yet).
pub fn privatenotes_command(m: &CommandMsg) -> (r: NoteOutcome)
    ensures
        r@ == if m.in_group {
            NoteOutcomeModel::Say(TextModel::Plain("❌ Fitur privatenotes belum diimplementasikan."@))
        } else {
            NoteOutcomeModel::Ignore
        },
{
    if !m.in_group {
        NoteOutcome::Ignore
    } else {
        NoteOutcome::Say(Text::Plain("❌ Fitur privatenotes belum diimplementasikan.".to_owned()))
    }
}

/// How a note is sent.
#[derive(Debug, Clone, PartialEq, Eq)]
pub enum NoteSend {
    /// A text message (HTML).
    Message(String),
    /// A photo, video or document by file id, with the text as HTML
    /// caption when it is not empty.
    Photo(String, Option<String>),
    Video(String, Option<String>),
    Document(String, Option<String>),
    /// Nothing: the note's media is of another kind.
    Nothing,
}

pub enum NoteSendModel {
    Message(Seq<char>),
    Photo(Seq<char>, Option<Seq<char>>),
    Video(Seq<char>, Option<Seq<char>>),
    Document(Seq<char>, Option<Seq<char>>),
    Nothing,
}

/// A note's answer: how it is sent, its keyboard, and the message it
/// replies to.
#[derive(Debug, Clone, PartialEq, Eq)]
pub struct NoteResponse {
    pub send: NoteSend,
    pub keyboard: Option<Keyboard>,
    pub reply_to: i32,
}

pub open spec fn response_view(r: NoteResponse) -> (NoteSendModel, Option<TextModelRows>, i32) {
    (
        match r.send {
            NoteSend::Message(t) => NoteSendModel::Message(t@),
            NoteSend::Photo(f, c) => NoteSendModel::Photo(f@, opt_view(c)),
            NoteSend::Video(f, c) => NoteSendModel::Video(f@, opt_view(c)),
            NoteSend::Document(f, c) => NoteSendModel::Document(f@, opt_view(c)),
            NoteSend::Nothing => NoteSendModel::Nothing,
        },
        match r.keyboard {
            Some(k) => Some(k@),
            None => None,
        },
        r.reply_to,
    )
}

/// The note's answer to the message's sender: the content with its
/// fillings applied (chat name `Grup`), sent with the note's media when it
/// is a photo, video or document, and the URL buttons whose URL parses
/// (rows left empty dropped); it replies to the replied message, else to
/// the command.
pub open spec fn spec_note_response(m: CommandMsg, note: NoteModel, user: UserInfo) -> (
    NoteSendModel,
    Option<TextModelRows>,
    i32,
) {
    let text = spec_apply_fillings(note.content, user@, "Grup"@, None);
    let caption = if text.len() > 0 {
        Some(text)
    } else {
        None
    };
    let send = match (note.file_id, note.file_type) {
        (Some(f), Some(t)) => if t == "photo"@ {
            NoteSendModel::Photo(f, caption)
        } else if t == "video"@ {
            NoteSendModel::Video(f, caption)
        } else if t == "document"@ {
            NoteSendModel::Document(f, caption)
        } else {
            NoteSendModel::Nothing
        },
        _ => NoteSendModel::Message(text),
    };
    let rows = nonempty_url_rows(note.buttons);
    (
        send,
        if rows.len() == 0 {
            None
        } else {
            Some(rows)
        },
        match m.reply {
            Some(r) => r.msg_id,
            None => m.msg_id,
        },
    )
}

/// The answer with a note; the message must have a sender.
pub fn send_note_response(m: &CommandMsg, note: &Note) -> (r: NoteResponse)
    requires
        m.from is Some,
    ensures
        response_view(r) == spec_note_response(*m, note@, m.from.unwrap()),
{
    let user = match &m.from {
        Some(u) => u,
        None => {
            return NoteResponse { send: NoteSend::Nothing, keyboard: None, reply_to: m.msg_id };
        },
    };
    let text = apply_fillings(note.content.as_str(), user, "Grup", None);
    let caption = if !text.as_str().is_empty() {
        Some(text.clone())
    } else {
        None
    };
    let send = match (&note.file_id, &note.file_type) {
        (Some(f), Some(t)) => {
            let tv = chars_of(t.as_str());
            if crate::text::is_text(&tv, "photo") {
                NoteSend::Photo(f.clone(), caption)
            } else if crate::text::is_text(&tv, "video") {
                NoteSend::Video(f.clone(), caption)
            } else if crate::text::is_text(&tv, "document") {
                NoteSend::Document(f.clone(), caption)
            } else {
                NoteSend::Nothing
            }
        },
        _ => NoteSend::Message(text),
    };
    let keyboard = compact_url_keyboard(&note.buttons);
    let reply_to = match &m.reply {
        Some(r) => r.msg_id,
        None => m.msg_id,
    };
    NoteResponse { send, keyboard, reply_to }
}

/// A text that calls a note: it starts with `#` but not `##`.
pub open spec fn is_note_call(text: Option<Seq<char>>) -> bool {
    match text {
        Some(t) => starts_with(t, "#"@) && !starts_with(t, "##"@),
        None => false,
    }
}

pub fn is_note_hashtag(text: Option<&str>) -> (r: bool)
    ensures
        r == is_note_call(crate::text::opt_str(text)),
{
    match text {
        Some(t) => {
            let v = chars_of(t);
            crate::text::starts_with_vec(&v, &chars_of("#")) && !crate::text::starts_with_vec(
                &v,
                &chars_of("##"),
            )
        },
        None => false,
    }
}

/// The first word after the `#`.
pub open spec fn hashtag_word(t: Seq<char>) -> Seq<char> {
    let w = words(t.skip(1));
    if w.len() > 0 {
        w[0]
    } else {
        Seq::empty()
    }
}

/// The note a hashtag calls, from its lower-cased first word: none when
/// the word is empty.
pub open spec fn spec_hashtag_note(name: Seq<char>) -> NoteOutcomeModel {
    if name.len() == 0 {
        NoteOutcomeModel::Ignore
    } else {
        NoteOutcomeModel::Fetch(name)
    }
}

/// The note looked up for a hashtag's lower-cased word (nothing when the
/// note is missing).
pub fn hashtag_note(name: &str) -> (r: NoteOutcome)
    ensures
        r@ == spec_hashtag_note(name@),
{
    let v = chars_of(name);
    if v.len() == 0 {
        NoteOutcome::Ignore
    } else {
        NoteOutcome::Fetch(name.to_owned())
    }
}

/// Handle hashtag note shortcuts (e.g., #notename): in groups, for a text
/// calling a note, the note named by its first word, lower-cased.
pub fn handle_hashtag_note(m: &CommandMsg) -> (r: NoteOutcome)
    ensures
        !(m.in_group && is_note_call(opt_view(m.text))) ==> r@ == NoteOutcomeModel::Ignore,
        m.in_group && is_note_call(opt_view(m.text)) ==> r@ == spec_hashtag_note(
            lowercase(hashtag_word(text_of(*m))),
        ),
{
    if !m.in_group {
        return NoteOutcome::Ignore;
    }
    let t = match &m.text {
        Some(t) => t,
        None => {
            return NoteOutcome::Ignore;
        },
    };
    if !is_note_hashtag(Some(t.as_str())) {
        return NoteOutcome::Ignore;
    }
    proof {
        reveal_strlit("#");
    }
    let v = chars_of(t.as_str());
    let rest = slice_vec(&v, 1, v.len());
    assert(rest@ =~= v@.skip(1));
    let w = words_vec(&rest);
    let word = if w.len() > 0 {
        assert(views(w@)[0] == w@[0]@);
        w[0].clone()
    } else {
        Vec::new()
    };
    let name = to_lowercase(string_of(&word).as_str());
    hashtag_note(name.as_str())
}

} // verus!
