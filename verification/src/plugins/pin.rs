//! Pin management commands.
//!
//! Commands for pinning and unpinning messages, and the text that shows the
//! pinned message.

use vstd::prelude::*;
use vstd::string::StringSliceAdditionalSpecFns;
use crate::plugins::common::{CommandMsg, Query, Text, TextModel, args_of, args_vec, text_of};
use crate::text::{
    chars_of, concat_vec, dec_int, i64_dec, lower_eq, lower_eq_vec, replace_all, replace_vec,
    starts_with, starts_with_vec, slice_vec, string_of, trim, trim_vec, u64_dec, dec, views,
};
use crate::utils::parser::{html_escape_vec, spec_html_escape};

verus! {

/// How the text of a message to send is formatted.
#[derive(Debug, Clone, Copy, PartialEq, Eq, Structural)]
pub enum MessageFormat {
    Html,
    Markdown,
}

/// What a pin command does. Each action is followed by a text on success,
/// and on failure by a text made of the given prefix and the error.
#[derive(Debug, Clone, PartialEq, Eq)]
pub enum PinOutcome {
    Ignore,
    Ask(Query),
    /// Reply to the command with the text.
    Reply(Text),
    /// Pin the message (notifying members when the flag is set), then
    /// reply to it with the text.
    Pin(i32, bool, Text, String),
    /// Send the text in the given format and pin it silently; on success
    /// delete the command (ignoring a failure).
    SendAndPin(String, MessageFormat, String),
    /// Read the chat's pinned message and answer with `pinned_text`.
    GetChat(String),
    /// Unpin the message (the latest pin when none), then reply with the
    /// text (to the unpinned message when one is given).
    Unpin(Option<i32>, Text, String),
    /// Unpin every message, then reply with the text.
    UnpinAll(Text, String),
}

pub enum PinModel {
    Ignore,
    Ask(Query),
    Reply(TextModel),
    Pin(i32, bool, TextModel, Seq<char>),
    SendAndPin(Seq<char>, MessageFormat, Seq<char>),
    GetChat(Seq<char>),
    Unpin(Option<i32>, TextModel, Seq<char>),
    UnpinAll(TextModel, Seq<char>),
}

impl View for PinOutcome {
    type V = PinModel;

    open spec fn view(&self) -> PinModel {
        match self {
            PinOutcome::Ignore => PinModel::Ignore,
            PinOutcome::Ask(q) => PinModel::Ask(*q),
            PinOutcome::Reply(t) => PinModel::Reply(t@),
            PinOutcome::Pin(id, n, t, e) => PinModel::Pin(*id, *n, t@, e@),
            PinOutcome::SendAndPin(c, f, e) => PinModel::SendAndPin(c@, *f, e@),
            PinOutcome::GetChat(e) => PinModel::GetChat(e@),
            PinOutcome::Unpin(id, t, e) => PinModel::Unpin(*id, t@, e@),
            PinOutcome::UnpinAll(t, e) => PinModel::UnpinAll(t@, e@),
        }
    }
}

pub open spec fn plain(s: Seq<char>) -> TextModel {
    TextModel::Plain(s)
}

pub open spec fn group_only() -> TextModel {
    plain("⚠️ Perintah ini hanya untuk grup."@)
}

/// An argument asks for a notification: `loud` or `notify`, in any case.
pub open spec fn wants_notify(args: Seq<Seq<char>>) -> bool {
    exists|i: int| 0 <= i < args.len() && (lower_eq(#[trigger] args[i], "loud"@) || lower_eq(args[i], "notify"@))
}

/// /pin: pins the replied message, silently unless asked to notify.
pub open spec fn spec_pin(m: CommandMsg, can_pin: Option<bool>) -> PinModel {
    if !m.in_group {
        PinModel::Reply(group_only())
    } else {
        match can_pin {
            None => PinModel::Ask(Query::CanPinMessages),
            Some(false) => PinModel::Reply(plain("❌ Anda tidak memiliki izin untuk menyematkan pesan."@)),
            Some(true) => match m.reply {
                None => PinModel::Reply(plain("❌ Reply ke pesan yang ingin disematkan."@)),
                Some(r) => PinModel::Pin(
                    r.msg_id,
                    wants_notify(args_of(m)),
                    plain(
                        if wants_notify(args_of(m)) {
                            "✅ Pesan disematkan (dengan notifikasi)."@
                        } else {
                            "✅ Pesan disematkan."@
                        },
                    ),
                    "❌ Gagal menyematkan pesan: "@,
                ),
            },
        }
    }
}

fn notify_of(args: &Vec<Vec<char>>) -> (r: bool)
    ensures
        r == wants_notify(views(args@)),
{
    let loud = chars_of("loud");
    let notify = chars_of("notify");
    let mut i: usize = 0;
    while i < args.len()
        invariant
            i <= args.len(),
            loud@ == "loud"@,
            notify@ == "notify"@,
            forall|k: int|
                0 <= k < i ==> !(lower_eq(views(args@)[k], "loud"@) || lower_eq(views(args@)[k], "notify"@)),
        decreases args.len() - i,
    {
        assert(views(args@)[i as int] == args@[i as int]@);
        if lower_eq_vec(&args[i], &loud) || lower_eq_vec(&args[i], &notify) {
            assert(lower_eq(views(args@)[i as int], "loud"@) || lower_eq(views(args@)[i as int], "notify"@));
            return true;
        }
        i = i + 1;
    }
    false
}

/// Handle /pin command - pin a message.
///
/// By default pins silently. Add 'loud' or 'notify' to send notification.
/// Usage: Reply to a message with /pin or /pin loud
pub fn pin_command(m: &CommandMsg, can_pin: Option<bool>) -> (r: PinOutcome)
    ensures
        r@ == spec_pin(*m, can_pin),
{
    if !m.in_group {
        return PinOutcome::Reply(Text::Plain("⚠️ Perintah ini hanya untuk grup.".to_owned()));
    }
    match can_pin {
        None => PinOutcome::Ask(Query::CanPinMessages),
        Some(false) => PinOutcome::Reply(Text::Plain("❌ Anda tidak memiliki izin untuk menyematkan pesan.".to_owned())),
        Some(true) => match &m.reply {
            None => PinOutcome::Reply(Text::Plain("❌ Reply ke pesan yang ingin disematkan.".to_owned())),
            Some(r) => {
                let notify = notify_of(&args_vec(m));
                let done = if notify {
                    "✅ Pesan disematkan (dengan notifikasi)."
                } else {
                    "✅ Pesan disematkan."
                };
                PinOutcome::Pin(
                    r.msg_id,
                    notify,
                    Text::Plain(done.to_owned()),
                    "❌ Gagal menyematkan pesan: ".to_owned(),
                )
            },
        },
    }
}

/// The text /permapin pins: what follows `/permapin` in the message,
/// trimmed (nothing when the message does not start with it).
pub open spec fn permapin_content(m: CommandMsg) -> Seq<char> {
    let t = text_of(m);
    if starts_with(t, "/permapin"@) {
        trim(t.skip(9))
    } else {
        Seq::empty()
    }
}

/// /permapin <text>: sends the text, formatted as Markdown, and pins it.
pub open spec fn spec_permapin(m: CommandMsg, can_pin: Option<bool>) -> PinModel {
    if !m.in_group {
        PinModel::Reply(group_only())
    } else {
        match can_pin {
            None => PinModel::Ask(Query::CanPinMessages),
            Some(false) => PinModel::Reply(plain("❌ Anda tidak memiliki izin untuk menyematkan pesan."@)),
            Some(true) => if permapin_content(m).len() == 0 {
                PinModel::Reply(
                    plain("❌ Berikan teks yang ingin disematkan.\nContoh: /permapin Pengumuman penting!"@),
                )
            } else {
                PinModel::SendAndPin(permapin_content(m), MessageFormat::Markdown, "❌ Gagal menyematkan pesan: "@)
            },
        }
    }
}

/// Handle /permapin command - send and pin a custom message.
///
/// Usage: /permapin <text> - Bot will send the text and pin it.
/// Supports markdown formatting.
pub fn permapin_command(m: &CommandMsg, can_pin: Option<bool>) -> (r: PinOutcome)
    ensures
        r@ == spec_permapin(*m, can_pin),
{
    if !m.in_group {
        return PinOutcome::Reply(Text::Plain("⚠️ Perintah ini hanya untuk grup.".to_owned()));
    }
    match can_pin {
        None => {
            return PinOutcome::Ask(Query::CanPinMessages);
        },
        Some(false) => {
            return PinOutcome::Reply(
                Text::Plain("❌ Anda tidak memiliki izin untuk menyematkan pesan.".to_owned()),
            );
        },
        Some(true) => {},
    }
    let t = crate::plugins::common::text_chars(m);
    let prefix = chars_of("/permapin");
    proof {
        reveal_strlit("/permapin");
    }
    let content = if starts_with_vec(&t, &prefix) {
        let rest = slice_vec(&t, 9, t.len());
        assert(rest@ =~= t@.skip(9));
        trim_vec(&rest)
    } else {
        Vec::new()
    };
    if content.len() == 0 {
        PinOutcome::Reply(
            Text::Plain("❌ Berikan teks yang ingin disematkan.\nContoh: /permapin Pengumuman penting!".to_owned()),
        )
    } else {
        PinOutcome::SendAndPin(string_of(&content), MessageFormat::Markdown, "❌ Gagal menyematkan pesan: ".to_owned())
    }
}

/// /pinned: in groups, reads the chat to show its pinned message.
pub fn pinned_command(m: &CommandMsg) -> (r: PinOutcome)
    ensures
        r@ == if m.in_group {
            PinModel::GetChat("❌ Gagal mengambil info chat: "@)
        } else {
            PinModel::Ignore
        },
{
    if !m.in_group {
        PinOutcome::Ignore
    } else {
        PinOutcome::GetChat("❌ Gagal mengambil info chat: ".to_owned())
    }
}

/// The link to a message: by the chat's username, else by its id without
/// the `-100` of supergroup ids (`https://t.me/c/...`).
pub open spec fn message_link(username: Option<Seq<char>>, chat_id: i64, msg_id: i32) -> Seq<char> {
    match username {
        Some(u) => "https://t.me/"@ + u + "/"@ + dec_int(msg_id as int),
        None => "https://t.me/c/"@ + replace_all(dec_int(chat_id as int), "-100"@, Seq::empty()) + "/"@
            + dec_int(msg_id as int),
    }
}

/// At most the first 100 bytes of the preview, then `...` when it was
/// longer (byte lengths of the UTF-8 encoding).
pub open spec fn truncated_preview(p: Seq<char>) -> Seq<char> {
    let b = vstd::utf8::encode_utf8(p);
    if b.len() > 100 {
        vstd::utf8::decode_utf8(b.subrange(0, 100)) + "..."@
    } else {
        p
    }
}

/// A preview longer than 100 bytes can be cut at byte 100, a character
/// boundary (the cut is made there and nowhere else).
pub open spec fn preview_cuttable(p: Seq<char>) -> bool {
    let b = vstd::utf8::encode_utf8(p);
    b.len() <= usize::MAX && (b.len() > 100 ==> vstd::utf8::is_char_boundary(b, 100))
}

/// The pinned message's text, or `[Media/Sticker]`.
pub open spec fn preview_of(text: Option<Seq<char>>) -> Seq<char> {
    match text {
        Some(t) => t,
        None => "[Media/Sticker]"@,
    }
}

/// What /pinned answers (HTML): the pinned message's preview with a link
/// to it, or that there is none.
pub open spec fn spec_pinned_text(
    username: Option<Seq<char>>,
    chat_id: i64,
    pinned: Option<(i32, Option<Seq<char>>)>,
) -> (TextModel, bool) {
    match pinned {
        None => (plain("📌 Tidak ada pesan yang disematkan di grup ini."@), false),
        Some((id, text)) => (
            plain(
                "📌 <b>Pesan yang disematkan:</b>\n\n"@ + spec_html_escape(truncated_preview(preview_of(text)))
                    + "\n\n<a href=\""@ + message_link(username, chat_id, id) + "\">Lihat pesan →</a>"@,
            ),
            true,
        ),
    }
}

fn dec_i32(n: i32) -> (r: Vec<char>)
    ensures
        r@ == dec_int(n as int),
{
    i64_dec(n as i64)
}

fn truncate_preview(p: &str) -> (r: Vec<char>)
    requires
        preview_cuttable(p@),
    ensures
        r@ == truncated_preview(p@),
{
    proof {
        vstd::utf8::encode_utf8_valid_utf8(p@);
    }
    if p.len() > 100 {
        let (head, _) = p.split_at(100);
        proof {
            vstd::utf8::encode_utf8_decode_utf8(head@);
            assert(head.spec_bytes() =~= vstd::utf8::encode_utf8(p@).subrange(0, 100));
        }
        concat_vec(&chars_of(head), &chars_of("..."))
    } else {
        chars_of(p)
    }
}

/// The answer to /pinned once the chat is read: its username, its id, and
/// the pinned message (id and text) if any; the text and whether it is
/// HTML.
pub fn pinned_text(username: Option<&str>, chat_id: i64, pinned: Option<(i32, Option<&str>)>) -> (r: (Text, bool))
    requires
        pinned matches Some((_, t)) ==> preview_cuttable(preview_of(crate::text::opt_str(t))),
    ensures
        (r.0@, r.1) == spec_pinned_text(
            crate::text::opt_str(username),
            chat_id,
            match pinned {
                Some((id, t)) => Some((id, crate::text::opt_str(t))),
                None => None,
            },
        ),
{
    match pinned {
        None => (Text::Plain("📌 Tidak ada pesan yang disematkan di grup ini.".to_owned()), false),
        Some((id, t)) => {
            let preview = match t {
                Some(s) => s,
                None => "[Media/Sticker]",
            };
            let cut = truncate_preview(preview);
            let link = match username {
                Some(u) => concat_vec(
                    &concat_vec(&concat_vec(&chars_of("https://t.me/"), &chars_of(u)), &chars_of("/")),
                    &dec_i32(id),
                ),
                None => {
                    let pat = chars_of("-100");
                    proof {
                        reveal_strlit("-100");
                    }
                    let none: Vec<char> = Vec::new();
                    let num = replace_vec(&i64_dec(chat_id), &pat, &none);
                    concat_vec(
                        &concat_vec(&concat_vec(&chars_of("https://t.me/c/"), &num), &chars_of("/")),
                        &dec_i32(id),
                    )
                },
            };
            let a = concat_vec(&chars_of("📌 <b>Pesan yang disematkan:</b>\n\n"), &html_escape_vec(&cut));
            let b = concat_vec(&concat_vec(&a, &chars_of("\n\n<a href=\"")), &link);
            let c = concat_vec(&b, &chars_of("\">Lihat pesan →</a>"));
            (Text::Plain(string_of(&c)), true)
        },
    }
}

pub open spec fn no_unpin_right() -> TextModel {
    plain("❌ Anda tidak memiliki izin untuk melepas sematan."@)
}

/// /unpin: unpins the replied message, or the latest pin.
pub open spec fn spec_unpin(m: CommandMsg, can_pin: Option<bool>) -> PinModel {
    if !m.in_group {
        PinModel::Ignore
    } else {
        match can_pin {
            None => PinModel::Ask(Query::CanPinMessages),
            Some(false) => PinModel::Reply(no_unpin_right()),
            Some(true) => match m.reply {
                Some(r) => PinModel::Unpin(
                    Some(r.msg_id),
                    plain("✅ Pesan dilepas dari sematan."@),
                    "❌ Gagal melepas sematan: "@,
                ),
                None => PinModel::Unpin(
                    None,
                    plain("✅ Sematan terakhir dilepas."@),
                    "❌ Gagal melepas sematan (pastikan ada pesan yang dipin): "@,
                ),
            },
        }
    }
}

/// Handle /unpin command - unpin a message.
///
/// Usage: Reply to a pinned message or just /unpin to unpin latest.
pub fn unpin_command(m: &CommandMsg, can_pin: Option<bool>) -> (r: PinOutcome)
    ensures
        r@ == spec_unpin(*m, can_pin),
{
    if !m.in_group {
        return PinOutcome::Ignore;
    }
    match can_pin {
        None => PinOutcome::Ask(Query::CanPinMessages),
        Some(false) => PinOutcome::Reply(Text::Plain("❌ Anda tidak memiliki izin untuk melepas sematan.".to_owned())),
        Some(true) => match &m.reply {
            Some(r) => PinOutcome::Unpin(
                Some(r.msg_id),
                Text::Plain("✅ Pesan dilepas dari sematan.".to_owned()),
                "❌ Gagal melepas sematan: ".to_owned(),
            ),
            None => PinOutcome::Unpin(
                None,
                Text::Plain("✅ Sematan terakhir dilepas.".to_owned()),
                "❌ Gagal melepas sematan (pastikan ada pesan yang dipin): ".to_owned(),
            ),
        },
    }
}

/// /unpinall: unpins every message.
pub open spec fn spec_unpinall(m: CommandMsg, can_pin: Option<bool>) -> PinModel {
    if !m.in_group {
        PinModel::Ignore
    } else {
        match can_pin {
            None => PinModel::Ask(Query::CanPinMessages),
            Some(false) => PinModel::Reply(no_unpin_right()),
            Some(true) => PinModel::UnpinAll(
                plain("✅ Semua pesan telah dilepas dari sematan."@),
                "❌ Gagal melepas semua sematan: "@,
            ),
        }
    }
}

/// Handle /unpinall command - unpin all pinned messages.
pub fn unpinall_command(m: &CommandMsg, can_pin: Option<bool>) -> (r: PinOutcome)
    ensures
        r@ == spec_unpinall(*m, can_pin),
{
    if !m.in_group {
        return PinOutcome::Ignore;
    }
    match can_pin {
        None => PinOutcome::Ask(Query::CanPinMessages),
        Some(false) => PinOutcome::Reply(Text::Plain("❌ Anda tidak memiliki izin untuk melepas sematan.".to_owned())),
        Some(true) => PinOutcome::UnpinAll(
            Text::Plain("✅ Semua pesan telah dilepas dari sematan.".to_owned()),
            "❌ Gagal melepas semua sematan: ".to_owned(),
        ),
    }
}

} // verus!
