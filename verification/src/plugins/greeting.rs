//! Welcome and goodbye messages: their settings, the commands that change
//! them, the status display and the preview. The two kinds differ in their
//! wording and in `{count}`, which only a welcome message fills.

use vstd::prelude::*;
use crate::markup::{
    ButtonModel, InlineButton, Keyboard, TextModelRows, UserInfo, UserModel, rows_model,
    url_keyboard, url_rows,
};
use crate::plugins::common::{
    CommandMsg, Query, Text, TextModel, args_of, args_vec, rest_of, rest_vec,
};
use crate::plugins::media::{
    extract_message_content, greeting_media, opt_view, photo_areas_fit, text_or_caption,
};
use crate::text::{
    chars_of, concat_vec, dec, is_text, lower_eq, lower_eq_vec, replace_all, string_of, u64_dec,
    views,
};
use crate::utils::buttons::{split_buttons, split_buttons_vec};
use crate::utils::parser::{
    fullname_vec, html_escape_vec, last_or_empty, mention_vec, replace_lit, spec_fullname, spec_html_escape,
    spec_mention, user_last_vec,
};
use crate::utils::spec_format_username;

verus! {

/// Which message: sent when a member joins, or when one leaves.
#[derive(Debug, Clone, Copy, PartialEq, Eq, Structural)]
pub enum Greeting {
    Welcome,
    Bye,
}

/// A chat's welcome (or goodbye) settings.
#[derive(Debug, Clone, PartialEq, Eq)]
pub struct GreetingConfig {
    pub enabled: bool,
    pub message: Option<String>,
    pub media_file_id: Option<String>,
    pub media_type: Option<String>,
    pub buttons: Vec<Vec<InlineButton>>,
}

pub struct GreetingModel {
    pub enabled: bool,
    pub message: Option<Seq<char>>,
    pub media_file_id: Option<Seq<char>>,
    pub media_type: Option<Seq<char>>,
    pub buttons: Seq<Seq<ButtonModel>>,
}

impl View for GreetingConfig {
    type V = GreetingModel;

    open spec fn view(&self) -> GreetingModel {
        GreetingModel {
            enabled: self.enabled,
            message: opt_view(self.message),
            media_file_id: opt_view(self.media_file_id),
            media_type: opt_view(self.media_type),
            buttons: rows_model(self.buttons@),
        }
    }
}

/// The fixed sentences of the commands.
#[derive(Debug, Clone, Copy, PartialEq, Eq, Structural)]
pub enum Phrase {
    Enabled,
    Disabled,
    Usage,
    Saved,
    SetUsage,
    ButtonsCleared,
    ButtonsUsage,
    ButtonsSet,
    Reset,
    Header,
    DefaultMessage,
}

/// The sentences of each kind.
pub open spec fn phrase(k: Greeting, p: Phrase) -> Seq<char> {
    match (k, p) {
        (Greeting::Welcome, Phrase::Enabled) => "✅ Welcome message diaktifkan!"@,
        (Greeting::Bye, Phrase::Enabled) => "✅ Goodbye message diaktifkan!"@,
        (Greeting::Welcome, Phrase::Disabled) => "❌ Welcome message dinonaktifkan!"@,
        (Greeting::Bye, Phrase::Disabled) => "❌ Goodbye message dinonaktifkan!"@,
        (Greeting::Welcome, Phrase::Usage) => "<b>📖 Penggunaan Welcome</b>\n\n\
                <code>/welcome</code> - Lihat status\n\
                <code>/welcome on</code> - Aktifkan\n\
                <code>/welcome off</code> - Nonaktifkan\n\
                <code>/welcome preview</code> - Preview pesan\n\
                <code>/setwelcome</code> - Atur pesan (reply ke pesan/media)\n\
                <code>/setwelcomebuttons</code> - Atur tombol\n\
                <code>/resetwelcome</code> - Reset ke default"@,
        (Greeting::Bye, Phrase::Usage) => "<b>📖 Penggunaan Goodbye</b>\n\n\
                <code>/bye</code> - Lihat status\n\
                <code>/bye on</code> - Aktifkan\n\
                <code>/bye off</code> - Nonaktifkan\n\
                <code>/bye preview</code> - Preview pesan\n\
                <code>/setbye</code> - Atur pesan (reply ke pesan/media)\n\
                <code>/setbyebuttons</code> - Atur tombol\n\
                <code>/resetbye</code> - Reset ke default"@,
        (Greeting::Welcome, Phrase::Saved) => "✅ Welcome message berhasil diatur!"@,
        (Greeting::Bye, Phrase::Saved) => "✅ Goodbye message berhasil diatur!"@,
        (Greeting::Welcome, Phrase::SetUsage) => "<b>📖 Cara mengatur welcome:</b>\n\n\
            1. Reply ke pesan/media dengan <code>/setwelcome</code>\n\
            2. Atau: <code>/setwelcome Selamat datang!</code>\n\n\
            <b>Format yang didukung:</b>\n\
            <code>{name}</code> - Nama user\n\
            <code>{username}</code> - Username\n\
            <code>{mention}</code> - Mention user\n\
            <code>{id}</code> - User ID\n\
            <code>{group}</code> - Nama grup\n\
            <code>{count}</code> - Jumlah member"@,
        (Greeting::Bye, Phrase::SetUsage) => "<b>📖 Cara mengatur goodbye:</b>\n\n\
            1. Reply ke pesan/media dengan <code>/setbye</code>\n\
            2. Atau: <code>/setbye Selamat tinggal!</code>\n\n\
            <b>Format yang didukung:</b>\n\
            <code>{name}</code> - Nama user\n\
            <code>{username}</code> - Username\n\
            <code>{mention}</code> - Mention user\n\
            <code>{id}</code> - User ID\n\
            <code>{group}</code> - Nama grup"@,
        (Greeting::Welcome, Phrase::ButtonsCleared) => "✅ Tombol welcome dihapus!"@,
        (Greeting::Bye, Phrase::ButtonsCleared) => "✅ Tombol goodbye dihapus!"@,
        (Greeting::Welcome, Phrase::ButtonsUsage) => "<b>📖 Cara mengatur tombol:</b>\n\n\
                <code>/setwelcomebuttons {button:Teks|url}</code>\n\n\
                Gunakan <code>:same</code> untuk tombol di baris sama:\n\
                <code>{button:Teks1|url1}:same {button:Teks2|url2}</code>\n\n\
                <b>Contoh:</b>\n\
                <code>/setwelcomebuttons {button:📜 Rules|t.me/bot?start=rules}</code>\n\
                <code>/setwelcomebuttons {button:📜 Rules|url}:same {button:📢 Channel|url}</code>\n\n\
                <code>/setwelcomebuttons clear</code> - Hapus semua tombol"@,
        (Greeting::Bye, Phrase::ButtonsUsage) => "<b>📖 Cara mengatur tombol:</b>\n\n\
                <code>/setbyebuttons {button:Teks|url}</code>\n\n\
                Gunakan <code>:same</code> untuk tombol di baris sama:\n\
                <code>{button:Teks1|url1}:same {button:Teks2|url2}</code>\n\n\
                <code>/setbyebuttons clear</code> - Hapus semua tombol"@,
        (Greeting::Welcome, Phrase::ButtonsSet) => "✅ Tombol welcome berhasil diatur!"@,
        (Greeting::Bye, Phrase::ButtonsSet) => "✅ Tombol goodbye berhasil diatur!"@,
        (Greeting::Welcome, Phrase::Reset) => "✅ Welcome message direset ke default!"@,
        (Greeting::Bye, Phrase::Reset) => "✅ Goodbye message direset ke default!"@,
        (Greeting::Welcome, Phrase::Header) => "<b>🎉 Pengaturan Welcome</b>"@,
        (Greeting::Bye, Phrase::Header) => "<b>👋 Pengaturan Goodbye</b>"@,
        (Greeting::Welcome, Phrase::DefaultMessage) => "Selamat datang!"@,
        (Greeting::Bye, Phrase::DefaultMessage) => "Selamat tinggal!"@,
    }
}

pub fn phrase_of(k: Greeting, p: Phrase) -> (r: &'static str)
    ensures
        r@ == phrase(k, p),
{
    match (k, p) {
        (Greeting::Welcome, Phrase::Enabled) => "✅ Welcome message diaktifkan!",
        (Greeting::Bye, Phrase::Enabled) => "✅ Goodbye message diaktifkan!",
        (Greeting::Welcome, Phrase::Disabled) => "❌ Welcome message dinonaktifkan!",
        (Greeting::Bye, Phrase::Disabled) => "❌ Goodbye message dinonaktifkan!",
        (Greeting::Welcome, Phrase::Usage) => "<b>📖 Penggunaan Welcome</b>\n\n\
                <code>/welcome</code> - Lihat status\n\
                <code>/welcome on</code> - Aktifkan\n\
                <code>/welcome off</code> - Nonaktifkan\n\
                <code>/welcome preview</code> - Preview pesan\n\
                <code>/setwelcome</code> - Atur pesan (reply ke pesan/media)\n\
                <code>/setwelcomebuttons</code> - Atur tombol\n\
                <code>/resetwelcome</code> - Reset ke default",
        (Greeting::Bye, Phrase::Usage) => "<b>📖 Penggunaan Goodbye</b>\n\n\
                <code>/bye</code> - Lihat status\n\
                <code>/bye on</code> - Aktifkan\n\
                <code>/bye off</code> - Nonaktifkan\n\
                <code>/bye preview</code> - Preview pesan\n\
                <code>/setbye</code> - Atur pesan (reply ke pesan/media)\n\
                <code>/setbyebuttons</code> - Atur tombol\n\
                <code>/resetbye</code> - Reset ke default",
        (Greeting::Welcome, Phrase::Saved) => "✅ Welcome message berhasil diatur!",
        (Greeting::Bye, Phrase::Saved) => "✅ Goodbye message berhasil diatur!",
        (Greeting::Welcome, Phrase::SetUsage) => "<b>📖 Cara mengatur welcome:</b>\n\n\
            1. Reply ke pesan/media dengan <code>/setwelcome</code>\n\
            2. Atau: <code>/setwelcome Selamat datang!</code>\n\n\
            <b>Format yang didukung:</b>\n\
            <code>{name}</code> - Nama user\n\
            <code>{username}</code> - Username\n\
            <code>{mention}</code> - Mention user\n\
            <code>{id}</code> - User ID\n\
            <code>{group}</code> - Nama grup\n\
            <code>{count}</code> - Jumlah member",
        (Greeting::Bye, Phrase::SetUsage) => "<b>📖 Cara mengatur goodbye:</b>\n\n\
            1. Reply ke pesan/media dengan <code>/setbye</code>\n\
            2. Atau: <code>/setbye Selamat tinggal!</code>\n\n\
            <b>Format yang didukung:</b>\n\
            <code>{name}</code> - Nama user\n\
            <code>{username}</code> - Username\n\
            <code>{mention}</code> - Mention user\n\
            <code>{id}</code> - User ID\n\
            <code>{group}</code> - Nama grup",
        (Greeting::Welcome, Phrase::ButtonsCleared) => "✅ Tombol welcome dihapus!",
        (Greeting::Bye, Phrase::ButtonsCleared) => "✅ Tombol goodbye dihapus!",
        (Greeting::Welcome, Phrase::ButtonsUsage) => "<b>📖 Cara mengatur tombol:</b>\n\n\
                <code>/setwelcomebuttons {button:Teks|url}</code>\n\n\
                Gunakan <code>:same</code> untuk tombol di baris sama:\n\
                <code>{button:Teks1|url1}:same {button:Teks2|url2}</code>\n\n\
                <b>Contoh:</b>\n\
                <code>/setwelcomebuttons {button:📜 Rules|t.me/bot?start=rules}</code>\n\
                <code>/setwelcomebuttons {button:📜 Rules|url}:same {button:📢 Channel|url}</code>\n\n\
                <code>/setwelcomebuttons clear</code> - Hapus semua tombol",
        (Greeting::Bye, Phrase::ButtonsUsage) => "<b>📖 Cara mengatur tombol:</b>\n\n\
                <code>/setbyebuttons {button:Teks|url}</code>\n\n\
                Gunakan <code>:same</code> untuk tombol di baris sama:\n\
                <code>{button:Teks1|url1}:same {button:Teks2|url2}</code>\n\n\
                <code>/setbyebuttons clear</code> - Hapus semua tombol",
        (Greeting::Welcome, Phrase::ButtonsSet) => "✅ Tombol welcome berhasil diatur!",
        (Greeting::Bye, Phrase::ButtonsSet) => "✅ Tombol goodbye berhasil diatur!",
        (Greeting::Welcome, Phrase::Reset) => "✅ Welcome message direset ke default!",
        (Greeting::Bye, Phrase::Reset) => "✅ Goodbye message direset ke default!",
        (Greeting::Welcome, Phrase::Header) => "<b>🎉 Pengaturan Welcome</b>",
        (Greeting::Bye, Phrase::Header) => "<b>👋 Pengaturan Goodbye</b>",
        (Greeting::Welcome, Phrase::DefaultMessage) => "Selamat datang!",
        (Greeting::Bye, Phrase::DefaultMessage) => "Selamat tinggal!",
    }
}

/// How many buttons the rows hold.
pub open spec fn total_buttons(rows: Seq<Seq<ButtonModel>>) -> nat
    decreases rows.len(),
{
    if rows.len() == 0 {
        0
    } else {
        total_buttons(rows.drop_last()) + rows.last().len()
    }
}

fn total_buttons_of(rows: &Vec<Vec<InlineButton>>) -> (r: usize)
    requires
        total_buttons(rows_model(rows@)) <= usize::MAX,
    ensures
        r == total_buttons(rows_model(rows@)),
{
    let ghost rm = rows_model(rows@);
    let mut n: usize = 0;
    let mut i: usize = 0;
    while i < rows.len()
        invariant
            i <= rows.len(),
            rm == rows_model(rows@),
            total_buttons(rm) <= usize::MAX,
            n == total_buttons(rm.take(i as int)),
        decreases rows.len() - i,
    {
        assert(rm.take(i + 1).drop_last() =~= rm.take(i as int));
        proof {
            lemma_total_prefix(rm, i + 1);
        }
        n = n + rows[i].len();
        i = i + 1;
    }
    assert(rm.take(rows.len() as int) =~= rm);
    n
}

proof fn lemma_total_prefix(rows: Seq<Seq<ButtonModel>>, i: int)
    requires
        0 <= i <= rows.len(),
    ensures
        total_buttons(rows.take(i)) <= total_buttons(rows),
    decreases rows.len() - i,
{
    if i < rows.len() {
        lemma_total_prefix(rows, i + 1);
        assert(rows.take(i + 1).drop_last() =~= rows.take(i));
    } else {
        assert(rows.take(i) =~= rows);
    }
}

/// The settings as the status command shows them (HTML).
pub open spec fn status_text(k: Greeting, c: GreetingModel) -> Seq<char> {
    let status = if c.enabled {
        "✅ Aktif"@
    } else {
        "❌ Nonaktif"@
    };
    let message = match c.message {
        Some(m) => m,
        None => "<i>Tidak ada</i>"@,
    };
    let media = match c.media_file_id {
        Some(_) => "✅ "@ + match c.media_type {
            Some(t) => t,
            None => "Media"@,
        } + " terlampir"@,
        None => "❌ Tidak ada"@,
    };
    let buttons = if c.buttons.len() == 0 {
        "❌ Tidak ada"@
    } else {
        "✅ "@ + dec(total_buttons(c.buttons)) + " tombol"@
    };
    phrase(k, Phrase::Header) + "\n\n<b>Status:</b> "@ + status + "\n<b>Media:</b> "@ + media
        + "\n<b>Tombol:</b> "@ + buttons + "\n\n<b>Pesan:</b>\n"@ + message
}

fn cat(a: Vec<char>, b: &str) -> (r: Vec<char>)
    ensures
        r@ == a@ + b@,
{
    concat_vec(&a, &chars_of(b))
}

/// Format the status for display.
pub fn format_status(k: Greeting, c: &GreetingConfig) -> (r: String)
    requires
        total_buttons(c@.buttons) <= usize::MAX,
    ensures
        r@ == status_text(k, c@),
{
    let status = if c.enabled {
        "✅ Aktif"
    } else {
        "❌ Nonaktif"
    };
    let message = match &c.message {
        Some(m) => chars_of(m.as_str()),
        None => chars_of("<i>Tidak ada</i>"),
    };
    let media = match &c.media_file_id {
        Some(_) => {
            let t = match &c.media_type {
                Some(t) => chars_of(t.as_str()),
                None => chars_of("Media"),
            };
            cat(concat_vec(&chars_of("✅ "), &t), " terlampir")
        },
        None => chars_of("❌ Tidak ada"),
    };
    let buttons = if c.buttons.len() == 0 {
        chars_of("❌ Tidak ada")
    } else {
        let n = total_buttons_of(&c.buttons);
        cat(concat_vec(&chars_of("✅ "), &u64_dec(n as u64)), " tombol")
    };
    let a = cat(chars_of(phrase_of(k, Phrase::Header)), "\n\n<b>Status:</b> ");
    let b = cat(cat(a, status), "\n<b>Media:</b> ");
    let d = cat(concat_vec(&b, &media), "\n<b>Tombol:</b> ");
    let e = cat(concat_vec(&d, &buttons), "\n\n<b>Pesan:</b>\n");
    let r = concat_vec(&e, &message);
    string_of(&r)
}

/// The message with its placeholders filled: `{first}`, `{last}`,
/// `{fullname}`, `{name}`, `{username}`, `{mention}`, `{id}`, `{group}`,
/// and, for a welcome, `{count}`; names are HTML-escaped.
pub open spec fn greeting_text(k: Greeting, template: Seq<char>, user: UserModel, group: Seq<char>, count: nat) -> Seq<char> {
    let name = user.first_name;
    let last = last_or_empty(user);
    let username = spec_format_username(user.username, name);
    let f1 = replace_all(template, "{first}"@, spec_html_escape(name));
    let f2 = replace_all(f1, "{last}"@, spec_html_escape(last));
    let f3 = replace_all(f2, "{fullname}"@, spec_html_escape(spec_fullname(name, last)));
    let t1 = replace_all(f3, "{name}"@, spec_html_escape(name));
    let t2 = replace_all(t1, "{username}"@, spec_html_escape(username));
    let t3 = replace_all(t2, "{mention}"@, spec_mention(user.id, name));
    let t4 = replace_all(t3, "{id}"@, dec(user.id as nat));
    let t5 = replace_all(t4, "{group}"@, spec_html_escape(group));
    if k == Greeting::Welcome {
        replace_all(t5, "{count}"@, dec(count))
    } else {
        t5
    }
}

pub fn format_greeting_text(k: Greeting, template: &str, user: &UserInfo, group: &str, count: u64) -> (r: String)
    ensures
        r@ == greeting_text(k, template@, user@, group@, count as nat),
{
    proof {
        reveal_strlit("{first}");
        reveal_strlit("{last}");
        reveal_strlit("{fullname}");
        reveal_strlit("{name}");
        reveal_strlit("{username}");
        reveal_strlit("{mention}");
        reveal_strlit("{id}");
        reveal_strlit("{group}");
        reveal_strlit("{count}");
    }
    let name = chars_of(user.first_name.as_str());
    let last = user_last_vec(user);
    let username = match &user.username {
        Some(u) => {
            let mut at: Vec<char> = Vec::new();
            at.push('@');
            assert(at@ =~= seq!['@']);
            concat_vec(&at, &chars_of(u.as_str()))
        },
        None => name.clone(),
    };
    let t0 = chars_of(template);
    let f1 = replace_lit(&t0, "{first}", &html_escape_vec(&name));
    let f2 = replace_lit(&f1, "{last}", &html_escape_vec(&last));
    let f3 = replace_lit(&f2, "{fullname}", &html_escape_vec(&fullname_vec(&name, &last)));
    let t1 = replace_lit(&f3, "{name}", &html_escape_vec(&name));
    let t2 = replace_lit(&t1, "{username}", &html_escape_vec(&username));
    let t3 = replace_lit(&t2, "{mention}", &mention_vec(user.id, &name));
    let t4 = replace_lit(&t3, "{id}", &u64_dec(user.id));
    let t5 = replace_lit(&t4, "{group}", &html_escape_vec(&chars_of(group)));
    let r = match k {
        Greeting::Welcome => replace_lit(&t5, "{count}", &u64_dec(count)),
        Greeting::Bye => t5,
    };
    string_of(&r)
}

/// How a preview is sent.
#[derive(Debug, Clone, Copy, PartialEq, Eq, Structural)]
pub enum PreviewMedia {
    Photo,
    Video,
    Animation,
}

/// A preview of the message: its text (HTML; the caption when sent with
/// media), its keyboard, and the media it is sent with.
#[derive(Debug, Clone, PartialEq, Eq)]
pub struct Preview {
    pub text: String,
    pub keyboard: Keyboard,
    pub media: Option<(PreviewMedia, String)>,
}

pub type PreviewModel = (Seq<char>, TextModelRows, Option<(PreviewMedia, Seq<char>)>);

pub open spec fn preview_view(p: Preview) -> PreviewModel {
    (
        p.text@,
        p.keyboard@,
        match p.media {
            Some((kind, f)) => Some((kind, f@)),
            None => None,
        },
    )
}

/// The media a preview is sent with: a photo, video or animation file;
/// other kinds are left out and the text is sent alone.
pub open spec fn preview_media(c: GreetingModel) -> Option<(PreviewMedia, Seq<char>)> {
    match c.media_file_id {
        Some(f) => match c.media_type {
            Some(t) => if t == "photo"@ {
                Some((PreviewMedia::Photo, f))
            } else if t == "video"@ {
                Some((PreviewMedia::Video, f))
            } else if t == "animation"@ {
                Some((PreviewMedia::Animation, f))
            } else {
                None
            },
            None => None,
        },
        None => None,
    }
}

/// The preview for `user` in the chat titled `title` (the member count
/// shown as 0).
pub open spec fn preview_model(k: Greeting, c: GreetingModel, user: UserModel, title: Seq<char>) -> PreviewModel {
    let template = match c.message {
        Some(m) => m,
        None => phrase(k, Phrase::DefaultMessage),
    };
    (greeting_text(k, template, user, title, 0), url_rows(c.buttons), preview_media(c))
}

pub fn make_preview(k: Greeting, c: &GreetingConfig, user: &UserInfo, title: &str) -> (p: Preview)
    ensures
        preview_view(p) == preview_model(k, c@, user@, title@),
{
    let text = match &c.message {
        Some(m) => format_greeting_text(k, m.as_str(), user, title, 0),
        None => format_greeting_text(k, phrase_of(k, Phrase::DefaultMessage), user, title, 0),
    };
    let keyboard = url_keyboard(&c.buttons);
    let media = match &c.media_file_id {
        Some(f) => match &c.media_type {
            Some(t) => {
                let tv = chars_of(t.as_str());
                if is_text(&tv, "photo") {
                    Some((PreviewMedia::Photo, f.clone()))
                } else if is_text(&tv, "video") {
                    Some((PreviewMedia::Video, f.clone()))
                } else if is_text(&tv, "animation") {
                    Some((PreviewMedia::Animation, f.clone()))
                } else {
                    None
                }
            },
            None => None,
        },
        None => None,
    };
    Preview { text, keyboard, media }
}

/// How the stored media changes.
#[derive(Debug, Clone, PartialEq, Eq)]
pub enum MediaUpdate {
    Keep,
    /// Store this file id and media kind.
    Replace(String, Option<String>),
    /// Remove the media.
    Clear,
}

pub enum MediaUpdateModel {
    Keep,
    Replace(Seq<char>, Option<Seq<char>>),
    Clear,
}

pub open spec fn media_update_view(u: MediaUpdate) -> MediaUpdateModel {
    match u {
        MediaUpdate::Keep => MediaUpdateModel::Keep,
        MediaUpdate::Replace(f, t) => MediaUpdateModel::Replace(f@, opt_view(t)),
        MediaUpdate::Clear => MediaUpdateModel::Clear,
    }
}

/// The decision of a welcome or goodbye command.
#[derive(Debug, Clone, PartialEq, Eq)]
pub enum GreetingOutcome {
    Ignore,
    Ask(Query),
    /// Read the chat's settings and call again with them.
    LoadConfig,
    /// Reply with the text (as HTML when the flag is set).
    Reply(Text, bool),
    /// Store the enabled flag, then reply with the text.
    SetEnabled(bool, Text),
    /// Send the preview.
    ShowPreview(Preview),
    /// Store the message (when given) and update the media, then reply.
    SetContent(Option<String>, MediaUpdate, Text),
    /// Store these buttons, then reply with the text (HTML when set).
    SetButtons(Vec<Vec<InlineButton>>, Text, bool),
    /// Restore the default settings, then reply with the text.
    Reset(Text),
}

pub enum GreetingOutcomeModel {
    Ignore,
    Ask(Query),
    LoadConfig,
    Reply(TextModel, bool),
    SetEnabled(bool, TextModel),
    ShowPreview(PreviewModel),
    SetContent(Option<Seq<char>>, MediaUpdateModel, TextModel),
    SetButtons(Seq<Seq<ButtonModel>>, TextModel, bool),
    Reset(TextModel),
}

impl View for GreetingOutcome {
    type V = GreetingOutcomeModel;

    open spec fn view(&self) -> GreetingOutcomeModel {
        match self {
            GreetingOutcome::Ignore => GreetingOutcomeModel::Ignore,
            GreetingOutcome::Ask(q) => GreetingOutcomeModel::Ask(*q),
            GreetingOutcome::LoadConfig => GreetingOutcomeModel::LoadConfig,
            GreetingOutcome::Reply(t, h) => GreetingOutcomeModel::Reply(t@, *h),
            GreetingOutcome::SetEnabled(b, t) => GreetingOutcomeModel::SetEnabled(*b, t@),
            GreetingOutcome::ShowPreview(p) => GreetingOutcomeModel::ShowPreview(preview_view(*p)),
            GreetingOutcome::SetContent(m, u, t) => GreetingOutcomeModel::SetContent(
                opt_view(*m),
                media_update_view(*u),
                t@,
            ),
            GreetingOutcome::SetButtons(rows, t, h) => GreetingOutcomeModel::SetButtons(
                rows_model(rows@),
                t@,
                *h,
            ),
            GreetingOutcome::Reset(t) => GreetingOutcomeModel::Reset(t@),
        }
    }
}

/// The refusal for members without the right to change the chat's info.
pub open spec fn no_right() -> TextModel {
    TextModel::Plain("❌ Anda harus admin dengan izin 'Ubah Info Grup'."@)
}

fn no_right_text() -> (t: Text)
    ensures
        t@ == no_right(),
{
    Text::Plain("❌ Anda harus admin dengan izin 'Ubah Info Grup'.".to_owned())
}

fn phrase_text(k: Greeting, p: Phrase) -> (t: Text)
    ensures
        t@ == TextModel::Plain(phrase(k, p)),
{
    Text::Plain(phrase_of(k, p).to_owned())
}

/// The chat's title, or `Grup`.
pub open spec fn title_or_group(m: CommandMsg) -> Seq<char> {
    match m.chat_title {
        Some(t) => t@,
        None => "Grup"@,
    }
}

/// `/welcome` (or `/bye`): the status without argument; `on`/`enable` and
/// `off`/`disable` (any case) switch the message; `preview` shows it;
/// anything else shows the usage.
pub open spec fn spec_greeting_command(
    k: Greeting,
    m: CommandMsg,
    can_change: Option<bool>,
    config: Option<GreetingModel>,
) -> GreetingOutcomeModel {
    let args = args_of(m);
    match m.from {
        None => GreetingOutcomeModel::Ignore,
        Some(user) => if !m.in_group {
            GreetingOutcomeModel::Reply(TextModel::Plain("⚠️ Perintah ini hanya untuk grup."@), false)
        } else {
            match can_change {
                None => GreetingOutcomeModel::Ask(Query::CanChangeInfo),
                Some(false) => GreetingOutcomeModel::Reply(no_right(), false),
                Some(true) => match config {
                    None => GreetingOutcomeModel::LoadConfig,
                    Some(c) => if args.len() == 0 {
                        GreetingOutcomeModel::Reply(TextModel::Plain(status_text(k, c)), true)
                    } else if lower_eq(args[0], "on"@) || lower_eq(args[0], "enable"@) {
                        GreetingOutcomeModel::SetEnabled(true, TextModel::Plain(phrase(k, Phrase::Enabled)))
                    } else if lower_eq(args[0], "off"@) || lower_eq(args[0], "disable"@) {
                        GreetingOutcomeModel::SetEnabled(false, TextModel::Plain(phrase(k, Phrase::Disabled)))
                    } else if lower_eq(args[0], "preview"@) {
                        GreetingOutcomeModel::ShowPreview(preview_model(k, c, user@, title_or_group(m)))
                    } else {
                        GreetingOutcomeModel::Reply(TextModel::Plain(phrase(k, Phrase::Usage)), true)
                    },
                },
            }
        },
    }
}

pub fn greeting_command(k: Greeting, m: &CommandMsg, can_change: Option<bool>, config: Option<&GreetingConfig>) -> (r:
    GreetingOutcome)
    requires
        config matches Some(c) ==> total_buttons(c@.buttons) <= usize::MAX,
    ensures
        r@ == spec_greeting_command(
            k,
            *m,
            can_change,
            match config {
                Some(c) => Some(c@),
                None => None,
            },
        ),
{
    let user = match &m.from {
        Some(u) => u,
        None => {
            return GreetingOutcome::Ignore;
        },
    };
    if !m.in_group {
        return GreetingOutcome::Reply(Text::Plain("⚠️ Perintah ini hanya untuk grup.".to_owned()), false);
    }
    match can_change {
        None => {
            return GreetingOutcome::Ask(Query::CanChangeInfo);
        },
        Some(false) => {
            return GreetingOutcome::Reply(no_right_text(), false);
        },
        Some(true) => {},
    }
    let c = match config {
        Some(c) => c,
        None => {
            return GreetingOutcome::LoadConfig;
        },
    };
    let args = args_vec(m);
    if args.len() == 0 {
        return GreetingOutcome::Reply(Text::Plain(format_status(k, c)), true);
    }
    let a = &args[0];
    if lower_eq_vec(a, &chars_of("on")) || lower_eq_vec(a, &chars_of("enable")) {
        GreetingOutcome::SetEnabled(true, phrase_text(k, Phrase::Enabled))
    } else if lower_eq_vec(a, &chars_of("off")) || lower_eq_vec(a, &chars_of("disable")) {
        GreetingOutcome::SetEnabled(false, phrase_text(k, Phrase::Disabled))
    } else if lower_eq_vec(a, &chars_of("preview")) {
        let title = match &m.chat_title {
            Some(t) => t.as_str(),
            None => "Grup",
        };
        GreetingOutcome::ShowPreview(make_preview(k, c, user, title))
    } else {
        GreetingOutcome::Reply(phrase_text(k, Phrase::Usage), true)
    }
}

/// The trimmed text after the command word, when not empty.
pub open spec fn args_text(m: CommandMsg) -> Option<Seq<char>> {
    if rest_of(m).len() > 0 {
        Some(rest_of(m))
    } else {
        None
    }
}

/// `/setwelcome` (or `/setbye`): in reply to a message, its text or caption
/// (else the text after the command) becomes the message and its media, if
/// any, the media; without a reply, the text after the command becomes the
/// message and the media is removed; with neither, the usage is shown.
pub open spec fn spec_set_greeting(k: Greeting, m: CommandMsg, can_change: Option<bool>) -> GreetingOutcomeModel {
    if m.from is None {
        GreetingOutcomeModel::Ignore
    } else {
        match can_change {
            None => GreetingOutcomeModel::Ask(Query::CanChangeInfo),
            Some(false) => GreetingOutcomeModel::Reply(no_right(), false),
            Some(true) => match m.reply {
                Some(r) => {
                    let text = match text_or_caption(r.content) {
                        Some(t) => Some(t),
                        None => args_text(m),
                    };
                    let (file, kind) = greeting_media(r.content);
                    GreetingOutcomeModel::SetContent(
                        text,
                        match file {
                            Some(f) => MediaUpdateModel::Replace(f, kind),
                            None => MediaUpdateModel::Keep,
                        },
                        TextModel::Plain(phrase(k, Phrase::Saved)),
                    )
                },
                None => match args_text(m) {
                    Some(t) => GreetingOutcomeModel::SetContent(
                        Some(t),
                        MediaUpdateModel::Clear,
                        TextModel::Plain(phrase(k, Phrase::Saved)),
                    ),
                    None => GreetingOutcomeModel::Reply(TextModel::Plain(phrase(k, Phrase::SetUsage)), true),
                },
            },
        }
    }
}

/// The replied message's photo sizes multiply without overflow.
pub open spec fn reply_photos_fit(m: CommandMsg) -> bool {
    m.reply matches Some(r) ==> photo_areas_fit(r.content)
}

/// Setting a message reads the replied message's media only for a sender
/// with the right to change chat info.
pub open spec fn set_reads_media(m: CommandMsg, can_change: Option<bool>) -> bool {
    m.from is Some && can_change == Some(true)
}

/// Whether the replied message's photo sizes, where setting a message
/// reads them, multiply without overflow.
pub fn set_media_fits(m: &CommandMsg, can_change: Option<bool>) -> (b: bool)
    ensures
        b == (set_reads_media(*m, can_change) ==> reply_photos_fit(*m)),
{
    if m.from.is_some() && can_change == Some(true) {
        match &m.reply {
            Some(r) => crate::plugins::media::photo_areas_checked(&r.content),
            None => true,
        }
    } else {
        true
    }
}

pub fn set_greeting_command(k: Greeting, m: &CommandMsg, can_change: Option<bool>) -> (r: GreetingOutcome)
    requires
        set_reads_media(*m, can_change) ==> reply_photos_fit(*m),
    ensures
        r@ == spec_set_greeting(k, *m, can_change),
{
    if m.from.is_none() {
        return GreetingOutcome::Ignore;
    }
    match can_change {
        None => {
            return GreetingOutcome::Ask(Query::CanChangeInfo);
        },
        Some(false) => {
            return GreetingOutcome::Reply(no_right_text(), false);
        },
        Some(true) => {},
    }
    let rest = rest_vec(m);
    let args: Option<String> = if rest.len() > 0 {
        Some(string_of(&rest))
    } else {
        None
    };
    match &m.reply {
        Some(r) => {
            let (text, file, kind) = extract_message_content(&r.content);
            let message = match text {
                Some(t) => Some(t),
                None => args,
            };
            let update = match file {
                Some(f) => MediaUpdate::Replace(f, kind),
                None => MediaUpdate::Keep,
            };
            GreetingOutcome::SetContent(message, update, phrase_text(k, Phrase::Saved))
        },
        None => match args {
            Some(t) => GreetingOutcome::SetContent(Some(t), MediaUpdate::Clear, phrase_text(k, Phrase::Saved)),
            None => GreetingOutcome::Reply(phrase_text(k, Phrase::SetUsage), true),
        },
    }
}

/// Parse button format: {button:Text|url}
/// - Colon `:` between buttons = same row
/// - Space/newline = different rows
pub fn parse_buttons(input: &Vec<char>) -> (r: Vec<Vec<InlineButton>>)
    ensures
        rows_model(r@) == split_buttons(input@, false).1,
{
    let (_, rows) = split_buttons_vec(input, false);
    rows
}

/// `/setwelcomebuttons` (or `/setbyebuttons`): without text, or with
/// `clear`, the buttons are removed (and the usage shown, or the removal
/// confirmed); else the text's buttons replace them, when it has any.
pub open spec fn spec_set_greeting_buttons(k: Greeting, m: CommandMsg, can_change: Option<bool>) -> GreetingOutcomeModel {
    let args = rest_of(m);
    if m.from is None {
        GreetingOutcomeModel::Ignore
    } else {
        match can_change {
            None => GreetingOutcomeModel::Ask(Query::CanChangeInfo),
            Some(false) => GreetingOutcomeModel::Reply(no_right(), false),
            Some(true) => if args.len() == 0 {
                GreetingOutcomeModel::SetButtons(Seq::empty(), TextModel::Plain(phrase(k, Phrase::ButtonsUsage)), true)
            } else if args == "clear"@ {
                GreetingOutcomeModel::SetButtons(
                    Seq::empty(),
                    TextModel::Plain(phrase(k, Phrase::ButtonsCleared)),
                    false,
                )
            } else if split_buttons(args, false).1.len() == 0 {
                GreetingOutcomeModel::Reply(
                    TextModel::Plain("❌ Format tombol tidak valid. Gunakan: {button:Teks|url}"@),
                    false,
                )
            } else {
                GreetingOutcomeModel::SetButtons(
                    split_buttons(args, false).1,
                    TextModel::Plain(phrase(k, Phrase::ButtonsSet)),
                    false,
                )
            },
        }
    }
}

pub fn set_greeting_buttons_command(k: Greeting, m: &CommandMsg, can_change: Option<bool>) -> (r: GreetingOutcome)
    ensures
        r@ == spec_set_greeting_buttons(k, *m, can_change),
{
    if m.from.is_none() {
        return GreetingOutcome::Ignore;
    }
    match can_change {
        None => {
            return GreetingOutcome::Ask(Query::CanChangeInfo);
        },
        Some(false) => {
            return GreetingOutcome::Reply(no_right_text(), false);
        },
        Some(true) => {},
    }
    let args = rest_vec(m);
    let none: Vec<Vec<InlineButton>> = Vec::new();
    assert(rows_model(none@) =~= Seq::<Seq<ButtonModel>>::empty());
    if args.len() == 0 {
        return GreetingOutcome::SetButtons(none, phrase_text(k, Phrase::ButtonsUsage), true);
    }
    if is_text(&args, "clear") {
        return GreetingOutcome::SetButtons(none, phrase_text(k, Phrase::ButtonsCleared), false);
    }
    let rows = parse_buttons(&args);
    if rows.len() == 0 {
        GreetingOutcome::Reply(
            Text::Plain("❌ Format tombol tidak valid. Gunakan: {button:Teks|url}".to_owned()),
            false,
        )
    } else {
        GreetingOutcome::SetButtons(rows, phrase_text(k, Phrase::ButtonsSet), false)
    }
}

/// `/resetwelcome` (or `/resetbye`): restore the defaults.
pub open spec fn spec_reset_greeting(k: Greeting, m: CommandMsg, can_change: Option<bool>) -> GreetingOutcomeModel {
    if m.from is None {
        GreetingOutcomeModel::Ignore
    } else {
        match can_change {
            None => GreetingOutcomeModel::Ask(Query::CanChangeInfo),
            Some(false) => GreetingOutcomeModel::Reply(no_right(), false),
            Some(true) => GreetingOutcomeModel::Reset(TextModel::Plain(phrase(k, Phrase::Reset))),
        }
    }
}

pub fn reset_greeting_command(k: Greeting, m: &CommandMsg, can_change: Option<bool>) -> (r: GreetingOutcome)
    ensures
        r@ == spec_reset_greeting(k, *m, can_change),
{
    if m.from.is_none() {
        return GreetingOutcome::Ignore;
    }
    match can_change {
        None => GreetingOutcome::Ask(Query::CanChangeInfo),
        Some(false) => GreetingOutcome::Reply(no_right_text(), false),
        Some(true) => GreetingOutcome::Reset(phrase_text(k, Phrase::Reset)),
    }
}

} // verus!
