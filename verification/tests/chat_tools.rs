use modbot::markup::{ButtonAction, UserInfo};
use modbot::plugins::callback_route;
use modbot::plugins::common::{CommandMsg, Fragment, Query, Replied, Text};
use modbot::plugins::help::{back_keyboard, callback_handler, help_handler, page, send_help_menu, HelpReply, Section};
use modbot::plugins::media::Content;
use modbot::plugins::pin::{
    permapin_command, pin_command, pinned_command, pinned_text, unpin_command, unpinall_command, MessageFormat, PinOutcome,
};
use modbot::plugins::ping::ping_text;
use modbot::plugins::purge::{
    confirmation, del_command, purge_command, purgefrom_command, purgeto_command, spurge_command, PurgeMarkers,
    PurgeOutcome, purge_count_fits, purge_fits_checked,
};
use modbot::plugins::settings::{set_lang, setlang_command, LangOutcome};
use modbot::plugins::start::{handle_start, start_handler, StartRoute};
use modbot::plugins::warn::{read_removal_request, warn_verdict, RemovalRequest, WarnAction, WarnConfig, WarnMode, WarnVerdict};
use modbot::plugins::CallbackRoute;
use modbot::utils::escape_markdown;
use modbot::utils::parser;

fn s(x: &str) -> String {
    x.to_string()
}

fn person(id: u64, first: &str) -> UserInfo {
    UserInfo { id, first_name: s(first), last_name: None, username: None }
}

fn empty_content() -> Content {
    Content { text: None, caption: None, photo: None, video: None, animation: None, document: None, sticker: None }
}

fn group_msg(text: &str) -> CommandMsg {
    CommandMsg {
        msg_id: 100,
        in_group: true,
        in_private: false,
        chat_title: Some(s("Kebun")),
        from: Some(person(1, "Ann")),
        text: Some(s(text)),
        reply: None,
    }
}

fn replying(text: &str, reply_id: i32) -> CommandMsg {
    let mut m = group_msg(text);
    m.reply = Some(Replied { msg_id: reply_id, from: Some(person(2, "Bo")), content: empty_content() });
    m
}

fn plain(x: &str) -> Text {
    Text::Plain(s(x))
}

#[test]
fn pin_commands() {
    let m = replying("/pin", 55);
    assert_eq!(pin_command(&m, None), PinOutcome::Ask(Query::CanPinMessages));
    assert_eq!(
        pin_command(&m, Some(true)),
        PinOutcome::Pin(55, false, plain("✅ Pesan disematkan."), s("❌ Gagal menyematkan pesan: "))
    );
    let m = replying("/pin LOUD", 55);
    assert_eq!(
        pin_command(&m, Some(true)),
        PinOutcome::Pin(55, true, plain("✅ Pesan disematkan (dengan notifikasi)."), s("❌ Gagal menyematkan pesan: "))
    );
    assert_eq!(pin_command(&group_msg("/pin"), Some(true)), PinOutcome::Reply(plain("❌ Reply ke pesan yang ingin disematkan.")));
    assert_eq!(
        pin_command(&group_msg("/pin"), Some(false)),
        PinOutcome::Reply(plain("❌ Anda tidak memiliki izin untuk menyematkan pesan."))
    );
    let mut p = group_msg("/pin");
    p.in_group = false;
    assert_eq!(pin_command(&p, Some(true)), PinOutcome::Reply(plain("⚠️ Perintah ini hanya untuk grup.")));
}

#[test]
fn permapin_and_pinned() {
    assert_eq!(
        permapin_command(&group_msg("/permapin  Big news "), Some(true)),
        PinOutcome::SendAndPin(s("Big news"), MessageFormat::Markdown, s("❌ Gagal menyematkan pesan: "))
    );
    assert_eq!(
        permapin_command(&group_msg("/permapin"), Some(true)),
        PinOutcome::Reply(plain("❌ Berikan teks yang ingin disematkan.\nContoh: /permapin Pengumuman penting!"))
    );
    assert_eq!(pinned_command(&group_msg("/pinned")), PinOutcome::GetChat(s("❌ Gagal mengambil info chat: ")));
    assert_eq!(pinned_text(None, -1001234, None), (plain("📌 Tidak ada pesan yang disematkan di grup ini."), false));
    assert_eq!(
        pinned_text(Some("kebun"), -1001234, Some((7, Some("a<b")))),
        (
            plain("📌 <b>Pesan yang disematkan:</b>\n\na&lt;b\n\n<a href=\"https://t.me/kebun/7\">Lihat pesan →</a>"),
            true
        )
    );
    assert_eq!(
        pinned_text(None, -1001234, Some((7, None))),
        (
            plain("📌 <b>Pesan yang disematkan:</b>\n\n[Media/Sticker]\n\n<a href=\"https://t.me/c/1234/7\">Lihat pesan →</a>"),
            true
        )
    );
    let long = "x".repeat(150);
    let expected = format!(
        "📌 <b>Pesan yang disematkan:</b>\n\n{}...\n\n<a href=\"https://t.me/c/1234/7\">Lihat pesan →</a>",
        "x".repeat(100)
    );
    assert_eq!(pinned_text(None, -1001234, Some((7, Some(long.as_str())))), (Text::Plain(expected), true));
}

#[test]
fn unpin_commands() {
    assert_eq!(
        unpin_command(&replying("/unpin", 9), Some(true)),
        PinOutcome::Unpin(Some(9), plain("✅ Pesan dilepas dari sematan."), s("❌ Gagal melepas sematan: "))
    );
    match unpin_command(&group_msg("/unpin"), Some(true)) {
        PinOutcome::Unpin(None, _, _) => {}
        other => panic!("unexpected {:?}", other),
    }
    assert_eq!(
        unpin_command(&group_msg("/unpin"), Some(false)),
        PinOutcome::Reply(plain("❌ Anda tidak memiliki izin untuk melepas sematan."))
    );
    assert_eq!(
        unpinall_command(&group_msg("/unpinall"), Some(true)),
        PinOutcome::UnpinAll(plain("✅ Semua pesan telah dilepas dari sematan."), s("❌ Gagal melepas semua sematan: "))
    );
    let mut p = group_msg("/unpinall");
    p.in_group = false;
    assert_eq!(unpinall_command(&p, Some(true)), PinOutcome::Ignore);
}

#[test]
fn purge_ranges() {
    let m = replying("/purge", 95);
    assert_eq!(purge_command(&m, None), PurgeOutcome::Ask(Query::CanDeleteMessages));
    assert_eq!(purge_command(&m, Some(true)), PurgeOutcome::Delete(vec![95, 96, 97, 98, 99, 100], true));
    let m = replying("/purge 2", 40);
    assert_eq!(purge_command(&m, Some(true)), PurgeOutcome::Delete(vec![40, 41, 42, 100], true));
    let m = replying("/spurge", 99);
    assert_eq!(spurge_command(&m, Some(true)), PurgeOutcome::Delete(vec![99, 100], false));
    assert_eq!(spurge_command(&m, Some(false)), PurgeOutcome::Ignore);
    assert_eq!(
        purge_command(&m, Some(false)),
        PurgeOutcome::Reply(plain("❌ Anda tidak memiliki izin untuk menghapus pesan."))
    );
    assert_eq!(
        purge_command(&group_msg("/purge"), Some(true)),
        PurgeOutcome::Reply(plain("❌ Reply ke pesan untuk memulai purge."))
    );
    assert_eq!(spurge_command(&group_msg("/spurge"), Some(true)), PurgeOutcome::Ignore);
    assert_eq!(confirmation(true, 3), Some(plain("✅ Berhasil menghapus 3 pesan.")));
    assert_eq!(confirmation(true, 0), None);
    assert_eq!(confirmation(false, 3), None);
}

#[test]
fn del_command_pairs() {
    assert_eq!(del_command(&replying("/del", 12), Some(true)), PurgeOutcome::DeleteQuietly(vec![12, 100]));
    assert_eq!(
        del_command(&group_msg("/del"), Some(true)),
        PurgeOutcome::Reply(plain("❌ Reply ke pesan yang ingin dihapus."))
    );
}

#[test]
fn purgefrom_then_purgeto() {
    let mut marks = PurgeMarkers::new();
    let from = replying("/purgefrom", 50);
    assert_eq!(
        purgefrom_command(&from, -7, Some(true), &mut marks),
        PurgeOutcome::Marked(plain("📍 Titik awal purge ditandai. Gunakan /purgeto untuk menghapus range."))
    );
    let to = replying("/purgeto", 53);
    assert_eq!(
        purgeto_command(&to, -7, Some(true), &mut marks),
        PurgeOutcome::Delete(vec![50, 51, 52, 53, 100], true)
    );
    assert_eq!(
        purgeto_command(&to, -7, Some(true), &mut marks),
        PurgeOutcome::Reply(plain("❌ Tidak ada titik awal. Gunakan /purgefrom dulu."))
    );
    marks.mark(-7, 60);
    assert_eq!(purgeto_command(&to, -7, Some(true), &mut marks), PurgeOutcome::Delete(vec![53, 54, 55, 56, 57, 58, 59, 60, 100], true));
    assert_eq!(marks.take(-7), None);
    marks.mark(1, 2);
    marks.mark(1, 3);
    assert_eq!(marks.take(1), Some(3));
    assert_eq!(
        purgefrom_command(&group_msg("/purgefrom"), -7, Some(true), &mut marks),
        PurgeOutcome::Reply(plain("❌ Reply ke pesan untuk menandai titik awal purge."))
    );
    assert_eq!(marks.take(-7), None);
    assert_eq!(
        purgeto_command(&group_msg("/purgeto"), -7, Some(true), &mut marks),
        PurgeOutcome::Reply(plain("❌ Reply ke pesan untuk menandai titik akhir purge."))
    );
}

#[test]
fn language_setting() {
    assert_eq!(setlang_command(&group_msg("/setlang"), None), Some(LangOutcome::Reply(Text::Key(s("settings.usage"), vec![]))));
    assert_eq!(
        setlang_command(&group_msg("/setlang fr"), None),
        Some(LangOutcome::Say(Text::Key(s("settings.invalid_lang"), vec![]), true))
    );
    assert_eq!(setlang_command(&group_msg("/setlang EN"), None), Some(LangOutcome::Ask(Query::CanChangeInfo)));
    assert_eq!(
        setlang_command(&group_msg("/setlang id"), Some(true)),
        Some(LangOutcome::SetGroupLang(s("id"), s("Kebun"), Text::Key(s("settings.success_group"), vec![])))
    );
    assert_eq!(
        setlang_command(&group_msg("/setlang id"), Some(false)),
        Some(LangOutcome::Say(
            Text::Key(s("common.error_missing_permission"), vec![(s("{permission}"), Fragment::Plain(s("CanChangeInfo")))]),
            false
        ))
    );
    let mut p = group_msg("/setlang en");
    p.in_group = false;
    p.in_private = true;
    assert_eq!(
        setlang_command(&p, None),
        Some(LangOutcome::SetUserLang(s("en"), Text::Key(s("settings.success_user"), vec![])))
    );
    let mut anon = group_msg("/setlang en");
    anon.from = None;
    assert_eq!(setlang_command(&anon, Some(true)), None);
    let mut untitled = group_msg("/setlang en");
    untitled.chat_title = None;
    assert_eq!(
        set_lang(&untitled, "en", Some(true)),
        LangOutcome::SetGroupLang(s("en"), s("Unknown Group"), Text::Key(s("settings.success_group"), vec![]))
    );
}

#[test]
fn start_routes() {
    assert_eq!(handle_start("rules_-100"), StartRoute::Rules(s("-100")));
    assert_eq!(handle_start("help"), StartRoute::Help);
    assert_eq!(handle_start("helpme"), StartRoute::Greeting);
    assert_eq!(handle_start(""), StartRoute::Greeting);
    let (t, k) = start_handler();
    assert_eq!(t, Text::Key(s("start.welcome"), vec![]));
    assert_eq!(k.rows.len(), 1);
    assert_eq!(k.rows[0][0].action, ButtonAction::Url(s("https://github.com/ziyu4")));
    assert_eq!(k.rows[0][0].label, Text::Key(s("start.btn_dev"), vec![]));
}

#[test]
fn ping_thresholds() {
    assert_eq!(ping_text(0), "🟢 Pong! <code>0ms</code>");
    assert_eq!(ping_text(99), "🟢 Pong! <code>99ms</code>");
    assert_eq!(ping_text(100), "🟡 Pong! <code>100ms</code>");
    assert_eq!(ping_text(299), "🟡 Pong! <code>299ms</code>");
    assert_eq!(ping_text(300), "🔴 Pong! <code>300ms</code>");
}

#[test]
fn help_pages_and_callbacks() {
    let menu = send_help_menu();
    assert_eq!(menu, page(Section::Main));
    assert_eq!(
        menu.text,
        Text::Concat(vec![
            Fragment::Key(s("help.title"), vec![]),
            Fragment::Plain(s("\n\n")),
            Fragment::Key(s("help.intro"), vec![]),
        ])
    );
    assert!(menu.keyboard.rows.len() > 1);
    assert_eq!(callback_handler(Some("help:notes")), Some(page(Section::Notes)));
    assert_eq!(callback_handler(Some("help:back")), Some(page(Section::Main)));
    assert_eq!(callback_handler(Some("help:nothing")), None);
    assert_eq!(callback_handler(Some("notes")), None);
    assert_eq!(callback_handler(None), None);
    let notes = page(Section::Notes);
    assert_eq!(notes.keyboard, back_keyboard());
    match notes.text {
        Text::Plain(t) => assert!(t.starts_with("<b>📝 Bantuan: Notes</b>")),
        other => panic!("unexpected {:?}", other),
    }
    let filters = page(Section::Filters);
    assert_eq!(filters.text, Text::Key(s("help.filters_text"), vec![]));
    assert_eq!(filters.keyboard.rows[0][0].action, ButtonAction::Callback(s("help:back")));
    assert_eq!(back_keyboard().rows[0][0].label, Text::Plain(s("🔙 Kembali")));
}

#[test]
fn help_command_in_group_and_private() {
    match help_handler(true, "mybot") {
        HelpReply::Redirect(t, k) => {
            assert_eq!(t, Text::Concat(vec![Fragment::KeyOr(s("help.redirect_pm"), s("Contact me in PM."))]));
            assert_eq!(k.rows[0][0].action, ButtonAction::Url(s("https://t.me/mybot?start=help")));
        }
        other => panic!("unexpected {:?}", other),
    }
    assert_eq!(help_handler(false, "mybot"), HelpReply::Menu(page(Section::Main)));
}

#[test]
fn callback_routing() {
    assert_eq!(callback_route(Some("warn_remove:-1:2")), CallbackRoute::Warn);
    assert_eq!(callback_route(Some("help:notes")), CallbackRoute::Help);
    assert_eq!(callback_route(None), CallbackRoute::Help);
}

#[test]
fn law_remove_button_round_trip_example() {
    let config = WarnConfig { limit: 3, mode: WarnMode::Kick, action_duration_secs: 0, warn_time_secs: None };
    match warn_verdict(WarnAction::Normal, -1009, 42, &s("Q"), &None, 1, &config) {
        WarnVerdict::Warned { announce: Some((_, _, data)) } => {
            assert_eq!(read_removal_request(&Some(data.clone()), Some(true)), RemovalRequest::Remove(-1009, 42));
            assert_eq!(read_removal_request(&Some(data.clone()), None), RemovalRequest::AskPermission(-1009));
            assert_eq!(callback_route(Some(data.as_str())), CallbackRoute::Warn);
        }
        other => panic!("unexpected {:?}", other),
    }
}

#[test]
fn law_warn_limit_example() {
    let config = WarnConfig { limit: 2, mode: WarnMode::Ban, action_duration_secs: 0, warn_time_secs: None };
    assert!(matches!(
        warn_verdict(WarnAction::Normal, -1, 5, &s("Q"), &None, 1, &config),
        WarnVerdict::Warned { announce: Some(_) }
    ));
    assert!(matches!(
        warn_verdict(WarnAction::Normal, -1, 5, &s("Q"), &None, 2, &config),
        WarnVerdict::LimitReached { announce_applied: Some(_), .. }
    ));
    assert!(matches!(
        warn_verdict(WarnAction::Silent, -1, 5, &s("Q"), &None, 2, &config),
        WarnVerdict::LimitReached { announce_applied: None, announce_failed: None, .. }
    ));
    assert!(matches!(
        warn_verdict(WarnAction::Normal, -1, 5, &s("Q"), &None, 7, &config),
        WarnVerdict::LimitReached { reset_warnings: true, .. }
    ));
    match warn_verdict(WarnAction::Normal, -100, 5, &s("Q"), &None, 1, &config) {
        WarnVerdict::Warned { announce: Some((_, _, data)) } => assert_eq!(data, "warn_remove:-100:5"),
        other => panic!("unexpected {:?}", other),
    }
}

#[test]
fn law_escape_markdown_reversible_example() {
    let text = "a_b*[c](d)~`>#+-=|{}.!";
    let escaped = escape_markdown(text);
    let mut out = String::new();
    let mut chars = escaped.chars().peekable();
    while let Some(c) = chars.next() {
        if c == '\\' {
            if let Some(n) = chars.next() {
                out.push(n);
            }
        } else {
            out.push(c);
        }
    }
    assert_eq!(out, text);
}

#[test]
fn law_html_escape_no_tags_example() {
    let e = parser::html_escape("<script>alert('x')</script> & <b>");
    assert!(!e.contains('<') && !e.contains('>'));
}

#[test]
fn law_trim_and_random_parts_example() {
    let parts = parser::parse_random_parts(" one \n%%%\n\n%%%  two\t");
    assert_eq!(parts, vec![s("one"), s("two")]);
    for p in parts {
        assert_eq!(p.trim(), p);
        assert!(!p.is_empty());
    }
}

#[test]
fn law_parse_duration_reads_units_example() {
    assert_eq!(parser::parse_duration("12w"), Some(std::time::Duration::from_secs(12 * 604800)));
    assert_eq!(parser::parse_duration("7m"), Some(std::time::Duration::from_secs(420)));
}

#[test]
fn law_plain_note_unchanged_example() {
    let n = modbot::utils::note_parser::parse_note_content("Just a [plain] note: 100% fine");
    assert_eq!(n.text, "Just a [plain] note: 100% fine");
    assert!(n.buttons.is_empty());
    assert!(!n.tags.admin_only && !n.tags.protect && !n.tags.is_private);
}

#[test]
fn law_button_rows_well_formed_example() {
    let (_, rows) = parser::parse_buttons("{button: A |u}{button:|x}{button:B| v }:{button:C|w}");
    for r in &rows {
        assert!(!r.is_empty());
        for b in r {
            assert!(!b.text.is_empty() && b.text.trim() == b.text);
            assert!(!b.url.is_empty() && b.url.trim() == b.url);
        }
    }
    assert_eq!(rows.len(), 2);
}

#[test]
fn purge_count_checked_before_use() {
    assert!(purge_fits_checked(&replying("/purge 10", 40)));
    assert!(purge_fits_checked(&group_msg("/purge 2147483647")));
    assert!(purge_fits_checked(&replying("/purge", 40)));
    assert!(!purge_fits_checked(&replying("/purge 2147483647", 40)));
    assert!(purge_fits_checked(&replying("/purge -5", 40)));
}

#[test]
fn law_rules_link_round_trip_example() {
    let m = group_msg("/rules");
    let r = modbot::plugins::rules::RulesSettings { text: Some(s("Be kind")), show_in_pm: true, button_text: s("Baca") };
    let url = match modbot::plugins::rules::rules_command(&m, -1005, "mybot", Some(&r)) {
        modbot::plugins::rules::RulesOutcome::ReplyWithKeyboard(_, k) => match &k.rows[0][0].action {
            ButtonAction::Url(u) => u.clone(),
            other => panic!("unexpected {:?}", other),
        },
        other => panic!("unexpected {:?}", other),
    };
    let param = url.split("?start=").nth(1).unwrap().to_string();
    assert_eq!(param, "rules_-1005");
    let chat = match handle_start(&param) {
        StartRoute::Rules(c) => c,
        other => panic!("unexpected {:?}", other),
    };
    assert_eq!(
        modbot::plugins::rules::handle_rules_deeplink(&chat, None, None),
        modbot::plugins::rules::RulesOutcome::LoadRules(-1005)
    );
    let (_, buttons) = modbot::utils::note_parser::apply_rules_filling("{rules}", -1005, "mybot");
    assert_eq!(buttons[0].0.url, url);
}

#[test]
fn law_saved_note_fetched_example() {
    let save = group_msg("/save welcome Hello there");
    let saved = match modbot::plugins::notes::save_command(&save) {
        modbot::plugins::notes::NoteOutcome::Save(n, _) => n.name,
        other => panic!("unexpected {:?}", other),
    };
    assert_eq!(saved, "welcome");
    assert_eq!(
        modbot::plugins::notes::get_command(&group_msg("/get Welcome")),
        modbot::plugins::notes::NoteOutcome::Fetch(saved.clone())
    );
    assert_eq!(
        modbot::plugins::notes::handle_hashtag_note(&group_msg("#Welcome")),
        modbot::plugins::notes::NoteOutcome::Fetch(saved)
    );
}

#[test]
fn purge_count_checked_only_when_reached() {
    let m = replying("/purge 2147483600", 90);
    assert!(!purge_count_fits(&m, Some(true)));
    assert!(purge_count_fits(&m, Some(false)));
    assert!(purge_count_fits(&m, None));
    assert_eq!(
        purge_command(&m, Some(false)),
        PurgeOutcome::Reply(Text::Plain(s("❌ Anda tidak memiliki izin untuk menghapus pesan.")))
    );
}

#[test]
fn law_rights_needed_example() {
    let mut m = replying("/purge", 90);
    assert!(!matches!(purge_command(&m, Some(false)), PurgeOutcome::Delete(..)));
    assert!(matches!(purge_command(&m, Some(true)), PurgeOutcome::Delete(..)));
    m.in_group = false;
    assert_eq!(purge_command(&m, Some(true)), PurgeOutcome::Ignore);
    let m = replying("/pin", 90);
    assert!(!matches!(pin_command(&m, Some(false)), PinOutcome::Pin(..)));
}
