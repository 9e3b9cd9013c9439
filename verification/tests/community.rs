use modbot::markup::{ButtonAction, InlineButton, Keyboard, KeyboardButton, UserInfo};
use modbot::plugins::afk::{
    afk_command, afk_lookups, afk_notice_targets, brb_command, notice_text, notice_text_now, return_text,
    return_text_now, returning_user, AfkLookup, AfkOutcome, AfkUser, EntityKind, MessageEntity,
};
use modbot::plugins::antiflood::{
    antiflood_command, duration_to_string, parse_duration, penalty_to_string, setflood_command,
    setfloodpenalty_command, AntifloodConfig, FloodOutcome, FloodPenalty, flood_duration_checked, penalty_args_checked, penalty_duration_fits,
};
use modbot::plugins::approval::{
    approval_command, approve_command, approved_command, get_target_user, unapprove_all_text, unapprove_command,
    unapproveall_command, ApprovalOutcome,
};
use modbot::plugins::bye::{
    build_bye_keyboard, bye_command, format_bye_text, resetbye_command, setbye_command, setbyebuttons_command,
};
use modbot::plugins::common::{CommandMsg, Fragment, Query, Replied, Text};
use modbot::plugins::greeting::{
    format_status, make_preview, parse_buttons, set_greeting_buttons_command, set_media_fits, Greeting,
    GreetingConfig, GreetingOutcome, MediaUpdate, PreviewMedia,
};
use modbot::plugins::media::{Content, PhotoSize};
use modbot::plugins::rules::{
    clearrules_command, get_rules_text, handle_rules_deeplink, rules_command, setrules_command,
    setrulesprivate_command, RulesOutcome, RulesSettings,
};
use modbot::plugins::welcome::{
    build_welcome_keyboard, format_welcome_text, resetwelcome_command, setwelcome_command,
    setwelcomebuttons_command, welcome_command,
};

fn s(x: &str) -> String {
    x.to_string()
}

fn person(id: u64, first: &str) -> UserInfo {
    UserInfo { id, first_name: s(first), last_name: None, username: None }
}

fn empty_content() -> Content {
    Content { text: None, caption: None, photo: None, video: None, animation: None, document: None, sticker: None }
}

fn group_msg(text: &str) -> CommandMsg {
    CommandMsg {
        msg_id: 100,
        in_group: true,
        in_private: false,
        chat_title: Some(s("Kebun")),
        from: Some(person(1, "Ann")),
        text: Some(s(text)),
        reply: None,
    }
}

fn private_msg(text: &str) -> CommandMsg {
    let mut m = group_msg(text);
    m.in_group = false;
    m.in_private = true;
    m
}

fn replying_to(text: &str, content: Content) -> CommandMsg {
    let mut m = group_msg(text);
    m.reply = Some(Replied { msg_id: 55, from: Some(person(2, "Bo")), content });
    m
}

fn key(k: &str, ps: Vec<(&str, Fragment)>) -> Text {
    Text::Key(s(k), ps.into_iter().map(|(a, b)| (s(a), b)).collect())
}

fn plain(x: &str) -> Fragment {
    Fragment::Plain(s(x))
}

fn config() -> GreetingConfig {
    GreetingConfig { enabled: true, message: None, media_file_id: None, media_type: None, buttons: vec![] }
}

#[test]
fn greeting_status_text() {
    let mut c = config();
    c.message = Some(s("Hai {name}"));
    c.media_file_id = Some(s("f"));
    c.media_type = Some(s("photo"));
    c.buttons = vec![
        vec![InlineButton::new(s("a"), s("u")), InlineButton::new(s("b"), s("u"))],
        vec![InlineButton::new(s("c"), s("u"))],
    ];
    assert_eq!(
        format_status(Greeting::Welcome, &c),
        "<b>🎉 Pengaturan Welcome</b>\n\n<b>Status:</b> ✅ Aktif\n<b>Media:</b> ✅ photo terlampir\n<b>Tombol:</b> ✅ 3 tombol\n\n<b>Pesan:</b>\nHai {name}"
    );
    let c = GreetingConfig { enabled: false, ..config() };
    assert_eq!(
        format_status(Greeting::Bye, &c),
        "<b>👋 Pengaturan Goodbye</b>\n\n<b>Status:</b> ❌ Nonaktif\n<b>Media:</b> ❌ Tidak ada\n<b>Tombol:</b> ❌ Tidak ada\n\n<b>Pesan:</b>\n<i>Tidak ada</i>"
    );
}

#[test]
fn setwelcome_reads_photos_only_when_permitted() {
    let mut c = empty_content();
    c.photo = Some(vec![PhotoSize { file_id: s("p"), width: u32::MAX, height: 2 }]);
    let m = replying_to("/setwelcome", c);
    assert!(!set_media_fits(&m, Some(true)));
    assert!(set_media_fits(&m, Some(false)));
    assert!(matches!(setwelcome_command(&m, Some(false)), GreetingOutcome::Reply(_, false)));
}

#[test]
fn greeting_text_placeholders() {
    let u = UserInfo { id: 5, first_name: s("A&B"), last_name: None, username: Some(s("ab")) };
    assert_eq!(
        format_welcome_text("{name}|{username}|{mention}|{id}|{group}|{count}", &u, "G<1>", 42),
        "A&amp;B|@ab|<a href=\"tg://user?id=5\">A&amp;B</a>|5|G&lt;1&gt;|42"
    );
    assert_eq!(format_bye_text("{name} left {group} ({count})", &u, "G"), "A&amp;B left G ({count})");
    let u = person(6, "Cy");
    assert_eq!(format_welcome_text("{username}", &u, "G", 0), "Cy");
    let u = UserInfo { id: 7, first_name: s("Ann"), last_name: Some(s("Lee")), username: None };
    assert_eq!(
        format_welcome_text("Hi {first} {last} ({fullname}) in {group}, member {count}", &u, "G", 5),
        "Hi Ann Lee (Ann Lee) in G, member 5"
    );
    assert_eq!(format_bye_text("Bye {first} {last} ({fullname}) from {group}", &u, "G"), "Bye Ann Lee (Ann Lee) from G");
    let u = UserInfo { id: 8, first_name: s("<Bo>"), last_name: None, username: None };
    assert_eq!(format_bye_text("[{first}|{last}|{fullname}]", &u, "G"), "[&lt;Bo&gt;||&lt;Bo&gt;]");
}

#[test]
fn welcome_command_steps() {
    let m = group_msg("/welcome");
    assert_eq!(welcome_command(&m, None, None), GreetingOutcome::Ask(Query::CanChangeInfo));
    assert_eq!(
        welcome_command(&m, Some(false), None),
        GreetingOutcome::Reply(Text::Plain(s("❌ Anda harus admin dengan izin 'Ubah Info Grup'.")), false)
    );
    assert_eq!(welcome_command(&m, Some(true), None), GreetingOutcome::LoadConfig);
    assert_eq!(
        welcome_command(&private_msg("/welcome"), Some(true), None),
        GreetingOutcome::Reply(Text::Plain(s("⚠️ Perintah ini hanya untuk grup.")), false)
    );
    let c = config();
    assert_eq!(
        welcome_command(&group_msg("/welcome ON"), Some(true), Some(&c)),
        GreetingOutcome::SetEnabled(true, Text::Plain(s("✅ Welcome message diaktifkan!")))
    );
    assert_eq!(
        bye_command(&group_msg("/bye disable"), Some(true), Some(&c)),
        GreetingOutcome::SetEnabled(false, Text::Plain(s("❌ Goodbye message dinonaktifkan!")))
    );
    match welcome_command(&group_msg("/welcome maybe"), Some(true), Some(&c)) {
        GreetingOutcome::Reply(Text::Plain(t), true) => assert!(t.starts_with("<b>📖 Penggunaan Welcome</b>")),
        other => panic!("unexpected {:?}", other),
    }
    match welcome_command(&group_msg("/welcome"), Some(true), Some(&c)) {
        GreetingOutcome::Reply(Text::Plain(t), true) => assert!(t.starts_with("<b>🎉 Pengaturan Welcome</b>")),
        other => panic!("unexpected {:?}", other),
    }
}

#[test]
fn welcome_preview() {
    let mut c = config();
    c.media_file_id = Some(s("vid"));
    c.media_type = Some(s("video"));
    c.buttons = vec![vec![InlineButton::new(s("Site"), s("https://site.example"))]];
    match welcome_command(&group_msg("/welcome preview"), Some(true), Some(&c)) {
        GreetingOutcome::ShowPreview(p) => {
            assert_eq!(p.text, "Selamat datang!");
            assert_eq!(p.media, Some((PreviewMedia::Video, s("vid"))));
            assert_eq!(p.keyboard.rows.len(), 1);
        }
        other => panic!("unexpected {:?}", other),
    }
    let mut c = config();
    c.message = Some(s("Bye {name} from {group}"));
    c.media_file_id = Some(s("st"));
    c.media_type = Some(s("sticker"));
    let p = make_preview(Greeting::Bye, &c, &person(3, "Di"), "Kebun");
    assert_eq!(p.text, "Bye Di from Kebun");
    assert_eq!(p.media, None);
}

#[test]
fn setwelcome_from_reply_or_text() {
    let mut c = empty_content();
    c.caption = Some(s("Hello!"));
    c.animation = Some(s("gif"));
    let m = replying_to("/setwelcome", c);
    assert_eq!(
        setwelcome_command(&m, Some(true)),
        GreetingOutcome::SetContent(
            Some(s("Hello!")),
            MediaUpdate::Replace(s("gif"), Some(s("animation"))),
            Text::Plain(s("✅ Welcome message berhasil diatur!"))
        )
    );
    let m = replying_to("/setwelcome typed", empty_content());
    assert_eq!(
        setwelcome_command(&m, Some(true)),
        GreetingOutcome::SetContent(Some(s("typed")), MediaUpdate::Keep, Text::Plain(s("✅ Welcome message berhasil diatur!")))
    );
    assert_eq!(
        setbye_command(&group_msg("/setbye  See you "), Some(true)),
        GreetingOutcome::SetContent(Some(s("See you")), MediaUpdate::Clear, Text::Plain(s("✅ Goodbye message berhasil diatur!")))
    );
    match setwelcome_command(&group_msg("/setwelcome"), Some(true)) {
        GreetingOutcome::Reply(Text::Plain(t), true) => assert!(t.starts_with("<b>📖 Cara mengatur welcome:</b>")),
        other => panic!("unexpected {:?}", other),
    }
    let mut m = group_msg("/setwelcome x");
    m.from = None;
    assert_eq!(setwelcome_command(&m, Some(true)), GreetingOutcome::Ignore);
}

#[test]
fn greeting_buttons_and_reset() {
    let m = group_msg("/setwelcomebuttons {button:A|https://a.b}:{button:B|https://c.d}");
    match setwelcomebuttons_command(&m, Some(true)) {
        GreetingOutcome::SetButtons(rows, t, false) => {
            assert_eq!(rows.len(), 1);
            assert_eq!(rows[0].len(), 2);
            assert_eq!(t, Text::Plain(s("✅ Tombol welcome berhasil diatur!")));
        }
        other => panic!("unexpected {:?}", other),
    }
    assert_eq!(
        setwelcomebuttons_command(&group_msg("/setwelcomebuttons clear"), Some(true)),
        GreetingOutcome::SetButtons(vec![], Text::Plain(s("✅ Tombol welcome dihapus!")), false)
    );
    assert_eq!(
        set_greeting_buttons_command(Greeting::Bye, &group_msg("/setbyebuttons nothing"), Some(true)),
        GreetingOutcome::Reply(Text::Plain(s("❌ Format tombol tidak valid. Gunakan: {button:Teks|url}")), false)
    );
    match setwelcomebuttons_command(&group_msg("/setwelcomebuttons"), Some(true)) {
        GreetingOutcome::SetButtons(rows, Text::Plain(t), true) => {
            assert!(rows.is_empty());
            assert!(t.starts_with("<b>📖 Cara mengatur tombol:</b>"));
        }
        other => panic!("unexpected {:?}", other),
    }
    assert_eq!(
        resetwelcome_command(&group_msg("/resetwelcome"), Some(true)),
        GreetingOutcome::Reset(Text::Plain(s("✅ Welcome message direset ke default!")))
    );
    assert_eq!(resetbye_command(&group_msg("/resetbye"), None), GreetingOutcome::Ask(Query::CanChangeInfo));
    let v: Vec<char> = "{button:X|https://x.y} {button:Y|https://y.z}".chars().collect();
    assert_eq!(parse_buttons(&v).len(), 2);
    let k = build_welcome_keyboard(&vec![vec![InlineButton::new(s("X"), s("https://x.y"))]]);
    assert_eq!(
        k,
        Keyboard {
            rows: vec![vec![KeyboardButton {
                label: Text::Plain(s("X")),
                action: ButtonAction::Url(s("https://x.y")),
            }]]
        }
    );
}

fn rules(text: Option<&str>, pm: bool) -> RulesSettings {
    RulesSettings { text: text.map(s), show_in_pm: pm, button_text: s("Baca") }
}

#[test]
fn rules_command_shows_rules() {
    let m = group_msg("/rules");
    assert_eq!(rules_command(&m, -100, "bot", None), RulesOutcome::LoadRules(-100));
    assert_eq!(
        rules_command(&m, -100, "bot", Some(&rules(Some("  "), false))),
        RulesOutcome::Reply(key("rules.none_setup", vec![]), false)
    );
    assert_eq!(
        rules_command(&m, -100, "bot", Some(&rules(Some("Be kind"), false))),
        RulesOutcome::Reply(key("rules.title_format", vec![("{title}", plain("Kebun")), ("{text}", plain("Be kind"))]), true)
    );
    assert_eq!(
        rules_command(&m, -100, "bot", Some(&rules(Some("Be kind"), true))),
        RulesOutcome::ReplyWithKeyboard(
            key("rules.pm_click_text", vec![]),
            Keyboard {
                rows: vec![vec![KeyboardButton {
                    label: Text::Plain(s("Baca")),
                    action: ButtonAction::Url(s("https://t.me/bot?start=rules_-100")),
                }]]
            }
        )
    );
    assert_eq!(
        rules_command(&private_msg("/rules"), 5, "bot", None),
        RulesOutcome::Reply(key("rules.error_group_only", vec![]), false)
    );
}

#[test]
fn setting_rules() {
    assert_eq!(
        setrules_command(&group_msg("/setrules No spam"), Some(true)),
        RulesOutcome::SetRules(s("No spam"), key("rules.set_success", vec![]))
    );
    let mut c = empty_content();
    c.text = Some(s("From reply"));
    let m = replying_to("/setrules ignored", c);
    assert_eq!(get_rules_text(&m), Some(s("From reply")));
    assert_eq!(
        setrules_command(&group_msg("/setrules"), Some(true)),
        RulesOutcome::Reply(key("rules.set_usage", vec![]), true)
    );
    assert_eq!(setrules_command(&group_msg("/setrules x"), None), RulesOutcome::Ask(Query::CanChangeInfo));
    assert_eq!(
        clearrules_command(&group_msg("/clearrules"), Some(true)),
        RulesOutcome::ClearRules(key("rules.cleared", vec![]))
    );
    let r = rules(Some("x"), false);
    let set = |b: bool, mode: &str| {
        RulesOutcome::SetShowInPm(b, key("rules.private_set", vec![("{mode}", Fragment::Key(s(mode), vec![]))]))
    };
    assert_eq!(
        setrulesprivate_command(&group_msg("/setrulesprivate"), -1, Some(true), Some(&r)),
        set(true, "rules.private_mode")
    );
    assert_eq!(
        setrulesprivate_command(&group_msg("/setrulesprivate GROUP"), -1, Some(true), Some(&r)),
        set(false, "rules.group_mode")
    );
    assert_eq!(
        setrulesprivate_command(&group_msg("/setrulesprivate maybe"), -1, Some(true), Some(&r)),
        RulesOutcome::Reply(key("rules.private_usage", vec![]), false)
    );
    assert_eq!(
        setrulesprivate_command(&group_msg("/setrulesprivate on"), -1, Some(true), None),
        RulesOutcome::LoadRules(-1)
    );
}

#[test]
fn rules_deeplink() {
    assert_eq!(handle_rules_deeplink("abc", None, None), RulesOutcome::Say(key("rules.error_link", vec![]), false));
    assert_eq!(handle_rules_deeplink("-100", None, None), RulesOutcome::LoadRules(-100));
    assert_eq!(
        handle_rules_deeplink("-100", Some(None), None),
        RulesOutcome::Say(key("rules.error_group_not_found", vec![]), false)
    );
    let r = rules(None, false);
    assert_eq!(
        handle_rules_deeplink("-100", Some(Some(&r)), None),
        RulesOutcome::Say(key("rules.deeplink_none", vec![]), false)
    );
    let r = rules(Some("R1"), true);
    assert_eq!(handle_rules_deeplink("-100", Some(Some(&r)), None), RulesOutcome::GetTitle(-100));
    assert_eq!(
        handle_rules_deeplink("-100", Some(Some(&r)), Some(None)),
        RulesOutcome::Say(key("rules.title_format", vec![("{title}", plain("Grup")), ("{text}", plain("R1"))]), true)
    );
    assert_eq!(
        handle_rules_deeplink("-100", Some(Some(&r)), Some(Some(s("A&B")))),
        RulesOutcome::Say(key("rules.title_format", vec![("{title}", plain("A&amp;B")), ("{text}", plain("R1"))]), true)
    );
}

fn afk_user(reason: Option<&str>, time: Option<i64>) -> AfkUser {
    AfkUser { user_id: 9, first_name: s("Zed"), afk_reason: reason.map(s), afk_time: time }
}

#[test]
fn afk_commands_store_reason() {
    let reason = Fragment::Key(s("afk.reason"), vec![(s("{reason}"), s("lunch &amp; nap"))]);
    assert_eq!(
        afk_command(&group_msg("/afk lunch & nap")),
        AfkOutcome::Store(
            1,
            Some(s("lunch & nap")),
            key("afk.now_afk", vec![("{id}", plain("1")), ("{name}", plain("Ann")), ("{reason}", reason)])
        )
    );
    assert_eq!(
        brb_command(&group_msg("/brb")),
        AfkOutcome::Store(1, None, key("afk.now_afk", vec![("{id}", plain("1")), ("{name}", plain("Ann")), ("{reason}", plain(""))]))
    );
    let mut m = group_msg("/afk");
    m.from = None;
    assert_eq!(afk_command(&m), AfkOutcome::Ignore);
}

#[test]
fn afk_return_and_notice_texts() {
    assert_eq!(returning_user(true, Some(4)), Some(4));
    assert_eq!(returning_user(false, Some(4)), None);
    let u = afk_user(Some("sleep"), Some(1000));
    let reason = Fragment::Key(s("afk.reason"), vec![(s("{reason}"), s("sleep"))]);
    assert_eq!(
        return_text(9, &s("Zed"), &u, 1000 + 3660),
        Some(key(
            "afk.returned_afk",
            vec![("{id}", plain("9")), ("{name}", plain("Zed")), ("{reason}", reason.clone()), ("{duration}", plain("1 jam 1 menit"))]
        ))
    );
    assert_eq!(return_text(9, &s("Zed"), &afk_user(None, Some(5)), 10), None);
    assert_eq!(
        notice_text(&u, 1030),
        key(
            "afk.is_afk",
            vec![("{id}", plain("9")), ("{name}", plain("Zed")), ("{reason}", reason), ("{duration}", plain("30 detik"))]
        )
    );
    let u = afk_user(Some("x"), None);
    let (t, _now) = notice_text_now(&u).expect("no clock is read without an AFK time");
    match t {
        Text::Key(k, ps) => {
            assert_eq!(k, "afk.is_afk");
            assert_eq!(ps[3], (s("{duration}"), plain("0 detik")));
        }
        other => panic!("unexpected {:?}", other),
    }
    let (t, now) = return_text_now(9, &s("Zed"), &afk_user(Some("x"), Some(0))).expect("the clock reads after the epoch");
    assert!(now > 1_600_000_000);
    assert!(t.is_some());
    assert_eq!(return_text_now(9, &s("Zed"), &afk_user(None, Some(0))).map(|r| r.0), Some(None));
    assert_eq!(return_text_now(9, &s("Zed"), &afk_user(Some("x"), Some(i64::MIN))), None);
    assert!(notice_text_now(&afk_user(Some("x"), Some(i64::MIN))).is_none());
}

#[test]
fn afk_mentions_and_dedup() {
    let text = "hi @zed and @éva";
    let es = vec![
        MessageEntity { kind: EntityKind::Mention, offset: 3, length: 4 },
        MessageEntity { kind: EntityKind::TextMention(77), offset: 0, length: 2 },
        MessageEntity { kind: EntityKind::Other, offset: 0, length: 2 },
        MessageEntity { kind: EntityKind::Mention, offset: 12, length: 5 },
        MessageEntity { kind: EntityKind::Mention, offset: 14, length: 2 },
    ];
    let ls = afk_lookups(Some(5), text, &es);
    assert_eq!(
        ls,
        vec![AfkLookup::Id(5), AfkLookup::Username(s("zed")), AfkLookup::Id(77), AfkLookup::Username(s("éva"))]
    );
    let found = vec![
        Some(afk_user(Some("a"), None)),
        Some(afk_user(Some("b"), None)),
        None,
        Some(AfkUser { user_id: 11, first_name: s("E"), afk_reason: None, afk_time: None }),
    ];
    let ls2 = vec![AfkLookup::Id(9), AfkLookup::Username(s("zed")), AfkLookup::Id(77), AfkLookup::Id(11)];
    assert_eq!(afk_notice_targets(&ls2, &found), vec![0]);
    let found = vec![Some(afk_user(Some("a"), None)), None, Some(afk_user(Some("a"), None))];
    let ls3 = vec![AfkLookup::Id(9), AfkLookup::Id(3), AfkLookup::Id(10)];
    assert_eq!(afk_notice_targets(&ls3, &found), vec![0, 2]);
}

fn flood(enabled: bool) -> AntifloodConfig {
    AntifloodConfig {
        enabled,
        max_messages: 5,
        time_window_secs: 10,
        warnings_before_penalty: 2,
        penalty: FloodPenalty::Mute,
        penalty_duration_secs: 600,
    }
}

#[test]
fn antiflood_status_and_toggle() {
    let m = group_msg("/antiflood");
    assert_eq!(antiflood_command(&m, Some(true), None), FloodOutcome::LoadConfig);
    assert_eq!(
        antiflood_command(&m, Some(true), Some(flood(false))),
        FloodOutcome::Reply(key("antiflood.status_disabled", vec![]), true)
    );
    assert_eq!(
        antiflood_command(&m, Some(true), Some(flood(true))),
        FloodOutcome::Reply(
            key(
                "antiflood.status_enabled",
                vec![
                    ("{limit}", plain("5")),
                    ("{seconds}", plain("10")),
                    ("{warns}", plain("2")),
                    ("{penalty}", Fragment::Key(s("antiflood.penalty_mute"), vec![])),
                    ("{duration}", Fragment::Key(s("antiflood.duration_minutes"), vec![(s("{minutes}"), s("10"))])),
                ]
            ),
            true
        )
    );
    assert_eq!(
        antiflood_command(&group_msg("/antiflood Enable"), Some(true), Some(flood(false))),
        FloodOutcome::Save(flood(true), key("antiflood.enabled", vec![]), false)
    );
    assert_eq!(
        antiflood_command(&group_msg("/antiflood what"), Some(true), Some(flood(false))),
        FloodOutcome::Reply(key("antiflood.usage", vec![]), true)
    );
    assert_eq!(
        antiflood_command(&group_msg("/antiflood on"), Some(false), None),
        FloodOutcome::Reply(key("antiflood.error_permission", vec![]), false)
    );
    assert_eq!(
        antiflood_command(&private_msg("/antiflood"), None, None),
        FloodOutcome::Reply(key("antiflood.error_group_only", vec![]), false)
    );
}

#[test]
fn setflood_ranges() {
    let c = flood(true);
    assert_eq!(
        setflood_command(&group_msg("/setflood 8 20"), Some(true), Some(c)),
        FloodOutcome::Save(
            AntifloodConfig { max_messages: 8, time_window_secs: 20, ..c },
            key("antiflood.limit_set", vec![("{count}", plain("8")), ("{seconds}", plain("20"))]),
            true
        )
    );
    assert_eq!(
        setflood_command(&group_msg("/setflood 1 20"), Some(true), Some(c)),
        FloodOutcome::Reply(key("antiflood.error_limit_count", vec![]), false)
    );
    assert_eq!(
        setflood_command(&group_msg("/setflood 8 301"), Some(true), Some(c)),
        FloodOutcome::Reply(key("antiflood.error_limit_time", vec![]), false)
    );
    assert_eq!(
        setflood_command(&group_msg("/setflood 8"), Some(true), Some(c)),
        FloodOutcome::Save(
            AntifloodConfig { max_messages: 8, ..c },
            key(
                "antiflood.limit_set",
                vec![("{count}", plain("8")), ("{seconds}", plain(&c.time_window_secs.to_string()))]
            ),
            true
        )
    );
    assert_eq!(
        setflood_command(&group_msg("/setflood"), Some(true), Some(c)),
        FloodOutcome::Reply(key("antiflood.setflood_usage", vec![]), true)
    );
    assert_eq!(
        setflood_command(&group_msg("/setflood OFF"), Some(true), Some(c)),
        FloodOutcome::Save(AntifloodConfig { enabled: false, ..c }, key("antiflood.disabled", vec![]), false)
    );
    assert_eq!(setflood_command(&group_msg("/setflood off"), Some(true), None), FloodOutcome::LoadConfig);
    assert_eq!(
        setflood_command(&group_msg("/setflood 101"), Some(true), Some(c)),
        FloodOutcome::Reply(key("antiflood.error_limit_count", vec![]), false)
    );
    assert_eq!(setflood_command(&private_msg("/setflood 8 20"), Some(true), Some(c)), FloodOutcome::Ignore);
}

#[test]
fn setfloodpenalty_durations() {
    let c = flood(true);
    assert_eq!(
        setfloodpenalty_command(&group_msg("/setfloodpenalty TempBan 2H"), Some(true), Some(c)),
        FloodOutcome::Save(
            AntifloodConfig { penalty: FloodPenalty::TempBan, penalty_duration_secs: 7200, ..c },
            key(
                "antiflood.penalty_set",
                vec![
                    ("{penalty}", Fragment::Key(s("antiflood.penalty_tempban"), vec![])),
                    ("{duration}", Fragment::Key(s("antiflood.duration_hours"), vec![(s("{hours}"), s("2"))])),
                ]
            ),
            true
        )
    );
    assert_eq!(
        setfloodpenalty_command(&group_msg("/setfloodpenalty tban 1h"), Some(true), Some(c)),
        FloodOutcome::Save(
            AntifloodConfig { penalty: FloodPenalty::TempBan, penalty_duration_secs: 3600, ..c },
            key(
                "antiflood.penalty_set",
                vec![
                    ("{penalty}", Fragment::Key(s("antiflood.penalty_tempban"), vec![])),
                    ("{duration}", Fragment::Key(s("antiflood.duration_hours"), vec![(s("{hours}"), s("1"))])),
                ]
            ),
            true
        )
    );
    assert!(!penalty_duration_fits(&group_msg("/setfloodpenalty tban 999999999999999999d"), Some(true)));
    assert!(penalty_duration_fits(&group_msg("/setfloodpenalty tban 999999999999999999d"), Some(false)));
    assert!(penalty_duration_fits(&group_msg("/setfloodpenalty zap 999999999999999999d"), Some(true)));
    assert_eq!(
        setfloodpenalty_command(&group_msg("/setfloodpenalty tban 999999999999999999d"), Some(false), Some(c)),
        FloodOutcome::Reply(key("antiflood.error_permission", vec![]), false)
    );
    match setfloodpenalty_command(&group_msg("/setfloodpenalty ban"), Some(true), Some(c)) {
        FloodOutcome::Save(nc, _, _) => assert_eq!(nc.penalty_duration_secs, 300),
        other => panic!("unexpected {:?}", other),
    }
    match setfloodpenalty_command(&group_msg("/setfloodpenalty kick soon"), Some(true), Some(c)) {
        FloodOutcome::Save(nc, _, _) => assert_eq!(nc.penalty_duration_secs, 300),
        other => panic!("unexpected {:?}", other),
    }
    assert_eq!(
        setfloodpenalty_command(&group_msg("/setfloodpenalty zap"), Some(true), Some(c)),
        FloodOutcome::Reply(key("antiflood.error_penalty_type", vec![]), false)
    );
    assert_eq!(
        setfloodpenalty_command(&group_msg("/setfloodpenalty"), Some(true), Some(c)),
        FloodOutcome::Reply(key("antiflood.setpenalty_usage", vec![]), true)
    );
}

#[test]
fn flood_duration_units() {
    let d = |x: &str| parse_duration(&x.chars().collect());
    assert_eq!(d("45"), Some(45));
    assert_eq!(d("45s"), Some(45));
    assert_eq!(d("3M"), Some(180));
    assert_eq!(d("1d"), Some(86400));
    assert_eq!(d("h"), None);
    assert_eq!(d("x5"), None);
    assert_eq!(duration_to_string(0), Fragment::Key(s("antiflood.duration_permanent"), vec![]));
    assert_eq!(duration_to_string(59), Fragment::Key(s("antiflood.duration_seconds"), vec![(s("{seconds}"), s("59"))]));
    assert_eq!(duration_to_string(172800), Fragment::Key(s("antiflood.duration_days"), vec![(s("{days}"), s("2"))]));
    assert_eq!(penalty_to_string(FloodPenalty::Warn), Fragment::Key(s("antiflood.penalty_warn"), vec![]));
}

#[test]
fn approval_targets_and_commands() {
    let m = replying_to("/approve", empty_content());
    assert_eq!(get_target_user(&m), Some((2, s("<a href=\"tg://user?id=2\">Bo</a>"), s("Bo"))));
    let m = group_msg("/approve 77");
    assert_eq!(get_target_user(&m), Some((77, s("<a href=\"tg://user?id=77\">77</a>"), s("77"))));
    assert_eq!(get_target_user(&group_msg("/approve @x")), None);
    let mention = "<a href=\"tg://user?id=77\">77</a>";
    assert_eq!(approve_command(&m, None, None), ApprovalOutcome::Ask(Query::SenderIsAdmin));
    assert_eq!(
        approve_command(&m, Some(true), None),
        ApprovalOutcome::Approve(
            77,
            key("approval.approved_success", vec![("{name}", plain(mention)), ("{chat}", plain("Kebun"))]),
            key("approval.already_approved", vec![("{name}", plain(mention))])
        )
    );
    assert_eq!(
        approve_command(&group_msg("/approve"), Some(true), None),
        ApprovalOutcome::Reply(key("approval.approve_usage", vec![]), true)
    );
    assert_eq!(
        approve_command(&m, Some(false), None),
        ApprovalOutcome::Reply(key("approval.error_admin_only", vec![]), false)
    );
    assert_eq!(
        unapprove_command(&m, Some(true), None),
        ApprovalOutcome::Unapprove(
            77,
            key("approval.unapproved_success", vec![("{name}", plain(mention))]),
            key("approval.not_approved", vec![("{name}", plain(mention))])
        )
    );
    assert_eq!(unapprove_command(&private_msg("/unapprove 77"), Some(true), None), ApprovalOutcome::Ignore);
    let m = group_msg("/approve @alice");
    assert_eq!(approve_command(&m, Some(true), None), ApprovalOutcome::ResolveTarget);
    let alice = "<a href=\"tg://user?id=31\">Alice</a>";
    assert_eq!(
        approve_command(&m, Some(true), Some(Some((31, s("Alice"), 1)))),
        ApprovalOutcome::Approve(
            31,
            key("approval.approved_success", vec![("{name}", plain(alice)), ("{chat}", plain("Kebun"))]),
            key("approval.already_approved", vec![("{name}", plain(alice))])
        )
    );
    assert_eq!(
        approve_command(&m, Some(true), Some(None)),
        ApprovalOutcome::Reply(key("approval.approve_usage", vec![]), true)
    );
    assert_eq!(
        unapprove_command(&group_msg("/unapprove @alice"), Some(true), Some(Some((31, s("Alice"), 1)))),
        ApprovalOutcome::Unapprove(
            31,
            key("approval.unapproved_success", vec![("{name}", plain(alice))]),
            key("approval.not_approved", vec![("{name}", plain(alice))])
        )
    );
    assert_eq!(unapproveall_command(&m, Some(true)), ApprovalOutcome::UnapproveAll);
    assert_eq!(
        unapproveall_command(&m, Some(false)),
        ApprovalOutcome::Reply(key("approval.error_promote_permission", vec![]), false)
    );
    assert_eq!(
        unapprove_all_text(3),
        key("approval.unapprove_all_success", vec![("{count}", plain("3"))])
    );
}

#[test]
fn approval_status_and_list() {
    let m = group_msg("/approval");
    assert_eq!(approval_command(&m, None), ApprovalOutcome::LoadApprovals);
    assert_eq!(approval_command(&m, Some(true)), ApprovalOutcome::Reply(key("approval.status_approved", vec![]), true));
    assert_eq!(
        approval_command(&private_msg("/approval"), None),
        ApprovalOutcome::Reply(Text::Plain(s("⚠️ Perintah ini hanya untuk grup.")), false)
    );
    assert_eq!(approved_command(&m, None), ApprovalOutcome::LoadApprovals);
    assert_eq!(approved_command(&m, Some(&vec![])), ApprovalOutcome::Reply(key("approval.list_empty", vec![]), false));
    assert_eq!(
        approved_command(&m, Some(&vec![4, 8])),
        ApprovalOutcome::Reply(
            Text::Concat(vec![
                Fragment::Key(s("approval.list_header"), vec![]),
                plain("1. <a href=\"tg://user?id=4\">4</a>\n2. <a href=\"tg://user?id=8\">8</a>\n"),
                Fragment::Key(s("approval.list_footer"), vec![(s("{count}"), s("2"))]),
            ]),
            true
        )
    );
}

#[test]
fn flood_durations_checked_before_use() {
    let c = |x: &str| flood_duration_checked(&x.chars().collect());
    assert!(c("10m"));
    assert!(c("nope"));
    assert!(!c("18446744073709551615d"));
    assert!(c("18446744073709551615"));
    assert!(penalty_args_checked(&group_msg("/setfloodpenalty ban 1d")));
    assert!(!penalty_args_checked(&group_msg("/setfloodpenalty ban 999999999999999999d")));
    assert!(penalty_args_checked(&group_msg("/setfloodpenalty ban")));
}

#[test]
fn bye_buttons() {
    match setbyebuttons_command(&group_msg("/setbyebuttons {button:Site|https://s.example}"), Some(true)) {
        GreetingOutcome::SetButtons(rows, t, false) => {
            assert_eq!(rows.len(), 1);
            assert_eq!(t, Text::Plain(s("✅ Tombol goodbye berhasil diatur!")));
        }
        other => panic!("unexpected {:?}", other),
    }
    assert_eq!(
        setbyebuttons_command(&group_msg("/setbyebuttons clear"), Some(true)),
        GreetingOutcome::SetButtons(vec![], Text::Plain(s("✅ Tombol goodbye dihapus!")), false)
    );
    let k = build_bye_keyboard(&vec![vec![InlineButton::new(s("A"), s("not a url"))], vec![InlineButton::new(s("B"), s("https://b.example"))]]);
    assert_eq!(k.rows.len(), 2);
    assert!(k.rows[0].is_empty());
    assert_eq!(k.rows[1][0].action, ButtonAction::Url(s("https://b.example")));
}
