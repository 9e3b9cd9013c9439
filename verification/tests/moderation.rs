use modbot::markup::UserInfo;
use modbot::plugins::admin::{
    admin_change_failed, demote_command, parse_user_id, promote_command, AdminOutcome, AdminRights,
};
use modbot::plugins::ban::{
    ban_command, dban_command, dkick_command, kick_command, kickme_command, kickme_reply, sban_command, skick_command, tban_command,
    unban_command, BanExecution, BanOutcome, arg_duration_fits, duration_arg_fits,
};
use modbot::plugins::common::{CommandMsg, Fragment, Query, Replied, Text};
use modbot::plugins::media::Content;
use modbot::plugins::mute::{
    dmute_command, mute_command, smute_command, tmute_command, unmute_command, MuteOutcome,
};
use modbot::plugins::warn::{
    dwarn_command, read_removal_request, removal_done, removal_reply, resetallwarns_command, resetwarn_command, rmwarn_command,
    swarn_command, warn_command, warn_settings_text, warn_verdict, warnlimit_command, warnmode_command,
    warns_command, warns_text, warnings_command, warntime_command, warntime_duration_fits, ClearAllOutcome, Penalty, RemovalKind, RemovalRequest, RemovalStart,
    SettingOutcome, WarnAction, WarnConfig, WarnEntry, WarnGo, WarnMode, WarnStart, WarnVerdict,
};

fn s(x: &str) -> String {
    x.to_string()
}

fn person(id: u64, first: &str) -> UserInfo {
    UserInfo { id, first_name: s(first), last_name: None, username: None }
}

fn empty_content() -> Content {
    Content { text: None, caption: None, photo: None, video: None, animation: None, document: None, sticker: None }
}

fn group_msg(text: &str) -> CommandMsg {
    CommandMsg {
        msg_id: 100,
        in_group: true,
        in_private: false,
        chat_title: Some(s("Grup")),
        from: Some(person(1, "Admin")),
        text: Some(s(text)),
        reply: None,
    }
}

fn replying(text: &str, target: u64, name: &str) -> CommandMsg {
    let mut m = group_msg(text);
    m.reply = Some(Replied { msg_id: 55, from: Some(person(target, name)), content: empty_content() });
    m
}

fn key(k: &str, ps: Vec<(&str, Fragment)>) -> Text {
    Text::Key(s(k), ps.into_iter().map(|(a, b)| (s(a), b)).collect())
}

fn plain(x: &str) -> Fragment {
    Fragment::Plain(s(x))
}

fn missing(perm: &str) -> Text {
    key("common.error_missing_permission", vec![("{permission}", plain(perm))])
}

#[test]
fn ban_asks_then_refuses_without_right() {
    let mut m = group_msg("/ban 123");
    assert_eq!(ban_command(&m, None, None, None), BanOutcome::Ask(Query::CanRestrictMembers));
    assert_eq!(ban_command(&m, Some(false), None, None), BanOutcome::Reply(missing("CanRestrictMembers")));
    m.in_group = false;
    assert_eq!(ban_command(&m, Some(true), None, Some(false)), BanOutcome::Ignore);
}

#[test]
fn ban_needs_a_target() {
    let m = group_msg("/ban");
    assert_eq!(ban_command(&m, Some(true), None, None), BanOutcome::Reply(key("ban.error_user_not_found", vec![])));
    let m = group_msg("/ban @someone");
    assert_eq!(ban_command(&m, Some(true), None, None), BanOutcome::ResolveTarget);
    assert_eq!(
        ban_command(&m, Some(true), Some(None), None),
        BanOutcome::Reply(key("ban.error_user_not_found", vec![]))
    );
}

#[test]
fn ban_resolved_username() {
    let m = group_msg("/tban @alice 1d spam");
    let alice = Some(Some((42, s("Alice"), 1)));
    assert_eq!(tban_command(&m, Some(true), alice.clone(), None), BanOutcome::Ask(Query::TargetIsAdmin(42)));
    match tban_command(&m, Some(true), alice, Some(false)) {
        BanOutcome::Execute(e) => {
            assert_eq!(e.target, 42);
            assert_eq!(e.ban_for_secs, Some(86400));
        }
        other => panic!("unexpected {:?}", other),
    }
}

#[test]
fn ban_asks_about_admin_and_refuses_admins() {
    let m = group_msg("/ban 123 spam");
    assert_eq!(ban_command(&m, Some(true), None, None), BanOutcome::Ask(Query::TargetIsAdmin(123)));
    assert_eq!(
        ban_command(&m, Some(true), None, Some(true)),
        BanOutcome::Reply(key("ban.anti_admin", vec![("{action}", Fragment::Key(s("ban.action_ban"), vec![]))]))
    );
    assert_eq!(
        kick_command(&m, Some(true), None, Some(true)),
        BanOutcome::Reply(key("ban.anti_admin", vec![("{action}", Fragment::Key(s("ban.action_kick"), vec![]))]))
    );
}

#[test]
fn ban_by_id_with_reason() {
    let m = group_msg("/ban 123 spam links");
    let expected = BanExecution {
        target: 123,
        delete_command: false,
        delete_replied: None,
        ban: true,
        ban_for_secs: None,
        unban: false,
        announce: Some(key(
            "ban.banned",
            vec![
                ("{id}", plain("123")),
                ("{name}", plain("User 123")),
                ("{reason}", Fragment::Key(s("ban.reason"), vec![(s("{reason}"), s("spam links"))])),
            ],
        )),
    };
    assert_eq!(ban_command(&m, Some(true), None, Some(false)), BanOutcome::Execute(expected));
}

#[test]
fn tban_reads_duration() {
    let m = replying("/tban 1h", 9, "B<b");
    let expected = BanExecution {
        target: 9,
        delete_command: false,
        delete_replied: None,
        ban: true,
        ban_for_secs: Some(3600),
        unban: false,
        announce: Some(key(
            "ban.tban",
            vec![
                ("{id}", plain("9")),
                ("{name}", plain("B&lt;b")),
                ("{duration}", plain("3600s")),
                ("{reason}", plain("")),
            ],
        )),
    };
    assert_eq!(tban_command(&m, Some(true), None, Some(false)), BanOutcome::Execute(expected));
    let m = replying("/tban", 9, "B");
    assert_eq!(tban_command(&m, Some(true), None, Some(false)), BanOutcome::Reply(key("ban.error_duration_missing", vec![])));
    let m = replying("/tban soon", 9, "B");
    assert_eq!(tban_command(&m, Some(true), None, Some(false)), BanOutcome::Reply(key("ban.error_time_format", vec![])));
}

#[test]
fn dban_sban_kick_unban_modes() {
    let m = replying("/dban", 9, "Bob");
    match dban_command(&m, Some(true), None, Some(false)) {
        BanOutcome::Execute(e) => {
            assert_eq!(e.delete_replied, Some(55));
            assert!(e.ban && !e.unban && !e.delete_command);
        }
        other => panic!("unexpected {:?}", other),
    }
    match sban_command(&m, Some(true), None, Some(false)) {
        BanOutcome::Execute(e) => {
            assert!(e.delete_command && e.ban && e.announce.is_none());
            assert_eq!(e.delete_replied, None);
        }
        other => panic!("unexpected {:?}", other),
    }
    match kick_command(&m, Some(true), None, Some(false)) {
        BanOutcome::Execute(e) => {
            assert!(e.ban && e.unban);
            assert_eq!(
                e.announce,
                Some(key("ban.kicked", vec![("{id}", plain("9")), ("{name}", plain("Bob")), ("{reason}", plain(""))]))
            );
        }
        other => panic!("unexpected {:?}", other),
    }
    match unban_command(&m, Some(true), None, None) {
        BanOutcome::Execute(e) => {
            assert!(!e.ban && e.unban);
            assert_eq!(e.announce, Some(key("ban.unbanned", vec![("{id}", plain("9")), ("{name}", plain("Bob"))])));
        }
        other => panic!("unexpected {:?}", other),
    }
}

#[test]
fn kickme_only_in_groups() {
    assert_eq!(kickme_command(&group_msg("/kickme")), Some(1));
    let mut m = group_msg("/kickme");
    m.in_group = false;
    assert_eq!(kickme_command(&m), None);
    assert_eq!(kickme_reply(None), key("ban.kickme_goodbye", vec![]));
    assert_eq!(kickme_reply(Some(s("boom"))), key("ban.error_kick_failed", vec![("{error}", plain("boom"))]));
}

#[test]
fn mute_forever_and_for_a_while() {
    let m = group_msg("/mute 5");
    match mute_command(&m, Some(true), None, Some(false)) {
        MuteOutcome::Execute(e) => {
            assert!(e.mute);
            assert_eq!(e.for_secs, None);
            assert_eq!(e.announce, Some(Text::Plain(s("😶 <a href=\"tg://user?id=5\">User 5</a> dimute."))));
        }
        other => panic!("unexpected {:?}", other),
    }
    let m = group_msg("/mute 5 1h spam");
    match mute_command(&m, Some(true), None, Some(false)) {
        MuteOutcome::Execute(e) => {
            assert_eq!(e.for_secs, Some(3600));
            assert_eq!(
                e.announce,
                Some(Text::Plain(s("😶 <a href=\"tg://user?id=5\">User 5</a> dimute.\nDurasi: 3600s\nAlasan: spam")))
            );
        }
        other => panic!("unexpected {:?}", other),
    }
    let m = group_msg("/mute 5 spam");
    match mute_command(&m, Some(true), None, Some(false)) {
        MuteOutcome::Execute(e) => {
            assert_eq!(e.for_secs, None);
            assert_eq!(
                e.announce,
                Some(Text::Plain(s("😶 <a href=\"tg://user?id=5\">User 5</a> dimute.\nAlasan: spam")))
            );
        }
        other => panic!("unexpected {:?}", other),
    }
}

#[test]
fn tmute_username_for_two_hours() {
    let m = group_msg("/tmute @username 2h");
    assert_eq!(tmute_command(&m, Some(true), None, None), MuteOutcome::ResolveTarget);
    let u = Some(Some((55, s("Uma"), 1)));
    match tmute_command(&m, Some(true), u, Some(false)) {
        MuteOutcome::Execute(e) => {
            assert!(e.mute);
            assert_eq!(e.target, 55);
            assert_eq!(e.for_secs, Some(7200));
            assert_eq!(
                e.announce,
                Some(Text::Plain(s("😶 <a href=\"tg://user?id=55\">Uma</a> dimute.\nDurasi: 7200s")))
            );
        }
        other => panic!("unexpected {:?}", other),
    }
}

#[test]
fn promote_and_demote_by_username() {
    let m = group_msg("/promote @alice Mod");
    assert_eq!(promote_command(&m, Some(true), None), AdminOutcome::ResolveTarget);
    match promote_command(&m, Some(true), Some(Some((31, s("Alice"), 1)))) {
        AdminOutcome::Change(c) => {
            assert_eq!(c.target, 31);
            assert!(c.rights.can_restrict_members);
            assert_eq!(c.custom_title, Some(s("Mod")));
        }
        other => panic!("unexpected {:?}", other),
    }
    let m = group_msg("/demote @alice");
    match demote_command(&m, Some(true), Some(Some((31, s("Alice"), 1)))) {
        AdminOutcome::Change(c) => {
            assert_eq!(c.target, 31);
            assert!(!c.rights.can_restrict_members && !c.rights.can_promote_members);
            assert_eq!(c.custom_title, None);
        }
        other => panic!("unexpected {:?}", other),
    }
}

#[test]
fn mute_refusals() {
    let m = group_msg("/tmute 5");
    assert_eq!(mute_command(&m, None, None, None), MuteOutcome::Ask(Query::CanRestrictMembers));
    assert_eq!(
        tmute_command(&m, Some(false), None, None),
        MuteOutcome::Reply(Text::Plain(s("❌ Anda tidak memiliki izin untuk membatasi member.")))
    );
    assert_eq!(tmute_command(&m, Some(true), None, None), MuteOutcome::Ask(Query::TargetIsAdmin(5)));
    assert_eq!(
        tmute_command(&m, Some(true), None, Some(false)),
        MuteOutcome::Reply(Text::Plain(s("❌ Tentukan durasi untuk temp mute. Contoh: /tmute @user 1h")))
    );
    let m = group_msg("/tmute 5 later");
    assert_eq!(
        tmute_command(&m, Some(true), None, Some(false)),
        MuteOutcome::Reply(Text::Plain(s("❌ Format waktu salah. Contoh: 1h, 30m, 1d")))
    );
    let m = group_msg("/mute");
    assert_eq!(mute_command(&m, Some(true), None, None), MuteOutcome::Reply(Text::Plain(s("❌ User tidak ditemukan."))));
    let m = group_msg("/mute 5");
    assert_eq!(
        mute_command(&m, Some(true), None, Some(true)),
        MuteOutcome::Reply(Text::Plain(s(
            "😏 Kenapa saya harus membisukan seorang admin? Sepertinya itu bukan ide yang bagus."
        )))
    );
}

#[test]
fn dmute_smute_unmute() {
    let m = replying("/dmute", 8, "Cy");
    match dmute_command(&m, Some(true), None, Some(false)) {
        MuteOutcome::Execute(e) => {
            assert_eq!(e.delete_replied, Some(55));
            assert_eq!(
                e.announce,
                Some(Text::Plain(s("😶 <a href=\"tg://user?id=8\">Cy</a> dimute dan pesan dihapus.")))
            );
        }
        other => panic!("unexpected {:?}", other),
    }
    match smute_command(&m, Some(true), None, Some(false)) {
        MuteOutcome::Execute(e) => assert!(e.delete_command && e.announce.is_none()),
        other => panic!("unexpected {:?}", other),
    }
    match unmute_command(&m, Some(true), None, None) {
        MuteOutcome::Execute(e) => {
            assert!(!e.mute);
            assert_eq!(e.announce, Some(Text::Plain(s("🔊 <a href=\"tg://user?id=8\">Cy</a> diunmute."))));
        }
        other => panic!("unexpected {:?}", other),
    }
}

#[test]
fn warn_start_steps() {
    let m = group_msg("/warn @bob too loud");
    assert_eq!(warn_command(&m, None, None, None), WarnStart::Ask(Query::CanRestrictMembers));
    assert_eq!(warn_command(&m, Some(false), None, None), WarnStart::Reply(missing("CanRestrictMembers")));
    assert_eq!(swarn_command(&m, Some(false), None, None), WarnStart::Ignore);
    assert_eq!(warn_command(&m, Some(true), None, None), WarnStart::ResolveTarget);
    assert_eq!(warn_command(&m, Some(true), Some(None), None), WarnStart::Reply(key("warn.error_no_target", vec![])));
    let t = Some(Some((7u64, s("Bob"), 1usize)));
    assert_eq!(warn_command(&m, Some(true), t.clone(), None), WarnStart::Ask(Query::TargetIsAdmin(7)));
    assert_eq!(
        warn_command(&m, Some(true), t.clone(), Some(true)),
        WarnStart::Reply(key("warn.error_admin_target", vec![]))
    );
    assert_eq!(
        warn_command(&m, Some(true), t.clone(), Some(false)),
        WarnStart::Proceed(WarnGo {
            target: 7,
            name: s("Bob"),
            reason: Some(s("too loud")),
            delete_replied: None,
            delete_command: false,
        })
    );
}

#[test]
fn warn_verdict_below_limit() {
    let config = WarnConfig { limit: 3, mode: WarnMode::Ban, action_duration_secs: 3600, warn_time_secs: None };
    let v = warn_verdict(WarnAction::Normal, -100, 7, &s("Bob"), &None, 1, &config);
    let header = key(
        "warn.warning_header",
        vec![
            ("{id}", plain("7")),
            ("{name}", plain("Bob")),
            ("{count}", plain("1")),
            ("{limit}", plain("3")),
            ("{reason}", Fragment::EscapedKey(s("warn.no_reason"))),
        ],
    );
    assert_eq!(
        v,
        WarnVerdict::Warned { announce: Some((header, key("warn.button_remove", vec![]), s("warn_remove:-100:7"))) }
    );
    let v = warn_verdict(WarnAction::Silent, -100, 7, &s("Bob"), &None, 1, &config);
    assert_eq!(v, WarnVerdict::Warned { announce: None });
}

#[test]
fn warn_verdict_at_limit() {
    let config = WarnConfig { limit: 3, mode: WarnMode::TBan, action_duration_secs: 3600, warn_time_secs: None };
    let v = warn_verdict(WarnAction::Normal, -100, 7, &s("Bob"), &Some(s("x")), 3, &config);
    let params = |p: Fragment| {
        key(
            "warn.limit_reached",
            vec![("{id}", plain("7")), ("{name}", plain("Bob")), ("{count}", plain("3")), ("{limit}", plain("3")), ("{penalty}", p)],
        )
    };
    assert_eq!(
        v,
        WarnVerdict::LimitReached {
            penalty: Penalty::BanFor(3600),
            reset_warnings: true,
            announce_applied: Some(params(Fragment::Key(
                s("warn.penalty_tban"),
                vec![(s("{name}"), s("Bob")), (s("{duration}"), s("1 jam"))]
            ))),
            announce_failed: Some(params(Fragment::Key(s("warn.error_penalty_failed"), vec![]))),
        }
    );
    let mute = WarnConfig { limit: 2, mode: WarnMode::Mute, action_duration_secs: 60, warn_time_secs: None };
    match warn_verdict(WarnAction::Silent, -100, 7, &s("Bob"), &None, 5, &mute) {
        WarnVerdict::LimitReached { penalty, reset_warnings, announce_applied, announce_failed } => {
            assert!(reset_warnings);
            assert_eq!(penalty, Penalty::MuteFor(31622400));
            assert!(announce_applied.is_none() && announce_failed.is_none());
        }
        other => panic!("unexpected {:?}", other),
    }
}

#[test]
fn warn_mode_names() {
    assert_eq!(WarnMode::from_str("TBAN"), Some(WarnMode::TBan));
    assert_eq!(WarnMode::from_str("mute"), Some(WarnMode::Mute));
    assert_eq!(WarnMode::from_str("mutes"), None);
    assert_eq!(WarnMode::TMute.as_str(), "tmute");
    assert_eq!(WarnMode::Kick.description(), "Kick dari grup");
}

#[test]
fn warn_removal_button_data() {
    let d = Some(s("warn_remove:-100:5"));
    assert_eq!(read_removal_request(&d, None), RemovalRequest::AskPermission(-100));
    assert_eq!(read_removal_request(&d, Some(true)), RemovalRequest::Remove(-100, 5));
    assert_eq!(read_removal_request(&d, Some(false)), RemovalRequest::Answer(missing("CanRestrictMembers"), true));
    assert_eq!(
        read_removal_request(&Some(s("warn_remove:x")), None),
        RemovalRequest::Answer(Text::Plain(s("❌ Data tidak valid.")), false)
    );
    assert_eq!(
        read_removal_request(&Some(s("warn_remove:abc:5")), None),
        RemovalRequest::Answer(key("warn.callback_invalid_data", vec![]), false)
    );
    assert_eq!(read_removal_request(&Some(s("help_admin")), None), RemovalRequest::NotOurs);
    assert_eq!(read_removal_request(&None, None), RemovalRequest::NotOurs);
}

#[test]
fn warn_removal_done_texts() {
    let (edit, answer) = removal_done(true, 1, &s("Admin"), 5, None, 0, 3);
    assert_eq!(
        edit,
        Some(key(
            "warn.callback_removed",
            vec![
                ("{admin}", plain("<a href=\"tg://user?id=1\">Admin</a>")),
                ("{target}", plain("<a href=\"tg://user?id=5\">User 5</a>")),
                ("{count}", plain("0")),
                ("{limit}", plain("3")),
            ]
        ))
    );
    assert_eq!(answer, key("warn.callback_success", vec![]));
    let (edit, answer) = removal_done(false, 1, &s("Admin"), 5, Some(s("E")), 0, 3);
    assert_eq!(edit, None);
    assert_eq!(answer, key("warn.user_no_warnings_simple", vec![]));
}

#[test]
fn rmwarn_and_resetwarn() {
    let m = group_msg("/rmwarn");
    assert_eq!(rmwarn_command(&m, Some(true), None), RemovalStart::ResolveTarget);
    assert_eq!(
        rmwarn_command(&m, Some(true), Some(None)),
        RemovalStart::Reply(key("warn.error_no_target_remove", vec![]))
    );
    assert_eq!(
        rmwarn_command(&m, Some(true), Some(Some((4, s("D"), 0)))),
        RemovalStart::Remove(4, s("D"))
    );
    assert_eq!(
        removal_reply(RemovalKind::LastWarning, 4, &s("D"), true, 1, 3),
        (
            key(
                "warn.removed_last",
                vec![("{id}", plain("4")), ("{name}", plain("D")), ("{count}", plain("1")), ("{limit}", plain("3"))]
            ),
            true
        )
    );
    assert_eq!(
        removal_reply(RemovalKind::AllOfUser, 4, &s("D"), true, 0, 3),
        (key("warn.reset_success", vec![("{id}", plain("4")), ("{name}", plain("D"))]), true)
    );
    assert_eq!(
        removal_reply(RemovalKind::AllOfUser, 4, &s("D"), false, 0, 3),
        (key("warn.user_no_warnings_simple", vec![]), false)
    );
}

#[test]
fn resetallwarns_steps() {
    let m = group_msg("/resetallwarns");
    assert_eq!(resetallwarns_command(&m, None, None), ClearAllOutcome::Ask(Query::CanPromoteMembers));
    assert_eq!(resetallwarns_command(&m, Some(false), None), ClearAllOutcome::Reply(missing("CanPromoteMembers")));
    assert_eq!(resetallwarns_command(&m, Some(true), None), ClearAllOutcome::Clear);
    assert_eq!(
        resetallwarns_command(&m, Some(true), Some(4)),
        ClearAllOutcome::Done(key("warn.reset_all_group", vec![("{count}", plain("4"))]))
    );
}

#[test]
fn warn_settings_commands() {
    let c = WarnConfig { limit: 3, mode: WarnMode::Ban, action_duration_secs: 3600, warn_time_secs: None };
    let m = group_msg("/warnlimit 5");
    assert_eq!(warnlimit_command(&m, Some(true), None), SettingOutcome::LoadConfig);
    assert_eq!(
        warnlimit_command(&m, Some(true), Some(c)),
        SettingOutcome::Save(WarnConfig { limit: 5, ..c }, key("warn.limit_set", vec![("{limit}", plain("5"))]), true)
    );
    assert_eq!(
        warnlimit_command(&group_msg("/warnlimit 0"), Some(true), Some(c)),
        SettingOutcome::Reply(key("warn.error_limit_range", vec![]), false)
    );
    assert_eq!(
        warnlimit_command(&group_msg("/warnlimit many"), Some(true), Some(c)),
        SettingOutcome::Reply(key("warn.error_number_invalid", vec![]), false)
    );
    assert_eq!(
        warnmode_command(&group_msg("/warnmode KICK"), Some(true), Some(c)),
        SettingOutcome::Save(
            WarnConfig { mode: WarnMode::Kick, ..c },
            key("warn.mode_set", vec![("{mode}", plain("kick")), ("{desc}", plain("Kick dari grup"))]),
            true
        )
    );
    assert_eq!(
        warnmode_command(&group_msg("/warnmode nuke"), Some(true), Some(c)),
        SettingOutcome::Reply(key("warn.mode_invalid", vec![]), false)
    );
    assert_eq!(
        warntime_command(&group_msg("/warntime off"), Some(true), Some(c)),
        SettingOutcome::Save(c, key("warn.time_set_permanent", vec![]), false)
    );
    assert_eq!(
        warntime_command(&group_msg("/warntime 1d"), Some(true), Some(c)),
        SettingOutcome::Save(
            WarnConfig { warn_time_secs: Some(86400), ..c },
            key("warn.time_set", vec![("{time}", plain("1 hari"))]),
            true
        )
    );
    assert_eq!(
        warntime_command(&group_msg("/warntime 1d"), Some(false), Some(c)),
        SettingOutcome::Reply(Text::Plain(s("❌ Anda tidak memiliki izin untuk mengubah pengaturan.")), false)
    );
}

#[test]
fn warn_settings_and_list_texts() {
    let c = WarnConfig { limit: 3, mode: WarnMode::TMute, action_duration_secs: 7200, warn_time_secs: Some(90) };
    assert_eq!(
        warn_settings_text(&c),
        key(
            "warn.settings_header",
            vec![
                ("{limit}", plain("3")),
                ("{mode}", plain("tmute")),
                ("{desc}", plain("Mute sementara")),
                ("{duration}", plain("2 jam")),
                ("{validity}", plain("1 menit")),
            ]
        )
    );
    assert_eq!(
        warns_text(5, &s("E"), 0, 3, &vec![]),
        key("warn.user_no_warnings", vec![("{id}", plain("5")), ("{name}", plain("E"))])
    );
    let ws = vec![
        WarnEntry { reason: Some(s("a<b")), expired: false },
        WarnEntry { reason: None, expired: true },
        WarnEntry { reason: None, expired: false },
    ];
    let header = Fragment::Key(
        s("warn.user_warnings_header"),
        vec![(s("{id}"), s("5")), (s("{name}"), s("E")), (s("{count}"), s("2")), (s("{limit}"), s("3"))],
    );
    assert_eq!(
        warns_text(5, &s("E"), 2, 3, &ws),
        Text::Concat(vec![
            header,
            plain("1. "),
            plain("a&lt;b"),
            plain("\n"),
            plain("3. "),
            Fragment::EscapedKey(s("warn.no_reason")),
            plain("\n"),
        ])
    );
}

#[test]
fn promote_and_demote() {
    let mut m = group_msg("/promote 77");
    m.in_group = false;
    assert_eq!(promote_command(&m, None, None), AdminOutcome::Reply(key("admin.error_group_only", vec![]), false));
    let m = group_msg("/promote 77 Big Boss Title Long Enough");
    assert_eq!(promote_command(&m, None, None), AdminOutcome::Ask(Query::CanPromoteMembers));
    match promote_command(&m, Some(true), None) {
        AdminOutcome::Change(c) => {
            assert_eq!(c.target, 77);
            assert!(c.rights.can_restrict_members && !c.rights.can_promote_members);
            assert_eq!(c.custom_title, Some(s("Big Boss Title L")));
            assert_eq!(
                c.success,
                key(
                    "admin.promote_success",
                    vec![
                        ("{user_id}", plain("77")),
                        ("{user_name}", plain("77")),
                        ("{title}", plain(" (Big Boss Title Long Enough)")),
                    ]
                )
            );
        }
        other => panic!("unexpected {:?}", other),
    }
    let m = replying("/demote", 12, "Zed");
    match demote_command(&m, Some(true), None) {
        AdminOutcome::Change(c) => {
            assert_eq!(c.target, 12);
            assert_eq!(
                c.rights,
                AdminRights {
                    can_manage_chat: false,
                    can_delete_messages: false,
                    can_restrict_members: false,
                    can_promote_members: false,
                    can_change_info: false,
                    can_invite_users: false,
                    can_pin_messages: false,
                }
            );
            assert_eq!(c.custom_title, None);
        }
        other => panic!("unexpected {:?}", other),
    }
    assert_eq!(
        promote_command(&group_msg("/promote"), Some(true), None),
        AdminOutcome::Reply(key("admin.promote_usage", vec![]), true)
    );
    assert_eq!(demote_command(&group_msg("/demote bob"), Some(true), None), AdminOutcome::ResolveTarget);
    assert_eq!(
        demote_command(&group_msg("/demote bob"), Some(true), Some(None)),
        AdminOutcome::Reply(key("admin.error_user_not_found", vec![]), false)
    );
    assert_eq!(
        promote_command(&group_msg("/promote 1"), Some(false), None),
        AdminOutcome::Reply(missing("CanPromoteMembers"), false)
    );
    assert_eq!(admin_change_failed(false, &s("no")), key("admin.demote_fail", vec![("{error}", plain("no"))]));
    let v: Vec<char> = "42".chars().collect();
    assert_eq!(parse_user_id(&v), Some(42));
    let v: Vec<char> = "@x".chars().collect();
    assert_eq!(parse_user_id(&v), None);
}

#[test]
fn duration_arguments_checked_before_parsing() {
    assert!(duration_arg_fits(&group_msg("/tban 5 1h"), Some(true), &None, Some(false)));
    assert!(duration_arg_fits(&group_msg("/tban 5"), Some(true), &None, Some(false)));
    assert!(duration_arg_fits(&group_msg("/tban @nobody 1é"), Some(true), &None, Some(false)));
    assert!(!duration_arg_fits(&group_msg("/tban @nobody 1é"), Some(true), &Some(Some((3, s("N"), 1))), Some(false)));
    assert!(!duration_arg_fits(&group_msg("/tban 5 1é"), Some(true), &None, Some(false)));
    assert!(!duration_arg_fits(&group_msg("/tban 5 99999999999999999w"), Some(true), &None, Some(false)));
    assert!(!duration_arg_fits(&replying("/tban 1é", 9, "B"), Some(true), &None, Some(false)));
    assert!(duration_arg_fits(&group_msg("/tban 5 1é"), Some(false), &None, None));
    assert!(duration_arg_fits(&group_msg("/tban 5 1é"), Some(true), &None, Some(true)));
    assert_eq!(
        tban_command(&group_msg("/tban 5 1é"), Some(false), None, None),
        BanOutcome::Reply(missing("CanRestrictMembers"))
    );
    assert!(!warntime_duration_fits(&group_msg("/warntime 400000000000000000m"), Some(true)));
    assert!(warntime_duration_fits(&group_msg("/warntime 400000000000000000m"), Some(false)));
    assert!(warntime_duration_fits(&group_msg("/warntime off"), Some(true)));
    assert!(warntime_duration_fits(&group_msg("/warntime 2d"), Some(true)));
    assert!(arg_duration_fits(&group_msg("/warntime 2d"), 0));
    assert!(!arg_duration_fits(&group_msg("/warntime 400000000000000000m"), 0));
    assert!(arg_duration_fits(&group_msg("/warntime"), 0));
}

#[test]
fn warns_and_warnings_in_groups_only() {
    let m = group_msg("/warns");
    assert_eq!(warns_command(&m, None), Some((1, s("Admin"))));
    assert_eq!(warns_command(&m, Some((7, s("Bob"), 1))), Some((7, s("Bob"))));
    let mut p = group_msg("/warns");
    p.in_group = false;
    assert_eq!(warns_command(&p, Some((7, s("Bob"), 1))), None);
    let c = WarnConfig { limit: 3, mode: WarnMode::Ban, action_duration_secs: 60, warn_time_secs: None };
    assert_eq!(warnings_command(&m, &c), Some(warn_settings_text(&c)));
    assert_eq!(warnings_command(&p, &c), None);
}

#[test]
fn delete_and_silent_kicks_and_warns() {
    let m = replying("/dkick spam", 9, "Bob");
    match dkick_command(&m, Some(true), None, Some(false)) {
        BanOutcome::Execute(e) => {
            assert_eq!(e.delete_replied, Some(55));
            assert!(e.ban && e.unban && !e.delete_command);
            assert_eq!(
                e.announce,
                Some(key(
                    "ban.dkick",
                    vec![
                        ("{id}", plain("9")),
                        ("{name}", plain("Bob")),
                        ("{reason}", Fragment::Key(s("ban.reason"), vec![(s("{reason}"), s("spam"))])),
                    ]
                ))
            );
        }
        other => panic!("unexpected {:?}", other),
    }
    match skick_command(&m, Some(true), None, Some(false)) {
        BanOutcome::Execute(e) => assert!(e.delete_command && e.ban && e.unban && e.announce.is_none()),
        other => panic!("unexpected {:?}", other),
    }
    let t = Some(Some((9u64, s("Bob"), 0usize)));
    match dwarn_command(&m, Some(true), t.clone(), Some(false)) {
        WarnStart::Proceed(go) => {
            assert_eq!(go.delete_replied, Some(55));
            assert!(!go.delete_command);
            assert_eq!(go.reason, Some(s("spam")));
        }
        other => panic!("unexpected {:?}", other),
    }
    assert_eq!(resetwarn_command(&m, Some(true), t), RemovalStart::Remove(9, s("Bob")));
    assert_eq!(
        resetwarn_command(&m, Some(false), None),
        RemovalStart::Reply(Text::Plain(s("❌ Anda tidak memiliki izin untuk menghapus peringatan.")))
    );
    assert_eq!(
        resetwarn_command(&m, Some(true), Some(None)),
        RemovalStart::Reply(key("warn.error_no_target_reset", vec![]))
    );
}
