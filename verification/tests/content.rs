use modbot::markup::{
    callback_button, compact_url_keyboard, single_button_keyboard, url_keyboard, ButtonAction, InlineButton,
    Keyboard, KeyboardButton, UserInfo,
};
use modbot::plugins::common::{CommandMsg, Fragment, Query, Replied, Text};
use modbot::plugins::filters::{
    filter_command, filter_media_fits, filters_command, filters_list_text, parse_filter_args, parse_filter_triggers,
    parse_trigger_type, stop_command,
    stopall_command, stopped_all_reply, stopped_reply, FilterAdminOutcome, FilterOutcome, MatchType,
};
use modbot::plugins::media::{
    extract_media, extract_message_content, largest_photo, note_media_of, text_or_caption_of, Content, PhotoSize, photo_areas_checked,
};
use modbot::plugins::notes::{
    clear_command, clearall_command, cleared_reply, get_command, get_note, handle_hashtag_note, hashtag_note,
    is_note_hashtag, list_notes, note_not_found, notes_command, privatenotes_command, save_command,
    send_note_response, Note, NoteOutcome, NoteSend,
};

fn s(x: &str) -> String {
    x.to_string()
}

fn chars(x: &str) -> Vec<char> {
    x.chars().collect()
}

fn person(id: u64, first: &str) -> UserInfo {
    UserInfo { id, first_name: s(first), last_name: None, username: None }
}

fn empty_content() -> Content {
    Content { text: None, caption: None, photo: None, video: None, animation: None, document: None, sticker: None }
}

fn group_msg(text: &str) -> CommandMsg {
    CommandMsg {
        msg_id: 100,
        in_group: true,
        in_private: false,
        chat_title: Some(s("Grup")),
        from: Some(person(1, "Ann")),
        text: Some(s(text)),
        reply: None,
    }
}

fn private_msg(text: &str) -> CommandMsg {
    let mut m = group_msg(text);
    m.in_group = false;
    m.in_private = true;
    m
}

fn replying_to(text: &str, content: Content) -> CommandMsg {
    let mut m = group_msg(text);
    m.reply = Some(Replied { msg_id: 55, from: Some(person(2, "Bo")), content });
    m
}

fn photo(id: &str, w: u32, h: u32) -> PhotoSize {
    PhotoSize { file_id: s(id), width: w, height: h }
}

fn button(t: &str, u: &str) -> InlineButton {
    InlineButton::new(s(t), s(u))
}

#[test]
fn filter_args_quoted_and_plain() {
    assert_eq!(parse_filter_args(&chars("\"good morning\"  hi all ")), (chars("good morning"), chars("hi all")));
    assert_eq!(parse_filter_args(&chars("hello   world  ")), (chars("hello"), chars("world")));
    assert_eq!(parse_filter_args(&chars("alone")), (chars("alone"), chars("")));
    assert_eq!(parse_filter_args(&chars("\"open quote")), (chars("\"open"), chars("quote")));
}

#[test]
fn filter_trigger_types() {
    assert_eq!(parse_trigger_type(&chars("exact:hi")), (chars("hi"), MatchType::Exact));
    assert_eq!(parse_trigger_type(&chars("prefix:/x")), (chars("/x"), MatchType::Prefix));
    assert_eq!(parse_trigger_type(&chars("hi")), (chars("hi"), MatchType::Keyword));
}

#[test]
fn filter_command_saves_lowercased_trigger() {
    let m = group_msg("/filter Exact:HeLLo Hi {admin} there {button:Go|https://g.o}");
    match filter_command(&m, Some(true)) {
        FilterOutcome::Save(ds, t) => {
            assert_eq!(ds.len(), 1);
            let d = &ds[0];
            assert_eq!(d.trigger, "exact:hello");
            assert_eq!(d.match_type, MatchType::Keyword);
            assert_eq!(d.reply, "Hi  there");
            assert!(d.admin_only && !d.user_only && !d.protect && !d.replytag);
            assert_eq!(d.buttons.len(), 1);
            assert_eq!(d.media_file_id, None);
            assert_eq!(
                t,
                Text::Key(s("filters.added"), vec![(s("{trigger}"), Fragment::Plain(s("Exact:HeLLo")))])
            );
        }
        other => panic!("unexpected {:?}", other),
    }
    let m = group_msg("/filter exact:HeLLo Hi");
    match filter_command(&m, Some(true)) {
        FilterOutcome::Save(ds, _) => {
            assert_eq!(ds.len(), 1);
            let d = &ds[0];
            assert_eq!(d.trigger, "hello");
            assert_eq!(d.match_type, MatchType::Exact);
        }
        other => panic!("unexpected {:?}", other),
    }
}

#[test]
fn filter_command_saves_one_filter_per_listed_trigger() {
    let m = group_msg("/filter (hi, hello) Welcome!");
    match filter_command(&m, Some(true)) {
        FilterOutcome::Save(ds, t) => {
            assert_eq!(ds.len(), 2);
            assert_eq!(ds[0].trigger, "hi");
            assert_eq!(ds[1].trigger, "hello");
            for d in &ds {
                assert_eq!(d.reply, "Welcome!");
                assert_eq!(d.match_type, MatchType::Keyword);
            }
            assert_eq!(
                t,
                Text::Key(s("filters.added"), vec![(s("{trigger}"), Fragment::Plain(s("hi, hello")))])
            );
        }
        other => panic!("unexpected {:?}", other),
    }
    match filter_command(&group_msg("/filter (exact:A<b, , prefix:x) ok"), Some(true)) {
        FilterOutcome::Save(ds, t) => {
            assert_eq!(ds.len(), 2);
            assert_eq!((ds[0].trigger.as_str(), ds[0].match_type), ("a<b", MatchType::Exact));
            assert_eq!((ds[1].trigger.as_str(), ds[1].match_type), ("x", MatchType::Prefix));
            assert_eq!(
                t,
                Text::Key(s("filters.added"), vec![(s("{trigger}"), Fragment::Plain(s("A&lt;b, x")))])
            );
        }
        other => panic!("unexpected {:?}", other),
    }
    assert_eq!(
        filter_command(&group_msg("/filter ( , ) reply"), Some(true)),
        FilterOutcome::Reply(Text::Key(s("filters.error_empty_trigger"), vec![]), false)
    );
    let (ts, reply) = parse_filter_triggers(&chars("(a,b) c d"));
    assert_eq!((ts, reply), (vec![chars("a"), chars("b")], chars("c d")));
}

#[test]
fn filter_reads_media_only_when_reached() {
    let mut c = empty_content();
    c.photo = Some(vec![photo("huge", u32::MAX, u32::MAX)]);
    let m = replying_to("/filter pic", c);
    assert!(!filter_media_fits(&m, Some(true)));
    assert!(filter_media_fits(&m, Some(false)));
    assert!(filter_media_fits(&m, None));
    assert!(matches!(filter_command(&m, Some(false)), FilterOutcome::Reply(_, false)));
}

#[test]
fn filter_command_refusals() {
    assert_eq!(
        filter_command(&private_msg("/filter a b"), None),
        FilterOutcome::Reply(Text::Plain(s("⚠️ Perintah ini hanya untuk grup.")), false)
    );
    assert_eq!(filter_command(&group_msg("/filter a b"), None), FilterOutcome::Ask(Query::CanChangeInfo));
    assert_eq!(
        filter_command(&group_msg("/filter a b"), Some(false)),
        FilterOutcome::Reply(
            Text::Key(
                s("common.error_missing_permission"),
                vec![(s("{permission}"), Fragment::Plain(s("CanChangeInfo")))]
            ),
            false
        )
    );
    assert_eq!(
        filter_command(&group_msg("/filter"), Some(true)),
        FilterOutcome::Reply(Text::Key(s("help.filters_text"), vec![]), true)
    );
    assert_eq!(
        filter_command(&group_msg("/filter \"\" reply"), Some(true)),
        FilterOutcome::Reply(Text::Key(s("filters.error_empty_trigger"), vec![]), false)
    );
    assert_eq!(
        filter_command(&group_msg("/filter word"), Some(true)),
        FilterOutcome::Reply(Text::Key(s("filters.error_empty_reply"), vec![]), false)
    );
}

#[test]
fn filter_command_takes_replied_media_and_caption() {
    let mut c = empty_content();
    c.caption = Some(s("cap"));
    c.photo = Some(vec![photo("small", 10, 10), photo("big", 100, 100), photo("mid", 50, 50)]);
    let m = replying_to("/filter pic", c);
    match filter_command(&m, Some(true)) {
        FilterOutcome::Save(ds, _) => {
            assert_eq!(ds.len(), 1);
            let d = &ds[0];
            assert_eq!(d.reply, "cap");
            assert_eq!(d.media_file_id, Some(s("big")));
            assert_eq!(d.media_type, Some(s("photo")));
        }
        other => panic!("unexpected {:?}", other),
    }
    let mut c = empty_content();
    c.sticker = Some(s("stk"));
    let m = replying_to("/filter st", c);
    match filter_command(&m, Some(true)) {
        FilterOutcome::Save(ds, _) => {
            assert_eq!(ds.len(), 1);
            let d = &ds[0];
            assert_eq!(d.reply, "");
            assert_eq!(d.media_type, Some(s("sticker")));
        }
        other => panic!("unexpected {:?}", other),
    }
}

#[test]
fn filters_list_and_admin_commands() {
    assert_eq!(filters_list_text(&vec![]), Text::Key(s("filters.none"), vec![]));
    assert_eq!(
        filters_list_text(&vec![s("a<b"), s("c")]),
        Text::Concat(vec![
            Fragment::Key(s("filters.list_header"), vec![(s("{count}"), s("2"))]),
            Fragment::Plain(s("• <code>a&lt;b</code>\n")),
            Fragment::Plain(s("• <code>c</code>\n")),
            Fragment::Key(s("filters.list_footer"), vec![]),
        ])
    );
    assert_eq!(filters_command(&group_msg("/filters")), FilterAdminOutcome::LoadTriggers);
    assert_eq!(
        filters_command(&private_msg("/filters")),
        FilterAdminOutcome::Reply(Text::Plain(s("⚠️ Perintah ini hanya untuk grup.")), false)
    );
    assert_eq!(stop_command(&group_msg("/stop  hello there "), None), FilterAdminOutcome::Ask(Query::CanChangeInfo));
    assert_eq!(stop_command(&group_msg("/stop  hello there "), Some(true)), FilterAdminOutcome::Delete(s("hello there")));
    assert_eq!(
        stop_command(&group_msg("/stop"), Some(true)),
        FilterAdminOutcome::Reply(Text::Key(s("filters.stop_usage"), vec![]), true)
    );
    assert_eq!(stopall_command(&group_msg("/stopall"), None), FilterAdminOutcome::Ask(Query::SenderIsOwner));
    assert_eq!(stopall_command(&group_msg("/stopall"), Some(true)), FilterAdminOutcome::DeleteAll);
    assert_eq!(
        stopall_command(&group_msg("/stopall"), Some(false)),
        FilterAdminOutcome::Reply(
            Text::Key(s("common.error_missing_permission"), vec![(s("{permission}"), Fragment::Plain(s("GroupOwner")))]),
            false
        )
    );
    assert_eq!(
        stopped_reply(true, "x&y"),
        Text::Key(s("filters.deleted"), vec![(s("{trigger}"), Fragment::Plain(s("x&amp;y")))])
    );
    assert_eq!(
        stopped_reply(false, "q"),
        Text::Key(s("filters.not_found"), vec![(s("{trigger}"), Fragment::Plain(s("q")))])
    );
    assert_eq!(
        stopped_all_reply(7),
        Text::Key(s("filters.deleted_all"), vec![(s("{count}"), Fragment::Plain(s("7")))])
    );
}

#[test]
fn media_choices() {
    let ps = vec![photo("a", 2, 2), photo("b", 1, 4), photo("c", 1, 1)];
    assert_eq!(largest_photo(&ps), Some(1));
    assert_eq!(largest_photo(&vec![]), None);
    let mut c = empty_content();
    c.text = Some(s("t"));
    c.caption = Some(s("c"));
    assert_eq!(text_or_caption_of(&c), Some(s("t")));
    c.document = Some(s("doc"));
    c.sticker = Some(s("st"));
    assert_eq!(extract_media(&c), (Some(s("doc")), Some(s("document"))));
    assert_eq!(extract_message_content(&c), (Some(s("t")), Some(s("st")), Some(s("sticker"))));
    c.photo = Some(ps.clone());
    assert_eq!(note_media_of(&c), (Some(s("c")), Some(s("photo"))));
    c.photo = Some(vec![]);
    assert_eq!(extract_media(&c), (None, Some(s("photo"))));
    assert_eq!(note_media_of(&c), (Some(s("doc")), Some(s("document"))));
}

#[test]
fn save_note_uses_lowercased_name() {
    let m = group_msg("/save rules Be nice {button:Site|https://s.t}");
    match save_command(&m) {
        NoteOutcome::Save(n, t) => {
            assert_eq!(n.name, "rules");
            assert_eq!(n.content, "Be nice ");
            assert_eq!(n.buttons.len(), 1);
            assert_eq!(n.file_id, None);
            assert_eq!(t, Text::Plain(s("✅ Note <code>rules</code> berhasil disimpan!")));
        }
        other => panic!("unexpected {:?}", other),
    }
    let m = group_msg("/save Rules Be nice");
    assert_eq!(save_command(&m), NoteOutcome::Reply(Text::Plain(s("❌ Konten tidak boleh kosong.")), false));
    let m = group_msg("/save onlyname");
    assert_eq!(
        save_command(&m),
        NoteOutcome::Reply(Text::Plain(s("❌ Format: <code>/save nama konten</code>")), true)
    );
    assert_eq!(save_command(&private_msg("/save a b")), NoteOutcome::Ignore);
}

#[test]
fn save_note_keeps_replied_media() {
    let mut c = empty_content();
    c.video = Some(s("vid"));
    let m = replying_to("/save clip watch this", c);
    match save_command(&m) {
        NoteOutcome::Save(n, _) => {
            assert_eq!(n.file_id, Some(s("vid")));
            assert_eq!(n.file_type, Some(s("video")));
            assert_eq!(n.content, "watch this");
        }
        other => panic!("unexpected {:?}", other),
    }
}

#[test]
fn list_get_clear_notes() {
    assert_eq!(list_notes(&vec![]), (Text::Plain(s("❌ Belum ada notes di grup ini.")), false));
    assert_eq!(
        list_notes(&vec![s("a"), s("b&c")]),
        (Text::Plain(s("<b>📝 Daftar Notes:</b>\n\n• <code>#a</code>\n• <code>#b&amp;c</code>")), true)
    );
    assert_eq!(notes_command(&group_msg("/notes")), NoteOutcome::LoadNames);
    assert_eq!(notes_command(&private_msg("/notes")), NoteOutcome::Ignore);
    assert_eq!(get_command(&group_msg("/get ##Rules")), NoteOutcome::Fetch(s("rules")));
    assert_eq!(get_command(&group_msg("/get")), NoteOutcome::Ignore);
    assert_eq!(get_note("#x"), NoteOutcome::Fetch(s("x")));
    assert_eq!(note_not_found("<x>"), Text::Plain(s("❌ Note <code>&lt;x&gt;</code> tidak ditemukan.")));
    assert_eq!(clear_command(&group_msg("/clear Old")), NoteOutcome::Delete(s("old")));
    assert_eq!(clear_command(&private_msg("/clear old")), NoteOutcome::Ignore);
    assert_eq!(
        cleared_reply(true, "old"),
        (Text::Plain(s("✅ Note <code>old</code> berhasil dihapus.")), true)
    );
    assert_eq!(cleared_reply(false, "old"), (Text::Plain(s("❌ Note tidak ditemukan.")), false));
    assert_eq!(
        clearall_command(&group_msg("/clearall")),
        NoteOutcome::Say(Text::Plain(s("❌ Fitur clearall belum diimplementasikan.")))
    );
    assert_eq!(
        privatenotes_command(&group_msg("/privatenotes")),
        NoteOutcome::Say(Text::Plain(s("❌ Fitur privatenotes belum diimplementasikan.")))
    );
}

#[test]
fn hashtag_notes() {
    assert!(is_note_hashtag(Some("#rules")));
    assert!(!is_note_hashtag(Some("##rules")));
    assert!(!is_note_hashtag(Some("rules")));
    assert!(!is_note_hashtag(None));
    assert_eq!(handle_hashtag_note(&group_msg("#Rules please")), NoteOutcome::Fetch(s("rules")));
    assert_eq!(handle_hashtag_note(&group_msg("# rules")), NoteOutcome::Fetch(s("rules")));
    assert_eq!(handle_hashtag_note(&group_msg("#")), NoteOutcome::Ignore);
    assert_eq!(handle_hashtag_note(&private_msg("#rules")), NoteOutcome::Ignore);
    assert_eq!(hashtag_note(""), NoteOutcome::Ignore);
    assert_eq!(hashtag_note("x"), NoteOutcome::Fetch(s("x")));
}

#[test]
fn note_response_fillings_media_and_buttons() {
    let note = Note {
        name: s("hi"),
        content: s("Hello {first}"),
        buttons: vec![vec![button("Bad", "not a url")], vec![button("Good", "https://example.com")]],
        file_id: None,
        file_type: None,
    };
    let m = group_msg("#hi");
    let r = send_note_response(&m, &note);
    assert_eq!(r.send, NoteSend::Message(s("Hello Ann")));
    assert_eq!(r.reply_to, 100);
    assert_eq!(
        r.keyboard,
        Some(Keyboard {
            rows: vec![vec![KeyboardButton {
                label: Text::Plain(s("Good")),
                action: ButtonAction::Url(s("https://example.com")),
            }]]
        })
    );
    let note = Note {
        name: s("p"),
        content: s(""),
        buttons: vec![vec![button("Bad", "nope")]],
        file_id: Some(s("f1")),
        file_type: Some(s("photo")),
    };
    let m = replying_to("#p", empty_content());
    let r = send_note_response(&m, &note);
    assert_eq!(r.send, NoteSend::Photo(s("f1"), None));
    assert_eq!(r.keyboard, None);
    assert_eq!(r.reply_to, 55);
    let note = Note { name: s("s"), content: s("x"), buttons: vec![], file_id: Some(s("f")), file_type: Some(s("sticker")) };
    assert_eq!(send_note_response(&m, &note).send, NoteSend::Nothing);
}

#[test]
fn url_keyboards_keep_parsable_urls() {
    let rows = vec![vec![button("A", "https://a.example"), button("B", "not a url")], vec![button("C", "::")]];
    let k = url_keyboard(&rows);
    assert_eq!(k.rows.len(), 2);
    assert_eq!(k.rows[0].len(), 1);
    assert_eq!(k.rows[0][0].action, ButtonAction::Url(s("https://a.example")));
    assert!(k.rows[1].is_empty());
    let k = compact_url_keyboard(&rows).unwrap();
    assert_eq!(k.rows.len(), 1);
    assert!(compact_url_keyboard(&vec![vec![button("B", "not a url")]]).is_none());
    let b = callback_button(Text::Plain(s("Back")), "help_back");
    assert_eq!(b.action, ButtonAction::Callback(s("help_back")));
    assert_eq!(single_button_keyboard(b.clone()), Keyboard { rows: vec![vec![b]] });
    let d = button("x", "y").duplicate();
    assert_eq!(d.text, "x");
    assert_eq!(d.url, "y");
}

#[test]
fn photo_sizes_checked_before_use() {
    let mut c = empty_content();
    assert!(photo_areas_checked(&c));
    c.photo = Some(vec![photo("a", 65536, 65535)]);
    assert!(photo_areas_checked(&c));
    c.photo = Some(vec![photo("a", 10, 10), photo("b", 65536, 65536)]);
    assert!(!photo_areas_checked(&c));
}
