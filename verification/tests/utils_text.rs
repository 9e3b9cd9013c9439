use modbot::markup::UserInfo;
use modbot::utils::buttons::try_parse_button;
use modbot::utils::note_parser;
use modbot::utils::parser;
use modbot::utils::reply::get_reply_target;
use modbot::utils::{escape_markdown, format_username};

fn user(id: u64, first: &str, last: Option<&str>, username: Option<&str>) -> UserInfo {
    UserInfo {
        id,
        first_name: first.to_string(),
        last_name: last.map(|s| s.to_string()),
        username: username.map(|s| s.to_string()),
    }
}

#[test]
fn format_username_prefers_handle() {
    assert_eq!(format_username(Some("alice"), "Alice"), "@alice");
    assert_eq!(format_username(None, "Alice"), "Alice");
}

#[test]
fn escape_markdown_escapes_each_special_char() {
    assert_eq!(escape_markdown("a_b*c"), "a\\_b\\*c");
    assert_eq!(escape_markdown("1.5!"), "1\\.5\\!");
    assert_eq!(escape_markdown("plain"), "plain");
    assert_eq!(escape_markdown(""), "");
}

#[test]
fn html_escape_replaces_amp_lt_gt() {
    assert_eq!(parser::html_escape("a < b & c > d"), "a &lt; b &amp; c &gt; d");
    assert_eq!(parser::html_escape("&lt;"), "&amp;lt;");
    assert_eq!(parser::html_escape("\"quoted\""), "\"quoted\"");
}

#[test]
fn law_html_escape_round_trip_example() {
    for text in ["a < b & c > d", "&lt;&amp;&gt;", "<<&&>>", "", "plain"] {
        let e = parser::html_escape(text);
        for (k, c) in e.char_indices() {
            if c == '&' {
                let rest = &e[k..];
                assert!(rest.starts_with("&amp;") || rest.starts_with("&lt;") || rest.starts_with("&gt;"));
            }
        }
        assert_eq!(e.replace("&lt;", "<").replace("&gt;", ">").replace("&amp;", "&"), text);
    }
}

#[test]
fn format_duration_full_each_range() {
    assert_eq!(parser::format_duration_full(0), "0 detik");
    assert_eq!(parser::format_duration_full(59), "59 detik");
    assert_eq!(parser::format_duration_full(60), "1 menit");
    assert_eq!(parser::format_duration_full(3599), "59 menit");
    assert_eq!(parser::format_duration_full(3600), "1 jam");
    assert_eq!(parser::format_duration_full(3660), "1 jam 1 menit");
    assert_eq!(parser::format_duration_full(86400), "1 hari");
    assert_eq!(parser::format_duration_full(90000), "1 hari 1 jam");
    assert_eq!(parser::format_duration_full(86400 + 59 * 60), "1 hari");
}

#[test]
fn format_duration_id_each_range() {
    assert_eq!(parser::_format_duration_id(5), "5 detik");
    assert_eq!(parser::_format_duration_id(125), "2 menit");
    assert_eq!(parser::_format_duration_id(7300), "2 jam");
    assert_eq!(parser::_format_duration_id(200000), "2 hari");
}

#[test]
fn parse_duration_edges() {
    assert_eq!(parser::parse_duration("  2h "), Some(std::time::Duration::from_secs(7200)));
    assert_eq!(parser::parse_duration("0m"), Some(std::time::Duration::from_secs(0)));
    assert_eq!(parser::parse_duration(""), None);
    assert_eq!(parser::parse_duration("   "), None);
    assert_eq!(parser::parse_duration("h"), None);
    assert_eq!(parser::parse_duration("10s"), None);
    assert_eq!(parser::parse_duration("-1h"), None);
    assert_eq!(parser::parse_duration("1x5m"), None);
}

#[test]
fn parse_duration_secs_reads_units() {
    let v: Vec<char> = "3w".chars().collect();
    assert_eq!(parser::parse_duration_secs(&v), Some(3 * 604800));
    let v: Vec<char> = "45d".chars().collect();
    assert_eq!(parser::parse_duration_secs(&v), Some(45 * 86400));
}

#[test]
fn parse_tags_content_all_tags() {
    let (text, tags) = parser::parse_tags(
        "x{admin}{user}{private}{noprivate}{protect}{preview}{nonotif}{mediaspoiler}{replytag}y",
    );
    assert_eq!(text, "xy");
    assert!(tags.admin_only && tags.user_only && tags.is_private && tags.no_private);
    assert!(tags.protect && tags.preview && tags.no_notif && tags.media_spoiler && tags.replytag);
    let (text, tags) = parser::parse_tags("nothing here");
    assert_eq!(text, "nothing here");
    assert!(!tags.admin_only && !tags.replytag);
}

#[test]
fn parse_tags_note_leaves_unknown_tags() {
    let (text, tags) = note_parser::parse_tags("a {user} {replytag} {nonotif}");
    assert_eq!(text, "a {user} {replytag} ");
    assert!(tags.no_notif);
    assert!(!tags.admin_only);
}

#[test]
fn parse_buttons_rows_and_text() {
    let (text, rows) = parser::parse_buttons("Hi {button:A|u1}\n{button:B|u2}:{button:C|u3} end");
    assert_eq!(text, "Hi \n end");
    assert_eq!(rows.len(), 2);
    assert_eq!(rows[0].len(), 1);
    assert_eq!(rows[0][0].text, "A");
    assert_eq!(rows[0][0].url, "u1");
    assert_eq!(rows[1].len(), 2);
    assert_eq!(rows[1][1].text, "C");
    assert_eq!(rows[1][1].url, "u3");
}

#[test]
fn parse_buttons_rejects_malformed() {
    let (text, rows) = parser::parse_buttons("{button:|url} {button:A|} {button:B url}");
    assert_eq!(text, "{button:|url} {button:A|} {button:B url}");
    assert!(rows.is_empty());
    let (_, rows) = parser::parse_buttons("{BUTTON: Label | https://x.y }");
    assert_eq!(rows.len(), 1);
    assert_eq!(rows[0][0].text, "Label");
    assert_eq!(rows[0][0].url, "https://x.y");
}

#[test]
fn parse_buttons_same_suffix_only_in_notes() {
    let input = "{button:A|u1}\n{button:B|u2}:same";
    let (text, rows) = note_parser::parse_buttons(input);
    assert_eq!(text, "\n");
    assert_eq!(rows.len(), 1);
    assert_eq!(rows[0].len(), 2);
    let (text, rows) = parser::parse_buttons(input);
    assert_eq!(rows.len(), 2);
    assert_eq!(rows[1][0].text, "B");
    assert_eq!(text, "\nsame");
}

#[test]
fn try_parse_button_reports_end() {
    let v: Vec<char> = "xx{button:Go|https://a.b}yy".chars().collect();
    let (b, end) = try_parse_button(&v, 2).unwrap();
    assert_eq!(b.text, "Go");
    assert_eq!(b.url, "https://a.b");
    assert_eq!(end, 25);
    assert!(try_parse_button(&v, 0).is_none());
}

#[test]
fn parse_random_parts_trims_and_drops_empty() {
    let parts = parser::parse_random_parts("  a %%%%%% b  %%%");
    assert_eq!(parts, vec!["a".to_string(), "b".to_string()]);
    assert!(parser::parse_random_parts("").is_empty());
    assert_eq!(parser::parse_random_parts("single"), vec!["single".to_string()]);
}

#[test]
fn parse_content_full() {
    let c = parser::parse_content(" Hello {admin} {button:A|u} ");
    assert_eq!(c.text, "Hello");
    assert!(c.tags.admin_only);
    assert_eq!(c.buttons.len(), 1);
    assert!(c.random_parts.is_empty());
    let c = parser::parse_content("one %%% two");
    assert_eq!(c.random_parts, vec!["one".to_string(), "two".to_string()]);
    assert_eq!(c.text, "one %%% two");
}

#[test]
fn random_text_picks_by_nanos() {
    let c = parser::parse_content("one %%% two %%% three");
    assert_eq!(c.random_text_at(0), "one");
    assert_eq!(c.random_text_at(4), "two");
    assert_eq!(c.random_text_at(5), "three");
    let r = c._get_random_text();
    assert!(r == "one" || r == "two" || r == "three");
    let c = parser::parse_content("only text");
    assert_eq!(c.random_text_at(7), "only text");
    assert_eq!(c._get_random_text(), "only text");
}

#[test]
fn parse_note_content_full() {
    let n = note_parser::parse_note_content("  Rules here {protect}\n{button:Site|https://s.t}  ");
    assert_eq!(n.text, "Rules here");
    assert!(n.tags.protect);
    assert_eq!(n.buttons.len(), 1);
    assert_eq!(n.buttons[0][0].url, "https://s.t");
}

#[test]
fn note_fillings_replace_placeholders() {
    let u = user(42, "A<b", Some("Last"), None);
    let out = note_parser::apply_fillings(
        "{first}|{last}|{fullname}|{username}|{mention}|{id}|{chatname}",
        &u,
        "G&G",
        "bot",
    );
    assert_eq!(
        out,
        "A&lt;b|Last|A&lt;b Last|<a href=\"tg://user?id=42\">A&lt;b</a>|<a href=\"tg://user?id=42\">A&lt;b</a>|42|G&amp;G"
    );
    let u = user(7, "Bo", None, Some("bo"));
    assert_eq!(note_parser::apply_fillings("{username} {fullname}", &u, "c", "bot"), "@bo Bo");
}

#[test]
fn content_fillings_replace_placeholders() {
    let u = user(9, "Ann", None, Some("ann"));
    let out = parser::apply_fillings(
        "{firstname} {lastname}. {group} has {count}",
        &u,
        "Club",
        Some(12),
    );
    assert_eq!(out, "Ann . Club has 12");
    assert_eq!(parser::apply_fillings("{count}", &u, "Club", None), "");
}

#[test]
fn rules_filling_buttons() {
    let (text, buttons) = note_parser::apply_rules_filling("Read {rules:same} and {rules}", -100, "mybot");
    assert_eq!(text, "Read  and ");
    assert_eq!(buttons.len(), 2);
    assert_eq!(buttons[0].0.text, "📜 Peraturan");
    assert_eq!(buttons[0].0.url, "https://t.me/mybot?start=rules_-100");
    assert!(buttons[0].1);
    assert!(!buttons[1].1);
    let (text, buttons) = parser::_apply_rules_filling("no rules", 5, "b");
    assert_eq!(text, "no rules");
    assert!(buttons.is_empty());
}

#[test]
fn reply_target_for_notes_and_commands() {
    assert_eq!(get_reply_target(10, Some(5), true), 5);
    assert_eq!(get_reply_target(10, Some(5), false), 10);
    assert_eq!(get_reply_target(10, None, true), 10);
}

#[test]
fn duration_input_checked_bounds() {
    let c = |x: &str| parser::duration_input_checked(&x.chars().collect());
    assert!(c("30m"));
    assert!(c(""));
    assert!(c("abc"));
    assert!(!c("5é"));
    assert!(c("18446744073709551615x"));
    assert!(c("30500568904943m"));
    assert!(!c("307445734561825861m"));
    assert!(c("307445734561825860m"));
}
