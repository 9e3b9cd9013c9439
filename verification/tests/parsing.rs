use modbot::utils::note_parser;
use modbot::utils::parser;

#[test]
fn test_parse_buttons_new_syntax() {
    let input = "Hello {button:Click|https://example.com} world {button:More|url}:same";
    let (text, buttons) = note_parser::parse_buttons(input);

    assert_eq!(text.trim(), "Hello  world");
    assert_eq!(buttons.len(), 1);
    assert_eq!(buttons[0].len(), 2);
    assert_eq!(buttons[0][0].text, "Click");
    assert_eq!(buttons[0][1].text, "More");
}

#[test]
fn test_parse_buttons_multiple_rows() {
    let input = "{button:Row1|url1}\n{button:Row2|url2}";
    let (_, buttons) = note_parser::parse_buttons(input);

    assert_eq!(buttons.len(), 2);
    assert_eq!(buttons[0][0].text, "Row1");
    assert_eq!(buttons[1][0].text, "Row2");
}

#[test]
fn note_parser_test_parse_tags() {
    let input = "Hello {admin} world {protect}";
    let (text, tags) = note_parser::parse_tags(input);

    assert_eq!(text.trim(), "Hello  world");
    assert!(tags.admin_only);
    assert!(tags.protect);
    assert!(!tags.is_private);
}

#[test]
fn test_parse_buttons_colon_syntax() {
    let input = "{button:A|url1}:{button:B|url2}";
    let (_, buttons) = parser::parse_buttons(input);

    assert_eq!(buttons.len(), 1);
    assert_eq!(buttons[0].len(), 2);
}

#[test]
fn parser_test_parse_tags() {
    let input = "Hello {admin} {user} world";
    let (text, tags) = parser::parse_tags(input);

    assert!(tags.admin_only);
    assert!(tags.user_only);
    assert!(text.contains("Hello"));
}

#[test]
fn test_random_parts() {
    let input = "Part one\n%%%\nPart two\n%%%\nPart three";
    let parts = parser::parse_random_parts(input);

    assert_eq!(parts.len(), 3);
}

#[test]
fn test_parse_duration() {
    assert_eq!(parser::parse_duration("30m"), Some(std::time::Duration::from_secs(1800)));
    assert_eq!(parser::parse_duration("1h"), Some(std::time::Duration::from_secs(3600)));
    assert_eq!(parser::parse_duration("1d"), Some(std::time::Duration::from_secs(86400)));
    assert_eq!(parser::parse_duration("1w"), Some(std::time::Duration::from_secs(604800)));
    assert_eq!(parser::parse_duration("invalid"), None);
}
