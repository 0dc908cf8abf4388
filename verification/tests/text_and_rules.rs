use ws_chat::protocol::{error_message, ErrorCode, ServerMessage};
use ws_chat::text::{
    char_count, chars_of, has_control_characters, is_single_char, join_strings, len_utf8,
    push_decimal, repeat_char, string_from_chars, trim_str, utf8_len_exceeds,
};
use ws_chat::validation::{check_chat_message, check_room_name, check_username};

#[test]
fn control_characters_are_found() {
    assert!(!has_control_characters("hello world"));
    assert!(has_control_characters("bad\tname"));
    assert!(has_control_characters("line\nbreak"));
    assert!(has_control_characters("c1\u{85}code"));
    assert!(has_control_characters("\u{7f}"));
    assert!(!has_control_characters("\u{a0}nbsp is not a control"));
    assert!(!has_control_characters(""));
}

#[test]
fn trimming_removes_unicode_whitespace() {
    assert_eq!(trim_str("  alice \t"), "alice");
    assert_eq!(trim_str("\u{3000}bob\u{2003}"), "bob");
    assert_eq!(trim_str("   "), "");
    assert_eq!(trim_str("a b"), "a b");
    assert_eq!(trim_str(""), "");
}

#[test]
fn trimming_twice_is_trimming_once() {
    for s in ["  x  ", "\n\ty z\r\n", "", "   ", "abc"] {
        let once = trim_str(s);
        assert_eq!(trim_str(&once), once);
    }
}

#[test]
fn decimal_rendering() {
    let mut s = String::from("n=");
    push_decimal(&mut s, 0);
    assert_eq!(s, "n=0");
    let mut s = String::new();
    push_decimal(&mut s, 1234567890);
    assert_eq!(s, "1234567890");
    let mut s = String::new();
    push_decimal(&mut s, u64::MAX);
    assert_eq!(s, u64::MAX.to_string());
}

#[test]
fn joining_strings() {
    let rooms = vec!["lobby".to_string(), "rust".to_string(), "off topic".to_string()];
    assert_eq!(join_strings(&rooms, ", "), "lobby, rust, off topic");
    assert_eq!(join_strings(&vec!["one".to_string()], ", "), "one");
    assert_eq!(join_strings(&Vec::new(), ", "), "");
}

#[test]
fn utf8_lengths() {
    assert_eq!(len_utf8('a'), 1);
    assert_eq!(len_utf8('é'), 2);
    assert_eq!(len_utf8('€'), 3);
    assert_eq!(len_utf8('😀'), 4);
    assert!(!utf8_len_exceeds("abc", 3));
    assert!(utf8_len_exceeds("abcd", 3));
    assert!(utf8_len_exceeds("éé", 3));
    assert!(!utf8_len_exceeds("", 0));
}

#[test]
fn string_building_helpers() {
    assert_eq!(repeat_char('\n', 3), "\n\n\n");
    assert_eq!(repeat_char('x', 0), "");
    let chars = chars_of("héllo");
    assert_eq!(chars, vec!['h', 'é', 'l', 'l', 'o']);
    assert_eq!(string_from_chars(&chars, 1, 4), "éll");
    assert!(is_single_char("y", 'y'));
    assert!(!is_single_char("yy", 'y'));
    assert!(!is_single_char("", 'y'));
    assert_eq!(char_count("héllo"), 5);
}

#[test]
fn username_rules() {
    assert_eq!(check_username("  alice "), Ok("alice".to_string()));
    assert_eq!(check_username("   "), Err(ErrorCode::EmptyUsername));
    assert_eq!(check_username(""), Err(ErrorCode::EmptyUsername));
    let long = "x".repeat(65);
    assert_eq!(check_username(&long), Err(ErrorCode::UsernameTooLong));
    let limit = "é".repeat(64);
    assert_eq!(check_username(&limit), Ok(limit.clone()));
    assert_eq!(check_username("bad\u{1b}name"), Err(ErrorCode::InvalidMessage));
}

#[test]
fn room_name_rules() {
    assert_eq!(check_room_name(" Lobby "), Ok("Lobby".to_string()));
    assert_eq!(check_room_name("\t"), Err(ErrorCode::EmptyRoom));
    assert_eq!(check_room_name(&"r".repeat(65)), Err(ErrorCode::RoomNameTooLong));
    assert_eq!(check_room_name(&"r".repeat(64)), Ok("r".repeat(64)));
    assert_eq!(check_room_name("a\u{0}b"), Err(ErrorCode::InvalidMessage));
}

#[test]
fn chat_message_rules() {
    assert_eq!(check_chat_message(" hi there "), Ok("hi there".to_string()));
    assert_eq!(check_chat_message("  "), Err(ErrorCode::EmptyChatMessage));
    assert_eq!(check_chat_message(&"m".repeat(4096)), Ok("m".repeat(4096)));
    assert_eq!(check_chat_message(&"m".repeat(4097)), Err(ErrorCode::MessageTooLarge));
    // 2049 two-byte characters are 4098 bytes but fewer than 4096 characters.
    assert_eq!(check_chat_message(&"é".repeat(2049)), Err(ErrorCode::MessageTooLarge));
    assert_eq!(check_chat_message("tab\there"), Err(ErrorCode::InvalidMessage));
    // Surrounding whitespace does not count towards the limit.
    let padded = format!("   {}   ", "m".repeat(4096));
    assert_eq!(check_chat_message(&padded), Ok("m".repeat(4096)));
}

#[test]
fn checked_text_passes_again() {
    for raw in ["  bob ", "Lobby", " hello\u{3000}"] {
        let name = check_username(raw).unwrap();
        assert_eq!(check_username(&name), Ok(name.clone()));
        let room = check_room_name(raw).unwrap();
        assert_eq!(check_room_name(&room), Ok(room.clone()));
        let text = check_chat_message(raw).unwrap();
        assert_eq!(check_chat_message(&text), Ok(text.clone()));
    }
}

#[test]
fn error_replies() {
    assert_eq!(
        error_message(ErrorCode::EmptyRoom, "room name cannot be empty"),
        ServerMessage::Error {
            code: ErrorCode::EmptyRoom,
            message: "room name cannot be empty".to_string()
        }
    );
}
