use ws_chat::text::{has_control_characters, trim_str};
use ws_chat::ui::trailing_input;

fn listed_whitespace(c: char) -> bool {
    let v = c as u32;
    (0x09..=0x0D).contains(&v)
        || v == 0x20
        || v == 0x85
        || v == 0xA0
        || v == 0x1680
        || (0x2000..=0x200A).contains(&v)
        || v == 0x2028
        || v == 0x2029
        || v == 0x202F
        || v == 0x205F
        || v == 0x3000
}

fn listed_control(c: char) -> bool {
    let v = c as u32;
    v <= 0x1F || (0x7F..=0x9F).contains(&v)
}

#[test]
fn whitespace_is_the_listed_set() {
    for c in (0..=0x10FFFFu32).filter_map(char::from_u32) {
        let padded = format!("{c}x{c}");
        let expected = if listed_whitespace(c) { "x".to_string() } else { padded.clone() };
        assert_eq!(trim_str(&padded), expected, "U+{:04X}", c as u32);
    }
}

#[test]
fn control_characters_are_the_listed_set() {
    for c in (0..=0x10FFFFu32).filter_map(char::from_u32) {
        let mut buf = [0u8; 4];
        assert_eq!(
            has_control_characters(c.encode_utf8(&mut buf)),
            listed_control(c),
            "U+{:04X}",
            c as u32
        );
    }
}

#[test]
fn control_characters_take_no_columns() {
    for c in (0..=0x10FFFFu32).filter_map(char::from_u32) {
        if listed_control(c) {
            let text = format!("{c}");
            // A control character takes no column, so it always fits.
            assert_eq!(trailing_input(&text, 0), text, "U+{:04X}", c as u32);
        }
    }
    assert_eq!(trailing_input("abc", 2), "bc");
}
