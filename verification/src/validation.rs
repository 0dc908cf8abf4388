//! The rules that usernames, room names and chat messages must meet. The server
//! enforces them, and the client checks the same rules before it sends.
use vstd::prelude::*;

use crate::protocol::{ErrorCode, MAX_CHAT_MESSAGE_LEN, MAX_ROOM_NAME_LEN, MAX_USERNAME_LEN};
use crate::text::{
    char_count, has_control, has_control_characters, is_whitespace_char, lemma_trim_edges,
    lemma_trim_idempotent, trim, trim_str, utf8_len, utf8_len_exceeds,
};

verus! {

/// The verdict on a proposed username: the trimmed name, or why it is refused.
pub open spec fn username_verdict(raw: Seq<char>) -> Result<Seq<char>, ErrorCode> {
    let name = trim(raw);
    if name.len() == 0 {
        Err(ErrorCode::EmptyUsername)
    } else if name.len() > MAX_USERNAME_LEN {
        Err(ErrorCode::UsernameTooLong)
    } else if has_control(name) {
        Err(ErrorCode::InvalidMessage)
    } else {
        Ok(name)
    }
}

/// The verdict on a proposed room name: the trimmed name, or why it is refused.
pub open spec fn room_name_verdict(raw: Seq<char>) -> Result<Seq<char>, ErrorCode> {
    let name = trim(raw);
    if name.len() == 0 {
        Err(ErrorCode::EmptyRoom)
    } else if name.len() > MAX_ROOM_NAME_LEN {
        Err(ErrorCode::RoomNameTooLong)
    } else if has_control(name) {
        Err(ErrorCode::InvalidMessage)
    } else {
        Ok(name)
    }
}

/// The verdict on a chat message: the trimmed text, or why it is refused.
pub open spec fn chat_message_verdict(raw: Seq<char>) -> Result<Seq<char>, ErrorCode> {
    let text = trim(raw);
    if utf8_len(text) > MAX_CHAT_MESSAGE_LEN {
        Err(ErrorCode::MessageTooLarge)
    } else if text.len() == 0 {
        Err(ErrorCode::EmptyChatMessage)
    } else if has_control(text) {
        Err(ErrorCode::InvalidMessage)
    } else {
        Ok(text)
    }
}

/// A result with its string taken as a character sequence.
pub open spec fn verdict_view(r: Result<String, ErrorCode>) -> Result<Seq<char>, ErrorCode> {
    match r {
        Ok(s) => Ok(s@),
        Err(e) => Err(e),
    }
}

/// Checks a proposed username.
pub fn check_username(raw: &str) -> (r: Result<String, ErrorCode>)
    ensures
        verdict_view(r) == username_verdict(raw@),
{
    let name = trim_str(raw);
    if char_count(name.as_str()) == 0 {
        Err(ErrorCode::EmptyUsername)
    } else if char_count(name.as_str()) > MAX_USERNAME_LEN {
        Err(ErrorCode::UsernameTooLong)
    } else if has_control_characters(name.as_str()) {
        Err(ErrorCode::InvalidMessage)
    } else {
        Ok(name)
    }
}

/// Checks a proposed room name.
pub fn check_room_name(raw: &str) -> (r: Result<String, ErrorCode>)
    ensures
        verdict_view(r) == room_name_verdict(raw@),
{
    let name = trim_str(raw);
    if char_count(name.as_str()) == 0 {
        Err(ErrorCode::EmptyRoom)
    } else if char_count(name.as_str()) > MAX_ROOM_NAME_LEN {
        Err(ErrorCode::RoomNameTooLong)
    } else if has_control_characters(name.as_str()) {
        Err(ErrorCode::InvalidMessage)
    } else {
        Ok(name)
    }
}

/// Checks a chat message.
pub fn check_chat_message(raw: &str) -> (r: Result<String, ErrorCode>)
    ensures
        verdict_view(r) == chat_message_verdict(raw@),
{
    let text = trim_str(raw);
    if utf8_len_exceeds(text.as_str(), MAX_CHAT_MESSAGE_LEN) {
        Err(ErrorCode::MessageTooLarge)
    } else if char_count(text.as_str()) == 0 {
        Err(ErrorCode::EmptyChatMessage)
    } else if has_control_characters(text.as_str()) {
        Err(ErrorCode::InvalidMessage)
    } else {
        Ok(text)
    }
}

/// A username that passed the check passes it again unchanged: what a client sends
/// after checking a name, the server accepts as that same name.
pub proof fn law_username_check_is_stable(raw: Seq<char>)
    requires
        username_verdict(raw) is Ok,
    ensures
        username_verdict(username_verdict(raw)->Ok_0) == username_verdict(raw),
{
    lemma_trim_idempotent(raw);
}

/// A room name that passed the check passes it again unchanged.
pub proof fn law_room_name_check_is_stable(raw: Seq<char>)
    requires
        room_name_verdict(raw) is Ok,
    ensures
        room_name_verdict(room_name_verdict(raw)->Ok_0) == room_name_verdict(raw),
{
    lemma_trim_idempotent(raw);
}

/// A chat message that passed the check passes it again unchanged.
pub proof fn law_chat_message_check_is_stable(raw: Seq<char>)
    requires
        chat_message_verdict(raw) is Ok,
    ensures
        chat_message_verdict(chat_message_verdict(raw)->Ok_0) == chat_message_verdict(raw),
{
    lemma_trim_idempotent(raw);
}

/// What a check accepts has no whitespace at either end and no control character,
/// and fits its limit.
pub proof fn law_accepted_text_is_clean(raw: Seq<char>)
    ensures
        username_verdict(raw) matches Ok(n) ==> n.len() > 0 && n.len() <= MAX_USERNAME_LEN
            && !has_control(n) && !is_whitespace_char(n[0]) && !is_whitespace_char(n.last()),
        room_name_verdict(raw) matches Ok(n) ==> n.len() > 0 && n.len() <= MAX_ROOM_NAME_LEN
            && !has_control(n) && !is_whitespace_char(n[0]) && !is_whitespace_char(n.last()),
        chat_message_verdict(raw) matches Ok(m) ==> m.len() > 0 && utf8_len(m)
            <= MAX_CHAT_MESSAGE_LEN && !has_control(m) && !is_whitespace_char(m[0])
            && !is_whitespace_char(m.last()),
{
    lemma_trim_edges(raw);
}

/// Whether no character of `s` is a C0 or C1 control code (U+0000 to U+001F, U+007F to
/// U+009F), by code point.
pub open spec fn free_of_control_codes(s: Seq<char>) -> bool {
    forall|i: int| 0 <= i < s.len() ==> 0x20 <= (#[trigger] s[i] as u32) && !(0x7F <= (s[i] as u32)
        && (s[i] as u32) <= 0x9F)
}

proof fn lemma_control_codes(s: Seq<char>)
    ensures
        free_of_control_codes(s) <==> !has_control(s),
{
    if !has_control(s) {
        assert forall|i: int| 0 <= i < s.len() implies 0x20 <= (#[trigger] s[i] as u32) && !(0x7F
            <= (s[i] as u32) && (s[i] as u32) <= 0x9F) by {
            assert(!crate::text::is_control_char(s[i]));
        }
    }
    if free_of_control_codes(s) {
        assert forall|i: int| 0 <= i < s.len() implies !crate::text::is_control_char(
            #[trigger] s[i],
        ) by {
            assert(0x20 <= (s[i] as u32));
        }
    }
}

/// A room name is accepted exactly when, once trimmed, it is not empty, has at most the
/// room name limit of characters and holds no control code; it is then accepted as the
/// trimmed name, spaces and any other characters inside it included. An empty name is
/// refused as empty, a longer one as too long, and one with a control code as invalid.
pub proof fn law_room_names_accepted(raw: Seq<char>)
    ensures
        room_name_verdict(raw) is Ok <==> (0 < trim(raw).len() <= MAX_ROOM_NAME_LEN
            && free_of_control_codes(trim(raw))),
        room_name_verdict(raw) is Ok ==> room_name_verdict(raw) == Ok::<Seq<char>, ErrorCode>(
            trim(raw),
        ),
        trim(raw).len() == 0 ==> room_name_verdict(raw) == Err::<Seq<char>, ErrorCode>(
            ErrorCode::EmptyRoom,
        ),
        trim(raw).len() > MAX_ROOM_NAME_LEN ==> room_name_verdict(raw) == Err::<
            Seq<char>,
            ErrorCode,
        >(ErrorCode::RoomNameTooLong),
        0 < trim(raw).len() <= MAX_ROOM_NAME_LEN && !free_of_control_codes(trim(raw))
            ==> room_name_verdict(raw) == Err::<Seq<char>, ErrorCode>(ErrorCode::InvalidMessage),
{
    lemma_control_codes(trim(raw));
}

/// A username is accepted exactly when, once trimmed, it is not empty, has at most the
/// username limit of characters and holds no control code; it is then accepted as the
/// trimmed name. An empty name is refused as empty, a longer one as too long, and one
/// with a control code as invalid.
pub proof fn law_usernames_accepted(raw: Seq<char>)
    ensures
        username_verdict(raw) is Ok <==> (0 < trim(raw).len() <= MAX_USERNAME_LEN
            && free_of_control_codes(trim(raw))),
        username_verdict(raw) is Ok ==> username_verdict(raw) == Ok::<Seq<char>, ErrorCode>(
            trim(raw),
        ),
        trim(raw).len() == 0 ==> username_verdict(raw) == Err::<Seq<char>, ErrorCode>(
            ErrorCode::EmptyUsername,
        ),
        trim(raw).len() > MAX_USERNAME_LEN ==> username_verdict(raw) == Err::<
            Seq<char>,
            ErrorCode,
        >(ErrorCode::UsernameTooLong),
        0 < trim(raw).len() <= MAX_USERNAME_LEN && !free_of_control_codes(trim(raw))
            ==> username_verdict(raw) == Err::<Seq<char>, ErrorCode>(ErrorCode::InvalidMessage),
{
    lemma_control_codes(trim(raw));
}

/// A chat message is accepted exactly when, once trimmed, it is not empty, fits the
/// message limit in UTF-8 bytes and holds no control code; it is then accepted as the
/// trimmed text. A message over the limit is refused as too large, an empty one as
/// empty, and one with a control code as invalid.
pub proof fn law_chat_messages_accepted(raw: Seq<char>)
    ensures
        chat_message_verdict(raw) is Ok <==> (0 < trim(raw).len() && utf8_len(trim(raw))
            <= MAX_CHAT_MESSAGE_LEN && free_of_control_codes(trim(raw))),
        chat_message_verdict(raw) is Ok ==> chat_message_verdict(raw) == Ok::<
            Seq<char>,
            ErrorCode,
        >(trim(raw)),
        utf8_len(trim(raw)) > MAX_CHAT_MESSAGE_LEN ==> chat_message_verdict(raw) == Err::<
            Seq<char>,
            ErrorCode,
        >(ErrorCode::MessageTooLarge),
        trim(raw).len() == 0 ==> chat_message_verdict(raw) == Err::<Seq<char>, ErrorCode>(
            ErrorCode::EmptyChatMessage,
        ),
        0 < trim(raw).len() && utf8_len(trim(raw)) <= MAX_CHAT_MESSAGE_LEN
            && !free_of_control_codes(trim(raw)) ==> chat_message_verdict(raw) == Err::<
            Seq<char>,
            ErrorCode,
        >(ErrorCode::InvalidMessage),
{
    lemma_control_codes(trim(raw));
}

} // verus!
