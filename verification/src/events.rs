//! What the client does with a key press: editing the input line, scrolling, cycling
//! the theme, quitting, and on Enter checking the input and turning it into the
//! message that the current stage calls for.
use vstd::prelude::*;

use crate::app::{mark_disconnected, pushed_log, same_cache, same_view_state, App, ChatEvent, ChatEventView, ClientStage, StageView};
use crate::protocol::{ClientMessage, ClientMessageView, ErrorCode};
use crate::text::{
    char_utf8_len, is_single_char, lowercase, pop_char, push_char, len_utf8, to_lowercase, trim,
    trim_str, utf8_len, utf8_len_exceeds,
};
use crate::theme::{next_theme, theme_label};
use crate::validation::{
    chat_message_verdict, check_chat_message, check_room_name, check_username,
    room_name_verdict, username_verdict,
};

verus! {

/// The most bytes the input line holds.
pub const MAX_INPUT_LEN: usize = 4096;

/// A key, as the client tells keys apart.
#[derive(Debug, Clone, Copy, PartialEq, Eq, Structural)]
pub enum Key {
    Char(char),
    Enter,
    Backspace,
    Up,
    Down,
    Esc,
    Other,
}

/// A key event: the key, whether it was pressed (rather than released or repeated),
/// and whether Control or Alt was held.
#[derive(Debug, Clone, Copy, PartialEq, Eq, Structural)]
pub struct KeyPress {
    pub code: Key,
    pub pressed: bool,
    pub control: bool,
    pub alt: bool,
}

/// What a key press means for the connection.
#[derive(Debug, Clone, Copy, PartialEq, Eq, Structural)]
pub enum KeyOutcome {
    Quit,
    Disconnected,
    Continue,
}

/// What handling a key leaves to do: nothing more, or sending a message to the server
/// and then reporting whether that worked with `complete_send`. `input` is the input
/// line as it was when Enter was pressed.
#[derive(Debug, Clone, PartialEq, Eq)]
pub enum KeyStep {
    Finished(KeyOutcome),
    Send { message: ClientMessage, input: String },
}

/// The views of the input and log that a local key leaves: the input line and the
/// log after the key.
pub open spec fn local_key_input(input: Seq<char>, key: KeyPress) -> Seq<char> {
    if !key.pressed {
        input
    } else {
        match key.code {
            Key::Char(c) => if c == 't' && key.control {
                input
            } else if !key.control && !key.alt && utf8_len(input) + char_utf8_len(c)
                <= MAX_INPUT_LEN {
                input.push(c)
            } else {
                input
            },
            Key::Backspace => if input.len() > 0 {
                input.drop_last()
            } else {
                input
            },
            _ => input,
        }
    }
}

/// Whether a key switches the theme.
pub open spec fn is_theme_key(key: KeyPress) -> bool {
    key.pressed && key.code == Key::Char('t') && key.control
}

/// The scroll position after a key, from `scroll` with the top at `max`.
pub open spec fn scroll_after_key(scroll: usize, max: usize, key: KeyPress) -> usize {
    if !key.pressed {
        scroll
    } else {
        match key.code {
            Key::Up => if scroll + 1 <= max {
                (scroll + 1) as usize
            } else {
                max
            },
            Key::Down => if scroll > 0 {
                (scroll - 1) as usize
            } else {
                0
            },
            _ => scroll,
        }
    }
}

/// Handles a key that does not need the server: typing, deleting, scrolling, the
/// theme, and Esc to quit.
pub fn handle_local_key(app: &mut App, key: KeyPress) -> (r: KeyOutcome)
    requires
        is_theme_key(key) ==> old(app).can_push(),
    ensures
        r == (if key.pressed && key.code == Key::Esc {
            KeyOutcome::Quit
        } else {
            KeyOutcome::Continue
        }),
        final(app).input@ == local_key_input(old(app).input@, key),
        final(app).message_scroll == scroll_after_key(
            old(app).message_scroll,
            old(app).max_message_scroll,
            key,
        ),
        final(app).max_message_scroll == old(app).max_message_scroll,
        final(app).stage == old(app).stage,
        final(app).connected == old(app).connected,
        is_theme_key(key) ==> final(app).theme == next_theme(old(app).theme),
        is_theme_key(key) ==> final(app).total_messages_pushed == old(app).total_messages_pushed
            + 1 && final(app).log() == pushed_log(
            old(app).log(),
            ChatEventView::System("Theme switched to "@ + theme_label(next_theme(old(app).theme))),
        ),
        !is_theme_key(key) ==> final(app).theme == old(app).theme && final(app).log() == old(app).log() && final(app).total_messages_pushed == old(app).total_messages_pushed,
        same_cache(old(app), final(app)),
{
    if !key.pressed {
        return KeyOutcome::Continue;
    }
    match key.code {
        Key::Char(c) => {
            if c == 't' && key.control {
                app.cycle_theme();
            } else if !key.control && !key.alt {
                let w = len_utf8(c);
                if !utf8_len_exceeds(app.input.as_str(), MAX_INPUT_LEN - w) {
                    push_char(&mut app.input, c);
                }
            }
        },
        Key::Backspace => {
            pop_char(&mut app.input);
        },
        Key::Up => app.scroll_messages_up(),
        Key::Down => app.scroll_messages_down(),
        Key::Esc => return KeyOutcome::Quit,
        _ => {},
    }
    KeyOutcome::Continue
}

/// Handles a key while the client waits to reconnect: only Esc and scrolling count.
pub fn handle_retry_wait_key(app: &mut App, key: KeyPress) -> (r: KeyOutcome)
    ensures
        r == (if key.pressed && key.code == Key::Esc {
            KeyOutcome::Quit
        } else {
            KeyOutcome::Continue
        }),
        final(app).message_scroll == scroll_after_key(
            old(app).message_scroll,
            old(app).max_message_scroll,
            key,
        ),
        final(app).max_message_scroll == old(app).max_message_scroll,
        final(app).input == old(app).input,
        final(app).messages == old(app).messages,
        final(app).stage == old(app).stage,
        final(app).connected == old(app).connected,
        final(app).theme == old(app).theme,
        final(app).total_messages_pushed == old(app).total_messages_pushed,
        same_cache(old(app), final(app)),
{
    if !key.pressed {
        return KeyOutcome::Continue;
    }
    match key.code {
        Key::Esc => KeyOutcome::Quit,
        Key::Up => {
            app.scroll_messages_up();
            KeyOutcome::Continue
        },
        Key::Down => {
            app.scroll_messages_down();
            KeyOutcome::Continue
        },
        _ => KeyOutcome::Continue,
    }
}

/// The local complaint about a username that the server would refuse.
pub open spec fn username_complaint(code: ErrorCode) -> Seq<char> {
    match code {
        ErrorCode::EmptyUsername => "Username cannot be empty."@,
        ErrorCode::UsernameTooLong => "Username is too long."@,
        _ => "Username cannot contain control characters."@,
    }
}

/// The local complaint about a room name that the server would refuse.
pub open spec fn room_complaint(code: ErrorCode) -> Seq<char> {
    match code {
        ErrorCode::EmptyRoom => "Room name cannot be empty."@,
        ErrorCode::RoomNameTooLong => "Room name is too long."@,
        _ => "Room name cannot contain control characters."@,
    }
}

/// The local complaint about a chat message that the server would refuse.
pub open spec fn message_complaint(code: ErrorCode) -> Seq<char> {
    match code {
        ErrorCode::EmptyChatMessage => "Message cannot be empty."@,
        ErrorCode::MessageTooLarge => "Message is too large."@,
        _ => "Message cannot contain control characters."@,
    }
}

fn username_complaint_text(code: ErrorCode) -> (r: &'static str)
    ensures
        r@ == username_complaint(code),
{
    match code {
        ErrorCode::EmptyUsername => "Username cannot be empty.",
        ErrorCode::UsernameTooLong => "Username is too long.",
        _ => "Username cannot contain control characters.",
    }
}

fn room_complaint_text(code: ErrorCode) -> (r: &'static str)
    ensures
        r@ == room_complaint(code),
{
    match code {
        ErrorCode::EmptyRoom => "Room name cannot be empty.",
        ErrorCode::RoomNameTooLong => "Room name is too long.",
        _ => "Room name cannot contain control characters.",
    }
}

fn message_complaint_text(code: ErrorCode) -> (r: &'static str)
    ensures
        r@ == message_complaint(code),
{
    match code {
        ErrorCode::EmptyChatMessage => "Message cannot be empty.",
        ErrorCode::MessageTooLarge => "Message is too large.",
        _ => "Message cannot contain control characters.",
    }
}

/// The answer to the username confirmation, from the trimmed and lower-cased input:
/// `y` accepts, `n` refuses, anything else is no answer.
pub open spec fn answer_of(lowered: Seq<char>) -> Option<bool> {
    if lowered == seq!['y'] {
        Some(true)
    } else if lowered == seq!['n'] {
        Some(false)
    } else {
        None
    }
}

/// The answer to the username confirmation, from the trimmed and lower-cased input.
pub fn confirmation_answer(lowered: &str) -> (r: Option<bool>)
    ensures
        r == answer_of(lowered@),
{
    if is_single_char(lowered, 'y') {
        Some(true)
    } else if is_single_char(lowered, 'n') {
        Some(false)
    } else {
        None
    }
}

/// What pressing Enter with `input` calls for in a stage: a message to send, or the
/// log entry that answers it locally, or nothing.
pub enum EnterPlan {
    Send(ClientMessageView),
    Note(ChatEventView),
    Nothing,
}

/// The plan for Enter with `input` in `stage`.
pub open spec fn enter_plan(stage: StageView, input: Seq<char>) -> EnterPlan {
    match stage {
        StageView::SetUsername => match username_verdict(input) {
            Ok(name) => EnterPlan::Send(ClientMessageView::SetUsername { username: name }),
            Err(code) => EnterPlan::Note(ChatEventView::Error(username_complaint(code))),
        },
        StageView::ConfirmUsername { .. } => match answer_of(lowercase(trim(input))) {
            Some(accepted) => EnterPlan::Send(ClientMessageView::AcceptUsername { accepted }),
            None => EnterPlan::Note(
                ChatEventView::Error("Invalid input. Please enter 'y' or 'n'."@),
            ),
        },
        StageView::SelectRoom => match room_name_verdict(input) {
            Ok(name) => EnterPlan::Send(ClientMessageView::JoinRoom { room: name }),
            Err(code) => EnterPlan::Note(ChatEventView::Error(room_complaint(code))),
        },
        StageView::Chatting { .. } => match chat_message_verdict(input) {
            Ok(text) => EnterPlan::Send(ClientMessageView::ChatMessage { message: text }),
            Err(code) => EnterPlan::Note(ChatEventView::Error(message_complaint(code))),
        },
        StageView::JoiningRoom { .. } => EnterPlan::Note(
            ChatEventView::System("Still waiting to join the room..."@),
        ),
        _ => EnterPlan::Nothing,
    }
}

/// Whether handling Enter needs room for one more log entry.
pub open spec fn enter_may_log(stage: StageView) -> bool {
    !(stage is Connecting) && !(stage is Disconnected)
}

/// Handles Enter with the submitted `input`: checks it as the current stage calls for,
/// and either asks for a message to be sent or logs why nothing is sent. The stage is
/// not changed until the outcome of the send is known.
pub fn handle_enter(app: &mut App, input: String) -> (r: KeyStep)
    requires
        enter_may_log(old(app).stage@) ==> old(app).can_push(),
    ensures
        final(app).stage == old(app).stage,
        final(app).connected == old(app).connected,
        final(app).input == old(app).input,
        same_view_state(old(app), final(app)),
        match enter_plan(old(app).stage@, input@) {
            EnterPlan::Send(m) => r matches KeyStep::Send { message, input: kept } && message@
                == m && kept@ == input@ && final(app).log() == old(app).log()
                && final(app).total_messages_pushed == old(app).total_messages_pushed,
            EnterPlan::Note(e) => r == KeyStep::Finished(KeyOutcome::Continue) && final(app).log()
                == pushed_log(old(app).log(), e) && final(app).total_messages_pushed == old(app).total_messages_pushed + 1,
            EnterPlan::Nothing => r == KeyStep::Finished(KeyOutcome::Continue) && final(app).log()
                == old(app).log() && final(app).total_messages_pushed == old(app).total_messages_pushed,
        },
{
    let plan: Result<ClientMessage, Option<ChatEvent>> = match &app.stage {
        ClientStage::SetUsername => match check_username(input.as_str()) {
            Ok(name) => Ok(ClientMessage::SetUsername { username: name }),
            Err(code) => Err(Some(ChatEvent::Error(username_complaint_text(code).to_owned()))),
        },
        ClientStage::ConfirmUsername { .. } => {
            let trimmed = trim_str(input.as_str());
            let lowered = to_lowercase(trimmed.as_str());
            match confirmation_answer(lowered.as_str()) {
                Some(accepted) => Ok(ClientMessage::AcceptUsername { accepted }),
                None => Err(
                    Some(ChatEvent::Error("Invalid input. Please enter 'y' or 'n'.".to_owned())),
                ),
            }
        },
        ClientStage::SelectRoom => match check_room_name(input.as_str()) {
            Ok(name) => Ok(ClientMessage::JoinRoom { room: name }),
            Err(code) => Err(Some(ChatEvent::Error(room_complaint_text(code).to_owned()))),
        },
        ClientStage::Chatting { .. } => match check_chat_message(input.as_str()) {
            Ok(text) => Ok(ClientMessage::ChatMessage { message: text }),
            Err(code) => Err(Some(ChatEvent::Error(message_complaint_text(code).to_owned()))),
        },
        ClientStage::JoiningRoom { .. } => Err(
            Some(ChatEvent::System("Still waiting to join the room...".to_owned())),
        ),
        ClientStage::Connecting | ClientStage::Disconnected => Err(None),
    };
    match plan {
        Ok(message) => KeyStep::Send { message, input },
        Err(Some(note)) => {
            app.push_event(note);
            KeyStep::Finished(KeyOutcome::Continue)
        },
        Err(None) => KeyStep::Finished(KeyOutcome::Continue),
    }
}

/// Handles a key while connected. Enter takes the input line and hands it to
/// `handle_enter`; other keys are handled locally.
pub fn handle_key(app: &mut App, key: KeyPress) -> (r: KeyStep)
    requires
        old(app).can_push(),
    ensures
        !key.pressed ==> r == KeyStep::Finished(KeyOutcome::Continue) && *final(app) == *old(app),
        final(app).stage == old(app).stage,
        final(app).connected == old(app).connected,
        final(app).max_message_scroll == old(app).max_message_scroll,
        same_cache(old(app), final(app)),
        key.pressed && key.code == Key::Enter ==> final(app).message_scroll == old(
            app,
        ).message_scroll && final(app).theme == old(app).theme
            && final(app).total_messages_pushed == old(app).total_messages_pushed + (if enter_plan(
            old(app).stage@,
            old(app).input@,
        ) is Note {
            1int
        } else {
            0int
        }),
        key.pressed && key.code != Key::Enter ==> final(app).total_messages_pushed == old(
            app,
        ).total_messages_pushed + (if is_theme_key(key) {
            1int
        } else {
            0int
        }),
        key.pressed && key.code == Key::Enter ==> final(app).input@ == Seq::<char>::empty()
            && final(app).stage == old(app).stage && match enter_plan(
            old(app).stage@,
            old(app).input@,
        ) {
            EnterPlan::Send(m) => r matches KeyStep::Send { message, input } && message@ == m
                && input@ == old(app).input@ && final(app).log() == old(app).log(),
            EnterPlan::Note(e) => r == KeyStep::Finished(KeyOutcome::Continue) && final(app).log()
                == pushed_log(old(app).log(), e),
            EnterPlan::Nothing => r == KeyStep::Finished(KeyOutcome::Continue) && final(app).log()
                == old(app).log(),
        },
        key.pressed && key.code != Key::Enter ==> final(app).input@ == local_key_input(
            old(app).input@,
            key,
        ) && final(app).message_scroll == scroll_after_key(
            old(app).message_scroll,
            old(app).max_message_scroll,
            key,
        ) && (if is_theme_key(key) {
            final(app).theme == next_theme(old(app).theme) && final(app).log() == pushed_log(
                old(app).log(),
                ChatEventView::System("Theme switched to "@ + theme_label(next_theme(old(app).theme))),
            )
        } else {
            final(app).theme == old(app).theme && final(app).log() == old(app).log()
        }) && r == KeyStep::Finished(
            if key.code == Key::Esc {
                KeyOutcome::Quit
            } else {
                KeyOutcome::Continue
            },
        ),
{
    if !key.pressed {
        return KeyStep::Finished(KeyOutcome::Continue);
    }
    if key.code == Key::Enter {
        let mut input = String::new();
        std::mem::swap(&mut input, &mut app.input);
        return handle_enter(app, input);
    }
    KeyStep::Finished(handle_local_key(app, key))
}

/// The reason logged when sending `message` failed.
pub open spec fn send_failure_reason(message: ClientMessageView) -> Seq<char> {
    match message {
        ClientMessageView::SetUsername { .. } => "Failed to send username. Connection lost."@,
        ClientMessageView::AcceptUsername { accepted } => if accepted {
            "Failed to confirm username. Connection lost."@
        } else {
            "Failed to send response. Connection lost."@
        },
        ClientMessageView::JoinRoom { .. } => "Failed to join room. Connection lost."@,
        ClientMessageView::ChatMessage { .. } => "Failed to send message. Connection lost."@,
    }
}

/// Finishes a key press that asked for `message` to be sent, given whether sending it
/// worked. A failed send marks the connection lost and, except for the answer to the
/// username confirmation, puts the submitted `input` back in the input line. A sent
/// refusal of the proposed username returns to entering a username, and a sent room
/// request moves on to joining that room.
pub fn complete_send(app: &mut App, message: ClientMessage, input: String, sent: bool) -> (r: KeyOutcome)
    requires
        old(app).can_push(),
    ensures
        !sent ==> r == KeyOutcome::Disconnected && !final(app).connected && final(app).stage@
            == StageView::Disconnected && final(app).log() == pushed_log(
            old(app).log(),
            ChatEventView::System(send_failure_reason(message@)),
        ) && final(app).input@ == (if message is AcceptUsername {
            old(app).input@
        } else {
            input@
        }),
        sent ==> r == KeyOutcome::Continue && final(app).connected == old(app).connected
            && final(app).input == old(app).input,
        (sent && message == ClientMessage::AcceptUsername { accepted: false }) ==> final(app).stage@ == StageView::SetUsername && final(app).log() == pushed_log(
            old(app).log(),
            ChatEventView::System("Username not confirmed. Please enter a new username."@),
        ),
        sent && message is JoinRoom ==> final(app).stage@ == (StageView::JoiningRoom {
            room: message->JoinRoom_room@,
        }) && final(app).log() == old(app).log(),
        sent && !(message is JoinRoom) && message != (ClientMessage::AcceptUsername {
            accepted: false,
        }) ==> final(app).stage == old(app).stage && final(app).log() == old(app).log(),
        final(app).total_messages_pushed == old(app).total_messages_pushed + (if !sent || message
            == (ClientMessage::AcceptUsername { accepted: false }) {
            1int
        } else {
            0int
        }),
        final(app).theme == old(app).theme,
        final(app).message_scroll == old(app).message_scroll,
        final(app).max_message_scroll == old(app).max_message_scroll,
        same_cache(old(app), final(app)),
{
    if !sent {
        let reason = match &message {
            ClientMessage::SetUsername { .. } => "Failed to send username. Connection lost.",
            ClientMessage::AcceptUsername { accepted } => if *accepted {
                "Failed to confirm username. Connection lost."
            } else {
                "Failed to send response. Connection lost."
            },
            ClientMessage::JoinRoom { .. } => "Failed to join room. Connection lost.",
            ClientMessage::ChatMessage { .. } => "Failed to send message. Connection lost.",
        };
        let restore = match &message {
            ClientMessage::AcceptUsername { .. } => false,
            _ => true,
        };
        if restore {
            app.input = input;
        }
        mark_disconnected(app, reason);
        return KeyOutcome::Disconnected;
    }
    match message {
        ClientMessage::AcceptUsername { accepted } => {
            if !accepted {
                app.push_event(
                    ChatEvent::System(
                        "Username not confirmed. Please enter a new username.".to_owned(),
                    ),
                );
                app.stage = ClientStage::SetUsername;
            }
        },
        ClientMessage::JoinRoom { room } => {
            app.stage = ClientStage::JoiningRoom { room };
        },
        _ => {},
    }
    KeyOutcome::Continue
}

/// What the client sends after checking the input is exactly what the server accepts:
/// a username, room name or chat message that `handle_enter` sends passes the server's
/// check of that same text unchanged.
pub proof fn law_client_checks_match_server(stage: StageView, input: Seq<char>)
    ensures
        enter_plan(stage, input) matches EnterPlan::Send(
            ClientMessageView::SetUsername { username },
        ) ==> username_verdict(username) == Ok::<Seq<char>, ErrorCode>(username),
        enter_plan(stage, input) matches EnterPlan::Send(ClientMessageView::JoinRoom { room })
            ==> room_name_verdict(room) == Ok::<Seq<char>, ErrorCode>(room),
        enter_plan(stage, input) matches EnterPlan::Send(
            ClientMessageView::ChatMessage { message },
        ) ==> chat_message_verdict(message) == Ok::<Seq<char>, ErrorCode>(message),
{
    match stage {
        StageView::SetUsername => {
            if username_verdict(input) is Ok {
                crate::validation::law_username_check_is_stable(input);
            }
        },
        StageView::SelectRoom => {
            if room_name_verdict(input) is Ok {
                crate::validation::law_room_name_check_is_stable(input);
            }
        },
        StageView::Chatting { .. } => {
            if chat_message_verdict(input) is Ok {
                crate::validation::law_chat_message_check_is_stable(input);
            }
        },
        _ => {},
    }
}

/// The input line never grows past its limit by typing: a line within the limit stays
/// within it after any key.
pub proof fn law_input_is_bounded(input: Seq<char>, key: KeyPress)
    requires
        utf8_len(input) <= MAX_INPUT_LEN,
    ensures
        utf8_len(local_key_input(input, key)) <= MAX_INPUT_LEN,
{
    if key.pressed {
        match key.code {
            Key::Char(c) => {
                crate::text::lemma_utf8_len_push(input, c);
            },
            Key::Backspace => {
                if input.len() > 0 {
                    crate::text::lemma_utf8_len_push(input.drop_last(), input.last());
                    assert(input.drop_last().push(input.last()) =~= input);
                }
            },
            _ => {},
        }
    }
}

/// Scrolling back one line and forward one line returns to where the log was, and so
/// does the reverse, inside the log's range.
pub proof fn law_scrolling_is_undone(scroll: usize, max: usize)
    requires
        scroll <= max,
    ensures
        scroll < max ==> scroll_after_key(
            scroll_after_key(scroll, max, KeyPress { code: Key::Up, pressed: true, control: false, alt: false }),
            max,
            KeyPress { code: Key::Down, pressed: true, control: false, alt: false },
        ) == scroll,
        scroll > 0 ==> scroll_after_key(
            scroll_after_key(scroll, max, KeyPress { code: Key::Down, pressed: true, control: false, alt: false }),
            max,
            KeyPress { code: Key::Up, pressed: true, control: false, alt: false },
        ) == scroll,
{
}

/// Typing a character that fits and then deleting it leaves the input line as it was.
pub proof fn law_backspace_undoes_typing(input: Seq<char>, c: char)
    requires
        utf8_len(input) + char_utf8_len(c) <= MAX_INPUT_LEN,
    ensures
        local_key_input(
            local_key_input(input, KeyPress { code: Key::Char(c), pressed: true, control: false, alt: false }),
            KeyPress { code: Key::Backspace, pressed: true, control: false, alt: false },
        ) == input,
{
    assert(input.push(c).drop_last() =~= input);
}

} // verus!
