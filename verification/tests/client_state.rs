use ws_chat::app::{handle_server_message, mark_disconnected, App, ChatEvent, ClientStage, MAX_MESSAGES};
use ws_chat::events::{
    complete_send, confirmation_answer, handle_enter, handle_key, handle_local_key, handle_retry_wait_key, Key,
    KeyOutcome, KeyPress, KeyStep,
};
use ws_chat::protocol::{ClientMessage, ErrorCode, Frame, Received, ServerMessage};
use ws_chat::run::{
    begin_connection, connection_failed, connection_lost, handle_incoming, input_lost,
    plan_after_run, plan_after_wait, receive_server_message, Backoff, ExitReason, RetryOutcome,
    RunOutcome, RunPlan,
};
use ws_chat::theme::{theme_for, Rgb, ThemeName};

fn press(code: Key) -> KeyPress {
    KeyPress { code, pressed: true, control: false, alt: false }
}

fn last(app: &App) -> &ChatEvent {
    app.messages.last().unwrap()
}

fn system(text: &str) -> ChatEvent {
    ChatEvent::System(text.to_string())
}

#[test]
fn the_log_keeps_the_newest_entries() {
    let mut app = App::new();
    for i in 0..(MAX_MESSAGES + 5) {
        app.push_event(system(&i.to_string()));
    }
    assert_eq!(app.messages.len(), MAX_MESSAGES);
    assert_eq!(app.total_messages_pushed, MAX_MESSAGES + 5);
    assert_eq!(app.messages[0], system("5"));
    assert_eq!(*last(&app), system(&(MAX_MESSAGES + 4).to_string()));
}

#[test]
fn scrolling_stays_within_the_log() {
    let mut app = App::new();
    app.max_message_scroll = 2;
    app.scroll_messages_up();
    app.scroll_messages_up();
    app.scroll_messages_up();
    assert_eq!(app.message_scroll, 2);
    app.scroll_messages_down();
    assert_eq!(app.message_scroll, 1);
    app.scroll_messages_down();
    app.scroll_messages_down();
    assert_eq!(app.message_scroll, 0);
    app.message_scroll = usize::MAX;
    app.max_message_scroll = usize::MAX;
    app.scroll_messages_up();
    assert_eq!(app.message_scroll, usize::MAX);
}

#[test]
fn themes_cycle_in_three_steps() {
    let mut app = App::new();
    app.cycle_theme();
    assert_eq!(app.theme, ThemeName::Nord);
    assert_eq!(*last(&app), system("Theme switched to Nord"));
    app.cycle_theme();
    assert_eq!(*last(&app), system("Theme switched to Tokyo Night"));
    app.cycle_theme();
    assert_eq!(app.theme, ThemeName::Catppuccin);
    assert_eq!(*last(&app), system("Theme switched to Catppuccin"));
    assert_eq!(ThemeName::TokyoNight.label(), "Tokyo Night");
    assert_eq!(theme_for(ThemeName::Nord).background, Rgb { red: 46, green: 52, blue: 64 });
    assert_eq!(theme_for(ThemeName::Catppuccin).rule, Rgb { red: 69, green: 71, blue: 90 });
}

#[test]
fn server_messages_drive_the_stages() {
    let mut app = App::new();
    handle_server_message(&mut app, ServerMessage::Welcome);
    assert!(app.connected);
    assert_eq!(app.stage, ClientStage::SetUsername);
    assert_eq!(
        *last(&app),
        system("Connected to the server please provide the username u wanna go with:")
    );
    handle_server_message(&mut app, ServerMessage::ProposedUsername { username: "ann".into() });
    assert_eq!(app.stage, ClientStage::ConfirmUsername { confirmed_username: "ann".into() });
    assert_eq!(*last(&app), ChatEvent::Prompt("Confirm username 'ann'? (y/n)".into()));
    handle_server_message(&mut app, ServerMessage::RoomList { rooms: vec![] });
    assert_eq!(app.stage, ClientStage::SelectRoom);
    assert_eq!(
        *last(&app),
        system("Available rooms: none yet, you can create one by typing its name")
    );
    handle_server_message(
        &mut app,
        ServerMessage::RoomList { rooms: vec!["lobby".into(), "rust".into()] },
    );
    assert_eq!(*last(&app), system("Available rooms: lobby, rust"));
    handle_server_message(&mut app, ServerMessage::RoomJoinConfirmed { room: "rust".into() });
    assert_eq!(app.stage, ClientStage::Chatting { room: "rust".into() });
    assert_eq!(*last(&app), system("Joined room rust"));
    handle_server_message(
        &mut app,
        ServerMessage::ChatMessage { username: "bo".into(), message: "hey".into() },
    );
    assert_eq!(*last(&app), ChatEvent::Chat { username: "bo".into(), text: "hey".into() });
    handle_server_message(&mut app, ServerMessage::UserJoined { username: "cy".into() });
    assert_eq!(*last(&app), ChatEvent::Joined { username: "cy".into() });
    handle_server_message(&mut app, ServerMessage::UserLeft { username: "cy".into() });
    assert_eq!(*last(&app), ChatEvent::Left { username: "cy".into() });
    assert_eq!(app.stage, ClientStage::Chatting { room: "rust".into() });
}

#[test]
fn errors_recover_by_stage() {
    let mut app = App::new();
    app.stage = ClientStage::JoiningRoom { room: "x".into() };
    handle_server_message(
        &mut app,
        ServerMessage::Error { code: ErrorCode::UsernameTaken, message: "nope".into() },
    );
    assert_eq!(app.stage, ClientStage::SelectRoom);
    assert_eq!(*last(&app), ChatEvent::Error("Error from server: nope".into()));

    app.stage = ClientStage::ConfirmUsername { confirmed_username: "a".into() };
    handle_server_message(
        &mut app,
        ServerMessage::Error { code: ErrorCode::UsernameTaken, message: "taken".into() },
    );
    assert_eq!(app.stage, ClientStage::SetUsername);

    app.stage = ClientStage::Chatting { room: "r".into() };
    handle_server_message(
        &mut app,
        ServerMessage::Error { code: ErrorCode::MessageTooLarge, message: "big".into() },
    );
    assert_eq!(app.stage, ClientStage::Chatting { room: "r".into() });
    assert!(!app.connected);
}

#[test]
fn typing_and_editing_the_input() {
    let mut app = App::new();
    assert_eq!(handle_local_key(&mut app, press(Key::Char('h'))), KeyOutcome::Continue);
    handle_local_key(&mut app, press(Key::Char('é')));
    assert_eq!(app.input, "hé");
    handle_local_key(&mut app, press(Key::Backspace));
    assert_eq!(app.input, "h");
    let released = KeyPress { code: Key::Char('x'), pressed: false, control: false, alt: false };
    handle_local_key(&mut app, released);
    let alt = KeyPress { code: Key::Char('x'), pressed: true, control: false, alt: true };
    handle_local_key(&mut app, alt);
    assert_eq!(app.input, "h");
    let theme = KeyPress { code: Key::Char('t'), pressed: true, control: true, alt: false };
    handle_local_key(&mut app, theme);
    assert_eq!(app.theme, ThemeName::Nord);
    assert_eq!(app.input, "h");
    assert_eq!(handle_local_key(&mut app, press(Key::Esc)), KeyOutcome::Quit);
    let mut empty = App::new();
    handle_local_key(&mut empty, press(Key::Backspace));
    assert_eq!(empty.input, "");
}

#[test]
fn the_input_line_is_capped() {
    let mut app = App::new();
    app.input = "a".repeat(4095);
    handle_local_key(&mut app, press(Key::Char('é')));
    assert_eq!(app.input.len(), 4095);
    handle_local_key(&mut app, press(Key::Char('b')));
    assert_eq!(app.input.len(), 4096);
    handle_local_key(&mut app, press(Key::Char('c')));
    assert_eq!(app.input.len(), 4096);
}

#[test]
fn retry_wait_keys() {
    let mut app = App::new();
    app.max_message_scroll = 5;
    assert_eq!(handle_retry_wait_key(&mut app, press(Key::Up)), KeyOutcome::Continue);
    assert_eq!(app.message_scroll, 1);
    assert_eq!(handle_retry_wait_key(&mut app, press(Key::Char('q'))), KeyOutcome::Continue);
    assert_eq!(app.input, "");
    assert_eq!(handle_retry_wait_key(&mut app, press(Key::Down)), KeyOutcome::Continue);
    assert_eq!(app.message_scroll, 0);
    assert_eq!(handle_retry_wait_key(&mut app, press(Key::Esc)), KeyOutcome::Quit);
}

#[test]
fn enter_checks_the_input_for_the_stage() {
    let mut app = App::new();
    app.stage = ClientStage::SetUsername;
    match handle_enter(&mut app, "  ann ".into()) {
        KeyStep::Send { message, input } => {
            assert_eq!(message, ClientMessage::SetUsername { username: "ann".into() });
            assert_eq!(input, "  ann ");
        },
        other => panic!("unexpected {other:?}"),
    }
    assert!(app.messages.is_empty());
    assert_eq!(handle_enter(&mut app, "  ".into()), KeyStep::Finished(KeyOutcome::Continue));
    assert_eq!(*last(&app), ChatEvent::Error("Username cannot be empty.".into()));
    handle_enter(&mut app, "x".repeat(65));
    assert_eq!(*last(&app), ChatEvent::Error("Username is too long.".into()));
    handle_enter(&mut app, "a\tb".into());
    assert_eq!(*last(&app), ChatEvent::Error("Username cannot contain control characters.".into()));

    app.stage = ClientStage::ConfirmUsername { confirmed_username: "ann".into() };
    assert!(matches!(
        handle_enter(&mut app, " Y ".into()),
        KeyStep::Send { message: ClientMessage::AcceptUsername { accepted: true }, .. }
    ));
    assert!(matches!(
        handle_enter(&mut app, "n".into()),
        KeyStep::Send { message: ClientMessage::AcceptUsername { accepted: false }, .. }
    ));
    handle_enter(&mut app, "yes".into());
    assert_eq!(*last(&app), ChatEvent::Error("Invalid input. Please enter 'y' or 'n'.".into()));

    app.stage = ClientStage::SelectRoom;
    assert!(matches!(
        handle_enter(&mut app, " Lobby ".into()),
        KeyStep::Send { message: ClientMessage::JoinRoom { ref room }, .. } if room == "Lobby"
    ));
    handle_enter(&mut app, "".into());
    assert_eq!(*last(&app), ChatEvent::Error("Room name cannot be empty.".into()));
    handle_enter(&mut app, "r".repeat(65));
    assert_eq!(*last(&app), ChatEvent::Error("Room name is too long.".into()));
    handle_enter(&mut app, "r\u{0}".into());
    assert_eq!(*last(&app), ChatEvent::Error("Room name cannot contain control characters.".into()));

    app.stage = ClientStage::Chatting { room: "lobby".into() };
    assert!(matches!(
        handle_enter(&mut app, "hi ".into()),
        KeyStep::Send { message: ClientMessage::ChatMessage { ref message }, .. } if message == "hi"
    ));
    handle_enter(&mut app, " ".into());
    assert_eq!(*last(&app), ChatEvent::Error("Message cannot be empty.".into()));
    handle_enter(&mut app, "m".repeat(4097));
    assert_eq!(*last(&app), ChatEvent::Error("Message is too large.".into()));
    handle_enter(&mut app, "m\u{1b}".into());
    assert_eq!(*last(&app), ChatEvent::Error("Message cannot contain control characters.".into()));

    app.stage = ClientStage::JoiningRoom { room: "lobby".into() };
    handle_enter(&mut app, "anything".into());
    assert_eq!(*last(&app), system("Still waiting to join the room..."));

    app.stage = ClientStage::Disconnected;
    let before = app.messages.len();
    assert_eq!(handle_enter(&mut app, "x".into()), KeyStep::Finished(KeyOutcome::Continue));
    assert_eq!(app.messages.len(), before);
}

#[test]
fn enter_takes_the_input_line() {
    let mut app = App::new();
    app.stage = ClientStage::Chatting { room: "r".into() };
    app.input = "hello".into();
    let step = handle_key(&mut app, press(Key::Enter));
    assert_eq!(app.input, "");
    assert!(matches!(step, KeyStep::Send { .. }));
    app.input = " ".into();
    assert_eq!(handle_key(&mut app, press(Key::Enter)), KeyStep::Finished(KeyOutcome::Continue));
    assert_eq!(app.input, "");
    assert_eq!(handle_key(&mut app, press(Key::Char('z'))), KeyStep::Finished(KeyOutcome::Continue));
    assert_eq!(app.input, "z");
    assert_eq!(handle_key(&mut app, press(Key::Esc)), KeyStep::Finished(KeyOutcome::Quit));
}

#[test]
fn completing_a_send() {
    let mut app = App::new();
    app.stage = ClientStage::SelectRoom;
    let out = complete_send(&mut app, ClientMessage::JoinRoom { room: "Lobby".into() }, " Lobby".into(), true);
    assert_eq!(out, KeyOutcome::Continue);
    assert_eq!(app.stage, ClientStage::JoiningRoom { room: "Lobby".into() });
    assert!(app.messages.is_empty());

    app.stage = ClientStage::ConfirmUsername { confirmed_username: "a".into() };
    complete_send(&mut app, ClientMessage::AcceptUsername { accepted: false }, "n".into(), true);
    assert_eq!(app.stage, ClientStage::SetUsername);
    assert_eq!(*last(&app), system("Username not confirmed. Please enter a new username."));

    app.stage = ClientStage::Chatting { room: "r".into() };
    let before = app.messages.len();
    complete_send(&mut app, ClientMessage::ChatMessage { message: "hi".into() }, "hi".into(), true);
    assert_eq!(app.messages.len(), before);

    let out = complete_send(&mut app, ClientMessage::ChatMessage { message: "hi".into() }, " hi".into(), false);
    assert_eq!(out, KeyOutcome::Disconnected);
    assert_eq!(app.input, " hi");
    assert_eq!(app.stage, ClientStage::Disconnected);
    assert_eq!(*last(&app), system("Failed to send message. Connection lost."));

    let mut app = App::new();
    app.input = "".into();
    complete_send(&mut app, ClientMessage::AcceptUsername { accepted: true }, "y".into(), false);
    assert_eq!(app.input, "");
    assert_eq!(*last(&app), system("Failed to confirm username. Connection lost."));
    complete_send(&mut app, ClientMessage::AcceptUsername { accepted: false }, "n".into(), false);
    assert_eq!(*last(&app), system("Failed to send response. Connection lost."));
    complete_send(&mut app, ClientMessage::SetUsername { username: "a".into() }, "a ".into(), false);
    assert_eq!(app.input, "a ");
    assert_eq!(*last(&app), system("Failed to send username. Connection lost."));
    complete_send(&mut app, ClientMessage::JoinRoom { room: "r".into() }, "r".into(), false);
    assert_eq!(*last(&app), system("Failed to join room. Connection lost."));
}

#[test]
fn connection_lifecycle() {
    let mut app = App::new();
    app.input = "draft".into();
    app.connected = true;
    begin_connection(&mut app);
    assert_eq!(app.input, "");
    assert!(!app.connected);
    assert_eq!(app.stage, ClientStage::Connecting);

    assert_eq!(connection_failed(&mut app, true), RunOutcome::ConnectionFailed);
    assert_eq!(*last(&app), system("Connection attempt timed out."));
    assert_eq!(app.stage, ClientStage::Disconnected);
    connection_failed(&mut app, false);
    assert_eq!(*last(&app), system("Couldn't reach the server."));

    app.stage = ClientStage::Connecting;
    assert!(handle_incoming(&mut app, Received::Message(ServerMessage::Welcome)));
    assert_eq!(app.stage, ClientStage::SetUsername);
    let pushed = app.total_messages_pushed;
    assert!(handle_incoming(&mut app, Received::Ignored));
    assert_eq!(app.total_messages_pushed, pushed);
    assert!(!handle_incoming(&mut app, Received::Invalid));
    assert_eq!(app.total_messages_pushed, pushed + 1);
    assert_eq!(
        *last(&app),
        system("Received an unexpected message from the server. Connection lost.")
    );
    assert!(!handle_incoming(&mut app, Received::Unsupported));
    assert!(!handle_incoming(&mut app, Received::Disconnected));
    assert_eq!(*last(&app), system("Server closed the connection."));

    input_lost(&mut app);
    assert_eq!(*last(&app), system("The client can no longer receive keyboard input."));

    assert_eq!(connection_lost(&mut app), RunOutcome::Disconnected);
    assert!(!app.connected);
    assert_eq!(app.stage, ClientStage::Disconnected);

    mark_disconnected(&mut app, "bye");
    assert_eq!(*last(&app), system("bye"));

    assert_eq!(receive_server_message(Frame::Text(None)), Received::Invalid);
    assert_eq!(receive_server_message(Frame::Binary), Received::Unsupported);
    assert_eq!(receive_server_message(Frame::Control), Received::Ignored);
    assert_eq!(receive_server_message(Frame::Close), Received::Disconnected);
    assert_eq!(
        receive_server_message(Frame::Text(Some(ServerMessage::Welcome))),
        Received::Message(ServerMessage::Welcome)
    );
}

#[test]
fn reconnection_backs_off_to_thirty_seconds() {
    let mut app = App::new();
    let mut backoff = Backoff::new();
    let mut waits = Vec::new();
    for _ in 0..8 {
        match plan_after_run(&mut app, RunOutcome::ConnectionFailed, &mut backoff) {
            RunPlan::Wait(secs) => waits.push(secs),
            RunPlan::Exit(_) => panic!("should retry"),
        }
        assert_eq!(plan_after_wait(RetryOutcome::Retry, &mut backoff), None);
    }
    assert_eq!(waits, vec![1, 2, 4, 8, 16, 30, 30, 30]);
    assert_eq!(*last(&app), system("Retrying in 30s..."));

    assert_eq!(plan_after_run(&mut app, RunOutcome::Disconnected, &mut backoff), RunPlan::Wait(1));
    assert_eq!(*last(&app), system("Retrying in 1s..."));
    assert_eq!(plan_after_wait(RetryOutcome::Retry, &mut backoff), None);
    assert_eq!(backoff.secs(), 2);

    assert_eq!(
        plan_after_run(&mut app, RunOutcome::Quit, &mut backoff),
        RunPlan::Exit(ExitReason::UserQuit)
    );
    assert_eq!(
        plan_after_run(&mut app, RunOutcome::InputFailed, &mut backoff),
        RunPlan::Exit(ExitReason::InputFailed)
    );
    assert_eq!(plan_after_wait(RetryOutcome::Quit, &mut backoff), Some(ExitReason::UserQuit));
    assert_eq!(
        plan_after_wait(RetryOutcome::InputFailed, &mut backoff),
        Some(ExitReason::InputFailed)
    );
    assert_eq!(backoff.secs(), 2);
}

#[test]
fn confirmation_answers() {
    assert_eq!(confirmation_answer("y"), Some(true));
    assert_eq!(confirmation_answer("n"), Some(false));
    assert_eq!(confirmation_answer("yes"), None);
    assert_eq!(confirmation_answer(""), None);
    assert_eq!(confirmation_answer("Y"), None);
}
