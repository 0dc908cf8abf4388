use ws_chat::app::{App, ChatEvent, ClientStage};
use ws_chat::events::{complete_send, handle_key, Key, KeyPress, KeyStep};
use ws_chat::ui::{
    columns, cursor_column, min_terminal_width, event_text, indicator, refresh_message_view, scroll_hint, settle_scroll, shows_cursor,
    stage_text, status_text, terminal_too_small, too_small_notice, trailing_input,
    trailing_start, visible_input, Indicator, ScrollState,
};

#[test]
fn trailing_tail_of_widths() {
    assert_eq!(trailing_start(&vec![1, 1, 1, 1], 2), 2);
    assert_eq!(trailing_start(&vec![1, 1], 5), 0);
    assert_eq!(trailing_start(&vec![2, 2, 2], 3), 2);
    assert_eq!(trailing_start(&vec![3], 2), 1);
    assert_eq!(trailing_start(&vec![], 0), 0);
    assert_eq!(trailing_start(&vec![0, 0, 5], 4), 3);
}

#[test]
fn trailing_input_counts_columns() {
    assert_eq!(trailing_input("hello world", 5), "world");
    assert_eq!(trailing_input("short", 10), "short");
    // Wide characters take two columns each.
    assert_eq!(trailing_input("ab日本", 4), "日本");
    assert_eq!(trailing_input("ab日本", 3), "本");
    assert_eq!(trailing_input("anything", 0), "");
    assert_eq!(visible_input("hello world", 8, "› "), "world");
    assert_eq!(visible_input("hello", 2, "› "), "");
    assert_eq!(visible_input("hello", 5, ""), "ello");
}

#[test]
fn widths_of_texts_on_screen() {
    assert_eq!(columns("日本"), 4);
    assert_eq!(columns("abc"), 3);
    assert_eq!(columns(""), 0);
    assert_eq!(min_terminal_width("Esc quit · ↑↓ scroll · Enter send · Ctrl+T theme", 2, 2), 48);
    assert_eq!(min_terminal_width("ab", 2, 2), 5);
    assert_eq!(cursor_column(3, "› ", "héllo"), 10);
    assert_eq!(cursor_column(3, "› ", "日本"), 9);
    assert_eq!(cursor_column(65530, "› ", "hello"), 65535);
}

#[test]
fn log_entries_as_text() {
    assert_eq!(event_text(&ChatEvent::System("sys".into())), "sys");
    assert_eq!(event_text(&ChatEvent::Prompt("ok?".into())), "ok?");
    assert_eq!(
        event_text(&ChatEvent::Chat { username: "ann".into(), text: "hi".into() }),
        "ann  hi"
    );
    assert_eq!(event_text(&ChatEvent::Joined { username: "bo".into() }), "bo joined the room");
    assert_eq!(event_text(&ChatEvent::Left { username: "bo".into() }), "bo left the room");
    assert_eq!(event_text(&ChatEvent::Error("bad".into())), "bad");
}

#[test]
fn status_line() {
    assert_eq!(stage_text(&ClientStage::Connecting), "Connecting");
    assert_eq!(stage_text(&ClientStage::SetUsername), "Entering Username");
    assert_eq!(
        stage_text(&ClientStage::ConfirmUsername { confirmed_username: "ann".into() }),
        "Confirming Username: ann"
    );
    assert_eq!(stage_text(&ClientStage::SelectRoom), "Selecting Room");
    assert_eq!(stage_text(&ClientStage::JoiningRoom { room: "r".into() }), "Joining r");
    assert_eq!(stage_text(&ClientStage::Chatting { room: "r".into() }), "Chatting in r");
    assert_eq!(stage_text(&ClientStage::Disconnected), "Disconnected");

    let mut app = App::new();
    assert_eq!(indicator(&app), Indicator::Connecting);
    assert_eq!(status_text(&app), " Connecting · Connecting");
    app.stage = ClientStage::Disconnected;
    assert_eq!(indicator(&app), Indicator::Disconnected);
    app.connected = true;
    app.stage = ClientStage::Chatting { room: "lobby".into() };
    assert_eq!(indicator(&app), Indicator::Connected);
    assert_eq!(status_text(&app), " Connected · Chatting in lobby");

    assert_eq!(scroll_hint(0), "");
    assert_eq!(scroll_hint(12), "12 newer ↑↓");
    assert!(shows_cursor(&ClientStage::SetUsername));
    assert!(shows_cursor(&ClientStage::Chatting { room: "x".into() }));
    assert!(!shows_cursor(&ClientStage::JoiningRoom { room: "x".into() }));
    assert!(!shows_cursor(&ClientStage::Connecting));

    assert!(terminal_too_small(10, 20, 49));
    assert!(terminal_too_small(60, 8, 49));
    assert!(!terminal_too_small(60, 9, 49));
    assert_eq!(
        too_small_notice(10, 4, 49),
        "Terminal too small (10x4).\nResize to at least 49x9."
    );
}

#[test]
fn scroll_settling() {
    assert_eq!(
        settle_scroll(3, 10, 0, false, None),
        ScrollState { leading: 7, max_scroll: 0, scroll: 0, offset: 0 }
    );
    assert_eq!(
        settle_scroll(25, 10, 4, false, Some(3)),
        ScrollState { leading: 0, max_scroll: 15, scroll: 7, offset: 8 }
    );
    assert_eq!(
        settle_scroll(25, 10, 4, true, Some(3)),
        ScrollState { leading: 0, max_scroll: 15, scroll: 15, offset: 0 }
    );
    assert_eq!(
        settle_scroll(25, 10, 14, false, Some(usize::MAX)),
        ScrollState { leading: 0, max_scroll: 15, scroll: 15, offset: 0 }
    );
    assert_eq!(
        settle_scroll(12, 10, 40, false, None),
        ScrollState { leading: 0, max_scroll: 2, scroll: 2, offset: 0 }
    );
}

#[test]
fn refreshing_the_message_view() {
    let mut app = App::new();
    app.push_event(ChatEvent::System("one".into()));
    app.push_event(ChatEvent::System("two".into()));
    let offset = refresh_message_view(&mut app, 5, 40);
    assert_eq!(offset, 0);
    assert_eq!(app.cached_full_text, "one\ntwo");
    assert_eq!(app.cached_content_lines, 2);
    assert_eq!(app.cached_leading_padding, 3);
    assert_eq!(app.cached_padded_text, "\n\n\none\ntwo");
    assert_eq!(app.cached_generation, 2);
    assert_eq!(app.cached_width, 40);
    assert_eq!(app.max_message_scroll, 0);

    for i in 0..6 {
        app.push_event(ChatEvent::System(format!("line {i}")));
    }
    refresh_message_view(&mut app, 5, 40);
    assert_eq!(app.cached_content_lines, 8);
    assert_eq!(app.max_message_scroll, 3);
    assert_eq!(app.cached_padded_text, app.cached_full_text);

    // Scrolled back, a new entry keeps the view on the same lines.
    app.message_scroll = 1;
    app.push_event(ChatEvent::System("new".into()));
    let offset = refresh_message_view(&mut app, 5, 40);
    assert_eq!(app.max_message_scroll, 4);
    assert_eq!(app.message_scroll, 2);
    assert_eq!(offset, 2);

    // At the top, the view stays at the top.
    app.message_scroll = 4;
    app.push_event(ChatEvent::System("newer".into()));
    refresh_message_view(&mut app, 5, 40);
    assert_eq!(app.message_scroll, 5);
    assert_eq!(app.max_message_scroll, 5);

    // Nothing new and the same width: the cached text is kept.
    app.cached_full_text = "kept".into();
    refresh_message_view(&mut app, 5, 40);
    assert_eq!(app.cached_full_text, "kept");

    // A narrower area wraps long lines.
    let mut narrow = App::new();
    narrow.push_event(ChatEvent::System("aaaa bbbb".into()));
    refresh_message_view(&mut narrow, 5, 5);
    assert_eq!(narrow.cached_content_lines, 2);
    refresh_message_view(&mut narrow, 5, 0);
    assert_eq!(narrow.cached_content_lines, 0);
}

#[test]
fn sent_input_is_not_restored_after_a_server_rejection() {
    let mut app = App::new();
    app.stage = ClientStage::SelectRoom;
    app.input = "Lobby".into();
    let press = KeyPress { code: Key::Enter, pressed: true, control: false, alt: false };
    match handle_key(&mut app, press) {
        KeyStep::Send { message, input } => {
            complete_send(&mut app, message, input, true);
        },
        other => panic!("unexpected {other:?}"),
    }
    assert_eq!(app.input, "");
    assert_eq!(app.stage, ClientStage::JoiningRoom { room: "Lobby".into() });
}
