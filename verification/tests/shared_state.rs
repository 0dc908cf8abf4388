use ws_chat::protocol::ServerMessage;
use ws_chat::server::{SessionAction, SessionEvent};
use ws_chat::shared::{
    has_no_subscribers, no_subscribers, perform, Membership, Performed, SharedState,
    ROOM_CHANNEL_CAPACITY,
};

#[test]
fn usernames_are_reserved_once() {
    let state = SharedState::new();
    assert!(state.try_reserve("ann".to_string()).0);
    assert!(!state.try_reserve("ann".to_string()).0);
    assert!(state.try_reserve("bob".to_string()).0);
    let _ = state.release(&"ann".to_string());
    assert!(state.try_reserve("ann".to_string()).0);
    let other = state.share();
    assert!(!other.try_reserve("bob".to_string()).0);
}

#[test]
fn rooms_live_while_someone_is_in_them() {
    let state = SharedState::new();
    assert!(state.room_names().is_empty());
    let mut first = state.join("lobby".to_string()).0;
    let second = state.join("lobby".to_string()).0;
    assert_eq!(first.room, "lobby");
    assert_eq!(state.room_names(), vec!["lobby".to_string()]);
    let _ = second.publish(ServerMessage::UserJoined { username: "bo".to_string() });
    assert_eq!(
        first.receiver.try_recv().unwrap(),
        ServerMessage::UserJoined { username: "bo".to_string() }
    );
    assert!(!has_no_subscribers(&first.sender));
    let _ = state.leave(second);
    assert_eq!(state.room_names(), vec!["lobby".to_string()]);
    let _ = state.leave(first);
    assert!(state.room_names().is_empty());
}

#[test]
fn actions_on_the_shared_state() {
    let state = SharedState::new();
    let mut membership: Option<Membership> = None;
    assert_eq!(
        perform(&state, &mut membership, SessionAction::Reserve("ann".into())).0,
        Performed::Reply(SessionEvent::Reserved(true))
    );
    assert_eq!(
        perform(&state, &mut membership, SessionAction::Reserve("ann".into())).0,
        Performed::Reply(SessionEvent::Reserved(false))
    );
    assert_eq!(
        perform(&state, &mut membership, SessionAction::ListRooms).0,
        Performed::Reply(SessionEvent::Rooms(vec![]))
    );
    assert_eq!(
        perform(&state, &mut membership, SessionAction::Subscribe("rust".into())).0,
        Performed::Done
    );
    assert_eq!(membership.as_ref().unwrap().room, "rust");
    assert_eq!(
        perform(&state, &mut membership, SessionAction::ListRooms).0,
        Performed::Reply(SessionEvent::Rooms(vec!["rust".into()]))
    );
    let hello = ServerMessage::ChatMessage { username: "ann".into(), message: "hi".into() };
    assert_eq!(
        perform(&state, &mut membership, SessionAction::Publish(hello.clone())).0,
        Performed::Done
    );
    assert_eq!(membership.as_mut().unwrap().receiver.try_recv().unwrap(), hello);
    assert_eq!(
        perform(&state, &mut membership, SessionAction::Send(ServerMessage::Welcome)).0,
        Performed::Send(ServerMessage::Welcome)
    );
    assert_eq!(
        perform(&state, &mut membership, SessionAction::Unsubscribe("rust".into())).0,
        Performed::Done
    );
    assert!(membership.is_none());
    assert!(state.room_names().is_empty());
    assert_eq!(
        perform(&state, &mut membership, SessionAction::Release("ann".into())).0,
        Performed::Done
    );
    assert!(state.try_reserve("ann".into()).0);
    assert_eq!(perform(&state, &mut membership, SessionAction::Close).0, Performed::Close);
}

#[test]
fn subscriber_counts() {
    assert!(no_subscribers(0));
    assert!(!no_subscribers(1));
    assert!(!no_subscribers(usize::MAX));
}

#[test]
fn rooms_hold_their_capacity_for_slow_members() {
    let state = SharedState::new();
    let mut slow = state.join("busy".to_string()).0;
    let fast = state.join("busy".to_string()).0;
    for n in 0..(ROOM_CHANNEL_CAPACITY + 1) {
        let _ = fast.publish(ServerMessage::UserJoined { username: format!("u{n}") });
    }
    match slow.receiver.try_recv() {
        Err(tokio::sync::broadcast::error::TryRecvError::Lagged(missed)) => assert_eq!(missed, 1),
        other => panic!("expected a lag, got {other:?}"),
    }
    assert_eq!(ROOM_CHANNEL_CAPACITY, 256);
}
