//! The server side of one connection: how a received frame is classified, how a room
//! broadcast is forwarded, and the session that takes a client from the welcome
//! through the username handshake and room selection into the chat.
//!
//! The session is a state machine. `transition` decides, from the phase and an event,
//! the next phase and the actions to perform; the caller performs them (sending on the
//! socket, reserving a username, joining a room) and reports what came of them as the
//! next event.
use vstd::prelude::*;

use crate::protocol::{
    error_message, received_of, Frame, ClientMessage, ClientMessageView, ErrorCode, Received, ServerMessage,
    ServerMessageView,
};
use crate::text::{decimal, lowercase, push_decimal, push_str, to_lowercase, views};
use crate::validation::{
    chat_message_verdict, check_chat_message, check_room_name, check_username,
    room_name_verdict, username_verdict,
};

verus! {

/// Classifies a frame read from a client.
pub fn receive_client_message(frame: Frame<ClientMessage>) -> (r: Received<ClientMessage>)
    ensures
        r == received_of(frame),
{
    match frame {
        Frame::Text(Some(m)) => Received::Message(m),
        Frame::Text(None) => Received::Invalid,
        Frame::Binary => Received::Unsupported,
        Frame::Control => Received::Ignored,
        Frame::Close => Received::Disconnected,
        Frame::Failed => Received::Disconnected,
        Frame::Ended => Received::Disconnected,
    }
}

/// What a room's broadcast channel gave a subscriber.
#[derive(Debug, Clone, PartialEq, Eq)]
pub enum Broadcast {
    Message(ServerMessage),
    Lagged(u64),
    Closed,
}

/// A broadcast item with its message taken by its view.
pub enum BroadcastView {
    Message(ServerMessageView),
    Lagged(u64),
    Closed,
}

impl View for Broadcast {
    type V = BroadcastView;

    open spec fn view(&self) -> BroadcastView {
        match self {
            Broadcast::Message(m) => BroadcastView::Message(m@),
            Broadcast::Lagged(n) => BroadcastView::Lagged(*n),
            Broadcast::Closed => BroadcastView::Closed,
        }
    }
}

/// The text that tells a subscriber how many messages it missed.
pub open spec fn lag_text(count: u64) -> Seq<char> {
    "You missed "@ + decimal(count as nat) + " messages due to lag."@
}

/// What a subscriber sends its client for a broadcast item; `None` ends the chat.
pub open spec fn forward_of(item: BroadcastView) -> Option<ServerMessageView> {
    match item {
        BroadcastView::Message(m) => Some(m),
        BroadcastView::Lagged(n) => Some(
            ServerMessageView::Error { code: ErrorCode::LaggedBehind, message: lag_text(n) },
        ),
        BroadcastView::Closed => None,
    }
}

/// The message to forward to the client for a broadcast item, or `None` when the
/// channel has closed.
pub fn forward_broadcast_message(item: Broadcast) -> (r: Option<ServerMessage>)
    ensures
        option_view(r) == forward_of(item@),
{
    match item {
        Broadcast::Message(m) => Some(m),
        Broadcast::Lagged(count) => {
            let mut text = "You missed ".to_owned();
            push_decimal(&mut text, count);
            push_str(&mut text, " messages due to lag.");
            Some(error_message(ErrorCode::LaggedBehind, text.as_str()))
        },
        Broadcast::Closed => None,
    }
}

/// An optional message taken by its view.
pub open spec fn option_view(m: Option<ServerMessage>) -> Option<ServerMessageView> {
    match m {
        Some(m) => Some(m@),
        None => None,
    }
}

/// Where a connection stands.
#[derive(Debug, Clone, PartialEq, Eq)]
pub enum Phase {
    /// Connected; the welcome is not sent yet.
    Opened,
    /// Waiting for a proposed username.
    AwaitingUsername,
    /// The username was echoed back; waiting for the client to accept it.
    AwaitingAcceptance { username: String },
    /// The client accepted the username; waiting to learn whether it is free.
    Reserving { username: String },
    /// The username is reserved; waiting for the list of rooms.
    ListingRooms { username: String },
    /// The username is reserved and the room list sent; waiting for a room.
    AwaitingRoom { username: String },
    /// Subscribed to the room; its confirmation was just sent.
    Joining { username: String, room: String },
    /// In the room.
    Chatting { username: String, room: String },
    /// The connection is over.
    Closed,
}

/// A phase with its strings taken as character sequences.
pub enum PhaseView {
    Opened,
    AwaitingUsername,
    AwaitingAcceptance { username: Seq<char> },
    Reserving { username: Seq<char> },
    ListingRooms { username: Seq<char> },
    AwaitingRoom { username: Seq<char> },
    Joining { username: Seq<char>, room: Seq<char> },
    Chatting { username: Seq<char>, room: Seq<char> },
    Closed,
}

impl View for Phase {
    type V = PhaseView;

    open spec fn view(&self) -> PhaseView {
        match self {
            Phase::Opened => PhaseView::Opened,
            Phase::AwaitingUsername => PhaseView::AwaitingUsername,
            Phase::AwaitingAcceptance { username } => PhaseView::AwaitingAcceptance {
                username: username@,
            },
            Phase::Reserving { username } => PhaseView::Reserving { username: username@ },
            Phase::ListingRooms { username } => PhaseView::ListingRooms { username: username@ },
            Phase::AwaitingRoom { username } => PhaseView::AwaitingRoom { username: username@ },
            Phase::Joining { username, room } => PhaseView::Joining {
                username: username@,
                room: room@,
            },
            Phase::Chatting { username, room } => PhaseView::Chatting {
                username: username@,
                room: room@,
            },
            Phase::Closed => PhaseView::Closed,
        }
    }
}

/// Something that happened to a connection.
#[derive(Debug, Clone, PartialEq, Eq)]
pub enum SessionEvent {
    /// Nothing to wait for: go on.
    Proceed,
    /// A frame from the client.
    Client(Received<ClientMessage>),
    /// Whether reserving the username succeeded.
    Reserved(bool),
    /// The names of the rooms that exist now.
    Rooms(Vec<String>),
    /// An item from the room's broadcast channel.
    Room(Broadcast),
    /// A message could not be sent to the client.
    SendFailed,
}

/// An event with its strings taken as character sequences.
pub enum EventView {
    Proceed,
    Client(Received<ClientMessageView>),
    Reserved(bool),
    Rooms(Seq<Seq<char>>),
    Room(BroadcastView),
    SendFailed,
}

impl View for SessionEvent {
    type V = EventView;

    open spec fn view(&self) -> EventView {
        match self {
            SessionEvent::Proceed => EventView::Proceed,
            SessionEvent::Client(r) => EventView::Client(r@),
            SessionEvent::Reserved(b) => EventView::Reserved(*b),
            SessionEvent::Rooms(rooms) => EventView::Rooms(views(rooms@)),
            SessionEvent::Room(b) => EventView::Room(b@),
            SessionEvent::SendFailed => EventView::SendFailed,
        }
    }
}

/// Something the caller is asked to do for a connection.
#[derive(Debug, Clone, PartialEq, Eq)]
pub enum SessionAction {
    /// Send a message to this client; report `SendFailed` if that fails.
    Send(ServerMessage),
    /// Reserve this (lower-case) username key; report `Reserved`.
    Reserve(String),
    /// Report the names of the rooms that exist now, as `Rooms`.
    ListRooms,
    /// Join this room, creating it if it does not exist.
    Subscribe(String),
    /// Broadcast a message to everyone in the room, this client included.
    Publish(ServerMessage),
    /// Leave this room, removing it if nobody is left in it.
    Unsubscribe(String),
    /// Free this username key.
    Release(String),
    /// End the connection.
    Close,
}

/// An action with its strings taken as character sequences.
pub enum ActionView {
    Send(ServerMessageView),
    Reserve(Seq<char>),
    ListRooms,
    Subscribe(Seq<char>),
    Publish(ServerMessageView),
    Unsubscribe(Seq<char>),
    Release(Seq<char>),
    Close,
}

impl View for SessionAction {
    type V = ActionView;

    open spec fn view(&self) -> ActionView {
        match self {
            SessionAction::Send(m) => ActionView::Send(m@),
            SessionAction::Reserve(k) => ActionView::Reserve(k@),
            SessionAction::ListRooms => ActionView::ListRooms,
            SessionAction::Subscribe(r) => ActionView::Subscribe(r@),
            SessionAction::Publish(m) => ActionView::Publish(m@),
            SessionAction::Unsubscribe(r) => ActionView::Unsubscribe(r@),
            SessionAction::Release(k) => ActionView::Release(k@),
            SessionAction::Close => ActionView::Close,
        }
    }
}

/// A list of actions taken by their views.
pub open spec fn actions_view(actions: Seq<SessionAction>) -> Seq<ActionView> {
    actions.map_values(|a: SessionAction| a@)
}

/// What the caller waits for before the next event.
#[derive(Debug, Clone, PartialEq, Eq)]
pub enum Awaiting {
    /// Nothing: report `Proceed`.
    Proceed,
    /// The next frame from the client.
    ClientFrame,
    /// Whichever comes first: a broadcast item or a frame from the client.
    ChatTraffic,
    /// The outcome of the `Reserve` action.
    Reservation,
    /// The outcome of the `ListRooms` action.
    RoomList,
    /// Nothing more: the connection is over.
    Finished,
}

/// What a phase waits for.
pub open spec fn awaiting_of(phase: PhaseView) -> Awaiting {
    match phase {
        PhaseView::Opened => Awaiting::Proceed,
        PhaseView::AwaitingUsername => Awaiting::ClientFrame,
        PhaseView::AwaitingAcceptance { .. } => Awaiting::ClientFrame,
        PhaseView::Reserving { .. } => Awaiting::Reservation,
        PhaseView::ListingRooms { .. } => Awaiting::RoomList,
        PhaseView::AwaitingRoom { .. } => Awaiting::ClientFrame,
        PhaseView::Joining { .. } => Awaiting::Proceed,
        PhaseView::Chatting { .. } => Awaiting::ChatTraffic,
        PhaseView::Closed => Awaiting::Finished,
    }
}

/// What the caller should wait for in `phase`.
pub fn awaiting(phase: &Phase) -> (r: Awaiting)
    ensures
        r == awaiting_of(phase@),
{
    match phase {
        Phase::Opened => Awaiting::Proceed,
        Phase::AwaitingUsername => Awaiting::ClientFrame,
        Phase::AwaitingAcceptance { .. } => Awaiting::ClientFrame,
        Phase::Reserving { .. } => Awaiting::Reservation,
        Phase::ListingRooms { .. } => Awaiting::RoomList,
        Phase::AwaitingRoom { .. } => Awaiting::ClientFrame,
        Phase::Joining { .. } => Awaiting::Proceed,
        Phase::Chatting { .. } => Awaiting::ChatTraffic,
        Phase::Closed => Awaiting::Finished,
    }
}

/// The key under which a username is reserved: usernames are unique regardless of case.
pub open spec fn username_key(username: Seq<char>) -> Seq<char> {
    lowercase(username)
}

/// An error reply.
pub open spec fn error_reply(code: ErrorCode, text: Seq<char>) -> ActionView {
    ActionView::Send(ServerMessageView::Error { code, message: text })
}

/// The reply to a frame that is not a message, or `None` when no reply is due.
pub open spec fn frame_reply(r: Received<ClientMessageView>) -> Seq<ActionView> {
    match r {
        Received::Unsupported => seq![
            error_reply(ErrorCode::UnsupportedMessage, "only text messages are supported"@),
        ],
        Received::Invalid => seq![
            error_reply(ErrorCode::InvalidMessage, "invalid message format"@),
        ],
        _ => Seq::empty(),
    }
}

/// The text of a refused username.
pub open spec fn username_error_text(code: ErrorCode) -> Seq<char> {
    match code {
        ErrorCode::EmptyUsername => "username cannot be empty"@,
        ErrorCode::UsernameTooLong => "username is too long"@,
        _ => "username cannot contain control characters"@,
    }
}

/// The text of a refused room name.
pub open spec fn room_error_text(code: ErrorCode) -> Seq<char> {
    match code {
        ErrorCode::EmptyRoom => "room name cannot be empty"@,
        ErrorCode::RoomNameTooLong => "room name is too long"@,
        _ => "room name cannot contain control characters"@,
    }
}

/// The text of a refused chat message.
pub open spec fn chat_error_text(code: ErrorCode) -> Seq<char> {
    match code {
        ErrorCode::MessageTooLarge => "message too large"@,
        ErrorCode::EmptyChatMessage => "message cannot be empty"@,
        _ => "message cannot contain control characters"@,
    }
}

/// What leaving a connection in `phase` takes: the user leaves the room it is in
/// (and the others hear of it once it was announced), its username is freed, and the
/// connection ends.
pub open spec fn leave_actions(phase: PhaseView) -> Seq<ActionView> {
    match phase {
        PhaseView::ListingRooms { username } => seq![
            ActionView::Release(username_key(username)),
            ActionView::Close,
        ],
        PhaseView::AwaitingRoom { username } => seq![
            ActionView::Release(username_key(username)),
            ActionView::Close,
        ],
        PhaseView::Joining { username, room } => seq![
            ActionView::Unsubscribe(room),
            ActionView::Release(username_key(username)),
            ActionView::Close,
        ],
        PhaseView::Chatting { username, room } => seq![
            ActionView::Publish(ServerMessageView::UserLeft { username }),
            ActionView::Unsubscribe(room),
            ActionView::Release(username_key(username)),
            ActionView::Close,
        ],
        PhaseView::Closed => Seq::empty(),
        _ => seq![ActionView::Close],
    }
}

/// How a phase that reads client frames reacts to one.
pub open spec fn on_client(phase: PhaseView, r: Received<ClientMessageView>) -> (
    PhaseView,
    Seq<ActionView>,
) {
    match r {
        Received::Disconnected => (PhaseView::Closed, leave_actions(phase)),
        Received::Message(m) => on_message(phase, m),
        _ => (phase, frame_reply(r)),
    }
}

/// How a phase that reads client frames reacts to a message.
pub open spec fn on_message(phase: PhaseView, m: ClientMessageView) -> (PhaseView, Seq<ActionView>) {
    match phase {
        PhaseView::AwaitingUsername => match m {
            ClientMessageView::SetUsername { username } => match username_verdict(username) {
                Ok(name) => (
                    PhaseView::AwaitingAcceptance { username: name },
                    seq![ActionView::Send(ServerMessageView::ProposedUsername { username: name })],
                ),
                Err(code) => (phase, seq![error_reply(code, username_error_text(code))]),
            },
            _ => (
                phase,
                seq![error_reply(ErrorCode::UnexpectedMessage, "expected SetUsername message"@)],
            ),
        },
        PhaseView::AwaitingAcceptance { username } => match m {
            ClientMessageView::AcceptUsername { accepted } => if accepted {
                (
                    PhaseView::Reserving { username },
                    seq![ActionView::Reserve(username_key(username))],
                )
            } else {
                (PhaseView::AwaitingUsername, Seq::empty())
            },
            _ => (
                phase,
                seq![error_reply(ErrorCode::UnexpectedMessage, "expected AcceptUsername message"@)],
            ),
        },
        PhaseView::AwaitingRoom { username } => match m {
            ClientMessageView::JoinRoom { room } => match room_name_verdict(room) {
                Ok(name) => (
                    PhaseView::Joining { username, room: lowercase(name) },
                    seq![
                        ActionView::Subscribe(lowercase(name)),
                        ActionView::Send(
                            ServerMessageView::RoomJoinConfirmed { room: lowercase(name) },
                        ),
                    ],
                ),
                Err(code) => (phase, seq![error_reply(code, room_error_text(code))]),
            },
            _ => (
                phase,
                seq![error_reply(ErrorCode::UnexpectedMessage, "expected JoinRoom message"@)],
            ),
        },
        PhaseView::Chatting { username, room } => match m {
            ClientMessageView::ChatMessage { message } => match chat_message_verdict(message) {
                Ok(text) => (
                    phase,
                    seq![
                        ActionView::Publish(
                            ServerMessageView::ChatMessage { username, message: text },
                        ),
                    ],
                ),
                Err(code) => (phase, seq![error_reply(code, chat_error_text(code))]),
            },
            _ => (
                phase,
                seq![error_reply(ErrorCode::UnexpectedMessage, "unexpected message at this stage"@)],
            ),
        },
        _ => (phase, Seq::empty()),
    }
}

/// Whether a phase reads frames from the client.
pub open spec fn reads_client(phase: PhaseView) -> bool {
    ||| phase is AwaitingUsername
    ||| phase is AwaitingAcceptance
    ||| phase is AwaitingRoom
    ||| phase is Chatting
}

/// The next phase and the actions to perform, for an event in a phase. Events that
/// a phase does not wait for change nothing.
pub open spec fn transition_of(phase: PhaseView, event: EventView) -> (PhaseView, Seq<ActionView>) {
    match event {
        EventView::Proceed => match phase {
            PhaseView::Opened => (
                PhaseView::AwaitingUsername,
                seq![ActionView::Send(ServerMessageView::Welcome)],
            ),
            PhaseView::Joining { username, room } => (
                PhaseView::Chatting { username, room },
                seq![ActionView::Publish(ServerMessageView::UserJoined { username })],
            ),
            _ => (phase, Seq::empty()),
        },
        EventView::Client(r) => if reads_client(phase) {
            on_client(phase, r)
        } else {
            (phase, Seq::empty())
        },
        EventView::Reserved(free) => match phase {
            PhaseView::Reserving { username } => if free {
                (PhaseView::ListingRooms { username }, seq![ActionView::ListRooms])
            } else {
                (
                    PhaseView::AwaitingUsername,
                    seq![error_reply(ErrorCode::UsernameTaken, "username is already taken"@)],
                )
            },
            _ => (phase, Seq::empty()),
        },
        EventView::Rooms(rooms) => match phase {
            PhaseView::ListingRooms { username } => (
                PhaseView::AwaitingRoom { username },
                seq![ActionView::Send(ServerMessageView::RoomList { rooms })],
            ),
            _ => (phase, Seq::empty()),
        },
        EventView::Room(item) => match phase {
            PhaseView::Chatting { .. } => match forward_of(item) {
                Some(m) => (phase, seq![ActionView::Send(m)]),
                None => (PhaseView::Closed, leave_actions(phase)),
            },
            _ => (phase, Seq::empty()),
        },
        EventView::SendFailed => (PhaseView::Closed, leave_actions(phase)),
    }
}

fn one(a: SessionAction) -> (r: Vec<SessionAction>)
    ensures
        actions_view(r@) == seq![a@],
{
    let mut v = Vec::new();
    v.push(a);
    assert(actions_view(v@) =~= seq![a@]);
    v
}

fn two(a: SessionAction, b: SessionAction) -> (r: Vec<SessionAction>)
    ensures
        actions_view(r@) == seq![a@, b@],
{
    let mut v = Vec::new();
    v.push(a);
    v.push(b);
    assert(actions_view(v@) =~= seq![a@, b@]);
    v
}

fn none() -> (r: Vec<SessionAction>)
    ensures
        actions_view(r@) == Seq::<ActionView>::empty(),
{
    let v = Vec::new();
    assert(actions_view(v@) =~= Seq::<ActionView>::empty());
    v
}

fn error_action(code: ErrorCode, text: &str) -> (r: SessionAction)
    ensures
        r@ == error_reply(code, text@),
{
    SessionAction::Send(error_message(code, text))
}

/// The actions that leave a connection in `phase`.
fn leave(phase: Phase) -> (r: Vec<SessionAction>)
    ensures
        actions_view(r@) == leave_actions(phase@),
{
    let mut v: Vec<SessionAction> = Vec::new();
    match phase {
        Phase::ListingRooms { username } | Phase::AwaitingRoom { username } => {
            v.push(SessionAction::Release(to_lowercase(username.as_str())));
            v.push(SessionAction::Close);
        },
        Phase::Joining { username, room } => {
            v.push(SessionAction::Unsubscribe(room));
            v.push(SessionAction::Release(to_lowercase(username.as_str())));
            v.push(SessionAction::Close);
        },
        Phase::Chatting { username, room } => {
            let key = to_lowercase(username.as_str());
            v.push(SessionAction::Publish(ServerMessage::UserLeft { username }));
            v.push(SessionAction::Unsubscribe(room));
            v.push(SessionAction::Release(key));
            v.push(SessionAction::Close);
        },
        Phase::Closed => {},
        _ => {
            v.push(SessionAction::Close);
        },
    }
    assert(actions_view(v@) =~= leave_actions(phase@));
    v
}

fn frame_problem(r: Received<ClientMessage>) -> (a: Vec<SessionAction>)
    requires
        !(r is Message),
        !(r is Disconnected),
    ensures
        actions_view(a@) == frame_reply(r@),
{
    match r {
        Received::Unsupported => one(
            error_action(ErrorCode::UnsupportedMessage, "only text messages are supported"),
        ),
        Received::Invalid => one(error_action(ErrorCode::InvalidMessage, "invalid message format")),
        _ => none(),
    }
}

/// Enters the room `room` (already in its lower-case form): subscribes to it and
/// confirms it to the client.
pub fn joining(username: String, room: String) -> (r: (Phase, Vec<SessionAction>))
    ensures
        r.0@ == (PhaseView::Joining { username: username@, room: room@ }),
        actions_view(r.1@) == seq![
            ActionView::Subscribe(room@),
            ActionView::Send(ServerMessageView::RoomJoinConfirmed { room: room@ }),
        ],
{
    let confirm = ServerMessage::RoomJoinConfirmed { room: room.clone() };
    let actions = two(SessionAction::Subscribe(room.clone()), SessionAction::Send(confirm));
    (Phase::Joining { username, room }, actions)
}

fn message_step(phase: Phase, m: ClientMessage) -> (r: (Phase, Vec<SessionAction>))
    requires
        reads_client(phase@),
    ensures
        (r.0@, actions_view(r.1@)) == on_message(phase@, m@),
{
    match phase {
        Phase::AwaitingUsername => match m {
            ClientMessage::SetUsername { username } => match check_username(username.as_str()) {
                Ok(name) => {
                    let echo = ServerMessage::ProposedUsername { username: name.clone() };
                    (Phase::AwaitingAcceptance { username: name }, one(SessionAction::Send(echo)))
                },
                Err(code) => {
                    let text = match code {
                        ErrorCode::EmptyUsername => "username cannot be empty",
                        ErrorCode::UsernameTooLong => "username is too long",
                        _ => "username cannot contain control characters",
                    };
                    (Phase::AwaitingUsername, one(error_action(code, text)))
                },
            },
            _ => (
                Phase::AwaitingUsername,
                one(error_action(ErrorCode::UnexpectedMessage, "expected SetUsername message")),
            ),
        },
        Phase::AwaitingAcceptance { username } => match m {
            ClientMessage::AcceptUsername { accepted } => {
                if accepted {
                    let key = to_lowercase(username.as_str());
                    (Phase::Reserving { username }, one(SessionAction::Reserve(key)))
                } else {
                    (Phase::AwaitingUsername, none())
                }
            },
            _ => (
                Phase::AwaitingAcceptance { username },
                one(error_action(ErrorCode::UnexpectedMessage, "expected AcceptUsername message")),
            ),
        },
        Phase::AwaitingRoom { username } => match m {
            ClientMessage::JoinRoom { room } => match check_room_name(room.as_str()) {
                Ok(name) => joining(username, to_lowercase(name.as_str())),
                Err(code) => {
                    let text = match code {
                        ErrorCode::EmptyRoom => "room name cannot be empty",
                        ErrorCode::RoomNameTooLong => "room name is too long",
                        _ => "room name cannot contain control characters",
                    };
                    (Phase::AwaitingRoom { username }, one(error_action(code, text)))
                },
            },
            _ => (
                Phase::AwaitingRoom { username },
                one(error_action(ErrorCode::UnexpectedMessage, "expected JoinRoom message")),
            ),
        },
        Phase::Chatting { username, room } => match m {
            ClientMessage::ChatMessage { message } => match check_chat_message(message.as_str()) {
                Ok(text) => {
                    let chat = ServerMessage::ChatMessage { username: username.clone(), message: text };
                    (Phase::Chatting { username, room }, one(SessionAction::Publish(chat)))
                },
                Err(code) => {
                    let text = match code {
                        ErrorCode::MessageTooLarge => "message too large",
                        ErrorCode::EmptyChatMessage => "message cannot be empty",
                        _ => "message cannot contain control characters",
                    };
                    (Phase::Chatting { username, room }, one(error_action(code, text)))
                },
            },
            _ => (
                Phase::Chatting { username, room },
                one(error_action(ErrorCode::UnexpectedMessage, "unexpected message at this stage")),
            ),
        },
        _ => (phase, none()),
    }
}

/// Decides what an event means for a connection in `phase`: the next phase, and the
/// actions to perform in order. A `Send` that fails is reported as `SendFailed`, and the
/// actions after it are not performed.
pub fn transition(phase: Phase, event: SessionEvent) -> (r: (Phase, Vec<SessionAction>))
    ensures
        (r.0@, actions_view(r.1@)) == transition_of(phase@, event@),
{
    match event {
        SessionEvent::Proceed => match phase {
            Phase::Opened => (Phase::AwaitingUsername, one(SessionAction::Send(ServerMessage::Welcome))),
            Phase::Joining { username, room } => {
                let joined = ServerMessage::UserJoined { username: username.clone() };
                (Phase::Chatting { username, room }, one(SessionAction::Publish(joined)))
            },
            _ => (phase, none()),
        },
        SessionEvent::Client(r) => {
            let reads = match &phase {
                Phase::AwaitingUsername => true,
                Phase::AwaitingAcceptance { .. } => true,
                Phase::AwaitingRoom { .. } => true,
                Phase::Chatting { .. } => true,
                _ => false,
            };
            if !reads {
                (phase, none())
            } else {
                match r {
                    Received::Disconnected => (Phase::Closed, leave(phase)),
                    Received::Message(m) => message_step(phase, m),
                    other => (phase, frame_problem(other)),
                }
            }
        },
        SessionEvent::Reserved(free) => match phase {
            Phase::Reserving { username } => {
                if free {
                    (Phase::ListingRooms { username }, one(SessionAction::ListRooms))
                } else {
                    (
                        Phase::AwaitingUsername,
                        one(error_action(ErrorCode::UsernameTaken, "username is already taken")),
                    )
                }
            },
            _ => (phase, none()),
        },
        SessionEvent::Rooms(rooms) => match phase {
            Phase::ListingRooms { username } => (
                Phase::AwaitingRoom { username },
                one(SessionAction::Send(ServerMessage::RoomList { rooms })),
            ),
            _ => (phase, none()),
        },
        SessionEvent::Room(item) => match phase {
            Phase::Chatting { username, room } => match forward_broadcast_message(item) {
                Some(m) => (Phase::Chatting { username, room }, one(SessionAction::Send(m))),
                None => {
                    let p = Phase::Chatting { username, room };
                    let leaving = leave(p);
                    (Phase::Closed, leaving)
                },
            },
            _ => (phase, none()),
        },
        SessionEvent::SendFailed => (Phase::Closed, leave(phase)),
    }
}

/// Every chat message the server broadcasts comes from a client message received in
/// the chat, carries the sender's confirmed username, and is that message trimmed and
/// accepted by the chat message check; the check accepts it again unchanged.
pub proof fn law_published_chat_is_checked(phase: PhaseView, event: EventView, i: int)
    requires
        0 <= i < transition_of(phase, event).1.len(),
        transition_of(phase, event).1[i] matches ActionView::Publish(
            ServerMessageView::ChatMessage { .. },
        ),
    ensures
        ({
            let (username, message) = match transition_of(phase, event).1[i] {
                ActionView::Publish(ServerMessageView::ChatMessage { username, message }) => (
                    username,
                    message,
                ),
                _ => (Seq::empty(), Seq::empty()),
            };
            &&& phase matches PhaseView::Chatting { username: u, .. } && u == username
            &&& event matches EventView::Client(
                Received::Message(ClientMessageView::ChatMessage { message: raw }),
            ) && chat_message_verdict(raw) == Ok::<Seq<char>, ErrorCode>(message)
            &&& chat_message_verdict(message) == Ok::<Seq<char>, ErrorCode>(message)
        }),
{
    match event {
        EventView::Client(Received::Message(ClientMessageView::ChatMessage { message: raw })) => {
            if chat_message_verdict(raw) is Ok {
                crate::validation::law_chat_message_check_is_stable(raw);
            }
        },
        _ => {},
    }
}

/// Whether a phase holds a reserved username, and which.
pub open spec fn reserved_name(phase: PhaseView) -> Option<Seq<char>> {
    match phase {
        PhaseView::ListingRooms { username } => Some(username),
        PhaseView::AwaitingRoom { username } => Some(username),
        PhaseView::Joining { username, .. } => Some(username),
        PhaseView::Chatting { username, .. } => Some(username),
        _ => None,
    }
}

/// Whether a phase is subscribed to a room, and which.
pub open spec fn joined_room(phase: PhaseView) -> Option<Seq<char>> {
    match phase {
        PhaseView::Joining { room, .. } => Some(room),
        PhaseView::Chatting { room, .. } => Some(room),
        _ => None,
    }
}

/// When a connection ends, it ends cleanly: its username is freed, it leaves its room,
/// the others in the room hear that it left once they heard that it joined, and the
/// last action closes the connection.
pub proof fn law_closing_releases_everything(phase: PhaseView, event: EventView)
    requires
        !(phase is Closed),
        transition_of(phase, event).0 is Closed,
    ensures
        ({
            let actions = transition_of(phase, event).1;
            &&& actions.len() > 0 && actions.last() == ActionView::Close
            &&& reserved_name(phase) matches Some(u) ==> actions.contains(
                ActionView::Release(username_key(u)),
            )
            &&& joined_room(phase) matches Some(r) ==> actions.contains(ActionView::Unsubscribe(r))
            &&& phase matches PhaseView::Chatting { username, .. } ==> actions.contains(
                ActionView::Publish(ServerMessageView::UserLeft { username }),
            )
        }),
{
    let actions = transition_of(phase, event).1;
    assert(actions == leave_actions(phase));
    match phase {
        PhaseView::ListingRooms { username } => {
            assert(actions[0] == ActionView::Release(username_key(username)));
        },
        PhaseView::AwaitingRoom { username } => {
            assert(actions[0] == ActionView::Release(username_key(username)));
        },
        PhaseView::Joining { username, room } => {
            assert(actions[0] == ActionView::Unsubscribe(room));
            assert(actions[1] == ActionView::Release(username_key(username)));
        },
        PhaseView::Chatting { username, room } => {
            assert(actions[0] == ActionView::Publish(ServerMessageView::UserLeft { username }));
            assert(actions[1] == ActionView::Unsubscribe(room));
            assert(actions[2] == ActionView::Release(username_key(username)));
        },
        _ => {},
    }
}

/// The handshake keeps its order: a username is reserved only after the client accepted
/// it, a connection reaches room selection only with a username that was free, and it
/// joins a room only from room selection.
pub proof fn law_handshake_order(phase: PhaseView, event: EventView)
    ensures
        ({
            let next = transition_of(phase, event).0;
            &&& next is Reserving ==> phase is Reserving || (phase is AwaitingAcceptance
                && event matches EventView::Client(
                Received::Message(ClientMessageView::AcceptUsername { accepted: true }),
            ))
            &&& next is ListingRooms ==> phase is ListingRooms || (phase is Reserving && event
                == EventView::Reserved(true))
            &&& next is Joining ==> phase is Joining || phase is AwaitingRoom
            &&& next is Chatting ==> phase is Chatting || phase is Joining
        }),
{
}

/// A username is reserved, and later freed, under the lower-case key of the name the
/// client accepted, so two names that differ only in case cannot both be held.
pub proof fn law_reservation_keys(phase: PhaseView, event: EventView, i: int)
    requires
        0 <= i < transition_of(phase, event).1.len(),
    ensures
        transition_of(phase, event).1[i] matches ActionView::Reserve(k) ==> phase matches PhaseView::AwaitingAcceptance { username } && k == username_key(username),
        transition_of(phase, event).1[i] matches ActionView::Release(k) ==> reserved_name(
            phase,
        ) matches Some(u) && k == username_key(u),
{
}

/// The room a client joins is the lower-case form of the room name it asked for,
/// trimmed: room names are case-insensitive.
pub proof fn law_joined_room_is_normalized(phase: PhaseView, event: EventView)
    requires
        transition_of(phase, event).0 is Joining,
        !(phase is Joining),
    ensures
        event matches EventView::Client(Received::Message(ClientMessageView::JoinRoom { room: raw }))
            && room_name_verdict(raw) matches Ok(name) && transition_of(phase, event).0
            == (PhaseView::Joining { username: phase->AwaitingRoom_username, room: lowercase(name) }),
{
}

/// A chat message that is too large is refused with an error, and the client stays in
/// the room.
pub proof fn law_oversized_chat_keeps_connection(username: Seq<char>, room: Seq<char>, raw: Seq<char>)
    requires
        crate::text::utf8_len(crate::text::trim(raw)) > crate::protocol::MAX_CHAT_MESSAGE_LEN,
    ensures
        transition_of(
            PhaseView::Chatting { username, room },
            EventView::Client(Received::Message(ClientMessageView::ChatMessage { message: raw })),
        ) == (PhaseView::Chatting { username, room }, seq![
            error_reply(ErrorCode::MessageTooLarge, "message too large"@),
        ]),
{
}

/// A client that falls behind the room is told how many messages it missed and stays
/// in the room.
pub proof fn law_lagging_client_stays(username: Seq<char>, room: Seq<char>, count: u64)
    ensures
        transition_of(
            PhaseView::Chatting { username, room },
            EventView::Room(BroadcastView::Lagged(count)),
        ) == (PhaseView::Chatting { username, room }, seq![
            error_reply(ErrorCode::LaggedBehind, lag_text(count)),
        ]),
{
}

/// A frame that is not a usable message never ends a connection that reads frames: a
/// binary or malformed frame is answered with one error, a control frame with nothing,
/// and the phase stays as it was.
pub proof fn law_bad_frames_keep_connection(phase: PhaseView, r: Received<ClientMessageView>)
    requires
        reads_client(phase),
        r is Unsupported || r is Invalid || r is Ignored,
    ensures
        transition_of(phase, EventView::Client(r)).0 == phase,
        r is Unsupported ==> transition_of(phase, EventView::Client(r)).1 == seq![
            error_reply(ErrorCode::UnsupportedMessage, "only text messages are supported"@),
        ],
        r is Invalid ==> transition_of(phase, EventView::Client(r)).1 == seq![
            error_reply(ErrorCode::InvalidMessage, "invalid message format"@),
        ],
        r is Ignored ==> transition_of(phase, EventView::Client(r)).1 == Seq::<ActionView>::empty(),
{
}

/// Messages are broadcast to a room only by a connection that is in it: the
/// announcement that a user joined comes once it is subscribed, a chat message only
/// while it chats, and the announcement that it left before it unsubscribes.
pub proof fn law_publishing_happens_inside_the_room(phase: PhaseView, event: EventView, i: int)
    requires
        0 <= i < transition_of(phase, event).1.len(),
        transition_of(phase, event).1[i] is Publish,
    ensures
        joined_room(phase) is Some,
        transition_of(phase, event).1[i] matches ActionView::Publish(ServerMessageView::UserLeft { .. })
            ==> (forall|j: int| 0 <= j < i ==> !(#[trigger] transition_of(phase, event).1[j] is Unsubscribe)),
{
}

/// What a connection waits for follows from where it stands: it reads the client's
/// next frame in every phase of the handshake that expects one (a username, the answer
/// to the proposed username, a room), it waits for room traffic only while chatting, it
/// waits on the shared state only while reserving or listing rooms, and it is finished
/// only once closed. So a connection that holds a reserved username is never finished,
/// and a client that leaves while a frame is awaited closes the connection cleanly.
pub proof fn law_waiting_follows_the_phase(phase: PhaseView)
    ensures
        (awaiting_of(phase) == Awaiting::ClientFrame) <==> (reads_client(phase) && !(
        phase is Chatting)),
        (awaiting_of(phase) == Awaiting::ChatTraffic) <==> phase is Chatting,
        (awaiting_of(phase) == Awaiting::Reservation) <==> phase is Reserving,
        (awaiting_of(phase) == Awaiting::RoomList) <==> phase is ListingRooms,
        (awaiting_of(phase) == Awaiting::Proceed) <==> (phase is Opened || phase is Joining),
        (awaiting_of(phase) == Awaiting::Finished) <==> phase is Closed,
        reserved_name(phase) is Some ==> awaiting_of(phase) != Awaiting::Finished,
        awaiting_of(phase) == Awaiting::ClientFrame ==> transition_of(
            phase,
            EventView::Client(Received::Disconnected),
        ).0 == PhaseView::Closed && transition_of(
            phase,
            EventView::Client(Received::Disconnected),
        ).1 == leave_actions(phase),
{
}

} // verus!
