//! The wire messages that client and server exchange, the outcome of receiving one,
//! and the limits that both sides enforce.
use vstd::prelude::*;

use crate::text::views;

verus! {

/// A message from a client to the server.
#[derive(Debug, Clone, PartialEq, Eq)]
pub enum ClientMessage {
    SetUsername { username: String },
    AcceptUsername { accepted: bool },
    JoinRoom { room: String },
    ChatMessage { message: String },
}

/// A message from the server to a client.
#[derive(Debug, Clone, PartialEq, Eq)]
pub enum ServerMessage {
    Welcome,
    ProposedUsername { username: String },
    RoomList { rooms: Vec<String> },
    RoomJoinConfirmed { room: String },
    ChatMessage { username: String, message: String },
    UserJoined { username: String },
    UserLeft { username: String },
    Error { code: ErrorCode, message: String },
}

/// The machine-readable reason of an error reply.
#[derive(Debug, Clone, Copy, PartialEq, Eq, Structural)]
pub enum ErrorCode {
    InvalidMessage,
    UnexpectedMessage,
    EmptyUsername,
    UsernameTooLong,
    UsernameTaken,
    EmptyRoom,
    RoomNameTooLong,
    EmptyChatMessage,
    UnsupportedMessage,
    MessageTooLarge,
    LaggedBehind,
}

/// What receiving one frame gave.
#[derive(Debug, Clone, PartialEq, Eq)]
pub enum Received<T> {
    Message(T),
    Ignored,
    Unsupported,
    Invalid,
    Disconnected,
}

/// The longest username, in characters.
pub const MAX_USERNAME_LEN: usize = 64;

/// The longest room name, in characters.
pub const MAX_ROOM_NAME_LEN: usize = 64;

/// The largest chat message, in UTF-8 bytes.
pub const MAX_CHAT_MESSAGE_LEN: usize = 4096;

/// A client message with its strings taken as character sequences.
pub enum ClientMessageView {
    SetUsername { username: Seq<char> },
    AcceptUsername { accepted: bool },
    JoinRoom { room: Seq<char> },
    ChatMessage { message: Seq<char> },
}

/// A server message with its strings taken as character sequences.
pub enum ServerMessageView {
    Welcome,
    ProposedUsername { username: Seq<char> },
    RoomList { rooms: Seq<Seq<char>> },
    RoomJoinConfirmed { room: Seq<char> },
    ChatMessage { username: Seq<char>, message: Seq<char> },
    UserJoined { username: Seq<char> },
    UserLeft { username: Seq<char> },
    Error { code: ErrorCode, message: Seq<char> },
}

impl View for ClientMessage {
    type V = ClientMessageView;

    open spec fn view(&self) -> ClientMessageView {
        match self {
            ClientMessage::SetUsername { username } => ClientMessageView::SetUsername {
                username: username@,
            },
            ClientMessage::AcceptUsername { accepted } => ClientMessageView::AcceptUsername {
                accepted: *accepted,
            },
            ClientMessage::JoinRoom { room } => ClientMessageView::JoinRoom { room: room@ },
            ClientMessage::ChatMessage { message } => ClientMessageView::ChatMessage {
                message: message@,
            },
        }
    }
}

impl View for ServerMessage {
    type V = ServerMessageView;

    open spec fn view(&self) -> ServerMessageView {
        match self {
            ServerMessage::Welcome => ServerMessageView::Welcome,
            ServerMessage::ProposedUsername { username } => ServerMessageView::ProposedUsername {
                username: username@,
            },
            ServerMessage::RoomList { rooms } => ServerMessageView::RoomList {
                rooms: views(rooms@),
            },
            ServerMessage::RoomJoinConfirmed { room } => ServerMessageView::RoomJoinConfirmed {
                room: room@,
            },
            ServerMessage::ChatMessage { username, message } => ServerMessageView::ChatMessage {
                username: username@,
                message: message@,
            },
            ServerMessage::UserJoined { username } => ServerMessageView::UserJoined {
                username: username@,
            },
            ServerMessage::UserLeft { username } => ServerMessageView::UserLeft {
                username: username@,
            },
            ServerMessage::Error { code, message } => ServerMessageView::Error {
                code: *code,
                message: message@,
            },
        }
    }
}

impl<T: View> View for Received<T> {
    type V = Received<T::V>;

    open spec fn view(&self) -> Received<T::V> {
        match self {
            Received::Message(m) => Received::Message(m@),
            Received::Ignored => Received::Ignored,
            Received::Unsupported => Received::Unsupported,
            Received::Invalid => Received::Invalid,
            Received::Disconnected => Received::Disconnected,
        }
    }
}

/// One item read from a WebSocket, with a text frame already parsed: `Text(None)`
/// is a text frame that did not parse as a message.
#[derive(Debug, Clone, PartialEq, Eq)]
pub enum Frame<T> {
    Text(Option<T>),
    Binary,
    Close,
    Control,
    Failed,
    Ended,
}

/// What receiving a frame amounts to: a parsed message, a text frame that did not
/// parse, a binary frame that is not supported, a control frame that is ignored, or the end
/// of the connection.
pub open spec fn received_of<T>(frame: Frame<T>) -> Received<T> {
    match frame {
        Frame::Text(Some(m)) => Received::Message(m),
        Frame::Text(None) => Received::Invalid,
        Frame::Binary => Received::Unsupported,
        Frame::Control => Received::Ignored,
        Frame::Close | Frame::Failed | Frame::Ended => Received::Disconnected,
    }
}

/// The error reply with the given code and text.
pub fn error_message(code: ErrorCode, message: &str) -> (r: ServerMessage)
    ensures
        r@ == (ServerMessageView::Error { code, message: message@ }),
{
    ServerMessage::Error { code, message: message.to_owned() }
}

} // verus!
