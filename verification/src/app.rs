//! The client's state: the message log, the input line, the scroll position, the
//! stage of the handshake, and how each message from the server changes them.
use vstd::prelude::*;

use crate::protocol::{ErrorCode, ServerMessage, ServerMessageView};
use crate::text::{join, join_strings, push_str, views};
use crate::theme::{next_theme, theme_label, ThemeName};

verus! {

/// The most entries the message log keeps; older ones are dropped.
pub const MAX_MESSAGES: usize = 200;

/// One entry of the message log.
#[derive(Debug, Clone, PartialEq, Eq)]
pub enum ChatEvent {
    System(String),
    Prompt(String),
    Chat { username: String, text: String },
    Joined { username: String },
    Left { username: String },
    Error(String),
}

/// A log entry with its strings taken as character sequences.
pub enum ChatEventView {
    System(Seq<char>),
    Prompt(Seq<char>),
    Chat { username: Seq<char>, text: Seq<char> },
    Joined { username: Seq<char> },
    Left { username: Seq<char> },
    Error(Seq<char>),
}

impl View for ChatEvent {
    type V = ChatEventView;

    open spec fn view(&self) -> ChatEventView {
        match self {
            ChatEvent::System(t) => ChatEventView::System(t@),
            ChatEvent::Prompt(t) => ChatEventView::Prompt(t@),
            ChatEvent::Chat { username, text } => ChatEventView::Chat {
                username: username@,
                text: text@,
            },
            ChatEvent::Joined { username } => ChatEventView::Joined { username: username@ },
            ChatEvent::Left { username } => ChatEventView::Left { username: username@ },
            ChatEvent::Error(t) => ChatEventView::Error(t@),
        }
    }
}

/// Where the client stands in the handshake with the server.
#[derive(Debug, Clone, PartialEq, Eq)]
pub enum ClientStage {
    Connecting,
    SetUsername,
    ConfirmUsername { confirmed_username: String },
    SelectRoom,
    JoiningRoom { room: String },
    Chatting { room: String },
    Disconnected,
}

/// A stage with its strings taken as character sequences.
pub enum StageView {
    Connecting,
    SetUsername,
    ConfirmUsername { confirmed_username: Seq<char> },
    SelectRoom,
    JoiningRoom { room: Seq<char> },
    Chatting { room: Seq<char> },
    Disconnected,
}

impl View for ClientStage {
    type V = StageView;

    open spec fn view(&self) -> StageView {
        match self {
            ClientStage::Connecting => StageView::Connecting,
            ClientStage::SetUsername => StageView::SetUsername,
            ClientStage::ConfirmUsername { confirmed_username } => StageView::ConfirmUsername {
                confirmed_username: confirmed_username@,
            },
            ClientStage::SelectRoom => StageView::SelectRoom,
            ClientStage::JoiningRoom { room } => StageView::JoiningRoom { room: room@ },
            ClientStage::Chatting { room } => StageView::Chatting { room: room@ },
            ClientStage::Disconnected => StageView::Disconnected,
        }
    }
}

/// The client's state. The `cached_` fields remember the rendered message log
/// between frames.
pub struct App {
    pub input: String,
    pub messages: Vec<ChatEvent>,
    pub message_scroll: usize,
    pub max_message_scroll: usize,
    pub connected: bool,
    pub stage: ClientStage,
    pub total_messages_pushed: usize,
    pub theme: ThemeName,
    pub cached_full_text: String,
    pub cached_content_lines: usize,
    pub cached_width: u16,
    pub cached_generation: usize,
    pub cached_padded_text: String,
    pub cached_leading_padding: usize,
}

/// Log entries taken by their views.
pub open spec fn log_view(messages: Seq<ChatEvent>) -> Seq<ChatEventView> {
    messages.map_values(|e: ChatEvent| e@)
}

/// The log after appending `event`: when it grows past the limit, its oldest entry goes.
pub open spec fn pushed_log(log: Seq<ChatEventView>, event: ChatEventView) -> Seq<ChatEventView> {
    if log.len() + 1 > MAX_MESSAGES {
        log.push(event).drop_first()
    } else {
        log.push(event)
    }
}

/// Whether two states hold the same rendered-log cache.
pub open spec fn same_cache(a: &App, b: &App) -> bool {
    &&& a.cached_full_text == b.cached_full_text
    &&& a.cached_content_lines == b.cached_content_lines
    &&& a.cached_width == b.cached_width
    &&& a.cached_generation == b.cached_generation
    &&& a.cached_padded_text == b.cached_padded_text
    &&& a.cached_leading_padding == b.cached_leading_padding
}

/// Whether two states agree on everything but the log, the push counter, the
/// connection flag and the stage.
pub open spec fn same_view_state(a: &App, b: &App) -> bool {
    &&& a.input == b.input
    &&& a.message_scroll == b.message_scroll
    &&& a.max_message_scroll == b.max_message_scroll
    &&& a.theme == b.theme
    &&& same_cache(a, b)
}

impl App {
    /// The message log, taken by its views.
    pub open spec fn log(&self) -> Seq<ChatEventView> {
        log_view(self.messages@)
    }

    /// Whether one more entry can be logged without the push counter overflowing.
    pub open spec fn can_push(&self) -> bool {
        self.total_messages_pushed < usize::MAX
    }

    /// A fresh client: connecting, with an empty log and input, the first theme.
    pub fn new() -> (r: App)
        ensures
            r.log() == Seq::<ChatEventView>::empty(),
            r.input@ == Seq::<char>::empty(),
            r.stage@ == StageView::Connecting,
            !r.connected,
            r.theme == ThemeName::Catppuccin,
            r.message_scroll == 0,
            r.max_message_scroll == 0,
            r.total_messages_pushed == 0,
            r.cached_generation == 0,
            r.cached_width == 0,
            r.cached_content_lines == 0,
            r.cached_leading_padding == 0,
            r.cached_full_text@ == Seq::<char>::empty(),
            r.cached_padded_text@ == Seq::<char>::empty(),
    {
        let r = App {
            input: String::new(),
            messages: Vec::new(),
            message_scroll: 0,
            max_message_scroll: 0,
            connected: false,
            stage: ClientStage::Connecting,
            total_messages_pushed: 0,
            theme: ThemeName::Catppuccin,
            cached_full_text: String::new(),
            cached_content_lines: 0,
            cached_width: 0,
            cached_generation: 0,
            cached_padded_text: String::new(),
            cached_leading_padding: 0,
        };
        assert(r.log() =~= Seq::<ChatEventView>::empty());
        r
    }

    /// Appends an entry to the log, dropping the oldest when the log is full.
    pub fn push_event(&mut self, event: ChatEvent)
        requires
            old(self).can_push(),
        ensures
            final(self).log() == pushed_log(old(self).log(), event@),
            final(self).total_messages_pushed == old(self).total_messages_pushed + 1,
            final(self).connected == old(self).connected,
            final(self).stage == old(self).stage,
            same_view_state(old(self), final(self)),
            old(self).messages.len() <= MAX_MESSAGES ==> final(self).messages.len()
                <= MAX_MESSAGES,
    {
        let ghost before = self.log();
        let ghost e = event@;
        self.messages.push(event);
        self.total_messages_pushed += 1;
        if self.messages.len() > MAX_MESSAGES {
            self.messages.remove(0);
            assert(self.log() =~= before.push(e).drop_first());
        } else {
            assert(self.log() =~= before.push(e));
        }
    }

    /// Scrolls the log one line towards older entries, no further than the top.
    pub fn scroll_messages_up(&mut self)
        ensures
            final(self).message_scroll == if old(self).message_scroll + 1
                <= old(self).max_message_scroll {
                old(self).message_scroll + 1
            } else {
                old(self).max_message_scroll as int
            },
            final(self).max_message_scroll == old(self).max_message_scroll,
            final(self).input == old(self).input,
            final(self).messages == old(self).messages,
            final(self).stage == old(self).stage,
            final(self).connected == old(self).connected,
            final(self).theme == old(self).theme,
            final(self).total_messages_pushed == old(self).total_messages_pushed,
            same_cache(old(self), final(self)),
    {
        let up = self.message_scroll.saturating_add(1);
        self.message_scroll = if up < self.max_message_scroll {
            up
        } else {
            self.max_message_scroll
        };
    }

    /// Scrolls the log one line towards newer entries, no further than the bottom.
    pub fn scroll_messages_down(&mut self)
        ensures
            final(self).message_scroll == if old(self).message_scroll > 0 {
                old(self).message_scroll - 1
            } else {
                0
            },
            final(self).max_message_scroll == old(self).max_message_scroll,
            final(self).input == old(self).input,
            final(self).messages == old(self).messages,
            final(self).stage == old(self).stage,
            final(self).connected == old(self).connected,
            final(self).theme == old(self).theme,
            final(self).total_messages_pushed == old(self).total_messages_pushed,
            same_cache(old(self), final(self)),
    {
        self.message_scroll = self.message_scroll.saturating_sub(1);
    }

    /// Switches to the next theme and says so in the log.
    pub fn cycle_theme(&mut self)
        requires
            old(self).can_push(),
        ensures
            final(self).theme == next_theme(old(self).theme),
            final(self).log() == pushed_log(
                old(self).log(),
                ChatEventView::System("Theme switched to "@ + theme_label(next_theme(old(self).theme))),
            ),
            final(self).total_messages_pushed == old(self).total_messages_pushed + 1,
            final(self).connected == old(self).connected,
            final(self).stage == old(self).stage,
            final(self).input == old(self).input,
            final(self).message_scroll == old(self).message_scroll,
            final(self).max_message_scroll == old(self).max_message_scroll,
            same_cache(old(self), final(self)),
    {
        self.theme = self.theme.next();
        let mut text = "Theme switched to ".to_owned();
        push_str(&mut text, self.theme.label());
        self.push_event(ChatEvent::System(text));
    }
}

impl Default for App {
    /// A fresh client, as `App::new` makes it.
    fn default() -> (r: App)
        ensures
            r.log() == Seq::<ChatEventView>::empty(),
            r.input@ == Seq::<char>::empty(),
            r.stage@ == StageView::Connecting,
            !r.connected,
            r.theme == ThemeName::Catppuccin,
            r.message_scroll == 0,
            r.max_message_scroll == 0,
            r.total_messages_pushed == 0,
            r.cached_generation == 0,
            r.cached_width == 0,
            r.cached_content_lines == 0,
            r.cached_leading_padding == 0,
            r.cached_full_text@ == Seq::<char>::empty(),
            r.cached_padded_text@ == Seq::<char>::empty(),
    {
        App::new()
    }
}

/// The text that lists the rooms a client can join.
pub open spec fn room_list_text(rooms: Seq<Seq<char>>) -> Seq<char> {
    "Available rooms: "@ + if rooms.len() == 0 {
        "none yet, you can create one by typing its name"@
    } else {
        join(rooms, ", "@)
    }
}

/// The log entry that a message from the server adds.
pub open spec fn event_for(msg: ServerMessageView) -> ChatEventView {
    match msg {
        ServerMessageView::Welcome => ChatEventView::System(
            "Connected to the server please provide the username u wanna go with:"@,
        ),
        ServerMessageView::ProposedUsername { username } => ChatEventView::Prompt(
            "Confirm username '"@ + username + "'? (y/n)"@,
        ),
        ServerMessageView::RoomList { rooms } => ChatEventView::System(room_list_text(rooms)),
        ServerMessageView::RoomJoinConfirmed { room } => ChatEventView::System(
            "Joined room "@ + room,
        ),
        ServerMessageView::ChatMessage { username, message } => ChatEventView::Chat {
            username,
            text: message,
        },
        ServerMessageView::UserJoined { username } => ChatEventView::Joined { username },
        ServerMessageView::UserLeft { username } => ChatEventView::Left { username },
        ServerMessageView::Error { message, .. } => ChatEventView::Error(
            "Error from server: "@ + message,
        ),
    }
}

/// Whether an error code concerns the proposed username.
pub open spec fn is_username_error(code: ErrorCode) -> bool {
    ||| code == ErrorCode::EmptyUsername
    ||| code == ErrorCode::UsernameTooLong
    ||| code == ErrorCode::UsernameTaken
}

/// The stage a message from the server leads to. An error while joining a room always
/// returns to room selection, whatever its code; otherwise an error about the username
/// returns to entering a username, and other errors leave the stage as it is.
pub open spec fn stage_after(stage: StageView, msg: ServerMessageView) -> StageView {
    match msg {
        ServerMessageView::Welcome => StageView::SetUsername,
        ServerMessageView::ProposedUsername { username } => StageView::ConfirmUsername {
            confirmed_username: username,
        },
        ServerMessageView::RoomList { .. } => StageView::SelectRoom,
        ServerMessageView::RoomJoinConfirmed { room } => StageView::Chatting { room },
        ServerMessageView::Error { code, .. } => if stage is JoiningRoom {
            StageView::SelectRoom
        } else if is_username_error(code) {
            StageView::SetUsername
        } else {
            stage
        },
        _ => stage,
    }
}

/// Applies a message from the server: it is logged, and it moves the stage on.
pub fn handle_server_message(app: &mut App, msg: ServerMessage)
    requires
        old(app).can_push(),
    ensures
        final(app).log() == pushed_log(old(app).log(), event_for(msg@)),
        final(app).stage@ == stage_after(old(app).stage@, msg@),
        final(app).connected == (old(app).connected || msg is Welcome),
        final(app).total_messages_pushed == old(app).total_messages_pushed + 1,
        same_view_state(old(app), final(app)),
{
    match msg {
        ServerMessage::Welcome => {
            app.connected = true;
            app.push_event(
                ChatEvent::System(
                    "Connected to the server please provide the username u wanna go with:".to_owned(),
                ),
            );
            app.stage = ClientStage::SetUsername;
        },
        ServerMessage::ProposedUsername { username } => {
            let mut text = "Confirm username '".to_owned();
            push_str(&mut text, username.as_str());
            push_str(&mut text, "'? (y/n)");
            app.push_event(ChatEvent::Prompt(text));
            app.stage = ClientStage::ConfirmUsername { confirmed_username: username };
        },
        ServerMessage::RoomList { rooms } => {
            let room_list = if rooms.len() == 0 {
                "none yet, you can create one by typing its name".to_owned()
            } else {
                join_strings(&rooms, ", ")
            };
            let mut text = "Available rooms: ".to_owned();
            push_str(&mut text, room_list.as_str());
            assert(text@ == room_list_text(views(rooms@)));
            app.push_event(ChatEvent::System(text));
            app.stage = ClientStage::SelectRoom;
        },
        ServerMessage::RoomJoinConfirmed { room } => {
            let mut text = "Joined room ".to_owned();
            push_str(&mut text, room.as_str());
            app.push_event(ChatEvent::System(text));
            app.stage = ClientStage::Chatting { room };
        },
        ServerMessage::ChatMessage { username, message } => {
            app.push_event(ChatEvent::Chat { username, text: message });
        },
        ServerMessage::UserJoined { username } => {
            app.push_event(ChatEvent::Joined { username });
        },
        ServerMessage::UserLeft { username } => {
            app.push_event(ChatEvent::Left { username });
        },
        ServerMessage::Error { code, message } => {
            let joining = match &app.stage {
                ClientStage::JoiningRoom { .. } => true,
                _ => false,
            };
            if joining {
                app.stage = ClientStage::SelectRoom;
            } else {
                match code {
                    ErrorCode::EmptyUsername | ErrorCode::UsernameTooLong
                    | ErrorCode::UsernameTaken => {
                        app.stage = ClientStage::SetUsername;
                    },
                    _ => {},
                }
            }
            let mut text = "Error from server: ".to_owned();
            push_str(&mut text, message.as_str());
            app.push_event(ChatEvent::Error(text));
        },
    }
}

/// Marks the connection as lost, with the reason in the log.
pub fn mark_disconnected(app: &mut App, reason: &str)
    requires
        old(app).can_push(),
    ensures
        !final(app).connected,
        final(app).stage@ == StageView::Disconnected,
        final(app).log() == pushed_log(old(app).log(), ChatEventView::System(reason@)),
        final(app).total_messages_pushed == old(app).total_messages_pushed + 1,
        same_view_state(old(app), final(app)),
{
    app.connected = false;
    app.stage = ClientStage::Disconnected;
    app.push_event(ChatEvent::System(reason.to_owned()));
}

/// The log never holds more than its limit: a log within it stays within it, however
/// many entries are pushed.
pub proof fn law_log_is_bounded(log: Seq<ChatEventView>, event: ChatEventView)
    requires
        log.len() <= MAX_MESSAGES,
    ensures
        pushed_log(log, event).len() <= MAX_MESSAGES,
        pushed_log(log, event).last() == event,
        log.len() < MAX_MESSAGES ==> pushed_log(log, event) == log.push(event),
{
}

/// A rejection that arrives while joining a room always returns to room selection,
/// whatever its code and text.
pub proof fn law_join_rejection_returns_to_room_selection(
    room: Seq<char>,
    code: ErrorCode,
    message: Seq<char>,
)
    ensures
        stage_after(StageView::JoiningRoom { room }, ServerMessageView::Error { code, message })
            == StageView::SelectRoom,
{
}

/// Outside of joining a room, a username rejection returns to entering a username.
pub proof fn law_username_rejection_returns_to_entry(
    stage: StageView,
    code: ErrorCode,
    message: Seq<char>,
)
    requires
        !(stage is JoiningRoom),
        is_username_error(code),
    ensures
        stage_after(stage, ServerMessageView::Error { code, message }) == StageView::SetUsername,
{
}

/// An error from the server that is not about the username leaves the stage as it is,
/// unless the client was joining a room: a chat message refused as empty or too large,
/// a lag notice, a malformed or unexpected message, or a refused room name is only
/// logged, and a chatting client stays in its room.
pub proof fn law_other_errors_keep_the_stage(stage: StageView, code: ErrorCode, message: Seq<char>)
    requires
        !(stage is JoiningRoom),
        code != ErrorCode::EmptyUsername,
        code != ErrorCode::UsernameTooLong,
        code != ErrorCode::UsernameTaken,
    ensures
        stage_after(stage, ServerMessageView::Error { code, message }) == stage,
        stage matches StageView::Chatting { room } ==> stage_after(
            stage,
            ServerMessageView::Error { code, message },
        ) == (StageView::Chatting { room }),
{
}

} // verus!
