//! The client's connection lifecycle: what a connection attempt, a frame from the
//! server, a lost keyboard, or the end of a connection do to the client's state, and
//! how long to wait before the next attempt.
use vstd::prelude::*;

use crate::app::{
    event_for, handle_server_message, pushed_log, same_cache, same_view_state, stage_after, App, ChatEvent,
    ChatEventView, ClientStage, StageView,
};
use crate::protocol::{received_of, Frame, Received, ServerMessage, ServerMessageView};
use crate::text::{decimal, push_decimal, push_str};

verus! {

/// How a connection ended.
#[derive(Debug, Clone, Copy, PartialEq, Eq, Structural)]
pub enum RunOutcome {
    Quit,
    ConnectionFailed,
    Disconnected,
    InputFailed,
}

/// How a wait before reconnecting ended.
#[derive(Debug, Clone, Copy, PartialEq, Eq, Structural)]
pub enum RetryOutcome {
    Retry,
    Quit,
    InputFailed,
}

/// Why the client stops.
#[derive(Debug, Clone, Copy, PartialEq, Eq, Structural)]
pub enum ExitReason {
    UserQuit,
    InputFailed,
}

/// Classifies a frame read from the server.
pub fn receive_server_message(frame: Frame<ServerMessage>) -> (r: Received<ServerMessage>)
    ensures
        r == received_of(frame),
{
    match frame {
        Frame::Text(Some(m)) => Received::Message(m),
        Frame::Text(None) => Received::Invalid,
        Frame::Binary => Received::Unsupported,
        Frame::Control => Received::Ignored,
        Frame::Close => Received::Disconnected,
        Frame::Failed => Received::Disconnected,
        Frame::Ended => Received::Disconnected,
    }
}

/// Resets the client for a new connection attempt: not connected, empty input,
/// connecting.
pub fn begin_connection(app: &mut App)
    ensures
        !final(app).connected,
        final(app).input@ == Seq::<char>::empty(),
        final(app).stage@ == StageView::Connecting,
        final(app).messages == old(app).messages,
        final(app).total_messages_pushed == old(app).total_messages_pushed,
        final(app).message_scroll == old(app).message_scroll,
        final(app).max_message_scroll == old(app).max_message_scroll,
        final(app).theme == old(app).theme,
        same_cache(old(app), final(app)),
{
    app.connected = false;
    app.input = String::new();
    app.stage = ClientStage::Connecting;
}

/// The note logged when a connection attempt fails.
pub open spec fn connect_failure_note(timed_out: bool) -> Seq<char> {
    if timed_out {
        "Connection attempt timed out."@
    } else {
        "Couldn't reach the server."@
    }
}

/// Records a failed connection attempt: it either timed out or could not reach the
/// server.
pub fn connection_failed(app: &mut App, timed_out: bool) -> (r: RunOutcome)
    requires
        old(app).can_push(),
    ensures
        r == RunOutcome::ConnectionFailed,
        final(app).stage@ == StageView::Disconnected,
        final(app).connected == old(app).connected,
        final(app).log() == pushed_log(
            old(app).log(),
            ChatEventView::System(connect_failure_note(timed_out)),
        ),
        same_view_state(old(app), final(app)),
{
    let note = if timed_out {
        "Connection attempt timed out."
    } else {
        "Couldn't reach the server."
    };
    app.push_event(ChatEvent::System(note.to_owned()));
    app.stage = ClientStage::Disconnected;
    RunOutcome::ConnectionFailed
}

/// Whether the connection goes on after receiving `r` from the server.
pub open spec fn keeps_connection(r: Received<ServerMessageView>) -> bool {
    r is Message || r is Ignored
}

/// The note logged when a frame from the server ends the connection.
pub open spec fn ending_note(r: Received<ServerMessageView>) -> Seq<char> {
    if r is Disconnected {
        "Server closed the connection."@
    } else {
        "Received an unexpected message from the server. Connection lost."@
    }
}

/// Applies what was received from the server, and tells whether the connection goes
/// on. A frame that is not a valid message ends the connection: the client does not
/// go on with protocol state it cannot trust.
pub fn handle_incoming(app: &mut App, received: Received<ServerMessage>) -> (r: bool)
    requires
        old(app).can_push(),
    ensures
        r == keeps_connection(received@),
        received matches Received::Message(m) ==> final(app).log() == pushed_log(
            old(app).log(),
            event_for(m@),
        ) && final(app).stage@ == stage_after(old(app).stage@, m@),
        received is Ignored ==> final(app).log() == old(app).log() && final(app).stage == old(
            app,
        ).stage,
        !keeps_connection(received@) ==> final(app).log() == pushed_log(
            old(app).log(),
            ChatEventView::System(ending_note(received@)),
        ) && final(app).stage == old(app).stage && final(app).connected == old(app).connected,
        final(app).total_messages_pushed == old(app).total_messages_pushed + (if received is Ignored {
            0int
        } else {
            1int
        }),
        same_view_state(old(app), final(app)),
{
    match received {
        Received::Message(msg) => {
            handle_server_message(app, msg);
            true
        },
        Received::Ignored => true,
        Received::Unsupported | Received::Invalid => {
            app.push_event(
                ChatEvent::System(
                    "Received an unexpected message from the server. Connection lost.".to_owned(),
                ),
            );
            false
        },
        Received::Disconnected => {
            app.push_event(ChatEvent::System("Server closed the connection.".to_owned()));
            false
        },
    }
}

/// Records that the keyboard can no longer be read.
pub fn input_lost(app: &mut App)
    requires
        old(app).can_push(),
    ensures
        final(app).log() == pushed_log(
            old(app).log(),
            ChatEventView::System("The client can no longer receive keyboard input."@),
        ),
        final(app).stage == old(app).stage,
        final(app).connected == old(app).connected,
        same_view_state(old(app), final(app)),
{
    app.push_event(ChatEvent::System("The client can no longer receive keyboard input.".to_owned()));
}

/// Records the end of an established connection.
pub fn connection_lost(app: &mut App) -> (r: RunOutcome)
    ensures
        r == RunOutcome::Disconnected,
        !final(app).connected,
        final(app).stage@ == StageView::Disconnected,
        final(app).log() == old(app).log(),
        final(app).total_messages_pushed == old(app).total_messages_pushed,
        same_view_state(old(app), final(app)),
{
    app.connected = false;
    app.stage = ClientStage::Disconnected;
    RunOutcome::Disconnected
}

/// The first wait before reconnecting, in seconds.
pub const INITIAL_BACKOFF_SECS: u64 = 1;

/// The longest wait before reconnecting, in seconds.
pub const MAX_BACKOFF_SECS: u64 = 30;

/// The wait after `secs`: doubled, up to the cap.
pub open spec fn grown(secs: u64) -> u64 {
    if 2 * secs <= MAX_BACKOFF_SECS {
        (2 * secs) as u64
    } else {
        MAX_BACKOFF_SECS
    }
}

/// The wait before the next connection attempt, in seconds.
pub struct Backoff {
    secs: u64,
}

impl Backoff {
    #[verifier::type_invariant]
    spec fn in_range(self) -> bool {
        INITIAL_BACKOFF_SECS <= self.secs <= MAX_BACKOFF_SECS
    }

    /// The current wait, in seconds.
    pub closed spec fn spec_secs(self) -> u64 {
        self.secs
    }

    /// The first wait.
    pub fn new() -> (r: Backoff)
        ensures
            r.spec_secs() == INITIAL_BACKOFF_SECS,
    {
        Backoff { secs: INITIAL_BACKOFF_SECS }
    }

    /// The current wait, in seconds.
    pub fn secs(&self) -> (r: u64)
        ensures
            r == self.spec_secs(),
            INITIAL_BACKOFF_SECS <= r <= MAX_BACKOFF_SECS,
    {
        proof {
            use_type_invariant(self);
        }
        self.secs
    }

    /// Back to the first wait.
    pub fn reset(&mut self)
        ensures
            final(self).spec_secs() == INITIAL_BACKOFF_SECS,
    {
        self.secs = INITIAL_BACKOFF_SECS;
    }

    /// Doubles the wait, up to the cap.
    pub fn grow(&mut self)
        ensures
            final(self).spec_secs() == grown(old(self).spec_secs()),
    {
        proof {
            use_type_invariant(&*self);
        }
        let doubled = self.secs * 2;
        self.secs = if doubled <= MAX_BACKOFF_SECS {
            doubled
        } else {
            MAX_BACKOFF_SECS
        };
    }
}

/// What to do after a connection ended: stop, or wait this many seconds and try again.
#[derive(Debug, Clone, Copy, PartialEq, Eq, Structural)]
pub enum RunPlan {
    Exit(ExitReason),
    Wait(u64),
}

/// The note logged before waiting to reconnect.
pub open spec fn retry_note(secs: u64) -> Seq<char> {
    "Retrying in "@ + decimal(secs as nat) + "s..."@
}

/// Decides what follows a connection. Quitting or a lost keyboard stops the client.
/// Otherwise the client waits and tries again: after an established connection was
/// lost the wait starts over at one second, while after a failed attempt it is the
/// current wait.
pub fn plan_after_run(app: &mut App, outcome: RunOutcome, backoff: &mut Backoff) -> (r: RunPlan)
    requires
        old(app).can_push(),
    ensures
        outcome == RunOutcome::Quit ==> r == RunPlan::Exit(ExitReason::UserQuit),
        outcome == RunOutcome::InputFailed ==> r == RunPlan::Exit(ExitReason::InputFailed),
        outcome == RunOutcome::Disconnected ==> r == RunPlan::Wait(INITIAL_BACKOFF_SECS)
            && final(backoff).spec_secs() == INITIAL_BACKOFF_SECS,
        outcome == RunOutcome::ConnectionFailed ==> r == RunPlan::Wait(old(backoff).spec_secs())
            && final(backoff).spec_secs() == old(backoff).spec_secs(),
        r matches RunPlan::Wait(secs) ==> final(app).log() == pushed_log(
            old(app).log(),
            ChatEventView::System(retry_note(secs)),
        ),
        r is Exit ==> final(app).log() == old(app).log() && *final(backoff) == *old(backoff),
        final(app).stage == old(app).stage,
        final(app).connected == old(app).connected,
        same_view_state(old(app), final(app)),
{
    match outcome {
        RunOutcome::Quit => RunPlan::Exit(ExitReason::UserQuit),
        RunOutcome::InputFailed => RunPlan::Exit(ExitReason::InputFailed),
        RunOutcome::Disconnected | RunOutcome::ConnectionFailed => {
            if outcome == RunOutcome::Disconnected {
                backoff.reset();
            }
            let secs = backoff.secs();
            let mut note = "Retrying in ".to_owned();
            push_decimal(&mut note, secs);
            push_str(&mut note, "s...");
            app.push_event(ChatEvent::System(note));
            RunPlan::Wait(secs)
        },
    }
}

/// Decides what follows a wait: stop when the user quit or the keyboard was lost,
/// otherwise grow the wait for next time and try again.
pub fn plan_after_wait(outcome: RetryOutcome, backoff: &mut Backoff) -> (r: Option<ExitReason>)
    ensures
        outcome == RetryOutcome::Quit ==> r == Some(ExitReason::UserQuit) && *final(backoff)
            == *old(backoff),
        outcome == RetryOutcome::InputFailed ==> r == Some(ExitReason::InputFailed)
            && *final(backoff) == *old(backoff),
        outcome == RetryOutcome::Retry ==> r is None && final(backoff).spec_secs() == grown(
            old(backoff).spec_secs(),
        ),
{
    match outcome {
        RetryOutcome::Quit => Some(ExitReason::UserQuit),
        RetryOutcome::InputFailed => Some(ExitReason::InputFailed),
        RetryOutcome::Retry => {
            backoff.grow();
            None
        },
    }
}

/// The wait before the attempt that follows `n` failed attempts in a row, counted from
/// the first wait.
pub open spec fn wait_after_failures(n: nat) -> u64
    decreases n,
{
    if n == 0 {
        INITIAL_BACKOFF_SECS
    } else {
        grown(wait_after_failures((n - 1) as nat))
    }
}

/// Waits between failed attempts double, one second first, and never exceed thirty
/// seconds: 1, 2, 4, 8, 16, 30, 30, and so on.
pub proof fn law_backoff_doubles_to_cap(n: nat)
    ensures
        INITIAL_BACKOFF_SECS <= wait_after_failures(n) <= MAX_BACKOFF_SECS,
        wait_after_failures(n) == if n <= 4 {
            vstd::arithmetic::power2::pow2(n) as u64
        } else {
            MAX_BACKOFF_SECS
        },
    decreases n,
{
    vstd::arithmetic::power2::lemma2_to64();
    if n > 0 {
        law_backoff_doubles_to_cap((n - 1) as nat);
    }
}

} // verus!
