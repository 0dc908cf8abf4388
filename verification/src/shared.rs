//! The state that all connections of the server share: the reserved usernames, and
//! the rooms with their broadcast channels. Every connection changes it concurrently,
//! so what a call on it returns depends on the other connections too: nothing is
//! claimed of those results, and the session takes them as events. What is claimed is
//! which calls a connection makes on it, with which keys, rooms and messages: each
//! operation hands back a ghost record of the call it made.
use std::sync::Arc;

use dashmap::DashMap;
use tokio::sync::broadcast::{Receiver, Sender};
use vstd::prelude::*;

use crate::protocol::{ServerMessage, ServerMessageView};
use crate::server::{ActionView, SessionAction, SessionEvent};
use crate::text::views;

verus! {

/// `dashmap::DashMap`, a concurrent hash map.
#[verifier::external_type_specification]
#[verifier::external_body]
#[verifier::reject_recursive_types(K)]
#[verifier::reject_recursive_types(V)]
#[verifier::reject_recursive_types(S)]
pub struct ExDashMap<K, V, S>(DashMap<K, V, S>);

/// `tokio::sync::broadcast::Sender`, the sending half of a broadcast channel.
#[verifier::external_type_specification]
#[verifier::external_body]
#[verifier::reject_recursive_types(T)]
pub struct ExSender<T>(Sender<T>);

/// `tokio::sync::broadcast::Receiver`, a subscription to a broadcast channel.
#[verifier::external_type_specification]
#[verifier::external_body]
#[verifier::reject_recursive_types(T)]
pub struct ExReceiver<T>(Receiver<T>);

/// How many messages a room's channel holds for a subscriber that falls behind.
pub const ROOM_CHANNEL_CAPACITY: usize = 256;

/// A call made on the shared state, with what was handed to it.
pub enum SharedCall {
    /// The username key was reserved, if nobody held it.
    Reserve(Seq<char>),
    /// The username key was freed.
    Release(Seq<char>),
    /// The room was joined, created with a channel of this capacity if it did not exist.
    Join { room: Seq<char>, capacity: usize },
    /// The room was left, and removed if nobody was left in it.
    Leave(Seq<char>),
    /// The message was broadcast on the channel of the room.
    Publish { room: Seq<char>, message: ServerMessageView },
}

/// `DashMap::new`: an empty map.
#[verifier::external_body]
fn new_username_map() -> (r: DashMap<String, ()>) {
    DashMap::new()
}

/// `DashMap::new`: an empty map.
#[verifier::external_body]
fn new_room_map() -> (r: DashMap<String, Sender<ServerMessage>>) {
    DashMap::new()
}

/// `DashMap::insert`: stores `key`, and returns the value it held before, if any.
/// Other connections insert and remove concurrently, so nothing is stated of that
/// value; the ghost part of the result is the key handed to `insert`.
#[verifier::external_body]
fn insert_username(usernames: &DashMap<String, ()>, key: String) -> (r: (Option<()>, Ghost<Seq<char>>))
    ensures
        r.1@ == key@,
{
    let handed = Ghost(key@);
    (usernames.insert(key, ()), handed)
}

/// `DashMap::remove`: forgets `key`. The result is the key handed to `remove`.
#[verifier::external_body]
fn remove_username(usernames: &DashMap<String, ()>, key: &String) -> (r: Ghost<Seq<char>>)
    ensures
        r@ == key@,
{
    usernames.remove(key);
    Ghost(key@)
}

/// `DashMap::iter`: the keys held at the moment of the call, in the map's own order.
/// The walk reads each shard once under its read lock, and a key lives in one shard
/// only, so no key is given twice; which keys are held is not stated, since other
/// connections add and remove rooms concurrently.
#[verifier::external_body]
fn room_keys(rooms: &DashMap<String, Sender<ServerMessage>>) -> (r: Vec<String>)
    ensures
        views(r@).no_duplicates(),
{
    rooms.iter().map(|entry| entry.key().clone()).collect()
}

/// `DashMap::entry` with `Entry::or_insert`, `broadcast::channel` and
/// `Sender::subscribe`: while the room's entry is locked, stores a new channel of
/// `capacity` under `room` when the room does not exist, and subscribes to the room's
/// channel. The result is the room's sender, the subscription, and the room and
/// capacity handed on.
#[verifier::external_body]
fn join_room(
    rooms: &DashMap<String, Sender<ServerMessage>>,
    room: String,
    capacity: usize,
) -> (r: (Sender<ServerMessage>, Receiver<ServerMessage>, Ghost<(Seq<char>, usize)>))
    requires
        0 < capacity <= usize::MAX / 2,
    ensures
        r.2@ == (room@, capacity),
{
    let handed = Ghost((room@, capacity));
    let entry = rooms.entry(room).or_insert(tokio::sync::broadcast::channel(capacity).0);
    let sender = entry.value().clone();
    let receiver = sender.subscribe();
    (sender, receiver, handed)
}

/// `Sender::send`: broadcasts a message to every subscriber; when there is none, the
/// message is dropped. The result is the message handed to `send`.
#[verifier::external_body]
fn send_to_room(tx: &Sender<ServerMessage>, msg: ServerMessage) -> (r: Ghost<ServerMessageView>)
    ensures
        r@ == msg@,
{
    let handed = Ghost(msg@);
    let _ = tx.send(msg);
    handed
}

/// `Sender::receiver_count`: the number of subscriptions at the moment of the call.
#[verifier::external_body]
fn receiver_count(tx: &Sender<ServerMessage>) -> (r: usize) {
    tx.receiver_count()
}

/// Whether a subscriber count means that nobody is subscribed.
pub fn no_subscribers(count: usize) -> (r: bool)
    ensures
        r == (count == 0),
{
    count == 0
}

/// Whether nobody is subscribed to a room's channel any more, by the count at the
/// moment of the call.
pub fn has_no_subscribers(tx: &Sender<ServerMessage>) -> (r: bool) {
    let count = receiver_count(tx);
    no_subscribers(count)
}

/// `DashMap::remove_if`: removes `room` if nobody is subscribed to it any more. The
/// result is the room handed to `remove_if`.
#[verifier::external_body]
fn remove_room_if_empty(rooms: &DashMap<String, Sender<ServerMessage>>, room: &String) -> (r: Ghost<Seq<char>>)
    ensures
        r@ == room@,
{
    rooms.remove_if(room, |_, tx| has_no_subscribers(tx));
    Ghost(room@)
}

/// The state that all connections share.
pub struct SharedState {
    rooms: Arc<DashMap<String, Sender<ServerMessage>>>,
    usernames: Arc<DashMap<String, ()>>,
}

/// A connection's place in a room: the room's name, its sender for publishing, and
/// the connection's subscription.
pub struct Membership {
    pub room: String,
    pub sender: Sender<ServerMessage>,
    pub receiver: Receiver<ServerMessage>,
}

impl SharedState {
    /// No rooms and no reserved usernames.
    pub fn new() -> (r: SharedState) {
        SharedState { rooms: Arc::new(new_room_map()), usernames: Arc::new(new_username_map()) }
    }

    /// Another handle on the same state.
    pub fn share(&self) -> (r: SharedState)
        ensures
            r == *self,
    {
        SharedState { rooms: Arc::clone(&self.rooms), usernames: Arc::clone(&self.usernames) }
    }

    /// Reserves the username key `key`; true when nobody held it. The ghost part is the
    /// call made.
    pub fn try_reserve(&self, key: String) -> (r: (bool, Ghost<SharedCall>))
        ensures
            r.1@ == SharedCall::Reserve(key@),
    {
        let (previous, handed) = insert_username(&self.usernames, key);
        let call = Ghost(SharedCall::Reserve(handed@));
        (previous.is_none(), call)
    }

    /// Frees the username key `key`.
    pub fn release(&self, key: &String) -> (r: Ghost<SharedCall>)
        ensures
            r@ == SharedCall::Release(key@),
    {
        let handed = remove_username(&self.usernames, key);
        Ghost(SharedCall::Release(handed@))
    }

    /// The names of the rooms that exist now, each once.
    pub fn room_names(&self) -> (r: Vec<String>)
        ensures
            views(r@).no_duplicates(),
    {
        room_keys(&self.rooms)
    }

    /// Joins the room `room`, creating it with a channel of its own capacity when it does
    /// not exist yet.
    pub fn join(&self, room: String) -> (r: (Membership, Ghost<SharedCall>))
        ensures
            r.0.room@ == room@,
            r.1@ == (SharedCall::Join { room: room@, capacity: ROOM_CHANNEL_CAPACITY }),
    {
        let name = room.clone();
        let (sender, receiver, handed) = join_room(&self.rooms, room, ROOM_CHANNEL_CAPACITY);
        let call = Ghost(SharedCall::Join { room: handed@.0, capacity: handed@.1 });
        (Membership { room: name, sender, receiver }, call)
    }

    /// Leaves a room: the subscription ends, and the room goes when nobody is left in it.
    pub fn leave(&self, membership: Membership) -> (r: Ghost<SharedCall>)
        ensures
            r@ == SharedCall::Leave(membership.room@),
    {
        let room = end_membership(membership);
        let handed = remove_room_if_empty(&self.rooms, &room);
        Ghost(SharedCall::Leave(handed@))
    }
}

/// Ends a membership, subscription included, and gives back the room's name.
fn end_membership(membership: Membership) -> (r: String)
    ensures
        r@ == membership.room@,
{
    membership.room
}

impl Membership {
    /// Broadcasts a message to everyone in the room, this connection included.
    pub fn publish(&self, msg: ServerMessage) -> (r: Ghost<SharedCall>)
        ensures
            r@ == (SharedCall::Publish { room: self.room@, message: msg@ }),
    {
        let handed = send_to_room(&self.sender, msg);
        Ghost(SharedCall::Publish { room: self.room@, message: handed@ })
    }
}

/// What is left to do after an action that does not touch the socket was performed.
#[derive(Debug, Clone, PartialEq, Eq)]
pub enum Performed {
    /// The action was done.
    Done,
    /// The action was done and gave this event.
    Reply(SessionEvent),
    /// The action is a message for the client, to send on the socket.
    Send(ServerMessage),
    /// The connection ends.
    Close,
}

/// The room of a membership, if there is one.
pub open spec fn member_room(membership: Option<Membership>) -> Option<Seq<char>> {
    match membership {
        Some(m) => Some(m.room@),
        None => None,
    }
}

/// Leaving the room of a membership, if there is one.
pub open spec fn leaving(room: Option<Seq<char>>) -> Seq<SharedCall> {
    match room {
        Some(r) => seq![SharedCall::Leave(r)],
        None => Seq::empty(),
    }
}

/// The calls on the shared state that performing `action` makes, for a connection in
/// `room`: a new room is joined before the old one is left, and a message is published
/// only by a connection that is in a room.
pub open spec fn calls_for(action: ActionView, room: Option<Seq<char>>) -> Seq<SharedCall> {
    match action {
        ActionView::Reserve(key) => seq![SharedCall::Reserve(key)],
        ActionView::Release(key) => seq![SharedCall::Release(key)],
        ActionView::Subscribe(r) => seq![SharedCall::Join { room: r, capacity: ROOM_CHANNEL_CAPACITY }]
            + leaving(room),
        ActionView::Unsubscribe(_) => leaving(room),
        ActionView::Publish(message) => match room {
            Some(r) => seq![SharedCall::Publish { room: r, message }],
            None => Seq::empty(),
        },
        _ => Seq::empty(),
    }
}

/// Performs an action of a connection on the shared state. Reserving reports whether
/// the name was free and listing reports the rooms, as the next event; joining and
/// leaving change `membership`; messages for the client and closing the connection are
/// handed back, since they concern the socket. The ghost part lists the calls made on
/// the shared state, in order.
pub fn perform(state: &SharedState, membership: &mut Option<Membership>, action: SessionAction) -> (r: (Performed, Ghost<Seq<SharedCall>>))
    ensures
        r.1@ == calls_for(action@, member_room(*old(membership))),
        action is Reserve ==> r.0 matches Performed::Reply(SessionEvent::Reserved(_)),
        action is ListRooms ==> (r.0 matches Performed::Reply(SessionEvent::Rooms(rooms)) && views(
            rooms@,
        ).no_duplicates()),
        action matches SessionAction::Send(m) ==> r.0 == Performed::Send(m),
        action is Close ==> r.0 == Performed::Close,
        action matches SessionAction::Subscribe(room) ==> r.0 == Performed::Done && ((*final(membership)) matches Some(m) && m.room@ == room@),
        action is Unsubscribe ==> r.0 == Performed::Done && (*final(membership)) is None,
        action is Publish || action is Release ==> r.0 == Performed::Done && *final(membership)
            == *old(membership),
{
    match action {
        SessionAction::Send(m) => {
            let calls: Ghost<Seq<SharedCall>> = Ghost(Seq::empty());
            (Performed::Send(m), calls)
        },
        SessionAction::Reserve(key) => {
            let (free, call) = state.try_reserve(key);
            let calls: Ghost<Seq<SharedCall>> = Ghost(Seq::<SharedCall>::empty().push(call@));
            (Performed::Reply(SessionEvent::Reserved(free)), calls)
        },
        SessionAction::ListRooms => {
            let calls: Ghost<Seq<SharedCall>> = Ghost(Seq::empty());
            (Performed::Reply(SessionEvent::Rooms(state.room_names())), calls)
        },
        SessionAction::Subscribe(room) => {
            let (joined, call) = state.join(room);
            let mut previous = Some(joined);
            std::mem::swap(&mut previous, membership);
            let calls = match previous {
                Some(m) => {
                    let left = state.leave(m);
                    Ghost(Seq::<SharedCall>::empty().push(call@).push(left@))
                },
                None => Ghost(Seq::<SharedCall>::empty().push(call@)),
            };
            proof {
                assert(calls@ =~= calls_for(action@, member_room(*old(membership))));
            }
            (Performed::Done, calls)
        },
        SessionAction::Publish(msg) => {
            let calls = match membership {
                Some(m) => {
                    let call = m.publish(msg);
                    Ghost(Seq::<SharedCall>::empty().push(call@))
                },
                None => Ghost(Seq::empty()),
            };
            (Performed::Done, calls)
        },
        SessionAction::Unsubscribe(room) => {
            let mut previous = None;
            std::mem::swap(&mut previous, membership);
            let calls = match previous {
                Some(m) => {
                    let left = state.leave(m);
                    Ghost(Seq::<SharedCall>::empty().push(left@))
                },
                None => Ghost(Seq::empty()),
            };
            (Performed::Done, calls)
        },
        SessionAction::Release(key) => {
            let call = state.release(&key);
            let calls: Ghost<Seq<SharedCall>> = Ghost(Seq::<SharedCall>::empty().push(call@));
            (Performed::Done, calls)
        },
        SessionAction::Close => {
            let calls: Ghost<Seq<SharedCall>> = Ghost(Seq::empty());
            (Performed::Close, calls)
        },
    }
}

} // verus!
