//! Live delivery: the hub that offers each new message to the sessions
//! connected at that moment, and the bridge that decides, for one session,
//! what goes onto its stream.

use crate::message::{ChatMessage, ChatMessageView};
use std::collections::BTreeSet;
use std::sync::Arc;
use tokio::sync::broadcast::error::TryRecvError;
use tokio::sync::broadcast::{Receiver, Sender};
use vstd::prelude::*;

verus! {

/// How many events the hub keeps for sessions that have not taken them
/// yet. The channel under the hub keeps a power of two, which this is.
pub const HUB_CAPACITY: usize = 128;

/// Seconds from the opening of a stream to its first heartbeat.
pub const FIRST_HEARTBEAT_SECS: u64 = 5;

/// Seconds from one heartbeat to the next.
pub const HEARTBEAT_INTERVAL_SECS: u64 = 60;

/// Seconds of silence after which the stream sends a keep-alive comment.
pub const KEEP_ALIVE_SECS: u64 = 5;

/// What the hub carries.
#[derive(Debug)]
pub enum BroadcastEvent {
    /// A message was stored: the users it is for, fixed when it was sent,
    /// and the message.
    Chat { targets: BTreeSet<i32>, message: ChatMessage },
}

/// An event as contracts speak of it.
pub struct EventView {
    pub targets: Set<i32>,
    pub message: ChatMessageView,
}

impl View for BroadcastEvent {
    type V = EventView;

    open spec fn view(&self) -> EventView {
        match *self {
            BroadcastEvent::Chat { targets, message } => EventView { targets: targets@, message: message@ },
        }
    }
}

/// The time a heartbeat was made, in seconds since the Unix epoch.
#[derive(Copy, Clone, Debug, PartialEq, Eq, Structural)]
pub struct HeartbeatMessage {
    pub time: i64,
}

/// One frame of a session's stream.
#[derive(Debug)]
pub enum Message {
    ChatMessage(ChatMessage),
    Heartbeat(HeartbeatMessage),
}

/// A frame as contracts speak of it.
pub enum FrameView {
    ChatMessage(ChatMessageView),
    Heartbeat(HeartbeatMessage),
}

impl View for Message {
    type V = FrameView;

    open spec fn view(&self) -> FrameView {
        match *self {
            Message::ChatMessage(message) => FrameView::ChatMessage(message@),
            Message::Heartbeat(beat) => FrameView::Heartbeat(beat),
        }
    }
}

impl Message {
    /// The name under which the frame is sent.
    pub fn to_string(&self) -> (name: String)
        ensures
            name@ == match *self {
                Message::ChatMessage(_) => "ChatMessage"@,
                Message::Heartbeat(_) => "Heartbeat"@,
            },
    {
        match self {
            Message::ChatMessage(_) => String::from_str("ChatMessage"),
            Message::Heartbeat(_) => String::from_str("Heartbeat"),
        }
    }
}

/// The set of the users in `uids`.
pub fn recipients(uids: &Vec<i32>) -> (targets: BTreeSet<i32>)
    ensures
        targets@ == uids@.to_set(),
{
    let mut targets: BTreeSet<i32> = BTreeSet::new();
    let mut i: usize = 0;
    while i < uids.len()
        invariant
            i <= uids.len(),
            targets@ == uids@.take(i as int).to_set(),
        decreases uids.len() - i,
    {
        targets.insert(uids[i]);
        proof {
            assert(uids@.take(i + 1) =~= uids@.take(i as int).push(uids@[i as int]));
            assert(uids@.take(i + 1).to_set() =~= uids@.take(i as int).to_set().insert(uids@[i as int])) by {
                let shorter = uids@.take(i as int);
                let longer = uids@.take(i + 1);
                assert forall|u: i32| longer.to_set().contains(u) <==> shorter.to_set().insert(
                    uids@[i as int],
                ).contains(u) by {
                    if longer.contains(u) {
                        let at = choose|at: int| 0 <= at < longer.len() && longer[at] == u;
                        if at < i {
                            assert(shorter[at] == u);
                        }
                    }
                    if shorter.contains(u) {
                        let at = choose|at: int| 0 <= at < shorter.len() && shorter[at] == u;
                        assert(longer[at] == u);
                    }
                    assert(longer[i as int] == uids@[i as int]);
                }
            }
        }
        i += 1;
    }
    assert(uids@.take(uids.len() as int) =~= uids@);
    targets
}

/// `tokio::sync::broadcast::Sender`: the sending half of a broadcast
/// channel. It is carried as it is; nothing inside it is seen or claimed.
#[verifier::external_type_specification]
#[verifier::external_body]
#[verifier::reject_recursive_types(T)]
pub struct ExSender<T>(Sender<T>);

/// `tokio::sync::broadcast::Receiver`: the receiving half of a broadcast
/// channel. It is carried as it is; nothing inside it is seen or claimed.
#[verifier::external_type_specification]
#[verifier::external_body]
#[verifier::reject_recursive_types(T)]
pub struct ExReceiver<T>(Receiver<T>);

/// What one attempt to take an event from the hub gives.
#[derive(Debug)]
pub enum HubSignal {
    /// The next event.
    Event(Arc<BroadcastEvent>),
    /// Nothing is waiting.
    Empty,
    /// The hub is gone; nothing will come any more.
    Closed,
    /// The session fell behind and so many events were dropped for it.
    Lagged(u64),
}

/// The number of values that the buffer of a channel keeps for receivers
/// that lag: the length of the buffer, fixed when the channel is made.
pub uninterp spec fn capacity_of(sender: Sender<Arc<BroadcastEvent>>) -> usize;

/// `tokio::sync::broadcast::channel`: makes a channel and hands back its
/// sending half; the receiving half that comes with it is dropped, so the
/// channel starts without a receiver. The crate rounds the capacity asked
/// for up to a power of two and builds a buffer of that length; it panics
/// on a capacity of 0 or above `usize::MAX / 2`. The one capacity let in
/// here is `HUB_CAPACITY`, which is a power of two, so the buffer keeps
/// exactly that many values. Claimed of the sender is the length of its
/// buffer, and no more.
#[verifier::external_body]
fn channel_sender(capacity: usize) -> (sender: Sender<Arc<BroadcastEvent>>)
    requires
        capacity == HUB_CAPACITY,
    ensures
        capacity_of(sender) == capacity,
{
    tokio::sync::broadcast::channel(capacity).0
}

/// `tokio::sync::broadcast::Sender::send`: offers `event` to every receiver
/// subscribed at this moment and returns how many there are, or `None`,
/// dropping the event, where there is none. The call never waits. A count
/// that comes back is at least 1; how many there are depends on who is
/// connected, so no more is claimed.
#[verifier::external_body]
fn channel_send(sender: &Sender<Arc<BroadcastEvent>>, event: Arc<BroadcastEvent>) -> (offered: Option<usize>)
    ensures
        offered matches Some(count) ==> count >= 1,
{
    sender.send(event).ok()
}

/// `tokio::sync::broadcast::Sender::subscribe`: a new receiver that sees
/// the values sent after this call and none sent before. The crate panics
/// once `usize::MAX / 4` receivers are alive at once, more than a machine
/// can hold. Nothing is claimed of the receiver.
#[verifier::external_body]
fn channel_subscribe(sender: &Sender<Arc<BroadcastEvent>>) -> (receiver: Receiver<Arc<BroadcastEvent>>)
{
    sender.subscribe()
}

/// `tokio::sync::broadcast::Receiver::try_recv`: takes the next value
/// without waiting, and tells the crate's three errors apart. What comes
/// depends on what others have sent, so nothing is claimed of it.
#[verifier::external_body]
fn channel_try_recv(receiver: &mut Receiver<Arc<BroadcastEvent>>) -> (signal: HubSignal)
{
    match receiver.try_recv() {
        Ok(event) => HubSignal::Event(event),
        Err(TryRecvError::Empty) => HubSignal::Empty,
        Err(TryRecvError::Closed) => HubSignal::Closed,
        Err(TryRecvError::Lagged(missed)) => HubSignal::Lagged(missed),
    }
}

/// The broadcast hub of one process.
pub struct EventHub {
    sender: Sender<Arc<BroadcastEvent>>,
}

/// How many sessions an event was offered to, from what the channel said
/// of it: the count it gave, or 0 where it had no receiver and dropped the
/// event.
pub fn sessions_offered(sent: Option<usize>) -> (offered: usize)
    ensures
        offered == match sent {
            Some(count) => count,
            None => 0,
        },
{
    match sent {
        Some(count) => count,
        None => 0,
    }
}

impl EventHub {
    /// How many events the hub keeps for sessions that lag.
    pub closed spec fn capacity(&self) -> usize {
        capacity_of(self.sender)
    }

    /// A hub that keeps `HUB_CAPACITY` events for sessions that lag.
    pub fn new() -> (hub: EventHub)
        ensures
            hub.capacity() == HUB_CAPACITY,
    {
        EventHub { sender: channel_sender(HUB_CAPACITY) }
    }

    /// Offers `event` to every session subscribed at this moment, without
    /// waiting, and returns how many there are. With no session the event
    /// is dropped and the count is 0. How many sessions there are lies
    /// with who is connected, so nothing is promised of the count.
    pub fn broadcast(&self, event: BroadcastEvent) -> (offered: usize) {
        sessions_offered(channel_send(&self.sender, Arc::new(event)))
    }

    /// Connects a session of user `uid`: it is offered every event
    /// published from now on, and none from before.
    pub fn subscribe(&self, uid: i32) -> (session: Subscription)
        ensures
            session.uid() == uid,
            session.state() == BridgeState::Connected,
    {
        Subscription { uid, state: BridgeState::Connected, receiver: channel_subscribe(&self.sender) }
    }
}

/// Whether the stream of a session is still open.
#[derive(Copy, Clone, Debug, PartialEq, Eq, Structural)]
pub enum BridgeState {
    Connected,
    Terminated,
}

/// What can happen to a session.
#[derive(Debug)]
pub enum BridgeInput {
    /// An attempt to take an event from the hub came back.
    Hub(HubSignal),
    /// The heartbeat timer fired at the time `now`.
    HeartbeatDue { now: i64 },
    /// A frame could not be written: the client is gone.
    PushFailed,
}

/// What the bridge does about it.
#[derive(Debug)]
pub enum BridgeAction {
    /// Write this frame onto the stream.
    Push(Message),
    /// Nothing to write; go on waiting.
    Idle,
    /// Stop: drop the subscription and end the stream.
    Close,
}

/// A bridge action as contracts speak of it.
pub enum ActionView {
    Push(FrameView),
    Idle,
    Close,
}

impl View for BridgeAction {
    type V = ActionView;

    open spec fn view(&self) -> ActionView {
        match *self {
            BridgeAction::Push(frame) => ActionView::Push(frame@),
            BridgeAction::Idle => ActionView::Idle,
            BridgeAction::Close => ActionView::Close,
        }
    }
}

/// What one attempt to take an event gives, as contracts speak of it.
pub enum SignalView {
    Event(EventView),
    Empty,
    Closed,
    Lagged(u64),
}

impl View for HubSignal {
    type V = SignalView;

    open spec fn view(&self) -> SignalView {
        match *self {
            HubSignal::Event(event) => SignalView::Event(event@),
            HubSignal::Empty => SignalView::Empty,
            HubSignal::Closed => SignalView::Closed,
            HubSignal::Lagged(missed) => SignalView::Lagged(missed),
        }
    }
}

/// What can happen to a session, as contracts speak of it.
pub enum InputView {
    Hub(SignalView),
    HeartbeatDue { now: i64 },
    PushFailed,
}

impl View for BridgeInput {
    type V = InputView;

    open spec fn view(&self) -> InputView {
        match *self {
            BridgeInput::Hub(signal) => InputView::Hub(signal@),
            BridgeInput::HeartbeatDue { now } => InputView::HeartbeatDue { now },
            BridgeInput::PushFailed => InputView::PushFailed,
        }
    }
}

/// Whether an event is for user `uid`: whether its targets hold `uid`.
pub open spec fn is_for(event: EventView, uid: i32) -> bool {
    event.targets.contains(uid)
}

/// The state a session is in after `input`. A closed hub, a session that
/// fell behind and a failed write end it; nothing reopens it.
pub open spec fn next_state(state: BridgeState, input: InputView) -> BridgeState {
    match state {
        BridgeState::Terminated => BridgeState::Terminated,
        BridgeState::Connected => match input {
            InputView::Hub(SignalView::Closed) => BridgeState::Terminated,
            InputView::Hub(SignalView::Lagged(_)) => BridgeState::Terminated,
            InputView::PushFailed => BridgeState::Terminated,
            _ => BridgeState::Connected,
        },
    }
}

/// What the bridge of user `uid` does about `input` in `state`: an event
/// for the user becomes a chat frame, any other is passed over, a due
/// heartbeat becomes a heartbeat frame, and whatever ends the session
/// closes the stream.
pub open spec fn action_for(state: BridgeState, uid: i32, input: InputView) -> ActionView {
    match state {
        BridgeState::Terminated => ActionView::Close,
        BridgeState::Connected => match input {
            InputView::Hub(SignalView::Event(event)) => if is_for(event, uid) {
                ActionView::Push(FrameView::ChatMessage(event.message))
            } else {
                ActionView::Idle
            },
            InputView::Hub(SignalView::Empty) => ActionView::Idle,
            InputView::Hub(SignalView::Closed) => ActionView::Close,
            InputView::Hub(SignalView::Lagged(_)) => ActionView::Close,
            InputView::HeartbeatDue { now } => ActionView::Push(FrameView::Heartbeat(HeartbeatMessage { time: now })),
            InputView::PushFailed => ActionView::Close,
        },
    }
}

/// How the open session of user `uid` reacts to what an attempt to take an
/// event gave: the state it is in afterwards and what it does.
pub open spec fn reaction(uid: i32, signal: SignalView) -> (BridgeState, ActionView) {
    (
        next_state(BridgeState::Connected, InputView::Hub(signal)),
        action_for(BridgeState::Connected, uid, InputView::Hub(signal)),
    )
}

/// The bridge's decision for one input.
pub fn bridge_step(state: BridgeState, uid: i32, input: BridgeInput) -> (next: (BridgeState, BridgeAction))
    ensures
        next.0 == next_state(state, input@),
        next.1@ == action_for(state, uid, input@),
{
    match state {
        BridgeState::Terminated => (BridgeState::Terminated, BridgeAction::Close),
        BridgeState::Connected => match input {
            BridgeInput::Hub(HubSignal::Event(event)) => {
                match &*event {
                    BroadcastEvent::Chat { targets, message } => {
                        if targets.contains(&uid) {
                            (BridgeState::Connected, BridgeAction::Push(Message::ChatMessage(message.clone())))
                        } else {
                            (BridgeState::Connected, BridgeAction::Idle)
                        }
                    },
                }
            },
            BridgeInput::Hub(HubSignal::Empty) => (BridgeState::Connected, BridgeAction::Idle),
            BridgeInput::Hub(HubSignal::Closed) => (BridgeState::Terminated, BridgeAction::Close),
            BridgeInput::Hub(HubSignal::Lagged(_)) => (BridgeState::Terminated, BridgeAction::Close),
            BridgeInput::HeartbeatDue { now } => (
                BridgeState::Connected,
                BridgeAction::Push(Message::Heartbeat(HeartbeatMessage { time: now })),
            ),
            BridgeInput::PushFailed => (BridgeState::Terminated, BridgeAction::Close),
        },
    }
}

/// One connected session: the user it belongs to, whether its stream is
/// open, and its place in the hub.
pub struct Subscription {
    uid: i32,
    state: BridgeState,
    receiver: Receiver<Arc<BroadcastEvent>>,
}

impl Subscription {
    /// The user of the session.
    pub closed spec fn uid(&self) -> i32 {
        self.uid
    }

    /// Whether the stream is still open.
    pub closed spec fn state(&self) -> BridgeState {
        self.state
    }

    /// The receiving end inside the session.
    pub closed spec fn spec_receiver(&self) -> Receiver<Arc<BroadcastEvent>> {
        self.receiver
    }

    /// The user of the session.
    pub fn user(&self) -> (uid: i32)
        ensures
            uid == self.uid(),
    {
        self.uid
    }

    /// Whether the stream has ended.
    pub fn is_terminated(&self) -> (ended: bool)
        ensures
            ended == (self.state() == BridgeState::Terminated),
    {
        self.state == BridgeState::Terminated
    }

    /// Takes `input` into account and says what to do about it.
    pub fn on(&mut self, input: BridgeInput) -> (action: BridgeAction)
        ensures
            final(self).uid() == old(self).uid(),
            final(self).state() == next_state(old(self).state(), input@),
            action@ == action_for(old(self).state(), old(self).uid(), input@),
    {
        let (state, action) = bridge_step(self.state, self.uid, input);
        self.state = state;
        action
    }

    /// Takes the next event from the hub, if one is waiting, and says what
    /// to do about it. What was taken is one of the four signals, and the
    /// session reacts to it as `on` says; a session that has ended takes
    /// nothing.
    pub fn poll(&mut self) -> (action: BridgeAction)
        ensures
            final(self).uid() == old(self).uid(),
            old(self).state() == BridgeState::Terminated ==> action@ == ActionView::Close && final(self).state()
                == BridgeState::Terminated,
            old(self).state() == BridgeState::Connected ==> exists|signal: SignalView|
                (final(self).state(), action@) == #[trigger] reaction(old(self).uid(), signal),
    {
        if self.state == BridgeState::Terminated {
            return BridgeAction::Close;
        }
        let signal = channel_try_recv(&mut self.receiver);
        let ghost seen = signal@;
        let (state, action) = bridge_step(self.state, self.uid, BridgeInput::Hub(signal));
        self.state = state;
        assert((self.state, action@) == reaction(self.uid, seen));
        action
    }

    /// The receiving end inside the session, for a caller that waits for
    /// events itself and hands them to `on`.
    /// What is handed out is the session's own receiving end: it starts as
    /// the session holds it, and the session holds it as the caller leaves
    /// it. User and state of the session stay.
    pub fn receiver(&mut self) -> (receiver: &mut Receiver<Arc<BroadcastEvent>>)
        ensures
            *receiver == old(self).spec_receiver(),
            final(self).spec_receiver() == *final(receiver),
            final(self).uid() == old(self).uid(),
            final(self).state() == old(self).state(),
    {
        &mut self.receiver
    }
}

/// Fan-out reaches its targets and nobody else: a connected session takes
/// an event onto its stream exactly when its user is among the event's
/// targets, and then as the message the event carries; so of two events
/// whose targets have no user in common, no session takes both.
pub proof fn lemma_fan_out_targeting(uid: i32, first: EventView, second: EventView)
    ensures
        action_for(BridgeState::Connected, uid, InputView::Hub(SignalView::Event(first))) == ActionView::Push(
            FrameView::ChatMessage(first.message),
        ) <==> first.targets.contains(uid),
        action_for(BridgeState::Connected, uid, InputView::Hub(SignalView::Event(first))) == ActionView::Idle
            <==> !first.targets.contains(uid),
        first.targets.disjoint(second.targets) ==> !(is_for(first, uid) && is_for(second, uid)),
{
}

} // verus!
