//! The browser WebSocket at `/api/ws`: what each event on the connection
//! leads to. The connection forwards HA state changes to the browser and
//! answers pings until the browser leaves.
use vstd::prelude::*;
use crate::ha::StateUpdate;

verus! {

/// A message sent to the browser.
pub enum OutMessage {
    /// Sent once, right after the connection opens.
    Connected,
    /// A state change of one entity.
    StateChanged(StateUpdate),
}

/// The value of the `type` field of each outgoing message.
pub open spec fn message_type(m: OutMessage) -> Seq<char> {
    match m {
        OutMessage::Connected => "connected"@,
        OutMessage::StateChanged(_) => "state_changed"@,
    }
}

impl OutMessage {
    /// The value of the message's `type` field.
    pub fn kind(&self) -> (t: String)
        ensures
            t@ == message_type(*self),
    {
        match self {
            OutMessage::Connected => String::from_str("connected"),
            OutMessage::StateChanged(_) => String::from_str("state_changed"),
        }
    }
}

/// A frame received from the browser.
pub enum ClientFrame {
    /// The browser closes the connection.
    Close,
    /// A ping with its payload.
    Ping(Vec<u8>),
    /// Anything else, including a frame that could not be read.
    Other,
}

/// What happened on the connection.
pub enum RelayEvent {
    /// The relay channel was polled: a state change, or nothing. Nothing
    /// comes when the channel lagged or closed, and, when there is no HA
    /// client, at once on every poll.
    Update(Option<StateUpdate>),
    /// The browser side was polled: a frame, or `None` when the stream ended.
    Client(Option<ClientFrame>),
    /// Whether sending the last state change succeeded.
    StateSent(bool),
}

/// What to do next.
pub enum RelayAction {
    /// Send the message, then report with `StateSent`.
    Send(OutMessage),
    /// Answer a ping with the same payload; a failure is ignored.
    Pong(Vec<u8>),
    /// Do nothing; poll both sides again.
    Wait,
    /// End the connection.
    Stop,
}

/// The first message of every connection.
pub fn greeting() -> (m: OutMessage)
    ensures
        m is Connected,
{
    OutMessage::Connected
}

/// The relay's decision for each event: forward a state change as is,
/// answer a ping with its payload, and stop when the browser closes or
/// goes away or a state change cannot be sent.
pub fn relay_step(event: RelayEvent) -> (action: RelayAction)
    ensures
        match event {
            RelayEvent::Update(Some(u)) => action == RelayAction::Send(OutMessage::StateChanged(u)),
            RelayEvent::Update(None) => action is Wait,
            RelayEvent::Client(None) => action is Stop,
            RelayEvent::Client(Some(ClientFrame::Close)) => action is Stop,
            RelayEvent::Client(Some(ClientFrame::Ping(p))) => action == RelayAction::Pong(p),
            RelayEvent::Client(Some(ClientFrame::Other)) => action is Wait,
            RelayEvent::StateSent(ok) => if ok {
                action is Wait
            } else {
                action is Stop
            },
        },
{
    match event {
        RelayEvent::Update(Some(u)) => RelayAction::Send(OutMessage::StateChanged(u)),
        RelayEvent::Update(None) => RelayAction::Wait,
        RelayEvent::Client(None) => RelayAction::Stop,
        RelayEvent::Client(Some(ClientFrame::Close)) => RelayAction::Stop,
        RelayEvent::Client(Some(ClientFrame::Ping(p))) => RelayAction::Pong(p),
        RelayEvent::Client(Some(ClientFrame::Other)) => RelayAction::Wait,
        RelayEvent::StateSent(ok) => if ok {
            RelayAction::Wait
        } else {
            RelayAction::Stop
        },
    }
}

} // verus!
