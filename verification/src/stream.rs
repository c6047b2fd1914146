//! The subscription manager: one streaming connection's lifecycle, as a
//! state machine from wakeup to next state and action.
//!
//! A connection runs `Connecting → Subscribed → {Streaming, Lagged} →
//! Closed`. The surrounding task performs the actions (register with the
//! bus, write a frame, unregister) and feeds the observed input back in;
//! every decision — what a wakeup means in each state, the select priority
//! over the wakeup sources, how an event is serialized — is made here.
//! Closing promptly unregisters the subscriber, so no queue outlives its
//! connection; heartbeats are not domain events and never touch the bus.

use vstd::prelude::*;

use crate::bus::{DomainEvent, LabeledEvent, RecvOutcome};
use crate::wire::{decimal_i32, decimal_u64, spec_decimal, spec_decimal_i32};

verus! {

/// Where one streaming connection stands.
#[derive(Clone, Copy, Debug, PartialEq, Eq, Structural)]
pub enum ConnectionState {
    Connecting,
    Subscribed { id: u64 },
    Streaming { id: u64 },
    Lagged { id: u64 },
    Closed,
}

impl ConnectionState {
    /// The bus handle this connection holds, if it holds one.
    pub open spec fn spec_handle(self) -> Option<u64> {
        match self {
            ConnectionState::Connecting => None,
            ConnectionState::Subscribed { id } => Some(id),
            ConnectionState::Streaming { id } => Some(id),
            ConnectionState::Lagged { id } => Some(id),
            ConnectionState::Closed => None,
        }
    }
}

/// What a connection task woke up on.
#[derive(Debug)]
pub enum StreamInput {
    /// The bus granted the subscription with this handle.
    Registered { id: u64 },
    /// The client went away: the connection closed or a write failed.
    Disconnected,
    /// What reading the subscriber queue returned.
    Queue(RecvOutcome),
    /// The keep-alive timer fired.
    HeartbeatDue,
}

/// What the task must do next.
#[derive(Debug)]
pub enum StreamAction {
    /// Call the bus's subscribe and feed back `Registered`.
    Subscribe,
    /// Serialize this event and write it to the connection.
    SendFrame(LabeledEvent),
    /// Tell the client it missed this many events and should resynchronize.
    SendResync(u64),
    /// Write a keep-alive frame; it is not a domain event.
    SendHeartbeat,
    /// Remove this handle's registration and queue from the bus.
    Unregister { id: u64 },
    /// Nothing: keep waiting.
    Idle,
}

/// Opening the endpoint: the connection starts out connecting, and the task
/// must register it with the bus.
pub fn open_connection() -> (r: (ConnectionState, StreamAction))
    ensures
        r.0 == ConnectionState::Connecting,
        r.1 == StreamAction::Subscribe,
{
    (ConnectionState::Connecting, StreamAction::Subscribe)
}

/// The transition table. A disconnect in any live state closes and
/// unregisters at once; a queue event streams; a lag report sends the
/// resync signal and marks the state; an empty queue and a closed state
/// wait; a heartbeat is written whenever the connection is live.
pub open spec fn spec_step(state: ConnectionState, input: StreamInput) -> (
    ConnectionState,
    StreamAction,
) {
    match state.spec_handle() {
        None => match (state, input) {
            (ConnectionState::Connecting, StreamInput::Registered { id }) => (
                ConnectionState::Subscribed { id },
                StreamAction::Idle,
            ),
            (ConnectionState::Connecting, StreamInput::Disconnected) => (
                ConnectionState::Closed,
                StreamAction::Idle,
            ),
            _ => (state, StreamAction::Idle),
        },
        Some(id) => match input {
            StreamInput::Disconnected => (
                ConnectionState::Closed,
                StreamAction::Unregister { id },
            ),
            StreamInput::Queue(RecvOutcome::Event(le)) => (
                ConnectionState::Streaming { id },
                StreamAction::SendFrame(le),
            ),
            StreamInput::Queue(RecvOutcome::Lagged(n)) => (
                ConnectionState::Lagged { id },
                StreamAction::SendResync(n),
            ),
            StreamInput::Queue(RecvOutcome::Empty) => (state, StreamAction::Idle),
            StreamInput::Queue(RecvOutcome::Gone) => (
                ConnectionState::Closed,
                StreamAction::Idle,
            ),
            StreamInput::HeartbeatDue => (state, StreamAction::SendHeartbeat),
            StreamInput::Registered { id } => (state, StreamAction::Idle),
        },
    }
}

/// One step of a connection's state machine.
pub fn step(state: &ConnectionState, input: StreamInput) -> (r: (ConnectionState, StreamAction))
    ensures
        r == spec_step(*state, input),
{
    let id = match state {
        ConnectionState::Connecting => {
            return match input {
                StreamInput::Registered { id } => (
                    ConnectionState::Subscribed { id },
                    StreamAction::Idle,
                ),
                StreamInput::Disconnected => (ConnectionState::Closed, StreamAction::Idle),
                _ => (*state, StreamAction::Idle),
            };
        },
        ConnectionState::Closed => {
            return (*state, StreamAction::Idle);
        },
        ConnectionState::Subscribed { id } => *id,
        ConnectionState::Streaming { id } => *id,
        ConnectionState::Lagged { id } => *id,
    };
    match input {
        StreamInput::Disconnected => (ConnectionState::Closed, StreamAction::Unregister { id }),
        StreamInput::Queue(RecvOutcome::Event(le)) => (
            ConnectionState::Streaming { id },
            StreamAction::SendFrame(le),
        ),
        StreamInput::Queue(RecvOutcome::Lagged(n)) => (
            ConnectionState::Lagged { id },
            StreamAction::SendResync(n),
        ),
        StreamInput::Queue(RecvOutcome::Empty) => (*state, StreamAction::Idle),
        StreamInput::Queue(RecvOutcome::Gone) => (ConnectionState::Closed, StreamAction::Idle),
        StreamInput::HeartbeatDue => (*state, StreamAction::SendHeartbeat),
        StreamInput::Registered { id: again } => (*state, StreamAction::Idle),
    }
}

/// The select over a connection's wakeup sources, with the deterministic
/// priority: disconnect first, then the queue's answer (whose lag report
/// precedes buffered events by the bus's own contract), then the heartbeat
/// timer; with none ready the task keeps waiting.
pub fn select_input(disconnected: bool, queued: Option<RecvOutcome>, heartbeat_due: bool) -> (r:
    Option<StreamInput>)
    ensures
        disconnected ==> r == Some(StreamInput::Disconnected),
        !disconnected ==> match queued {
            Some(outcome) => r == Some(StreamInput::Queue(outcome)),
            None => if heartbeat_due {
                r == Some(StreamInput::HeartbeatDue)
            } else {
                r is None
            },
        },
{
    if disconnected {
        Some(StreamInput::Disconnected)
    } else {
        match queued {
            Some(outcome) => Some(StreamInput::Queue(outcome)),
            None => if heartbeat_due {
                Some(StreamInput::HeartbeatDue)
            } else {
                None
            },
        }
    }
}

/// One wire message of the streaming endpoint: the event's label (its
/// sequence number in decimal), its name, and its body — a plain-text
/// snapshot of the resource, empty for a deletion. The caller may render
/// the snapshot into markup; the name and emptiness rules are fixed here.
#[derive(Debug)]
pub struct Frame {
    pub label: String,
    pub name: String,
    pub body: String,
}

/// The wire name of an event: `create` for a creation, `update{id}` or
/// `destroy{id}` for the others.
pub open spec fn spec_event_name(event: DomainEvent) -> Seq<char> {
    match event {
        DomainEvent::Created { id, title, content } => "create"@,
        DomainEvent::Updated { id, title, content } => "update"@ + spec_decimal_i32(id as int),
        DomainEvent::Deleted { id } => "destroy"@ + spec_decimal_i32(id as int),
    }
}

/// The wire body of an event: the snapshot's title and content joined by a
/// line break, and the empty body for a deletion.
pub open spec fn spec_event_body(event: DomainEvent) -> Seq<char> {
    match event {
        DomainEvent::Created { id, title, content } => title@ + seq!['\n'] + content@,
        DomainEvent::Updated { id, title, content } => title@ + seq!['\n'] + content@,
        DomainEvent::Deleted { id } => Seq::<char>::empty(),
    }
}

/// Serializes one labeled event into its wire frame.
pub fn serialize_event(le: &LabeledEvent) -> (f: Frame)
    ensures
        f.label@ == spec_decimal(le.seq as nat),
        f.name@ == spec_event_name(le.event),
        f.body@ == spec_event_body(le.event),
{
    let label = decimal_u64(le.seq);
    proof {
        reveal_strlit("create");
        reveal_strlit("update");
        reveal_strlit("destroy");
        reveal_strlit("\n");
    }
    match &le.event {
        DomainEvent::Created { id, title, content } => {
            let name = String::from_str("create");
            let mut body = title.clone();
            body.append("\n");
            body.append(content.as_str());
            proof {
                assert(body@ =~= spec_event_body(le.event));
            }
            Frame { label, name, body }
        },
        DomainEvent::Updated { id, title, content } => {
            let mut name = String::from_str("update");
            let digits = decimal_i32(*id);
            name.append(digits.as_str());
            let mut body = title.clone();
            body.append("\n");
            body.append(content.as_str());
            proof {
                assert(name@ =~= spec_event_name(le.event));
                assert(body@ =~= spec_event_body(le.event));
            }
            Frame { label, name, body }
        },
        DomainEvent::Deleted { id } => {
            let mut name = String::from_str("destroy");
            let digits = decimal_i32(*id);
            name.append(digits.as_str());
            let body = String::new();
            proof {
                assert(name@ =~= spec_event_name(le.event));
                assert(body@ =~= spec_event_body(le.event));
            }
            Frame { label, name, body }
        },
    }
}

/// Law: a closing wakeup always unregisters — from every state that holds a
/// bus handle, the `Disconnected` input moves to `Closed` and orders the
/// removal of exactly that handle, so no queue is leaked for a closed
/// connection.
pub proof fn lemma_disconnect_unregisters(state: ConnectionState)
    requires
        state.spec_handle() is Some,
    ensures
        spec_step(state, StreamInput::Disconnected).0 == ConnectionState::Closed,
        spec_step(state, StreamInput::Disconnected).1 == (StreamAction::Unregister {
            id: state.spec_handle().unwrap(),
        }),
{
}

} // verus!
