//! The streaming connection lifecycle: the state machine, the select
//! priority, serialization, and the end-to-end path from a posted mutation
//! to a subscriber's frame.

use liveboard::bus::{DomainEvent, EventBus, LabeledEvent, RecvOutcome};
use liveboard::coordinator::{complete, handle_mutation, Operation, StoreOutcome};
use liveboard::gate::{encode_token, Method, RequestContext, SecurityGate};
use liveboard::session::SessionStore;
use liveboard::stream::{
    open_connection, select_input, serialize_event, step, ConnectionState, StreamAction,
    StreamInput,
};

#[test]
fn opening_registers_with_the_bus() {
    let (state, action) = open_connection();
    assert_eq!(state, ConnectionState::Connecting);
    assert!(matches!(action, StreamAction::Subscribe));
    let (state, action) = step(&state, StreamInput::Registered { id: 5 });
    assert_eq!(state, ConnectionState::Subscribed { id: 5 });
    assert!(matches!(action, StreamAction::Idle));
}

#[test]
fn a_disconnect_closes_and_unregisters_at_once() {
    for live in [
        ConnectionState::Subscribed { id: 5 },
        ConnectionState::Streaming { id: 5 },
        ConnectionState::Lagged { id: 5 },
    ] {
        let (state, action) = step(&live, StreamInput::Disconnected);
        assert_eq!(state, ConnectionState::Closed);
        assert!(matches!(action, StreamAction::Unregister { id: 5 }));
    }
}

#[test]
fn a_queue_event_streams_and_a_lag_report_resyncs() {
    let state = ConnectionState::Subscribed { id: 5 };
    let event = LabeledEvent {
        seq: 0,
        event: DomainEvent::Deleted { id: 1 },
    };
    let (state, action) = step(&state, StreamInput::Queue(RecvOutcome::Event(event)));
    assert_eq!(state, ConnectionState::Streaming { id: 5 });
    assert!(matches!(action, StreamAction::SendFrame(_)));
    let (state, action) = step(&state, StreamInput::Queue(RecvOutcome::Lagged(4)));
    assert_eq!(state, ConnectionState::Lagged { id: 5 });
    assert!(matches!(action, StreamAction::SendResync(4)));
    let event = LabeledEvent {
        seq: 9,
        event: DomainEvent::Deleted { id: 2 },
    };
    let (state, action) = step(&state, StreamInput::Queue(RecvOutcome::Event(event)));
    assert_eq!(state, ConnectionState::Streaming { id: 5 });
    assert!(matches!(action, StreamAction::SendFrame(_)));
}

#[test]
fn an_empty_queue_waits_and_a_gone_queue_closes() {
    let state = ConnectionState::Streaming { id: 5 };
    let (next, action) = step(&state, StreamInput::Queue(RecvOutcome::Empty));
    assert_eq!(next, state);
    assert!(matches!(action, StreamAction::Idle));
    let (next, action) = step(&state, StreamInput::Queue(RecvOutcome::Gone));
    assert_eq!(next, ConnectionState::Closed);
    assert!(matches!(action, StreamAction::Idle));
}

#[test]
fn heartbeats_keep_a_live_connection_alive_and_never_touch_the_bus() {
    let state = ConnectionState::Streaming { id: 5 };
    let (next, action) = step(&state, StreamInput::HeartbeatDue);
    assert_eq!(next, state);
    assert!(matches!(action, StreamAction::SendHeartbeat));
    let (next, action) = step(&ConnectionState::Closed, StreamInput::HeartbeatDue);
    assert_eq!(next, ConnectionState::Closed);
    assert!(matches!(action, StreamAction::Idle));
}

#[test]
fn the_select_prefers_disconnect_then_queue_then_heartbeat() {
    let event = || RecvOutcome::Lagged(1);
    assert!(matches!(
        select_input(true, Some(event()), true),
        Some(StreamInput::Disconnected)
    ));
    assert!(matches!(
        select_input(false, Some(event()), true),
        Some(StreamInput::Queue(RecvOutcome::Lagged(1)))
    ));
    assert!(matches!(
        select_input(false, None, true),
        Some(StreamInput::HeartbeatDue)
    ));
    assert!(select_input(false, None, false).is_none());
}

#[test]
fn a_created_event_serializes_to_a_create_frame() {
    let le = LabeledEvent {
        seq: 3,
        event: DomainEvent::Created {
            id: 9,
            title: "hello".to_string(),
            content: "world".to_string(),
        },
    };
    let frame = serialize_event(&le);
    assert_eq!(frame.label, "3");
    assert_eq!(frame.name, "create");
    assert_eq!(frame.body, "hello\nworld");
}

#[test]
fn update_and_destroy_frames_carry_the_id_in_the_name() {
    let le = LabeledEvent {
        seq: 4,
        event: DomainEvent::Updated {
            id: 12,
            title: "a".to_string(),
            content: "b".to_string(),
        },
    };
    let frame = serialize_event(&le);
    assert_eq!(frame.name, "update12");
    assert_eq!(frame.body, "a\nb");
    let le = LabeledEvent {
        seq: 5,
        event: DomainEvent::Deleted { id: 12 },
    };
    let frame = serialize_event(&le);
    assert_eq!(frame.name, "destroy12");
    assert_eq!(frame.body, "");
}

#[test]
fn a_posted_create_reaches_an_open_stream_and_a_delete_follows() {
    // Client A opens the stream.
    let mut bus = EventBus::new(16);
    let (state, action) = open_connection();
    assert!(matches!(action, StreamAction::Subscribe));
    let handle = bus.subscribe();
    let (mut state, _) = step(&state, StreamInput::Registered { id: handle });

    // Client B posts a valid create.
    let gate = SecurityGate::new(8);
    let mut sessions = SessionStore::new(1000);
    let session = sessions.login("bob".to_string(), 0);
    let header = encode_token(&gate.issue(1));
    let request = RequestContext {
        method: Method::Post,
        hx_request: true,
        csrf_header: Some(header.clone()),
        session: Some(session),
    };
    let op = Operation::Create {
        title: "hello".to_string(),
        content: "world".to_string(),
    };
    let _command = handle_mutation(&gate, &sessions, &request, &op, 1).expect("the create passes");
    let ack = complete(&op, StoreOutcome::Done { id: 1 }, &mut bus).expect("the create commits");
    assert_eq!(ack.id, 1);

    // Client A's stream receives one create frame with the payload.
    let outcome = bus.recv(handle);
    let (next, action) = step(&state, StreamInput::Queue(outcome));
    state = next;
    let frame = match action {
        StreamAction::SendFrame(le) => serialize_event(&le),
        other => panic!("expected a frame, got {other:?}"),
    };
    assert_eq!(frame.name, "create");
    assert!(frame.body.contains("hello"));
    assert!(frame.body.contains("world"));

    // Client B deletes the resource; client A receives a destroy frame with
    // an empty body.
    let delete = Operation::Delete { id: 1 };
    let request = RequestContext {
        method: Method::Delete,
        hx_request: true,
        csrf_header: Some(header),
        session: Some(session),
    };
    let _command = handle_mutation(&gate, &sessions, &request, &delete, 2).expect("the delete passes");
    complete(&delete, StoreOutcome::Done { id: 1 }, &mut bus).expect("the delete commits");
    let outcome = bus.recv(handle);
    let (_state, action) = step(&state, StreamInput::Queue(outcome));
    let frame = match action {
        StreamAction::SendFrame(le) => serialize_event(&le),
        other => panic!("expected a frame, got {other:?}"),
    };
    assert_eq!(frame.name, "destroy1");
    assert_eq!(frame.body, "");
}
