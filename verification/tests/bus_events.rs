//! The event bus: fan-out order, lag handling, and teardown.

use liveboard::bus::{DomainEvent, EventBus, RecvOutcome};

fn created(id: i32) -> DomainEvent {
    DomainEvent::Created {
        id,
        title: format!("title {id}"),
        content: format!("content {id}"),
    }
}

fn expect_created(outcome: RecvOutcome, seq: u64, id: i32) {
    match outcome {
        RecvOutcome::Event(le) => {
            assert_eq!(le.seq, seq);
            match le.event {
                DomainEvent::Created { id: got, title, content } => {
                    assert_eq!(got, id);
                    assert_eq!(title, format!("title {id}"));
                    assert_eq!(content, format!("content {id}"));
                }
                other => panic!("expected a created event, got {other:?}"),
            }
        }
        other => panic!("expected an event, got {other:?}"),
    }
}

#[test]
fn subscriber_receives_published_events_in_order() {
    let mut bus = EventBus::new(8);
    let a = bus.subscribe();
    bus.publish(created(1));
    bus.publish(created(2));
    bus.publish(created(3));
    expect_created(bus.recv(a), 0, 1);
    expect_created(bus.recv(a), 1, 2);
    expect_created(bus.recv(a), 2, 3);
    assert!(matches!(bus.recv(a), RecvOutcome::Empty));
}

#[test]
fn every_subscriber_receives_every_event() {
    let mut bus = EventBus::new(8);
    let a = bus.subscribe();
    let b = bus.subscribe();
    bus.publish(created(1));
    bus.publish(created(2));
    for handle in [a, b] {
        expect_created(bus.recv(handle), 0, 1);
        expect_created(bus.recv(handle), 1, 2);
        assert!(matches!(bus.recv(handle), RecvOutcome::Empty));
    }
}

#[test]
fn no_historical_replay_for_late_subscribers() {
    let mut bus = EventBus::new(8);
    bus.publish(created(1));
    let late = bus.subscribe();
    assert!(matches!(bus.recv(late), RecvOutcome::Empty));
    bus.publish(created(2));
    expect_created(bus.recv(late), 1, 2);
}

#[test]
fn overflow_drops_oldest_keeps_newest_and_reports_lag() {
    let mut bus = EventBus::new(2);
    let a = bus.subscribe();
    for id in 1..=5 {
        bus.publish(created(id));
    }
    match bus.recv(a) {
        RecvOutcome::Lagged(n) => assert_eq!(n, 3),
        other => panic!("expected a lag report, got {other:?}"),
    }
    expect_created(bus.recv(a), 3, 4);
    expect_created(bus.recv(a), 4, 5);
    assert!(matches!(bus.recv(a), RecvOutcome::Empty));
}

#[test]
fn lag_is_reported_once_until_the_next_overflow() {
    let mut bus = EventBus::new(1);
    let a = bus.subscribe();
    bus.publish(created(1));
    bus.publish(created(2));
    assert!(matches!(bus.recv(a), RecvOutcome::Lagged(1)));
    expect_created(bus.recv(a), 1, 2);
    bus.publish(created(3));
    expect_created(bus.recv(a), 2, 3);
}

#[test]
fn publish_with_no_subscribers_is_a_noop() {
    let mut bus = EventBus::new(4);
    bus.publish(created(1));
    bus.publish(created(2));
    assert_eq!(bus.subscriber_count(), 0);
    let late = bus.subscribe();
    assert!(matches!(bus.recv(late), RecvOutcome::Empty));
}

#[test]
fn unsubscribe_then_publish_is_harmless() {
    let mut bus = EventBus::new(4);
    let a = bus.subscribe();
    let b = bus.subscribe();
    assert_eq!(bus.subscriber_count(), 2);
    assert!(bus.unsubscribe(a));
    assert_eq!(bus.subscriber_count(), 1);
    for id in 1..=3 {
        bus.publish(created(id));
    }
    assert!(matches!(bus.recv(a), RecvOutcome::Gone));
    expect_created(bus.recv(b), 0, 1);
    expect_created(bus.recv(b), 1, 2);
    expect_created(bus.recv(b), 2, 3);
    assert!(!bus.unsubscribe(a));
    assert_eq!(bus.subscriber_count(), 1);
}

#[test]
fn sequence_labels_follow_publication_order() {
    let mut bus = EventBus::new(8);
    let a = bus.subscribe();
    bus.publish(DomainEvent::Deleted { id: 10 });
    bus.publish(DomainEvent::Deleted { id: 20 });
    bus.publish(DomainEvent::Deleted { id: 30 });
    let mut seqs = Vec::new();
    loop {
        match bus.recv(a) {
            RecvOutcome::Event(le) => seqs.push(le.seq),
            RecvOutcome::Empty => break,
            other => panic!("unexpected outcome {other:?}"),
        }
    }
    assert_eq!(seqs, vec![0, 1, 2]);
}
