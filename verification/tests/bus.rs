//! The pub/sub utility: ids, fan-out order, and exact removal.

use bluebird_core::message_bus::RecordingSubscriber;
use bluebird_core::CoreError;
use bluebird_core::MessageBus;

#[test]
fn subscribe_assigns_increasing_ids_from_zero() {
    let mut bus: MessageBus<i64, RecordingSubscriber> = MessageBus::new();
    let a = bus.subscribe(RecordingSubscriber::new());
    let b = bus.subscribe(RecordingSubscriber::new());
    let c = bus.subscribe(RecordingSubscriber::new());
    assert_eq!(a, 0);
    assert_eq!(b, 1);
    assert_eq!(c, 2);
}

#[test]
fn publish_reaches_every_subscriber() {
    let mut bus: MessageBus<i64, RecordingSubscriber> = MessageBus::new();
    let a = bus.subscribe(RecordingSubscriber::new());
    let b = bus.subscribe(RecordingSubscriber::new());
    bus.publish(&(), &5);
    bus.publish(&(), &7);
    let ra = bus.unsubscribe(a).unwrap();
    let rb = bus.unsubscribe(b).unwrap();
    assert_eq!(ra.seen, vec![5, 7]);
    assert_eq!(rb.seen, vec![5, 7]);
}

#[test]
fn unsubscribe_removes_exactly_that_handler() {
    let mut bus: MessageBus<i64, RecordingSubscriber> = MessageBus::new();
    let a = bus.subscribe(RecordingSubscriber::new());
    let b = bus.subscribe(RecordingSubscriber::new());
    bus.publish(&(), &1);
    let removed = bus.unsubscribe(a).unwrap();
    assert_eq!(removed.seen, vec![1]);
    bus.publish(&(), &2);
    let rb = bus.unsubscribe(b).unwrap();
    assert_eq!(rb.seen, vec![1, 2]);
    assert_eq!(removed.seen, vec![1]);
}

#[test]
fn unsubscribe_unknown_id_reports_handler_not_found() {
    let mut bus: MessageBus<i64, RecordingSubscriber> = MessageBus::new();
    let a = bus.subscribe(RecordingSubscriber::new());
    assert!(matches!(bus.unsubscribe(99), Err(CoreError::HandlerNotFound)));
    let _ = bus.unsubscribe(a).unwrap();
    assert!(matches!(bus.unsubscribe(a), Err(CoreError::HandlerNotFound)));
}

#[test]
fn ids_are_never_reused_after_removal() {
    let mut bus: MessageBus<i64, RecordingSubscriber> = MessageBus::new();
    let a = bus.subscribe(RecordingSubscriber::new());
    let _ = bus.unsubscribe(a).unwrap();
    let b = bus.subscribe(RecordingSubscriber::new());
    assert_eq!(b, 1);
}
