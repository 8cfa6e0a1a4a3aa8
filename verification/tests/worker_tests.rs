use for_event_bus::{BusEvent, CopyOfWorker, Event, WorkerId};

#[derive(Clone, Debug, PartialEq)]
struct Ping(u8);

impl Event for Ping {
    fn type_tag() -> u64 {
        9
    }
    fn event_name() -> String {
        "Ping".to_string()
    }
}

#[test]
fn record_starts_with_no_subscriptions() {
    let (tx, _rx) = tokio::sync::mpsc::channel::<BusEvent>(4);
    let record = CopyOfWorker::init(WorkerId::init(0, "r".to_string()), tx);
    assert!(record.subscribe_events().is_empty());
    assert!(!record.is_subscribed(9));
    assert_eq!(record.id().name(), "r");
    assert_eq!(record.id_num(), 0);
}

#[test]
fn subscribing_a_record_is_idempotent() {
    let (tx, _rx) = tokio::sync::mpsc::channel::<BusEvent>(4);
    let mut record = CopyOfWorker::init(WorkerId::init(1, "r".to_string()), tx);
    record.subscribe_event(9);
    record.subscribe_event(9);
    record.subscribe_event(4);
    assert_eq!(record.subscribe_events().as_slice(), &[9, 4]);
    assert!(record.is_subscribed(9));
    assert!(record.is_subscribed(4));
    assert!(!record.is_subscribed(5));
}

#[test]
fn subscriber_projection_sends_on_the_record_channel() {
    let (tx, mut rx) = tokio::sync::mpsc::channel::<BusEvent>(4);
    let record = CopyOfWorker::init(WorkerId::init(2, "r".to_string()), tx);
    let worker = record.init_subscriber();
    assert_eq!(worker.id().num(), 2);

    worker.try_send(BusEvent::erase(Ping(7))).unwrap();
    record.try_send(BusEvent::erase(Ping(8))).unwrap();

    let first = rx.try_recv().unwrap();
    assert_eq!(first.recover::<Ping>().unwrap(), Ping(7));
    let second = rx.try_recv().unwrap();
    assert_eq!(second.recover::<Ping>().unwrap(), Ping(8));
}
