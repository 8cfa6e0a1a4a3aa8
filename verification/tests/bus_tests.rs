use for_event_bus::bus::CHANNEL_CAPACITY;
use for_event_bus::{
    Bus, BusError, BusEvent, Event, Merge, SimpleBus, ToWorker, WorkerId,
};

#[derive(Clone, Debug, PartialEq)]
struct AEvent(u32);

#[derive(Clone, Debug, PartialEq)]
struct BEvent(u32);

#[derive(Clone, Debug, PartialEq)]
struct Close;

impl Event for AEvent {
    fn type_tag() -> u64 {
        1
    }
    fn event_name() -> String {
        "AEvent".to_string()
    }
}

impl Event for BEvent {
    fn type_tag() -> u64 {
        2
    }
    fn event_name() -> String {
        "BEvent".to_string()
    }
}

impl Event for Close {
    fn type_tag() -> u64 {
        3
    }
    fn event_name() -> String {
        "Close".to_string()
    }
}

struct W1;

impl ToWorker for W1 {
    fn name() -> String {
        "W1".to_string()
    }
}

struct W2;

impl ToWorker for W2 {
    fn name() -> String {
        "W2".to_string()
    }
}

#[derive(Clone, Debug, PartialEq)]
enum MergeEvent {
    A(AEvent),
    Close(Close),
}

impl Merge for MergeEvent {
    fn merge(event: BusEvent) -> Result<Self, BusError> {
        if let Ok(a) = event.recover::<AEvent>() {
            return Ok(MergeEvent::A(a));
        }
        if let Ok(c) = event.recover::<Close>() {
            return Ok(MergeEvent::Close(c));
        }
        Err(BusError::DowncastErr)
    }

    fn subscribe_types() -> Vec<(u64, String)> {
        vec![
            (AEvent::type_tag(), AEvent::event_name()),
            (Close::type_tag(), Close::event_name()),
        ]
    }
}

#[test]
fn subscriber_receives_its_type_and_not_others() {
    let mut bus = SimpleBus::init();
    let mut rx = bus.login::<W1>().unwrap();
    rx.subscribe::<AEvent>(&mut bus).unwrap();

    bus.dispatch_event(AEvent(10)).unwrap();
    bus.dispatch_event(BEvent(20)).unwrap();

    let envelope = rx.try_recv_event().unwrap().unwrap();
    assert_eq!(envelope.recover::<AEvent>().unwrap(), AEvent(10));
    // the BEvent was never delivered to this worker
    assert!(rx.try_recv_event().unwrap().is_none());
}

#[test]
fn fan_out_reaches_every_subscriber() {
    let mut bus = SimpleBus::init();
    let mut rx1 = bus.login::<W1>().unwrap();
    let mut rx2 = bus.login::<W2>().unwrap();
    rx1.subscribe::<AEvent>(&mut bus).unwrap();
    rx2.subscribe::<AEvent>(&mut bus).unwrap();

    bus.dispatch_event(AEvent(5)).unwrap();

    let e1 = rx1.try_recv_event().unwrap().unwrap();
    let e2 = rx2.try_recv_event().unwrap().unwrap();
    assert_eq!(e1.recover::<AEvent>().unwrap(), AEvent(5));
    assert_eq!(e2.recover::<AEvent>().unwrap(), AEvent(5));
}

#[test]
fn subscribing_twice_is_one_subscription() {
    let mut bus = SimpleBus::init();
    let mut rx = bus.login::<W1>().unwrap();
    rx.subscribe::<AEvent>(&mut bus).unwrap();
    rx.subscribe::<AEvent>(&mut bus).unwrap();

    assert_eq!(bus.subscribers_of(AEvent::type_tag()).len(), 1);

    bus.dispatch_event(AEvent(8)).unwrap();
    let envelope = rx.try_recv_event().unwrap().unwrap();
    assert_eq!(envelope.recover::<AEvent>().unwrap(), AEvent(8));
    // exactly one delivery, not two
    assert!(rx.try_recv_event().unwrap().is_none());
}

#[test]
fn merge_worker_gets_declared_types_as_variants() {
    let mut bus = SimpleBus::init();
    let mut merge = bus.merge_login::<W1, MergeEvent>().unwrap();

    bus.dispatch_event(AEvent(1)).unwrap();
    bus.dispatch_event(BEvent(2)).unwrap();
    bus.dispatch_event(Close).unwrap();

    assert_eq!(merge.try_recv().unwrap().unwrap(), MergeEvent::A(AEvent(1)));
    // the BEvent is outside the declared list and never reaches the worker
    assert_eq!(merge.try_recv().unwrap().unwrap(), MergeEvent::Close(Close));
    assert!(merge.try_recv().unwrap().is_none());
}

#[test]
fn rx_worker_sees_one_event_and_no_unsubscribed_close() {
    let mut bus = SimpleBus::init();
    let mut w1 = bus.login::<W1>().unwrap();
    w1.subscribe::<AEvent>(&mut bus).unwrap();

    bus.dispatch_event(AEvent(11)).unwrap();
    bus.dispatch_event(Close).unwrap();

    let only = w1.try_recv_event().unwrap().unwrap();
    assert_eq!(only.recover::<AEvent>().unwrap(), AEvent(11));
    assert!(w1.try_recv_event().unwrap().is_none());
}

#[test]
fn merge_worker_sees_dispatch_order() {
    let mut bus = SimpleBus::init();
    let mut w2 = bus.merge_login::<W2, MergeEvent>().unwrap();

    bus.dispatch_event(AEvent(3)).unwrap();
    bus.dispatch_event(Close).unwrap();

    assert_eq!(w2.try_recv().unwrap().unwrap(), MergeEvent::A(AEvent(3)));
    assert_eq!(w2.try_recv().unwrap().unwrap(), MergeEvent::Close(Close));
}

#[test]
fn fixed_capacity_bus_rejects_third_registration() {
    let mut bus = Bus::<2>::init();
    let mut first = bus.login::<W1>().unwrap();
    let mut second = bus.login::<W2>().unwrap();

    let third = bus.login::<W1>();
    match third {
        Ok(_) => panic!("a third registration on a bus of capacity 2 must fail"),
        Err(e) => assert_eq!(e, BusError::RegistryFull),
    }

    // the two registered workers still subscribe and dispatch independently
    first.subscribe::<AEvent>(&mut bus).unwrap();
    second.subscribe::<BEvent>(&mut bus).unwrap();
    first.dispatch_event(&bus, BEvent(2)).unwrap();
    second.dispatch_event(&bus, AEvent(1)).unwrap();
    let to_first = first.try_recv_event().unwrap().unwrap();
    assert_eq!(to_first.recover::<AEvent>().unwrap(), AEvent(1));
    let to_second = second.try_recv_event().unwrap().unwrap();
    assert_eq!(to_second.recover::<BEvent>().unwrap(), BEvent(2));
}

#[test]
fn subscribe_with_foreign_identity_is_refused() {
    let mut bus = SimpleBus::init();
    let ghost_id = WorkerId::init(999, "ghost".to_string());
    let refused = bus.subscribe::<AEvent>(&ghost_id);
    assert_eq!(refused.unwrap_err(), BusError::UnknownWorker);
}

#[test]
fn full_channel_fails_the_dispatch() {
    let mut bus = SimpleBus::init();
    let rx = bus.login::<W1>().unwrap();
    rx.subscribe::<AEvent>(&mut bus).unwrap();

    for n in 0..CHANNEL_CAPACITY {
        bus.dispatch_event(AEvent(n as u32)).unwrap();
    }
    let overflow = bus.dispatch_event(AEvent(0));
    assert_eq!(overflow.unwrap_err(), BusError::ChannelFull);
}

#[test]
fn closed_channel_fails_the_dispatch() {
    let mut bus = SimpleBus::init();
    let rx = bus.login::<W1>().unwrap();
    rx.subscribe::<AEvent>(&mut bus).unwrap();
    let id = rx.id().clone();
    drop(rx);

    let undeliverable = bus.dispatch_event(AEvent(1));
    assert_eq!(undeliverable.unwrap_err(), BusError::ChannelClosed);
    assert_eq!(bus.subscribers_of(AEvent::type_tag()).len(), 1);
    assert_eq!(bus.subscribers_of(AEvent::type_tag())[0].num(), id.num());
}

#[test]
fn simple_login_hands_out_dispatch_only_identity() {
    let mut bus = SimpleBus::init();
    let mut rx = bus.login::<W1>().unwrap();
    rx.subscribe::<AEvent>(&mut bus).unwrap();
    let publisher = bus.simple_login::<W2, AEvent>().unwrap();

    assert_ne!(publisher.id().num(), rx.id().num());
    assert_eq!(publisher.id().name(), "W2");

    publisher.dispatch_event(&bus, AEvent(77)).unwrap();
    let envelope = rx.try_recv_event().unwrap().unwrap();
    assert_eq!(envelope.recover::<AEvent>().unwrap(), AEvent(77));
}

#[test]
fn subscribers_are_listed_in_registration_order() {
    let mut bus = SimpleBus::init();
    let a = bus.login::<W1>().unwrap();
    let b = bus.login::<W2>().unwrap();
    a.subscribe::<AEvent>(&mut bus).unwrap();
    b.subscribe::<AEvent>(&mut bus).unwrap();

    let listed = bus.subscribers_of(AEvent::type_tag());
    assert_eq!(listed.len(), 2);
    assert_eq!(listed[0].num(), a.id().num());
    assert_eq!(listed[1].num(), b.id().num());
    assert_eq!(listed[0].name(), "W1");
    assert_eq!(listed[1].name(), "W2");

    assert_eq!(bus.subscribers_of(BEvent::type_tag()).len(), 0);
}

#[test]
fn dispatch_with_no_subscribers_succeeds() {
    let bus = SimpleBus::init();
    bus.dispatch_event(AEvent(1)).unwrap();

    let mut bounded = Bus::<2>::init();
    let _rx = bounded.login::<W1>().unwrap();
    // a registered worker without a matching subscription is not a target
    bounded.dispatch_event(AEvent(1)).unwrap();
}

#[test]
fn receive_reports_closed_channel_after_bus_is_gone() {
    let mut bus = SimpleBus::init();
    let mut rx = bus.login::<W1>().unwrap();
    rx.subscribe::<AEvent>(&mut bus).unwrap();
    bus.dispatch_event(AEvent(4)).unwrap();
    drop(bus);

    // the queued envelope is still delivered, then the closed end shows
    let queued = rx.try_recv_event().unwrap().unwrap();
    assert_eq!(queued.recover::<AEvent>().unwrap(), AEvent(4));
    match rx.try_recv_event() {
        Ok(_) => panic!("a drained channel with no bus left must report closure"),
        Err(e) => assert_eq!(e, BusError::ChannelClosed),
    }
}

#[test]
fn login_allocates_fresh_numbered_identities() {
    let mut bus = SimpleBus::init();
    let first = bus.login::<W1>().unwrap();
    let second = bus.login::<W1>().unwrap();
    // two workers may share a logical name but never a number
    assert_eq!(first.id().name(), "W1");
    assert_eq!(second.id().name(), "W1");
    assert_ne!(first.id().num(), second.id().num());
}
