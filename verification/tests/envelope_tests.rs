use for_event_bus::{BusError, BusEvent, Event, WorkerId};

#[derive(Clone, Debug, PartialEq)]
struct AEvent(u32);

#[derive(Clone, Debug, PartialEq)]
struct BEvent(String);

impl Event for AEvent {
    fn type_tag() -> u64 {
        1
    }
    fn event_name() -> String {
        "AEvent".to_string()
    }
}

impl Event for BEvent {
    fn type_tag() -> u64 {
        2
    }
    fn event_name() -> String {
        "BEvent".to_string()
    }
}

#[test]
fn erase_then_recover_same_type_yields_original() {
    let envelope = BusEvent::erase(AEvent(7));
    assert_eq!(envelope.tag(), 1);
    assert_eq!(envelope.event_name(), "AEvent");
    let back: AEvent = envelope.recover().unwrap();
    assert_eq!(back, AEvent(7));
}

#[test]
fn recover_against_wrong_type_fails_with_downcast_err() {
    let envelope = BusEvent::erase(AEvent(7));
    let wrong: Result<BEvent, BusError> = envelope.recover();
    assert_eq!(wrong.unwrap_err(), BusError::DowncastErr);
    // a failed match leaves later matches possible
    let right: AEvent = envelope.recover().unwrap();
    assert_eq!(right, AEvent(7));
}

#[test]
fn recover_can_be_repeated() {
    let envelope = BusEvent::erase(BEvent("payload".to_string()));
    let first: BEvent = envelope.recover().unwrap();
    let second: BEvent = envelope.recover().unwrap();
    assert_eq!(first, second);
    assert_eq!(first, BEvent("payload".to_string()));
}

#[test]
fn duplicate_shares_tag_name_and_payload() {
    let envelope = BusEvent::erase(AEvent(42));
    let copy = envelope.duplicate();
    assert_eq!(copy.tag(), envelope.tag());
    assert_eq!(copy.event_name(), envelope.event_name());
    let from_copy: AEvent = copy.recover().unwrap();
    let from_original: AEvent = envelope.recover().unwrap();
    assert_eq!(from_copy, AEvent(42));
    assert_eq!(from_original, AEvent(42));
}

#[test]
fn worker_id_keeps_name_and_number() {
    let id = WorkerId::init(5, "alice".to_string());
    assert_eq!(id.name(), "alice");
    assert_eq!(id.num(), 5);
    assert_eq!(id.display(), "alice-5");
    let other = WorkerId::init(5, "alice".to_string());
    assert!(id.same(&other));
    let third = WorkerId::init(6, "alice".to_string());
    assert!(!id.same(&third));
}

#[test]
fn worker_id_display_handles_zero_and_large_numbers() {
    assert_eq!(WorkerId::init(0, "w".to_string()).display(), "w-0");
    assert_eq!(WorkerId::init(1203, "w".to_string()).display(), "w-1203");
}
