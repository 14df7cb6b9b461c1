use silverlink::channel::{pop_event, push_event, EventBus, EVENT_CAPACITY};
use silverlink::event::Event;

#[test]
fn channel_delivers_in_push_order() {
    let mut bus = EventBus::new();
    assert!(push_event(&mut bus, Event::StartKnit));
    assert!(push_event(&mut bus, Event::RangeChanged(true)));
    assert!(push_event(&mut bus, Event::NeedlePulse));
    assert_eq!(pop_event(&mut bus), Some(Event::StartKnit));
    assert_eq!(pop_event(&mut bus), Some(Event::RangeChanged(true)));
    assert_eq!(pop_event(&mut bus), Some(Event::NeedlePulse));
    assert_eq!(pop_event(&mut bus), None);
}

#[test]
fn pop_from_empty_channel_is_none() {
    let mut bus = EventBus::new();
    assert_eq!(pop_event(&mut bus), None);
    assert!(push_event(&mut bus, Event::StopKnit));
    assert_eq!(pop_event(&mut bus), Some(Event::StopKnit));
    assert_eq!(pop_event(&mut bus), None);
}

#[test]
fn full_channel_drops_newest_and_keeps_order() {
    let mut bus = EventBus::new();
    assert_eq!(EVENT_CAPACITY, 511);
    for i in 0..EVENT_CAPACITY {
        assert!(push_event(&mut bus, Event::DirectionChanged(i % 2 == 0)));
    }
    assert!(!push_event(&mut bus, Event::StopKnit));
    assert!(!push_event(&mut bus, Event::FireActuator));
    for i in 0..EVENT_CAPACITY {
        assert_eq!(pop_event(&mut bus), Some(Event::DirectionChanged(i % 2 == 0)));
    }
    assert_eq!(pop_event(&mut bus), None);
    assert!(push_event(&mut bus, Event::StopKnit));
    assert_eq!(pop_event(&mut bus), Some(Event::StopKnit));
}
