use chat_bus::bus::{Bus, Outcome};
use chat_bus::message::Message;

fn msg(text: &str) -> Message {
    Message::new("room".to_string(), "user".to_string(), text.to_string())
}

#[test]
fn bounded_loss_reports_lag_and_resumes() {
    let mut bus = Bus::new(2);
    let mut s = bus.subscribe();
    for i in 0..5 {
        assert_eq!(bus.publish(msg(&format!("m{}", i))), Ok(1));
    }
    // capacity 2 and 5 published: m0..m2 were dropped for this consumer
    assert_eq!(s.receive(&bus), Some(Outcome::Lagged(3)));
    assert_eq!(s.receive(&bus), Some(Outcome::Message(msg("m3"))));
    assert_eq!(s.receive(&bus), Some(Outcome::Message(msg("m4"))));
    assert_eq!(s.receive(&bus), None);
}

#[test]
fn slow_consumer_does_not_affect_fast() {
    let mut bus = Bus::new(2);
    let mut slow = bus.subscribe();
    let mut fast = bus.subscribe();
    for i in 0..5 {
        assert_eq!(bus.publish(msg(&format!("m{}", i))), Ok(2));
        // the fast consumer keeps up and never sees a lag
        assert_eq!(fast.receive(&bus), Some(Outcome::Message(msg(&format!("m{}", i)))));
    }
    assert_eq!(fast.receive(&bus), None);
    // the slow consumer alone pays for falling behind
    assert_eq!(slow.receive(&bus), Some(Outcome::Lagged(3)));
    assert_eq!(slow.receive(&bus), Some(Outcome::Message(msg("m3"))));
}

#[test]
fn exactly_capacity_messages_are_retained() {
    let mut bus = Bus::new(3);
    let mut s = bus.subscribe();
    for i in 0..3 {
        assert_eq!(bus.publish(msg(&format!("m{}", i))), Ok(1));
    }
    // nothing dropped yet: the buffer holds exactly `capacity` messages
    assert_eq!(s.receive(&bus), Some(Outcome::Message(msg("m0"))));
    assert_eq!(s.receive(&bus), Some(Outcome::Message(msg("m1"))));
    assert_eq!(s.receive(&bus), Some(Outcome::Message(msg("m2"))));
    assert_eq!(s.receive(&bus), None);
}

#[test]
fn unsubscribe_updates_count() {
    let mut bus = Bus::new(4);
    let s1 = bus.subscribe();
    let _s2 = bus.subscribe();
    assert_eq!(bus.subscriber_count(), 2);
    bus.unsubscribe(s1);
    assert_eq!(bus.subscriber_count(), 1);
    assert_eq!(bus.publish(msg("hello")), Ok(1));
}

#[test]
fn published_counts_all_messages() {
    let mut bus = Bus::new(2);
    assert_eq!(bus.published(), 0);
    for i in 0..5 {
        bus.publish(msg(&format!("m{}", i))).unwrap();
    }
    // drops for slow consumers do not erase the count of publishes
    assert_eq!(bus.published(), 5);
}
