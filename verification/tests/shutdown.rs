use chat_bus::bus::{Bus, BusClosed, Outcome};
use chat_bus::emitter::{emitter_step, EmitterAction, EmitterEvent, EmitterState};
use chat_bus::message::Message;
use chat_bus::post;

fn msg(text: &str) -> Message {
    Message::new("room".to_string(), "user".to_string(), text.to_string())
}

#[test]
fn close_then_receive_closed() {
    let mut bus = Bus::new(4);
    let mut s1 = bus.subscribe();
    let mut s2 = bus.subscribe();
    post(&mut bus, msg("last"));
    bus.close();
    // closing wins over anything still buffered, for every subscription
    assert_eq!(s1.receive(&bus), Some(Outcome::Closed));
    assert_eq!(s1.receive(&bus), Some(Outcome::Closed));
    assert_eq!(s2.receive(&bus), Some(Outcome::Closed));
}

#[test]
fn publish_after_close_fails() {
    let mut bus = Bus::new(4);
    bus.close();
    assert_eq!(bus.publish(msg("late")), Err(BusClosed));
    assert!(bus.is_closed());
}

#[test]
fn post_after_close_leaves_bus_closed() {
    let mut bus = Bus::new(4);
    let mut s = bus.subscribe();
    bus.close();
    post(&mut bus, msg("late"));
    assert_eq!(s.receive(&bus), Some(Outcome::Closed));
}

#[test]
fn emitter_emits_each_message() {
    let step = emitter_step(
        EmitterState::Running,
        EmitterEvent::Received(Outcome::Message(msg("hi"))),
    );
    assert_eq!(step, (EmitterState::Running, EmitterAction::Emit(msg("hi"))));
}

#[test]
fn emitter_skips_lag_silently() {
    let step = emitter_step(EmitterState::Running, EmitterEvent::Received(Outcome::Lagged(7)));
    assert_eq!(step, (EmitterState::Running, EmitterAction::Continue));
}

#[test]
fn emitter_terminates_on_closed() {
    let step = emitter_step(EmitterState::Running, EmitterEvent::Received(Outcome::Closed));
    assert_eq!(step, (EmitterState::Terminated, EmitterAction::Stop));
}

#[test]
fn emitter_terminates_on_cancellation() {
    // no message needs to flow for cancellation to take effect
    let step = emitter_step(EmitterState::Running, EmitterEvent::Cancelled);
    assert_eq!(step, (EmitterState::Terminated, EmitterAction::Stop));
    // and another emitter still running is not affected: its own step
    // with a message still emits
    let other = emitter_step(
        EmitterState::Running,
        EmitterEvent::Received(Outcome::Message(msg("still here"))),
    );
    assert_eq!(other, (EmitterState::Running, EmitterAction::Emit(msg("still here"))));
}

#[test]
fn terminated_emitter_only_stops() {
    let step = emitter_step(
        EmitterState::Terminated,
        EmitterEvent::Received(Outcome::Message(msg("ignored"))),
    );
    assert_eq!(step, (EmitterState::Terminated, EmitterAction::Stop));
    let step2 = emitter_step(EmitterState::Terminated, EmitterEvent::Cancelled);
    assert_eq!(step2, (EmitterState::Terminated, EmitterAction::Stop));
}
