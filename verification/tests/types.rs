use shack::api::{SetRequest, SetRequestTarget};
use shack::event::{ButtonEvent, EventError};
use shack::program::DiscreteParameterLevel;
use shack::{HIGH, LOW};
use std::time::Duration;

#[test]
fn event_error_text_is_its_message() {
    let e = EventError {
        message: "sensor offline".to_string(),
        chain: vec!["timeout".to_string()],
        backtrace: None,
    };
    assert_eq!(e.to_string(), "sensor offline");
}

#[test]
fn button_events_order() {
    assert!(ButtonEvent::Down < ButtonEvent::Up);
    assert!(
        ButtonEvent::Clicked { duration: Duration::from_millis(10) }
            < ButtonEvent::Clicked { duration: Duration::from_millis(20) }
    );
    assert!(ButtonEvent::Up < ButtonEvent::LongPress { seconds: 1 });
}

#[test]
fn logic_levels() {
    assert_eq!(HIGH, u16::MAX);
    assert_eq!(LOW, 0);
    let r = SetRequest { value: HIGH, target: SetRequestTarget::Alias("lamp".to_string()) };
    assert_eq!(r.value, 65535);
    let l = DiscreteParameterLevel { description: "dim".to_string() };
    assert_eq!(l.description, "dim");
}

#[test]
fn event_error_from_parts_keeps_the_causes() {
    let chain = vec!["outer".to_string(), "middle".to_string(), "root".to_string()];
    let e = EventError::from_parts("outer".to_string(), &chain, Some("bt".to_string()));
    assert_eq!(e.message, "outer");
    assert_eq!(e.chain, vec!["middle".to_string(), "root".to_string()]);
    assert_eq!(e.backtrace.as_deref(), Some("bt"));
    let e = EventError::from_parts("alone".to_string(), &vec!["alone".to_string()], None);
    assert!(e.chain.is_empty());
    let e = EventError::from_parts("none".to_string(), &vec![], None);
    assert!(e.chain.is_empty());
    assert_eq!(e.backtrace, None);
}
