use iswitch::watch::{next_relay_action, Debouncer, RelayAction, RelayEvent, WatchEvent};

const MILLI: u128 = 1_000_000;

#[test]
fn the_first_half_second_is_quiet() {
    let mut debouncer = Debouncer::new(0);
    assert!(!debouncer.on_event(WatchEvent::Modified, 0));
    assert!(!debouncer.on_event(WatchEvent::Modified, 500 * MILLI));
    assert!(debouncer.on_event(WatchEvent::Modified, 500 * MILLI + 1));
}

#[test]
fn one_reload_for_a_burst() {
    let mut debouncer = Debouncer::new(0);
    assert!(debouncer.on_event(WatchEvent::Modified, 1000 * MILLI));
    assert!(!debouncer.on_event(WatchEvent::Modified, 1100 * MILLI));
    assert!(!debouncer.on_event(WatchEvent::Modified, 1500 * MILLI));
    assert!(debouncer.on_event(WatchEvent::Modified, 1501 * MILLI));
    assert_eq!(debouncer.last, 1501 * MILLI);
}

#[test]
fn only_modifications_count() {
    let mut debouncer = Debouncer::new(0);
    assert!(!debouncer.on_event(WatchEvent::Other, 1000 * MILLI));
    assert!(!debouncer.on_event(WatchEvent::Failed, 1000 * MILLI));
    assert_eq!(debouncer.last, 0);
    assert!(debouncer.on_event(WatchEvent::Modified, 1000 * MILLI));
}

#[test]
fn a_time_before_the_last_reload() {
    let mut debouncer = Debouncer::new(1000 * MILLI);
    assert!(!debouncer.on_event(WatchEvent::Modified, 0));
    assert_eq!(debouncer.last, 1000 * MILLI);
}

#[test]
fn a_watcher_that_fails() {
    match next_relay_action("\"/c\"", &RelayEvent::Made(Some("no".to_string()))) {
        RelayAction::Fail(message) => assert_eq!(message, "Watcher init failed: no"),
        other => panic!("{:?}", other),
    }
    match next_relay_action("\"/c\"", &RelayEvent::Watching(Some("no".to_string()))) {
        RelayAction::Fail(message) => assert_eq!(message, "Failed to watch \"/c\": no"),
        other => panic!("{:?}", other),
    }
}

#[test]
fn requests_are_passed_on() {
    assert!(matches!(next_relay_action("", &RelayEvent::Made(None)), RelayAction::Watch));
    assert!(matches!(next_relay_action("", &RelayEvent::Watching(None)), RelayAction::Wait));
    assert!(matches!(next_relay_action("", &RelayEvent::Asked(true)), RelayAction::Send));
    assert!(matches!(next_relay_action("", &RelayEvent::Sent(true)), RelayAction::Wait));
    assert!(matches!(next_relay_action("", &RelayEvent::Asked(false)), RelayAction::Stop));
    assert!(matches!(next_relay_action("", &RelayEvent::Sent(false)), RelayAction::Stop));
}
