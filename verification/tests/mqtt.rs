use oro_link::mqtt::{
    prepare_topic, try_prepare_topic, wait_outcome, ConnectedSocketTransport,
    StartError, WaitOutcome, SERVICE_PORT, TOPIC_CAPACITY,
};

#[test]
fn topic_is_prefixed() {
    let t = prepare_topic("abc123", "status/config");
    assert_eq!(t.as_str(), "abc123/status/config");
}

#[test]
fn topic_that_fills_capacity_is_kept() {
    let prefix = "p".repeat(10);
    let suffix = "s".repeat(TOPIC_CAPACITY - 11);
    let t = try_prepare_topic(&prefix, suffix.as_str()).ok().unwrap();
    assert_eq!(t.as_str().len(), TOPIC_CAPACITY);
}

#[test]
fn topic_too_long_is_refused() {
    let prefix = "p".repeat(10);
    let suffix = "s".repeat(TOPIC_CAPACITY - 10);
    assert_eq!(try_prepare_topic(&prefix, suffix.as_str()).err(), Some(suffix.as_str()));
    assert!(try_prepare_topic(&"p".repeat(64), "").is_err());
    assert!(try_prepare_topic(&"p".repeat(63), "").is_ok());
}

#[test]
fn transport_connect_and_disconnect_are_no_ops() {
    let mut t = ConnectedSocketTransport::new(5u32);
    assert!(!t.is_connected());
    assert_eq!(t.socket().ok().copied(), Some(5));
    assert_eq!(t.disconnect(), Ok(()));
    assert!(!t.is_connected());
    assert_eq!(t.connect(), Ok(()));
    assert!(t.is_connected());
    assert_eq!(t.connect(), Ok(()));
    assert_eq!(t.disconnect(), Ok(()));
    assert!(t.is_connected());
    let s = t.socket().unwrap();
    assert_eq!(*s, 5);
    *s = 6;
    assert_eq!(*t.socket().unwrap(), 6);
}

#[test]
fn transport_is_connected_after_any_number_of_connects() {
    for k in 0..4 {
        let mut t = ConnectedSocketTransport::new(());
        for _ in 0..k {
            assert_eq!(t.connect(), Ok(()));
        }
        assert_eq!(t.is_connected(), k >= 1);
    }
}

#[test]
fn session_wait_outcomes() {
    assert_eq!(wait_outcome(WaitOutcome::Connected), Ok(()));
    assert_eq!(wait_outcome(WaitOutcome::ResponderStopped), Err(StartError::MdnsStopped));
    assert_eq!(wait_outcome(WaitOutcome::ResponderFailed), Err(StartError::Mdns));
    assert_eq!(wait_outcome(WaitOutcome::AcceptFailed), Err(StartError::Accept));
    assert_eq!(SERVICE_PORT, 1883);
}

#[test]
fn prefixed_topic_is_kept_under_any_prefix() {
    let t = prepare_topic("abc123", "status/config");
    let again = try_prepare_topic("other", t).ok().unwrap();
    assert_eq!(again.as_str(), "abc123/status/config");
}

#[test]
fn borrowed_prefixed_topic_is_copied() {
    let t = prepare_topic("abc123", "power/vbus_state");
    let copy = try_prepare_topic("other", &t).ok().unwrap();
    assert_eq!(copy.as_str(), "abc123/power/vbus_state");
    assert_eq!(t.as_str(), "abc123/power/vbus_state");
}
