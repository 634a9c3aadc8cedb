use oro_link::stats::{Boolized, QoS, Stat};

#[test]
fn qos_levels() {
    assert_eq!(QoS::Q0.level(), 0);
    assert_eq!(QoS::Q1.level(), 1);
}

#[test]
fn boolized_text() {
    assert_eq!(Boolized::from(true).as_str(), "true");
    assert_eq!(Boolized::from(false).as_str(), "false");
    assert_eq!(Boolized::from(true).as_str().as_bytes(), b"true");
}

#[test]
fn stat_keeps_last_value_until_published() {
    let mut s: Stat<u32> = Stat::new("power/current_mA");
    assert_eq!(s.suffix(), "power/current_mA");
    assert_eq!(s.qos(), QoS::Q1);
    assert!(s.retain());
    assert_eq!(s.take(), None);
    s.set(1);
    s.set(2);
    assert_eq!(s.take(), Some(2));
    assert_eq!(s.take(), None);
}

#[test]
fn stat_with_options() {
    let s: Stat<u8> = Stat::with_options("status/x", QoS::Q0, false);
    assert_eq!(s.qos(), QoS::Q0);
    assert!(!s.retain());
}

#[test]
fn stat_try_set_converts_or_refuses() {
    let mut s: Stat<u8> = Stat::new("power/oled/brightness");
    assert!(s.try_set(200u32).is_ok());
    assert!(s.try_set(300u32).is_err());
    assert_eq!(s.take(), Some(200));
    assert!(s.try_set(-1i32).is_err());
    assert_eq!(s.take(), None);
}
