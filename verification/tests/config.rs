use oro_link::config::{
    bool_from_str, BootSource, ConfigText, ConfigValue, OnceValue, Opt, PowerType, UsbIface, Wol,
};

#[test]
fn power_type_names() {
    assert_eq!(PowerType::from_str("usb"), Ok(PowerType::Usb));
    assert_eq!(PowerType::from_str("vbus"), Ok(PowerType::UsbVbus));
    assert_eq!(PowerType::from_str("psu"), Ok(PowerType::Psu));
    assert_eq!(PowerType::from_str("usb_vbus"), Err(()));
    assert_eq!(PowerType::from_str(""), Err(()));
}

#[test]
fn usb_iface_names() {
    assert_eq!(UsbIface::from_str("port"), Ok(UsbIface::Port));
    assert_eq!(UsbIface::from_str("header"), Ok(UsbIface::Header));
    assert_eq!(UsbIface::from_str("Port"), Err(()));
}

#[test]
fn boot_source_names() {
    assert_eq!(BootSource::from_str("usb_msd"), Ok(BootSource::UsbMsd));
    assert_eq!(BootSource::from_str("sd"), Ok(BootSource::Sd));
    assert_eq!(BootSource::from_str("usb"), Err(()));
}

#[test]
fn wol_names() {
    assert_eq!(Wol::from_str("off"), Ok(Wol::Off));
    assert_eq!(Wol::from_str("5m"), Ok(Wol::Mins5));
    assert_eq!(Wol::from_str("10m"), Ok(Wol::Mins10));
    assert_eq!(Wol::from_str("30m"), Ok(Wol::Mins30));
    assert_eq!(Wol::from_str("15m"), Err(()));
}

#[test]
fn bool_names() {
    assert_eq!(bool_from_str("true"), Ok(true));
    assert_eq!(bool_from_str("false"), Ok(false));
    assert_eq!(bool_from_str("True"), Err(()));
}

#[test]
fn payloads_read_as_values() {
    assert_eq!(<PowerType as ConfigValue>::from_payload(b"psu"), Some(PowerType::Psu));
    assert_eq!(<PowerType as ConfigValue>::from_payload(&[0xFF, 0x70]), None);
    assert_eq!(<bool as ConfigValue>::from_payload(b"true"), Some(true));
    assert_eq!(<u64 as ConfigValue>::from_payload(b"1234"), Some(1234));
    assert_eq!(<u64 as ConfigValue>::from_payload(b"+7"), Some(7));
    assert_eq!(<u64 as ConfigValue>::from_payload(b"18446744073709551615"), Some(u64::MAX));
    assert_eq!(<u64 as ConfigValue>::from_payload(b"18446744073709551616"), None);
    assert_eq!(<u64 as ConfigValue>::from_payload(b"12a"), None);
    assert_eq!(<u64 as ConfigValue>::from_payload(b"+"), None);
    assert_eq!(<u64 as ConfigValue>::from_payload(b""), None);
    assert_eq!(<Wol as ConfigValue>::from_payload(b"30m"), Some(Wol::Mins30));
    assert_eq!(<UsbIface as ConfigValue>::from_payload(b"header"), Some(UsbIface::Header));
    assert_eq!(<BootSource as ConfigValue>::from_payload(b"sd"), Some(BootSource::Sd));
}

#[test]
fn once_value_is_taken_once() {
    let mut v = OnceValue::new(5u8);
    assert_eq!(v.take(), Some(5));
    assert_eq!(v.take(), None);
    assert_eq!(v.take(), None);
}

#[test]
fn option_with_default_hands_out_default_first() {
    let mut opt = Opt::new_with_default("pr/run", false);
    assert_eq!(opt.suffix(), "pr/run");
    assert!(opt.update(b"true"));
    assert_eq!(opt.next(), Some(false));
    assert_eq!(opt.next(), Some(true));
    assert_eq!(opt.next(), None);
}

#[test]
fn option_without_default_waits_for_a_value() {
    let mut opt: Opt<PowerType> = Opt::new("config/power_type");
    assert_eq!(opt.next(), None);
    assert!(!opt.update(b"battery"));
    assert_eq!(opt.next(), None);
    assert!(opt.update(b"usb"));
    assert!(opt.update(b"psu"));
    assert_eq!(opt.next(), Some(PowerType::Psu));
    assert_eq!(opt.next(), None);
}

#[test]
fn text_option_takes_short_utf8() {
    assert_eq!(
        <ConfigText as ConfigValue>::from_payload(b"title"),
        Some(ConfigText("title".to_string()))
    );
    assert_eq!(
        <ConfigText as ConfigValue>::from_payload(&[0xffu8, 0x41]),
        None
    );
    let long = [b'a'; 65];
    assert_eq!(<ConfigText as ConfigValue>::from_payload(&long), None);
    let exact = [b'b'; 64];
    assert_eq!(
        <ConfigText as ConfigValue>::from_payload(&exact),
        Some(ConfigText("b".repeat(64)))
    );
}

#[test]
fn text_option_update() {
    let mut opt: Opt<ConfigText> = Opt::new("config/hostname");
    assert!(opt.update(b"rack-1"));
    assert_eq!(opt.next(), Some(ConfigText("rack-1".to_string())));
    assert_eq!(opt.next(), None);
}
