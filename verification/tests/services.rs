use oro_link::config::Wol;
use oro_link::leds::Rgb;
use oro_link::services::{
    failure_color, good_color, parse_endpoint, select_endpoint, store_error_resets,
    test_key_reports, usb_selector_high, vbus_requirement_met, waiting_color, wol_delay_secs,
    wol_plan, Discovery, DiscoveryAction, Endpoint, EndpointError, IdleToggle, InitAction,
    InitCmd, InitPhase, InitService, LightsAction, LightsService, State, MyDeviceHandler,
    ServiceRecord, StoreError, WolCmd,
};
use oro_link::vars::UsbIface;

#[test]
fn status_colors() {
    assert_eq!(failure_color(), Rgb::new(255, 0, 0));
    assert_eq!(waiting_color(), Rgb::new(245, 65, 5));
    assert_eq!(good_color(), Rgb::new(2, 18, 2));
}

#[test]
fn main_sequence_checks() {
    assert!(usb_selector_high(UsbIface::Port));
    assert!(!usb_selector_high(UsbIface::Header));
    assert!(vbus_requirement_met(false, false));
    assert!(vbus_requirement_met(true, true));
    assert!(!vbus_requirement_met(true, false));
}

#[test]
fn wol_delays() {
    assert_eq!(wol_delay_secs(Wol::Off), None);
    assert_eq!(wol_delay_secs(Wol::Mins5), Some(300));
    assert_eq!(wol_delay_secs(Wol::Mins10), Some(600));
    assert_eq!(wol_delay_secs(Wol::Mins30), Some(1800));
}

#[test]
fn wol_timer_plan() {
    assert!(wol_plan(WolCmd::Off).is_none());
    let (delay, countdown) = wol_plan(WolCmd::AfterSecs(300)).unwrap();
    assert_eq!(delay, 300);
    assert_eq!(countdown, vec![10, 9, 8, 7, 6, 5, 4, 3, 2, 1]);
}

#[test]
fn daemon_endpoint() {
    assert_eq!(parse_endpoint(b"daemon.local:8080"), Ok((12, 8080)));
    assert_eq!(parse_endpoint(b"host:+80"), Ok((4, 80)));
    assert_eq!(parse_endpoint(b"a:b:1"), Err(EndpointError::InvalidPort));
    assert_eq!(parse_endpoint(b"host:65536"), Err(EndpointError::InvalidPort));
    assert_eq!(parse_endpoint(b"host:"), Err(EndpointError::InvalidPort));
    assert_eq!(parse_endpoint(b"host"), Err(EndpointError::MissingPort));
    assert_eq!(parse_endpoint(b":0"), Ok((0, 0)));
}

#[test]
fn lights_service_states() {
    assert_eq!(State::Off.name(), "off");
    assert_eq!(State::PrPending.name(), "pr_pending");
    let mut s = LightsService::new();
    assert!(!s.accepts(State::Off));
    assert!(s.accepts(State::PrPending));
    match s.request(State::PrPending) {
        LightsAction::SetBacklight(c) => assert_eq!(c, Rgb::grey(0xFF)),
        LightsAction::AllOff => panic!("wrong action"),
    }
    assert_eq!(s.current, State::Off);
    s.settle();
    assert_eq!(s.current, State::PrPending);
    assert!(matches!(s.request(State::Off), LightsAction::AllOff));
}

#[test]
fn init_service_phases() {
    let mut s = InitService::new();
    assert_eq!(s.handle(InitCmd::Finish), InitAction::Ignore);
    assert_eq!(s.handle(InitCmd::Start), InitAction::Begin);
    assert_eq!(s.handle(InitCmd::Start), InitAction::Ignore);
    assert_eq!(s.handle(InitCmd::FactoryReset), InitAction::ResetSettings);
    assert_eq!(s.handle(InitCmd::Finish), InitAction::Complete);
    assert_eq!(s.phase, InitPhase::Finished);
}

#[test]
fn usb_device_configuration() {
    let mut h = MyDeviceHandler::new();
    assert!(!h.configured);
    h.set_configured(true);
    assert!(h.configured);
    h.reset();
    assert!(!h.configured);
    h.set_configured(true);
    h.addressed(3);
    assert!(!h.configured);
    h.set_configured(true);
    h.enabled(true);
    assert!(!h.configured);
    let (down, up) = test_key_reports();
    assert_eq!(down, [4, 0, 0, 0, 0, 0]);
    assert_eq!(up, [0; 6]);
}

#[test]
fn test_pattern_dims_every_hundred_frames() {
    let mut t = IdleToggle::new();
    for _ in 0..99 {
        assert_eq!(t.tick(), None);
    }
    assert_eq!(t.tick(), Some(true));
    for _ in 0..99 {
        assert_eq!(t.tick(), None);
    }
    assert_eq!(t.tick(), Some(false));
}

#[test]
fn discovery_selects_first_address() {
    let records = vec![
        ServiceRecord { port: 1, addresses: vec![] },
        ServiceRecord { port: 6379, addresses: vec![0x0A000001, 0x0A000002] },
        ServiceRecord { port: 2, addresses: vec![0x0A000003] },
    ];
    assert_eq!(select_endpoint(&records), Some(Endpoint { addr: 0x0A000001, port: 6379 }));
    assert_eq!(select_endpoint(&records[..1]), None);
}

#[test]
fn discovery_connects_once_and_resets_on_change() {
    let mut d = Discovery::new();
    let a = Endpoint { addr: 1, port: 6379 };
    let b = Endpoint { addr: 2, port: 6379 };
    assert_eq!(d.observe(None), DiscoveryAction::RetrySoon);
    assert_eq!(d.observe(Some(a)), DiscoveryAction::Connect(a));
    assert_eq!(d.observe(Some(a)), DiscoveryAction::Keep);
    assert_eq!(d.observe(None), DiscoveryAction::RetrySoon);
    assert_eq!(d.observe(Some(b)), DiscoveryAction::Reset);
}

#[test]
fn store_errors() {
    assert!(store_error_resets(StoreError::ProtocolError));
    assert!(store_error_resets(StoreError::ReadExact));
    assert!(store_error_resets(StoreError::Tcp));
    assert!(!store_error_resets(StoreError::UnexpectedResponse));
    assert!(!store_error_resets(StoreError::TooLong));
}
