use oro_link::blinken::Cmd as BlinkenCmd;
use oro_link::config::Wol;
use oro_link::leds::{LedCmd, Rgb};
use oro_link::main_service::{
    main_start, main_step, MainConfig, MainEvent, MainMsg, MainPhase, MainWait, StatusText,
};
use oro_link::oled::{Scene, State as OledState};
use oro_link::power::{LastBootFailure, PsuCmd, VbusCmd};
use oro_link::services::{State as LightsState, WolCmd};
use oro_link::vars::UsbIface;

#[test]
fn failed_last_boot_halts_with_failure_screen() {
    let s = main_start(true, LastBootFailure::VbusOC);
    let (s, msgs, wait) = main_step(s, MainEvent::Start);
    assert_eq!(s.phase, MainPhase::Halted);
    assert_eq!(wait, MainWait::Forever);
    assert_eq!(msgs[0], MainMsg::BlinkenError);
    assert_eq!(msgs[1], MainMsg::Leds(LedCmd::SetSystemIndicator(Rgb::new(255, 0, 0))));
    assert_eq!(msgs[2], MainMsg::OledPower(OledState::On));
    match msgs[3] {
        MainMsg::OledStatus(screen) => {
            assert_eq!(screen.line2.unwrap().text, StatusText::BootFailure(LastBootFailure::VbusOC));
        }
        _ => panic!("expected the status screen"),
    }
    let (s2, msgs, wait) = main_step(s, MainEvent::PrRun);
    assert_eq!(s2, s);
    assert!(msgs.is_empty());
    assert_eq!(wait, MainWait::Unchanged);
}

#[test]
fn missing_4a_supply_halts() {
    let s = main_start(false, LastBootFailure::NoFailure);
    let (s, _, wait) = main_step(s, MainEvent::Start);
    assert_eq!(wait, MainWait::Millis(5000));
    let (s, _, wait) = main_step(s, MainEvent::Elapsed);
    assert_eq!(wait, MainWait::Configured);
    let cfg = MainConfig { usb_iface: UsbIface::Header, require_4a_vbus: true, wol: Wol::Off };
    let (s, msgs, wait) = main_step(s, MainEvent::Configured(cfg));
    assert_eq!(s.phase, MainPhase::Halted);
    assert_eq!(wait, MainWait::Forever);
    assert_eq!(msgs[2], MainMsg::UsbSelectorHigh(false));
    assert_eq!(msgs.last(), Some(&MainMsg::BlinkenError));
}

#[test]
fn configured_board_runs_pull_requests() {
    let s = main_start(true, LastBootFailure::NoFailure);
    let (s, msgs, _) = main_step(s, MainEvent::Start);
    assert_eq!(
        msgs,
        vec![
            MainMsg::Blinken(BlinkenCmd::Config),
            MainMsg::OledPower(OledState::On),
            MainMsg::OledScene(Scene::Logo),
            MainMsg::Leds(LedCmd::SelfTest),
        ]
    );
    let (s, _, _) = main_step(s, MainEvent::Elapsed);
    let cfg = MainConfig { usb_iface: UsbIface::Port, require_4a_vbus: true, wol: Wol::Mins10 };
    let (s, msgs, wait) = main_step(s, MainEvent::Configured(cfg));
    assert_eq!(s.phase, MainPhase::WaitingForPr);
    assert_eq!(wait, MainWait::PrRun);
    assert_eq!(msgs[2], MainMsg::UsbSelectorHigh(true));
    assert_eq!(msgs[3], MainMsg::Leds(LedCmd::SetSystemIndicator(Rgb::new(2, 18, 2))));
    assert_eq!(msgs[5], MainMsg::ResetPrVars);
    assert_eq!(msgs.last(), Some(&MainMsg::Wol(WolCmd::AfterSecs(600))));
    let (s, msgs, wait) = main_step(s, MainEvent::PrRun);
    assert_eq!(wait, MainWait::Millis(10));
    assert_eq!(msgs[0], MainMsg::Wol(WolCmd::Off));
    assert_eq!(msgs[1], MainMsg::Lights(LightsState::PrPending));
    let (s, msgs, _) = main_step(s, MainEvent::Elapsed);
    assert_eq!(msgs, vec![MainMsg::OledPower(OledState::On)]);
    let (s, msgs, wait) = main_step(s, MainEvent::Elapsed);
    assert_eq!(wait, MainWait::Millis(30_000));
    assert_eq!(msgs.last(), Some(&MainMsg::Vbus(VbusCmd::On)));
    let (s, msgs, wait) = main_step(s, MainEvent::Elapsed);
    assert_eq!(s.phase, MainPhase::WaitingForPr);
    assert_eq!(wait, MainWait::PrRun);
    assert_eq!(msgs.len(), 8);
    assert_eq!(msgs[6], MainMsg::Psu(PsuCmd::Off));
    assert_eq!(msgs[7], MainMsg::Wol(WolCmd::AfterSecs(600)));
}
