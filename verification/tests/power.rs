use oro_link::power::{
    failsafe_failure, psu_level, Failsafe, LastBootFailure, PsuCmd, VbusAction, VbusCmd,
    VbusPower, State,
};

#[test]
fn failsafes_record_their_failure() {
    assert_eq!(failsafe_failure(Failsafe::BoardPower), LastBootFailure::PowerMonitorOC);
    assert_eq!(failsafe_failure(Failsafe::AuxVbus), LastBootFailure::AuxVbusOC);
    assert_eq!(failsafe_failure(Failsafe::SdCard), LastBootFailure::SdOC);
}

#[test]
fn vbus_state_names() {
    assert_eq!(State::Off.name(), "off");
    assert_eq!(State::Vbus.name(), "vbus");
    assert_eq!(State::AuxVbus.name(), "aux_vbus");
}

#[test]
fn vbus_on_and_off() {
    let mut p = VbusPower::new(true);
    assert!(!p.accepts(VbusCmd::Off));
    assert!(p.accepts(VbusCmd::On));
    assert_eq!(
        p.command(VbusCmd::On),
        vec![
            VbusAction::MainEnable(false),
            VbusAction::AuxEnableLow(false),
            VbusAction::Publish(State::Vbus),
            VbusAction::MainEnable(true),
            VbusAction::DelayMs(10),
            VbusAction::WatchOvercurrent,
        ]
    );
    assert!(!p.accepts(VbusCmd::On));
    assert_eq!(
        p.command(VbusCmd::Off),
        vec![
            VbusAction::MainEnable(false),
            VbusAction::AuxEnableLow(false),
            VbusAction::Publish(State::Off),
        ]
    );
}

#[test]
fn overcurrent_falls_back_to_aux_line() {
    let mut p = VbusPower::new(true);
    p.command(VbusCmd::On);
    assert_eq!(
        p.overcurrent(),
        vec![
            VbusAction::AuxEnableLow(true),
            VbusAction::Publish(State::AuxVbus),
            VbusAction::DelayMs(50),
            VbusAction::MainEnable(false),
        ]
    );
}

#[test]
fn overcurrent_without_aux_line_resets() {
    let mut p = VbusPower::new(false);
    p.command(VbusCmd::On);
    assert_eq!(
        p.overcurrent(),
        vec![VbusAction::MainEnable(false), VbusAction::FailAndReset(LastBootFailure::VbusOC)]
    );
}

#[test]
fn psu_levels() {
    assert!(psu_level(PsuCmd::On));
    assert!(!psu_level(PsuCmd::Off));
}
