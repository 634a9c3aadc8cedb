use oro_link::power_monitor::{
    board_configuration, calculate_alert_power_value, calculate_high_res_calibration,
    calculate_ma_from_calibration, register_read_value, register_write_frame, reset_succeeded,
    setup_writes, AverageSamples, Configuration, ConverstionTime, MaskEnableRegister, Mode,
    ALERT_ON_CURRENT_MA, BOARD_MAX_RATED_MA, BOARD_SUPPLY_MV,
};

#[test]
fn configuration_fields() {
    assert_eq!(Configuration::new().0, 0);
    assert_eq!(Configuration::reset().0, 0x8000);
    assert_eq!(Configuration::default_value().0, 0x4127);
    assert_eq!(Configuration::new().with_average_samples(AverageSamples::Avg64).0, 0x0600);
    assert_eq!(Configuration::new().with_bus_conversion_time(ConverstionTime::Ms8p244).0, 0x01C0);
    assert_eq!(Configuration::new().with_shunt_conversion_time(ConverstionTime::Us588).0, 0x0018);
    assert_eq!(Configuration::new().with_mode(Mode::ShuntAndBusContinuous).0, 7);
    // Setting a field replaces it and keeps the others.
    assert_eq!(
        Configuration(0xFFFF).with_average_samples(AverageSamples::Avg1).0,
        0xF1FF
    );
    assert_eq!(Configuration::from_u16(0x1234).to_u16(), 0x1234);
}

#[test]
fn board_configuration_value() {
    assert_eq!(board_configuration().0, 0x0607);
}

#[test]
fn mask_enable_bits() {
    let m = MaskEnableRegister::new().with_power_over_limit().with_alert_latch();
    assert_eq!(m.0, 0x0801);
    assert_eq!(MaskEnableRegister::new().with_shunt_overvoltage().0, 0x8000);
    assert_eq!(MaskEnableRegister::new().with_shunt_undervoltage().0, 0x4000);
    assert_eq!(MaskEnableRegister::new().with_bus_overvoltage().0, 0x2000);
    assert_eq!(MaskEnableRegister::new().with_bus_undervoltage().0, 0x1000);
    assert_eq!(MaskEnableRegister::new().with_conversion_ready().0, 0x0400);
    assert_eq!(MaskEnableRegister::new().with_alert_polarity_invert().0, 0x0002);
    assert_eq!(MaskEnableRegister::default_value().0, 0);
    assert_eq!(MaskEnableRegister::from_u16(3).to_u16(), 3);
}

#[test]
fn calibration_for_board() {
    // 4000mA -> shunt value 3200 -> 32767 * 2048 / 3200 = 20970.
    assert_eq!(calculate_high_res_calibration(BOARD_MAX_RATED_MA), 20970);
    assert_eq!(calculate_high_res_calibration(2560), 32767);
}

#[test]
fn alert_value_for_board() {
    // bus 4000, shunt at 1900mA = 1520, limit 1520 * 20970 / 2048 = 15563,
    // power 4000 * 15563 / 20000 = 3112.
    assert_eq!(calculate_alert_power_value(BOARD_SUPPLY_MV, ALERT_ON_CURRENT_MA, 20970), 3112);
}

#[test]
fn current_from_register() {
    // shunt 1000 * 2048 / 20970 = 97; 97 * 2_560_000 / 2048 = 121250uA.
    assert_eq!(calculate_ma_from_calibration(1000, 20970), (121, 250));
    assert_eq!(calculate_ma_from_calibration(0, 20970), (0, 0));
}

#[test]
fn register_frames() {
    assert_eq!(register_write_frame(0x05, 0x51EA), [0x05, 0x51, 0xEA]);
    assert_eq!(register_read_value([0x41, 0x27]), 0x4127);
    assert!(reset_succeeded(0x4127));
    assert!(!reset_succeeded(0x8000));
}

#[test]
fn setup_register_writes() {
    assert_eq!(
        setup_writes(),
        vec![(0x00, 0x0607), (0x06, 0x0801), (0x07, 3112), (0x05, 20970)]
    );
}

#[test]
fn current_up_to_the_rated_maximum() {
    // 32767 is the highest reportable value: the board's rated 4000 mA.
    assert_eq!(calculate_ma_from_calibration(32767, 20970), (4000, 0));
    assert_eq!(calculate_ma_from_calibration(20000, 20970), (2441, 250));
}
