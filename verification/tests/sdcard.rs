use oro_link::sdcard::{
    check_cmd0_response, cmd0_frame, cmd8_card_type, command_frame, r1_response, r7_response,
    SdCardError, SdCardType, R1, R7, CMD8_ARG, CMD8_CRC,
};

#[test]
fn r1_status_bits() {
    assert!(R1(0).is_zero());
    assert!(R1(0x01).is_idle());
    assert!(R1(0x02).is_erase_reset());
    assert!(R1(0x04).is_illegal_command());
    assert!(R1(0x08).is_com_crc_error());
    assert!(R1(0x10).is_erasure_sequence_error());
    assert!(R1(0x20).is_address_error());
    assert!(R1(0x40).is_parameter_error());
    assert!(!R1(0x7E).is_idle());
    assert!(!R1(0x01).is_zero());
}

#[test]
fn cmd8_frame() {
    let f = command_frame(8, CMD8_ARG, CMD8_CRC);
    assert_eq!(&f[..6], &[0x48, 0x00, 0x00, 0x01, 0xAA, 0x87]);
    assert!(f[6..].iter().all(|&b| b == 0xFF));
    let f = command_frame(55, 0x1234_5678, 0x01);
    assert_eq!(&f[..6], &[0x77, 0x12, 0x34, 0x56, 0x78, 0x01]);
}

#[test]
fn go_idle_frame() {
    let f = cmd0_frame();
    assert_eq!(f.len(), 24);
    assert_eq!(&f[..6], &[0x40, 0, 0, 0, 0, 0x95]);
    assert!(f[6..].iter().all(|&b| b == 0xFF));
}

#[test]
fn r1_found_after_command() {
    let mut r = [0xFFu8; 22];
    r[0] = 0x00;
    r[9] = 0x01;
    assert_eq!(r1_response(&r), Ok(R1(0x01)));
    let r = [0xFFu8; 22];
    assert_eq!(r1_response(&r), Err(SdCardError::NoResponse));
}

#[test]
fn r7_response_and_echo() {
    let mut r = [0xFFu8; 22];
    r[7] = 0x01;
    r[8] = 0x00;
    r[9] = 0x00;
    r[10] = 0x01;
    r[11] = 0xAA;
    assert_eq!(r7_response(&r), Ok(R7 { r1: R1(0x01), echo_back: 0x1AA }));
    let mut r = [0xFFu8; 22];
    r[18] = 0x01;
    assert_eq!(r7_response(&r), Err(SdCardError::NoResponse));
    let mut r = [0xFFu8; 22];
    r[17] = 0x05;
    assert_eq!(r7_response(&r), Ok(R7 { r1: R1(0x05), echo_back: 0xFFFF_FFFF }));
}

#[test]
fn go_idle_response() {
    let mut r = [0xFFu8; 24];
    r[8] = 0x01;
    assert_eq!(check_cmd0_response(&r), Ok(()));
    r[12] = 0x3F;
    assert_eq!(check_cmd0_response(&r), Err(SdCardError::NotIdle));
    let r = [0xFFu8; 24];
    assert_eq!(check_cmd0_response(&r), Err(SdCardError::NotIdle));
    let mut r = [0xFFu8; 24];
    r[3] = 0x00;
    r[5] = 0x01;
    assert_eq!(check_cmd0_response(&r), Ok(()));
}

#[test]
fn card_type_from_cmd8() {
    assert_eq!(cmd8_card_type(R7 { r1: R1(0x05), echo_back: 0 }), Ok(SdCardType::SDv1));
    assert_eq!(cmd8_card_type(R7 { r1: R1(0x00), echo_back: 0x1AA }), Err(SdCardError::NotIdle));
    assert_eq!(cmd8_card_type(R7 { r1: R1(0x01), echo_back: 0x1AB }), Err(SdCardError::NoResponse));
    assert_eq!(cmd8_card_type(R7 { r1: R1(0x01), echo_back: 0xF1AA }), Ok(SdCardType::SDv2));
    assert_eq!(cmd8_card_type(R7 { r1: R1(0x01), echo_back: CMD8_ARG }), Ok(SdCardType::SDv2));
}
