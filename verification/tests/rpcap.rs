use oro_link::rpcap::{required_length, AuthType, Interface, ParseError, RPCAPMessage};

#[test]
fn encode_auth_response() {
    assert_eq!(RPCAPMessage::AuthResponse.encode(), vec![0, 0x88, 0, 0, 0, 0, 0, 0]);
}

#[test]
fn encode_open_device_response() {
    assert_eq!(
        RPCAPMessage::OpenDeviceResponse.encode(),
        vec![0, 0x83, 0, 0, 0, 0, 0, 8, 0, 0, 0, 1, 0, 0, 0, 0]
    );
}

#[test]
fn encode_start_cap_response() {
    assert_eq!(
        RPCAPMessage::StartCapResponse { server_port: 0x1234 }.encode(),
        vec![0, 0x84, 0, 0, 0, 0, 0, 8, 0, 0, 0x05, 0xEA, 0x12, 0x34, 0, 0]
    );
}

#[test]
fn encode_update_filter_response() {
    assert_eq!(RPCAPMessage::UpdateFilterResponse.encode(), vec![0, 0x85, 0, 0, 0, 0, 0, 0]);
}

#[test]
fn encode_error_messages() {
    assert_eq!(
        RPCAPMessage::AuthNotSupError("no".to_string()).encode(),
        vec![0, 1, 0, 20, 0, 0, 0, 4, b'n', b'o', 0, 0]
    );
    assert_eq!(
        RPCAPMessage::WrongMessageError("x".to_string()).encode(),
        vec![0, 1, 0, 16, 0, 0, 0, 4, b'x', 0, 0, 0]
    );
    assert_eq!(
        RPCAPMessage::OpenError(String::new()).encode(),
        vec![0, 1, 0, 6, 0, 0, 0, 0]
    );
}

#[test]
fn encode_interface_list() {
    let msg = RPCAPMessage::FindAllDevsResponse(vec![Interface {
        name: "eth0".to_string(),
        description: "Ethernet".to_string(),
    }]);
    let mut expected = vec![0, 0x82, 0, 1, 0, 0, 0, 24];
    expected.extend_from_slice(&[0, 4, 0, 8, 0, 0, 0, 0x16, 0, 0, 0, 0]);
    expected.extend_from_slice(b"eth0");
    expected.extend_from_slice(b"Ethernet");
    assert_eq!(msg.encode(), expected);
}

#[test]
fn encode_empty_interface_list() {
    assert_eq!(
        RPCAPMessage::FindAllDevsResponse(vec![]).encode(),
        vec![0, 0x82, 0, 0, 0, 0, 0, 0]
    );
}

#[test]
fn encode_packet() {
    let msg = RPCAPMessage::Packet {
        data: vec![1, 2, 3],
        arrival_secs: 0x1_0000_0005,
        arrival_micros: 1_500_000,
        number: 7,
    };
    let mut expected = vec![0, 7, 0, 0, 0, 0, 0, 24];
    expected.extend_from_slice(&[0, 0, 0, 5]);
    expected.extend_from_slice(&[0, 0x07, 0xA1, 0x20]);
    expected.extend_from_slice(&[0, 0, 0, 3, 0, 0, 0, 3, 0, 0, 0, 7]);
    expected.extend_from_slice(&[1, 2, 3, 0]);
    assert_eq!(msg.encode(), expected);
}

#[test]
fn parse_auth_request() {
    let b = [0, 8, 0, 0, 0, 0, 0, 8, 0, 1, 0, 0, 0, 0, 0, 0];
    let (m, n) = RPCAPMessage::parse(&b).unwrap();
    assert_eq!(n, 16);
    assert!(matches!(m, RPCAPMessage::AuthRequest { auth_type: AuthType::Basic }));
    let b = [0, 8, 0, 0, 0, 0, 0, 8, 0, 0, 0, 0, 0, 0, 0, 0];
    assert!(matches!(
        RPCAPMessage::parse(&b).unwrap().0,
        RPCAPMessage::AuthRequest { auth_type: AuthType::Null }
    ));
    let b = [0, 8, 0, 0, 0, 0, 0, 8, 0, 7, 0, 0, 0, 0, 0, 0];
    assert!(matches!(
        RPCAPMessage::parse(&b).unwrap().0,
        RPCAPMessage::AuthRequest { auth_type: AuthType::Unknown }
    ));
}

#[test]
fn parse_find_all_devs_ignores_payload() {
    let b = [0, 2, 0, 0, 0, 0, 0, 4, 9, 9, 9, 9];
    let (m, n) = RPCAPMessage::parse(&b).unwrap();
    assert_eq!(n, 8);
    assert!(matches!(m, RPCAPMessage::FindAllDevsRequest));
}

#[test]
fn parse_open_device_request() {
    let b = [0, 3, 0, 0, 0, 0, 0, 4, b'e', b't', b'h', b'0'];
    let (m, n) = RPCAPMessage::parse(&b).unwrap();
    assert_eq!(n, 12);
    match m {
        RPCAPMessage::OpenDeviceRequest { device_name } => assert_eq!(device_name, "eth0"),
        _ => panic!("wrong message"),
    }
}

#[test]
fn parse_capture_and_filter_requests_skip_payload() {
    let b = [0, 4, 0, 0, 0, 0, 0, 2, 1, 2];
    let (m, n) = RPCAPMessage::parse(&b).unwrap();
    assert_eq!(n, 10);
    assert!(matches!(m, RPCAPMessage::StartCapRequest));
    let b = [0, 5, 0, 0, 0, 0, 0, 0];
    let (m, n) = RPCAPMessage::parse(&b).unwrap();
    assert_eq!(n, 8);
    assert!(matches!(m, RPCAPMessage::UpdateFilterRequest));
}

#[test]
fn parse_error_report() {
    let b = [0, 1, 1, 2, 0, 0, 0, 3, b'b', b'a', b'd'];
    match RPCAPMessage::parse(&b).unwrap() {
        (RPCAPMessage::Error(code, text), 11) => {
            assert_eq!(code, 0x0102);
            assert_eq!(text, "bad");
        },
        _ => panic!("wrong message"),
    }
}

#[test]
fn parse_error_report_with_invalid_text() {
    let b = [0, 1, 0, 1, 0, 0, 0, 1, 0xFF];
    match RPCAPMessage::parse(&b).unwrap() {
        (RPCAPMessage::Error(1, text), 9) => assert_eq!(text, "\u{FFFD}"),
        _ => panic!("wrong message"),
    }
}

#[test]
fn parse_refusals() {
    assert_eq!(RPCAPMessage::parse(&[0, 9, 0, 0, 0, 0, 0, 0]).unwrap_err(), ParseError::Unsupported(9));
    assert_eq!(RPCAPMessage::parse(&[0, 8, 0, 0]).unwrap_err(), ParseError::Incomplete);
    assert_eq!(
        RPCAPMessage::parse(&[0, 3, 0, 0, 0, 0, 0, 10, 1, 2, 3]).unwrap_err(),
        ParseError::Incomplete
    );
    assert_eq!(
        RPCAPMessage::parse(&[0, 8, 0, 0, 0, 0, 0, 8, 0, 1]).unwrap_err(),
        ParseError::Incomplete
    );
}

#[test]
fn required_lengths() {
    assert_eq!(required_length(&[0, 1, 0, 0, 0, 0, 1, 0]), Ok(8 + 256));
    assert_eq!(required_length(&[0, 8, 0, 0, 0, 0, 0, 0]), Ok(16));
    assert_eq!(required_length(&[0, 2, 0, 0, 0, 0, 0, 5]), Ok(8));
    assert_eq!(required_length(&[0, 0x42, 0, 0, 0, 0, 0, 0]), Err(ParseError::Unsupported(0x42)));
}

#[test]
fn sent_error_reads_back_as_error_report() {
    let bytes = RPCAPMessage::OpenError("device busy".to_string()).encode();
    match RPCAPMessage::parse(&bytes).unwrap() {
        (RPCAPMessage::Error(code, text), n) => {
            assert_eq!(code, 6);
            assert_eq!(text, "device busy\0");
            assert_eq!(n, bytes.len());
        },
        _ => panic!("wrong message"),
    }
}

#[test]
fn every_message_is_padded_to_32_bits() {
    let open = RPCAPMessage::OpenError("abc".to_string()).encode();
    assert_eq!(open, vec![0, 1, 0, 6, 0, 0, 0, 4, b'a', b'b', b'c', 0]);
    let msg = RPCAPMessage::FindAllDevsResponse(vec![Interface {
        name: "lo".to_string(),
        description: "x".to_string(),
    }]);
    let bytes = msg.encode();
    assert_eq!(bytes.len() % 4, 0);
    assert_eq!(&bytes[4..8], &[0, 0, 0, 16]);
    assert_eq!(&bytes[20..], &[b'l', b'o', b'x', 0]);
}

#[test]
fn padded_error_reads_back_with_nuls() {
    let bytes = RPCAPMessage::OpenError("abc".to_string()).encode();
    match RPCAPMessage::parse(&bytes).unwrap() {
        (RPCAPMessage::Error(6, text), 12) => assert_eq!(text, "abc\0"),
        _ => panic!("wrong message"),
    }
}

#[test]
fn encodable_messages() {
    assert!(RPCAPMessage::OpenError("x".to_string()).is_encodable());
    assert!(RPCAPMessage::Packet { data: vec![0; 64], arrival_secs: 0, arrival_micros: 0, number: 0 }
        .is_encodable());
    assert!(!RPCAPMessage::FindAllDevsRequest.is_encodable());
    assert!(!RPCAPMessage::FindAllDevsResponse(vec![Interface {
        name: "n".repeat(70_000),
        description: String::new(),
    }])
    .is_encodable());
}
