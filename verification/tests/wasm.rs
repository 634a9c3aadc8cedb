use oro_link::protocol::{Request, Response};
use oro_link::wasm::{decode_response, encode_request, DecodeError};

#[test]
fn request_with_length_prefix() {
    // FactoryReset is variant 5 without fields: [0x82, 0x05, 0x80].
    assert_eq!(encode_request(&Request::FactoryReset), vec![0, 0, 0, 3, 0x82, 0x05, 0x80]);
    let long = encode_request(&Request::StartLightProgram {
        debug: [true, false, true],
        controller: [0xAABBCCDD; 9],
    });
    let len = u32::from_be_bytes([long[0], long[1], long[2], long[3]]) as usize;
    assert_eq!(len, long.len() - 4);
}

#[test]
fn response_decoding() {
    // Uint(300): [0x82, 0x01, 0x81, 0x19, 0x01, 0x2C]
    assert_eq!(decode_response(&[0x82, 0x01, 0x81, 0x19, 0x01, 0x2C]), Ok(Response::Uint(300)));
    assert_eq!(decode_response(&[0x82, 0x00, 0x80, 0xFF]), Ok(Response::Okay));
    assert_eq!(decode_response(&[0x82]), Err(DecodeError));
}
