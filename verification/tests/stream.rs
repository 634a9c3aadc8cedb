use oro_link::protocol::{Error, Request, Response};
use oro_link::stream::{
    encode_request, encode_response, Decoder, OffsetLength, StreamError, BUFFER_SIZE, FRAME_POS,
};

fn decode_request_bytewise(src: &Request) -> Request {
    let mut enc_buf = [0u8; BUFFER_SIZE];
    let offlen = encode_request(src, &mut enc_buf).unwrap();
    let mut slice = offlen.get_for_slice(&enc_buf);
    assert!(slice.len() > 0);

    let mut decoder = Decoder::new(vec![0u8; BUFFER_SIZE]);
    while slice.len() > 1 {
        let r = decoder.feed(&slice[..1]).unwrap();
        assert!(r.is_none());
        slice = &slice[1..];
    }

    let r = decoder.feed(slice).unwrap().unwrap();
    assert_eq!(r.leftover, 0);
    assert_ne!(r.decoded_size, 0);
    decoder.decode_request().unwrap()
}

fn decode_response_bytewise(src: &Response) -> Response {
    let mut enc_buf = [0u8; BUFFER_SIZE];
    let offlen = encode_response(src, &mut enc_buf).unwrap();
    let mut slice = offlen.get_for_slice(&enc_buf);
    assert!(slice.len() > 0);

    let mut decoder = Decoder::new(vec![0u8; BUFFER_SIZE]);
    while slice.len() > 1 {
        let r = decoder.feed(&slice[..1]).unwrap();
        assert!(r.is_none());
        slice = &slice[1..];
    }

    let r = decoder.feed(slice).unwrap().unwrap();
    assert_eq!(r.leftover, 0);
    assert_ne!(r.decoded_size, 0);
    decoder.decode_response().unwrap()
}

#[test]
fn basic_encode_request() {
    let mut buf = [0u8; BUFFER_SIZE];
    encode_request(&Request::FactoryReset, &mut buf).unwrap();
    encode_request(
        &Request::StartLightProgram {
            debug: [true, false, true],
            controller: [0xAABBCCDD; 9],
        },
        &mut buf,
    )
    .unwrap();
}

#[test]
fn basic_encode_response() {
    let mut buf = [0u8; BUFFER_SIZE];
    encode_response(&Response::Okay, &mut buf).unwrap();
    encode_response(&Response::Uint(1337), &mut buf).unwrap();
    encode_response(
        &Response::LightState {
            debug_leds: [2398, 22, 8111],
            debug_leds_max_duty: 10000,
            controller: [0xAABBCCDD; 9],
        },
        &mut buf,
    )
    .unwrap();
}

#[test]
fn basic_encode_decode_request() {
    let src = Request::FactoryReset;
    assert_eq!(decode_request_bytewise(&src), src);
    let src = Request::StartLightProgram {
        debug: [true, false, true],
        controller: [0xAABBCCDD; 9],
    };
    assert_eq!(decode_request_bytewise(&src), src);
}

#[test]
fn basic_encode_decode_response() {
    let src = Response::Uint(1337);
    assert_eq!(decode_response_bytewise(&src), src);
    let src = Response::LightState {
        debug_leds: [2398, 22, 8111],
        debug_leds_max_duty: 10000,
        controller: [0xAABBCCDD; 9],
    };
    assert_eq!(decode_response_bytewise(&src), src);
}

#[test]
fn every_request_round_trips() {
    let all = [
        Request::GetVersionMajor,
        Request::GetVersionMinor,
        Request::GetVersionPatch,
        Request::IsInInitMode,
        Request::FinishInitMode,
        Request::FactoryReset,
        Request::GetFrameCount,
        Request::GetFrame,
        Request::GetLightState,
        Request::StartLightProgram { debug: [false, true, false], controller: [0, 23, 24, 255, 256, 65535, 65536, 0xFFFF_FFFF, 7] },
        Request::EndLightProgram,
    ];
    for r in all.iter() {
        assert_eq!(&decode_request_bytewise(r), r);
    }
}

#[test]
fn every_response_round_trips() {
    let all = [
        Response::Okay,
        Response::Uint(0),
        Response::Uint(u64::MAX),
        Response::Error(Error::TooLong),
        Response::Error(Error::MalformedRequest),
        Response::Error(Error::InitOnly),
        Response::BulkTransfer(256 * 64 / 2),
        Response::String("oro link ✓".to_string()),
    ];
    for r in all.iter() {
        assert_eq!(&decode_response_bytewise(r), r);
    }
}

#[test]
fn frame_layout_of_factory_reset() {
    let mut buf = [0u8; BUFFER_SIZE];
    let ol = encode_request(&Request::FactoryReset, &mut buf).unwrap();
    // CBOR: [5, []] is 0x82 0x05 0x80; COBS with sentinels wraps it.
    assert_eq!(&buf[..3], &[0x82, 0x05, 0x80]);
    assert_eq!(ol, OffsetLength { offset: FRAME_POS, len: 6 });
    assert_eq!(ol.get_for_slice(&buf), &[0x00, 0x04, 0x82, 0x05, 0x80, 0x00]);
}

#[test]
fn small_buffer_is_refused() {
    let mut buf = [0u8; BUFFER_SIZE - 1];
    assert_eq!(encode_request(&Request::FactoryReset, &mut buf), Err(StreamError::TooMuchData));
    assert!(buf.iter().all(|b| *b == 0));
}

#[test]
fn long_string_response_is_refused() {
    let mut buf = [0u8; BUFFER_SIZE];
    let long = "x".repeat(FRAME_POS);
    assert_eq!(
        encode_response(&Response::String(long), &mut buf),
        Err(StreamError::TooMuchData)
    );
}

#[test]
fn decode_before_frame_is_incomplete() {
    let decoder = Decoder::new(vec![0u8; 16]);
    assert_eq!(decoder.decode_request(), Err(StreamError::Incomplete));
}

#[test]
fn frame_larger_than_decoder_is_too_much_data() {
    let mut buf = [0u8; BUFFER_SIZE];
    let ol = encode_request(&Request::FactoryReset, &mut buf).unwrap();
    let mut decoder = Decoder::new(vec![0u8; 2]);
    assert_eq!(decoder.feed(ol.get_for_slice(&buf)), Err(StreamError::TooMuchData));
}

#[test]
fn leftover_bytes_after_frame_are_reported() {
    let mut buf = [0u8; BUFFER_SIZE];
    let ol = encode_request(&Request::GetFrame, &mut buf).unwrap();
    let mut bytes = ol.get_for_slice(&buf).to_vec();
    bytes.extend_from_slice(&[1, 2, 3]);
    let mut decoder = Decoder::new(vec![0u8; 64]);
    let r = decoder.feed(&bytes).unwrap().unwrap();
    assert_eq!(r.leftover, 3);
    assert_eq!(r.decoded_size, 3);
    assert_eq!(decoder.decode_request(), Ok(Request::GetFrame));
}

#[test]
fn garbage_frame_is_invalid() {
    let mut decoder = Decoder::new(vec![0u8; 64]);
    // A valid COBS frame holding the byte 0xFF, which is no request.
    let r = decoder.feed(&[0x00, 0x02, 0xFF, 0x00]).unwrap().unwrap();
    assert_eq!(r.decoded_size, 1);
    assert_eq!(decoder.decode_request(), Err(StreamError::Invalid));
}

#[test]
fn long_runs_without_zero_round_trip() {
    // CBOR text of 300 non-zero bytes: the COBS encoding needs a chained block.
    let r = Response::String("y".repeat(300));
    assert_eq!(decode_response_bytewise(&r), r);
    // Exactly 254 non-zero bytes of text after the CBOR header.
    let r = Response::String("z".repeat(254));
    assert_eq!(decode_response_bytewise(&r), r);
    // A zero byte right after a long non-zero run: `Uint(0)` ends in a zero.
    let r = Response::String("w".repeat(251));
    assert_eq!(decode_response_bytewise(&r), r);
    assert_eq!(decode_response_bytewise(&Response::Uint(0)), Response::Uint(0));
}
