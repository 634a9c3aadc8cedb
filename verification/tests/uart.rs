use oro_link::protocol::{Error, Request, Response};
use oro_link::uart::{
    pack_lights, service_request, unpack_lights, AdditionalData, BoardStatus, SentinelSync,
    ServiceEffect, UartResponse, OLED_FRAME_BYTES,
};

fn status() -> BoardStatus {
    let mut light_values = [0u8; 36];
    for (i, v) in light_values.iter_mut().enumerate() {
        *v = i as u8;
    }
    BoardStatus {
        version: (1, 2, 3),
        frame_count: 77,
        led_duties: [10, 20, 30],
        light_values,
    }
}

fn protocol(s: &UartResponse) -> &Response {
    match s {
        UartResponse::Protocol(r) => r,
        UartResponse::OledFrame => panic!("expected a protocol response"),
    }
}

#[test]
fn sentinel_run_across_reads() {
    let mut s = SentinelSync::new();
    assert_eq!(s.feed(&[0u8; 100]), None);
    assert_eq!(s.count, 100);
    assert_eq!(s.feed(&[0, 0, 0, 5, 0]), None);
    assert_eq!(s.count, 1);
    assert_eq!(s.feed(&[0u8; 126]), None);
    assert_eq!(s.feed(&[0, 9, 9]), Some(1));
}

#[test]
fn sentinel_run_in_one_read() {
    let mut s = SentinelSync::new();
    let mut buf = vec![7u8; 3];
    buf.extend_from_slice(&[0u8; 128]);
    buf.push(0x42);
    assert_eq!(s.feed(&buf), Some(131));
}

#[test]
fn light_packing() {
    let st = status();
    let packed = pack_lights(&st.light_values);
    assert_eq!(packed[0], 0x00010203);
    assert_eq!(packed[8], 0x20212223);
    assert_eq!(unpack_lights(&packed), st.light_values);
    let words = [0xAABBCCDDu32; 9];
    let bytes = unpack_lights(&words);
    assert_eq!(&bytes[..4], &[0xAA, 0xBB, 0xCC, 0xDD]);
    assert_eq!(pack_lights(&bytes), words);
}

#[test]
fn frame_response_is_bulk_transfer() {
    let (res, extra) = UartResponse::OledFrame.into_raw();
    assert_eq!(res, Response::BulkTransfer(OLED_FRAME_BYTES));
    assert_eq!(OLED_FRAME_BYTES, 8192);
    assert_eq!(extra, Some(AdditionalData::OledFrame));
    let (res, extra) = UartResponse::Protocol(Response::Okay).into_raw();
    assert_eq!(res, Response::Okay);
    assert_eq!(extra, None);
}

#[test]
fn queries_are_answered_in_any_mode() {
    let st = status();
    let mut init = false;
    let r = service_request(&Request::GetVersionMinor, &mut init, &st);
    assert_eq!(protocol(&r.response), &Response::Uint(2));
    let r = service_request(&Request::IsInInitMode, &mut init, &st);
    assert_eq!(protocol(&r.response), &Response::Uint(0));
    let r = service_request(&Request::GetFrameCount, &mut init, &st);
    assert_eq!(protocol(&r.response), &Response::Uint(77));
    let r = service_request(&Request::GetFrame, &mut init, &st);
    assert!(matches!(r.response, UartResponse::OledFrame));
    let r = service_request(&Request::GetLightState, &mut init, &st);
    assert_eq!(
        protocol(&r.response),
        &Response::LightState {
            debug_leds: [10, 20, 30],
            debug_leds_max_duty: 1000,
            controller: pack_lights(&st.light_values),
        }
    );
    assert!(r.effects.is_empty());
}

#[test]
fn changes_are_refused_outside_init_mode() {
    let st = status();
    let mut init = false;
    for req in [
        Request::FactoryReset,
        Request::FinishInitMode,
        Request::EndLightProgram,
        Request::StartLightProgram { debug: [true; 3], controller: [0; 9] },
    ] {
        let r = service_request(&req, &mut init, &st);
        assert_eq!(protocol(&r.response), &Response::Error(Error::InitOnly));
        assert!(r.effects.is_empty());
        assert!(!init);
    }
}

#[test]
fn init_mode_requests() {
    let st = status();
    let mut init = true;
    let r = service_request(&Request::IsInInitMode, &mut init, &st);
    assert_eq!(protocol(&r.response), &Response::Uint(1));
    let r = service_request(&Request::FactoryReset, &mut init, &st);
    assert_eq!(protocol(&r.response), &Response::Okay);
    assert!(matches!(r.effects[..], [ServiceEffect::InitFactoryReset]));
    let r = service_request(&Request::EndLightProgram, &mut init, &st);
    assert!(matches!(r.effects[..], [ServiceEffect::BlinkenConfig, ServiceEffect::LedsAllOff]));
    let r = service_request(
        &Request::StartLightProgram { debug: [true, false, true], controller: [0x01020304; 9] },
        &mut init,
        &st,
    );
    assert_eq!(protocol(&r.response), &Response::Okay);
    match &r.effects[..] {
        [ServiceEffect::BlinkenManual { states }, ServiceEffect::LedsManual { state }] => {
            assert_eq!(*states, [true, false, true]);
            assert_eq!(&state[..8], &[1, 2, 3, 4, 1, 2, 3, 4]);
        },
        _ => panic!("unexpected effects"),
    }
    assert!(init);
    let r = service_request(&Request::FinishInitMode, &mut init, &st);
    assert_eq!(protocol(&r.response), &Response::Okay);
    assert!(matches!(r.effects[..], [ServiceEffect::InitFinish]));
    assert!(!init);
}
