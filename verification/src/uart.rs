//! The host link over the UART: the resynchronisation on a run of zero
//! bytes, the answer to each request, and the packing of the 36 light
//! brightnesses into nine big-endian words.

use vstd::prelude::*;
use crate::cbor::{be4, from_be4, lemma_be_roundtrip};
use crate::protocol::{Error, Request, Response, ResponseModel};

verus! {

/// The number of zero bytes in a row that marks a reset stream.
pub const SENTINEL_RUN: u32 = 128;
/// The number of reads the resynchronisation waits for the zero run.
pub const MAX_SENTINEL_READS: u32 = 32;
/// The number of bytes of a frame of the display sent in bulk.
pub const OLED_FRAME_BYTES: u64 = 256 * 64 / 2;
/// The period of the debug LEDs' duty cycle reported with the light state.
pub const DEBUG_LEDS_MAX_DUTY: u16 = 1000;

/// The outcome of reading bytes while waiting for the zero run, from
/// position `i`, `count` zeros having been seen in a row: the position after
/// the last zero of the run if it completes, and the count after the bytes.
pub open spec fn spec_sentinel_scan(count: nat, b: Seq<u8>, i: int) -> (Option<int>, nat)
    decreases b.len() - i,
{
    if i < 0 || i >= b.len() {
        (None, count)
    } else if b[i] == 0 {
        if count + 1 == SENTINEL_RUN {
            (Some(i + 1), count + 1)
        } else {
            spec_sentinel_scan(count + 1, b, i + 1)
        }
    } else {
        spec_sentinel_scan(0, b, i + 1)
    }
}

/// The resynchronisation: the number of zero bytes seen in a row.
pub struct SentinelSync {
    pub count: u32,
}

impl SentinelSync {
    /// No zero seen yet.
    pub fn new() -> (r: Self)
        ensures
            r.count == 0,
    {
        SentinelSync { count: 0 }
    }

    /// Reads received bytes: where the run completes, the position after its
    /// last zero, from which the bytes belong to the stream.
    pub fn feed(&mut self, bytes: &[u8]) -> (r: Option<usize>)
        requires
            old(self).count < SENTINEL_RUN,
        ensures
            ({
                let (pos, count) = spec_sentinel_scan(old(self).count as nat, bytes@, 0);
                &&& match r {
                    Some(p) => pos == Some(p as int),
                    None => pos is None,
                }
                &&& final(self).count == count
            }),
    {
        let mut i: usize = 0;
        while i < bytes.len()
            invariant
                i <= bytes@.len(),
                self.count < SENTINEL_RUN,
                spec_sentinel_scan(old(self).count as nat, bytes@, 0) == spec_sentinel_scan(
                    self.count as nat,
                    bytes@,
                    i as int,
                ),
            decreases bytes@.len() - i,
        {
            if bytes[i] == 0 {
                self.count = self.count + 1;
                if self.count == SENTINEL_RUN {
                    return Some(i + 1);
                }
            } else {
                self.count = 0;
            }
            i = i + 1;
        }
        None
    }
}

/// The 36 brightnesses, four to a word, most significant first.
pub open spec fn spec_pack_lights(values: Seq<u8>) -> Seq<u32> {
    Seq::new(9, |w: int| from_be4(values, 4 * w) as u32)
}

/// The nine words, each as its four bytes, most significant first.
pub open spec fn spec_unpack_lights(words: Seq<u32>) -> Seq<u8> {
    Seq::new(36, |i: int| be4(words[i / 4] as u64)[i % 4])
}

/// Packs the 36 brightnesses; see [`spec_pack_lights`].
pub fn pack_lights(values: &[u8; 36]) -> (r: [u32; 9])
    ensures
        r@ == spec_pack_lights(values@),
{
    let mut r = [0u32; 9];
    let mut w: usize = 0;
    while w < 9
        invariant
            w <= 9,
            r@.len() == 9,
            forall|k: int| 0 <= k < w ==> r@[k] == #[trigger] spec_pack_lights(values@)[k],
        decreases 9 - w,
    {
        let b0 = values[4 * w];
        let b1 = values[4 * w + 1];
        let b2 = values[4 * w + 2];
        let b3 = values[4 * w + 3];
        let v: u64 = ((b0 as u64) << 24u64) | ((b1 as u64) << 16u64) | ((b2 as u64) << 8u64) | (
        b3 as u64);
        r[w] = v as u32;
        w = w + 1;
    }
    assert(r@ =~= spec_pack_lights(values@));
    r
}

/// Unpacks the nine words; see [`spec_unpack_lights`].
pub fn unpack_lights(words: &[u32; 9]) -> (r: [u8; 36])
    ensures
        r@ == spec_unpack_lights(words@),
{
    let mut r = [0u8; 36];
    let mut i: usize = 0;
    while i < 36
        invariant
            i <= 36,
            r@.len() == 36,
            forall|k: int| 0 <= k < i ==> r@[k] == #[trigger] spec_unpack_lights(words@)[k],
        decreases 36 - i,
    {
        let v = words[i / 4] as u64;
        let q = i % 4;
        let b = if q == 0 {
            ((v >> 24u64) & 0xFF) as u8
        } else if q == 1 {
            ((v >> 16u64) & 0xFF) as u8
        } else if q == 2 {
            ((v >> 8u64) & 0xFF) as u8
        } else {
            (v & 0xFF) as u8
        };
        r[i] = b;
        i = i + 1;
    }
    assert(r@ =~= spec_unpack_lights(words@));
    r
}

proof fn lemma_bytes_roundtrip(b0: u8, b1: u8, b2: u8, b3: u8)
    by (bit_vector)
    ensures
        ({
            let v = ((b0 as u64) << 24u64) | ((b1 as u64) << 16u64) | ((b2 as u64) << 8u64) | (
            b3 as u64);
            &&& ((v >> 24u64) & 0xFF) as u8 == b0
            &&& ((v >> 16u64) & 0xFF) as u8 == b1
            &&& ((v >> 8u64) & 0xFF) as u8 == b2
            &&& (v & 0xFF) as u8 == b3
            &&& v < 0x1_0000_0000
        }),
{
}

/// Unpacking the packed brightnesses gives them back.
pub proof fn lemma_unpack_pack(values: Seq<u8>)
    requires
        values.len() == 36,
    ensures
        spec_unpack_lights(spec_pack_lights(values)) == values,
{
    let packed = spec_pack_lights(values);
    assert forall|i: int| 0 <= i < 36 implies #[trigger] spec_unpack_lights(packed)[i]
        == values[i] by {
        let w = i / 4;
        lemma_bytes_roundtrip(values[4 * w], values[4 * w + 1], values[4 * w + 2], values[4 * w + 3]);
    }
    assert(spec_unpack_lights(packed) =~= values);
}

/// Packing the unpacked words gives them back.
pub proof fn lemma_pack_unpack(words: Seq<u32>)
    requires
        words.len() == 9,
    ensures
        spec_pack_lights(spec_unpack_lights(words)) == words,
{
    let bytes = spec_unpack_lights(words);
    assert forall|w: int| 0 <= w < 9 implies #[trigger] spec_pack_lights(bytes)[w] == words[w] by {
        lemma_be_roundtrip(words[w] as u64);
        assert(bytes[4 * w] == be4(words[w] as u64)[0]);
        assert(bytes[4 * w + 1] == be4(words[w] as u64)[1]);
        assert(bytes[4 * w + 2] == be4(words[w] as u64)[2]);
        assert(bytes[4 * w + 3] == be4(words[w] as u64)[3]);
    }
    assert(spec_pack_lights(bytes) =~= words);
}

/// A response to the host: a protocol response, or a bulk transfer of the
/// display's frame.
pub enum UartResponse {
    Protocol(Response),
    OledFrame,
}

/// Data sent after a response.
#[derive(Clone, Copy, Debug, PartialEq, Eq, Structural)]
pub enum AdditionalData {
    /// The display's frame buffer.
    OledFrame,
}

impl UartResponse {
    /// The protocol response to send, and the data to send after it: a frame
    /// is announced as a bulk transfer of its size.
    pub fn into_raw(self) -> (r: (Response, Option<AdditionalData>))
        ensures
            match self {
                UartResponse::OledFrame => r.0@ == ResponseModel::BulkTransfer(OLED_FRAME_BYTES)
                    && r.1 == Some(AdditionalData::OledFrame),
                UartResponse::Protocol(res) => r.0 == res && r.1 is None,
            },
    {
        match self {
            UartResponse::OledFrame => (Response::BulkTransfer(OLED_FRAME_BYTES), Some(
                AdditionalData::OledFrame,
            )),
            UartResponse::Protocol(res) => (res, None),
        }
    }
}

/// What the board reports about itself.
pub struct BoardStatus {
    /// The firmware's major, minor and patch versions.
    pub version: (u64, u64, u64),
    /// The number of frames rendered by the display.
    pub frame_count: u32,
    /// The lit time of each debug LED.
    pub led_duties: [u16; 3],
    /// The brightness of each of the 36 light channels.
    pub light_values: [u8; 36],
}

/// What answering a request makes other services do.
pub enum ServiceEffect {
    /// The board is reset to its factory state.
    InitFactoryReset,
    /// The board leaves initialisation mode.
    InitFinish,
    /// The debug LEDs breathe.
    BlinkenConfig,
    /// The light channels go dark.
    LedsAllOff,
    /// The debug LEDs are set as given.
    BlinkenManual { states: [bool; 3] },
    /// The light channels are set as given.
    LedsManual { state: [u8; 36] },
}

/// The answer to a request, and what it makes other services do.
pub struct Serviced {
    pub response: UartResponse,
    pub effects: Vec<ServiceEffect>,
}

/// Whether `r` is the protocol response `m`.
pub open spec fn is_protocol(r: UartResponse, m: ResponseModel) -> bool {
    r matches UartResponse::Protocol(res) && res@ == m
}

/// Answers a request. Requests that change the board are answered only in
/// initialisation mode, and refused with `InitOnly` otherwise; finishing
/// initialisation leaves the mode.
pub fn service_request(req: &Request, in_init_mode: &mut bool, status: &BoardStatus) -> (r:
    Serviced)
    ensures
        *final(in_init_mode) == (*old(in_init_mode) && !(*req is FinishInitMode)),
        match *req {
            Request::FactoryReset => if *old(in_init_mode) {
                is_protocol(r.response, ResponseModel::Okay) && r.effects@ == seq![
                    ServiceEffect::InitFactoryReset,
                ]
            } else {
                is_protocol(r.response, ResponseModel::Error(Error::InitOnly)) && r.effects@.len()
                    == 0
            },
            Request::FinishInitMode => if *old(in_init_mode) {
                is_protocol(r.response, ResponseModel::Okay) && r.effects@ == seq![
                    ServiceEffect::InitFinish,
                ]
            } else {
                is_protocol(r.response, ResponseModel::Error(Error::InitOnly)) && r.effects@.len()
                    == 0
            },
            Request::IsInInitMode => is_protocol(
                r.response,
                ResponseModel::Uint(
                    if *old(in_init_mode) {
                        1
                    } else {
                        0
                    },
                ),
            ) && r.effects@.len() == 0,
            Request::GetVersionMajor => is_protocol(r.response, ResponseModel::Uint(status.version.0))
                && r.effects@.len() == 0,
            Request::GetVersionMinor => is_protocol(r.response, ResponseModel::Uint(status.version.1))
                && r.effects@.len() == 0,
            Request::GetVersionPatch => is_protocol(r.response, ResponseModel::Uint(status.version.2))
                && r.effects@.len() == 0,
            Request::GetFrameCount => is_protocol(
                r.response,
                ResponseModel::Uint(status.frame_count as u64),
            ) && r.effects@.len() == 0,
            Request::GetFrame => r.response is OledFrame && r.effects@.len() == 0,
            Request::GetLightState => is_protocol(
                r.response,
                ResponseModel::LightState {
                    debug_leds: status.led_duties@,
                    debug_leds_max_duty: DEBUG_LEDS_MAX_DUTY,
                    controller: spec_pack_lights(status.light_values@),
                },
            ) && r.effects@.len() == 0,
            Request::EndLightProgram => if *old(in_init_mode) {
                is_protocol(r.response, ResponseModel::Okay) && r.effects@ == seq![
                    ServiceEffect::BlinkenConfig,
                    ServiceEffect::LedsAllOff,
                ]
            } else {
                is_protocol(r.response, ResponseModel::Error(Error::InitOnly)) && r.effects@.len()
                    == 0
            },
            Request::StartLightProgram { debug, controller } => if *old(in_init_mode) {
                &&& is_protocol(r.response, ResponseModel::Okay)
                &&& r.effects@.len() == 2
                &&& r.effects@[0] matches ServiceEffect::BlinkenManual { states } && states == debug
                &&& r.effects@[1] matches ServiceEffect::LedsManual { state } && state@
                    == spec_unpack_lights(controller@)
            } else {
                is_protocol(r.response, ResponseModel::Error(Error::InitOnly)) && r.effects@.len()
                    == 0
            },
        },
{
    let mut effects: Vec<ServiceEffect> = Vec::new();
    let response = match req {
        Request::FactoryReset => {
            if *in_init_mode {
                effects.push(ServiceEffect::InitFactoryReset);
                Response::Okay
            } else {
                Response::Error(Error::InitOnly)
            }
        },
        Request::FinishInitMode => {
            if *in_init_mode {
                *in_init_mode = false;
                effects.push(ServiceEffect::InitFinish);
                Response::Okay
            } else {
                Response::Error(Error::InitOnly)
            }
        },
        Request::IsInInitMode => Response::Uint(
            if *in_init_mode {
                1
            } else {
                0
            },
        ),
        Request::GetVersionMajor => Response::Uint(status.version.0),
        Request::GetVersionMinor => Response::Uint(status.version.1),
        Request::GetVersionPatch => Response::Uint(status.version.2),
        Request::GetFrameCount => Response::Uint(status.frame_count as u64),
        Request::GetFrame => {
            return Serviced { response: UartResponse::OledFrame, effects };
        },
        Request::GetLightState => Response::LightState {
            debug_leds: status.led_duties,
            debug_leds_max_duty: DEBUG_LEDS_MAX_DUTY,
            controller: pack_lights(&status.light_values),
        },
        Request::EndLightProgram => {
            if *in_init_mode {
                effects.push(ServiceEffect::BlinkenConfig);
                effects.push(ServiceEffect::LedsAllOff);
                Response::Okay
            } else {
                Response::Error(Error::InitOnly)
            }
        },
        Request::StartLightProgram { debug, controller } => {
            if *in_init_mode {
                effects.push(ServiceEffect::BlinkenManual { states: *debug });
                effects.push(ServiceEffect::LedsManual { state: unpack_lights(controller) });
                Response::Okay
            } else {
                Response::Error(Error::InitOnly)
            }
        },
    };
    Serviced { response: UartResponse::Protocol(response), effects }
}

} // verus!
