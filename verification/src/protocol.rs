//! The messages exchanged between the host and the board, and their CBOR
//! encoding.
//!
//! Every message is a two-element array: the variant index followed by an
//! array of the variant's fields (empty for variants without fields). Integers
//! are written in their shortest form; on reading, any width is accepted.

use vstd::prelude::*;
use vstd::utf8::{decode_utf8, encode_utf8, valid_utf8};
use crate::cbor::{
    CBOR_FALSE, CBOR_TRUE, MAJOR_ARRAY, MAJOR_TEXT, MAJOR_UINT, holds_at, lemma_head_roundtrip, read_head,
    spec_head, spec_parse_head, write_head,
};

verus! {

/// A request from the host to the board.
#[derive(Clone, Debug, PartialEq, Eq)]
pub enum Request {
    /// Answered with `Uint`.
    GetVersionMajor,
    /// Answered with `Uint`.
    GetVersionMinor,
    /// Answered with `Uint`.
    GetVersionPatch,
    /// Answered with `Uint`.
    IsInInitMode,
    /// Answered with `Okay`, or `Error(InitOnly)`.
    FinishInitMode,
    /// Answered with `Okay`, or `Error(InitOnly)`.
    FactoryReset,
    /// Answered with `Uint`.
    GetFrameCount,
    /// Answered with `BulkTransfer`.
    GetFrame,
    /// Answered with `LightState`.
    GetLightState,
    /// Answered with `Okay`, or `Error(InitOnly)`.
    StartLightProgram { debug: [bool; 3], controller: [u32; 9] },
    /// Answered with `Okay`, or `Error(InitOnly)`.
    EndLightProgram,
}

/// An error reported by the board.
#[derive(Clone, Copy, Debug, PartialEq, Eq, Structural)]
pub enum Error {
    TooLong,
    MalformedRequest,
    InitOnly,
}

/// A response from the board to the host.
#[derive(Clone, Debug, PartialEq, Eq)]
pub enum Response {
    Okay,
    Uint(u64),
    Error(Error),
    BulkTransfer(u64),
    LightState {
        debug_leds: [u16; 3],
        debug_leds_max_duty: u16,
        /// 36 brightness bytes packed big-endian into 9 words.
        controller: [u32; 9],
    },
    String(String),
}

/// The abstract value of a [`Request`].
pub enum RequestModel {
    GetVersionMajor,
    GetVersionMinor,
    GetVersionPatch,
    IsInInitMode,
    FinishInitMode,
    FactoryReset,
    GetFrameCount,
    GetFrame,
    GetLightState,
    StartLightProgram { debug: Seq<bool>, controller: Seq<u32> },
    EndLightProgram,
}

/// The abstract value of a [`Response`].
pub enum ResponseModel {
    Okay,
    Uint(u64),
    Error(Error),
    BulkTransfer(u64),
    LightState { debug_leds: Seq<u16>, debug_leds_max_duty: u16, controller: Seq<u32> },
    String(Seq<char>),
}

impl View for Request {
    type V = RequestModel;

    open spec fn view(&self) -> RequestModel {
        match self {
            Request::GetVersionMajor => RequestModel::GetVersionMajor,
            Request::GetVersionMinor => RequestModel::GetVersionMinor,
            Request::GetVersionPatch => RequestModel::GetVersionPatch,
            Request::IsInInitMode => RequestModel::IsInInitMode,
            Request::FinishInitMode => RequestModel::FinishInitMode,
            Request::FactoryReset => RequestModel::FactoryReset,
            Request::GetFrameCount => RequestModel::GetFrameCount,
            Request::GetFrame => RequestModel::GetFrame,
            Request::GetLightState => RequestModel::GetLightState,
            Request::StartLightProgram { debug, controller } => RequestModel::StartLightProgram {
                debug: debug@,
                controller: controller@,
            },
            Request::EndLightProgram => RequestModel::EndLightProgram,
        }
    }
}

impl View for Response {
    type V = ResponseModel;

    open spec fn view(&self) -> ResponseModel {
        match self {
            Response::Okay => ResponseModel::Okay,
            Response::Uint(v) => ResponseModel::Uint(*v),
            Response::Error(e) => ResponseModel::Error(*e),
            Response::BulkTransfer(v) => ResponseModel::BulkTransfer(*v),
            Response::LightState { debug_leds, debug_leds_max_duty, controller } =>
                ResponseModel::LightState {
                debug_leds: debug_leds@,
                debug_leds_max_duty: *debug_leds_max_duty,
                controller: controller@,
            },
            Response::String(s) => ResponseModel::String(s@),
        }
    }
}

impl RequestModel {
    /// The variant index of the request.
    pub open spec fn index(self) -> u64 {
        match self {
            RequestModel::GetVersionMajor => 0,
            RequestModel::GetVersionMinor => 1,
            RequestModel::GetVersionPatch => 2,
            RequestModel::IsInInitMode => 3,
            RequestModel::FinishInitMode => 4,
            RequestModel::FactoryReset => 5,
            RequestModel::GetFrameCount => 6,
            RequestModel::GetFrame => 7,
            RequestModel::GetLightState => 8,
            RequestModel::StartLightProgram { .. } => 9,
            RequestModel::EndLightProgram => 10,
        }
    }

    /// The request without fields that has variant index `idx`.
    pub open spec fn unit_of_index(idx: u64) -> RequestModel {
        if idx == 0 {
            RequestModel::GetVersionMajor
        } else if idx == 1 {
            RequestModel::GetVersionMinor
        } else if idx == 2 {
            RequestModel::GetVersionPatch
        } else if idx == 3 {
            RequestModel::IsInInitMode
        } else if idx == 4 {
            RequestModel::FinishInitMode
        } else if idx == 5 {
            RequestModel::FactoryReset
        } else if idx == 6 {
            RequestModel::GetFrameCount
        } else if idx == 7 {
            RequestModel::GetFrame
        } else if idx == 8 {
            RequestModel::GetLightState
        } else {
            RequestModel::EndLightProgram
        }
    }

    /// The field arrays have their fixed lengths.
    pub open spec fn wf(self) -> bool {
        match self {
            RequestModel::StartLightProgram { debug, controller } => debug.len() == 3
                && controller.len() == 9,
            _ => true,
        }
    }
}

impl ResponseModel {
    /// The field arrays have their fixed lengths, and a string's encoding fits
    /// in a 64-bit length.
    pub open spec fn wf(self) -> bool {
        match self {
            ResponseModel::LightState { debug_leds, controller, .. } => debug_leds.len() == 3
                && controller.len() == 9,
            ResponseModel::String(s) => encode_utf8(s).len() <= u64::MAX,
            _ => true,
        }
    }
}

/// The requests without fields, in the order the protocol declares them
/// (positions 0 to 8; the light program follows at 9, then the end of the
/// light program at 10).
pub open spec fn spec_declared_unit_requests() -> Seq<RequestModel> {
    seq![
        RequestModel::GetVersionMajor,
        RequestModel::GetVersionMinor,
        RequestModel::GetVersionPatch,
        RequestModel::IsInInitMode,
        RequestModel::FinishInitMode,
        RequestModel::FactoryReset,
        RequestModel::GetFrameCount,
        RequestModel::GetFrame,
        RequestModel::GetLightState,
    ]
}

/// The variant index of an error.
pub open spec fn spec_error_index(e: Error) -> u64 {
    match e {
        Error::TooLong => 0,
        Error::MalformedRequest => 1,
        Error::InitOnly => 2,
    }
}

/// The byte of a boolean.
pub open spec fn spec_bool_byte(b: bool) -> u8 {
    if b {
        CBOR_TRUE
    } else {
        CBOR_FALSE
    }
}

/// The bytes of a sequence of booleans, one byte each.
pub open spec fn spec_bools(s: Seq<bool>) -> Seq<u8>
    decreases s.len(),
{
    if s.len() == 0 {
        seq![]
    } else {
        spec_bools(s.drop_last()) + seq![spec_bool_byte(s.last())]
    }
}

/// The bytes of a sequence of unsigned integers, each in its shortest form.
pub open spec fn spec_uints(s: Seq<u64>) -> Seq<u8>
    decreases s.len(),
{
    if s.len() == 0 {
        seq![]
    } else {
        spec_uints(s.drop_last()) + spec_head(MAJOR_UINT, s.last())
    }
}

pub open spec fn widen32(s: Seq<u32>) -> Seq<u64> {
    s.map_values(|x: u32| x as u64)
}

pub open spec fn widen16(s: Seq<u16>) -> Seq<u64> {
    s.map_values(|x: u16| x as u64)
}

/// A two-element array head, the variant index, and the head of the fields
/// array with `n_fields` elements.
pub open spec fn spec_variant_prefix(idx: u64, n_fields: u64) -> Seq<u8> {
    spec_head(MAJOR_ARRAY, 2) + spec_head(MAJOR_UINT, idx) + spec_head(MAJOR_ARRAY, n_fields)
}

/// The encoding of an error.
pub open spec fn spec_encode_error(e: Error) -> Seq<u8> {
    spec_variant_prefix(spec_error_index(e), 0)
}

/// The encoding of a request.
pub open spec fn spec_encode_request(m: RequestModel) -> Seq<u8> {
    match m {
        RequestModel::StartLightProgram { debug, controller } => spec_variant_prefix(9, 2)
            + spec_head(MAJOR_ARRAY, 3) + spec_bools(debug) + spec_head(MAJOR_ARRAY, 9)
            + spec_uints(widen32(controller)),
        _ => spec_variant_prefix(m.index(), 0),
    }
}

/// The encoding of a response.
pub open spec fn spec_encode_response(m: ResponseModel) -> Seq<u8> {
    match m {
        ResponseModel::Okay => spec_variant_prefix(0, 0),
        ResponseModel::Uint(v) => spec_variant_prefix(1, 1) + spec_head(MAJOR_UINT, v),
        ResponseModel::Error(e) => spec_variant_prefix(2, 1) + spec_encode_error(e),
        ResponseModel::BulkTransfer(v) => spec_variant_prefix(3, 1) + spec_head(MAJOR_UINT, v),
        ResponseModel::LightState { debug_leds, debug_leds_max_duty, controller } =>
            spec_variant_prefix(4, 3) + spec_head(MAJOR_ARRAY, 3) + spec_uints(widen16(debug_leds))
            + spec_head(MAJOR_UINT, debug_leds_max_duty as u64) + spec_head(MAJOR_ARRAY, 9)
            + spec_uints(widen32(controller)),
        ResponseModel::String(s) => spec_variant_prefix(5, 1) + spec_head(
            MAJOR_TEXT,
            encode_utf8(s).len() as u64,
        ) + encode_utf8(s),
    }
}


/// The position after a head of major type `major` and argument `v` at `pos`,
/// if there is one.
pub open spec fn spec_expect_head(b: Seq<u8>, pos: int, major: u8, v: u64) -> Option<int> {
    match spec_parse_head(b, pos) {
        Some((m, x, p)) => if m == major && x == v {
            Some(p)
        } else {
            None
        },
        None => None,
    }
}

/// Reads `n` booleans at `pos`.
pub open spec fn spec_parse_bools(b: Seq<u8>, pos: int, n: nat) -> Option<(Seq<bool>, int)>
    decreases n,
{
    if n == 0 {
        Some((seq![], pos))
    } else {
        match spec_parse_bools(b, pos, (n - 1) as nat) {
            Some((bs, p)) => if 0 <= p < b.len() && (b[p] == CBOR_TRUE || b[p] == CBOR_FALSE) {
                Some((bs.push(b[p] == CBOR_TRUE), p + 1))
            } else {
                None
            },
            None => None,
        }
    }
}

/// Reads `n` unsigned integers, none above `max`, at `pos`.
pub open spec fn spec_parse_uints(b: Seq<u8>, pos: int, n: nat, max: u64) -> Option<
    (Seq<u64>, int),
>
    decreases n,
{
    if n == 0 {
        Some((seq![], pos))
    } else {
        match spec_parse_uints(b, pos, (n - 1) as nat, max) {
            Some((vs, p)) => match spec_parse_head(b, p) {
                Some((m, x, q)) => if m == MAJOR_UINT && x <= max {
                    Some((vs.push(x), q))
                } else {
                    None
                },
                None => None,
            },
            None => None,
        }
    }
}

/// Reads the two-element array head and the variant index at `pos`.
pub open spec fn spec_parse_variant_index(b: Seq<u8>, pos: int) -> Option<(u64, int)> {
    match spec_expect_head(b, pos, MAJOR_ARRAY, 2) {
        Some(p1) => match spec_parse_head(b, p1) {
            Some((m, idx, p2)) => if m == MAJOR_UINT {
                Some((idx, p2))
            } else {
                None
            },
            None => None,
        },
        None => None,
    }
}

/// Reads the fields of `StartLightProgram`, starting at the head of its
/// fields array.
pub open spec fn spec_parse_light_program(b: Seq<u8>, pos: int) -> Option<(RequestModel, int)> {
    match spec_expect_head(b, pos, MAJOR_ARRAY, 2) {
        Some(p1) => match spec_expect_head(b, p1, MAJOR_ARRAY, 3) {
            Some(p2) => match spec_parse_bools(b, p2, 3) {
                Some((bs, p3)) => match spec_expect_head(b, p3, MAJOR_ARRAY, 9) {
                    Some(p4) => match spec_parse_uints(b, p4, 9, u32::MAX as u64) {
                        Some((us, p5)) => Some(
                            (
                                RequestModel::StartLightProgram {
                                    debug: bs,
                                    controller: us.map_values(|x: u64| x as u32),
                                },
                                p5,
                            ),
                        ),
                        None => None,
                    },
                    None => None,
                },
                None => None,
            },
            None => None,
        },
        None => None,
    }
}

/// Reads a request at `pos`: the request and the position after it.
pub open spec fn spec_parse_request(b: Seq<u8>, pos: int) -> Option<(RequestModel, int)> {
    match spec_parse_variant_index(b, pos) {
        Some((idx, p)) => if idx == 9 {
            spec_parse_light_program(b, p)
        } else if idx <= 10 {
            match spec_expect_head(b, p, MAJOR_ARRAY, 0) {
                Some(q) => Some((RequestModel::unit_of_index(idx), q)),
                None => None,
            }
        } else {
            None
        },
        None => None,
    }
}

/// Reads an error at `pos`.
pub open spec fn spec_parse_error(b: Seq<u8>, pos: int) -> Option<(Error, int)> {
    match spec_parse_variant_index(b, pos) {
        Some((idx, p)) => if idx <= 2 {
            match spec_expect_head(b, p, MAJOR_ARRAY, 0) {
                Some(q) => Some(
                    (
                        if idx == 0 {
                            Error::TooLong
                        } else if idx == 1 {
                            Error::MalformedRequest
                        } else {
                            Error::InitOnly
                        },
                        q,
                    ),
                ),
                None => None,
            }
        } else {
            None
        },
        None => None,
    }
}

/// Reads a one-element fields array holding an unsigned integer.
pub open spec fn spec_parse_uint_field(b: Seq<u8>, pos: int) -> Option<(u64, int)> {
    match spec_expect_head(b, pos, MAJOR_ARRAY, 1) {
        Some(p) => match spec_parse_head(b, p) {
            Some((m, v, q)) => if m == MAJOR_UINT {
                Some((v, q))
            } else {
                None
            },
            None => None,
        },
        None => None,
    }
}

/// Reads the fields of `LightState`, starting at the head of its fields array.
pub open spec fn spec_parse_light_state(b: Seq<u8>, pos: int) -> Option<(ResponseModel, int)> {
    match spec_expect_head(b, pos, MAJOR_ARRAY, 3) {
        Some(p1) => match spec_expect_head(b, p1, MAJOR_ARRAY, 3) {
            Some(p2) => match spec_parse_uints(b, p2, 3, u16::MAX as u64) {
                Some((ds, p3)) => match spec_parse_uints(b, p3, 1, u16::MAX as u64) {
                    Some((dm, p4)) => match spec_expect_head(b, p4, MAJOR_ARRAY, 9) {
                        Some(p5) => match spec_parse_uints(b, p5, 9, u32::MAX as u64) {
                            Some((us, p6)) => Some(
                                (
                                    ResponseModel::LightState {
                                        debug_leds: ds.map_values(|x: u64| x as u16),
                                        debug_leds_max_duty: dm[0] as u16,
                                        controller: us.map_values(|x: u64| x as u32),
                                    },
                                    p6,
                                ),
                            ),
                            None => None,
                        },
                        None => None,
                    },
                    None => None,
                },
                None => None,
            },
            None => None,
        },
        None => None,
    }
}

/// Reads a one-element fields array holding a UTF-8 text string.
pub open spec fn spec_parse_text_field(b: Seq<u8>, pos: int) -> Option<(ResponseModel, int)> {
    match spec_expect_head(b, pos, MAJOR_ARRAY, 1) {
        Some(p1) => match spec_parse_head(b, p1) {
            Some((m, len, p2)) => if m == MAJOR_TEXT && p2 + len <= b.len() && valid_utf8(
                b.subrange(p2, p2 + len),
            ) {
                Some((ResponseModel::String(decode_utf8(b.subrange(p2, p2 + len))), p2 + len))
            } else {
                None
            },
            None => None,
        },
        None => None,
    }
}

/// Reads a response at `pos`: the response and the position after it.
pub open spec fn spec_parse_response(b: Seq<u8>, pos: int) -> Option<(ResponseModel, int)> {
    match spec_parse_variant_index(b, pos) {
        Some((idx, p)) => if idx == 0 {
            match spec_expect_head(b, p, MAJOR_ARRAY, 0) {
                Some(q) => Some((ResponseModel::Okay, q)),
                None => None,
            }
        } else if idx == 1 {
            match spec_parse_uint_field(b, p) {
                Some((v, q)) => Some((ResponseModel::Uint(v), q)),
                None => None,
            }
        } else if idx == 2 {
            match spec_expect_head(b, p, MAJOR_ARRAY, 1) {
                Some(p1) => match spec_parse_error(b, p1) {
                    Some((e, q)) => Some((ResponseModel::Error(e), q)),
                    None => None,
                },
                None => None,
            }
        } else if idx == 3 {
            match spec_parse_uint_field(b, p) {
                Some((v, q)) => Some((ResponseModel::BulkTransfer(v), q)),
                None => None,
            }
        } else if idx == 4 {
            spec_parse_light_state(b, p)
        } else if idx == 5 {
            spec_parse_text_field(b, p)
        } else {
            None
        },
        None => None,
    }
}

/// `s` split at `s.len()` is `s` and `t`.
pub proof fn lemma_holds_at_split(b: Seq<u8>, pos: int, s: Seq<u8>, t: Seq<u8>)
    requires
        holds_at(b, pos, s + t),
    ensures
        holds_at(b, pos, s),
        holds_at(b, pos + s.len(), t),
{
    let w = b.subrange(pos, pos + (s + t).len());
    assert(w == s + t);
    assert(b.subrange(pos, pos + s.len()) =~= w.subrange(0, s.len() as int));
    assert(w.subrange(0, s.len() as int) =~= s);
    assert(b.subrange(pos + s.len(), pos + s.len() + t.len()) =~= w.subrange(
        s.len() as int,
        w.len() as int,
    ));
    assert(w.subrange(s.len() as int, w.len() as int) =~= t);
}

/// A head written for `major` and `v` is accepted where exactly that head is
/// expected, and reading goes on right after it.
pub proof fn lemma_expect_head(b: Seq<u8>, pos: int, major: u8, v: u64)
    requires
        major < 8,
        holds_at(b, pos, spec_head(major, v)),
    ensures
        spec_expect_head(b, pos, major, v) == Some(pos + spec_head(major, v).len()),
{
    lemma_head_roundtrip(b, pos, major, v);
}

/// Booleans written by [`spec_bools`] are read back.
pub proof fn lemma_bools_roundtrip(b: Seq<u8>, pos: int, s: Seq<bool>)
    requires
        holds_at(b, pos, spec_bools(s)),
    ensures
        spec_parse_bools(b, pos, s.len()) == Some((s, pos + spec_bools(s).len())),
    decreases s.len(),
{
    if s.len() > 0 {
        let init = s.drop_last();
        lemma_holds_at_split(b, pos, spec_bools(init), seq![spec_bool_byte(s.last())]);
        lemma_bools_roundtrip(b, pos, init);
        let p = pos + spec_bools(init).len();
        assert(b[p] == b.subrange(p, p + 1)[0]);
        assert(init.push(s.last()) =~= s);
    }
}

/// Integers written by [`spec_uints`] are read back.
pub proof fn lemma_uints_roundtrip(b: Seq<u8>, pos: int, s: Seq<u64>, max: u64)
    requires
        holds_at(b, pos, spec_uints(s)),
        forall|i: int| 0 <= i < s.len() ==> s[i] <= max,
    ensures
        spec_parse_uints(b, pos, s.len(), max) == Some((s, pos + spec_uints(s).len())),
    decreases s.len(),
{
    if s.len() > 0 {
        let init = s.drop_last();
        lemma_holds_at_split(b, pos, spec_uints(init), spec_head(MAJOR_UINT, s.last()));
        lemma_uints_roundtrip(b, pos, init, max);
        lemma_head_roundtrip(b, pos + spec_uints(init).len(), MAJOR_UINT, s.last());
        assert(init.push(s.last()) =~= s);
    }
}

/// The variant prefix written by [`spec_variant_prefix`] is read back.
pub proof fn lemma_variant_prefix_roundtrip(b: Seq<u8>, pos: int, idx: u64, n: u64)
    requires
        holds_at(b, pos, spec_variant_prefix(idx, n)),
    ensures
        spec_parse_variant_index(b, pos) == Some(
            (idx, pos + spec_head(MAJOR_ARRAY, 2).len() + spec_head(MAJOR_UINT, idx).len()),
        ),
        spec_expect_head(
            b,
            pos + spec_head(MAJOR_ARRAY, 2).len() + spec_head(MAJOR_UINT, idx).len(),
            MAJOR_ARRAY,
            n,
        ) == Some(pos + spec_variant_prefix(idx, n).len()),
{
    let h2 = spec_head(MAJOR_ARRAY, 2);
    let hi = spec_head(MAJOR_UINT, idx);
    let hn = spec_head(MAJOR_ARRAY, n);
    lemma_holds_at_split(b, pos, h2 + hi, hn);
    lemma_holds_at_split(b, pos, h2, hi);
    lemma_expect_head(b, pos, MAJOR_ARRAY, 2);
    lemma_head_roundtrip(b, pos + h2.len(), MAJOR_UINT, idx);
    lemma_expect_head(b, pos + h2.len() + hi.len(), MAJOR_ARRAY, n);
}

/// Decoding a request's encoding gives back the request, and ends where the
/// encoding ends.
pub proof fn lemma_request_roundtrip(b: Seq<u8>, pos: int, m: RequestModel)
    requires
        m.wf(),
        holds_at(b, pos, spec_encode_request(m)),
    ensures
        spec_parse_request(b, pos) == Some((m, pos + spec_encode_request(m).len())),
{
    match m {
        RequestModel::StartLightProgram { debug, controller } => {
            let pre = spec_variant_prefix(9, 2);
            let h3 = spec_head(MAJOR_ARRAY, 3);
            let bs = spec_bools(debug);
            let h9 = spec_head(MAJOR_ARRAY, 9);
            let us = spec_uints(widen32(controller));
            lemma_holds_at_split(b, pos, pre + h3 + bs + h9, us);
            lemma_holds_at_split(b, pos, pre + h3 + bs, h9);
            lemma_holds_at_split(b, pos, pre + h3, bs);
            lemma_holds_at_split(b, pos, pre, h3);
            lemma_variant_prefix_roundtrip(b, pos, 9, 2);
            lemma_expect_head(b, pos + pre.len(), MAJOR_ARRAY, 3);
            lemma_bools_roundtrip(b, pos + pre.len() + h3.len(), debug);
            lemma_expect_head(b, pos + pre.len() + h3.len() + bs.len(), MAJOR_ARRAY, 9);
            lemma_uints_roundtrip(
                b,
                pos + pre.len() + h3.len() + bs.len() + h9.len(),
                widen32(controller),
                u32::MAX as u64,
            );
            assert(widen32(controller).map_values(|x: u64| x as u32) =~= controller);
        },
        _ => {
            lemma_variant_prefix_roundtrip(b, pos, m.index(), 0);
        },
    }
}


proof fn lemma_small_heads(k: u8)
    requires
        k < 24,
    ensures
        spec_head(MAJOR_ARRAY, 2) == seq![0x82u8],
        spec_head(MAJOR_ARRAY, 0) == seq![0x80u8],
        spec_head(MAJOR_UINT, k as u64) == seq![k],
{
    assert(((4u8 << 5u8) | 2u8) == 0x82u8) by (bit_vector);
    assert(((4u8 << 5u8) | 0u8) == 0x80u8) by (bit_vector);
    assert(((0u8 << 5u8) | k) == k) by (bit_vector)
        requires
            k < 24,
    ;
}

proof fn lemma_unit_request_bytes(u: RequestModel, k: u8)
    requires
        !(u is StartLightProgram),
        u.index() == k,
        k < 24,
    ensures
        spec_encode_request(u) == seq![0x82u8, k, 0x80u8],
        spec_decode_request(seq![0x82u8, k, 0x80u8]) == Some(u),
{
    lemma_small_heads(k);
    let b = seq![0x82u8, k, 0x80u8];
    assert(spec_encode_request(u) =~= b);
    assert(b.subrange(0, 3) =~= b);
    lemma_request_roundtrip(b, 0, u);
}

/// A request is written as a two-item array: its position in the protocol's
/// declaration of requests, then the array of its fields. So the request at
/// position `k` (0 to 8, none with fields) is exactly the bytes
/// `[0x82, k, 0x80]`, and those bytes read back as that request; the end of a
/// light program, at 10, is `[0x82, 0x0A, 0x80]`; and a light program, at 9,
/// starts `[0x82, 0x09, 0x82]`, its two fields.
pub proof fn lemma_request_variant_positions(k: int, m: RequestModel)
    requires
        0 <= k < 9,
    ensures
        spec_encode_request(spec_declared_unit_requests()[k]) == seq![0x82u8, k as u8, 0x80u8],
        spec_decode_request(seq![0x82u8, k as u8, 0x80u8]) == Some(spec_declared_unit_requests()[k]),
        spec_encode_request(RequestModel::EndLightProgram) == seq![0x82u8, 0x0Au8, 0x80u8],
        spec_decode_request(seq![0x82u8, 0x0Au8, 0x80u8]) == Some(RequestModel::EndLightProgram),
        m is StartLightProgram ==> spec_encode_request(m).take(3) == seq![0x82u8, 0x09u8, 0x82u8],
{
    let units = spec_declared_unit_requests();
    if k == 0 {
        lemma_unit_request_bytes(units[0], 0);
    } else if k == 1 {
        lemma_unit_request_bytes(units[1], 1);
    } else if k == 2 {
        lemma_unit_request_bytes(units[2], 2);
    } else if k == 3 {
        lemma_unit_request_bytes(units[3], 3);
    } else if k == 4 {
        lemma_unit_request_bytes(units[4], 4);
    } else if k == 5 {
        lemma_unit_request_bytes(units[5], 5);
    } else if k == 6 {
        lemma_unit_request_bytes(units[6], 6);
    } else if k == 7 {
        lemma_unit_request_bytes(units[7], 7);
    } else {
        lemma_unit_request_bytes(units[8], 8);
    }
    lemma_unit_request_bytes(RequestModel::EndLightProgram, 10);
    if m is StartLightProgram {
        lemma_small_heads(9);
        assert(spec_encode_request(m).take(3) =~= seq![0x82u8, 0x09u8, 0x82u8]);
    }
}

/// A response is written as a two-item array: its position in the protocol's
/// declaration of responses (`Okay`, `Uint`, `Error`, `BulkTransfer`,
/// `LightState`, `String`), then the array of its fields. An error is written
/// the same way, by its position among `TooLong`, `MalformedRequest` and
/// `InitOnly`.
pub proof fn lemma_response_variant_positions(m: ResponseModel)
    ensures
        spec_encode_response(ResponseModel::Okay) == seq![0x82u8, 0x00u8, 0x80u8],
        m is Uint ==> spec_encode_response(m).take(3) == seq![0x82u8, 0x01u8, 0x81u8],
        m is Error ==> spec_encode_response(m).take(3) == seq![0x82u8, 0x02u8, 0x81u8],
        m is BulkTransfer ==> spec_encode_response(m).take(3) == seq![0x82u8, 0x03u8, 0x81u8],
        m is LightState ==> spec_encode_response(m).take(3) == seq![0x82u8, 0x04u8, 0x83u8],
        m is String ==> spec_encode_response(m).take(3) == seq![0x82u8, 0x05u8, 0x81u8],
        spec_encode_error(Error::TooLong) == seq![0x82u8, 0x00u8, 0x80u8],
        spec_encode_error(Error::MalformedRequest) == seq![0x82u8, 0x01u8, 0x80u8],
        spec_encode_error(Error::InitOnly) == seq![0x82u8, 0x02u8, 0x80u8],
{
    lemma_small_heads(0);
    lemma_small_heads(1);
    lemma_small_heads(2);
    lemma_small_heads(3);
    lemma_small_heads(4);
    lemma_small_heads(5);
    assert(((4u8 << 5u8) | 1u8) == 0x81u8) by (bit_vector);
    assert(((4u8 << 5u8) | 3u8) == 0x83u8) by (bit_vector);
    assert(spec_head(MAJOR_ARRAY, 1) == seq![0x81u8]);
    assert(spec_head(MAJOR_ARRAY, 3) == seq![0x83u8]);
    assert(spec_encode_response(ResponseModel::Okay) =~= seq![0x82u8, 0x00u8, 0x80u8]);
    assert(spec_encode_error(Error::TooLong) =~= seq![0x82u8, 0x00u8, 0x80u8]);
    assert(spec_encode_error(Error::MalformedRequest) =~= seq![0x82u8, 0x01u8, 0x80u8]);
    assert(spec_encode_error(Error::InitOnly) =~= seq![0x82u8, 0x02u8, 0x80u8]);
    let t = spec_encode_response(m).take(3);
    match m {
        ResponseModel::Uint(_) => assert(t =~= seq![0x82u8, 0x01u8, 0x81u8]),
        ResponseModel::Error(_) => assert(t =~= seq![0x82u8, 0x02u8, 0x81u8]),
        ResponseModel::BulkTransfer(_) => assert(t =~= seq![0x82u8, 0x03u8, 0x81u8]),
        ResponseModel::LightState { .. } => assert(t =~= seq![0x82u8, 0x04u8, 0x83u8]),
        ResponseModel::String(_) => assert(t =~= seq![0x82u8, 0x05u8, 0x81u8]),
        _ => {},
    }
}

/// Decoding an error's encoding gives back the error.
pub proof fn lemma_error_roundtrip(b: Seq<u8>, pos: int, e: Error)
    requires
        holds_at(b, pos, spec_encode_error(e)),
    ensures
        spec_parse_error(b, pos) == Some((e, pos + spec_encode_error(e).len())),
{
    lemma_variant_prefix_roundtrip(b, pos, spec_error_index(e), 0);
}

/// Decoding a response's encoding gives back the response, and ends where the
/// encoding ends.
pub proof fn lemma_response_roundtrip(b: Seq<u8>, pos: int, m: ResponseModel)
    requires
        m.wf(),
        holds_at(b, pos, spec_encode_response(m)),
    ensures
        spec_parse_response(b, pos) == Some((m, pos + spec_encode_response(m).len())),
{
    match m {
        ResponseModel::Okay => {
            lemma_variant_prefix_roundtrip(b, pos, 0, 0);
        },
        ResponseModel::Uint(v) => {
            let pre = spec_variant_prefix(1, 1);
            lemma_holds_at_split(b, pos, pre, spec_head(MAJOR_UINT, v));
            lemma_variant_prefix_roundtrip(b, pos, 1, 1);
            lemma_head_roundtrip(b, pos + pre.len(), MAJOR_UINT, v);
        },
        ResponseModel::BulkTransfer(v) => {
            let pre = spec_variant_prefix(3, 1);
            lemma_holds_at_split(b, pos, pre, spec_head(MAJOR_UINT, v));
            lemma_variant_prefix_roundtrip(b, pos, 3, 1);
            lemma_head_roundtrip(b, pos + pre.len(), MAJOR_UINT, v);
        },
        ResponseModel::Error(e) => {
            let pre = spec_variant_prefix(2, 1);
            lemma_holds_at_split(b, pos, pre, spec_encode_error(e));
            lemma_variant_prefix_roundtrip(b, pos, 2, 1);
            lemma_error_roundtrip(b, pos + pre.len(), e);
        },
        ResponseModel::LightState { debug_leds, debug_leds_max_duty, controller } => {
            let pre = spec_variant_prefix(4, 3);
            let h3 = spec_head(MAJOR_ARRAY, 3);
            let ds = spec_uints(widen16(debug_leds));
            let hm = spec_head(MAJOR_UINT, debug_leds_max_duty as u64);
            let h9 = spec_head(MAJOR_ARRAY, 9);
            let us = spec_uints(widen32(controller));
            lemma_holds_at_split(b, pos, pre + h3 + ds + hm + h9, us);
            lemma_holds_at_split(b, pos, pre + h3 + ds + hm, h9);
            lemma_holds_at_split(b, pos, pre + h3 + ds, hm);
            lemma_holds_at_split(b, pos, pre + h3, ds);
            lemma_holds_at_split(b, pos, pre, h3);
            lemma_variant_prefix_roundtrip(b, pos, 4, 3);
            lemma_expect_head(b, pos + pre.len(), MAJOR_ARRAY, 3);
            lemma_uints_roundtrip(b, pos + pre.len() + h3.len(), widen16(debug_leds), u16::MAX as u64);
            let single = seq![debug_leds_max_duty as u64];
            assert(spec_uints(single) =~= hm) by {
                assert(single.drop_last() =~= Seq::<u64>::empty());
                assert(spec_uints(Seq::<u64>::empty()) =~= Seq::<u8>::empty());
                assert(single.last() == debug_leds_max_duty as u64);
                assert(spec_uints(single) == spec_uints(single.drop_last()) + spec_head(
                    MAJOR_UINT,
                    single.last(),
                ));
            }
            lemma_uints_roundtrip(b, pos + pre.len() + h3.len() + ds.len(), single, u16::MAX as u64);
            lemma_expect_head(b, pos + pre.len() + h3.len() + ds.len() + hm.len(), MAJOR_ARRAY, 9);
            lemma_uints_roundtrip(
                b,
                pos + pre.len() + h3.len() + ds.len() + hm.len() + h9.len(),
                widen32(controller),
                u32::MAX as u64,
            );
            assert(widen16(debug_leds).map_values(|x: u64| x as u16) =~= debug_leds);
            assert(widen32(controller).map_values(|x: u64| x as u32) =~= controller);
        },
        ResponseModel::String(chars) => {
            let pre = spec_variant_prefix(5, 1);
            let enc = encode_utf8(chars);
            let hl = spec_head(MAJOR_TEXT, enc.len() as u64);
            lemma_holds_at_split(b, pos, pre + hl, enc);
            lemma_holds_at_split(b, pos, pre, hl);
            lemma_variant_prefix_roundtrip(b, pos, 5, 1);
            lemma_head_roundtrip(b, pos + pre.len(), MAJOR_TEXT, enc.len() as u64);
            vstd::utf8::encode_utf8_valid_utf8(chars);
            vstd::utf8::encode_utf8_decode_utf8(chars);
        },
    }
}


/// A failed read of `i` items stays failed for any larger count.
pub proof fn lemma_parse_uints_fail_grows(b: Seq<u8>, pos: int, i: nat, n: nat, max: u64)
    requires
        i <= n,
        spec_parse_uints(b, pos, i, max) is None,
    ensures
        spec_parse_uints(b, pos, n, max) is None,
    decreases n - i,
{
    if i < n {
        lemma_parse_uints_fail_grows(b, pos, i, (n - 1) as nat, max);
    }
}

/// A failed read of `i` booleans stays failed for any larger count.
pub proof fn lemma_parse_bools_fail_grows(b: Seq<u8>, pos: int, i: nat, n: nat)
    requires
        i <= n,
        spec_parse_bools(b, pos, i) is None,
    ensures
        spec_parse_bools(b, pos, n) is None,
    decreases n - i,
{
    if i < n {
        lemma_parse_bools_fail_grows(b, pos, i, (n - 1) as nat);
    }
}

/// Booleans read by [`spec_parse_bools`] number exactly as many as asked.
pub proof fn lemma_parse_bools_len(b: Seq<u8>, pos: int, n: nat)
    ensures
        spec_parse_bools(b, pos, n) matches Some((vs, _)) ==> vs.len() == n,
    decreases n,
{
    if n > 0 {
        lemma_parse_bools_len(b, pos, (n - 1) as nat);
    }
}

/// Integers read by [`spec_parse_uints`] number exactly as many as asked, and
/// none is above the bound.
pub proof fn lemma_parse_uints_props(b: Seq<u8>, pos: int, n: nat, max: u64)
    ensures
        spec_parse_uints(b, pos, n, max) matches Some((vs, _)) ==> vs.len() == n && forall|i: int|
            0 <= i < vs.len() ==> vs[i] <= max,
    decreases n,
{
    if n > 0 {
        lemma_parse_uints_props(b, pos, (n - 1) as nat, max);
    }
}

/// The request decoded from the start of `b`, if any; bytes after it are
/// ignored.
pub open spec fn spec_decode_request(b: Seq<u8>) -> Option<RequestModel> {
    match spec_parse_request(b, 0) {
        Some((m, _)) => Some(m),
        None => None,
    }
}

/// The response decoded from the start of `b`, if any; bytes after it are
/// ignored.
pub open spec fn spec_decode_response(b: Seq<u8>) -> Option<ResponseModel> {
    match spec_parse_response(b, 0) {
        Some((m, _)) => Some(m),
        None => None,
    }
}

/// Checks for a head of major type `major` and argument `v` at `pos`.
pub fn expect_head(b: &[u8], pos: usize, major: u8, v: u64) -> (r: Option<usize>)
    ensures
        match r {
            Some(p) => spec_expect_head(b@, pos as int, major, v) == Some(p as int),
            None => spec_expect_head(b@, pos as int, major, v) is None,
        },
{
    match read_head(b, pos) {
        Some((m, x, p)) => if m == major && x == v {
            Some(p)
        } else {
            None
        },
        None => None,
    }
}

/// Reads `n` booleans at `pos`; see [`spec_parse_bools`].
pub fn read_bools(b: &[u8], pos: usize, n: usize) -> (r: Option<(Vec<bool>, usize)>)
    ensures
        match r {
            Some((vs, p)) => spec_parse_bools(b@, pos as int, n as nat) == Some((vs@, p as int)),
            None => spec_parse_bools(b@, pos as int, n as nat) is None,
        },
{
    let mut vs: Vec<bool> = Vec::new();
    let mut p: usize = pos;
    let mut i: usize = 0;
    while i < n
        invariant
            i <= n,
            spec_parse_bools(b@, pos as int, i as nat) == Some((vs@, p as int)),
        decreases n - i,
    {
        if p < b.len() && (b[p] == CBOR_TRUE || b[p] == CBOR_FALSE) {
            vs.push(b[p] == CBOR_TRUE);
            p = p + 1;
            i = i + 1;
        } else {
            proof {
                lemma_parse_bools_fail_grows(b@, pos as int, (i + 1) as nat, n as nat);
            }
            return None;
        }
    }
    Some((vs, p))
}

/// Reads `n` unsigned integers, none above `max`, at `pos`; see
/// [`spec_parse_uints`].
pub fn read_uints(b: &[u8], pos: usize, n: usize, max: u64) -> (r: Option<(Vec<u64>, usize)>)
    ensures
        match r {
            Some((vs, p)) => spec_parse_uints(b@, pos as int, n as nat, max) == Some(
                (vs@, p as int),
            ),
            None => spec_parse_uints(b@, pos as int, n as nat, max) is None,
        },
{
    let mut vs: Vec<u64> = Vec::new();
    let mut p: usize = pos;
    let mut i: usize = 0;
    while i < n
        invariant
            i <= n,
            spec_parse_uints(b@, pos as int, i as nat, max) == Some((vs@, p as int)),
        decreases n - i,
    {
        match read_head(b, p) {
            Some((m, x, q)) => {
                if m == MAJOR_UINT && x <= max {
                    vs.push(x);
                    p = q;
                    i = i + 1;
                } else {
                    proof {
                        lemma_parse_uints_fail_grows(b@, pos as int, (i + 1) as nat, n as nat, max);
                    }
                    return None;
                }
            },
            None => {
                proof {
                    lemma_parse_uints_fail_grows(b@, pos as int, (i + 1) as nat, n as nat, max);
                }
                return None;
            },
        }
    }
    Some((vs, p))
}

/// Reads the two-element array head and the variant index at `pos`.
pub fn read_variant_index(b: &[u8], pos: usize) -> (r: Option<(u64, usize)>)
    ensures
        match r {
            Some((idx, p)) => spec_parse_variant_index(b@, pos as int) == Some((idx, p as int)),
            None => spec_parse_variant_index(b@, pos as int) is None,
        },
{
    let p1 = match expect_head(b, pos, MAJOR_ARRAY, 2) {
        Some(p1) => p1,
        None => return None,
    };
    match read_head(b, p1) {
        Some((m, idx, p2)) => if m == MAJOR_UINT {
            Some((idx, p2))
        } else {
            None
        },
        None => None,
    }
}

/// Reads the fields of `StartLightProgram`.
fn read_light_program(b: &[u8], pos: usize) -> (r: Option<(Request, usize)>)
    ensures
        match r {
            Some((x, p)) => spec_parse_light_program(b@, pos as int) == Some((x@, p as int)),
            None => spec_parse_light_program(b@, pos as int) is None,
        },
{
    let p1 = match expect_head(b, pos, MAJOR_ARRAY, 2) {
        Some(p) => p,
        None => return None,
    };
    let p2 = match expect_head(b, p1, MAJOR_ARRAY, 3) {
        Some(p) => p,
        None => return None,
    };
    let (bs, p3) = match read_bools(b, p2, 3) {
        Some(x) => x,
        None => return None,
    };
    let p4 = match expect_head(b, p3, MAJOR_ARRAY, 9) {
        Some(p) => p,
        None => return None,
    };
    let (us, p5) = match read_uints(b, p4, 9, 0xFFFF_FFFF) {
        Some(x) => x,
        None => return None,
    };
    proof {
        lemma_parse_bools_len(b@, p2 as int, 3);
        lemma_parse_uints_props(b@, p4 as int, 9, 0xFFFF_FFFF);
    }
    let debug: [bool; 3] = [bs[0], bs[1], bs[2]];
    let mut controller: [u32; 9] = [0u32; 9];
    let mut i: usize = 0;
    while i < 9
        invariant
            0 <= i <= 9,
            us@.len() == 9,
            forall|j: int| 0 <= j < 9 ==> us@[j] <= u32::MAX,
            forall|j: int| 0 <= j < i ==> controller@[j] == us@[j] as u32,
        decreases 9 - i,
    {
        controller[i] = us[i] as u32;
        i = i + 1;
    }
    let req = Request::StartLightProgram { debug, controller };
    proof {
        assert(debug@ =~= bs@);
        assert(controller@ =~= us@.map_values(|x: u64| x as u32));
    }
    Some((req, p5))
}

/// The request without fields that has variant index `idx` (at most 10, not
/// 9).
fn unit_request(idx: u64) -> (r: Request)
    requires
        idx <= 10,
        idx != 9,
    ensures
        r@ == RequestModel::unit_of_index(idx),
{
    if idx == 0 {
        Request::GetVersionMajor
    } else if idx == 1 {
        Request::GetVersionMinor
    } else if idx == 2 {
        Request::GetVersionPatch
    } else if idx == 3 {
        Request::IsInInitMode
    } else if idx == 4 {
        Request::FinishInitMode
    } else if idx == 5 {
        Request::FactoryReset
    } else if idx == 6 {
        Request::GetFrameCount
    } else if idx == 7 {
        Request::GetFrame
    } else if idx == 8 {
        Request::GetLightState
    } else {
        Request::EndLightProgram
    }
}

/// Reads a request at `pos`; see [`spec_parse_request`].
pub fn read_request_at(b: &[u8], pos: usize) -> (r: Option<(Request, usize)>)
    ensures
        match r {
            Some((x, p)) => spec_parse_request(b@, pos as int) == Some((x@, p as int)),
            None => spec_parse_request(b@, pos as int) is None,
        },
{
    let (idx, p) = match read_variant_index(b, pos) {
        Some(x) => x,
        None => return None,
    };
    if idx == 9 {
        read_light_program(b, p)
    } else if idx <= 10 {
        match expect_head(b, p, MAJOR_ARRAY, 0) {
            Some(q) => Some((unit_request(idx), q)),
            None => None,
        }
    } else {
        None
    }
}

/// Decodes the request at the start of `b`; bytes after it are ignored.
pub fn read_request(b: &[u8]) -> (r: Option<Request>)
    ensures
        match r {
            Some(x) => spec_decode_request(b@) == Some(x@),
            None => spec_decode_request(b@) is None,
        },
{
    match read_request_at(b, 0) {
        Some((x, _)) => Some(x),
        None => None,
    }
}


/// The text held by `bytes`, if they are valid UTF-8.
///
/// Calls `String::from_utf8`, which its documentation says accepts exactly the
/// valid UTF-8 byte sequences and keeps their characters.
#[verifier::external_body]
fn string_from_utf8(bytes: Vec<u8>) -> (r: Option<String>)
    ensures
        r is Some <==> valid_utf8(bytes@),
        r matches Some(s) ==> s@ == decode_utf8(bytes@),
{
    String::from_utf8(bytes).ok()
}

/// Reads the fields of `LightState`.
fn read_light_state(b: &[u8], pos: usize) -> (r: Option<(Response, usize)>)
    ensures
        match r {
            Some((x, p)) => spec_parse_light_state(b@, pos as int) == Some((x@, p as int)),
            None => spec_parse_light_state(b@, pos as int) is None,
        },
{
    let p1 = match expect_head(b, pos, MAJOR_ARRAY, 3) {
        Some(p) => p,
        None => return None,
    };
    let p2 = match expect_head(b, p1, MAJOR_ARRAY, 3) {
        Some(p) => p,
        None => return None,
    };
    let (ds, p3) = match read_uints(b, p2, 3, 0xFFFF) {
        Some(x) => x,
        None => return None,
    };
    let (dm, p4) = match read_uints(b, p3, 1, 0xFFFF) {
        Some(x) => x,
        None => return None,
    };
    let p5 = match expect_head(b, p4, MAJOR_ARRAY, 9) {
        Some(p) => p,
        None => return None,
    };
    let (us, p6) = match read_uints(b, p5, 9, 0xFFFF_FFFF) {
        Some(x) => x,
        None => return None,
    };
    proof {
        lemma_parse_uints_props(b@, p2 as int, 3, 0xFFFF);
        lemma_parse_uints_props(b@, p3 as int, 1, 0xFFFF);
        lemma_parse_uints_props(b@, p5 as int, 9, 0xFFFF_FFFF);
    }
    let debug_leds: [u16; 3] = [ds[0] as u16, ds[1] as u16, ds[2] as u16];
    let mut controller: [u32; 9] = [0u32; 9];
    let mut i: usize = 0;
    while i < 9
        invariant
            0 <= i <= 9,
            us@.len() == 9,
            forall|j: int| 0 <= j < 9 ==> us@[j] <= u32::MAX,
            forall|j: int| 0 <= j < i ==> controller@[j] == us@[j] as u32,
        decreases 9 - i,
    {
        controller[i] = us[i] as u32;
        i = i + 1;
    }
    let res = Response::LightState { debug_leds, debug_leds_max_duty: dm[0] as u16, controller };
    proof {
        assert(debug_leds@ =~= ds@.map_values(|x: u64| x as u16));
        assert(controller@ =~= us@.map_values(|x: u64| x as u32));
    }
    Some((res, p6))
}

/// Reads a one-element fields array holding an unsigned integer.
fn read_uint_field(b: &[u8], pos: usize) -> (r: Option<(u64, usize)>)
    ensures
        match r {
            Some((v, p)) => spec_parse_uint_field(b@, pos as int) == Some((v, p as int)),
            None => spec_parse_uint_field(b@, pos as int) is None,
        },
{
    let p = match expect_head(b, pos, MAJOR_ARRAY, 1) {
        Some(p) => p,
        None => return None,
    };
    match read_head(b, p) {
        Some((m, v, q)) => if m == MAJOR_UINT {
            Some((v, q))
        } else {
            None
        },
        None => None,
    }
}

/// Reads a one-element fields array holding a text string.
fn read_text_field(b: &[u8], pos: usize) -> (r: Option<(Response, usize)>)
    ensures
        match r {
            Some((x, p)) => spec_parse_text_field(b@, pos as int) == Some((x@, p as int)),
            None => spec_parse_text_field(b@, pos as int) is None,
        },
{
    let p1 = match expect_head(b, pos, MAJOR_ARRAY, 1) {
        Some(p) => p,
        None => return None,
    };
    let (m, len, p2) = match read_head(b, p1) {
        Some(x) => x,
        None => return None,
    };
    if m != MAJOR_TEXT || len > (b.len() - p2) as u64 {
        return None;
    }
    let end: usize = p2 + len as usize;
    let mut bytes: Vec<u8> = Vec::new();
    let mut i: usize = p2;
    while i < end
        invariant
            p2 <= i <= end <= b@.len(),
            bytes@ =~= b@.subrange(p2 as int, i as int),
        decreases end - i,
    {
        bytes.push(b[i]);
        i = i + 1;
    }
    match string_from_utf8(bytes) {
        Some(s) => Some((Response::String(s), end)),
        None => None,
    }
}

/// Reads an error at `pos`.
fn read_error(b: &[u8], pos: usize) -> (r: Option<(Error, usize)>)
    ensures
        match r {
            Some((e, p)) => spec_parse_error(b@, pos as int) == Some((e, p as int)),
            None => spec_parse_error(b@, pos as int) is None,
        },
{
    let (idx, p) = match read_variant_index(b, pos) {
        Some(x) => x,
        None => return None,
    };
    if idx > 2 {
        return None;
    }
    match expect_head(b, p, MAJOR_ARRAY, 0) {
        Some(q) => {
            let e = if idx == 0 {
                Error::TooLong
            } else if idx == 1 {
                Error::MalformedRequest
            } else {
                Error::InitOnly
            };
            Some((e, q))
        },
        None => None,
    }
}

/// Reads a response at `pos`; see [`spec_parse_response`].
pub fn read_response_at(b: &[u8], pos: usize) -> (r: Option<(Response, usize)>)
    ensures
        match r {
            Some((x, p)) => spec_parse_response(b@, pos as int) == Some((x@, p as int)),
            None => spec_parse_response(b@, pos as int) is None,
        },
{
    let (idx, p) = match read_variant_index(b, pos) {
        Some(x) => x,
        None => return None,
    };
    if idx == 0 {
        match expect_head(b, p, MAJOR_ARRAY, 0) {
            Some(q) => Some((Response::Okay, q)),
            None => None,
        }
    } else if idx == 1 {
        match read_uint_field(b, p) {
            Some((v, q)) => Some((Response::Uint(v), q)),
            None => None,
        }
    } else if idx == 2 {
        let p1 = match expect_head(b, p, MAJOR_ARRAY, 1) {
            Some(p1) => p1,
            None => return None,
        };
        match read_error(b, p1) {
            Some((e, q)) => Some((Response::Error(e), q)),
            None => None,
        }
    } else if idx == 3 {
        match read_uint_field(b, p) {
            Some((v, q)) => Some((Response::BulkTransfer(v), q)),
            None => None,
        }
    } else if idx == 4 {
        read_light_state(b, p)
    } else if idx == 5 {
        read_text_field(b, p)
    } else {
        None
    }
}

/// Decodes the response at the start of `b`; bytes after it are ignored.
pub fn read_response(b: &[u8]) -> (r: Option<Response>)
    ensures
        match r {
            Some(x) => spec_decode_response(b@) == Some(x@),
            None => spec_decode_response(b@) is None,
        },
{
    match read_response_at(b, 0) {
        Some((x, _)) => Some(x),
        None => None,
    }
}

/// Whether a response's text, if it has one, takes at most `capacity` bytes.
pub open spec fn spec_text_fits(m: ResponseModel, capacity: nat) -> bool {
    match m {
        ResponseModel::String(s) => encode_utf8(s).len() <= capacity,
        _ => true,
    }
}

/// Decodes a response for a reader whose text holds at most `capacity` bytes
/// (the board's holds 64): a longer text is refused like malformed bytes.
pub fn read_response_bounded(b: &[u8], capacity: usize) -> (r: Option<Response>)
    ensures
        match r {
            Some(x) => spec_decode_response(b@) == Some(x@) && spec_text_fits(x@, capacity as nat),
            None => match spec_decode_response(b@) {
                Some(m) => !spec_text_fits(m, capacity as nat),
                None => true,
            },
        },
{
    match read_response(b) {
        Some(Response::String(s)) => {
            if s.as_str().as_bytes().len() <= capacity {
                Some(Response::String(s))
            } else {
                None
            }
        },
        other => other,
    }
}

/// Appends the variant prefix of [`spec_variant_prefix`].
fn write_variant_prefix(out: &mut Vec<u8>, idx: u64, n_fields: u64)
    ensures
        final(out)@ == old(out)@ + spec_variant_prefix(idx, n_fields),
{
    write_head(out, MAJOR_ARRAY, 2);
    write_head(out, MAJOR_UINT, idx);
    write_head(out, MAJOR_ARRAY, n_fields);
    assert(final(out)@ =~= old(out)@ + spec_variant_prefix(idx, n_fields));
}

/// Appends booleans, one byte each.
fn write_bools<const N: usize>(out: &mut Vec<u8>, a: &[bool; N])
    ensures
        final(out)@ == old(out)@ + spec_bools(a@),
{
    let ghost start = out@;
    let mut i: usize = 0;
    while i < N
        invariant
            i <= N,
            a@.len() == N,
            out@ == start + spec_bools(a@.take(i as int)),
        decreases N - i,
    {
        let byte: u8 = if a[i] {
            CBOR_TRUE
        } else {
            CBOR_FALSE
        };
        out.push(byte);
        proof {
            let t = a@.take(i + 1);
            assert(t.drop_last() =~= a@.take(i as int));
            assert(t.last() == a@[i as int]);
            assert(out@ =~= start + spec_bools(t));
        }
        i = i + 1;
    }
    assert(a@.take(N as int) =~= a@);
}

/// Appends 32-bit unsigned integers, each in its shortest form.
fn write_u32s<const N: usize>(out: &mut Vec<u8>, a: &[u32; N])
    ensures
        final(out)@ == old(out)@ + spec_uints(widen32(a@)),
{
    let ghost start = out@;
    let mut i: usize = 0;
    while i < N
        invariant
            i <= N,
            a@.len() == N,
            out@ == start + spec_uints(widen32(a@.take(i as int))),
        decreases N - i,
    {
        write_head(out, MAJOR_UINT, a[i] as u64);
        proof {
            let t = widen32(a@.take(i + 1));
            assert(t.drop_last() =~= widen32(a@.take(i as int)));
            assert(t.last() == a@[i as int] as u64);
            assert(out@ =~= start + spec_uints(t));
        }
        i = i + 1;
    }
    assert(a@.take(N as int) =~= a@);
}

/// Appends 16-bit unsigned integers, each in its shortest form.
fn write_u16s<const N: usize>(out: &mut Vec<u8>, a: &[u16; N])
    ensures
        final(out)@ == old(out)@ + spec_uints(widen16(a@)),
{
    let ghost start = out@;
    let mut i: usize = 0;
    while i < N
        invariant
            i <= N,
            a@.len() == N,
            out@ == start + spec_uints(widen16(a@.take(i as int))),
        decreases N - i,
    {
        write_head(out, MAJOR_UINT, a[i] as u64);
        proof {
            let t = widen16(a@.take(i + 1));
            assert(t.drop_last() =~= widen16(a@.take(i as int)));
            assert(t.last() == a@[i as int] as u64);
            assert(out@ =~= start + spec_uints(t));
        }
        i = i + 1;
    }
    assert(a@.take(N as int) =~= a@);
}

impl Request {
    /// The variant index of the request.
    pub fn index(&self) -> (r: u64)
        ensures
            r == self@.index(),
    {
        match self {
            Request::GetVersionMajor => 0,
            Request::GetVersionMinor => 1,
            Request::GetVersionPatch => 2,
            Request::IsInInitMode => 3,
            Request::FinishInitMode => 4,
            Request::FactoryReset => 5,
            Request::GetFrameCount => 6,
            Request::GetFrame => 7,
            Request::GetLightState => 8,
            Request::StartLightProgram { .. } => 9,
            Request::EndLightProgram => 10,
        }
    }
}

/// Appends the encoding of a request.
pub fn write_request(req: &Request, out: &mut Vec<u8>)
    ensures
        final(out)@ == old(out)@ + spec_encode_request(req@),
{
    match req {
        Request::StartLightProgram { debug, controller } => {
            write_variant_prefix(out, 9, 2);
            write_head(out, MAJOR_ARRAY, 3);
            write_bools(out, debug);
            write_head(out, MAJOR_ARRAY, 9);
            write_u32s(out, controller);
        },
        _ => {
            write_variant_prefix(out, req.index(), 0);
        },
    }
    assert(final(out)@ =~= old(out)@ + spec_encode_request(req@));
}

/// Appends the encoding of an error.
fn write_error(e: Error, out: &mut Vec<u8>)
    ensures
        final(out)@ == old(out)@ + spec_encode_error(e),
{
    let idx: u64 = match e {
        Error::TooLong => 0,
        Error::MalformedRequest => 1,
        Error::InitOnly => 2,
    };
    write_variant_prefix(out, idx, 0);
}

/// Appends the encoding of a response.
pub fn write_response(res: &Response, out: &mut Vec<u8>)
    requires
        res@.wf(),
    ensures
        final(out)@ == old(out)@ + spec_encode_response(res@),
{
    match res {
        Response::Okay => {
            write_variant_prefix(out, 0, 0);
        },
        Response::Uint(v) => {
            write_variant_prefix(out, 1, 1);
            write_head(out, MAJOR_UINT, *v);
        },
        Response::Error(e) => {
            write_variant_prefix(out, 2, 1);
            write_error(*e, out);
        },
        Response::BulkTransfer(v) => {
            write_variant_prefix(out, 3, 1);
            write_head(out, MAJOR_UINT, *v);
        },
        Response::LightState { debug_leds, debug_leds_max_duty, controller } => {
            write_variant_prefix(out, 4, 3);
            write_head(out, MAJOR_ARRAY, 3);
            write_u16s(out, debug_leds);
            write_head(out, MAJOR_UINT, *debug_leds_max_duty as u64);
            write_head(out, MAJOR_ARRAY, 9);
            write_u32s(out, controller);
        },
        Response::String(s) => {
            write_variant_prefix(out, 5, 1);
            let bytes = s.as_str().as_bytes();
            write_head(out, MAJOR_TEXT, bytes.len() as u64);
            let ghost mid = out@;
            let mut i: usize = 0;
            while i < bytes.len()
                invariant
                    i <= bytes@.len(),
                    out@ == mid + bytes@.take(i as int),
                decreases bytes@.len() - i,
            {
                out.push(bytes[i]);
                proof {
                    assert(bytes@.take(i + 1) =~= bytes@.take(i as int).push(bytes@[i as int]));
                }
                i = i + 1;
            }
            assert(bytes@.take(bytes@.len() as int) =~= bytes@);
        },
    }
    assert(final(out)@ =~= old(out)@ + spec_encode_response(res@));
}

} // verus!
