//! Framing of protocol messages on a byte stream: each message is CBOR
//! encoded, then COBS encoded between two zero sentinels. The decoder finds
//! frames in the incoming bytes, however they are split up.

use vstd::prelude::*;
use crate::protocol::{
    Request, Response, read_request, read_response, spec_decode_request, spec_decode_response,
    spec_encode_request, spec_encode_response, write_request, write_response,
};
use cobs::{DecodeResult as CobsResult, DecoderState as CobsDecoderState};

verus! {

/// Room for one encoded message: eight times the in-memory size of the
/// largest message, since the CBOR size has no static bound.
pub const PACKET_SIZE: usize = 384;

/// The size of an encoding buffer: twice the longest COBS encoding of a
/// packet. The first half holds the CBOR bytes, the second the COBS frame.
pub const BUFFER_SIZE: usize = (384 + 2) * 2;

/// Where the COBS frame starts in an encoding buffer.
pub const FRAME_POS: usize = 386;

/// The most bytes COBS adds to a message of `n` bytes: one per started block
/// of 254 bytes, and one for an empty message.
pub open spec fn spec_max_encoding_overhead(n: nat) -> nat {
    if n == 0 {
        1
    } else {
        ((n + 253) / 254) as nat
    }
}

/// The longest COBS encoding of a message of `n` bytes.
pub open spec fn spec_max_encoding_length(n: nat) -> nat {
    n + spec_max_encoding_overhead(n)
}

/// The longest COBS encoding of a message of `n` bytes.
pub fn max_encoding_length(n: usize) -> (r: usize)
    requires
        spec_max_encoding_length(n as nat) <= usize::MAX,
    ensures
        r == spec_max_encoding_length(n as nat),
{
    if n == 0 {
        1
    } else {
        n + (n / 254 + if n % 254 == 0 {
            0
        } else {
            1
        })
    }
}

/// The buffer constants agree with the COBS bound: the buffer holds two of the
/// longest encodings of a packet, and the frame starts halfway.
pub proof fn lemma_buffer_sizes()
    ensures
        BUFFER_SIZE == 2 * spec_max_encoding_length(PACKET_SIZE as nat),
        FRAME_POS == BUFFER_SIZE / 2,
{
}

/// The packet size; see [`PACKET_SIZE`].
pub fn packet_size() -> (r: usize)
    ensures
        r == PACKET_SIZE,
{
    PACKET_SIZE
}

/// The buffer size; see [`BUFFER_SIZE`].
pub fn buffer_size() -> (r: usize)
    ensures
        r == BUFFER_SIZE,
{
    BUFFER_SIZE
}

/// An error of the stream codec.
#[derive(Clone, Copy, Debug, PartialEq, Eq, Structural)]
pub enum StreamError {
    Empty,
    Invalid,
    Incomplete,
    Completed,
    TooMuchData,
}

/// The state of the COBS decoding machine (`cobs::DecoderState`).
#[derive(Clone, Copy, Debug, PartialEq, Eq, Structural)]
pub enum CobsState {
    /// No non-zero byte received yet.
    Idle,
    /// Inside a block that ends in an encoded zero.
    Grab(u8),
    /// Inside a 254-byte block without an encoded zero.
    GrabChain(u8),
}

/// What one encoded byte fed to the COBS machine yields.
#[derive(Clone, Copy, Debug, PartialEq, Eq, Structural)]
pub enum CobsStep {
    NoData,
    DataStart,
    DataComplete,
    DataContinue(u8),
    Invalid,
}

/// The step of `cobs::DecoderState::feed`: the outcome of feeding `byte` in
/// `state`, and the state after it.
pub uninterp spec fn cobs_decoder_step(state: CobsState, byte: u8) -> (CobsStep, CobsState);

/// The bytes that `cobs::try_encode_including_sentinels` writes for
/// `source`: a zero, the COBS encoding, and a zero.
pub uninterp spec fn cobs_frame(source: Seq<u8>) -> Seq<u8>;

/// Runs the COBS machine over `bytes` from `state`: the decoded message if the
/// machine starts data exactly once (when `acc` is `None`; otherwise `acc`
/// holds the bytes decoded since the start), never fails, and completes the
/// frame exactly at the last byte.
pub open spec fn spec_cobs_collect(state: CobsState, bytes: Seq<u8>, acc: Option<Seq<u8>>) -> Option<
    Seq<u8>,
>
    decreases bytes.len(),
{
    if bytes.len() == 0 {
        None
    } else {
        let (step, next) = cobs_decoder_step(state, bytes[0]);
        let rest = bytes.drop_first();
        match step {
            CobsStep::Invalid => None,
            CobsStep::NoData => spec_cobs_collect(next, rest, acc),
            CobsStep::DataStart => match acc {
                None => spec_cobs_collect(next, rest, Some(seq![])),
                Some(_) => None,
            },
            CobsStep::DataContinue(n) => match acc {
                Some(a) => spec_cobs_collect(next, rest, Some(a.push(n))),
                None => None,
            },
            CobsStep::DataComplete => match acc {
                Some(a) => if rest.len() == 0 {
                    Some(a)
                } else {
                    None
                },
                None => None,
            },
        }
    }
}

/// Feeds one encoded byte to the COBS decoding machine.
///
/// Calls `cobs::DecoderState::feed`; the outcome and the next state are named
/// by [`cobs_decoder_step`]. An error of the machine is reported as
/// `CobsStep::Invalid`.
#[verifier::external_body]
fn cobs_feed(state: CobsState, byte: u8) -> (r: (CobsStep, CobsState))
    ensures
        r == cobs_decoder_step(state, byte),
{
    let mut s = match state {
        CobsState::Idle => CobsDecoderState::Idle,
        CobsState::Grab(n) => CobsDecoderState::Grab(n),
        CobsState::GrabChain(n) => CobsDecoderState::GrabChain(n),
    };
    let step = match s.feed(byte) {
        Ok(CobsResult::NoData) => CobsStep::NoData,
        Ok(CobsResult::DataStart) => CobsStep::DataStart,
        Ok(CobsResult::DataComplete) => CobsStep::DataComplete,
        Ok(CobsResult::DataContinue(n)) => CobsStep::DataContinue(n),
        Err(_) => CobsStep::Invalid,
    };
    let next = match s { CobsDecoderState::Idle => CobsState::Idle, CobsDecoderState::Grab(n) => CobsState::Grab(n), CobsDecoderState::GrabChain(n) => CobsState::GrabChain(n) };
    (step, next)
}

/// COBS-encodes `source` between two zero sentinels.
///
/// Calls `cobs::try_encode_including_sentinels` with a buffer of
/// `cobs::max_encoding_length(len) + 2` bytes, the size its documentation
/// gives as always enough. Claims: the result is the frame named by
/// [`cobs_frame`], it is at least the two sentinels long and at most that
/// buffer size, and the crate's decoding machine, started idle, reads it back
/// as `source`, completing at its last byte.
#[verifier::external_body]
fn cobs_encode_frame(source: &[u8]) -> (r: Vec<u8>)
    requires
        spec_max_encoding_length(source@.len()) + 2 <= usize::MAX,
    ensures
        r@ == cobs_frame(source@),
        2 <= r@.len() <= spec_max_encoding_length(source@.len()) + 2,
        spec_cobs_collect(CobsState::Idle, r@, None) == Some(source@),
{
    let mut buf = vec![0u8; cobs::max_encoding_length(source.len()) + 2];
    let n = cobs::try_encode_including_sentinels(source, &mut buf).unwrap_or(0);
    buf.truncate(n);
    buf
}


/// What a completed frame reports: the decoded size, and how many bytes of
/// the fed buffer were left over after the frame's end.
#[derive(Clone, Copy, Debug, PartialEq, Eq, Structural)]
pub struct DecodeResult {
    pub decoded_size: usize,
    pub leftover: usize,
}

/// Outcome of one encoded byte for a decoder whose decoded bytes so far are
/// `written`, out of room for `cap`: an error, `None` while the frame goes
/// on, or the decoded size of a completed frame; then the next machine state
/// and decoded bytes.
pub open spec fn spec_byte_outcome(state: CobsState, written: Seq<u8>, cap: nat, byte: u8) -> (
    Result<Option<nat>, StreamError>,
    CobsState,
    Seq<u8>,
) {
    let (step, next) = cobs_decoder_step(state, byte);
    match step {
        CobsStep::Invalid => (Err(StreamError::Invalid), next, written),
        CobsStep::NoData => (Ok(None), next, written),
        CobsStep::DataStart => (Ok(None), next, seq![]),
        CobsStep::DataContinue(n) => if written.len() < cap {
            (Ok(None), next, written.push(n))
        } else {
            (Err(StreamError::TooMuchData), next, written)
        },
        CobsStep::DataComplete => (Ok(Some(written.len())), next, written),
    }
}

/// Outcome of feeding `bytes[i..]`: an error, `None` when no frame completes,
/// or the decoded size of the first completed frame and the number of bytes
/// consumed up to its end; then the machine state and decoded bytes.
pub open spec fn spec_push_from(
    state: CobsState,
    written: Seq<u8>,
    cap: nat,
    bytes: Seq<u8>,
    i: nat,
) -> (Result<Option<(nat, nat)>, StreamError>, CobsState, Seq<u8>)
    decreases bytes.len() - i,
{
    if i >= bytes.len() {
        (Ok(None), state, written)
    } else {
        let (res, next, w) = spec_byte_outcome(state, written, cap, bytes[i as int]);
        match res {
            Err(e) => (Err(e), next, w),
            Ok(Some(size)) => (Ok(Some((size, (i + 1) as nat))), next, w),
            Ok(None) => spec_push_from(next, w, cap, bytes, (i + 1) as nat),
        }
    }
}

/// A stream decoder: feeds encoded bytes to the COBS machine and keeps the
/// decoded bytes of the current frame in its buffer.
pub struct Decoder {
    state: CobsState,
    dest: Vec<u8>,
    dest_idx: usize,
    decoded_size: Option<usize>,
}

impl Decoder {
    /// The machine state.
    pub closed spec fn state(&self) -> CobsState {
        self.state
    }

    /// The bytes decoded so far in the current (or just completed) frame.
    pub closed spec fn written(&self) -> Seq<u8> {
        self.dest@.take(self.dest_idx as int)
    }

    /// The most decoded bytes a frame can have.
    pub closed spec fn capacity(&self) -> nat {
        self.dest@.len()
    }

    /// The decoded size of the frame completed by the last feed, if it
    /// completed one.
    pub closed spec fn decoded(&self) -> Option<nat> {
        match self.decoded_size {
            Some(n) => Some(n as nat),
            None => None,
        }
    }

    /// The decoder's internal consistency, which every method keeps.
    pub closed spec fn wf(&self) -> bool {
        &&& self.dest_idx <= self.dest@.len()
        &&& self.decoded_size matches Some(n) ==> n == self.dest_idx
    }

    /// A decoder that decodes into `dest`; frames of more than `dest.len()`
    /// decoded bytes are refused.
    pub fn new(dest: Vec<u8>) -> (r: Self)
        ensures
            r.wf(),
            r.state() == CobsState::Idle,
            r.written() == Seq::<u8>::empty(),
            r.capacity() == dest@.len(),
            r.decoded() is None,
    {
        Decoder { state: CobsState::Idle, dest, dest_idx: 0, decoded_size: None }
    }

    /// A decoder with a buffer of [`BUFFER_SIZE`] bytes.
    pub fn new_with_global_buffer() -> (r: Self)
        ensures
            r.wf(),
            r.state() == CobsState::Idle,
            r.written() == Seq::<u8>::empty(),
            r.capacity() == BUFFER_SIZE,
            r.decoded() is None,
    {
        let mut dest: Vec<u8> = Vec::new();
        let mut i: usize = 0;
        while i < BUFFER_SIZE
            invariant
                i <= BUFFER_SIZE,
                dest@.len() == i,
            decreases BUFFER_SIZE - i,
        {
            dest.push(0);
            i = i + 1;
        }
        Self::new(dest)
    }

    /// Feeds one encoded byte.
    fn feed_byte(&mut self, byte: u8) -> (r: Result<Option<usize>, StreamError>)
        requires
            old(self).wf(),
            old(self).decoded() is None,
        ensures
            final(self).wf(),
            ({
                let (res, next, w) = spec_byte_outcome(
                    old(self).state(),
                    old(self).written(),
                    old(self).capacity(),
                    byte,
                );
                &&& final(self).state() == next
                &&& final(self).written() == w
                &&& final(self).capacity() == old(self).capacity()
                &&& final(self).decoded() == old(self).decoded()
                &&& match r {
                    Ok(Some(n)) => res == Ok::<Option<nat>, StreamError>(Some(n as nat)),
                    Ok(None) => res == Ok::<Option<nat>, StreamError>(None),
                    Err(e) => res == Err::<Option<nat>, StreamError>(e),
                }
            }),
    {
        let (step, next) = cobs_feed(self.state, byte);
        self.state = next;
        match step {
            CobsStep::Invalid => Err(StreamError::Invalid),
            CobsStep::NoData => Ok(None),
            CobsStep::DataStart => {
                self.dest_idx = 0;
                assert(self.dest@.take(0) =~= Seq::<u8>::empty());
                Ok(None)
            },
            CobsStep::DataContinue(n) => {
                if self.dest_idx < self.dest.len() {
                    let ghost before = self.dest@.take(self.dest_idx as int);
                    let idx = self.dest_idx;
                    self.dest.set(idx, n);
                    self.dest_idx = idx + 1;
                    assert(self.dest@.take(self.dest_idx as int) =~= before.push(n));
                    Ok(None)
                } else {
                    Err(StreamError::TooMuchData)
                }
            },
            CobsStep::DataComplete => Ok(Some(self.dest_idx)),
        }
    }

    /// Feeds `buffer`, up to the end of the first frame that completes in it.
    ///
    /// Returns `None` while no frame has completed. When one completes, its
    /// decoded size and the number of bytes of `buffer` after its end are
    /// returned, and the frame can be decoded with
    /// [`Decoder::decode_request`] or [`Decoder::decode_response`]; the
    /// leftover bytes are not consumed. An invalid frame or one too large for
    /// the buffer is an error; the machine then goes on from the state the
    /// error left.
    pub fn feed(&mut self, buffer: &[u8]) -> (r: Result<Option<DecodeResult>, StreamError>)
        requires
            old(self).wf(),
        ensures
            final(self).wf(),
            ({
                let (res, next, w) = spec_push_from(
                    old(self).state(),
                    old(self).written(),
                    old(self).capacity(),
                    buffer@,
                    0,
                );
                &&& final(self).state() == next
                &&& final(self).written() == w
                &&& final(self).capacity() == old(self).capacity()
                &&& match r {
                    Ok(Some(d)) => res == Ok::<Option<(nat, nat)>, StreamError>(
                        Some((d.decoded_size as nat, (buffer@.len() - d.leftover) as nat)),
                    ) && d.leftover <= buffer@.len() && final(self).decoded() == Some(
                        d.decoded_size as nat,
                    ),
                    Ok(None) => res == Ok::<Option<(nat, nat)>, StreamError>(None) && final(self).decoded() is None,
                    Err(e) => res == Err::<Option<(nat, nat)>, StreamError>(e) && final(self).decoded() is None,
                }
            }),
    {
        self.decoded_size = None;
        let ghost s0 = self.state();
        let ghost w0 = self.written();
        let ghost cap = self.capacity();
        let mut i: usize = 0;
        while i < buffer.len()
            invariant
                self.wf(),
                s0 == old(self).state(),
                w0 == old(self).written(),
                cap == old(self).capacity(),
                i <= buffer@.len(),
                self.capacity() == cap,
                self.decoded() is None,
                spec_push_from(s0, w0, cap, buffer@, 0) == spec_push_from(
                    self.state(),
                    self.written(),
                    cap,
                    buffer@,
                    i as nat,
                ),
            decreases buffer@.len() - i,
        {
            let ghost ps = self.state();
            let ghost pw = self.written();
            let byte = buffer[i];
            let step = self.feed_byte(byte);
            proof {
                let (res, next, w) = spec_byte_outcome(ps, pw, cap, byte);
                assert(buffer@[i as int] == byte);
                assert(spec_push_from(ps, pw, cap, buffer@, i as nat) == match res {
                    Err(e) => (Err(e), next, w),
                    Ok(Some(size)) => (Ok(Some((size, (i + 1) as nat))), next, w),
                    Ok(None) => spec_push_from(next, w, cap, buffer@, (i + 1) as nat),
                });
            }
            match step {
                Err(e) => {
                    assert(spec_push_from(s0, w0, cap, buffer@, 0) == (
                        Err::<Option<(nat, nat)>, StreamError>(e),
                        self.state(),
                        self.written(),
                    ));
                    return Err(e);
                },
                Ok(Some(size)) => {
                    self.decoded_size = Some(size);
                    let leftover = buffer.len() - (i + 1);
                    return Ok(Some(DecodeResult { decoded_size: size, leftover }));
                },
                Ok(None) => {
                },
            }
            i = i + 1;
        }
        Ok(None)
    }

    /// The bytes of the frame completed by the last feed.
    fn frame(&self) -> (r: Option<Vec<u8>>)
        requires
            self.wf(),
        ensures
            match r {
                Some(f) => self.decoded() is Some && f@ == self.written(),
                None => self.decoded() is None,
            },
    {
        match self.decoded_size {
            None => None,
            Some(n) => {
                let mut f: Vec<u8> = Vec::new();
                let mut i: usize = 0;
                while i < n
                    invariant
                        i <= n <= self.dest@.len(),
                        f@ =~= self.dest@.take(i as int),
                    decreases n - i,
                {
                    f.push(self.dest[i]);
                    i = i + 1;
                }
                Some(f)
            },
        }
    }

    /// Decodes the request in the frame completed by the last feed.
    pub fn decode_request(&self) -> (r: Result<Request, StreamError>)
        requires
            self.wf(),
        ensures
            self.decoded() is None ==> r == Err::<Request, StreamError>(StreamError::Incomplete),
            self.decoded() is Some ==> match r {
                Ok(x) => spec_decode_request(self.written()) == Some(x@),
                Err(e) => e == StreamError::Invalid && spec_decode_request(self.written()) is None,
            },
    {
        match self.frame() {
            None => Err(StreamError::Incomplete),
            Some(f) => match read_request(f.as_slice()) {
                Some(x) => Ok(x),
                None => Err(StreamError::Invalid),
            },
        }
    }

    /// Decodes the response in the frame completed by the last feed.
    pub fn decode_response(&self) -> (r: Result<Response, StreamError>)
        requires
            self.wf(),
        ensures
            self.decoded() is None ==> r == Err::<Response, StreamError>(StreamError::Incomplete),
            self.decoded() is Some ==> match r {
                Ok(x) => spec_decode_response(self.written()) == Some(x@),
                Err(e) => e == StreamError::Invalid && spec_decode_response(self.written()) is None,
            },
    {
        match self.frame() {
            None => Err(StreamError::Incomplete),
            Some(f) => match read_response(f.as_slice()) {
                Some(x) => Ok(x),
                None => Err(StreamError::Invalid),
            },
        }
    }
}


/// Where a frame was written in an encoding buffer.
#[derive(Clone, Copy, Debug, PartialEq, Eq, Structural)]
pub struct OffsetLength {
    pub offset: usize,
    pub len: usize,
}

impl OffsetLength {
    /// The frame's bytes in `buf`.
    pub fn get_for_slice<'a>(&self, buf: &'a [u8]) -> (r: &'a [u8])
        requires
            self.offset + self.len <= buf@.len(),
        ensures
            r@ == buf@.subrange(self.offset as int, self.offset + self.len),
    {
        let _n = buf.len();
        &buf[self.offset..(self.offset + self.len)]
    }
}

/// The result of framing the CBOR bytes `cbor` into a buffer of `dest_len`
/// bytes: the frame's place, or `TooMuchData` when the buffer is smaller than
/// [`BUFFER_SIZE`], the CBOR bytes reach [`FRAME_POS`], or the frame does not
/// fit after it.
pub open spec fn spec_frame_result(cbor: Seq<u8>, dest_len: nat) -> Result<
    OffsetLength,
    StreamError,
> {
    if dest_len < BUFFER_SIZE || cbor.len() >= FRAME_POS || cobs_frame(cbor).len() > dest_len
        - FRAME_POS {
        Err(StreamError::TooMuchData)
    } else {
        Ok(OffsetLength { offset: FRAME_POS, len: cobs_frame(cbor).len() as usize })
    }
}

/// The buffer after framing `cbor` into `dest`: when the buffer is large
/// enough, the CBOR bytes are written at its start whenever they fit in it,
/// and the frame at [`FRAME_POS`] when it is written; the other bytes stay.
pub open spec fn spec_framed_dest(dest: Seq<u8>, cbor: Seq<u8>) -> Seq<u8> {
    if dest.len() < BUFFER_SIZE || cbor.len() > dest.len() {
        dest
    } else {
        let with_cbor = cbor + dest.skip(cbor.len() as int);
        match spec_frame_result(cbor, dest.len()) {
            Ok(ol) => with_cbor.take(FRAME_POS as int) + cobs_frame(cbor) + with_cbor.skip(
                FRAME_POS + ol.len,
            ),
            Err(_) => with_cbor,
        }
    }
}

/// Copies `src` into `dest` at `at`.
fn copy_into(dest: &mut [u8], at: usize, src: &[u8])
    requires
        at + src@.len() <= old(dest)@.len(),
    ensures
        final(dest)@ == old(dest)@.take(at as int) + src@ + old(dest)@.skip(at + src@.len()),
{
    let n = dest.len();
    let mut i: usize = 0;
    while i < src.len()
        invariant
            n == dest@.len(),
            i <= src@.len(),
            at + src@.len() <= dest@.len(),
            dest@.len() == old(dest)@.len(),
            dest@ =~= old(dest)@.take(at as int) + src@.take(i as int) + old(dest)@.skip(at + i),
        decreases src@.len() - i,
    {
        dest[at + i] = src[i];
        i = i + 1;
    }
    assert(src@.take(src@.len() as int) =~= src@);
}

/// Whether the frame of `cbor` is at least the two sentinels and at most
/// the longest COBS encoding of `cbor` and the two sentinels long.
pub open spec fn spec_frame_bounded(cbor: Seq<u8>) -> bool {
    2 <= cobs_frame(cbor).len() <= spec_max_encoding_length(cbor.len()) + 2
}

/// Whether framing `cbor` into a buffer of `dest_len` bytes is sure to
/// succeed: the buffer is large enough, the CBOR bytes end before
/// [`FRAME_POS`], and even the longest frame of them fits after it.
pub open spec fn spec_frame_fits(cbor: Seq<u8>, dest_len: nat) -> bool {
    &&& dest_len >= BUFFER_SIZE
    &&& cbor.len() < FRAME_POS
    &&& spec_max_encoding_length(cbor.len()) + 2 <= dest_len - FRAME_POS
}

/// Frames the CBOR bytes `cbor` into `dest`; see [`spec_frame_result`] and
/// [`spec_framed_dest`].
fn frame_into(cbor: &Vec<u8>, dest: &mut [u8]) -> (r: Result<OffsetLength, StreamError>)
    ensures
        r == spec_frame_result(cbor@, old(dest)@.len()),
        old(dest)@.len() >= BUFFER_SIZE && cbor@.len() < FRAME_POS ==> spec_frame_bounded(cbor@),
        spec_frame_fits(cbor@, old(dest)@.len()) ==> r is Ok,
        final(dest)@ == spec_framed_dest(old(dest)@, cbor@),
        r matches Ok(ol) ==> spec_cobs_collect(
            CobsState::Idle,
            final(dest)@.subrange(ol.offset as int, ol.offset + ol.len),
            None,
        ) == Some(cbor@),
{
    if dest.len() < BUFFER_SIZE {
        return Err(StreamError::TooMuchData);
    }
    if cbor.len() > dest.len() {
        return Err(StreamError::TooMuchData);
    }
    copy_into(dest, 0, cbor.as_slice());
    let ghost with_cbor = dest@;
    assert(with_cbor =~= cbor@ + old(dest)@.skip(cbor@.len() as int));
    if cbor.len() >= FRAME_POS {
        return Err(StreamError::TooMuchData);
    }
    let frame = cobs_encode_frame(cbor.as_slice());
    if frame.len() > dest.len() - FRAME_POS {
        return Err(StreamError::TooMuchData);
    }
    copy_into(dest, FRAME_POS, frame.as_slice());
    let ol = OffsetLength { offset: FRAME_POS, len: frame.len() };
    assert(dest@.subrange(FRAME_POS as int, FRAME_POS + frame@.len()) =~= frame@);
    Ok(ol)
}

/// Encodes a request into an encoding buffer: its CBOR bytes at the start of
/// `dest`, and its COBS frame at [`FRAME_POS`]. Returns where the frame is.
/// The frame decodes, by the COBS machine started idle, back to the request's
/// CBOR bytes.
pub fn encode_request(request: &Request, dest: &mut [u8]) -> (r: Result<OffsetLength, StreamError>)
    ensures
        r == spec_frame_result(spec_encode_request(request@), old(dest)@.len()),
        old(dest)@.len() >= BUFFER_SIZE && spec_encode_request(request@).len() < FRAME_POS ==> spec_frame_bounded(
            spec_encode_request(request@),
        ),
        spec_frame_fits(spec_encode_request(request@), old(dest)@.len()) ==> r is Ok,
        r matches Ok(ol) ==> ol.offset == FRAME_POS && ol.offset + ol.len <= old(dest)@.len(),
        final(dest)@ == spec_framed_dest(old(dest)@, spec_encode_request(request@)),
        r matches Ok(ol) ==> spec_cobs_collect(
            CobsState::Idle,
            final(dest)@.subrange(ol.offset as int, ol.offset + ol.len),
            None,
        ) == Some(spec_encode_request(request@)),
{
    let mut cbor: Vec<u8> = Vec::new();
    write_request(request, &mut cbor);
    assert(cbor@ =~= spec_encode_request(request@));
    frame_into(&cbor, dest)
}

/// Encodes a response into an encoding buffer; see [`encode_request`].
pub fn encode_response(response: &Response, dest: &mut [u8]) -> (r: Result<
    OffsetLength,
    StreamError,
>)
    requires
        response@.wf(),
    ensures
        r == spec_frame_result(spec_encode_response(response@), old(dest)@.len()),
        old(dest)@.len() >= BUFFER_SIZE && spec_encode_response(response@).len() < FRAME_POS ==> spec_frame_bounded(
            spec_encode_response(response@),
        ),
        spec_frame_fits(spec_encode_response(response@), old(dest)@.len()) ==> r is Ok,
        r matches Ok(ol) ==> ol.offset == FRAME_POS && ol.offset + ol.len <= old(dest)@.len(),
        final(dest)@ == spec_framed_dest(old(dest)@, spec_encode_response(response@)),
        r matches Ok(ol) ==> spec_cobs_collect(
            CobsState::Idle,
            final(dest)@.subrange(ol.offset as int, ol.offset + ol.len),
            None,
        ) == Some(spec_encode_response(response@)),
{
    let mut cbor: Vec<u8> = Vec::new();
    write_response(response, &mut cbor);
    assert(cbor@ =~= spec_encode_response(response@));
    frame_into(&cbor, dest)
}


/// What the COBS machine collects only grows toward the decoded message.
pub proof fn lemma_collect_grows(state: CobsState, bytes: Seq<u8>, acc: Seq<u8>, msg: Seq<u8>)
    requires
        spec_cobs_collect(state, bytes, Some(acc)) == Some(msg),
    ensures
        acc.len() <= msg.len(),
    decreases bytes.len(),
{
    let (step, next) = cobs_decoder_step(state, bytes[0]);
    let rest = bytes.drop_first();
    match step {
        CobsStep::NoData => lemma_collect_grows(next, rest, acc, msg),
        CobsStep::DataContinue(n) => lemma_collect_grows(next, rest, acc.push(n), msg),
        _ => {},
    }
}

/// A decoder fed the rest of a frame that the COBS machine reads as `msg`
/// completes that frame at the frame's last byte with `msg` decoded, provided
/// `msg` fits and, once the frame's data has started, the decoder holds what
/// the machine has collected.
pub proof fn lemma_push_completes(
    state: CobsState,
    written: Seq<u8>,
    cap: nat,
    bytes: Seq<u8>,
    i: nat,
    acc: Option<Seq<u8>>,
    msg: Seq<u8>,
)
    requires
        i < bytes.len(),
        spec_cobs_collect(state, bytes.skip(i as int), acc) == Some(msg),
        acc matches Some(a) ==> written == a,
        msg.len() <= cap,
    ensures
        spec_push_from(state, written, cap, bytes, i).0 == Ok::<Option<(nat, nat)>, StreamError>(
            Some((msg.len(), bytes.len())),
        ),
        spec_push_from(state, written, cap, bytes, i).2 == msg,
    decreases bytes.len() - i,
{
    let tail = bytes.skip(i as int);
    assert(tail[0] == bytes[i as int]);
    assert(tail.drop_first() =~= bytes.skip(i + 1 as int));
    let (step, next) = cobs_decoder_step(state, bytes[i as int]);
    match step {
        CobsStep::NoData => {
            lemma_push_completes(next, written, cap, bytes, (i + 1) as nat, acc, msg);
        },
        CobsStep::DataStart => {
            lemma_push_completes(next, seq![], cap, bytes, (i + 1) as nat, Some(seq![]), msg);
        },
        CobsStep::DataContinue(n) => {
            let a = acc->0;
            lemma_collect_grows(next, bytes.skip(i + 1 as int), a.push(n), msg);
            lemma_push_completes(next, written.push(n), cap, bytes, (i + 1) as nat, Some(a.push(n)), msg);
        },
        CobsStep::DataComplete => {},
        CobsStep::Invalid => {},
    }
}

/// A frame written by [`encode_request`], fed whole to an idle decoder (in
/// whatever it decoded before) with room for the request's CBOR bytes,
/// completes at its last byte with nothing left over, and decodes to the
/// request.
pub proof fn lemma_request_stream_roundtrip(
    frame: Seq<u8>,
    request: crate::protocol::RequestModel,
    written: Seq<u8>,
    cap: nat,
)
    requires
        request.wf(),
        spec_cobs_collect(CobsState::Idle, frame, None) == Some(spec_encode_request(request)),
        spec_encode_request(request).len() <= cap,
    ensures
        ({
            let (res, _, w) = spec_push_from(CobsState::Idle, written, cap, frame, 0);
            &&& res == Ok::<Option<(nat, nat)>, StreamError>(
                Some((spec_encode_request(request).len(), frame.len())),
            )
            &&& w == spec_encode_request(request)
            &&& spec_decode_request(w) == Some(request)
        }),
{
    let enc = spec_encode_request(request);
    assert(frame.skip(0) =~= frame);
    lemma_push_completes(CobsState::Idle, written, cap, frame, 0, None, enc);
    assert(enc.subrange(0, enc.len() as int) =~= enc);
    crate::protocol::lemma_request_roundtrip(enc, 0, request);
}

/// A frame written by [`encode_response`], fed whole to an idle decoder (in
/// whatever it decoded before) with room for the response's CBOR bytes,
/// completes at its last byte with nothing left over, and decodes to the
/// response.
pub proof fn lemma_response_stream_roundtrip(
    frame: Seq<u8>,
    response: crate::protocol::ResponseModel,
    written: Seq<u8>,
    cap: nat,
)
    requires
        response.wf(),
        spec_cobs_collect(CobsState::Idle, frame, None) == Some(spec_encode_response(response)),
        spec_encode_response(response).len() <= cap,
    ensures
        ({
            let (res, _, w) = spec_push_from(CobsState::Idle, written, cap, frame, 0);
            &&& res == Ok::<Option<(nat, nat)>, StreamError>(
                Some((spec_encode_response(response).len(), frame.len())),
            )
            &&& w == spec_encode_response(response)
            &&& spec_decode_response(w) == Some(response)
        }),
{
    let enc = spec_encode_response(response);
    assert(frame.skip(0) =~= frame);
    lemma_push_completes(CobsState::Idle, written, cap, frame, 0, None, enc);
    assert(enc.subrange(0, enc.len() as int) =~= enc);
    crate::protocol::lemma_response_roundtrip(enc, 0, response);
}

/// Feeding `bytes` one byte per call of [`Decoder::feed`], from machine state
/// `state` with `written` decoded so far and room for `cap` bytes: the
/// outcome of each call (as [`spec_push_from`] gives it for a one-byte
/// buffer), then the machine state and decoded bytes after the last call.
pub open spec fn spec_feed_bytewise(state: CobsState, written: Seq<u8>, cap: nat, bytes: Seq<u8>) -> (
    Seq<Result<Option<(nat, nat)>, StreamError>>,
    CobsState,
    Seq<u8>,
)
    decreases bytes.len(),
{
    if bytes.len() == 0 {
        (Seq::empty(), state, written)
    } else {
        let (res, s1, w1) = spec_push_from(state, written, cap, seq![bytes[0]], 0);
        let (rest, s2, w2) = spec_feed_bytewise(s1, w1, cap, bytes.drop_first());
        (seq![res] + rest, s2, w2)
    }
}

proof fn lemma_push_one(state: CobsState, written: Seq<u8>, cap: nat, b: u8)
    ensures
        ({
            let (res, next, w) = spec_byte_outcome(state, written, cap, b);
            spec_push_from(state, written, cap, seq![b], 0) == match res {
                Ok(Some(size)) => (
                    Ok::<Option<(nat, nat)>, StreamError>(Some((size, 1nat))),
                    next,
                    w,
                ),
                Ok(None) => (Ok::<Option<(nat, nat)>, StreamError>(None), next, w),
                Err(e) => (Err::<Option<(nat, nat)>, StreamError>(e), next, w),
            }
        }),
{
    let one = seq![b];
    assert(one[0] == b);
    let (res, next, w) = spec_byte_outcome(state, written, cap, b);
    if res == Ok::<Option<nat>, StreamError>(None) {
        assert(spec_push_from(next, w, cap, one, 1) == (
            Ok::<Option<(nat, nat)>, StreamError>(None),
            next,
            w,
        ));
    }
}

proof fn lemma_bytewise_completes(
    state: CobsState,
    written: Seq<u8>,
    cap: nat,
    bytes: Seq<u8>,
    acc: Option<Seq<u8>>,
    msg: Seq<u8>,
)
    requires
        spec_cobs_collect(state, bytes, acc) == Some(msg),
        acc matches Some(a) ==> written == a,
        msg.len() <= cap,
    ensures
        ({
            let (results, _, w) = spec_feed_bytewise(state, written, cap, bytes);
            &&& bytes.len() >= 1
            &&& results.len() == bytes.len()
            &&& forall|j: int| 0 <= j < bytes.len() - 1 ==> results[j] == Ok::<
                Option<(nat, nat)>,
                StreamError,
            >(None)
            &&& results[bytes.len() - 1] == Ok::<Option<(nat, nat)>, StreamError>(
                Some((msg.len(), 1nat)),
            )
            &&& w == msg
        }),
    decreases bytes.len(),
{
    let b0 = seq![bytes[0]];
    assert(b0[0] == bytes[0]);
    let (step, next) = cobs_decoder_step(state, bytes[0]);
    let rest = bytes.drop_first();
    let (res, s1, w1) = spec_push_from(state, written, cap, b0, 0);
    lemma_push_one(state, written, cap, bytes[0]);
    match step {
        CobsStep::NoData => {
            lemma_bytewise_completes(next, written, cap, rest, acc, msg);
        },
        CobsStep::DataStart => {
            lemma_bytewise_completes(next, seq![], cap, rest, Some(seq![]), msg);
        },
        CobsStep::DataContinue(n) => {
            let a = acc->0;
            lemma_collect_grows(next, rest, a.push(n), msg);
            lemma_bytewise_completes(next, written.push(n), cap, rest, Some(a.push(n)), msg);
        },
        CobsStep::DataComplete => {
            assert(rest.len() == 0);
        },
        CobsStep::Invalid => {},
    }
    let (results, _, w) = spec_feed_bytewise(state, written, cap, bytes);
    if bytes.len() > 1 {
        let (rest_results, _, _) = spec_feed_bytewise(s1, w1, cap, rest);
        assert(results == seq![res] + rest_results);
        assert forall|j: int| 0 <= j < bytes.len() - 1 implies results[j] == Ok::<
            Option<(nat, nat)>,
            StreamError,
        >(None) by {
            if j > 0 {
                assert(results[j] == rest_results[j - 1]);
            }
        }
        assert(results[bytes.len() - 1] == rest_results[rest.len() - 1]);
    }
}

/// A frame written by [`encode_request`], fed to an idle decoder (in whatever
/// it decoded before) with room for the request's CBOR bytes one byte per
/// call: every call but the last completes nothing and meets no error; the
/// last completes the frame with the request's CBOR bytes decoded and nothing
/// left over; and those bytes decode to the request.
pub proof fn lemma_request_bytewise_roundtrip(
    frame: Seq<u8>,
    request: crate::protocol::RequestModel,
    written: Seq<u8>,
    cap: nat,
)
    requires
        request.wf(),
        spec_cobs_collect(CobsState::Idle, frame, None) == Some(spec_encode_request(request)),
        spec_encode_request(request).len() <= cap,
    ensures
        ({
            let (results, _, w) = spec_feed_bytewise(CobsState::Idle, written, cap, frame);
            &&& frame.len() >= 1
            &&& results.len() == frame.len()
            &&& forall|j: int| 0 <= j < frame.len() - 1 ==> results[j] == Ok::<
                Option<(nat, nat)>,
                StreamError,
            >(None)
            &&& results[frame.len() - 1] == Ok::<Option<(nat, nat)>, StreamError>(
                Some((spec_encode_request(request).len(), 1nat)),
            )
            &&& w == spec_encode_request(request)
            &&& spec_decode_request(w) == Some(request)
        }),
{
    let enc = spec_encode_request(request);
    lemma_bytewise_completes(CobsState::Idle, written, cap, frame, None, enc);
    assert(enc.subrange(0, enc.len() as int) =~= enc);
    crate::protocol::lemma_request_roundtrip(enc, 0, request);
}

/// A frame written by [`encode_response`], fed one byte per call; see
/// [`lemma_request_bytewise_roundtrip`].
pub proof fn lemma_response_bytewise_roundtrip(
    frame: Seq<u8>,
    response: crate::protocol::ResponseModel,
    written: Seq<u8>,
    cap: nat,
)
    requires
        response.wf(),
        spec_cobs_collect(CobsState::Idle, frame, None) == Some(spec_encode_response(response)),
        spec_encode_response(response).len() <= cap,
    ensures
        ({
            let (results, _, w) = spec_feed_bytewise(CobsState::Idle, written, cap, frame);
            &&& frame.len() >= 1
            &&& results.len() == frame.len()
            &&& forall|j: int| 0 <= j < frame.len() - 1 ==> results[j] == Ok::<
                Option<(nat, nat)>,
                StreamError,
            >(None)
            &&& results[frame.len() - 1] == Ok::<Option<(nat, nat)>, StreamError>(
                Some((spec_encode_response(response).len(), 1nat)),
            )
            &&& w == spec_encode_response(response)
            &&& spec_decode_response(w) == Some(response)
        }),
{
    let enc = spec_encode_response(response);
    lemma_bytewise_completes(CobsState::Idle, written, cap, frame, None, enc);
    assert(enc.subrange(0, enc.len() as int) =~= enc);
    crate::protocol::lemma_response_roundtrip(enc, 0, response);
}

/// The outcome of feeding the bytes after a prefix of length `k`, with the
/// consumed count taken over the whole buffer.
pub open spec fn spec_shift_consumed(
    r: Result<Option<(nat, nat)>, StreamError>,
    k: nat,
) -> Result<Option<(nat, nat)>, StreamError> {
    match r {
        Ok(Some((size, n))) => Ok(Some((size, n + k))),
        other => other,
    }
}

proof fn lemma_push_suffix(state: CobsState, written: Seq<u8>, cap: nat, a: Seq<u8>, b: Seq<u8>, j: nat)
    requires
        j <= b.len(),
    ensures
        ({
            let whole = spec_push_from(state, written, cap, a + b, a.len() + j);
            let part = spec_push_from(state, written, cap, b, j);
            &&& whole.0 == spec_shift_consumed(part.0, a.len())
            &&& whole.1 == part.1
            &&& whole.2 == part.2
        }),
    decreases b.len() - j,
{
    if j < b.len() {
        assert((a + b)[(a.len() + j) as int] == b[j as int]);
        let (res, next, w) = spec_byte_outcome(state, written, cap, b[j as int]);
        if res == Ok::<Option<nat>, StreamError>(None) {
            lemma_push_suffix(next, w, cap, a, b, j + 1);
        }
    }
}

proof fn lemma_push_prefix(state: CobsState, written: Seq<u8>, cap: nat, a: Seq<u8>, b: Seq<u8>, i: nat)
    requires
        i <= a.len(),
        spec_push_from(state, written, cap, a, i).0 == Ok::<Option<(nat, nat)>, StreamError>(None),
    ensures
        ({
            let (_, s1, w1) = spec_push_from(state, written, cap, a, i);
            let part = spec_push_from(s1, w1, cap, b, 0);
            let whole = spec_push_from(state, written, cap, a + b, i);
            &&& whole.0 == spec_shift_consumed(part.0, a.len())
            &&& whole.1 == part.1
            &&& whole.2 == part.2
        }),
    decreases a.len() - i,
{
    if i < a.len() {
        assert((a + b)[i as int] == a[i as int]);
        let (res, next, w) = spec_byte_outcome(state, written, cap, a[i as int]);
        lemma_push_prefix(next, w, cap, a, b, i + 1);
    } else {
        lemma_push_suffix(state, written, cap, a, b, 0);
    }
}

/// Feeding a buffer in two parts, the first of which completes no frame and
/// meets no error, has the same outcome as feeding it whole: the same machine
/// state and decoded bytes, and the same result, the consumed count taken
/// over the whole buffer.
pub proof fn lemma_feed_in_parts(state: CobsState, written: Seq<u8>, cap: nat, a: Seq<u8>, b: Seq<u8>)
    requires
        spec_push_from(state, written, cap, a, 0).0 == Ok::<Option<(nat, nat)>, StreamError>(None),
    ensures
        ({
            let (_, s1, w1) = spec_push_from(state, written, cap, a, 0);
            let part = spec_push_from(s1, w1, cap, b, 0);
            let whole = spec_push_from(state, written, cap, a + b, 0);
            &&& whole.0 == spec_shift_consumed(part.0, a.len())
            &&& whole.1 == part.1
            &&& whole.2 == part.2
        }),
{
    lemma_push_prefix(state, written, cap, a, b, 0);
}

} // verus!
