//! The messages as the web client exchanges them: a request is sent as its
//! encoding preceded by the encoding's length, and a response is read from
//! the start of the bytes received.

use vstd::prelude::*;
use crate::cbor::be4;
use crate::protocol::{
    read_response, spec_decode_response, spec_encode_request, write_request, Request, Response,
};

verus! {

/// The bytes could not be read as a response.
#[derive(Clone, Copy, Debug, PartialEq, Eq, Structural)]
pub struct DecodeError;

/// A request as the web client sends it: the length of its encoding as a
/// 32-bit big-endian number (modulo 2^32), then the encoding.
pub open spec fn spec_framed_request(enc: Seq<u8>) -> Seq<u8> {
    be4((enc.len() as u32) as u64) + enc
}

/// Encodes a request for sending; see [`spec_framed_request`].
pub fn encode_request(value: &Request) -> (r: Vec<u8>)
    ensures
        r@ == spec_framed_request(spec_encode_request(value@)),
{
    let mut enc: Vec<u8> = Vec::new();
    write_request(value, &mut enc);
    let size = enc.len() as u32;
    let w = size as u64;
    let mut r: Vec<u8> = Vec::new();
    r.push(((w >> 24u64) & 0xFF) as u8);
    r.push(((w >> 16u64) & 0xFF) as u8);
    r.push(((w >> 8u64) & 0xFF) as u8);
    r.push((w & 0xFF) as u8);
    let ghost header = r@;
    let mut i: usize = 0;
    while i < enc.len()
        invariant
            i <= enc@.len(),
            r@ == header + enc@.take(i as int),
        decreases enc@.len() - i,
    {
        r.push(enc[i]);
        assert(enc@.take(i + 1) =~= enc@.take(i as int).push(enc@[i as int]));
        i = i + 1;
    }
    assert(enc@.take(enc@.len() as int) =~= enc@);
    assert(r@ =~= spec_framed_request(spec_encode_request(value@)));
    r
}

/// Decodes the response at the start of `value`; bytes after it are ignored.
pub fn decode_response(value: &[u8]) -> (r: Result<Response, DecodeError>)
    ensures
        match r {
            Ok(x) => spec_decode_response(value@) == Some(x@),
            Err(_) => spec_decode_response(value@) is None,
        },
{
    match read_response(value) {
        Some(x) => Ok(x),
        None => Err(DecodeError),
    }
}

} // verus!
