//! The board's identity: the SHA-256 digest of its 96-bit unique device
//! identifier, and the locally administered MAC address of the external
//! Ethernet port, taken from that digest.

use vstd::prelude::*;
use crate::cbor::be4;

verus! {

/// The SHA-256 digest of `data`.
pub uninterp spec fn sha256(data: Seq<u8>) -> Seq<u8>;

/// The SHA-256 digest of `data`.
///
/// Calls `sha2::Sha256::digest`, whose result is the 32-byte digest of its
/// input; what the digest is is left to the name `sha256`.
#[verifier::external_body]
fn sha256_digest(data: &[u8]) -> (r: [u8; 32])
    ensures
        r@ == sha256(data@),
{
    <sha2::Sha256 as sha2::Digest>::digest(data).into()
}

/// The unique identifier's three words, each big-endian, in order.
pub open spec fn spec_uid_bytes(uid: (u32, u32, u32)) -> Seq<u8> {
    be4(uid.0 as u64) + be4(uid.1 as u64) + be4(uid.2 as u64)
}

fn push_be32(out: &mut Vec<u8>, v: u32)
    ensures
        final(out)@ == old(out)@ + be4(v as u64),
{
    let w = v as u64;
    out.push(((w >> 24u64) & 0xFF) as u8);
    out.push(((w >> 16u64) & 0xFF) as u8);
    out.push(((w >> 8u64) & 0xFF) as u8);
    out.push((w & 0xFF) as u8);
    assert(final(out)@ =~= old(out)@ + be4(v as u64));
}

/// The digest of the unique identifier `uid`, as read from the device's
/// identifier registers.
pub fn unique_id_sha256(uid: (u32, u32, u32)) -> (r: [u8; 32])
    ensures
        r@ == sha256(spec_uid_bytes(uid)),
{
    let mut bytes: Vec<u8> = Vec::new();
    push_be32(&mut bytes, uid.0);
    push_be32(&mut bytes, uid.1);
    push_be32(&mut bytes, uid.2);
    assert(bytes@ =~= spec_uid_bytes(uid));
    sha256_digest(bytes.as_slice())
}

/// The MAC address of the external Ethernet port: the bytes `.oO`, then the
/// last three bytes of the identifier's digest.
pub open spec fn spec_exteth_mac(hash: Seq<u8>) -> Seq<u8> {
    seq![0x2Eu8, 0x6Fu8, 0x4Fu8, hash[29], hash[30], hash[31]]
}

/// The MAC address of the external Ethernet port, from the identifier's
/// digest; see [`spec_exteth_mac`].
pub fn exteth_mac_from_hash(hash: &[u8; 32]) -> (r: [u8; 6])
    ensures
        r@ == spec_exteth_mac(hash@),
{
    let r: [u8; 6] = [0x2E, 0x6F, 0x4F, hash[29], hash[30], hash[31]];
    assert(r@ =~= spec_exteth_mac(hash@));
    r
}

/// The MAC address of the external Ethernet port of the board whose unique
/// identifier is `uid`.
pub fn get_exteth_mac(uid: (u32, u32, u32)) -> (r: [u8; 6])
    ensures
        r@ == spec_exteth_mac(sha256(spec_uid_bytes(uid))),
{
    let hash = unique_id_sha256(uid);
    exteth_mac_from_hash(&hash)
}

} // verus!
