//! The CBOR items (RFC 8949) that the protocol messages are made of:
//! unsigned integers, array and text-string heads, and booleans.

use vstd::prelude::*;

verus! {

/// CBOR major type of unsigned integers.
pub const MAJOR_UINT: u8 = 0;

/// CBOR major type of UTF-8 text strings.
pub const MAJOR_TEXT: u8 = 3;

/// CBOR major type of arrays.
pub const MAJOR_ARRAY: u8 = 4;

/// The simple value `true`.
pub const CBOR_TRUE: u8 = 0xF5;

/// The simple value `false`.
pub const CBOR_FALSE: u8 = 0xF4;

/// The initial byte of an item: the major type in the top three bits and the
/// additional information in the low five.
pub open spec fn initial_byte(major: u8, info: u8) -> u8 {
    (major << 5u8) | info
}

/// The two bytes of the low 16 bits of `v`, most significant first.
pub open spec fn be2(v: u64) -> Seq<u8> {
    seq![((v >> 8u64) & 0xFF) as u8, (v & 0xFF) as u8]
}

/// The four bytes of the low 32 bits of `v`, most significant first.
pub open spec fn be4(v: u64) -> Seq<u8> {
    seq![
        ((v >> 24u64) & 0xFF) as u8,
        ((v >> 16u64) & 0xFF) as u8,
        ((v >> 8u64) & 0xFF) as u8,
        (v & 0xFF) as u8,
    ]
}

/// The eight bytes of `v`, most significant first.
pub open spec fn be8(v: u64) -> Seq<u8> {
    seq![
        ((v >> 56u64) & 0xFF) as u8,
        ((v >> 48u64) & 0xFF) as u8,
        ((v >> 40u64) & 0xFF) as u8,
        ((v >> 32u64) & 0xFF) as u8,
        ((v >> 24u64) & 0xFF) as u8,
        ((v >> 16u64) & 0xFF) as u8,
        ((v >> 8u64) & 0xFF) as u8,
        (v & 0xFF) as u8,
    ]
}

/// The shortest head of an item of major type `major` whose argument is `v`.
pub open spec fn spec_head(major: u8, v: u64) -> Seq<u8> {
    if v < 24 {
        seq![initial_byte(major, v as u8)]
    } else if v < 0x100 {
        seq![initial_byte(major, 24), v as u8]
    } else if v < 0x1_0000 {
        seq![initial_byte(major, 25)] + be2(v)
    } else if v < 0x1_0000_0000 {
        seq![initial_byte(major, 26)] + be4(v)
    } else {
        seq![initial_byte(major, 27)] + be8(v)
    }
}

/// The 16-bit big-endian value of the bytes at `pos`.
pub open spec fn from_be2(b: Seq<u8>, pos: int) -> u64 {
    ((b[pos] as u64) << 8u64) | (b[pos + 1] as u64)
}

/// The 32-bit big-endian value of the bytes at `pos`.
pub open spec fn from_be4(b: Seq<u8>, pos: int) -> u64 {
    ((b[pos] as u64) << 24u64) | ((b[pos + 1] as u64) << 16u64) | ((b[pos + 2] as u64) << 8u64) | (
    b[pos + 3] as u64)
}

/// The 64-bit big-endian value of the bytes at `pos`.
pub open spec fn from_be8(b: Seq<u8>, pos: int) -> u64 {
    (from_be4(b, pos) << 32u64) | from_be4(b, pos + 4)
}

/// Reads the item head at `pos`: its major type, its argument and the position
/// after it. Any width of the argument is accepted; the additional information
/// values 28 to 31 (reserved, and indefinite lengths) are not.
pub open spec fn spec_parse_head(b: Seq<u8>, pos: int) -> Option<(u8, u64, int)> {
    if pos < 0 || pos >= b.len() {
        None
    } else {
        let major = b[pos] >> 5u8;
        let info = b[pos] & 31u8;
        if info < 24 {
            Some((major, info as u64, pos + 1))
        } else if info == 24 {
            if pos + 1 < b.len() {
                Some((major, b[pos + 1] as u64, pos + 2))
            } else {
                None
            }
        } else if info == 25 {
            if pos + 2 < b.len() {
                Some((major, from_be2(b, pos + 1), pos + 3))
            } else {
                None
            }
        } else if info == 26 {
            if pos + 4 < b.len() {
                Some((major, from_be4(b, pos + 1), pos + 5))
            } else {
                None
            }
        } else if info == 27 {
            if pos + 8 < b.len() {
                Some((major, from_be8(b, pos + 1), pos + 9))
            } else {
                None
            }
        } else {
            None
        }
    }
}

/// Whether `b` holds `item` starting at `pos`.
pub open spec fn holds_at(b: Seq<u8>, pos: int, item: Seq<u8>) -> bool {
    &&& 0 <= pos
    &&& pos + item.len() <= b.len()
    &&& b.subrange(pos, pos + item.len()) == item
}

proof fn lemma_initial_byte(major: u8, info: u8)
    by (bit_vector)
    requires
        major < 8,
        info < 32,
    ensures
        ((major << 5u8) | info) >> 5u8 == major,
        ((major << 5u8) | info) & 31u8 == info,
{
}

pub(crate) proof fn lemma_be_roundtrip(v: u64)
    by (bit_vector)
    ensures
        v < 0x1_0000 ==> ((((v >> 8u64) & 0xFF) as u8 as u64) << 8u64) | ((v & 0xFF) as u8 as u64)
            == v,
        v < 0x1_0000_0000 ==> ((((v >> 24u64) & 0xFF) as u8 as u64) << 24u64) | ((((v >> 16u64)
            & 0xFF) as u8 as u64) << 16u64) | ((((v >> 8u64) & 0xFF) as u8 as u64) << 8u64) | ((v
            & 0xFF) as u8 as u64) == v,
        ((((((v >> 56u64) & 0xFF) as u8 as u64) << 24u64) | ((((v >> 48u64) & 0xFF) as u8 as u64)
            << 16u64) | ((((v >> 40u64) & 0xFF) as u8 as u64) << 8u64) | (((v >> 32u64) & 0xFF) as u8
            as u64)) << 32u64) | (((((v >> 24u64) & 0xFF) as u8 as u64) << 24u64) | ((((v >> 16u64)
            & 0xFF) as u8 as u64) << 16u64) | ((((v >> 8u64) & 0xFF) as u8 as u64) << 8u64) | ((v
            & 0xFF) as u8 as u64)) == v,
{
}

/// A head written by [`write_head`] is read back by [`spec_parse_head`] as the
/// same major type and argument, and ends where the head ends.
pub proof fn lemma_head_roundtrip(b: Seq<u8>, pos: int, major: u8, v: u64)
    requires
        major < 8,
        holds_at(b, pos, spec_head(major, v)),
    ensures
        spec_parse_head(b, pos) == Some((major, v, pos + spec_head(major, v).len())),
{
    let h = spec_head(major, v);
    assert(b[pos] == h[0]) by {
        assert(b.subrange(pos, pos + h.len())[0] == h[0]);
    }
    assert forall|i: int| 0 <= i < h.len() implies b[pos + i] == h[i] by {
        assert(b.subrange(pos, pos + h.len())[i] == h[i]);
    }
    lemma_be_roundtrip(v);
    if v < 24 {
        lemma_initial_byte(major, v as u8);
        assert((v as u8) as u64 == v);
    } else if v < 0x100 {
        lemma_initial_byte(major, 24);
        assert(b[pos + 1] == h[1]);
        assert((v as u8) as u64 == v);
    } else if v < 0x1_0000 {
        lemma_initial_byte(major, 25);
        assert(b[pos + 1] == h[1] && b[pos + 2] == h[2]);
        assert(from_be2(b, pos + 1) == v);
    } else if v < 0x1_0000_0000 {
        lemma_initial_byte(major, 26);
        assert(b[pos + 1] == h[1] && b[pos + 2] == h[2] && b[pos + 3] == h[3] && b[pos + 4] == h[4]);
        assert(from_be4(b, pos + 1) == v);
    } else {
        lemma_initial_byte(major, 27);
        assert(b[pos + 1] == h[1] && b[pos + 2] == h[2] && b[pos + 3] == h[3] && b[pos + 4] == h[4]);
        assert(b[pos + 5] == h[5] && b[pos + 6] == h[6] && b[pos + 7] == h[7] && b[pos + 8] == h[8]);
        assert(from_be8(b, pos + 1) == v);
    }
}

/// Appends the shortest head of major type `major` with argument `v`.
pub fn write_head(out: &mut Vec<u8>, major: u8, v: u64)
    requires
        major < 8,
    ensures
        final(out)@ == old(out)@ + spec_head(major, v),
{
    let ghost start = out@;
    let first: u8 = major << 5u8;
    if v < 24 {
        out.push(first | (v as u8));
    } else if v < 0x100 {
        out.push(first | 24u8);
        out.push(v as u8);
    } else if v < 0x1_0000 {
        out.push(first | 25u8);
        out.push(((v >> 8u64) & 0xFF) as u8);
        out.push((v & 0xFF) as u8);
    } else if v < 0x1_0000_0000 {
        out.push(first | 26u8);
        out.push(((v >> 24u64) & 0xFF) as u8);
        out.push(((v >> 16u64) & 0xFF) as u8);
        out.push(((v >> 8u64) & 0xFF) as u8);
        out.push((v & 0xFF) as u8);
    } else {
        out.push(first | 27u8);
        out.push(((v >> 56u64) & 0xFF) as u8);
        out.push(((v >> 48u64) & 0xFF) as u8);
        out.push(((v >> 40u64) & 0xFF) as u8);
        out.push(((v >> 32u64) & 0xFF) as u8);
        out.push(((v >> 24u64) & 0xFF) as u8);
        out.push(((v >> 16u64) & 0xFF) as u8);
        out.push(((v >> 8u64) & 0xFF) as u8);
        out.push((v & 0xFF) as u8);
    }
    assert(out@ =~= start + spec_head(major, v));
}

/// Reads the item head at `pos`; see [`spec_parse_head`].
pub fn read_head(b: &[u8], pos: usize) -> (r: Option<(u8, u64, usize)>)
    ensures
        match r {
            Some((m, v, p)) => spec_parse_head(b@, pos as int) == Some((m, v, p as int)),
            None => spec_parse_head(b@, pos as int) is None,
        },
{
    let len = b.len();
    if pos >= len {
        return None;
    }
    let ib = b[pos];
    let major = ib >> 5u8;
    let info = ib & 31u8;
    if info < 24 {
        Some((major, info as u64, pos + 1))
    } else if info == 24 {
        if len - pos > 1 {
            Some((major, b[pos + 1] as u64, pos + 2))
        } else {
            None
        }
    } else if info == 25 {
        if len - pos > 2 {
            let v: u64 = ((b[pos + 1] as u64) << 8u64) | (b[pos + 2] as u64);
            Some((major, v, pos + 3))
        } else {
            None
        }
    } else if info == 26 {
        if len - pos > 4 {
            let v: u64 = ((b[pos + 1] as u64) << 24u64) | ((b[pos + 2] as u64) << 16u64) | ((b[pos
                + 3] as u64) << 8u64) | (b[pos + 4] as u64);
            Some((major, v, pos + 5))
        } else {
            None
        }
    } else if info == 27 {
        if len - pos > 8 {
            let hi: u64 = ((b[pos + 1] as u64) << 24u64) | ((b[pos + 2] as u64) << 16u64) | ((b[pos
                + 3] as u64) << 8u64) | (b[pos + 4] as u64);
            let lo: u64 = ((b[pos + 5] as u64) << 24u64) | ((b[pos + 6] as u64) << 16u64) | ((b[pos
                + 7] as u64) << 8u64) | (b[pos + 8] as u64);
            Some((major, (hi << 32u64) | lo, pos + 9))
        } else {
            None
        }
    } else {
        None
    }
}

} // verus!
