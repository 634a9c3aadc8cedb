//! The message codes of a binary protocol enum: each variant carries a
//! `proto(id = N)` attribute, and the codes must be present, distinct and
//! non-zero. A message is written as its code followed by its fields, and
//! read back by looking its code up.

use vstd::prelude::*;
use crate::text::{parse_u64, spec_parse_u64, str_eq};

verus! {

/// A `key = value` pair of a variant's `proto(..)` attribute.
#[derive(Clone, Copy, Debug, PartialEq, Eq, Structural)]
pub enum ProtoMetaKV {
    Id(u8),
}

/// Why a `key = value` pair was refused.
#[derive(Clone, Copy, Debug, PartialEq, Eq, Structural)]
pub enum KvError {
    /// The key is not `id`.
    UnknownField,
    /// The value is not a decimal number from 0 to 255.
    InvalidId,
}

/// A `key = value` pair: the key must be `id`, and the value a decimal
/// number from 0 to 255.
pub open spec fn spec_proto_meta_kv(key: Seq<char>, digits: Seq<u8>) -> Result<ProtoMetaKV, KvError> {
    if key != "id"@ {
        Err(KvError::UnknownField)
    } else {
        match spec_parse_u64(digits) {
            Some(v) => if v <= 255 {
                Ok(ProtoMetaKV::Id(v as u8))
            } else {
                Err(KvError::InvalidId)
            },
            None => Err(KvError::InvalidId),
        }
    }
}

impl ProtoMetaKV {
    /// Reads a `key = value` pair, the value given by its decimal digits; see
    /// [`spec_proto_meta_kv`].
    pub fn parse(key: &str, digits: &[u8]) -> (r: Result<ProtoMetaKV, KvError>)
        ensures
            r == spec_proto_meta_kv(key@, digits@),
    {
        if !str_eq(key, "id") {
            return Err(KvError::UnknownField);
        }
        match parse_u64(digits) {
            Some(v) => if v <= 255 {
                Ok(ProtoMetaKV::Id(v as u8))
            } else {
                Err(KvError::InvalidId)
            },
            None => Err(KvError::InvalidId),
        }
    }
}

/// A variant's `proto(..)` attribute: its code, if one was given.
#[derive(Clone, Copy, Debug, PartialEq, Eq, Structural)]
pub struct ProtoMeta {
    pub id: Option<u8>,
}

/// The code given by the pairs: the last `id`.
pub open spec fn spec_proto_meta(kvs: Seq<ProtoMetaKV>) -> Option<u8>
    decreases kvs.len(),
{
    if kvs.len() == 0 {
        None
    } else {
        match kvs.last() {
            ProtoMetaKV::Id(id) => Some(id),
        }
    }
}

impl ProtoMeta {
    /// The attribute of the pairs; see [`spec_proto_meta`].
    pub fn parse(kvs: &[ProtoMetaKV]) -> (r: ProtoMeta)
        ensures
            r.id == spec_proto_meta(kvs@),
    {
        let mut meta = ProtoMeta { id: None };
        let mut i: usize = 0;
        while i < kvs.len()
            invariant
                i <= kvs@.len(),
                meta.id == spec_proto_meta(kvs@.take(i as int)),
            decreases kvs@.len() - i,
        {
            match kvs[i] {
                ProtoMetaKV::Id(id) => {
                    meta.id = Some(id);
                },
            }
            assert(kvs@.take(i + 1).last() == kvs@[i as int]);
            i = i + 1;
        }
        assert(kvs@.take(kvs@.len() as int) =~= kvs@);
        meta
    }
}

/// Why the codes of an enum were refused; each names the variant at fault.
#[derive(Clone, Copy, Debug, PartialEq, Eq, Structural)]
pub enum IdError {
    /// The variant has no `proto(..)` attribute.
    MissingAttribute { variant: usize },
    /// The variant's attribute gives no `id`.
    MissingId { variant: usize },
    /// The variant's code is already the code of an earlier variant.
    Duplicate { variant: usize, earlier: usize },
    /// The variant's code is zero.
    Zero { variant: usize },
}

/// The first variant before `end` whose code is `id`.
pub open spec fn spec_first_with_id(ids: Seq<u8>, id: u8, end: int) -> Option<int>
    decreases end,
{
    if end <= 0 {
        None
    } else {
        match spec_first_with_id(ids, id, end - 1) {
            Some(k) => Some(k),
            None => if ids[end - 1] == id {
                Some(end - 1)
            } else {
                None
            },
        }
    }
}

/// The codes of the variants, given each variant's attribute (`None` where
/// it has none), checked in order: the first variant without an attribute,
/// without an `id`, with the code of an earlier variant, or with code zero,
/// is refused.
pub open spec fn spec_check_ids(metas: Seq<Option<ProtoMeta>>, ids: Seq<u8>, i: int) -> Result<
    Seq<u8>,
    IdError,
>
    decreases metas.len() - i,
{
    if i < 0 || i >= metas.len() {
        Ok(ids)
    } else {
        match metas[i] {
            None => Err(IdError::MissingAttribute { variant: i as usize }),
            Some(meta) => match meta.id {
                None => Err(IdError::MissingId { variant: i as usize }),
                Some(id) => match spec_first_with_id(ids, id, ids.len() as int) {
                    Some(k) => Err(IdError::Duplicate { variant: i as usize, earlier: k as usize }),
                    None => if id == 0 {
                        Err(IdError::Zero { variant: i as usize })
                    } else {
                        spec_check_ids(metas, ids.push(id), i + 1)
                    },
                },
            },
        }
    }
}

proof fn lemma_first_with_id_push(ids: Seq<u8>, x: u8, id: u8)
    ensures
        spec_first_with_id(ids.push(x), id, ids.len() + 1int) == match spec_first_with_id(
            ids,
            id,
            ids.len() as int,
        ) {
            Some(k) => Some(k),
            None => if x == id {
                Some(ids.len() as int)
            } else {
                None
            },
        },
{
    lemma_first_with_id_prefix(ids, x, id, ids.len() as int);
}

proof fn lemma_first_with_id_prefix(ids: Seq<u8>, x: u8, id: u8, end: int)
    requires
        end <= ids.len(),
    ensures
        spec_first_with_id(ids.push(x), id, end) == spec_first_with_id(ids, id, end),
    decreases end,
{
    if end > 0 {
        lemma_first_with_id_prefix(ids, x, id, end - 1);
    }
}

fn first_with_id(ids: &Vec<u8>, id: u8) -> (r: Option<usize>)
    ensures
        match r {
            Some(k) => spec_first_with_id(ids@, id, ids@.len() as int) == Some(k as int),
            None => spec_first_with_id(ids@, id, ids@.len() as int) is None,
        },
{
    let mut k: usize = 0;
    while k < ids.len()
        invariant
            k <= ids@.len(),
            spec_first_with_id(ids@, id, k as int) is None,
        decreases ids@.len() - k,
    {
        if ids[k] == id {
            proof {
                lemma_first_with_id_extend(ids@, id, k as int + 1, ids@.len() as int);
            }
            return Some(k);
        }
        k = k + 1;
    }
    None
}

proof fn lemma_first_with_id_extend(ids: Seq<u8>, id: u8, end: int, end2: int)
    requires
        0 < end <= end2 <= ids.len(),
        spec_first_with_id(ids, id, end) is Some,
    ensures
        spec_first_with_id(ids, id, end2) == spec_first_with_id(ids, id, end),
    decreases end2 - end,
{
    if end2 > end {
        lemma_first_with_id_extend(ids, id, end, end2 - 1);
    }
}

/// Checks the codes of an enum's variants; see [`spec_check_ids`].
pub fn check_ids(metas: &[Option<ProtoMeta>]) -> (r: Result<Vec<u8>, IdError>)
    ensures
        match r {
            Ok(ids) => spec_check_ids(metas@, Seq::empty(), 0) == Ok::<Seq<u8>, IdError>(ids@),
            Err(e) => spec_check_ids(metas@, Seq::empty(), 0) == Err::<Seq<u8>, IdError>(e),
        },
{
    let mut ids: Vec<u8> = Vec::new();
    let mut i: usize = 0;
    while i < metas.len()
        invariant
            i <= metas@.len(),
            spec_check_ids(metas@, Seq::empty(), 0) == spec_check_ids(metas@, ids@, i as int),
        decreases metas@.len() - i,
    {
        match metas[i] {
            None => {
                return Err(IdError::MissingAttribute { variant: i });
            },
            Some(meta) => match meta.id {
                None => {
                    return Err(IdError::MissingId { variant: i });
                },
                Some(id) => {
                    match first_with_id(&ids, id) {
                        Some(k) => {
                            return Err(IdError::Duplicate { variant: i, earlier: k });
                        },
                        None => {},
                    }
                    if id == 0 {
                        return Err(IdError::Zero { variant: i });
                    }
                    ids.push(id);
                },
            },
        }
        i = i + 1;
    }
    Ok(ids)
}

/// The variant whose code is `code`, as the generated reader looks it up;
/// `None` stands for an unknown code.
pub fn variant_for_code(ids: &[u8], code: u8) -> (r: Option<usize>)
    ensures
        match r {
            Some(k) => spec_first_with_id(ids@, code, ids@.len() as int) == Some(k as int),
            None => spec_first_with_id(ids@, code, ids@.len() as int) is None,
        },
{
    let mut k: usize = 0;
    while k < ids.len()
        invariant
            k <= ids@.len(),
            spec_first_with_id(ids@, code, k as int) is None,
        decreases ids@.len() - k,
    {
        if ids[k] == code {
            proof {
                lemma_first_with_id_extend(ids@, code, k as int + 1, ids@.len() as int);
            }
            return Some(k);
        }
        k = k + 1;
    }
    None
}

/// The first position of a code among accepted codes is its own: codes that
/// passed the check are distinct.
pub open spec fn spec_distinct_ids(ids: Seq<u8>) -> bool {
    forall|i: int| 0 <= i < ids.len() ==> spec_first_with_id(ids, #[trigger] ids[i], ids.len() as int) == Some(i)
}

proof fn lemma_first_with_id_bound(ids: Seq<u8>, id: u8, end: int)
    ensures
        spec_first_with_id(ids, id, end) matches Some(k) ==> 0 <= k < end && ids[k] == id,
        spec_first_with_id(ids, id, end) is None ==> forall|k: int|
            0 <= k < end ==> ids[k] != id,
    decreases end,
{
    if end > 0 {
        lemma_first_with_id_bound(ids, id, end - 1);
    }
}

proof fn lemma_check_ids_distinct(metas: Seq<Option<ProtoMeta>>, ids: Seq<u8>, i: int)
    requires
        spec_distinct_ids(ids),
        forall|k: int| 0 <= k < ids.len() ==> ids[k] != 0,
        spec_check_ids(metas, ids, i) is Ok,
    ensures
        spec_distinct_ids(spec_check_ids(metas, ids, i)->Ok_0),
        forall|k: int|
            0 <= k < spec_check_ids(metas, ids, i)->Ok_0.len() ==> spec_check_ids(
                metas,
                ids,
                i,
            )->Ok_0[k] != 0,
    decreases metas.len() - i,
{
    if 0 <= i < metas.len() {
        let id = metas[i]->Some_0.id->Some_0;
        let next = ids.push(id);
        lemma_first_with_id_bound(ids, id, ids.len() as int);
        assert forall|k: int| 0 <= k < next.len() implies spec_first_with_id(
            next,
            #[trigger] next[k],
            next.len() as int,
        ) == Some(k) by {
            lemma_first_with_id_push(ids, id, next[k]);
            if k < ids.len() {
                assert(next[k] == ids[k]);
            } else {
                lemma_first_with_id_bound(ids, next[k], ids.len() as int);
            }
        }
        lemma_check_ids_distinct(metas, next, i + 1);
    }
}

/// Every accepted code is non-zero, and a message's code reads back as its
/// own variant.
pub proof fn lemma_accepted_ids_roundtrip(metas: Seq<Option<ProtoMeta>>)
    requires
        spec_check_ids(metas, Seq::empty(), 0) is Ok,
    ensures
        ({
            let ids = spec_check_ids(metas, Seq::empty(), 0)->Ok_0;
            forall|i: int|
                0 <= i < ids.len() ==> #[trigger] ids[i] != 0 && spec_first_with_id(
                    ids,
                    ids[i],
                    ids.len() as int,
                ) == Some(i)
        }),
{
    lemma_check_ids_distinct(metas, Seq::empty(), 0);
}

/// Why a message could not be read.
#[derive(Clone, Copy, Debug, PartialEq, Eq, Structural)]
pub enum ReadError {
    /// The input ended before the message code.
    EndOfInput,
    /// The message code is no variant's code.
    InvalidMessageCode(u8),
}

/// The bytes of a message of the variant with code `id` whose fields, in
/// declaration order, are written as `fields`: the code, then the fields.
pub open spec fn spec_message_bytes(id: u8, fields: Seq<u8>) -> Seq<u8> {
    seq![id] + fields
}

/// Writes a message: the variant's code `id`, then its fields as written.
pub fn write_message(id: u8, fields: &[u8]) -> (r: Vec<u8>)
    ensures
        r@ == spec_message_bytes(id, fields@),
{
    let mut out: Vec<u8> = Vec::new();
    out.push(id);
    let mut i: usize = 0;
    while i < fields.len()
        invariant
            i <= fields@.len(),
            out@ == seq![id] + fields@.take(i as int),
        decreases fields@.len() - i,
    {
        out.push(fields[i]);
        assert(fields@.take(i + 1) =~= fields@.take(i as int).push(fields@[i as int]));
        i = i + 1;
    }
    assert(fields@.take(fields@.len() as int) =~= fields@);
    out
}

/// What the reader makes of `bytes` for an enum whose codes are `ids`: the
/// variant of the first byte and the bytes of its fields, or why not.
pub open spec fn spec_read_message(ids: Seq<u8>, bytes: Seq<u8>) -> Result<(int, Seq<u8>), ReadError> {
    if bytes.len() == 0 {
        Err(ReadError::EndOfInput)
    } else {
        match spec_first_with_id(ids, bytes[0], ids.len() as int) {
            Some(k) => Ok((k, bytes.drop_first())),
            None => Err(ReadError::InvalidMessageCode(bytes[0])),
        }
    }
}

/// Reads a message's code: the variant it names and the bytes of its fields.
pub fn read_message<'a>(ids: &[u8], bytes: &'a [u8]) -> (r: Result<(usize, &'a [u8]), ReadError>)
    ensures
        match r {
            Ok((k, rest)) => spec_read_message(ids@, bytes@) == Ok::<(int, Seq<u8>), ReadError>(
                (k as int, rest@),
            ),
            Err(e) => spec_read_message(ids@, bytes@) == Err::<(int, Seq<u8>), ReadError>(e),
        },
{
    if bytes.len() == 0 {
        return Err(ReadError::EndOfInput);
    }
    match variant_for_code(ids, bytes[0]) {
        Some(k) => {
            let rest = &bytes[1..bytes.len()];
            assert(rest@ =~= bytes@.drop_first());
            Ok((k, rest))
        },
        None => Err(ReadError::InvalidMessageCode(bytes[0])),
    }
}

/// For an enum whose codes passed the check, a message written for any
/// variant reads back as that variant with its fields' bytes, and a first byte
/// that is no variant's code is refused with that code.
pub proof fn lemma_message_roundtrip(metas: Seq<Option<ProtoMeta>>, fields: Seq<u8>, code: u8)
    requires
        spec_check_ids(metas, Seq::empty(), 0) is Ok,
    ensures
        ({
            let ids = spec_check_ids(metas, Seq::empty(), 0)->Ok_0;
            &&& forall|v: int|
                0 <= v < ids.len() ==> spec_read_message(
                    ids,
                    #[trigger] spec_message_bytes(ids[v], fields),
                ) == Ok::<(int, Seq<u8>), ReadError>((v, fields))
            &&& (forall|k: int| 0 <= k < ids.len() ==> ids[k] != code) ==> spec_read_message(
                ids,
                spec_message_bytes(code, fields),
            ) == Err::<(int, Seq<u8>), ReadError>(ReadError::InvalidMessageCode(code))
        }),
{
    let ids = spec_check_ids(metas, Seq::empty(), 0)->Ok_0;
    lemma_accepted_ids_roundtrip(metas);
    assert forall|v: int| 0 <= v < ids.len() implies spec_read_message(
        ids,
        #[trigger] spec_message_bytes(ids[v], fields),
    ) == Ok::<(int, Seq<u8>), ReadError>((v, fields)) by {
        let b = spec_message_bytes(ids[v], fields);
        assert(b[0] == ids[v]);
        assert(b.drop_first() =~= fields);
    }
    let b = spec_message_bytes(code, fields);
    assert(b[0] == code);
    lemma_first_with_id_bound(ids, code, ids.len() as int);
}

} // verus!
