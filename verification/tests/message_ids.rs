use oro_link::message_ids::{
    check_ids, read_message, variant_for_code, write_message, IdError, KvError, ProtoMeta,
    ProtoMetaKV, ReadError,
};

#[test]
fn proto_meta_pairs() {
    assert_eq!(ProtoMetaKV::parse("id", b"7"), Ok(ProtoMetaKV::Id(7)));
    assert_eq!(ProtoMetaKV::parse("id", b"255"), Ok(ProtoMetaKV::Id(255)));
    assert_eq!(ProtoMetaKV::parse("id", b"256"), Err(KvError::InvalidId));
    assert_eq!(ProtoMetaKV::parse("id", b"x"), Err(KvError::InvalidId));
    assert_eq!(ProtoMetaKV::parse("name", b"1"), Err(KvError::UnknownField));
}

#[test]
fn proto_meta_takes_last_id() {
    assert_eq!(ProtoMeta::parse(&[]).id, None);
    assert_eq!(
        ProtoMeta::parse(&[ProtoMetaKV::Id(1), ProtoMetaKV::Id(4)]).id,
        Some(4)
    );
}

fn meta(id: u8) -> Option<ProtoMeta> {
    Some(ProtoMeta { id: Some(id) })
}

#[test]
fn accepted_ids() {
    assert_eq!(check_ids(&[meta(3), meta(1), meta(2)]), Ok(vec![3, 1, 2]));
    assert_eq!(check_ids(&[]), Ok(vec![]));
}

#[test]
fn refused_ids() {
    assert_eq!(
        check_ids(&[meta(1), None, meta(0)]),
        Err(IdError::MissingAttribute { variant: 1 })
    );
    assert_eq!(
        check_ids(&[meta(1), Some(ProtoMeta { id: None })]),
        Err(IdError::MissingId { variant: 1 })
    );
    assert_eq!(
        check_ids(&[meta(1), meta(2), meta(1)]),
        Err(IdError::Duplicate { variant: 2, earlier: 0 })
    );
    assert_eq!(check_ids(&[meta(1), meta(0)]), Err(IdError::Zero { variant: 1 }));
}

#[test]
fn codes_read_back_as_their_variant() {
    let ids = check_ids(&[meta(5), meta(9), meta(2)]).unwrap();
    for (i, &id) in ids.iter().enumerate() {
        assert_eq!(variant_for_code(&ids, id), Some(i));
    }
    assert_eq!(variant_for_code(&ids, 0), None);
    assert_eq!(variant_for_code(&ids, 7), None);
}

#[test]
fn message_written_then_read() {
    let ids = check_ids(&[meta(3), meta(1), meta(2)]).unwrap();
    let bytes = write_message(1, &[9, 8, 7]);
    assert_eq!(bytes, vec![1, 9, 8, 7]);
    assert_eq!(read_message(&ids, &bytes), Ok((1, &[9u8, 8, 7][..])));
    assert_eq!(read_message(&ids, &write_message(3, &[])), Ok((0, &[][..])));
    assert_eq!(read_message(&ids, &[5, 1]), Err(ReadError::InvalidMessageCode(5)));
    assert_eq!(read_message(&ids, &[]), Err(ReadError::EndOfInput));
}
