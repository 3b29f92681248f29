use bytes::Bytes;
use tihu::encoder::decode_chunks;
use tihu::encoder::encode_chunks;
use tihu::encoder::split_chunks;
use tihu::encoder::INSUFFICIENT_DATA;
use tihu::SharedString;

#[test]
fn pack_three_fields() {
    let packed = encode_chunks(&[b"ab", b"cdef", b"g"], None);
    assert_eq!(packed, b"\x02ab\x04cdefg".to_vec());
    let (a, b, c) = decode_chunks::<3>(Bytes::from(packed)).unwrap();
    assert_eq!(&a[..], b"ab");
    assert_eq!(&b[..], b"cdef");
    assert_eq!(&c[..], b"g");
}

#[test]
fn unpack_with_fewer_fields_gives_the_rest_to_the_last() {
    let packed = encode_chunks(&[b"ab", b"cdef", b"g"], None);
    let (a, rest) = decode_chunks::<2>(Bytes::from(packed)).unwrap();
    assert_eq!(&a[..], b"ab");
    assert_eq!(&rest[..], b"\x04cdefg");
}

#[test]
fn unpack_with_more_fields_runs_out_of_data() {
    let packed = encode_chunks(&[b"ab", b"cdef", b"g"], None);
    let err = decode_chunks::<4>(Bytes::from(packed)).unwrap_err();
    assert_eq!(err, SharedString::Static(INSUFFICIENT_DATA));
    assert_eq!(err.as_str(), "输入数据长度不够");
}

#[test]
fn pack_nothing_is_empty() {
    assert_eq!(encode_chunks(&[], None), Vec::<u8>::new());
    assert_eq!(encode_chunks(&[], Some(vec![1, 2, 3])), Vec::<u8>::new());
}

#[test]
fn pack_one_field_is_bare() {
    assert_eq!(encode_chunks(&[b"only"], None), b"only".to_vec());
    let (only,) = decode_chunks::<1>(Bytes::from_static(b"only")).unwrap();
    assert_eq!(&only[..], b"only");
    let (empty,) = decode_chunks::<1>(Bytes::new()).unwrap();
    assert_eq!(&empty[..], b"");
}

#[test]
fn pack_goes_behind_the_given_output() {
    let packed = encode_chunks(&[b"ab", b"c"], Some(vec![9, 9]));
    assert_eq!(packed, vec![9, 9, 2, b'a', b'b', b'c']);
}

#[test]
fn pack_long_field_has_two_byte_length() {
    let long = vec![7u8; 300];
    let packed = encode_chunks(&[&long, b"z"], None);
    assert_eq!(packed.len(), 2 + 300 + 1);
    assert_eq!(&packed[..2], &[0xac, 0x02]);
    let (a, b) = decode_chunks::<2>(Bytes::from(packed)).unwrap();
    assert_eq!(&a[..], &long[..]);
    assert_eq!(&b[..], b"z");
}

#[test]
fn pack_round_trip_five_fields() {
    let fields: [&[u8]; 5] = [b"", b"a", b"\x00\x01", b"", b"tail"];
    let packed = encode_chunks(&fields, None);
    assert_eq!(packed, b"\x00\x01a\x02\x00\x01\x00tail".to_vec());
    let (a, b, c, d, e) = decode_chunks::<5>(Bytes::from(packed)).unwrap();
    assert_eq!(&a[..], fields[0]);
    assert_eq!(&b[..], fields[1]);
    assert_eq!(&c[..], fields[2]);
    assert_eq!(&d[..], fields[3]);
    assert_eq!(&e[..], fields[4]);
}

#[test]
fn unpack_empty_last_field() {
    let (a, b) = decode_chunks::<2>(Bytes::from_static(b"\x02ab")).unwrap();
    assert_eq!(&a[..], b"ab");
    assert_eq!(&b[..], b"");
}

#[test]
fn unpack_short_body_is_insufficient() {
    let err = decode_chunks::<2>(Bytes::from_static(b"\x05ab")).unwrap_err();
    assert_eq!(err, SharedString::Static(INSUFFICIENT_DATA));
}

#[test]
fn unpack_missing_length_is_insufficient() {
    let err = decode_chunks::<2>(Bytes::new()).unwrap_err();
    assert_eq!(err, SharedString::Static(INSUFFICIENT_DATA));
    let err = decode_chunks::<2>(Bytes::from_static(b"\x80")).unwrap_err();
    assert_eq!(err, SharedString::Static(INSUFFICIENT_DATA));
}

#[test]
fn split_chunks_gives_as_many_as_asked() {
    let parts = split_chunks(Bytes::from_static(b"\x01a\x01b\x01c"), 3).unwrap();
    assert_eq!(parts.len(), 3);
    assert_eq!(&parts[0][..], b"a");
    assert_eq!(&parts[1][..], b"b");
    assert_eq!(&parts[2][..], b"\x01c");
    let parts = split_chunks(Bytes::from_static(b"xyz"), 0).unwrap();
    assert_eq!(parts.len(), 1);
    assert_eq!(&parts[0][..], b"xyz");
}
