use bytes::Bytes;
use tihu::encoder::INSUFFICIENT_DATA;
use tihu::protocol::read_be_i128;
use tihu::protocol::read_be_i64;
use tihu::protocol::read_be_u128;
use tihu::protocol::read_be_u64;
use tihu::protocol::read_const_n;
use tihu::protocol::read_n;
use tihu::protocol::read_u8;
use tihu::LightString;

#[test]
fn read_const_n_takes_the_front() {
    let (head, rest) = read_const_n::<3>(Bytes::from_static(b"abcde")).unwrap();
    assert_eq!(head, *b"abc");
    assert_eq!(&rest[..], b"de");
    let (head, rest) = read_const_n::<0>(Bytes::from_static(b"ab")).unwrap();
    assert_eq!(head, [0u8; 0]);
    assert_eq!(&rest[..], b"ab");
    let err = read_const_n::<3>(Bytes::from_static(b"ab")).unwrap_err();
    assert_eq!(err, LightString::Static(INSUFFICIENT_DATA));
}

#[test]
fn read_n_takes_the_front() {
    let (head, rest) = read_n(Bytes::from_static(b"abcde"), 2).unwrap();
    assert_eq!(&head[..], b"ab");
    assert_eq!(&rest[..], b"cde");
    let (head, rest) = read_n(Bytes::from_static(b"abcde"), 5).unwrap();
    assert_eq!(&head[..], b"abcde");
    assert_eq!(&rest[..], b"");
    let err = read_n(Bytes::from_static(b"abcde"), 6).unwrap_err();
    assert_eq!(err.as_str(), "输入数据长度不够");
}

#[test]
fn read_u8_takes_one_byte() {
    let (byte, rest) = read_u8(Bytes::from_static(b"\x7fxy")).unwrap();
    assert_eq!(byte, 0x7f);
    assert_eq!(&rest[..], b"xy");
    assert!(read_u8(Bytes::new()).is_err());
}

#[test]
fn read_be_u64_is_big_endian() {
    let (value, rest) =
        read_be_u64(Bytes::from_static(b"\x01\x02\x03\x04\x05\x06\x07\x08rest")).unwrap();
    assert_eq!(value, 0x0102030405060708);
    assert_eq!(&rest[..], b"rest");
    let (value, _) = read_be_u64(Bytes::from_static(&[0xff; 8])).unwrap();
    assert_eq!(value, u64::MAX);
    let err = read_be_u64(Bytes::from_static(&[0; 7])).unwrap_err();
    assert_eq!(err, LightString::Static(INSUFFICIENT_DATA));
}

#[test]
fn read_be_i64_is_twos_complement() {
    let (value, _) = read_be_i64(Bytes::from_static(&[0xff; 8])).unwrap();
    assert_eq!(value, -1);
    let (value, _) =
        read_be_i64(Bytes::from_static(b"\x80\x00\x00\x00\x00\x00\x00\x00")).unwrap();
    assert_eq!(value, i64::MIN);
    let (value, rest) =
        read_be_i64(Bytes::from_static(b"\x00\x00\x00\x00\x00\x00\x01\x00!")).unwrap();
    assert_eq!(value, 256);
    assert_eq!(&rest[..], b"!");
    assert!(read_be_i64(Bytes::new()).is_err());
}

#[test]
fn read_be_u128_is_big_endian() {
    let mut bytes = vec![0u8; 16];
    bytes[0] = 0x01;
    bytes[15] = 0x02;
    bytes.push(0xee);
    let (value, rest) = read_be_u128(Bytes::from(bytes)).unwrap();
    assert_eq!(value, (1u128 << 120) + 2);
    assert_eq!(&rest[..], &[0xee]);
    assert!(read_be_u128(Bytes::from_static(&[0; 15])).is_err());
}

#[test]
fn read_be_i128_is_twos_complement() {
    let (value, _) = read_be_i128(Bytes::from_static(&[0xff; 16])).unwrap();
    assert_eq!(value, -1);
    let mut bytes = vec![0u8; 16];
    bytes[0] = 0x80;
    let (value, _) = read_be_i128(Bytes::from(bytes)).unwrap();
    assert_eq!(value, i128::MIN);
    let mut bytes = vec![0u8; 16];
    bytes[15] = 0x2a;
    let (value, _) = read_be_i128(Bytes::from(bytes)).unwrap();
    assert_eq!(value, 42);
    assert!(read_be_i128(Bytes::from_static(&[0; 15])).is_err());
}
