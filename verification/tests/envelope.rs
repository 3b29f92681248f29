use tihu::base62;
use tihu::base62::INVALID_CHARACTER;
use tihu::encoder::INSUFFICIENT_DATA;
use tihu::version_data;
use tihu::SharedString;

fn some_bytes(count: usize) -> Vec<u8> {
    let mut state: u32 = 0x2545_f491;
    let mut out = Vec::with_capacity(count);
    for _ in 0..count {
        state ^= state << 13;
        state ^= state >> 17;
        state ^= state << 5;
        out.push((state >> 11) as u8);
    }
    out
}

#[test]
fn base62_known_texts() {
    assert_eq!(base62::encode(b""), "1");
    assert_eq!(base62::encode(b"\x00"), "48");
    assert_eq!(base62::encode(b"hello"), "RFadz6V");
    assert_eq!(base62::encode(b"\x00\x00ab"), "4gfLgA");
}

#[test]
fn base62_decode_known_texts() {
    assert_eq!(base62::decode("1").unwrap(), b"".to_vec());
    assert_eq!(base62::decode("48").unwrap(), b"\x00".to_vec());
    assert_eq!(base62::decode("RFadz6V").unwrap(), b"hello".to_vec());
    assert_eq!(base62::decode("4gfLgA").unwrap(), b"\x00\x00ab".to_vec());
    assert_eq!(base62::decode("000048").unwrap(), b"\x00".to_vec());
    assert_eq!(base62::decode("").unwrap(), b"".to_vec());
    assert_eq!(base62::decode("Z").unwrap(), b"".to_vec());
}

#[test]
fn base62_rejects_other_characters() {
    for text in ["4-8", "hello world", "+", "abc=", "é", "48\n", "_"] {
        let err = base62::decode(text).unwrap_err();
        assert_eq!(err, SharedString::Static(INVALID_CHARACTER));
    }
}

#[test]
fn base62_round_trip() {
    for count in [0usize, 1, 2, 7, 8, 9, 31, 32, 33, 255, 1000] {
        let data = some_bytes(count);
        let text = base62::encode(&data);
        assert!(text.bytes().all(|c| c.is_ascii_alphanumeric()));
        assert_eq!(base62::decode(&text).unwrap(), data);
        let zeros = vec![0u8; count];
        assert_eq!(base62::decode(&base62::encode(&zeros)).unwrap(), zeros);
    }
}

#[test]
fn envelope_known_texts() {
    assert_eq!(version_data::encode(0, b"").unwrap(), "LygHa16AHYG");
    assert_eq!(version_data::encode(1, b"").unwrap(), "LygHa16AHYH");
    assert_eq!(version_data::encode(u64::MAX, b"").unwrap(), "hxMZA2CKZ6V");
    assert_eq!(version_data::encode(0, b"hello").unwrap(), "6rS8oxBA9U5xCAJXsF");
    assert_eq!(version_data::encode(1, b"hello").unwrap(), "6rS8oxBA9U6GYKcHgl");
    assert_eq!(
        version_data::encode(u64::MAX, b"hello").unwrap(),
        "DiuHduMKIyBT8jz6dz"
    );
}

#[test]
fn envelope_round_trip() {
    let long = some_bytes(1000);
    for version in [0u64, 1, 2, 255, 256, u64::MAX - 1, u64::MAX] {
        for payload in [b"".to_vec(), b"hello".to_vec(), long.clone()] {
            let text = version_data::encode(version, &payload).unwrap();
            assert!(text.bytes().all(|c| c.is_ascii_alphanumeric()));
            let (read, rest) = version_data::try_decode(&text).unwrap();
            assert_eq!(read, version);
            assert_eq!(&rest[..], &payload[..]);
        }
    }
}

#[test]
fn envelope_too_short() {
    for text in ["", "1", "48", "RFadz6V"] {
        let err = version_data::try_decode(text).unwrap_err();
        assert_eq!(err, SharedString::Static(INSUFFICIENT_DATA));
    }
    let seven = base62::encode(&[0u8; 7]);
    assert!(version_data::try_decode(&seven).is_err());
    let eight = base62::encode(&[0u8; 8]);
    let (version, rest) = version_data::try_decode(&eight).unwrap();
    assert_eq!(version, 0);
    assert_eq!(rest.len(), 0);
}

#[test]
fn envelope_rejects_other_characters() {
    let err = version_data::try_decode("LygHa16AHY!").unwrap_err();
    assert_eq!(err, SharedString::Static(INVALID_CHARACTER));
    assert_eq!(err.as_str(), "invalid base62 character");
}
