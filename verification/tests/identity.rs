use tihu::client_id::ClientId;
use tihu::client_id::ClientIdV1;
use tihu::client_id::EXPIRED;
use tihu::client_id::RECORD_UNREADABLE;
use tihu::client_id::RECORD_UNWRITABLE;
use tihu::client_id::SIGNATURE_INVALID;
use tihu::client_id::UNKNOWN_VERSION;
use tihu::encoder::encode_chunks;
use tihu::encoder::INSUFFICIENT_DATA;
use tihu::version_data;
use tihu::LightString;

const NOW: i64 = 1_700_000_000;

fn write_record(record: &ClientIdV1) -> Option<Vec<u8>> {
    let key = serde_json::to_string(record.rsa_pub_key.as_str()).ok()?;
    Some(
        format!(
            "{{\"rsa_pub_key\":{},\"expire_time\":{}}}",
            key, record.expire_time
        )
        .into_bytes(),
    )
}

fn read_record(bytes: &[u8]) -> Option<ClientIdV1> {
    let value = serde_json::from_slice::<serde_json::Value>(bytes).ok()?;
    let key = value.get("rsa_pub_key")?.as_str()?.to_owned();
    let expire_time = value.get("expire_time")?.as_i64()?;
    Some(ClientIdV1 {
        rsa_pub_key: LightString::from(key),
        expire_time,
    })
}

fn sign(bytes: &[u8]) -> Result<Vec<u8>, LightString> {
    // A keyed checksum stands in for a signature.
    let mut sum: u32 = 0x811c_9dc5;
    for byte in b"secret".iter().chain(bytes.iter()) {
        sum = (sum ^ *byte as u32).wrapping_mul(0x0100_0193);
    }
    Ok(sum.to_be_bytes().to_vec())
}

fn check(key: &str, bytes: &[u8], signature: &[u8]) -> Result<bool, LightString> {
    if key != "key-1" {
        return Err(LightString::from_static("unknown key"));
    }
    Ok(sign(bytes)? == signature)
}

fn token(expire_time: i64) -> String {
    ClientId::new(LightString::from_static("key-1"), expire_time)
        .encode(write_record, sign)
        .unwrap()
}

#[test]
fn identity_getters() {
    let id = ClientId::new(LightString::from_static("key-1"), NOW + 60);
    assert_eq!(id.version(), 1);
    assert_eq!(id.rsa_pub_key().as_str(), "key-1");
    assert_eq!(id.expire_time(), NOW + 60);
    assert!(!id.expired_at(NOW));
    assert!(!id.expired_at(NOW + 59));
    assert!(id.expired_at(NOW + 60));
    assert!(id.expired_at(NOW + 61));
    let ClientId::V1(record) = id;
    assert!(!record.expired_at(NOW));
    assert!(record.expired_at(i64::MAX));
}

#[test]
fn identity_expired_reads_the_clock() {
    assert!(ClientId::new(LightString::from_static("k"), 0).expired());
    assert!(ClientId::new(LightString::from_static("k"), 1_000_000_000).expired());
    assert!(!ClientId::new(LightString::from_static("k"), i64::MAX).expired());
    let ClientId::V1(record) = ClientId::new(LightString::from_static("k"), i64::MIN);
    assert!(record.expired());
}

#[test]
fn identity_decodes_while_valid() {
    let text = token(NOW + 60);
    let id = ClientId::try_decode_at(&text, NOW, read_record, check).unwrap();
    assert_eq!(id.rsa_pub_key().as_str(), "key-1");
    assert_eq!(id.expire_time(), NOW + 60);
    assert!(ClientId::try_decode_at(&text, NOW + 59, read_record, check).is_ok());
}

#[test]
fn identity_fails_once_expired() {
    let text = token(NOW + 60);
    for now in [NOW + 60, NOW + 61, i64::MAX] {
        let err = ClientId::try_decode_at(&text, now, read_record, check)
            .err()
            .unwrap();
        assert_eq!(err, LightString::Static(EXPIRED));
    }
}

#[test]
fn identity_expiry_comes_before_the_signature() {
    let text = token(NOW + 60);
    let err = ClientId::try_decode_at(&text, NOW + 60, read_record, |_, _, _| {
        panic!("the signature of an expired token is not checked")
    })
    .err()
    .unwrap();
    assert_eq!(err.as_str(), "客户端身份数据已过期!");
}

#[test]
fn identity_with_the_clock() {
    let text = token(i64::MAX);
    assert!(ClientId::try_decode(&text, read_record, check).is_ok());
    let text = token(1);
    let err = ClientId::try_decode(&text, read_record, check).err().unwrap();
    assert_eq!(err, LightString::Static(EXPIRED));
}

#[test]
fn identity_flipped_signature_is_invalid() {
    let text = token(NOW + 60);
    let (record, signature) = ClientId::open(&text).unwrap();
    for index in 0..signature.len() {
        let mut forged = signature.to_vec();
        forged[index] ^= 0x01;
        let packed = encode_chunks(&[&record, &forged], None);
        let text = version_data::encode(1, &packed).unwrap();
        let err = ClientId::try_decode_at(&text, NOW, read_record, check)
            .err()
            .unwrap();
        assert_eq!(err, LightString::Static(SIGNATURE_INVALID));
        assert_eq!(err.as_str(), "客户端身份数据签名不正确！");
    }
}

#[test]
fn identity_unknown_version_comes_first() {
    let text = token(NOW + 60);
    let (record, signature) = ClientId::open(&text).unwrap();
    let packed = encode_chunks(&[&record, &signature], None);
    for version in [0u64, 2, 3, u64::MAX] {
        let text = version_data::encode(version, &packed).unwrap();
        let err = ClientId::try_decode_at(
            &text,
            NOW,
            |_| panic!("the record of an unknown version is not read"),
            |_, _, _| panic!("the signature of an unknown version is not checked"),
        )
        .err()
        .unwrap();
        assert_eq!(err, LightString::Static(UNKNOWN_VERSION));
        assert_eq!(err.as_str(), "未知的客户端身份数据版本!");
    }
}

#[test]
fn identity_open_gives_record_and_signature() {
    let id = ClientId::new(LightString::from_static("key-1"), NOW + 60);
    let text = id.seal(b"record", b"signature");
    let (record, signature) = ClientId::open(&text).unwrap();
    assert_eq!(&record[..], b"record");
    assert_eq!(&signature[..], b"signature");
    let text = id.seal(b"", b"");
    let (record, signature) = ClientId::open(&text).unwrap();
    assert_eq!(&record[..], b"");
    assert_eq!(&signature[..], b"");
}

#[test]
fn identity_known_token() {
    let id = ClientId::new(LightString::from_static("key-1"), 1_700_000_060);
    let text = id
        .encode(write_record, |_| Ok(vec![1, 2, 3, 4]))
        .unwrap();
    assert_eq!(
        text,
        "qLemRnDvtSbyAsJU9lqqsGVSqC6gAhco4BpJdPHFxWJTHK9McUyFOL7zdb3VZ5apY7dILV2za0IYJA0wQG"
    );
    assert_eq!(
        text,
        id.seal(
            b"{\"rsa_pub_key\":\"key-1\",\"expire_time\":1700000060}",
            &[1, 2, 3, 4]
        )
    );
}

#[test]
fn identity_not_a_token() {
    let err = ClientId::try_decode_at("not a token", NOW, read_record, check)
        .err()
        .unwrap();
    assert_eq!(err.as_str(), "invalid base62 character");
    let err = ClientId::try_decode_at("48", NOW, read_record, check)
        .err()
        .unwrap();
    assert_eq!(err, LightString::Static(INSUFFICIENT_DATA));
    // Version one, and a payload that announces more bytes than it has.
    let text = version_data::encode(1, b"\x09short").unwrap();
    let err = ClientId::try_decode_at(&text, NOW, read_record, check)
        .err()
        .unwrap();
    assert_eq!(err, LightString::Static(INSUFFICIENT_DATA));
    // Version one and no payload at all.
    let text = version_data::encode(1, b"").unwrap();
    let err = ClientId::open(&text).err().unwrap();
    assert_eq!(err, LightString::Static(INSUFFICIENT_DATA));
}

#[test]
fn identity_unreadable_record() {
    let id = ClientId::new(LightString::from_static("key-1"), NOW + 60);
    let text = id.seal(b"{\"rsa_pub_key\":1}", b"sig");
    let err = ClientId::try_decode_at(&text, NOW, read_record, |_, _, _| {
        panic!("the signature of an unreadable record is not checked")
    })
    .err()
    .unwrap();
    assert_eq!(err, LightString::Static(RECORD_UNREADABLE));
    assert_eq!(err.as_str(), "反序列化客户端身份数据失败!");
}

#[test]
fn identity_check_error_is_passed_on() {
    let id = ClientId::new(LightString::from_static("key-2"), NOW + 60);
    let text = id.encode(write_record, sign).unwrap();
    let err = ClientId::try_decode_at(&text, NOW, read_record, check)
        .err()
        .unwrap();
    assert_eq!(err.as_str(), "unknown key");
}

#[test]
fn identity_check_is_given_key_record_and_signature() {
    let text = token(NOW + 60);
    let id = ClientId::try_decode_at(&text, NOW, read_record, |key, bytes, signature| {
        assert_eq!(key, "key-1");
        assert_eq!(
            bytes,
            format!("{{\"rsa_pub_key\":\"key-1\",\"expire_time\":{}}}", NOW + 60).as_bytes()
        );
        assert_eq!(signature, &sign(bytes)?[..]);
        Ok(true)
    })
    .unwrap();
    assert_eq!(id.expire_time(), NOW + 60);
}

#[test]
fn identity_encode_failures() {
    let id = ClientId::new(LightString::from_static("key-1"), NOW + 60);
    let err = id
        .encode(|_| None, |_| panic!("nothing to sign"))
        .unwrap_err();
    assert_eq!(err, LightString::Static(RECORD_UNWRITABLE));
    assert_eq!(err.as_str(), "序列化客户端身份数据失败!");
    let err = id
        .encode(write_record, |_| Err(LightString::from_static("no key")))
        .unwrap_err();
    assert_eq!(err.as_str(), "no key");
}

#[test]
fn identity_conclude() {
    let record = || ClientIdV1 {
        rsa_pub_key: LightString::from_static("k"),
        expire_time: 5,
    };
    assert!(ClientId::conclude(record(), Ok(true)).is_ok());
    assert_eq!(
        ClientId::conclude(record(), Ok(false)).err().unwrap(),
        LightString::Static(SIGNATURE_INVALID)
    );
    assert_eq!(
        ClientId::conclude(record(), Err(LightString::from_static("broken")))
            .err()
            .unwrap()
            .as_str(),
        "broken"
    );
}
