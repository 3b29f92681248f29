use tihu::varint::decode_size;
use tihu::varint::encode_size;

fn encoded(len: usize) -> Vec<u8> {
    let message = vec![0u8; len];
    let mut buf = [0u8; 10];
    let out = encode_size(&message, &mut buf).to_vec();
    // A buffer with other contents gives the same bytes.
    let mut other = [0xeeu8; 10];
    assert_eq!(encode_size(&message, &mut other), &out[..]);
    out
}

#[test]
fn encode_size_small_values() {
    assert_eq!(encoded(0), vec![0x00]);
    assert_eq!(encoded(1), vec![0x01]);
    assert_eq!(encoded(127), vec![0x7f]);
    assert_eq!(encoded(128), vec![0x80, 0x01]);
    assert_eq!(encoded(300), vec![0xac, 0x02]);
    assert_eq!(encoded(16384), vec![0x80, 0x80, 0x01]);
}

#[test]
fn encode_size_leaves_rest_of_buffer() {
    let mut buf = [0x55u8; 10];
    let message = vec![0u8; 300];
    let len = encode_size(&message, &mut buf).len();
    assert_eq!(len, 2);
    assert_eq!(buf, [0xac, 0x02, 0x55, 0x55, 0x55, 0x55, 0x55, 0x55, 0x55, 0x55]);
}

#[test]
fn varint_boundary_values_round_trip() {
    assert_eq!(decode_size(&[0x00]), Some((0, 1)));
    assert_eq!(decode_size(&[0x7f]), Some((127, 1)));
    assert_eq!(decode_size(&[0x80, 0x01]), Some((128, 2)));
    assert_eq!(
        decode_size(&[0xff, 0xff, 0xff, 0xff, 0x0f]),
        Some((4294967295, 5))
    );
    assert_eq!(
        decode_size(&[0xff, 0xff, 0xff, 0xff, 0xff, 0xff, 0xff, 0xff, 0xff, 0x01]),
        Some((u64::MAX as usize, 10))
    );
    for len in [0usize, 1, 127, 128, 129, 255, 256, 16383, 16384, 65535] {
        let bytes = encoded(len);
        assert_eq!(decode_size(&bytes), Some((len, bytes.len())));
    }
}

#[test]
fn varint_truncated_is_not_enough() {
    assert_eq!(decode_size(&[]), None);
    assert_eq!(decode_size(&[0x80]), None);
    assert_eq!(decode_size(&[0xff, 0xff, 0xff, 0xff]), None);
    assert_eq!(
        decode_size(&[0xff, 0xff, 0xff, 0xff, 0xff, 0xff, 0xff, 0xff, 0xff]),
        None
    );
    for len in [128usize, 300, 16384, 65535] {
        let mut bytes = encoded(len);
        bytes.pop();
        assert_eq!(decode_size(&bytes), None);
    }
}

#[test]
fn varint_ignores_what_follows() {
    assert_eq!(decode_size(&[0x05, 0xff, 0xff]), Some((5, 1)));
    assert_eq!(decode_size(&[0xac, 0x02, 0x80]), Some((300, 2)));
}

#[test]
fn varint_tenth_byte_holds_one_bit() {
    let mut bytes = vec![0x80u8; 9];
    bytes.push(0x01);
    assert_eq!(decode_size(&bytes), Some((1usize << 63, 10)));
    let mut bytes = vec![0x80u8; 9];
    bytes.push(0x02);
    assert_eq!(decode_size(&bytes), None);
    let mut bytes = vec![0xffu8; 10];
    bytes.push(0x01);
    assert_eq!(decode_size(&bytes), None);
}

#[test]
fn varint_overlong_zero_is_read() {
    assert_eq!(decode_size(&[0x80, 0x00]), Some((0, 2)));
}
