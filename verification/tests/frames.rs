use tihu::protocol::Decoder;
use tihu::protocol::FramedLayer;
use tihu::protocol::FramedState;
use tihu::protocol::Layer;

fn drain(decoder: &mut FramedState) -> Vec<Vec<u8>> {
    let mut frames = Vec::new();
    while let Some(frame) = decoder.next() {
        frames.push(frame.to_vec());
    }
    frames
}

fn encode_all(messages: &[&[u8]]) -> Vec<u8> {
    let mut buffer = Vec::new();
    for message in messages {
        FramedLayer::encode(&mut buffer, message);
    }
    buffer
}

#[test]
fn encode_writes_length_then_message() {
    let mut buffer = vec![0xaa];
    FramedLayer::encode(&mut buffer, b"hello");
    assert_eq!(buffer, b"\xaa\x05hello".to_vec());
    FramedLayer::encode(&mut buffer, b"");
    assert_eq!(buffer, b"\xaa\x05hello\x00".to_vec());
}

#[test]
fn new_decoder_has_no_frame() {
    let mut decoder = FramedState::new();
    assert!(decoder.next().is_none());
    let mut decoder = FramedLayer::new_decoder();
    assert!(decoder.next().is_none());
}

#[test]
fn decode_one_frame() {
    let mut decoder = FramedLayer::new_decoder();
    decoder.append(b"\x05hello");
    assert_eq!(decoder.next().unwrap().to_vec(), b"hello".to_vec());
    assert!(decoder.next().is_none());
}

#[test]
fn decode_waits_for_the_body() {
    let mut decoder = FramedLayer::new_decoder();
    decoder.append(b"\x05he");
    assert!(decoder.next().is_none());
    assert!(decoder.next().is_none());
    decoder.append(b"ll");
    assert!(decoder.next().is_none());
    decoder.append(b"o\x01");
    assert_eq!(decoder.next().unwrap().to_vec(), b"hello".to_vec());
    assert!(decoder.next().is_none());
    decoder.append(b"!");
    assert_eq!(decoder.next().unwrap().to_vec(), b"!".to_vec());
    assert!(decoder.next().is_none());
}

#[test]
fn decode_waits_for_the_header() {
    let message = vec![3u8; 300];
    let stream = encode_all(&[&message]);
    assert_eq!(&stream[..2], &[0xac, 0x02]);
    let mut decoder = FramedLayer::new_decoder();
    decoder.append(&stream[..1]);
    assert!(decoder.next().is_none());
    decoder.append(&stream[1..]);
    assert_eq!(decoder.next().unwrap().to_vec(), message);
    assert!(decoder.next().is_none());
}

#[test]
fn zero_length_frame_is_an_empty_frame() {
    let mut decoder = FramedLayer::new_decoder();
    decoder.append(b"\x00\x01A\x00");
    assert_eq!(decoder.next().unwrap().to_vec(), Vec::<u8>::new());
    assert_eq!(decoder.next().unwrap().to_vec(), b"A".to_vec());
    assert_eq!(decoder.next().unwrap().to_vec(), Vec::<u8>::new());
    assert!(decoder.next().is_none());
}

#[test]
fn frames_round_trip() {
    let long = vec![0x5au8; 1000];
    let messages: [&[u8]; 5] = [b"a", b"", &long, b"\x00\x80\xff", b"end"];
    let stream = encode_all(&messages);
    let mut decoder = FramedLayer::new_decoder();
    decoder.append(&stream);
    let frames = drain(&mut decoder);
    assert_eq!(frames.len(), 5);
    for (frame, message) in frames.iter().zip(messages.iter()) {
        assert_eq!(&frame[..], *message);
    }
}

#[test]
fn streaming_in_pieces_gives_the_same_frames() {
    let long = vec![0x11u8; 200];
    let messages: [&[u8]; 6] = [b"first", b"", &long, b"x", b"", b"last one"];
    let stream = encode_all(&messages);

    let mut whole = FramedLayer::new_decoder();
    whole.append(&stream);
    let expected = drain(&mut whole);
    assert_eq!(expected.len(), 6);

    for piece in [1usize, 2, 3, 5, 7, 64, 199, 200, 201, 1000] {
        let mut decoder = FramedLayer::new_decoder();
        let mut frames = Vec::new();
        for part in stream.chunks(piece) {
            decoder.append(part);
            frames.extend(drain(&mut decoder));
        }
        assert_eq!(frames, expected);
    }
}

#[test]
fn streaming_with_empty_pieces() {
    let stream = encode_all(&[b"ab", b"cd"]);
    let mut decoder = FramedLayer::new_decoder();
    let mut frames = Vec::new();
    for part in [&stream[..0], &stream[..4], &stream[4..4], &stream[4..]] {
        decoder.append(part);
        frames.extend(drain(&mut decoder));
    }
    assert_eq!(frames, vec![b"ab".to_vec(), b"cd".to_vec()]);
}

#[test]
fn malformed_header_never_gives_a_frame() {
    let mut decoder = FramedLayer::new_decoder();
    decoder.append(&[0xff; 10]);
    assert!(decoder.next().is_none());
    decoder.append(b"\x01a");
    assert!(decoder.next().is_none());
}
