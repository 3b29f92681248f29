//! Reading fixed-size values from the front of a buffer, and frames over a
//! byte stream: each frame is its length and then that many bytes.

use crate::buffer::bytes_as_slice;
use crate::buffer::bytes_mut_as_slice;
use crate::buffer::bytes_mut_view;
use crate::buffer::bytes_view;
use crate::encoder::INSUFFICIENT_DATA;
use crate::light_string::LightString;
use crate::varint::decode_size;
use crate::varint::encode_size;
use crate::varint::lemma_decode_extends;
use crate::varint::lemma_varint_round_trip;
use crate::varint::size_decode;
use crate::varint::varint_bytes;
use crate::varint::varint_decode;
use crate::varint::MAX_ENCODED_SIZE;
use bytes::Bytes;
use bytes::BytesMut;
use vstd::prelude::*;

verus! {

/// The number that the bytes stand for, most significant byte first.
pub open spec fn be_value(bytes: Seq<u8>) -> nat
    decreases bytes.len(),
{
    if bytes.len() == 0 {
        0
    } else {
        be_value(bytes.drop_last()) * 256 + bytes.last() as nat
    }
}

/// The number that eight bytes stand for in two's complement.
pub open spec fn be_signed_64(bytes: Seq<u8>) -> int {
    if be_value(bytes) >= 0x8000_0000_0000_0000 {
        be_value(bytes) - 0x1_0000_0000_0000_0000
    } else {
        be_value(bytes) as int
    }
}

/// The number that sixteen bytes stand for in two's complement.
pub open spec fn be_signed_128(bytes: Seq<u8>) -> int {
    if be_value(bytes) >= 0x8000_0000_0000_0000_0000_0000_0000_0000 {
        be_value(bytes) - 0x1_0000_0000_0000_0000 * 0x1_0000_0000_0000_0000
    } else {
        be_value(bytes) as int
    }
}

/// `copy_from_slice` on a new array: an array of the bytes of a slice of the
/// same length. It panics where the lengths differ.
#[verifier::external_body]
fn array_from_slice<const N: usize>(src: &[u8]) -> (r: [u8; N])
    requires
        src@.len() == N,
    ensures
        r@ == src@,
{
    let mut output = [0;N];
    output.copy_from_slice(src);
    output
}

/// `u64::from_be_bytes`: the number whose big-endian form the bytes are.
#[verifier::external_body]
fn u64_from_be_bytes(bytes: [u8; 8]) -> (r: u64)
    ensures
        r == be_value(bytes@),
{
    u64::from_be_bytes(bytes)
}

/// `i64::from_be_bytes`: the number whose big-endian two's complement form
/// the bytes are.
#[verifier::external_body]
fn i64_from_be_bytes(bytes: [u8; 8]) -> (r: i64)
    ensures
        r == be_signed_64(bytes@),
{
    i64::from_be_bytes(bytes)
}

/// `u128::from_be_bytes`: the number whose big-endian form the bytes are.
#[verifier::external_body]
fn u128_from_be_bytes(bytes: [u8; 16]) -> (r: u128)
    ensures
        r == be_value(bytes@),
{
    u128::from_be_bytes(bytes)
}

/// `i128::from_be_bytes`: the number whose big-endian two's complement form
/// the bytes are.
#[verifier::external_body]
fn i128_from_be_bytes(bytes: [u8; 16]) -> (r: i128)
    ensures
        r == be_signed_128(bytes@),
{
    i128::from_be_bytes(bytes)
}

/// Takes the first `N` bytes off the buffer.
pub fn read_const_n<const N: usize>(input: Bytes) -> (r: Result<([u8; N], Bytes), LightString>)
    ensures
        bytes_view(input).len() < N ==> r == Err::<([u8; N], Bytes), LightString>(
            LightString::Static(INSUFFICIENT_DATA),
        ),
        bytes_view(input).len() >= N ==> r is Ok && r->Ok_0.0@ == bytes_view(input).take(N as int)
            && bytes_view(r->Ok_0.1) == bytes_view(input).skip(N as int),
{
    let mut head = input;
    if head.len() < N {
        Err(LightString::from_static(INSUFFICIENT_DATA))
    } else {
        let rest = head.split_off(N);
        let output = array_from_slice::<N>(bytes_as_slice(&head));
        Ok((output, rest))
    }
}

/// Takes the first `n` bytes off the buffer.
pub fn read_n(input: Bytes, n: usize) -> (r: Result<(Bytes, Bytes), LightString>)
    ensures
        bytes_view(input).len() < n ==> r == Err::<(Bytes, Bytes), LightString>(
            LightString::Static(INSUFFICIENT_DATA),
        ),
        bytes_view(input).len() >= n ==> r is Ok && bytes_view(r->Ok_0.0) == bytes_view(
            input,
        ).take(n as int) && bytes_view(r->Ok_0.1) == bytes_view(input).skip(n as int),
{
    let mut head = input;
    if head.len() < n {
        Err(LightString::from_static(INSUFFICIENT_DATA))
    } else {
        let rest = head.split_off(n);
        Ok((head, rest))
    }
}

/// Takes the first byte off the buffer.
pub fn read_u8(input: Bytes) -> (r: Result<(u8, Bytes), LightString>)
    ensures
        bytes_view(input).len() < 1 ==> r == Err::<(u8, Bytes), LightString>(
            LightString::Static(INSUFFICIENT_DATA),
        ),
        bytes_view(input).len() >= 1 ==> r is Ok && r->Ok_0.0 == bytes_view(input)[0]
            && bytes_view(r->Ok_0.1) == bytes_view(input).skip(1),
{
    let mut head = input;
    if head.len() < 1 {
        Err(LightString::from_static(INSUFFICIENT_DATA))
    } else {
        let rest = head.split_off(1);
        Ok((bytes_as_slice(&head)[0], rest))
    }
}

/// Takes a big-endian unsigned 128-bit number off the buffer.
pub fn read_be_u128(input: Bytes) -> (r: Result<(u128, Bytes), LightString>)
    ensures
        bytes_view(input).len() < 16 ==> r == Err::<(u128, Bytes), LightString>(
            LightString::Static(INSUFFICIENT_DATA),
        ),
        bytes_view(input).len() >= 16 ==> r is Ok && r->Ok_0.0 == be_value(
            bytes_view(input).take(16),
        ) && bytes_view(r->Ok_0.1) == bytes_view(input).skip(16),
{
    match read_const_n::<16>(input) {
        Ok((head, rest)) => Ok((u128_from_be_bytes(head), rest)),
        Err(err) => Err(err),
    }
}

/// Takes a big-endian signed 128-bit number off the buffer.
pub fn read_be_i128(input: Bytes) -> (r: Result<(i128, Bytes), LightString>)
    ensures
        bytes_view(input).len() < 16 ==> r == Err::<(i128, Bytes), LightString>(
            LightString::Static(INSUFFICIENT_DATA),
        ),
        bytes_view(input).len() >= 16 ==> r is Ok && r->Ok_0.0 == be_signed_128(
            bytes_view(input).take(16),
        ) && bytes_view(r->Ok_0.1) == bytes_view(input).skip(16),
{
    match read_const_n::<16>(input) {
        Ok((head, rest)) => Ok((i128_from_be_bytes(head), rest)),
        Err(err) => Err(err),
    }
}

/// Takes a big-endian unsigned 64-bit number off the buffer.
pub fn read_be_u64(input: Bytes) -> (r: Result<(u64, Bytes), LightString>)
    ensures
        bytes_view(input).len() < 8 ==> r == Err::<(u64, Bytes), LightString>(
            LightString::Static(INSUFFICIENT_DATA),
        ),
        bytes_view(input).len() >= 8 ==> r is Ok && r->Ok_0.0 == be_value(
            bytes_view(input).take(8),
        ) && bytes_view(r->Ok_0.1) == bytes_view(input).skip(8),
{
    match read_const_n::<8>(input) {
        Ok((head, rest)) => Ok((u64_from_be_bytes(head), rest)),
        Err(err) => Err(err),
    }
}

/// Takes a big-endian signed 64-bit number off the buffer.
pub fn read_be_i64(input: Bytes) -> (r: Result<(i64, Bytes), LightString>)
    ensures
        bytes_view(input).len() < 8 ==> r == Err::<(i64, Bytes), LightString>(
            LightString::Static(INSUFFICIENT_DATA),
        ),
        bytes_view(input).len() >= 8 ==> r is Ok && r->Ok_0.0 == be_signed_64(
            bytes_view(input).take(8),
        ) && bytes_view(r->Ok_0.1) == bytes_view(input).skip(8),
{
    match read_const_n::<8>(input) {
        Ok((head, rest)) => Ok((i64_from_be_bytes(head), rest)),
        Err(err) => Err(err),
    }
}

/// What a frame decoder knows: the length of the frame whose header was read
/// and whose body has not fully arrived, and the bytes that have arrived and
/// were not consumed.
pub struct DecoderState {
    pub pending: Option<nat>,
    pub buffer: Seq<u8>,
}

/// The bytes of one frame: the length of the message, then the message.
pub open spec fn frame_bytes(message: Seq<u8>) -> Seq<u8> {
    varint_bytes(message.len()) + message
}

/// The bytes of the frames of the given messages, one behind the other.
pub open spec fn frames_bytes(messages: Seq<Seq<u8>>) -> Seq<u8>
    decreases messages.len(),
{
    if messages.len() == 0 {
        Seq::empty()
    } else {
        frame_bytes(messages[0]) + frames_bytes(messages.skip(1))
    }
}

/// The state after more bytes have arrived.
pub open spec fn append_bytes(state: DecoderState, extend: Seq<u8>) -> DecoderState {
    DecoderState { pending: state.pending, buffer: state.buffer + extend }
}

/// The bytes of a frame that a call returned, if it returned one.
pub open spec fn frame_view(frame: Option<Bytes>) -> Option<Seq<u8>> {
    match frame {
        Some(bytes) => Some(bytes_view(bytes)),
        None => None,
    }
}

/// The state of a decoder that has seen no bytes.
pub open spec fn initial_state() -> DecoderState {
    DecoderState { pending: None, buffer: Seq::empty() }
}

/// Turns the bytes of a stream, as they arrive, into frames.
pub trait Decoder {
    /// What the decoder knows.
    spec fn state(&self) -> DecoderState;

    /// One call for the next frame: what it returns, and the state that it
    /// leaves.
    spec fn step(state: DecoderState) -> (Option<Seq<u8>>, DecoderState);

    /// The next complete frame, if the bytes for it have arrived.
    fn next(&mut self) -> (r: Option<Bytes>)
        ensures
            frame_view(r) == Self::step(old(self).state()).0,
            final(self).state() == Self::step(old(self).state()).1,
    ;

    /// Takes in bytes that have arrived, behind those that it holds.
    fn append(&mut self, extend: &[u8])
        ensures
            final(self).state() == append_bytes(old(self).state(), extend@),
    ;
}

/// A way of framing messages: how they are written, and the decoder that
/// reads them back.
pub trait Layer {
    type Decoder: Decoder;

    /// The bytes of the frame of a message.
    spec fn frame(message: Seq<u8>) -> Seq<u8>;

    /// Reading undoes writing: from the bytes of a frame, whatever follows
    /// them, one call of the decoder gives the message back and leaves what
    /// follows.
    proof fn lemma_round_trip(message: Seq<u8>, rest: Seq<u8>)
        requires
            message.len() <= usize::MAX,
        ensures
            <Self::Decoder as Decoder>::step(
                DecoderState { pending: None, buffer: Self::frame(message) + rest },
            ) == (Some(message), DecoderState { pending: None, buffer: rest }),
    ;

    /// A decoder that has seen no bytes.
    fn new_decoder() -> (r: Self::Decoder)
        ensures
            r.state() == initial_state(),
    ;

    /// Writes the frame of one message behind what `buffer` holds.
    fn encode(buffer: &mut Vec<u8>, message: &[u8])
        ensures
            final(buffer)@ == old(buffer)@ + Self::frame(message@),
    ;
}

/// With the header read: the frame of `len` bytes if that many have
/// arrived, and the state after it was taken; else nothing, and the length
/// is kept.
pub open spec fn take_body(len: nat, buffer: Seq<u8>) -> (Option<Seq<u8>>, DecoderState) {
    if len <= buffer.len() {
        (
            Some(buffer.take(len as int)),
            DecoderState { pending: None, buffer: buffer.skip(len as int) },
        )
    } else {
        (None, DecoderState { pending: Some(len), buffer })
    }
}

/// One call for the next frame: what it returns and the state it leaves. A
/// header is read where none is pending; a header that cannot be read yet
/// leaves the state as it is. A length of zero gives an empty frame.
pub open spec fn step(state: DecoderState) -> (Option<Seq<u8>>, DecoderState) {
    match state.pending {
        Some(len) => take_body(len, state.buffer),
        None => match size_decode(state.buffer) {
            Some((len, cost)) => take_body(len, state.buffer.skip(cost as int)),
            None => (None, state),
        },
    }
}

/// A header takes at least one byte, and none but bytes that have arrived.
pub proof fn lemma_header_cost(buffer: Seq<u8>)
    requires
        size_decode(buffer) is Some,
    ensures
        1 <= size_decode(buffer)->Some_0.1 <= buffer.len(),
{
    lemma_decode_extends(buffer, 0, Seq::empty());
}

/// A call that returns a frame leaves less to do.
pub proof fn lemma_frame_consumes(state: DecoderState)
    ensures
        step(state).0 is Some ==> work_left(step(state).1) < work_left(state),
{
    if state.pending is None && size_decode(state.buffer) is Some {
        lemma_header_cost(state.buffer);
    }
}

/// What bounds the calls that still return a frame.
pub open spec fn work_left(state: DecoderState) -> nat {
    2 * state.buffer.len() + if state.pending is Some {
        1nat
    } else {
        0nat
    }
}

/// All the frames that repeated calls return until one returns nothing, and
/// the state then.
pub open spec fn drain(state: DecoderState) -> (Seq<Seq<u8>>, DecoderState)
    decreases work_left(state),
{
    match step(state).0 {
        Some(frame) => {
            proof {
                lemma_frame_consumes(state);
            }
            let (frames, end) = drain(step(state).1);
            (seq![frame] + frames, end)
        },
        None => (Seq::empty(), step(state).1),
    }
}

/// The frames that come out when the pieces arrive one after the other and
/// the decoder is drained after each, and the state at the end.
pub open spec fn feed(state: DecoderState, pieces: Seq<Seq<u8>>) -> (Seq<Seq<u8>>, DecoderState)
    decreases pieces.len(),
{
    if pieces.len() == 0 {
        drain(state)
    } else {
        let (first, middle) = drain(append_bytes(state, pieces[0]));
        let (others, end) = feed(middle, pieces.skip(1));
        (first + others, end)
    }
}

/// The pieces put together.
pub open spec fn joined(pieces: Seq<Seq<u8>>) -> Seq<u8>
    decreases pieces.len(),
{
    if pieces.len() == 0 {
        Seq::empty()
    } else {
        pieces[0] + joined(pieces.skip(1))
    }
}

/// Frames of a length and that many bytes, the length as a variable-length
/// integer.
pub struct FramedLayer {}

/// The decoder for the frames of `FramedLayer`.
pub struct FramedState {
    next_len: Option<usize>,
    data: BytesMut,
}

impl View for FramedState {
    type V = DecoderState;

    closed spec fn view(&self) -> DecoderState {
        DecoderState {
            pending: match self.next_len {
                Some(len) => Some(len as nat),
                None => None,
            },
            buffer: bytes_mut_view(self.data),
        }
    }
}

impl FramedState {
    /// A decoder that has seen no bytes.
    pub fn new() -> (r: FramedState)
        ensures
            r@ == initial_state(),
    {
        FramedState { next_len: None, data: BytesMut::new() }
    }
}

impl Decoder for FramedState {
    open spec fn state(&self) -> DecoderState {
        self@
    }

    open spec fn step(state: DecoderState) -> (Option<Seq<u8>>, DecoderState) {
        step(state)
    }

    fn next(&mut self) -> (r: Option<Bytes>) {
        loop
            invariant
                step(self@) == step(old(self)@),
            decreases
                    (if self.next_len is None {
                        1nat
                    } else {
                        0nat
                    }),
        {
            if let Some(next_len) = self.next_len {
                if next_len <= self.data.len() {
                    let next = self.data.split_to(next_len);
                    self.next_len = None;
                    return Some(next.freeze());
                } else {
                    return None;
                }
            } else {
                if let Some((next_len, cost)) = decode_size(bytes_mut_as_slice(&self.data)) {
                    let _ = self.data.split_to(cost);
                    self.next_len = Some(next_len);
                } else {
                    return None;
                }
            }
        }
    }

    fn append(&mut self, extend: &[u8]) {
        self.data.extend_from_slice(extend);
    }
}

impl Layer for FramedLayer {
    type Decoder = FramedState;

    open spec fn frame(message: Seq<u8>) -> Seq<u8> {
        frame_bytes(message)
    }

    proof fn lemma_round_trip(message: Seq<u8>, rest: Seq<u8>) {
        lemma_frame_round_trip(message, rest);
    }

    fn new_decoder() -> (r: FramedState) {
        FramedState::new()
    }

    fn encode(buffer: &mut Vec<u8>, message: &[u8]) {
        let mut buf = [0u8;MAX_ENCODED_SIZE];
        let size = encode_size(message, &mut buf);
        buffer.extend_from_slice(size);
        buffer.extend_from_slice(message);
        assert(buffer@ =~= old(buffer)@ + frame_bytes(message@));
    }
}

/// No byte is lost: what a call leaves in the buffer is the end of what
/// was there, and the frame that it returns stood right before that.
pub proof fn lemma_step_keeps_bytes(state: DecoderState)
    ensures
        step(state).1.buffer.len() <= state.buffer.len(),
        step(state).1.buffer == state.buffer.skip(
            state.buffer.len() - step(state).1.buffer.len(),
        ),
        step(state).0 is Some ==> step(state).0->Some_0.len() <= state.buffer.len() - step(
            state,
        ).1.buffer.len() && step(state).0->Some_0 == state.buffer.subrange(
            state.buffer.len() - step(state).1.buffer.len() - step(state).0->Some_0.len(),
            state.buffer.len() - step(state).1.buffer.len(),
        ),
{
    let left = step(state).1.buffer;
    let cut = state.buffer.len() - left.len();
    if state.pending is None && size_decode(state.buffer) is Some {
        lemma_header_cost(state.buffer);
    }
    assert(left =~= state.buffer.skip(cut));
    if step(state).0 is Some {
        let frame = step(state).0->Some_0;
        assert(frame =~= state.buffer.subrange(cut - frame.len(), cut));
    }
}

/// A call that returns nothing leaves a state from which the next call
/// returns nothing either, and changes no more.
pub proof fn lemma_step_settles(state: DecoderState)
    requires
        step(state).0 is None,
    ensures
        step(step(state).1) == (None::<Seq<u8>>, step(state).1),
{
}

/// A frame that is returned is returned whatever arrives later, and what
/// arrives later is kept behind the bytes that are left.
pub proof fn lemma_frame_stays(state: DecoderState, extend: Seq<u8>)
    requires
        step(state).0 is Some,
    ensures
        step(append_bytes(state, extend)) == (
            step(state).0,
            append_bytes(step(state).1, extend),
        ),
{
    let later = append_bytes(state, extend);
    match state.pending {
        Some(len) => {
            assert(later.buffer.take(len as int) =~= state.buffer.take(len as int));
            assert(later.buffer.skip(len as int) =~= state.buffer.skip(len as int) + extend);
        },
        None => {
            lemma_decode_extends(state.buffer, 0, extend);
            let (len, cost) = size_decode(state.buffer)->Some_0;
            let body = state.buffer.skip(cost as int);
            assert(later.buffer.skip(cost as int) =~= body + extend);
            assert((body + extend).take(len as int) =~= body.take(len as int));
            assert((body + extend).skip(len as int) =~= body.skip(len as int) + extend);
        },
    }
}

/// Where a call returns nothing, bytes that arrive before it and bytes that
/// arrive after it come to the same.
pub proof fn lemma_wait_commutes(state: DecoderState, extend: Seq<u8>)
    requires
        step(state).0 is None,
    ensures
        step(append_bytes(step(state).1, extend)) == step(append_bytes(state, extend)),
{
    if state.pending is None && size_decode(state.buffer) is Some {
        lemma_decode_extends(state.buffer, 0, extend);
        let (len, cost) = size_decode(state.buffer)->Some_0;
        assert((state.buffer + extend).skip(cost as int) =~= state.buffer.skip(cost as int)
            + extend);
    }
}

/// Draining, taking in more bytes and draining again gives the frames, and
/// leaves the state, of taking in the bytes at once and draining once.
pub proof fn lemma_drain_append(state: DecoderState, extend: Seq<u8>)
    ensures
        drain(append_bytes(state, extend)) == (
            drain(state).0 + drain(append_bytes(drain(state).1, extend)).0,
            drain(append_bytes(drain(state).1, extend)).1,
        ),
    decreases work_left(state),
{
    let later = append_bytes(state, extend);
    match step(state).0 {
        Some(frame) => {
            lemma_frame_consumes(state);
            lemma_frame_stays(state, extend);
            let next = step(state).1;
            lemma_drain_append(next, extend);
            let tail = drain(append_bytes(drain(next).1, extend));
            assert(seq![frame] + (drain(next).0 + tail.0) =~= (seq![frame] + drain(next).0)
                + tail.0);
        },
        None => {
            lemma_wait_commutes(state, extend);
            let waiting = append_bytes(step(state).1, extend);
            assert(step(waiting) == step(later));
            assert(drain(waiting) == drain(later)) by {
                if step(later).0 is Some {
                    lemma_frame_consumes(later);
                    lemma_frame_consumes(waiting);
                }
            }
            assert(Seq::<Seq<u8>>::empty() + drain(waiting).0 =~= drain(waiting).0);
        },
    }
}

/// However the bytes of a stream are cut into pieces, draining the decoder
/// after each piece gives the frames, and leaves the state, of taking in
/// all the bytes at once and draining then.
pub proof fn lemma_streaming(state: DecoderState, pieces: Seq<Seq<u8>>)
    ensures
        feed(state, pieces) == drain(append_bytes(state, joined(pieces))),
    decreases pieces.len(),
{
    if pieces.len() == 0 {
        assert(append_bytes(state, joined(pieces)).buffer =~= state.buffer);
        assert(append_bytes(state, joined(pieces)) == state);
    } else {
        let first = pieces[0];
        let others = joined(pieces.skip(1));
        let early = append_bytes(state, first);
        lemma_drain_append(early, others);
        lemma_streaming(drain(early).1, pieces.skip(1));
        assert(append_bytes(early, others).buffer =~= append_bytes(
            state,
            joined(pieces),
        ).buffer);
        assert(append_bytes(early, others) == append_bytes(state, joined(pieces)));
    }
}

/// Decoding undoes encoding: from the bytes of a frame, whatever follows
/// them, one call gives the message back and leaves what follows.
pub proof fn lemma_frame_round_trip(message: Seq<u8>, rest: Seq<u8>)
    requires
        message.len() <= usize::MAX,
    ensures
        step(DecoderState { pending: None, buffer: frame_bytes(message) + rest }) == (
            Some(message),
            DecoderState { pending: None, buffer: rest },
        ),
{
    let size = varint_bytes(message.len());
    let buffer = frame_bytes(message) + rest;
    lemma_varint_round_trip(message.len(), message + rest);
    assert(buffer =~= size + (message + rest));
    let body = buffer.skip(size.len() as int);
    assert(body =~= message + rest);
    assert(body.take(message.len() as int) =~= message);
    assert(body.skip(message.len() as int) =~= rest);
}

/// A decoder that has seen nothing, given the frames of some messages,
/// returns those messages in order and keeps no byte.
pub proof fn lemma_frames_round_trip(messages: Seq<Seq<u8>>)
    requires
        forall|i: int| 0 <= i < messages.len() ==> (#[trigger] messages[i]).len() <= usize::MAX,
    ensures
        drain(DecoderState { pending: None, buffer: frames_bytes(messages) }) == (
            messages,
            DecoderState { pending: None, buffer: Seq::empty() },
        ),
    decreases messages.len(),
{
    let start = DecoderState { pending: None, buffer: frames_bytes(messages) };
    if messages.len() == 0 {
        assert(varint_decode(Seq::<u8>::empty()) is None);
        assert(drain(start).0 =~= messages);
    } else {
        let rest = messages.skip(1);
        lemma_frame_round_trip(messages[0], frames_bytes(rest));
        lemma_frame_consumes(start);
        assert forall|i: int| 0 <= i < rest.len() implies (#[trigger] rest[i]).len()
            <= usize::MAX by {
            assert(rest[i] == messages[i + 1]);
        }
        lemma_frames_round_trip(rest);
        assert(seq![messages[0]] + rest =~= messages);
    }
}

/// However the frames of some messages are cut into pieces, a decoder that
/// has seen nothing and is drained after each piece returns those messages
/// in order, and keeps no byte.
pub proof fn lemma_streaming_frames(messages: Seq<Seq<u8>>, pieces: Seq<Seq<u8>>)
    requires
        forall|i: int| 0 <= i < messages.len() ==> (#[trigger] messages[i]).len() <= usize::MAX,
        joined(pieces) == frames_bytes(messages),
    ensures
        feed(initial_state(), pieces) == (messages, initial_state()),
{
    lemma_streaming(initial_state(), pieces);
    lemma_frames_round_trip(messages);
    assert(append_bytes(initial_state(), joined(pieces)).buffer =~= frames_bytes(messages));
}

} // verus!
