//! The versioned envelope: a payload behind the eight bytes of its format
//! version, as text of digits and letters.

use crate::base62;
use crate::base62::decode_spec;
use crate::base62::encode_spec;
use crate::base62::lemma_decode_encode;
use crate::base62::INVALID_CHARACTER;
use crate::buffer::bytes_from_vec;
use crate::buffer::bytes_view;
use crate::encoder::INSUFFICIENT_DATA;
use crate::protocol::be_value;
use crate::protocol::read_be_u64;
use crate::shared_string::SharedString;
use bytes::Bytes;
use vstd::prelude::*;
use vstd::utf8::encode_utf8;

verus! {

/// The `len` bytes that stand for a number, most significant byte first.
pub open spec fn be_bytes(n: nat, len: nat) -> Seq<u8>
    decreases len,
{
    if len == 0 {
        Seq::empty()
    } else {
        be_bytes(n / 256, (len - 1) as nat).push((n % 256) as u8)
    }
}

/// The bytes that the text of an envelope stands for: the version, then
/// the payload.
pub open spec fn envelope_bytes(version: u64, payload: Seq<u8>) -> Seq<u8> {
    be_bytes(version as nat, 8) + payload
}

/// The text of an envelope, as its bytes.
pub open spec fn envelope_text(version: u64, payload: Seq<u8>) -> Seq<u8> {
    encode_spec(envelope_bytes(version, payload))
}

/// The version and the payload of the envelope that a text holds. It holds
/// none where a character is no digit of base 62, or where it stands for
/// fewer than eight bytes.
pub open spec fn envelope_parts(text: Seq<u8>) -> Result<(u64, Seq<u8>), SharedString> {
    match decode_spec(text) {
        None => Err(SharedString::Static(INVALID_CHARACTER)),
        Some(bytes) => if bytes.len() < 8 {
            Err(SharedString::Static(INSUFFICIENT_DATA))
        } else {
            Ok((be_value(bytes.take(8)) as u64, bytes.skip(8)))
        },
    }
}

/// `u64::to_be_bytes`: the eight bytes of the number, most significant
/// first.
#[verifier::external_body]
fn u64_to_be_bytes(value: u64) -> (r: [u8; 8])
    ensures
        r@ == be_bytes(value as nat, 8),
{
    value.to_be_bytes()
}

/// Reads the envelope that a text holds.
pub fn try_decode(data: &str) -> (r: Result<(u64, Bytes), SharedString>)
    ensures
        match envelope_parts(encode_utf8(data@)) {
            Ok((version, payload)) => r is Ok && r->Ok_0.0 == version && bytes_view(r->Ok_0.1)
                == payload,
            Err(err) => r == Err::<(u64, Bytes), SharedString>(err),
        },
{
    let bytes = match base62::decode(data) {
        Ok(bytes) => bytes,
        Err(err) => {
            return Err(err);
        },
    };
    match read_be_u64(bytes_from_vec(bytes)) {
        Ok(parts) => Ok(parts),
        Err(err) => Err(SharedString::from(err)),
    }
}

/// Writes an envelope as text.
pub fn encode(version: u64, data: &[u8]) -> (r: Result<String, SharedString>)
    ensures
        r is Ok,
        encode_utf8(r->Ok_0@) == envelope_text(version, data@),
{
    let head = u64_to_be_bytes(version);
    let mut chunk: Vec<u8> = Vec::new();
    chunk.extend_from_slice(head.as_slice());
    chunk.extend_from_slice(data);
    assert(chunk@ =~= head@ + data@);
    Ok(base62::encode(chunk.as_slice()))
}

/// The most that `len` bytes can stand for, and one more.
pub open spec fn be_room(len: nat) -> nat
    decreases len,
{
    if len == 0 {
        1
    } else {
        256 * be_room((len - 1) as nat)
    }
}

/// The bytes of a number that fits in them stand for that number.
pub proof fn lemma_be_value_of_bytes(n: nat, len: nat)
    requires
        n < be_room(len),
    ensures
        be_bytes(n, len).len() == len,
        be_value(be_bytes(n, len)) == n,
    decreases len,
{
    if len > 0 {
        lemma_be_value_of_bytes(n / 256, (len - 1) as nat);
        assert(be_bytes(n, len).drop_last() =~= be_bytes(n / 256, (len - 1) as nat));
    }
}

/// Reading an envelope undoes writing it: the text of an envelope holds
/// its version and its payload.
pub proof fn lemma_envelope_round_trip(version: u64, payload: Seq<u8>)
    ensures
        envelope_parts(envelope_text(version, payload)) == Ok::<(u64, Seq<u8>), SharedString>(
            (version, payload),
        ),
{
    let bytes = envelope_bytes(version, payload);
    lemma_decode_encode(bytes);
    reveal_with_fuel(be_room, 9);
    lemma_be_value_of_bytes(version as nat, 8);
    assert(bytes.take(8) =~= be_bytes(version as nat, 8));
    assert(bytes.skip(8) =~= payload);
}

} // verus!
