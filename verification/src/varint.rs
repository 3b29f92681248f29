//! Unsigned base-128 variable-length integers, least significant group first.
//!
//! Every byte carries seven bits of the number; its top bit says that another
//! byte follows. A 64-bit number takes at most ten bytes, and the tenth can
//! only hold the one bit that is left.

use integer_encoding::VarInt;
use vstd::prelude::*;

verus! {

/// The most bytes that the encoding of a 64-bit number takes.
pub const MAX_ENCODED_SIZE: usize = 10;

/// The encoding of `n`.
pub open spec fn varint_bytes(n: nat) -> Seq<u8>
    decreases n,
{
    if n < 128 {
        seq![n as u8]
    } else {
        seq![(n % 128 + 128) as u8] + varint_bytes(n / 128)
    }
}

/// Reads one number from the front of `src`, whose first byte is byte number
/// `pos` of the encoding: the number, and how many bytes of `src` it took.
/// `None` where `src` ends before the last byte of the number, or where the
/// tenth byte holds more than the one bit that still fits.
pub open spec fn varint_decode_from(src: Seq<u8>, pos: nat) -> Option<(nat, nat)>
    decreases src.len(),
{
    if src.len() == 0 {
        None
    } else if pos >= 9 {
        if src[0] < 2 {
            Some((src[0] as nat, 1nat))
        } else {
            None
        }
    } else if src[0] < 128 {
        Some((src[0] as nat, 1nat))
    } else {
        match varint_decode_from(src.skip(1), pos + 1) {
            Some((v, k)) => Some(((src[0] - 128 + 128 * v) as nat, k + 1)),
            None => None,
        }
    }
}

/// Reads one number from the front of `src`.
pub open spec fn varint_decode(src: Seq<u8>) -> Option<(nat, nat)> {
    varint_decode_from(src, 0)
}

/// What `usize::decode_var` of `integer_encoding` returns: it reads a 64-bit
/// number as `varint_decode` does and gives it up where it does not fit in a
/// `usize`.
#[verifier::external_body]
pub(crate) fn decode_var(src: &[u8]) -> (r: Option<(usize, usize)>)
    ensures
        r == match varint_decode(src@) {
            Some((v, k)) => if v <= usize::MAX {
                Some((v as usize, k as usize))
            } else {
                None
            },
            None => None,
        },
{
    usize::decode_var(src)
}

/// What `usize::encode_var` of `integer_encoding` does on a buffer of ten
/// bytes: it writes the encoding of `value` at the front, leaves the bytes
/// behind it as they were, and returns the length of the encoding.
#[verifier::external_body]
pub(crate) fn encode_var(value: usize, dst: &mut [u8; 10]) -> (n: usize)
    ensures
        n == varint_bytes(value as nat).len(),
        n <= 10,
        final(dst)@.subrange(0, n as int) == varint_bytes(value as nat),
        final(dst)@.subrange(n as int, 10) == old(dst)@.subrange(n as int, 10),
{
    value.encode_var(dst)
}

/// Reads a length from the front of `src`: a number that fits in a `usize`.
pub open spec fn size_decode(src: Seq<u8>) -> Option<(nat, nat)> {
    match varint_decode(src) {
        Some((v, k)) => if v <= usize::MAX {
            Some((v, k))
        } else {
            None
        },
        None => None,
    }
}

/// Writes the encoding of the length of `message` at the front of `buf` and
/// returns that part of `buf`.
pub fn encode_size<'a>(message: &[u8], buf: &'a mut [u8; MAX_ENCODED_SIZE]) -> (r: &'a [u8])
    ensures
        r@ == varint_bytes(message@.len()),
        1 <= r@.len() <= MAX_ENCODED_SIZE,
        final(buf)@.subrange(0, r@.len() as int) == r@,
        final(buf)@.subrange(r@.len() as int, 10) == old(buf)@.subrange(r@.len() as int, 10),
{
    let varint_size = encode_var(message.len(), buf);
    proof {
        lemma_varint_bytes_len(message@.len(), 0);
    }
    vstd::slice::slice_subrange(buf.as_slice(), 0, varint_size)
}

/// Reads a length from the front of `src`, and says how many bytes it took.
pub fn decode_size(src: &[u8]) -> (r: Option<(usize, usize)>)
    ensures
        match size_decode(src@) {
            Some((v, k)) => r == Some((v as usize, k as usize)) && 1 <= k <= src@.len() && k
                <= MAX_ENCODED_SIZE,
            None => r is None,
        },
{
    proof {
        if varint_decode(src@) is Some {
            lemma_decode_extends(src@, 0, Seq::empty());
        }
    }
    decode_var(src)
}

/// The numbers that can still follow when `pos` bytes of an encoding of a
/// 64-bit number have been written: those below this bound.
pub open spec fn varint_room(pos: nat) -> nat {
    if pos == 0 {
        0x1_0000_0000_0000_0000
    } else if pos == 1 {
        0x200_0000_0000_0000
    } else if pos == 2 {
        0x4_0000_0000_0000
    } else if pos == 3 {
        0x800_0000_0000
    } else if pos == 4 {
        0x10_0000_0000
    } else if pos == 5 {
        0x2000_0000
    } else if pos == 6 {
        0x40_0000
    } else if pos == 7 {
        0x8000
    } else if pos == 8 {
        0x100
    } else if pos == 9 {
        2
    } else {
        0
    }
}

/// An encoding is never empty, and that of a 64-bit number has at most ten
/// bytes.
pub proof fn lemma_varint_bytes_len(n: nat, pos: nat)
    requires
        n < varint_room(pos),
    ensures
        1 <= varint_bytes(n).len(),
        varint_bytes(n).len() + pos <= 10,
    decreases n,
{
    if n >= 128 {
        lemma_varint_bytes_len(n / 128, pos + 1);
    }
}

/// Decoding undoes encoding: the encoding of a 64-bit number `n`, whatever
/// follows it, is read back as `n`, and exactly its bytes are taken.
pub proof fn lemma_varint_round_trip(n: nat, rest: Seq<u8>)
    requires
        n <= u64::MAX,
    ensures
        varint_decode(varint_bytes(n) + rest) == Some((n, varint_bytes(n).len())),
{
    lemma_round_trip_from(n, 0, rest);
}

proof fn lemma_round_trip_from(n: nat, pos: nat, rest: Seq<u8>)
    requires
        n < varint_room(pos),
    ensures
        varint_decode_from(varint_bytes(n) + rest, pos) == Some((n, varint_bytes(n).len())),
    decreases n,
{
    let src = varint_bytes(n) + rest;
    if n >= 128 {
        lemma_round_trip_from(n / 128, pos + 1, rest);
        assert(src.skip(1) =~= varint_bytes(n / 128) + rest);
    }
}

/// Reading a length undoes writing it: the encoding of a length that fits
/// in a `usize`, whatever follows it, is read back as that length, and
/// exactly its bytes are taken.
pub proof fn lemma_size_round_trip(n: nat, rest: Seq<u8>)
    requires
        n <= usize::MAX,
    ensures
        size_decode(varint_bytes(n) + rest) == Some((n, varint_bytes(n).len())),
{
    lemma_varint_round_trip(n, rest);
}

/// An encoding that lost bytes at its end is not read as a number: every
/// proper prefix of the encoding of a 64-bit number decodes to `None`.
pub proof fn lemma_varint_truncated(n: nat, len: int)
    requires
        n <= u64::MAX,
        0 <= len < varint_bytes(n).len(),
    ensures
        varint_decode(varint_bytes(n).take(len)) is None,
{
    lemma_truncated_from(n, 0, len);
}

proof fn lemma_truncated_from(n: nat, pos: nat, len: int)
    requires
        n < varint_room(pos),
        0 <= len < varint_bytes(n).len(),
    ensures
        varint_decode_from(varint_bytes(n).take(len), pos) is None,
    decreases n,
{
    let src = varint_bytes(n).take(len);
    if len > 0 {
        lemma_truncated_from(n / 128, pos + 1, len - 1);
        assert(src.skip(1) =~= varint_bytes(n / 128).take(len - 1));
    }
}

/// What was read from a buffer is read from every extension of it: the
/// bytes that follow a number do not change it. A number takes at least one
/// byte, and none beyond the tenth.
pub proof fn lemma_decode_extends(src: Seq<u8>, pos: nat, more: Seq<u8>)
    requires
        varint_decode_from(src, pos) is Some,
        pos <= 9,
    ensures
        varint_decode_from(src + more, pos) == varint_decode_from(src, pos),
        1 <= varint_decode_from(src, pos)->Some_0.1 <= src.len(),
        varint_decode_from(src, pos)->Some_0.1 + pos <= 10,
        varint_decode_from(src, pos)->Some_0.0 < varint_room(pos),
    decreases src.len(),
{
    if pos < 9 && src[0] >= 128 {
        lemma_decode_extends(src.skip(1), pos + 1, more);
        assert((src + more).skip(1) =~= src.skip(1) + more);
    }
}

} // verus!
