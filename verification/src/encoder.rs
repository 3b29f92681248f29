//! Packing of several byte fields into one buffer, and splitting them apart
//! again.
//!
//! Every field but the last is written behind its length; the last one is
//! whatever remains of the buffer.

use crate::buffer::bytes_as_slice;
use crate::buffer::bytes_view;
use crate::shared_string::SharedString;
use crate::tuple::TupleMany;
use crate::tuple::TupleManyStruct;
use crate::tuple::TupleManyTrait;
use crate::varint::decode_size;
use crate::varint::encode_size;
use crate::varint::lemma_varint_round_trip;
use crate::varint::size_decode;
use crate::varint::varint_bytes;
use crate::varint::MAX_ENCODED_SIZE;
use bytes::Bytes;
use vstd::prelude::*;

verus! {

/// The message of the error for a buffer that ends too early.
pub const INSUFFICIENT_DATA: &'static str = "输入数据长度不够";

/// The message of the error for a number of fields that is not the one asked
/// for.
pub const WRONG_FIELD_COUNT: &'static str = "数据元素个数不正确";

/// The fields as byte sequences.
pub open spec fn chunk_seqs(chunks: Seq<&[u8]>) -> Seq<Seq<u8>> {
    Seq::new(chunks.len(), |i: int| chunks[i]@)
}

/// The fields that the buffers of a list hold.
pub open spec fn bytes_views(chunks: Seq<Bytes>) -> Seq<Seq<u8>> {
    Seq::new(chunks.len(), |i: int| bytes_view(chunks[i]))
}

/// The first `count` fields, each behind its length.
pub open spec fn prefixed(chunks: Seq<Seq<u8>>, count: nat) -> Seq<u8>
    decreases count,
{
    if count == 0 || count > chunks.len() {
        Seq::empty()
    } else {
        prefixed(chunks, (count - 1) as nat) + varint_bytes(chunks[count - 1].len()) + chunks[count
            - 1]
    }
}

/// The buffer that holds the given fields: all but the last behind their
/// lengths, then the last one bare. No fields give an empty buffer.
pub open spec fn pack(chunks: Seq<Seq<u8>>) -> Seq<u8>
    decreases chunks.len(),
{
    if chunks.len() == 0 {
        Seq::empty()
    } else if chunks.len() == 1 {
        chunks[0]
    } else {
        varint_bytes(chunks[0].len()) + chunks[0] + pack(chunks.skip(1))
    }
}

/// Splits a buffer into `count` fields: `count - 1` times a length and that
/// many bytes, then all that remains. `None` where a length cannot be read
/// or more bytes are announced than are left. A `count` of zero is read as
/// one.
pub open spec fn unpack(buf: Seq<u8>, count: nat) -> Option<Seq<Seq<u8>>>
    decreases count,
{
    if count <= 1 {
        Some(seq![buf])
    } else {
        match size_decode(buf) {
            None => None,
            Some((size, cost)) => if buf.len() - cost < size {
                None
            } else {
                match unpack(buf.skip((cost + size) as int), (count - 1) as nat) {
                    None => None,
                    Some(rest) => Some(
                        seq![buf.subrange(cost as int, (cost + size) as int)] + rest,
                    ),
                }
            },
        }
    }
}

/// Packs the fields into one buffer, behind what `output` already holds.
/// Without fields the result is empty, whatever `output` holds.
pub fn encode_chunks(chunks: &[&[u8]], output: Option<Vec<u8>>) -> (r: Vec<u8>)
    ensures
        r@ == if chunks@.len() == 0 {
            Seq::<u8>::empty()
        } else {
            (match output {
                Some(v) => v@,
                None => Seq::<u8>::empty(),
            }) + pack(chunk_seqs(chunks@))
        },
{
    if chunks.len() == 0 {
        return Vec::new();
    }
    let count = chunks.len();
    let mut out = match output {
        Some(v) => v,
        None => Vec::new(),
    };
    let ghost start = out@;
    let ghost fields = chunk_seqs(chunks@);
    let mut buf = [0u8;MAX_ENCODED_SIZE];
    let mut index: usize = 0;
    while index < count
        invariant
            count == chunks@.len(),
            fields == chunk_seqs(chunks@),
            index <= count,
            index < count ==> out@ == start + prefixed(fields, index as nat),
            index == count ==> out@ == start + pack(fields),
        decreases count - index,
    {
        let chunk = chunks[index];
        assert(fields[index as int] == chunk@);
        if index + 1 < count {
            let size = encode_size(chunk, &mut buf);
            out.extend_from_slice(size);
            out.extend_from_slice(chunk);
            assert(out@ =~= start + prefixed(fields, (index + 1) as nat));
        } else {
            out.extend_from_slice(chunk);
            proof {
                lemma_pack_split(fields, index as nat);
                assert(fields.skip(index as int)[0] == chunk@);
                assert(out@ =~= start + pack(fields));
            }
        }
        index += 1;
    }
    out
}

/// A packed buffer is its first `count` fields, each behind its length, and
/// then the packing of the others.
pub proof fn lemma_pack_split(chunks: Seq<Seq<u8>>, count: nat)
    requires
        count < chunks.len(),
    ensures
        pack(chunks) == prefixed(chunks, count) + pack(chunks.skip(count as int)),
    decreases count,
{
    if count == 0 {
        assert(chunks.skip(0) =~= chunks);
        assert(pack(chunks) =~= prefixed(chunks, 0) + pack(chunks));
    } else {
        lemma_pack_split(chunks, (count - 1) as nat);
        let tail = chunks.skip(count - 1);
        assert(tail.skip(1) =~= chunks.skip(count as int));
        assert(tail[0] == chunks[count - 1]);
        assert(prefixed(chunks, (count - 1) as nat) + pack(tail) =~= prefixed(chunks, count)
            + pack(chunks.skip(count as int)));
    }
}

/// Splitting undoes packing: a buffer packed from one or more fields, split
/// into as many, gives those fields back.
pub proof fn lemma_unpack_pack(chunks: Seq<Seq<u8>>)
    requires
        chunks.len() >= 1,
        forall|i: int| 0 <= i < chunks.len() ==> (#[trigger] chunks[i]).len() <= usize::MAX,
    ensures
        unpack(pack(chunks), chunks.len()) == Some(chunks),
    decreases chunks.len(),
{
    if chunks.len() == 1 {
        assert(seq![chunks[0]] =~= chunks);
    } else {
        let head = chunks[0];
        let rest = chunks.skip(1);
        let size = varint_bytes(head.len());
        let buf = pack(chunks);
        assert(head.len() <= usize::MAX);
        lemma_varint_round_trip(head.len(), head + pack(rest));
        assert(buf =~= size + (head + pack(rest)));
        assert(size_decode(buf) == Some((head.len(), size.len())));
        assert(buf.skip((size.len() + head.len()) as int) =~= pack(rest));
        assert(buf.subrange(size.len() as int, (size.len() + head.len()) as int) =~= head);
        assert forall|i: int| 0 <= i < rest.len() implies (#[trigger] rest[i]).len()
            <= usize::MAX by {
            assert(rest[i] == chunks[i + 1]);
        }
        lemma_unpack_pack(rest);
        assert(seq![head] + rest =~= chunks);
    }
}

/// Splits a buffer into `count` fields, as `unpack` says.
pub fn split_chunks(chunk: Bytes, count: usize) -> (r: Result<Vec<Bytes>, SharedString>)
    ensures
        match unpack(bytes_view(chunk), count as nat) {
            Some(fields) => r is Ok && bytes_views(r->Ok_0@) == fields,
            None => r == Err::<Vec<Bytes>, SharedString>(SharedString::Static(INSUFFICIENT_DATA)),
        },
{
    let mut rest = chunk;
    let mut left = count;
    let mut chunks: Vec<Bytes> = Vec::new();
    while 1 < left
        invariant
            unpack(bytes_view(chunk), count as nat) == match unpack(bytes_view(rest), left as nat) {
                Some(fields) => Some(bytes_views(chunks@) + fields),
                None => None,
            },
        decreases left,
    {
        let ghost cur = bytes_view(rest);
        let (size, cost) = match decode_size(bytes_as_slice(&rest)) {
            Some(head) => head,
            None => {
                return Err(SharedString::from_static(INSUFFICIENT_DATA));
            },
        };
        let mut remain = rest.split_off(cost);
        if remain.len() < size {
            return Err(SharedString::from_static(INSUFFICIENT_DATA));
        } else {
            rest = remain.split_off(size);
            proof {
                assert(bytes_view(remain) =~= cur.subrange(cost as int, cost + size));
                assert(bytes_view(rest) =~= cur.skip(cost + size));
                let fields = unpack(bytes_view(rest), (left - 1) as nat);
                if fields is Some {
                    assert(bytes_views(chunks@.push(remain)) + fields->Some_0 =~= bytes_views(
                        chunks@,
                    ) + (seq![bytes_view(remain)] + fields->Some_0));
                }
            }
            chunks.push(remain);
            left -= 1;
        }
    }
    proof {
        assert(bytes_views(chunks@.push(rest)) =~= bytes_views(chunks@) + seq![bytes_view(rest)]);
    }
    chunks.push(rest);
    Ok(chunks)
}

/// Splits a buffer into the `N` fields of a tuple. The last field takes all
/// that remains, so no buffer has too many fields.
pub fn decode_chunks<const N: usize>(chunk: Bytes) -> (r: Result<TupleMany<N, Bytes>, SharedString>)
    where TupleManyStruct<N>: TupleManyTrait<Bytes>
    ensures
        match unpack(bytes_view(chunk), N as nat) {
            Some(fields) => if fields.len() == <TupleManyStruct<N> as TupleManyTrait<
                Bytes,
            >>::arity() {
                r is Ok && bytes_views(
                    <TupleManyStruct<N> as TupleManyTrait<Bytes>>::components(r->Ok_0),
                ) == fields
            } else {
                r == Err::<TupleMany<N, Bytes>, SharedString>(
                    SharedString::Static(WRONG_FIELD_COUNT),
                )
            },
            None => r == Err::<TupleMany<N, Bytes>, SharedString>(
                SharedString::Static(INSUFFICIENT_DATA),
            ),
        },
{
    let chunks = match split_chunks(chunk, N) {
        Ok(chunks) => chunks,
        Err(err) => {
            return Err(err);
        },
    };
    match <TupleManyStruct<N> as TupleManyTrait<Bytes>>::try_from_iter(chunks) {
        Ok(tuple) => Ok(tuple),
        Err(_) => Err(SharedString::from_static(WRONG_FIELD_COUNT)),
    }
}

} // verus!
