//! Byte buffers: the chunks in which a body arrives, and how they are joined.

use bytes::BufMut;
use std::collections::VecDeque;
use vstd::prelude::*;

verus! {

/// `bytes::Bytes`; what it holds is [`bytes_contents`].
#[verifier::external_type_specification]
#[verifier::external_body]
pub struct ExBytes(bytes::Bytes);

/// `bytes::BytesMut`; what it holds is [`bytes_mut_contents`].
#[verifier::external_type_specification]
#[verifier::external_body]
pub struct ExBytesMut(bytes::BytesMut);

/// The bytes that a `bytes::Bytes` holds.
pub uninterp spec fn bytes_contents(bytes: bytes::Bytes) -> Seq<u8>;

/// The bytes that a `bytes::BytesMut` holds.
pub uninterp spec fn bytes_mut_contents(bytes: bytes::BytesMut) -> Seq<u8>;

/// The number of bytes for which room was asked when a `bytes::BytesMut` was
/// made.
pub uninterp spec fn bytes_mut_limit(bytes: bytes::BytesMut) -> nat;

/// `bytes::Bytes::len` counts the bytes held.
pub assume_specification[ bytes::Bytes::len ](bytes: &bytes::Bytes) -> (len: usize)
    ensures
        len == bytes_contents(*bytes).len(),
;

/// `bytes::BytesMut::with_capacity` makes an empty buffer with room for at
/// least `capacity` bytes. It panics above `isize::MAX`, as every allocation of
/// std's `Vec` does.
pub assume_specification[ bytes::BytesMut::with_capacity ](capacity: usize) -> (out:
    bytes::BytesMut)
    requires
        capacity <= isize::MAX,
    ensures
        bytes_mut_contents(out) == Seq::<u8>::empty(),
        bytes_mut_limit(out) == capacity,
;

/// `bytes::BytesMut::freeze` hands over the bytes held, unchanged.
pub assume_specification[ bytes::BytesMut::freeze ](bytes: bytes::BytesMut) -> (out: bytes::Bytes)
    ensures
        bytes_contents(out) == bytes_mut_contents(bytes),
;

/// `bytes::BufMut::put` on a `bytes::BytesMut` appends the bytes of `src`.
///
/// Within the room that the buffer was made with nothing is allocated, so
/// nothing can panic; beyond it, growing the buffer may.
#[verifier::external_body]
fn put(dst: &mut bytes::BytesMut, src: bytes::Bytes)
    requires
        bytes_mut_contents(*old(dst)).len() + bytes_contents(src).len() <= bytes_mut_limit(
            *old(dst),
        ),
    ensures
        bytes_mut_contents(*final(dst)) == bytes_mut_contents(*old(dst)) + bytes_contents(src),
        bytes_mut_limit(*final(dst)) == bytes_mut_limit(*old(dst)),
{
    dst.put(src)
}

/// The bytes of all the chunks, one chunk after the other.
pub open spec fn contents(chunks: Seq<bytes::Bytes>) -> Seq<u8> {
    chunks.map_values(|chunk: bytes::Bytes| bytes_contents(chunk)).flatten()
}

/// No chunks hold no bytes.
pub proof fn lemma_contents_none(chunks: Seq<bytes::Bytes>)
    requires
        chunks.len() == 0,
    ensures
        contents(chunks) == Seq::<u8>::empty(),
{
}

/// A further chunk adds its bytes at the end.
pub proof fn lemma_contents_push(chunks: Seq<bytes::Bytes>, chunk: bytes::Bytes)
    ensures
        contents(chunks.push(chunk)) == contents(chunks) + bytes_contents(chunk),
{
    let held = |b: bytes::Bytes| bytes_contents(b);
    assert(chunks.push(chunk).map_values(held) =~= chunks.map_values(held).push(held(chunk)));
    chunks.map_values(held).lemma_flatten_push(held(chunk));
}

/// The bytes of chunks are those of the first and then those of the others.
proof fn lemma_contents_first(chunks: Seq<bytes::Bytes>)
    requires
        chunks.len() > 0,
    ensures
        contents(chunks) == bytes_contents(chunks[0]) + contents(chunks.drop_first()),
{
    let held = |b: bytes::Bytes| bytes_contents(b);
    assert(chunks.map_values(held).drop_first() =~= chunks.drop_first().map_values(held));
}

/// Fewer chunks hold no more bytes.
proof fn lemma_contents_take(chunks: Seq<bytes::Bytes>, n: int)
    requires
        0 <= n <= chunks.len(),
    ensures
        contents(chunks.take(n)).len() <= contents(chunks).len(),
    decreases chunks.len() - n,
{
    if n < chunks.len() {
        assert(chunks.take(n + 1) =~= chunks.take(n).push(chunks[n]));
        lemma_contents_push(chunks.take(n), chunks[n]);
        lemma_contents_take(chunks, n + 1);
    } else {
        assert(chunks.take(n) =~= chunks);
    }
}

/// The number of bytes in all the chunks, if one buffer can hold them.
pub fn joined_len(chunks: &VecDeque<bytes::Bytes>) -> (len: Option<usize>)
    ensures
        match len {
            Some(n) => n == contents(chunks@).len() && n <= isize::MAX,
            None => contents(chunks@).len() > isize::MAX,
        },
{
    let mut total: usize = 0;
    let mut i: usize = 0;
    proof {
        lemma_contents_none(chunks@.take(0));
    }
    while i < chunks.len()
        invariant
            i <= chunks@.len(),
            total == contents(chunks@.take(i as int)).len(),
            total <= isize::MAX,
        decreases chunks@.len() - i,
    {
        let len: usize = chunks[i].len();
        proof {
            assert(chunks@.take(i + 1) =~= chunks@.take(i as int).push(chunks@[i as int]));
            lemma_contents_push(chunks@.take(i as int), chunks@[i as int]);
            lemma_contents_take(chunks@, i + 1);
        }
        if len > isize::MAX as usize - total {
            return None;
        }
        total = total + len;
        i = i + 1;
    }
    assert(chunks@.take(i as int) =~= chunks@);
    Some(total)
}

/// Joins the chunks into one buffer.
pub fn join(chunks: VecDeque<bytes::Bytes>) -> (out: bytes::Bytes)
    requires
        contents(chunks@).len() <= isize::MAX,
    ensures
        bytes_contents(out) == contents(chunks@),
{
    let ghost all = contents(chunks@);
    let mut chunks = chunks;
    let capacity: usize = match joined_len(&chunks) {
        Some(len) => len,
        None => 0,
    };
    let mut out = bytes::BytesMut::with_capacity(capacity);
    loop
        invariant
            bytes_mut_contents(out) + contents(chunks@) == all,
            bytes_mut_limit(out) == all.len(),
        ensures
            bytes_mut_contents(out) == all,
        decreases chunks@.len(),
    {
        let ghost before = chunks@;
        match chunks.pop_front() {
            Some(chunk) => {
                proof {
                    lemma_contents_first(before);
                    assert(chunks@ =~= before.drop_first());
                }
                put(&mut out, chunk);
            },
            None => {
                proof {
                    lemma_contents_none(chunks@);
                }
                break;
            },
        }
    }
    out.freeze()
}

/// What chunks hold is settled by what each of them holds: none hold nothing,
/// one holds its bytes, and chunks that follow others hold what they hold after
/// what those hold. So no byte is lost, added or moved.
pub proof fn law_contents_are_those_of_the_chunks_in_order(
    one: bytes::Bytes,
    chunks: Seq<bytes::Bytes>,
    more: Seq<bytes::Bytes>,
)
    ensures
        contents(Seq::<bytes::Bytes>::empty()) == Seq::<u8>::empty(),
        contents(seq![one]) == bytes_contents(one),
        contents(chunks + more) == contents(chunks) + contents(more),
    decreases more.len(),
{
    let none = Seq::<bytes::Bytes>::empty();
    lemma_contents_none(none);
    lemma_contents_push(none, one);
    assert(none.push(one) =~= seq![one]);
    assert(contents(none) + bytes_contents(one) =~= bytes_contents(one));
    if more.len() == 0 {
        assert(chunks + more =~= chunks);
        lemma_contents_none(more);
        assert(contents(chunks) + contents(more) =~= contents(chunks));
    } else {
        let first = more.drop_last();
        law_contents_are_those_of_the_chunks_in_order(one, chunks, first);
        assert(chunks + more =~= (chunks + first).push(more.last()));
        assert(more =~= first.push(more.last()));
        lemma_contents_push(chunks + first, more.last());
        lemma_contents_push(first, more.last());
        assert(contents(chunks) + contents(first) + bytes_contents(more.last()) =~= contents(chunks)
            + (contents(first) + bytes_contents(more.last())));
    }
}

/// Joining chunks that follow others gives the bytes that joining the ones
/// gives, and then those that joining the others gives. The number of bytes is
/// told before: it is that of the buffer joined, and it is told if and only if one
/// buffer can hold them, and then they can be joined.
pub proof fn law_joining_puts_the_chunks_one_after_the_other(
    chunks: VecDeque<bytes::Bytes>,
    more: VecDeque<bytes::Bytes>,
    all: VecDeque<bytes::Bytes>,
    joined: bytes::Bytes,
    joined_more: bytes::Bytes,
    joined_all: bytes::Bytes,
    len: Option<usize>,
)
    requires
        all@ == chunks@ + more@,
        call_ensures(join, (chunks,), joined),
        call_ensures(join, (more,), joined_more),
        call_ensures(join, (all,), joined_all),
        call_ensures(joined_len, (&all,), len),
    ensures
        bytes_contents(joined_all) == bytes_contents(joined) + bytes_contents(joined_more),
        chunks@.len() == 0 ==> bytes_contents(joined).len() == 0,
        chunks@.len() == 1 ==> bytes_contents(joined) == bytes_contents(chunks@[0]),
        call_requires(joined_len, (&all,)),
        len matches Some(n) ==> n == bytes_contents(joined_all).len(),
        len is Some <==> bytes_contents(joined_all).len() <= isize::MAX,
        len is Some ==> call_requires(join, (all,)),
{
    law_contents_are_those_of_the_chunks_in_order(chunks@[0], chunks@, more@);
    if chunks@.len() == 0 {
        lemma_contents_none(chunks@);
    }
    if chunks@.len() == 1 {
        assert(chunks@ =~= seq![chunks@[0]]);
    }
}

} // verus!
