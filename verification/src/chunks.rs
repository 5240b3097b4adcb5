//! Splitting a byte sequence into chunks of three bytes, one chunk to a pixel.

use vstd::prelude::*;

verus! {

/// The number of chunks that `len` bytes make: a third of `len`, rounded up.
pub open spec fn chunk_count(len: nat) -> nat {
    (len + 2) / 3
}

/// The chunk of the given index: the next three bytes from `3 * index` on, or
/// as many as are left.
pub open spec fn chunk_of(bytes: Seq<u8>, index: int) -> Seq<u8> {
    bytes.subrange(
        3 * index,
        if 3 * index + 3 <= bytes.len() {
            3 * index + 3
        } else {
            bytes.len() as int
        },
    )
}

/// The chunks of a byte sequence, in the order of the bytes.
pub open spec fn chunks_of(bytes: Seq<u8>) -> Seq<Seq<u8>> {
    Seq::new(chunk_count(bytes.len()), |index: int| chunk_of(bytes, index))
}

/// What a vector of chunks holds, as a sequence of byte sequences.
pub open spec fn chunk_views(chunks: Seq<Vec<u8>>) -> Seq<Seq<u8>> {
    Seq::new(chunks.len(), |index: int| chunks[index]@)
}

/// Splits `bytes` into consecutive chunks of three bytes. The last chunk is
/// shorter where the length is no multiple of three, and no bytes give no
/// chunk.
pub fn chunk_bytes(bytes: &[u8]) -> (chunks: Vec<Vec<u8>>)
    ensures
        chunk_views(chunks@) == chunks_of(bytes@),
{
    let len = bytes.len();
    let mut chunks: Vec<Vec<u8>> = Vec::new();
    let mut start: usize = 0;
    while start < len
        invariant
            len == bytes@.len(),
            start <= len,
            start < len ==> start == 3 * chunks.len(),
            start == len ==> chunks.len() == chunk_count(len as nat),
            forall|index: int|
                0 <= index < chunks.len() ==> #[trigger] chunks[index]@ == chunk_of(
                    bytes@,
                    index,
                ),
        decreases len - start,
    {
        let end = if len - start >= 3 {
            start + 3
        } else {
            len
        };
        let mut chunk: Vec<u8> = Vec::new();
        let mut at: usize = start;
        while at < end
            invariant
                len == bytes@.len(),
                start <= at <= end <= len,
                chunk@ == bytes@.subrange(start as int, at as int),
            decreases end - at,
        {
            chunk.push(bytes[at]);
            at += 1;
            assert(chunk@ =~= bytes@.subrange(start as int, at as int));
        }
        chunks.push(chunk);
        start = end;
    }
    assert(chunk_views(chunks@) =~= chunks_of(bytes@));
    chunks
}

/// Every chunk but the last holds three bytes, and the last holds one, two
/// or three.
pub proof fn lemma_chunk_lengths(bytes: Seq<u8>, index: int)
    requires
        0 <= index < chunk_count(bytes.len()),
    ensures
        chunks_of(bytes)[index].len() == if index + 1 < chunk_count(bytes.len()) {
            3
        } else {
            bytes.len() - 3 * index
        },
        1 <= chunks_of(bytes)[index].len() <= 3,
{
}

/// The chunks keep every byte in its place: byte `at` is byte `at % 3` of
/// chunk `at / 3`.
pub proof fn lemma_chunk_bytes(bytes: Seq<u8>, at: int)
    requires
        0 <= at < bytes.len(),
    ensures
        at / 3 < chunk_count(bytes.len()),
        at % 3 < chunks_of(bytes)[at / 3].len(),
        chunks_of(bytes)[at / 3][at % 3] == bytes[at],
{
}

/// The chunks, put one after the other, are the bytes they were made from.
pub proof fn lemma_chunks_join(bytes: Seq<u8>)
    ensures
        chunks_of(bytes).flatten() == bytes,
    decreases bytes.len(),
{
    let chunks = chunks_of(bytes);
    if bytes.len() == 0 {
        assert(chunks =~= Seq::<Seq<u8>>::empty());
    } else {
        let rest = bytes.subrange(chunks[0].len() as int, bytes.len() as int);
        assert(chunks.drop_first() =~= chunks_of(rest)) by {
            assert forall|index: int| 0 <= index < chunks.len() - 1 implies chunks.drop_first()[index]
                == chunks_of(rest)[index] by {
                assert(chunks[index + 1] =~= chunk_of(rest, index));
            }
        }
        lemma_chunks_join(rest);
        assert(chunks.flatten() =~= chunks[0] + chunks.drop_first().flatten());
        assert(chunks[0] + rest =~= bytes);
    }
}

} // verus!
