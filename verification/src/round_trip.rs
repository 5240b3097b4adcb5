//! What comes back when bytes are laid out on a grid and read again.

use crate::chunks::{chunk_count, chunks_of, lemma_chunk_bytes};
use crate::encoder::{encoded_samples, encodes};
use crate::raster::{grid_height, grid_samples, grid_width, PixelGrid};
use crate::sizing::{ceil_sqrt, lemma_ceil_sqrt_bounds};
use vstd::prelude::*;

verus! {

/// The number of bytes that the grid for `len` bytes of data holds.
pub open spec fn grid_capacity(len: nat) -> nat {
    3 * ceil_sqrt(chunk_count(len)) * ceil_sqrt(chunk_count(len))
}

/// So many zero bytes.
pub open spec fn zeros(len: nat) -> Seq<u8> {
    Seq::new(len, |at: int| 0u8)
}

/// The bytes without the zero bytes at their end.
pub open spec fn strip_trailing_zeros(bytes: Seq<u8>) -> Seq<u8>
    decreases bytes.len(),
{
    if bytes.len() > 0 && bytes.last() == 0 {
        strip_trailing_zeros(bytes.drop_last())
    } else {
        bytes
    }
}

/// The grid for some bytes holds at least as many bytes as it was given.
pub proof fn lemma_grid_capacity(len: nat)
    ensures
        grid_capacity(len) >= len,
{
    let side = ceil_sqrt(chunk_count(len));
    lemma_ceil_sqrt_bounds(chunk_count(len));
    assert(3 * side * side >= 3 * chunk_count(len)) by (nonlinear_arith)
        requires
            side * side >= chunk_count(len),
    ;
}

/// The samples of the grid made from the chunks of some bytes are those
/// bytes, followed by zero bytes up to the capacity of the grid.
pub proof fn lemma_encoded_chunks(bytes: Seq<u8>)
    ensures
        grid_capacity(bytes.len()) >= bytes.len(),
        encoded_samples(chunks_of(bytes)) == bytes + zeros(
            (grid_capacity(bytes.len()) - bytes.len()) as nat,
        ),
{
    lemma_grid_capacity(bytes.len());
    let chunks = chunks_of(bytes);
    let samples = encoded_samples(chunks);
    let padded = bytes + zeros((grid_capacity(bytes.len()) - bytes.len()) as nat);
    assert(samples.len() == padded.len());
    assert forall|at: int| 0 <= at < samples.len() implies samples[at] == padded[at] by {
        if at < bytes.len() {
            lemma_chunk_bytes(bytes, at);
        }
    }
    assert(samples =~= padded);
}

/// Reading the grid made from the chunks of some bytes gives those bytes
/// back, followed by zero bytes: the padding of a short last chunk and the
/// pixels past the last chunk.
pub proof fn lemma_round_trip(bytes: Seq<u8>, grid: PixelGrid)
    requires
        encodes(grid, chunks_of(bytes)),
    ensures
        grid_capacity(bytes.len()) >= bytes.len(),
        grid_samples(grid) == bytes + zeros((grid_capacity(bytes.len()) - bytes.len()) as nat),
        grid_samples(grid).len() == grid_capacity(bytes.len()),
        grid_samples(grid).subrange(0, bytes.len() as int) == bytes,
{
    lemma_encoded_chunks(bytes);
    assert(grid_samples(grid).subrange(0, bytes.len() as int) =~= bytes);
}

/// Zero bytes at the end do not change what is left when the zero bytes at
/// the end are taken away.
pub proof fn lemma_strip_zeros_appended(bytes: Seq<u8>, len: nat)
    ensures
        strip_trailing_zeros(bytes + zeros(len)) == strip_trailing_zeros(bytes),
    decreases len,
{
    if len == 0 {
        assert(bytes + zeros(len) =~= bytes);
    } else {
        let longer = bytes + zeros(len);
        assert(longer.last() == 0);
        assert(longer.drop_last() =~= bytes + zeros((len - 1) as nat));
        lemma_strip_zeros_appended(bytes, (len - 1) as nat);
    }
}

/// Taking the zero bytes from the end of what was read from the grid gives
/// what is left of the data when the zero bytes are taken from its end: the
/// data itself, where it does not end in a zero byte.
pub proof fn lemma_round_trip_stripped(bytes: Seq<u8>, grid: PixelGrid)
    requires
        encodes(grid, chunks_of(bytes)),
    ensures
        strip_trailing_zeros(grid_samples(grid)) == strip_trailing_zeros(bytes),
        bytes.len() > 0 && bytes.last() != 0 ==> strip_trailing_zeros(grid_samples(grid)) == bytes,
{
    lemma_round_trip(bytes, grid);
    lemma_strip_zeros_appended(bytes, (grid_capacity(bytes.len()) - bytes.len()) as nat);
}

/// A chunk of one byte gives a pixel whose green and blue are zero, and a
/// chunk of two bytes one whose blue is zero.
pub proof fn lemma_short_chunk(chunks: Seq<Seq<u8>>, index: int)
    requires
        0 <= index < chunks.len(),
        1 <= chunks[index].len(),
    ensures
        3 * index + 2 < encoded_samples(chunks).len(),
        encoded_samples(chunks)[3 * index] == chunks[index][0],
        chunks[index].len() == 1 ==> encoded_samples(chunks)[3 * index + 1] == 0,
        chunks[index].len() <= 2 ==> encoded_samples(chunks)[3 * index + 2] == 0,
        chunks[index].len() >= 2 ==> encoded_samples(chunks)[3 * index + 1] == chunks[index][1],
        chunks[index].len() >= 3 ==> encoded_samples(chunks)[3 * index + 2] == chunks[index][2],
{
    let side = ceil_sqrt(chunks.len());
    lemma_ceil_sqrt_bounds(chunks.len());
    assert(3 * index + 2 < 3 * side * side) by (nonlinear_arith)
        requires
            index < chunks.len(),
            chunks.len() <= side * side,
    ;
}

/// The pixels past the last chunk are black.
pub proof fn lemma_unused_cells(chunks: Seq<Seq<u8>>, at: int)
    requires
        3 * chunks.len() <= at < encoded_samples(chunks).len(),
    ensures
        encoded_samples(chunks)[at] == 0,
{
}

/// No bytes make no chunks, and no chunks make a grid without pixels.
pub proof fn lemma_empty_input()
    ensures
        chunks_of(Seq::<u8>::empty()).len() == 0,
        ceil_sqrt(0) == 0,
        encoded_samples(Seq::<Seq<u8>>::empty()).len() == 0,
{
}

/// A grid holds three bytes for each cell of its square.
pub proof fn lemma_decoded_len(grid: PixelGrid, chunks: Seq<Seq<u8>>)
    requires
        encodes(grid, chunks),
    ensures
        grid_samples(grid).len() == 3 * grid_width(grid) * grid_width(grid),
        grid_width(grid) == grid_height(grid),
{
}

/// Reading a grid twice gives the same bytes.
pub proof fn lemma_decode_repeatable(grid: PixelGrid, first: Seq<u8>, second: Seq<u8>)
    requires
        first == grid_samples(grid),
        second == grid_samples(grid),
    ensures
        first == second,
{
}

} // verus!
