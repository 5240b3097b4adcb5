//! Laying chunks out on a square grid, one chunk to a pixel.

use crate::chunks::{chunk_bytes, chunk_views, chunks_of};
use crate::error::EncodeError;
use crate::raster::{grid_height, grid_samples, grid_width, PixelGrid};
use crate::sizing::{ceil_sqrt, grid_fits, grid_side, lemma_ceil_sqrt_bounds};
use vstd::prelude::*;

verus! {

/// The value of a channel of the pixel made from a chunk: red is the first
/// byte, green the second and blue the third, and a channel for which the
/// chunk has no byte is zero.
pub open spec fn chunk_channel(chunk: Seq<u8>, channel: int) -> u8 {
    if 0 <= channel < chunk.len() {
        chunk[channel]
    } else {
        0
    }
}

/// The sample that stands at `at` in the grid made from `chunks`: a channel
/// of the pixel of chunk `at / 3`, or zero in a pixel past the last chunk.
pub open spec fn encoded_sample(chunks: Seq<Seq<u8>>, at: int) -> u8 {
    if 0 <= at / 3 < chunks.len() {
        chunk_channel(chunks[at / 3], at % 3)
    } else {
        0
    }
}

/// The samples of the grid made from `chunks`.
pub open spec fn encoded_samples(chunks: Seq<Seq<u8>>) -> Seq<u8> {
    Seq::new(
        3 * ceil_sqrt(chunks.len()) * ceil_sqrt(chunks.len()),
        |at: int| encoded_sample(chunks, at),
    )
}

/// Whether `grid` is the grid made from `chunks`: a square whose side is the
/// square root of their number, rounded up, with chunk `i` in column
/// `i % side` of row `i / side`.
pub open spec fn encodes(grid: PixelGrid, chunks: Seq<Seq<u8>>) -> bool {
    &&& grid_width(grid) == ceil_sqrt(chunks.len())
    &&& grid_height(grid) == ceil_sqrt(chunks.len())
    &&& grid_samples(grid) == encoded_samples(chunks)
}

/// Whether every chunk holds a byte.
pub open spec fn chunks_filled(chunks: Seq<Seq<u8>>) -> bool {
    forall|index: int| 0 <= index < chunks.len() ==> (#[trigger] chunks[index]).len() >= 1
}

/// The samples while the first `done` chunks stand on the grid.
spec fn samples_so_far(chunks: Seq<Seq<u8>>, done: int) -> Seq<u8> {
    Seq::new(
        3 * ceil_sqrt(chunks.len()) * ceil_sqrt(chunks.len()),
        |at: int|
            if at < 3 * done {
                encoded_sample(chunks, at)
            } else {
                0u8
            },
    )
}

fn encode_chunks(data: &Vec<Vec<u8>>) -> (res: Result<PixelGrid, EncodeError>)
    requires
        chunks_filled(chunk_views(data@)),
    ensures
        res.is_ok() <==> grid_fits(data.len() as nat),
        res matches Ok(grid) ==> encodes(grid, chunk_views(data@)),
        res matches Err(error) ==> error == EncodeError::GridTooLarge,
{
    let count = data.len();
    let side = match grid_side(count) {
        Ok(side) => side,
        Err(error) => {
            return Err(error);
        },
    };
    let ghost chunks = chunk_views(data@);
    proof {
        lemma_ceil_sqrt_bounds(count as nat);
        assert(3 * side <= 3 * side * side) by (nonlinear_arith)
            requires
                side >= 0,
        ;
    }
    let mut grid = PixelGrid::blank(side, side);
    assert(grid_samples(grid) =~= samples_so_far(chunks, 0));
    let mut x: u32 = 0;
    let mut y: u32 = 0;
    let mut done: usize = 0;
    while done < count
        invariant
            count == data.len(),
            chunks == chunk_views(data@),
            chunks_filled(chunks),
            side == ceil_sqrt(count as nat),
            side * side >= count,
            grid_width(grid) == side,
            grid_height(grid) == side,
            done <= count,
            done == y * side + x,
            side > 0 ==> x < side,
            grid_samples(grid) == samples_so_far(chunks, done as int),
        decreases count - done,
    {
        assert(x < side && y < side && (x + 1 == side ==> done + 1 == (y + 1) * side)) by (
            nonlinear_arith)
            requires
                done < count,
                side * side >= count,
                done == y * side + x,
                side > 0 ==> x < side,
        ;
        assert(3 * done + 2 < 3 * side * side) by (nonlinear_arith)
            requires
                done < count,
                side * side >= count,
        ;
        let chunk = &data[done];
        assert(chunk@ == chunks[done as int]);
        let red = chunk[0];
        let green = if chunk.len() > 1 {
            chunk[1]
        } else {
            0
        };
        let blue = if chunk.len() > 2 {
            chunk[2]
        } else {
            0
        };
        grid.put_pixel(x, y, red, green, blue);
        assert(grid_samples(grid) =~= samples_so_far(chunks, done + 1));
        done += 1;
        x += 1;
        if x == side {
            x = 0;
            y += 1;
        }
    }
    assert(grid_samples(grid) =~= encoded_samples(chunks));
    Ok(grid)
}

/// Lays the chunks out on the smallest square grid that holds them, row by
/// row, each chunk as one pixel. The pixels past the last chunk are black.
/// It fails only where the grid cannot be held in memory.
pub fn convert_pixel_rgb_bytes_to_png(data: Vec<Vec<u8>>) -> (res: Result<PixelGrid, EncodeError>)
    requires
        chunks_filled(chunk_views(data@)),
    ensures
        res.is_ok() <==> grid_fits(data.len() as nat),
        res matches Ok(grid) ==> encodes(grid, chunk_views(data@)),
        res matches Err(error) ==> error == EncodeError::GridTooLarge,
{
    encode_chunks(&data)
}

/// Splits the content of a file into chunks and lays them out on a grid.
/// It returns the chunks together with the grid.
pub fn convert_file_to_png(content: &[u8]) -> (res: Result<(Vec<Vec<u8>>, PixelGrid), EncodeError>)
    ensures
        res.is_ok() <==> grid_fits(chunks_of(content@).len()),
        res matches Ok(made) ==> chunk_views(made.0@) == chunks_of(content@) && encodes(
            made.1,
            chunks_of(content@),
        ),
        res matches Err(error) ==> error == EncodeError::GridTooLarge,
{
    let data = chunk_bytes(content);
    assert(chunks_filled(chunk_views(data@)));
    match encode_chunks(&data) {
        Ok(grid) => Ok((data, grid)),
        Err(error) => Err(error),
    }
}

} // verus!
