//! Reading the bytes back from a grid.

use crate::error::DecodeError;
use crate::raster::{
    grid_height, grid_samples, grid_width, image_height, image_width, rgb8_samples, PixelGrid,
};
use vstd::prelude::*;

verus! {

/// Reads the bytes of a grid: its samples, row by row from the top, pixel by
/// pixel from the left, and red, green, blue within a pixel. That makes
/// three times the width times the height in all: black pixels after the
/// data come out as zero bytes like any others.
pub fn decode_grid(grid: &PixelGrid) -> (bytes: Vec<u8>)
    ensures
        bytes@ == grid_samples(*grid),
        bytes.len() == 3 * grid_width(*grid) * grid_height(*grid),
{
    let (width, height) = grid.dimensions();
    let ghost samples = grid_samples(*grid);
    let mut bytes: Vec<u8> = Vec::new();
    let mut y: u32 = 0;
    while y < height
        invariant
            width == grid_width(*grid),
            height == grid_height(*grid),
            samples == grid_samples(*grid),
            samples.len() == 3 * width * height,
            y <= height,
            3 * (y * width) <= samples.len(),
            bytes@ == samples.subrange(0, 3 * (y * width)),
        decreases height - y,
    {
        let mut x: u32 = 0;
        while x < width
            invariant
                width == grid_width(*grid),
                height == grid_height(*grid),
                samples == grid_samples(*grid),
                samples.len() == 3 * width * height,
                y < height,
                x <= width,
                3 * (y * width + x) <= samples.len(),
                bytes@ == samples.subrange(0, 3 * (y * width + x)),
            decreases width - x,
        {
            assert(3 * (y * width + x) + 2 < 3 * width * height) by (nonlinear_arith)
                requires
                    x < width,
                    y < height,
            ;
            let rgb = grid.pixel(x, y);
            bytes.push(rgb.0);
            bytes.push(rgb.1);
            bytes.push(rgb.2);
            assert(bytes@ =~= samples.subrange(0, 3 * (y * width + (x + 1))));
            x += 1;
        }
        assert((y + 1) * width == y * width + width) by (nonlinear_arith);
        y += 1;
    }
    assert(3 * (height * width) == 3 * width * height) by (nonlinear_arith);
    assert(bytes@ =~= samples);
    bytes
}

/// Whether the bytes of a grid of the given size can be held in memory: the
/// samples of all its rows fit a vector, and those of one row can be counted
/// even where there is no row.
pub open spec fn image_fits(width: nat, height: nat) -> bool {
    3 * width <= usize::MAX && 3 * width * height <= isize::MAX
}

/// The number of bytes that a grid of the given size holds: three for each
/// pixel. It fails where a grid of that size does not fit.
pub fn decoded_len(width: u32, height: u32) -> (res: Result<usize, DecodeError>)
    ensures
        res.is_ok() <==> image_fits(width as nat, height as nat),
        res matches Ok(len) ==> len == 3 * width * height,
        res matches Err(error) ==> error == DecodeError::ImageTooLarge,
{
    let row: u64 = 3 * (width as u64);
    if row > usize::MAX as u64 {
        return Err(DecodeError::ImageTooLarge);
    }
    assert(3 * width * height <= 3 * 0xffff_ffff * 0xffff_ffff) by (nonlinear_arith)
        requires
            0 <= width <= 0xffff_ffff,
            0 <= height <= 0xffff_ffff,
    ;
    let len: u128 = (row as u128) * (height as u128);
    if len > isize::MAX as u128 {
        Err(DecodeError::ImageTooLarge)
    } else {
        Ok(len as usize)
    }
}

/// Reads the bytes of an image, whatever its pixel format: the image is
/// first brought to RGB with eight bits to a channel, and keeps its size. It
/// fails only where the bytes cannot be held in memory, or those of a row
/// cannot be counted.
pub fn convert_png_to_file(image: image::DynamicImage) -> (res: Result<Vec<u8>, DecodeError>)
    ensures
        res.is_ok() <==> image_fits(image_width(image), image_height(image)),
        res matches Ok(bytes) ==> bytes@ == rgb8_samples(image) && bytes.len() == 3 * image_width(
            image,
        ) * image_height(image),
        res matches Err(error) ==> error == DecodeError::ImageTooLarge,
{
    match decoded_len(image.width(), image.height()) {
        Ok(_) => {
            let grid = PixelGrid::from_dynamic(image);
            Ok(decode_grid(&grid))
        },
        Err(error) => Err(error),
    }
}

} // verus!
