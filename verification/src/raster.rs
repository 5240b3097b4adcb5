//! The pixel grid, which the `image` crate holds, and what this library
//! takes on trust about it.
//!
//! A grid is described by three names: its width, its height, and its
//! samples. The samples are the channel values of the pixels, row by row from
//! the top, left to right within a row, and red, green, blue within a pixel.
//! Nothing here is proved: each function below makes one call into `image` and
//! states what that call does.

use vstd::prelude::*;

verus! {

/// `image::DynamicImage`: an image in any of the pixel formats that the
/// `image` crate knows. The verifier sees nothing inside it.
#[verifier::external_type_specification]
#[verifier::external_body]
pub struct ExDynamicImage(image::DynamicImage);

/// A grid of RGB pixels with eight bits to a channel: an
/// `image::RgbImage`. The verifier sees nothing inside it.
#[verifier::external_body]
pub struct PixelGrid {
    pub image: image::RgbImage,
}

/// The number of pixels in a row of the grid.
pub uninterp spec fn grid_width(grid: PixelGrid) -> nat;

/// The number of rows of the grid.
pub uninterp spec fn grid_height(grid: PixelGrid) -> nat;

/// The samples of the grid: three for each pixel, in row-major order.
pub uninterp spec fn grid_samples(grid: PixelGrid) -> Seq<u8>;

/// The number of pixels in a row of an image.
pub uninterp spec fn image_width(image: image::DynamicImage) -> nat;

/// The number of rows of an image.
pub uninterp spec fn image_height(image: image::DynamicImage) -> nat;

/// The samples of the grid that `DynamicImage::into_rgb8` makes of an
/// image.
pub uninterp spec fn rgb8_samples(image: image::DynamicImage) -> Seq<u8>;

/// `DynamicImage::width`: the width of the image.
pub assume_specification[ image::DynamicImage::width ](image: &image::DynamicImage) -> (width: u32)
    ensures
        width == image_width(*image),
;

/// `DynamicImage::height`: the height of the image.
pub assume_specification[ image::DynamicImage::height ](image: &image::DynamicImage) -> (height:
    u32)
    ensures
        height == image_height(*image),
;

/// Where the sample of a channel of the pixel in column `x` of row `y` stands
/// among the samples of a grid of the given width.
pub open spec fn sample_index(width: nat, x: int, y: int, channel: int) -> int {
    3 * (y * width + x) + channel
}

impl PixelGrid {
    /// `ImageBuffer::new`: a grid of the given size whose samples are all
    /// zero. The call panics when the number of samples overflows or is more
    /// than a vector holds, so such sizes are left out.
    #[verifier::external_body]
    pub(crate) fn blank(width: u32, height: u32) -> (grid: PixelGrid)
        requires
            3 * width <= usize::MAX,
            3 * width * height <= isize::MAX,
        ensures
            grid_width(grid) == width,
            grid_height(grid) == height,
            grid_samples(grid) == Seq::new((3 * width * height) as nat, |at: int| 0u8),
    {
        PixelGrid { image: image::ImageBuffer::new(width, height) }
    }

    /// `ImageBuffer::dimensions`: the width and the height. A grid holds
    /// three samples for each of its pixels.
    #[verifier::external_body]
    pub(crate) fn dimensions(&self) -> (size: (u32, u32))
        ensures
            size.0 == grid_width(*self),
            size.1 == grid_height(*self),
            grid_samples(*self).len() == 3 * size.0 * size.1,
    {
        self.image.dimensions()
    }

    /// `ImageBuffer::get_pixel`: the three samples of the pixel in column `x`
    /// of row `y`. The call panics outside the grid.
    #[verifier::external_body]
    pub(crate) fn pixel(&self, x: u32, y: u32) -> (rgb: (u8, u8, u8))
        requires
            x < grid_width(*self),
            y < grid_height(*self),
        ensures
            rgb.0 == grid_samples(*self)[sample_index(grid_width(*self), x as int, y as int, 0)],
            rgb.1 == grid_samples(*self)[sample_index(grid_width(*self), x as int, y as int, 1)],
            rgb.2 == grid_samples(*self)[sample_index(grid_width(*self), x as int, y as int, 2)],
    {
        let pixel = self.image.get_pixel(x, y);
        (pixel.0[0], pixel.0[1], pixel.0[2])
    }

    /// `ImageBuffer::put_pixel`: sets the three samples of the pixel in
    /// column `x` of row `y` and leaves the others, and the size, as they
    /// were. The call panics outside the grid.
    #[verifier::external_body]
    pub(crate) fn put_pixel(&mut self, x: u32, y: u32, red: u8, green: u8, blue: u8)
        requires
            x < grid_width(*old(self)),
            y < grid_height(*old(self)),
        ensures
            grid_width(*final(self)) == grid_width(*old(self)),
            grid_height(*final(self)) == grid_height(*old(self)),
            grid_samples(*final(self)) == grid_samples(*old(self)).update(
                sample_index(grid_width(*old(self)), x as int, y as int, 0),
                red,
            ).update(sample_index(grid_width(*old(self)), x as int, y as int, 1), green).update(
                sample_index(grid_width(*old(self)), x as int, y as int, 2),
                blue,
            ),
    {
        self.image.put_pixel(x, y, image::Rgb([red, green, blue]));
    }

    /// `DynamicImage::into_rgb8`: the image as a grid of RGB pixels with
    /// eight bits to a channel, of the same width and height, whatever
    /// format it had before. For an image in another format the call makes a
    /// vector of three samples a pixel and a grid over it. It panics when
    /// that is more than a vector holds, and when three times the width
    /// alone overflows, even for an image without rows: both are left out.
    #[verifier::external_body]
    pub(crate) fn from_dynamic(image: image::DynamicImage) -> (grid: PixelGrid)
        requires
            3 * image_width(image) <= usize::MAX,
            3 * image_width(image) * image_height(image) <= isize::MAX,
        ensures
            grid_width(grid) == image_width(image),
            grid_height(grid) == image_height(image),
            grid_samples(grid) == rgb8_samples(image),
    {
        PixelGrid { image: image.into_rgb8() }
    }
}

} // verus!
