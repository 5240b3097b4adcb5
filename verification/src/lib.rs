//! Packs the bytes of a file into a square grid of RGB pixels, three bytes to
//! a pixel, and unpacks such a grid into bytes again.
//!
//! The bytes are split into chunks of three, each chunk becomes one pixel,
//! and the pixels fill the smallest square that holds them, row by row. What
//! is read back from a grid is the data followed by zero bytes: the length of
//! the data is not stored.

pub mod chunks;
pub mod decoder;
pub mod encoder;
pub mod error;
pub mod raster;
pub mod round_trip;
pub mod sizing;

pub use chunks::chunk_bytes;
pub use decoder::{convert_png_to_file, decode_grid, decoded_len};
pub use encoder::{convert_file_to_png, convert_pixel_rgb_bytes_to_png};
pub use error::{DecodeError, EncodeError};
pub use raster::PixelGrid;
pub use sizing::{ceil_sqrt_of, grid_side};
