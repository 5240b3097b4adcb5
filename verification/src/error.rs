//! Why a grid cannot be made or read.

use vstd::prelude::*;

verus! {

/// The failure of an attempt to lay chunks out on a grid.
#[derive(Clone, Copy, Debug, PartialEq, Eq, Structural)]
pub enum EncodeError {
    /// The grid for so many chunks has more samples than memory can hold.
    GridTooLarge,
}

impl EncodeError {
    /// A sentence that tells a reader what went wrong.
    pub fn message(&self) -> (text: &'static str)
        ensures
            text@ == "the pixel grid is too large to hold in memory"@,
    {
        match self {
            EncodeError::GridTooLarge => "the pixel grid is too large to hold in memory",
        }
    }
}

/// The failure of an attempt to read the bytes of an image.
#[derive(Clone, Copy, Debug, PartialEq, Eq, Structural)]
pub enum DecodeError {
    /// The image has more samples than memory can hold.
    ImageTooLarge,
}

impl DecodeError {
    /// A sentence that tells a reader what went wrong.
    pub fn message(&self) -> (text: &'static str)
        ensures
            text@ == "the image is too large to read into memory"@,
    {
        match self {
            DecodeError::ImageTooLarge => "the image is too large to read into memory",
        }
    }
}

} // verus!
