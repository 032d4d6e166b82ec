//! Conversion between 8-bit RGBA pixels and packed 16-bit ARGB-1555 pixels.
//!
//! The codec quantizes each 8-bit colour channel to 5 bits with
//! round-to-nearest scaling and binarizes alpha to a single bit; the
//! transcoder applies the codec to every pixel of an image buffer.

use vstd::prelude::*;

pub mod codec;
pub mod transcode;

verus! {

/// A parsed command line: which direction to convert, and the two file paths.
pub enum Args {
    /// Pack an image into the 16-bit ARGB-1555 format.
    Pack { input: String, output: String },
    /// Unpack a 16-bit ARGB-1555 image into 8-bit RGBA.
    Unpack { input: String, output: String },
}

} // verus!
