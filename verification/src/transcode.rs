//! The image transcoder: applies the pixel codec to every pixel of a
//! decoded image buffer, producing a buffer in the other encoding.

use vstd::prelude::*;
use crate::codec::{pack, pack_spec, unpack, unpack_spec};

verus! {

/// One 8-bit RGBA pixel.
#[derive(Clone, Copy, Debug, PartialEq, Eq, Structural)]
pub struct Rgba {
    pub r: u8,
    pub g: u8,
    pub b: u8,
    pub a: u8,
}

/// A width x height grid of RGBA pixels, row-major: the pixel at (x, y)
/// sits at index y * width + x.
pub struct RgbaImage {
    pub width: u32,
    pub height: u32,
    pub pixels: Vec<Rgba>,
}

impl RgbaImage {
    /// The buffer holds exactly one pixel per grid cell.
    pub open spec fn wf(self) -> bool {
        self.pixels@.len() == self.width * self.height
    }
}

/// A width x height grid of packed 16-bit ARGB-1555 samples, row-major.
pub struct PackedImage {
    pub width: u32,
    pub height: u32,
    pub samples: Vec<u16>,
}

impl PackedImage {
    /// The buffer holds exactly one sample per grid cell.
    pub open spec fn wf(self) -> bool {
        self.samples@.len() == self.width * self.height
    }
}

/// The pixel format a decoded image arrived in, for images that are not
/// single-channel 16-bit and so cannot be unpacked.
#[derive(Clone, Copy, Debug, PartialEq, Eq, Structural)]
pub enum PixelFormat {
    /// 8-bit single-channel grayscale.
    Luma8,
    /// 8-bit grayscale with alpha.
    LumaA8,
    /// 8-bit three-channel RGB.
    Rgb8,
    /// 8-bit four-channel RGBA.
    Rgba8,
    /// 16-bit grayscale with alpha.
    LumaA16,
    /// 16-bit three-channel RGB.
    Rgb16,
    /// 16-bit four-channel RGBA.
    Rgba16,
    /// Floating-point three-channel RGB.
    Rgb32F,
    /// Floating-point four-channel RGBA.
    Rgba32F,
    /// Any format not otherwise listed.
    Unknown,
}

/// A decoded image as the unpack transcoder sees it: either the
/// single-channel 16-bit samples it accepts, or the format tag of an
/// image it must reject.
pub enum DecodedImage {
    /// A single-channel 16-bit image whose samples carry ARGB-1555 values.
    Luma16(PackedImage),
    /// An image in any other pixel format; only its format tag matters.
    Other(PixelFormat),
}

impl DecodedImage {
    /// A carried sample buffer is well formed.
    pub open spec fn wf(self) -> bool {
        match self {
            DecodedImage::Luma16(img) => img.wf(),
            DecodedImage::Other(_) => true,
        }
    }
}

/// Why a transcode request was rejected.
#[derive(Clone, Copy, Debug, PartialEq, Eq, Structural)]
pub enum TranscodeError {
    /// Unpacking was asked of an image that is not single-channel 16-bit.
    FormatMismatch,
}

/// Pack every pixel of an RGBA image into a 16-bit ARGB-1555 sample
/// buffer of the same dimensions. Alpha is binarized: any alpha greater
/// than zero packs as opaque.
pub fn pack_image(img: &RgbaImage) -> (out: PackedImage)
    requires
        img.wf(),
    ensures
        out.wf(),
        out.width == img.width,
        out.height == img.height,
        forall|i: int|
            0 <= i < img.pixels@.len() ==> out.samples@[i] == pack_spec(
                img.pixels@[i].r,
                img.pixels@[i].g,
                img.pixels@[i].b,
                img.pixels@[i].a > 0,
            ),
{
    let n = img.pixels.len();
    let mut samples: Vec<u16> = Vec::new();
    let mut i: usize = 0;
    while i < n
        invariant
            i <= n,
            n == img.pixels@.len(),
            samples@.len() == i,
            forall|j: int|
                0 <= j < i ==> samples@[j] == pack_spec(
                    img.pixels@[j].r,
                    img.pixels@[j].g,
                    img.pixels@[j].b,
                    img.pixels@[j].a > 0,
                ),
        decreases n - i,
    {
        let p = img.pixels[i];
        samples.push(pack(p.r, p.g, p.b, p.a > 0));
        i += 1;
    }
    PackedImage { width: img.width, height: img.height, samples }
}

/// Unpack a decoded image into an RGBA buffer. Succeeds exactly when the
/// decoded image is single-channel 16-bit; any other pixel format is
/// rejected with a format mismatch, never reinterpreted.
pub fn unpack_image(img: &DecodedImage) -> (out: Result<RgbaImage, TranscodeError>)
    requires
        img.wf(),
    ensures
        match *img {
            DecodedImage::Luma16(src) => match out {
                Ok(rgba) => rgba.wf() && rgba.width == src.width && rgba.height == src.height
                    && rgba.pixels@.len() == src.samples@.len() && forall|i: int|
                    0 <= i < src.samples@.len() ==> ({
                        let (r, g, b, a) = unpack_spec(src.samples@[i]);
                        #[trigger] rgba.pixels@[i] == (Rgba { r, g, b, a })
                    }),
                Err(_) => false,
            },
            DecodedImage::Other(_) => out == Err::<RgbaImage, TranscodeError>(
                TranscodeError::FormatMismatch,
            ),
        },
{
    match img {
        DecodedImage::Luma16(src) => {
            let n = src.samples.len();
            let mut pixels: Vec<Rgba> = Vec::new();
            let mut i: usize = 0;
            while i < n
                invariant
                    i <= n,
                    n == src.samples@.len(),
                    pixels@.len() == i,
                    forall|j: int|
                        0 <= j < i ==> ({
                            let (r, g, b, a) = unpack_spec(src.samples@[j]);
                            #[trigger] pixels@[j] == (Rgba { r, g, b, a })
                        }),
                decreases n - i,
            {
                let (r, g, b, a) = unpack(src.samples[i]);
                pixels.push(Rgba { r, g, b, a });
                i += 1;
            }
            Ok(RgbaImage { width: src.width, height: src.height, pixels })
        },
        DecodedImage::Other(_) => Err(TranscodeError::FormatMismatch),
    }
}

} // verus!
