//! The decoder's types, and the two calls that turn its values into plain ones.

use vstd::prelude::*;
use image::DynamicImage;
use image::ImageError;

verus! {

/// A picture as the decoder hands it over, in whichever pixel format the file had.
#[verifier::external_type_specification]
#[verifier::external_body]
pub struct ExDynamicImage(image::DynamicImage);

/// The decoder's error.
#[verifier::external_type_specification]
#[verifier::external_body]
pub struct ExImageError(image::ImageError);

/// Why decoding a file gave no picture.
#[derive(Clone, Copy, Debug, PartialEq, Eq, Structural)]
pub enum DecodeError {
    /// The data is not what its format prescribes.
    Decoding,
    /// The picture cannot be written in the format asked for.
    Encoding,
    /// An argument of an operation on pictures was wrong.
    Parameter,
    /// Decoding would take more memory than allowed.
    Limits,
    /// The format, or a feature of it, is not supported.
    Unsupported,
    /// The file could not be read.
    Io,
}

/// The size, width before height, of the picture that `DynamicImage::to_rgba8`
/// gives for `img`: the conversion keeps the size of the picture it is given.
pub uninterp spec fn rgba8_size(img: DynamicImage) -> (u32, u32);

/// `DynamicImage::to_rgba8`, with the size of the converted picture and its
/// buffer. Trusted: the size is `rgba8_size` of the picture, and the buffer
/// holds at least four bytes for each of the `width * height` pixels, as every
/// image buffer of the decoder does. Nothing is claimed of the bytes
/// themselves: the conversion of some formats goes through floating point.
#[verifier::external_body]
pub(crate) fn rgba8_pixels(img: &DynamicImage) -> (out: (u32, u32, Vec<u8>))
    ensures
        (out.0, out.1) == rgba8_size(*img),
        out.2@.len() >= 4 * out.0 * out.1,
{
    let rgba = img.to_rgba8();
    (rgba.width(), rgba.height(), rgba.into_raw())
}

/// The variant of an `ImageError`, without what it carries. Nothing is claimed
/// of the result.
#[verifier::external_body]
pub(crate) fn decode_error_kind(error: &ImageError) -> DecodeError {
    match error {
        ImageError::Decoding(_) => DecodeError::Decoding,
        ImageError::Encoding(_) => DecodeError::Encoding,
        ImageError::Parameter(_) => DecodeError::Parameter,
        ImageError::Limits(_) => DecodeError::Limits,
        ImageError::Unsupported(_) => DecodeError::Unsupported,
        ImageError::IoError(_) => DecodeError::Io,
    }
}

} // verus!
