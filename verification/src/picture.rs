//! Decoded pictures: the pixel buffer a texture is filled from, and the scale
//! that lets the quad keep the picture's shape.

use vstd::prelude::*;
use image::DynamicImage;
use crate::decode::{rgba8_pixels, rgba8_size};
use crate::ratio::Ratio;

verus! {

/// Widest picture whose tightly packed row length, four bytes per pixel, still
/// fits in a `u32`.
pub const MAX_IMAGE_WIDTH: u32 = 1_073_741_823;

/// Size of the quad in world units, one exact ratio per axis.
#[derive(Clone, Copy, Debug, PartialEq, Eq, Structural)]
pub struct ImageScale {
    pub x: Ratio,
    pub y: Ratio,
}

/// Scale of a picture whose aspect is `aspect`: the longer axis spans one world
/// unit and the shorter one shrinks by the aspect, so a wide picture gets
/// `(1, 1 / aspect)` and any other `(aspect, 1)`.
pub open spec fn scale_for_aspect(aspect: Ratio) -> ImageScale {
    if aspect.exceeds_one() {
        ImageScale { x: Ratio::spec_one(), y: aspect.reciprocal() }
    } else {
        ImageScale { x: aspect, y: Ratio::spec_one() }
    }
}

/// Scale of a picture of `width` by `height` pixels.
pub open spec fn image_scale_of(width: u32, height: u32) -> ImageScale {
    scale_for_aspect(Ratio { num: width, den: height })
}

/// For a picture of aspect `a = width / height`: where `a > 1` the scale is
/// `(1, 1 / a)`, elsewhere it is `(a, 1)`; either way both components lie in
/// `(0, 1]`.
pub proof fn lemma_image_scale_by_aspect(width: u32, height: u32)
    requires
        width > 0,
        height > 0,
    ensures
        ({
            let a = Ratio { num: width, den: height };
            let scale = image_scale_of(width, height);
            &&& a.exceeds_one() <==> width > height
            &&& a.exceeds_one() ==> scale.x == Ratio::spec_one() && scale.y == a.reciprocal()
            &&& !a.exceeds_one() ==> scale.x == a && scale.y == Ratio::spec_one()
            &&& scale.x.in_unit_interval()
            &&& scale.y.in_unit_interval()
        }),
{
}

/// The scale keeps the picture's shape: width over height of the quad, in
/// world units, is the picture's aspect.
pub proof fn lemma_image_scale_keeps_aspect(width: u32, height: u32)
    requires
        width > 0,
        height > 0,
    ensures
        ({
            let s = image_scale_of(width, height);
            s.x.num * s.y.den * height == s.y.num * s.x.den * width
        }),
{
    let s = image_scale_of(width, height);
    if width > height {
        assert(s.x.num * s.y.den * height == s.y.num * s.x.den * width) by (nonlinear_arith)
            requires
                s.x.num == 1,
                s.x.den == 1,
                s.y.num == height,
                s.y.den == width,
        ;
    } else {
        assert(s.x.num * s.y.den * height == s.y.num * s.x.den * width) by (nonlinear_arith)
            requires
                s.y.num == 1,
                s.y.den == 1,
                s.x.num == width,
                s.x.den == height,
        ;
    }
}

/// Scale of a picture of `width` by `height` pixels.
pub fn image_scale(width: u32, height: u32) -> (scale: ImageScale)
    ensures
        scale == image_scale_of(width, height),
{
    if width > height {
        ImageScale { x: Ratio::one(), y: Ratio { num: height, den: width } }
    } else {
        ImageScale { x: Ratio { num: width, den: height }, y: Ratio::one() }
    }
}

/// Why a pixel buffer cannot fill a texture.
#[derive(Clone, Copy, Debug, PartialEq, Eq, Structural)]
pub enum PixelError {
    /// The picture has no pixels: its width or its height is zero.
    EmptyImage,
    /// The picture is wider than `MAX_IMAGE_WIDTH`.
    TooWide,
    /// The buffer does not hold four bytes for each pixel, no more and no less.
    WrongLength,
}

/// Bytes of a tightly packed RGBA8 buffer of `width` by `height` pixels.
pub open spec fn rgba8_len(width: u32, height: u32) -> nat {
    (4 * width * height) as nat
}

/// The reason, if any, for which no texture can hold a picture of `width` by
/// `height` pixels: it has no pixels, or it is too wide.
pub open spec fn size_error(width: u32, height: u32) -> Option<PixelError> {
    if width == 0 || height == 0 {
        Some(PixelError::EmptyImage)
    } else if width > MAX_IMAGE_WIDTH {
        Some(PixelError::TooWide)
    } else {
        None
    }
}

/// The first reason, if any, for which `len` bytes cannot be a picture of
/// `width` by `height` pixels.
pub open spec fn pixel_error(width: u32, height: u32, len: nat) -> Option<PixelError> {
    if size_error(width, height) is Some {
        size_error(width, height)
    } else if len != rgba8_len(width, height) {
        Some(PixelError::WrongLength)
    } else {
        None
    }
}

/// The first reason, if any, for which the front of `len` bytes cannot be a
/// picture of `width` by `height` pixels.
pub open spec fn prefix_error(width: u32, height: u32, len: nat) -> Option<PixelError> {
    if size_error(width, height) is Some {
        size_error(width, height)
    } else if len < rgba8_len(width, height) {
        Some(PixelError::WrongLength)
    } else {
        None
    }
}

/// Bytes of a tightly packed RGBA8 buffer of `width` by `height` pixels, or
/// why there is no such buffer.
fn rgba8_byte_count(width: u32, height: u32) -> (count: Result<u64, PixelError>)
    ensures
        match count {
            Ok(n) => size_error(width, height) is None && n == rgba8_len(width, height),
            Err(reason) => size_error(width, height) == Some(reason),
        },
{
    if width == 0 || height == 0 {
        return Err(PixelError::EmptyImage);
    }
    if width > MAX_IMAGE_WIDTH {
        return Err(PixelError::TooWide);
    }
    let row: u64 = 4 * (width as u64);
    assert(row * height <= 0xffff_ffff_ffff_ffff) by (nonlinear_arith)
        requires
            row <= 0xffff_fffc,
            height <= 0xffff_ffff,
    ;
    let count: u64 = row * (height as u64);
    assert(count == 4 * width * height) by (nonlinear_arith)
        requires
            count == row * height,
            row == 4 * width,
    ;
    Ok(count)
}

/// What a decoded picture is: its size and its bytes, row after row, four per pixel.
pub struct DecodedImageView {
    pub width: u32,
    pub height: u32,
    pub pixels: Seq<u8>,
}

impl DecodedImageView {
    /// The picture has pixels, is not too wide and holds four bytes for each pixel.
    pub open spec fn wf(self) -> bool {
        pixel_error(self.width, self.height, self.pixels.len()) is None
    }
}

/// A decoded picture: `width` by `height` RGBA8 pixels, tightly packed.
#[derive(Debug, PartialEq, Eq)]
pub struct DecodedImage {
    width: u32,
    height: u32,
    pixels: Vec<u8>,
}

impl View for DecodedImage {
    type V = DecodedImageView;

    closed spec fn view(&self) -> DecodedImageView {
        DecodedImageView { width: self.width, height: self.height, pixels: self.pixels@ }
    }
}

impl DecodedImage {
    #[verifier::type_invariant]
    spec fn inv(self) -> bool {
        self@.wf()
    }

    /// A picture of `width` by `height` pixels over `pixels`, or the reason why
    /// the buffer is none.
    pub fn new(width: u32, height: u32, pixels: Vec<u8>) -> (made: Result<DecodedImage, PixelError>)
        ensures
            match made {
                Ok(image) => {
                    &&& pixel_error(width, height, pixels@.len()) is None
                    &&& image@ == (DecodedImageView { width, height, pixels: pixels@ })
                    &&& image@.wf()
                },
                Err(reason) => pixel_error(width, height, pixels@.len()) == Some(reason),
            },
    {
        let expected: u64 = match rgba8_byte_count(width, height) {
            Ok(count) => count,
            Err(reason) => {
                return Err(reason);
            },
        };
        if pixels.len() as u64 != expected {
            return Err(PixelError::WrongLength);
        }
        Ok(DecodedImage { width, height, pixels })
    }

    /// The picture of `width` by `height` pixels at the front of `pixels`:
    /// what follows its last byte is dropped. A buffer too short for it is of
    /// the wrong length.
    pub fn from_prefix(width: u32, height: u32, pixels: Vec<u8>) -> (made: Result<
        DecodedImage,
        PixelError,
    >)
        ensures
            match made {
                Ok(image) => {
                    &&& prefix_error(width, height, pixels@.len()) is None
                    &&& image@ == (DecodedImageView {
                        width,
                        height,
                        pixels: pixels@.take(rgba8_len(width, height) as int),
                    })
                    &&& image@.wf()
                },
                Err(reason) => prefix_error(width, height, pixels@.len()) == Some(reason),
            },
    {
        let expected: u64 = match rgba8_byte_count(width, height) {
            Ok(count) => count,
            Err(reason) => {
                return Err(reason);
            },
        };
        if (pixels.len() as u64) < expected {
            return Err(PixelError::WrongLength);
        }
        let mut pixels = pixels;
        pixels.truncate(expected as usize);
        Ok(DecodedImage { width, height, pixels })
    }

    /// The decoder's picture `img`, converted to RGBA8. One without pixels,
    /// or too wide, is refused; any other is taken, at the size it has.
    pub fn from_image(img: &DynamicImage) -> (made: Result<DecodedImage, PixelError>)
        ensures
            match made {
                Ok(image) => {
                    &&& size_error(rgba8_size(*img).0, rgba8_size(*img).1) is None
                    &&& image@.width == rgba8_size(*img).0
                    &&& image@.height == rgba8_size(*img).1
                    &&& image@.wf()
                },
                Err(reason) => size_error(rgba8_size(*img).0, rgba8_size(*img).1) == Some(reason),
            },
    {
        let (width, height, pixels) = rgba8_pixels(img);
        Self::from_prefix(width, height, pixels)
    }

    /// Width in pixels.
    pub fn width(&self) -> (width: u32)
        ensures
            width == self@.width,
            0 < width <= MAX_IMAGE_WIDTH,
    {
        proof {
            use_type_invariant(self);
        }
        self.width
    }

    /// Height in pixels.
    pub fn height(&self) -> (height: u32)
        ensures
            height == self@.height,
            height > 0,
    {
        proof {
            use_type_invariant(self);
        }
        self.height
    }

    /// The bytes, row after row, four per pixel.
    pub fn pixels(&self) -> (pixels: &Vec<u8>)
        ensures
            pixels@ == self@.pixels,
            pixels@.len() == rgba8_len(self@.width, self@.height),
    {
        proof {
            use_type_invariant(self);
        }
        &self.pixels
    }

    /// Gives the bytes away.
    pub fn into_pixels(self) -> (pixels: Vec<u8>)
        ensures
            pixels@ == self@.pixels,
            pixels@.len() == rgba8_len(self@.width, self@.height),
    {
        proof {
            use_type_invariant(&self);
        }
        self.pixels
    }
}

} // verus!
