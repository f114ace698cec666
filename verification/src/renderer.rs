//! The frame renderer's bookkeeping: which target it draws into, which picture
//! it shows, and what each of its steps asks of the graphics layer.

use vstd::prelude::*;
use image::DynamicImage;
use crate::camera::Camera;
use crate::decode::rgba8_size;
use crate::picture::{
    image_scale, image_scale_of, pixel_error, size_error, DecodedImage, DecodedImageView,
    ImageScale, PixelError, MAX_IMAGE_WIDTH,
};
use crate::ratio::Ratio;
use crate::target::{
    lemma_target_layout_fits, padded_bytes_per_row, row_stride, target_layout, OutputTarget,
    MAX_TARGET_WIDTH,
};

verus! {

/// Vertices of one draw: two triangles that make the quad.
pub const QUAD_VERTEX_COUNT: u32 = 6;

/// What filling the picture's texture takes: a texture of `width` by `height`
/// pixels and the bytes to write into it, `bytes_per_row` for each of
/// `rows_per_image` rows.
#[derive(Debug, PartialEq, Eq)]
pub struct TextureUpload {
    pub width: u32,
    pub height: u32,
    pub bytes_per_row: u32,
    pub rows_per_image: u32,
    pub pixels: Vec<u8>,
}

impl TextureUpload {
    /// The upload writes exactly `image`: same size, same bytes, rows tightly packed.
    pub open spec fn carries(&self, image: DecodedImageView) -> bool {
        &&& self.width == image.width
        &&& self.height == image.height
        &&& self.bytes_per_row == 4 * image.width
        &&& self.rows_per_image == image.height
        &&& self.pixels@ == image.pixels
    }

    /// The upload is one of a picture that has pixels and is not too wide:
    /// four bytes for each pixel, in rows tightly packed.
    pub open spec fn is_tight(&self) -> bool {
        &&& pixel_error(self.width, self.height, self.pixels@.len()) is None
        &&& self.bytes_per_row == 4 * self.width
        &&& self.rows_per_image == self.height
    }
}

/// What drawing one frame takes.
#[derive(Clone, Copy, Debug, PartialEq, Eq, Structural)]
pub struct FramePlan {
    /// Aspect ratio of the viewport: the horizontal half-extent of the
    /// projection, in world units; the vertical one is one.
    pub aspect_ratio: Ratio,
    /// Size of the quad in world units.
    pub image_scale: ImageScale,
    /// Vertices to draw.
    pub vertex_count: u32,
    /// The target to draw into and to copy out of, row by row.
    pub target: OutputTarget,
}

/// How the bytes of a frame make up its pixels.
#[derive(Clone, Copy, Debug, PartialEq, Eq, Structural)]
pub enum PixelFormat {
    /// Four bytes per pixel: red, green, blue, alpha.
    Rgba8,
}

/// A frame read back from the graphics layer: `height` rows of `width`
/// pixels, `row_stride_bytes` apart.
#[derive(Debug, PartialEq, Eq)]
pub struct Frame {
    pub width: u32,
    pub height: u32,
    pub pixel_format: PixelFormat,
    pub row_stride_bytes: u32,
    pub bytes: Vec<u8>,
}

impl Frame {
    /// The frame is what was read back, as `bytes`, from `target`.
    pub open spec fn shows(&self, target: OutputTarget, bytes: Seq<u8>) -> bool {
        &&& self.width == target.width
        &&& self.height == target.height
        &&& self.pixel_format == PixelFormat::Rgba8
        &&& self.row_stride_bytes == target.row_stride_bytes
        &&& self.bytes@ == bytes
    }
}

/// What the renderer keeps: the target it draws into and the size of the
/// picture it shows.
pub struct RendererView {
    pub target: OutputTarget,
    pub image_dims: (u32, u32),
}

impl RendererView {
    /// The target has pixels and the layout of its size; so has the picture.
    pub open spec fn wf(self) -> bool {
        &&& 0 < self.target.width <= MAX_TARGET_WIDTH
        &&& 0 < self.target.height
        &&& self.target == target_layout(self.target.width, self.target.height)
        &&& 0 < self.image_dims.0 <= MAX_IMAGE_WIDTH
        &&& 0 < self.image_dims.1
    }

    /// A renderer that was just made: the target asked for, and the one white
    /// pixel that stands in until a picture is loaded.
    pub open spec fn initial(width: u32, height: u32) -> RendererView {
        RendererView { target: target_layout(width, height), image_dims: (1, 1) }
    }

    /// A resize to `width` by `height` takes effect: both are positive and
    /// they are not the size the target already has.
    pub open spec fn accepts_resize(self, width: u32, height: u32) -> bool {
        width > 0 && height > 0 && (width != self.target.width || height != self.target.height)
    }

    /// The renderer after a resize to `width` by `height`.
    pub open spec fn resized(self, width: u32, height: u32) -> RendererView {
        if self.accepts_resize(width, height) {
            RendererView { target: target_layout(width, height), image_dims: self.image_dims }
        } else {
            self
        }
    }

    /// The target that a resize to `width` by `height` has the graphics layer
    /// allocate, if any.
    pub open spec fn reallocation(self, width: u32, height: u32) -> Option<OutputTarget> {
        if self.accepts_resize(width, height) {
            Some(target_layout(width, height))
        } else {
            None
        }
    }

    /// The renderer after a picture of `width` by `height` pixels was installed.
    pub open spec fn with_image(self, width: u32, height: u32) -> RendererView {
        RendererView { target: self.target, image_dims: (width, height) }
    }

    /// What drawing one frame through a viewport of aspect `aspect` takes.
    pub open spec fn frame_plan(self, aspect: Ratio) -> FramePlan {
        FramePlan {
            aspect_ratio: aspect,
            image_scale: image_scale_of(self.image_dims.0, self.image_dims.1),
            vertex_count: QUAD_VERTEX_COUNT,
            target: self.target,
        }
    }
}

/// A resize to a size that has pixels gives the target the row stride of its
/// width: four bytes per pixel, rounded up to the next multiple of 256.
pub proof fn lemma_resize_sets_row_stride(r: RendererView, width: u32, height: u32)
    requires
        r.wf(),
        0 < width <= MAX_TARGET_WIDTH,
        0 < height,
    ensures
        r.resized(width, height).wf(),
        r.resized(width, height).target.width == width,
        r.resized(width, height).target.height == height,
        r.resized(width, height).target.row_stride_bytes == row_stride(width as nat),
        r.resized(width, height).target.buffer_size == row_stride(width as nat) * height,
{
    lemma_target_layout_fits(width, height);
}

/// Every resize keeps the renderer well formed and the picture it shows,
/// whether it takes effect or not; a size whose row would not fit is left out
/// only where the resize would take it.
pub proof fn lemma_resize_keeps_renderer(r: RendererView, width: u32, height: u32)
    requires
        r.wf(),
        width > 0 && height > 0 ==> width <= MAX_TARGET_WIDTH,
    ensures
        r.resized(width, height).wf(),
        r.resized(width, height).image_dims == r.image_dims,
{
    if width > 0 && height > 0 {
        lemma_target_layout_fits(width, height);
    }
}

/// Resizing twice to the same size is resizing once: the second call allocates
/// nothing and leaves the renderer, its row stride included, as the first
/// call left it.
pub proof fn lemma_resize_is_idempotent(r: RendererView, width: u32, height: u32)
    ensures
        r.resized(width, height).reallocation(width, height) is None,
        r.resized(width, height).resized(width, height) == r.resized(width, height),
{
}

/// A resize to the size that the target has, or to one without pixels,
/// allocates nothing and changes nothing.
pub proof fn lemma_resize_without_change(r: RendererView, width: u32, height: u32)
    requires
        width == 0 || height == 0 || (width == r.target.width && height == r.target.height),
    ensures
        r.reallocation(width, height) is None,
        r.resized(width, height) == r,
{
}

/// The frame renderer, as far as it can be told without a graphics device.
#[derive(Clone, Copy, Debug, PartialEq, Eq)]
pub struct IrisRenderer {
    target: OutputTarget,
    image_dims: (u32, u32),
}

impl View for IrisRenderer {
    type V = RendererView;

    closed spec fn view(&self) -> RendererView {
        RendererView { target: self.target, image_dims: self.image_dims }
    }
}

impl IrisRenderer {
    #[verifier::type_invariant]
    spec fn inv(self) -> bool {
        self@.wf()
    }

    /// A renderer that draws into a target of `width` by `height` pixels and
    /// shows no picture yet.
    pub fn new(width: u32, height: u32) -> (renderer: IrisRenderer)
        requires
            0 < width <= MAX_TARGET_WIDTH,
            0 < height,
        ensures
            renderer@ == RendererView::initial(width, height),
            renderer@.wf(),
    {
        IrisRenderer { target: Self::create_targets(width, height), image_dims: (1, 1) }
    }

    /// Lays out the target of `width` by `height` pixels: the texture to draw
    /// into, and the buffer it is copied to, whose rows are padded to the
    /// copy alignment.
    pub fn create_targets(width: u32, height: u32) -> (target: OutputTarget)
        requires
            width <= MAX_TARGET_WIDTH,
        ensures
            target == target_layout(width, height),
            target.row_stride_bytes == row_stride(width as nat),
            target.buffer_size == row_stride(width as nat) * height,
    {
        proof {
            lemma_target_layout_fits(width, height);
        }
        let padded: u32 = padded_bytes_per_row(width);
        assert(padded * height <= 0xffff_ffff_ffff_ffff) by (nonlinear_arith)
            requires
                padded <= 0xffff_ff00,
                height <= 0xffff_ffff,
        ;
        let buffer_size: u64 = (padded as u64) * (height as u64);
        OutputTarget { width, height, row_stride_bytes: padded, buffer_size }
    }

    /// The target the renderer draws into.
    pub fn target(&self) -> (target: OutputTarget)
        ensures
            target == self@.target,
            self@.wf(),
    {
        proof {
            use_type_invariant(self);
        }
        self.target
    }

    /// Width of the target in pixels.
    pub fn width(&self) -> (width: u32)
        ensures
            width == self@.target.width,
    {
        self.target.width
    }

    /// Height of the target in pixels.
    pub fn height(&self) -> (height: u32)
        ensures
            height == self@.target.height,
    {
        self.target.height
    }

    /// Bytes between two rows of the readback buffer.
    pub fn padded_bytes_per_row(&self) -> (padded: u32)
        ensures
            padded == self@.target.row_stride_bytes,
    {
        self.target.row_stride_bytes
    }

    /// Size in pixels of the picture shown.
    pub fn image_dims(&self) -> (dims: (u32, u32))
        ensures
            dims == self@.image_dims,
    {
        self.image_dims
    }

    /// Makes `image` the picture shown and says how to fill its texture.
    pub fn install_image(&mut self, image: DecodedImage) -> (upload: TextureUpload)
        ensures
            final(self)@ == old(self)@.with_image(image@.width, image@.height),
            final(self)@.wf(),
            upload.carries(image@),
            upload.is_tight(),
    {
        proof {
            use_type_invariant(&*self);
        }
        let width: u32 = image.width();
        let height: u32 = image.height();
        let pixels: Vec<u8> = image.into_pixels();
        *self = IrisRenderer { target: self.target, image_dims: (width, height) };
        TextureUpload { width, height, bytes_per_row: 4 * width, rows_per_image: height, pixels }
    }

    /// Converts `img` to RGBA8 and makes it the picture shown. A picture
    /// without pixels, or too wide, is refused and changes nothing; any other
    /// is installed, at the size it has.
    pub fn load_image(&mut self, img: &DynamicImage) -> (loaded: Result<TextureUpload, PixelError>)
        ensures
            final(self)@.wf(),
            match loaded {
                Ok(upload) => {
                    &&& size_error(rgba8_size(*img).0, rgba8_size(*img).1) is None
                    &&& final(self)@ == old(self)@.with_image(
                        rgba8_size(*img).0,
                        rgba8_size(*img).1,
                    )
                    &&& upload.width == rgba8_size(*img).0
                    &&& upload.height == rgba8_size(*img).1
                    &&& upload.is_tight()
                },
                Err(reason) => {
                    &&& size_error(rgba8_size(*img).0, rgba8_size(*img).1) == Some(reason)
                    &&& final(self)@ == old(self)@
                },
            },
    {
        proof {
            use_type_invariant(&*self);
        }
        match DecodedImage::from_image(img) {
            Ok(image) => Ok(self.install_image(image)),
            Err(reason) => Err(reason),
        }
    }

    /// Follows a viewport of `width` by `height` pixels. A size that is not
    /// positive, or that the target already has, changes nothing; any other
    /// has the target laid out anew and returned for allocation.
    pub fn resize(&mut self, width: u32, height: u32) -> (allocation: Option<OutputTarget>)
        requires
            width > 0 && height > 0 ==> width <= MAX_TARGET_WIDTH,
        ensures
            final(self)@ == old(self)@.resized(width, height),
            allocation == old(self)@.reallocation(width, height),
            final(self)@.wf(),
    {
        proof {
            use_type_invariant(&*self);
        }
        if width > 0 && height > 0 && (width != self.target.width || height != self.target.height) {
            let target = Self::create_targets(width, height);
            *self = IrisRenderer { target, image_dims: self.image_dims };
            Some(target)
        } else {
            None
        }
    }

    /// What drawing one frame through `camera` takes.
    pub fn render(&self, camera: &Camera) -> (plan: FramePlan)
        ensures
            plan == self@.frame_plan(camera.aspect()),
    {
        FramePlan {
            aspect_ratio: camera.aspect_ratio(),
            image_scale: image_scale(self.image_dims.0, self.image_dims.1),
            vertex_count: QUAD_VERTEX_COUNT,
            target: self.target,
        }
    }

    /// The frame that `bytes`, read back from the target's buffer, make up; or
    /// `None` where they are not the whole buffer.
    pub fn frame(&self, bytes: Vec<u8>) -> (frame: Option<Frame>)
        ensures
            frame is Some <==> bytes@.len() == self@.target.buffer_size,
            frame matches Some(f) ==> f.shows(self@.target, bytes@),
    {
        if bytes.len() as u64 == self.target.buffer_size {
            Some(Frame {
                width: self.target.width,
                height: self.target.height,
                pixel_format: PixelFormat::Rgba8,
                row_stride_bytes: self.target.row_stride_bytes,
                bytes,
            })
        } else {
            None
        }
    }
}

} // verus!
