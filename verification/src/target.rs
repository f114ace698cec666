//! Layout of the offscreen render target and of the buffer it is read back into.

use vstd::prelude::*;

verus! {

/// Bytes taken by one RGBA8 pixel.
pub const BYTES_PER_PIXEL: u32 = 4;

/// Alignment, in bytes, of every row of a buffer that receives a texture copy.
pub const ROW_ALIGNMENT: u32 = 256;

/// Widest target whose padded row length still fits in a `u32`.
pub const MAX_TARGET_WIDTH: u32 = 1_073_741_760;

/// `n` rounded up to the next multiple of `align`.
pub open spec fn round_up(n: int, align: int) -> int {
    ((n + align - 1) / align) * align
}

/// Bytes between the starts of two consecutive rows of a target `width` pixels
/// wide: four bytes per pixel, rounded up to the next multiple of 256.
pub open spec fn row_stride(width: nat) -> nat {
    round_up((4 * width) as int, 256) as nat
}

/// The row stride is a multiple of the alignment, holds a whole row, and wastes
/// less than one alignment unit.
pub proof fn lemma_row_stride_bounds(width: nat)
    ensures
        row_stride(width) % 256 == 0,
        4 * width <= row_stride(width) < 4 * width + 256,
{
}

/// The row stride is the only multiple of 256 in `[4 * width, 4 * width + 256)`,
/// hence the least multiple of 256 that holds a row.
pub proof fn lemma_row_stride_unique(width: nat, stride: nat)
    requires
        stride % 256 == 0,
        4 * width <= stride < 4 * width + 256,
    ensures
        stride == row_stride(width),
{
}

/// Row stride of a target `width` pixels wide.
pub fn padded_bytes_per_row(width: u32) -> (padded: u32)
    requires
        width <= MAX_TARGET_WIDTH,
    ensures
        padded == row_stride(width as nat),
{
    let unpadded: u32 = width * BYTES_PER_PIXEL;
    let padding: u32 = (ROW_ALIGNMENT - unpadded % ROW_ALIGNMENT) % ROW_ALIGNMENT;
    unpadded + padding
}

/// Where a frame is rendered and where it is read back: a texture of `width` by
/// `height` pixels and a buffer of `height` rows, `row_stride_bytes` apart.
#[derive(Clone, Copy, Debug, PartialEq, Eq, Structural)]
pub struct OutputTarget {
    pub width: u32,
    pub height: u32,
    pub row_stride_bytes: u32,
    pub buffer_size: u64,
}

/// The target of `width` by `height` pixels: its rows are `row_stride(width)`
/// bytes apart and its buffer holds `height` of them.
pub open spec fn target_layout(width: u32, height: u32) -> OutputTarget {
    OutputTarget {
        width,
        height,
        row_stride_bytes: row_stride(width as nat) as u32,
        buffer_size: (row_stride(width as nat) * height) as u64,
    }
}

/// The layout of every target that is not too wide fits its fields: the row
/// stride in a `u32`, the buffer size in a `u64`.
pub proof fn lemma_target_layout_fits(width: u32, height: u32)
    requires
        width <= MAX_TARGET_WIDTH,
    ensures
        target_layout(width, height).row_stride_bytes == row_stride(width as nat),
        target_layout(width, height).buffer_size == row_stride(width as nat) * height,
{
    let stride = row_stride(width as nat);
    assert(stride <= 0xffff_ff00);
    assert(stride * height <= 0xffff_ffff_ffff_ffff) by (nonlinear_arith)
        requires
            stride <= 0xffff_ff00,
            height <= 0xffff_ffff,
    ;
}

/// Where the four bytes of the pixel in column `x` of row `y` start, in a
/// buffer whose rows are `stride` bytes apart.
pub open spec fn pixel_offset(stride: nat, x: nat, y: nat) -> nat {
    y * stride + 4 * x
}

/// Every pixel of a target lies within the target's buffer.
pub proof fn lemma_target_holds_every_pixel(width: u32, height: u32, x: nat, y: nat)
    requires
        width <= MAX_TARGET_WIDTH,
        x < width,
        y < height,
    ensures
        pixel_offset(row_stride(width as nat), x, y) + 4 <= target_layout(width, height).buffer_size,
{
    lemma_target_layout_fits(width, height);
    let stride = row_stride(width as nat);
    assert(y * stride + stride <= stride * height) by (nonlinear_arith)
        requires
            y < height,
    ;
}

/// No two pixels of a target share a byte of its buffer: the padding never
/// lets one row run into the next.
pub proof fn lemma_pixels_do_not_overlap(width: u32, x1: nat, y1: nat, x2: nat, y2: nat)
    requires
        x1 < width,
        x2 < width,
        y1 < y2 || (y1 == y2 && x1 < x2),
    ensures
        pixel_offset(row_stride(width as nat), x1, y1) + 4 <= pixel_offset(
            row_stride(width as nat),
            x2,
            y2,
        ),
{
    let stride = row_stride(width as nat);
    if y1 < y2 {
        assert(y1 * stride + stride <= y2 * stride) by (nonlinear_arith)
            requires
                y1 < y2,
        ;
    }
}

} // verus!
