use iris::renderer::IrisRenderer;
use iris::target::{padded_bytes_per_row, MAX_TARGET_WIDTH};

#[test]
fn row_stride_rounds_up_to_256() {
    assert_eq!(padded_bytes_per_row(1), 256);
    assert_eq!(padded_bytes_per_row(64), 256);
    assert_eq!(padded_bytes_per_row(65), 512);
    assert_eq!(padded_bytes_per_row(100), 512);
    assert_eq!(padded_bytes_per_row(200), 1024);
    assert_eq!(padded_bytes_per_row(1920), 7680);
}

#[test]
fn row_stride_of_no_pixels_is_zero() {
    assert_eq!(padded_bytes_per_row(0), 0);
}

#[test]
fn row_stride_of_the_widest_target_fits() {
    assert_eq!(padded_bytes_per_row(MAX_TARGET_WIDTH), 4_294_967_040);
}

#[test]
fn target_buffer_holds_every_row() {
    let target = IrisRenderer::create_targets(200, 150);
    assert_eq!(target.width, 200);
    assert_eq!(target.height, 150);
    assert_eq!(target.row_stride_bytes, 1024);
    assert_eq!(target.buffer_size, 153_600);
}

#[test]
fn target_of_the_largest_size_fits_its_fields() {
    let target = IrisRenderer::create_targets(MAX_TARGET_WIDTH, u32::MAX);
    assert_eq!(target.row_stride_bytes, 4_294_967_040);
    assert_eq!(target.buffer_size, 4_294_967_040u64 * 4_294_967_295u64);
}

#[test]
fn target_without_rows_has_an_empty_buffer() {
    let target = IrisRenderer::create_targets(10, 0);
    assert_eq!(target.row_stride_bytes, 256);
    assert_eq!(target.buffer_size, 0);
}
