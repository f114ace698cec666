use image::{DynamicImage, LumaA, Rgba, RgbaImage};
use iris::picture::{image_scale, DecodedImage, ImageScale, PixelError, MAX_IMAGE_WIDTH};
use iris::ratio::Ratio;

fn as_float(r: Ratio) -> f64 {
    r.num as f64 / r.den as f64
}

#[test]
fn wide_picture_is_scaled_down_vertically() {
    let scale: ImageScale = image_scale(200, 100);
    assert_eq!(scale.x, Ratio { num: 1, den: 1 });
    assert_eq!(scale.y, Ratio { num: 100, den: 200 });
    assert_eq!(as_float(scale.x), 1.0);
    assert_eq!(as_float(scale.y), 0.5);
}

#[test]
fn tall_picture_is_scaled_down_horizontally() {
    let scale: ImageScale = image_scale(100, 400);
    assert_eq!(scale.x, Ratio { num: 100, den: 400 });
    assert_eq!(scale.y, Ratio { num: 1, den: 1 });
    assert_eq!(as_float(scale.x), 0.25);
    assert_eq!(as_float(scale.y), 1.0);
}

#[test]
fn square_picture_fills_the_unit_quad() {
    let scale: ImageScale = image_scale(64, 64);
    assert_eq!(as_float(scale.x), 1.0);
    assert_eq!(as_float(scale.y), 1.0);
}

#[test]
fn scale_components_lie_in_the_unit_interval() {
    let sizes: [(u32, u32); 6] = [(1, 1), (1, 4000), (4000, 1), (1920, 1080), (3, 2), (2, 3)];
    for (w, h) in sizes {
        let scale: ImageScale = image_scale(w, h);
        for r in [scale.x, scale.y] {
            assert!(r.den > 0);
            assert!(0 < r.num && r.num <= r.den);
        }
        let aspect: f64 = w as f64 / h as f64;
        if aspect > 1.0 {
            assert_eq!(as_float(scale.x), 1.0);
            assert!((as_float(scale.y) - 1.0 / aspect).abs() < 1e-12);
        } else {
            assert!((as_float(scale.x) - aspect).abs() < 1e-12);
            assert_eq!(as_float(scale.y), 1.0);
        }
    }
}

#[test]
fn decoded_image_keeps_size_and_bytes() {
    let bytes: Vec<u8> = (0u8..24).collect();
    let image = DecodedImage::new(2, 3, bytes.clone()).unwrap();
    assert_eq!(image.width(), 2);
    assert_eq!(image.height(), 3);
    assert_eq!(image.pixels(), &bytes);
    assert_eq!(image.into_pixels(), bytes);
}

#[test]
fn decoded_image_without_pixels_is_refused() {
    assert_eq!(DecodedImage::new(0, 3, vec![]), Err(PixelError::EmptyImage));
    assert_eq!(DecodedImage::new(3, 0, vec![]), Err(PixelError::EmptyImage));
    assert_eq!(DecodedImage::new(0, 0, vec![1, 2, 3, 4]), Err(PixelError::EmptyImage));
}

#[test]
fn decoded_image_too_wide_is_refused() {
    assert_eq!(DecodedImage::new(MAX_IMAGE_WIDTH + 1, 1, vec![]), Err(PixelError::TooWide));
    assert_eq!(DecodedImage::new(u32::MAX, 1, vec![0; 4]), Err(PixelError::TooWide));
}

#[test]
fn decoded_image_of_wrong_length_is_refused() {
    assert_eq!(DecodedImage::new(2, 2, vec![0; 15]), Err(PixelError::WrongLength));
    assert_eq!(DecodedImage::new(2, 2, vec![0; 17]), Err(PixelError::WrongLength));
    assert_eq!(DecodedImage::new(MAX_IMAGE_WIDTH, u32::MAX, vec![0; 16]), Err(PixelError::WrongLength));
    assert!(DecodedImage::new(2, 2, vec![0; 16]).is_ok());
}

#[test]
fn prefix_drops_what_follows_the_picture() {
    let bytes: Vec<u8> = (0u8..20).collect();
    let image = DecodedImage::from_prefix(2, 2, bytes).unwrap();
    assert_eq!(image.width(), 2);
    assert_eq!(image.height(), 2);
    let expected: Vec<u8> = (0u8..16).collect();
    assert_eq!(image.into_pixels(), expected);
}

#[test]
fn prefix_of_a_short_buffer_is_refused() {
    assert_eq!(DecodedImage::from_prefix(2, 2, vec![0; 15]), Err(PixelError::WrongLength));
    assert_eq!(DecodedImage::from_prefix(0, 2, vec![0; 15]), Err(PixelError::EmptyImage));
    assert_eq!(DecodedImage::from_prefix(MAX_IMAGE_WIDTH + 1, 2, vec![0; 15]), Err(PixelError::TooWide));
    assert!(DecodedImage::from_prefix(2, 2, vec![0; 16]).is_ok());
}

#[test]
fn ratio_one_is_one_over_one() {
    assert_eq!(Ratio::one(), Ratio { num: 1, den: 1 });
}

#[test]
fn picture_of_the_decoder_is_converted_to_rgba() {
    let mut gray = image::GrayAlphaImage::new(2, 1);
    gray.put_pixel(0, 0, LumaA([9, 100]));
    gray.put_pixel(1, 0, LumaA([250, 0]));
    let image = DecodedImage::from_image(&DynamicImage::ImageLumaA8(gray)).unwrap();
    assert_eq!((image.width(), image.height()), (2, 1));
    assert_eq!(image.pixels(), &vec![9, 9, 9, 100, 250, 250, 250, 0]);
}

#[test]
fn picture_of_the_decoder_keeps_rows_in_order() {
    let mut rgba = RgbaImage::new(2, 2);
    rgba.put_pixel(0, 0, Rgba([1, 1, 1, 1]));
    rgba.put_pixel(1, 0, Rgba([2, 2, 2, 2]));
    rgba.put_pixel(0, 1, Rgba([3, 3, 3, 3]));
    rgba.put_pixel(1, 1, Rgba([4, 4, 4, 4]));
    let image = DecodedImage::from_image(&DynamicImage::ImageRgba8(rgba)).unwrap();
    assert_eq!(image.into_pixels(), vec![1, 1, 1, 1, 2, 2, 2, 2, 3, 3, 3, 3, 4, 4, 4, 4]);
}

#[test]
fn picture_of_the_decoder_without_pixels_is_refused() {
    assert_eq!(
        DecodedImage::from_image(&DynamicImage::new_rgb8(0, 4)),
        Err(PixelError::EmptyImage)
    );
    assert_eq!(
        DecodedImage::from_image(&DynamicImage::new_luma8(4, 0)),
        Err(PixelError::EmptyImage)
    );
}

#[test]
fn picture_of_the_decoder_is_taken_at_its_size() {
    for (w, h) in [(1, 1), (5, 2), (2, 5)] {
        let image = DecodedImage::from_image(&DynamicImage::new_rgba8(w, h)).unwrap();
        assert_eq!((image.width(), image.height()), (w, h));
        assert_eq!(image.pixels().len(), (4 * w * h) as usize);
    }
    let raw: Vec<u8> = vec![3; 40];
    let padded = RgbaImage::from_raw(3, 2, raw).unwrap();
    let image = DecodedImage::from_image(&DynamicImage::ImageRgba8(padded)).unwrap();
    assert_eq!((image.width(), image.height()), (3, 2));
    assert_eq!(image.pixels(), &vec![3; 24]);
}
