use base64::Engine;
use tauri_mcp::error::McpError;
use tauri_mcp::processor::{
    process_image, target_size, Obstacle, ProcessedImage, RawImage, JPEG_MAX_SIDE,
    RESIZE_MAX_SIDE,
};

fn solid(width: u32, height: u32, rgba: [u8; 4]) -> RawImage {
    let mut pixels = Vec::with_capacity((width * height * 4) as usize);
    for _ in 0..(width * height) {
        pixels.extend_from_slice(&rgba);
    }
    RawImage::from_rgba(width, height, pixels).unwrap()
}

fn decode(done: &ProcessedImage) -> image::RgbImage {
    let prefix = "data:image/jpeg;base64,";
    assert!(done.data_url.starts_with(prefix));
    let bytes =
        base64::engine::general_purpose::STANDARD.decode(&done.data_url[prefix.len()..]).unwrap();
    assert_eq!(&bytes[..2], &[0xff, 0xd8]);
    image::load_from_memory_with_format(&bytes, image::ImageFormat::Jpeg).unwrap().to_rgb8()
}

#[test]
fn from_rgba_checks_the_length() {
    assert!(RawImage::from_rgba(2, 2, vec![0; 16]).is_some());
    assert!(RawImage::from_rgba(2, 2, vec![0; 15]).is_none());
    assert!(RawImage::from_rgba(2, 2, vec![0; 17]).is_none());
    assert!(RawImage::from_rgba(0, 5, vec![]).is_some());
    assert!(RawImage::from_rgba(0, 5, vec![0; 4]).is_none());
    assert!(RawImage::from_rgba(u32::MAX, u32::MAX, vec![0; 4]).is_none());
}

#[test]
fn raw_image_getters() {
    let pixels: Vec<u8> = (0..24).collect();
    let image = RawImage::from_rgba(3, 2, pixels.clone()).unwrap();
    assert_eq!(image.width(), 3);
    assert_eq!(image.height(), 2);
    assert_eq!(image.pixels(), &pixels);
}

#[test]
fn target_size_keeps_narrow_images() {
    assert_eq!(target_size(800, 600, 1920), (800, 600));
    assert_eq!(target_size(1920, 1080, 1920), (1920, 1080));
    assert_eq!(target_size(1, 1, 1), (1, 1));
    assert_eq!(target_size(10, 4000, 10), (10, 4000));
}

#[test]
fn target_size_scales_wide_images() {
    assert_eq!(target_size(3840, 2160, 1920), (1920, 1080));
    assert_eq!(target_size(1000, 500, 300), (300, 150));
    assert_eq!(target_size(1000, 333, 100), (100, 33));
    assert_eq!(target_size(3, 2, 2), (2, 1));
    assert_eq!(target_size(1921, 1080, 1920), (1920, 1079));
}

#[test]
fn target_size_never_drops_below_one_row() {
    assert_eq!(target_size(1000, 1, 10), (10, 1));
    assert_eq!(target_size(u32::MAX, 1, 1), (1, 1));
    assert_eq!(target_size(u32::MAX, u32::MAX, 1), (1, 1));
    assert_eq!(target_size(u32::MAX, u32::MAX, u32::MAX - 1), (u32::MAX - 1, u32::MAX - 1));
}

#[test]
fn narrow_image_is_encoded_as_it_is() {
    let image = solid(20, 10, [200, 30, 30, 255]);
    let done = process_image(&image, 90, 1920).unwrap();
    assert_eq!((done.width, done.height), (20, 10));
    let decoded = decode(&done);
    assert_eq!(decoded.dimensions(), (20, 10));
    let p = decoded.get_pixel(10, 5);
    assert!(p[0] > 150 && p[1] < 100 && p[2] < 100, "{:?}", p);
}

#[test]
fn wide_image_is_resized() {
    let image = solid(64, 32, [10, 200, 10, 255]);
    let done = process_image(&image, 85, 16).unwrap();
    assert_eq!((done.width, done.height), (16, 8));
    let decoded = decode(&done);
    assert_eq!(decoded.dimensions(), (16, 8));
    let p = decoded.get_pixel(8, 4);
    assert!(p[1] > 150 && p[0] < 100 && p[2] < 100, "{:?}", p);
}

#[test]
fn resizing_keeps_the_picture() {
    let mut pixels = Vec::new();
    for _y in 0..20 {
        for x in 0..40 {
            if x < 20 {
                pixels.extend_from_slice(&[255, 255, 255, 255]);
            } else {
                pixels.extend_from_slice(&[0, 0, 0, 255]);
            }
        }
    }
    let image = RawImage::from_rgba(40, 20, pixels).unwrap();
    let done = process_image(&image, 100, 10).unwrap();
    assert_eq!((done.width, done.height), (10, 5));
    let decoded = decode(&done);
    assert!(decoded.get_pixel(1, 2)[0] > 200);
    assert!(decoded.get_pixel(8, 2)[0] < 50);
}

#[test]
fn quality_changes_the_encoding() {
    let mut pixels = Vec::new();
    let mut x: u32 = 1;
    for _ in 0..(32 * 32) {
        x = x.wrapping_mul(1664525).wrapping_add(1013904223);
        pixels.extend_from_slice(&[(x >> 24) as u8, (x >> 16) as u8, (x >> 8) as u8, 255]);
    }
    let image = RawImage::from_rgba(32, 32, pixels).unwrap();
    let low = process_image(&image, 10, 100).unwrap();
    let high = process_image(&image, 100, 100).unwrap();
    assert!(low.data_url.len() < high.data_url.len());
    let zero = process_image(&image, 0, 100).unwrap();
    let one = process_image(&image, 1, 100).unwrap();
    assert_eq!(zero.data_url, one.data_url);
}

#[test]
fn processing_is_deterministic() {
    let image = solid(50, 40, [1, 2, 3, 255]);
    assert_eq!(process_image(&image, 85, 25), process_image(&image, 85, 25));
}

#[test]
fn zero_area_image_fails() {
    let no_width = RawImage::from_rgba(0, 10, vec![]).unwrap();
    assert_eq!(
        process_image(&no_width, 85, 100),
        Err(McpError::CaptureFailed("the image has no area".to_string()))
    );
    let no_height = RawImage::from_rgba(10, 0, vec![]).unwrap();
    assert_eq!(
        process_image(&no_height, 85, 100),
        Err(McpError::CaptureFailed("the image has no area".to_string()))
    );
}

#[test]
fn image_too_tall_for_jpeg_fails() {
    assert_eq!(JPEG_MAX_SIDE, 65535);
    let tall = solid(1, 65536, [0, 0, 0, 255]);
    assert_eq!(
        process_image(&tall, 85, 100),
        Err(McpError::CaptureFailed("the image is too large to be encoded".to_string()))
    );
    let just_fits = solid(1, 65535, [0, 0, 0, 255]);
    let done = process_image(&just_fits, 85, 100).unwrap();
    assert_eq!((done.width, done.height), (1, 65535));
}

#[test]
fn obstacles_have_their_words() {
    assert_eq!(Obstacle::NoArea.text(), "the image has no area");
    assert_eq!(Obstacle::TooLargeToResize.text(), "the image is too large to be resized");
    assert_eq!(Obstacle::TooLargeToEncode.text(), "the image is too large to be encoded");
}

#[test]
fn encodability_is_settled_before_resizing() {
    let wide = solid(70000, 1, [0, 0, 0, 255]);
    assert_eq!(
        process_image(&wide, 85, 69999),
        Err(McpError::CaptureFailed("the image is too large to be encoded".to_string()))
    );
    assert_eq!(
        process_image(&wide, 85, 65536),
        Err(McpError::CaptureFailed("the image is too large to be encoded".to_string()))
    );
    let done = process_image(&wide, 85, 65535).unwrap();
    assert_eq!((done.width, done.height), (65535, 1));
}

#[test]
fn image_with_a_side_too_long_for_the_resizer_fails() {
    assert_eq!(RESIZE_MAX_SIDE, 1 << 20);
    let too_wide = solid(RESIZE_MAX_SIDE + 1, 1, [9, 9, 9, 255]);
    assert_eq!(
        process_image(&too_wide, 85, 100),
        Err(McpError::CaptureFailed("the image is too large to be resized".to_string()))
    );
    let too_tall = solid(17, RESIZE_MAX_SIDE + 1, [9, 9, 9, 255]);
    assert_eq!(target_size(17, RESIZE_MAX_SIDE + 1, 1), (1, 61681));
    assert_eq!(
        process_image(&too_tall, 85, 1),
        Err(McpError::CaptureFailed("the image is too large to be resized".to_string()))
    );
}

#[test]
fn longest_side_that_the_resizer_takes() {
    let widest = solid(RESIZE_MAX_SIDE, 1, [250, 250, 250, 255]);
    let done = process_image(&widest, 85, 100).unwrap();
    assert_eq!((done.width, done.height), (100, 1));
    let decoded = decode(&done);
    assert_eq!(decoded.dimensions(), (100, 1));
    assert!(decoded.get_pixel(99, 0)[0] > 200);
    let nearly = process_image(&widest, 85, 65535).unwrap();
    assert_eq!((nearly.width, nearly.height), (65535, 1));
    assert!(decode(&nearly).get_pixel(65534, 0)[0] > 200);
}
