use tauri_mcp::placeholder::{placeholder, Shade, PLACEHOLDER_HEIGHT, PLACEHOLDER_WIDTH};

#[test]
fn placeholders_have_the_fixed_size() {
    assert_eq!(PLACEHOLDER_WIDTH, 800);
    assert_eq!(PLACEHOLDER_HEIGHT, 600);
    for shade in [Shade::Plain, Shade::Gradient] {
        let image = placeholder(shade);
        assert_eq!(image.width(), 800);
        assert_eq!(image.height(), 600);
        assert_eq!(image.pixels().len(), 800 * 600 * 4);
    }
}

#[test]
fn plain_placeholder_is_light_grey() {
    let image = placeholder(Shade::Plain);
    for pixel in image.pixels().chunks(4) {
        assert_eq!(pixel, &[240, 240, 240, 255]);
    }
}

#[test]
fn gradient_rows_are_uniform() {
    let image = placeholder(Shade::Gradient);
    let pixels = image.pixels();
    for y in 0..600usize {
        let first = &pixels[y * 800 * 4..y * 800 * 4 + 4];
        for x in [1usize, 399, 799] {
            let at = (y * 800 + x) * 4;
            assert_eq!(&pixels[at..at + 4], first);
        }
    }
}

#[test]
fn gradient_ends() {
    let image = placeholder(Shade::Gradient);
    let pixels = image.pixels();
    assert_eq!(&pixels[0..4], &[102, 126, 234, 255]);
    let last = (599 * 800) * 4;
    assert_eq!(&pixels[last..last + 4], &[117, 75, 162, 255]);
    let middle = (300 * 800) * 4;
    assert_eq!(&pixels[middle..middle + 4], &[110, 100, 198, 255]);
}

#[test]
fn gradient_follows_the_straight_line_in_single_precision() {
    let image = placeholder(Shade::Gradient);
    let pixels = image.pixels();
    let height = 600u32;
    for y in 0..height {
        let factor = y as f32 / height as f32;
        let r = (102.0 + (118.0 - 102.0) * factor) as u8;
        let g = (126.0 + (75.0 - 126.0) * factor) as u8;
        let b = (234.0 + (162.0 - 234.0) * factor) as u8;
        let at = (y as usize * 800) * 4;
        assert_eq!(&pixels[at..at + 4], &[r, g, b, 255], "row {}", y);
    }
}

#[test]
fn placeholders_are_deterministic() {
    assert_eq!(placeholder(Shade::Gradient), placeholder(Shade::Gradient));
    assert_eq!(placeholder(Shade::Plain), placeholder(Shade::Plain));
    assert_ne!(placeholder(Shade::Plain), placeholder(Shade::Gradient));
}
