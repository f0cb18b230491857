//! The images that stand in where the pixels of a window cannot be had.
//!
//! Both have one fixed size. One is a plain light grey; the other runs from a
//! blue-violet in the first row to a purple in the last.

use crate::processor::{RawImage, RawImageView};
use vstd::prelude::*;

verus! {

/// The width of a placeholder.
pub const PLACEHOLDER_WIDTH: u32 = 800;

/// The height of a placeholder.
pub const PLACEHOLDER_HEIGHT: u32 = 600;

/// How a placeholder is coloured.
#[derive(Debug, Clone, Copy, PartialEq, Eq, Structural)]
pub enum Shade {
    /// Light grey throughout.
    Plain,
    /// From blue-violet at the top to purple at the bottom.
    Gradient,
}

/// The red, green and blue of row `y` in an image of `height` rows.
///
/// In a gradient each colour moves in a straight line from its value in the
/// first row towards its value below the last, and is cut to a whole number:
/// red from 102 towards 118, green from 126 towards 75, blue from 234 towards
/// 162.
pub open spec fn row_rgb(shade: Shade, y: int, height: int) -> (int, int, int) {
    match shade {
        Shade::Plain => (240, 240, 240),
        Shade::Gradient => (
            102 + (16 * y) / height,
            126 - (51 * y + height - 1) / height,
            234 - (72 * y + height - 1) / height,
        ),
    }
}

/// The byte at position `i` of the pixels of a placeholder: red, green, blue
/// and full opacity for each pixel, row by row.
pub open spec fn pixel_byte(shade: Shade, width: int, height: int, i: int) -> u8 {
    let rgb = row_rgb(shade, (i / 4) / width, height);
    if i % 4 == 0 {
        rgb.0 as u8
    } else if i % 4 == 1 {
        rgb.1 as u8
    } else if i % 4 == 2 {
        rgb.2 as u8
    } else {
        255u8
    }
}

/// The pixels of a placeholder of `width` by `height`.
pub open spec fn placeholder_pixels(shade: Shade, width: int, height: int) -> Seq<u8> {
    Seq::new((4 * (width * height)) as nat, |i: int| pixel_byte(shade, width, height, i))
}

/// The placeholder of the given shade.
pub open spec fn spec_placeholder(shade: Shade) -> RawImageView {
    RawImageView {
        width: PLACEHOLDER_WIDTH as int,
        height: PLACEHOLDER_HEIGHT as int,
        pixels: placeholder_pixels(shade, PLACEHOLDER_WIDTH as int, PLACEHOLDER_HEIGHT as int),
    }
}

/// The colours of a gradient stay between their two ends.
pub proof fn lemma_gradient_in_range(y: int, height: int)
    requires
        0 <= y < height,
    ensures
        102 <= row_rgb(Shade::Gradient, y, height).0 <= 117,
        75 <= row_rgb(Shade::Gradient, y, height).1 <= 126,
        162 <= row_rgb(Shade::Gradient, y, height).2 <= 234,
{
    assert(0 <= (16 * y) / height < 16) by (nonlinear_arith)
        requires
            0 <= y < height,
    ;
    assert(0 <= (51 * y + height - 1) / height <= 51) by (nonlinear_arith)
        requires
            0 <= y < height,
    ;
    assert(0 <= (72 * y + height - 1) / height <= 72) by (nonlinear_arith)
        requires
            0 <= y < height,
    ;
}

/// The red, green and blue of row `y`.
fn row_colour(shade: Shade, y: u32, height: u32) -> (r: (u8, u8, u8))
    requires
        y < height,
    ensures
        (r.0 as int, r.1 as int, r.2 as int) == row_rgb(shade, y as int, height as int),
{
    match shade {
        Shade::Plain => (240, 240, 240),
        Shade::Gradient => {
            proof {
                lemma_gradient_in_range(y as int, height as int);
            }
            let y64 = y as u64;
            let h64 = height as u64;
            let red = 102 + (16 * y64) / h64;
            let green = 126 - (51 * y64 + h64 - 1) / h64;
            let blue = 234 - (72 * y64 + h64 - 1) / h64;
            (red as u8, green as u8, blue as u8)
        },
    }
}

/// Pixel `x` of row `y` has the place `y * width + x`, and the row of that
/// place is `y` again.
proof fn lemma_row_of_place(y: int, x: int, width: int)
    requires
        0 <= y,
        0 <= x < width,
    ensures
        (y * width + x) / width == y,
{
    assert((y * width + x) / width == y) by (nonlinear_arith)
        requires
            0 <= y,
            0 <= x < width,
    ;
}

/// Paints a placeholder of `width` by `height`.
fn paint(shade: Shade, width: u32, height: u32) -> (r: Vec<u8>)
    ensures
        r@ == placeholder_pixels(shade, width as int, height as int),
{
    let mut out: Vec<u8> = Vec::new();
    let mut y: u32 = 0;
    while y < height
        invariant
            y <= height,
            out.len() == 4 * (y * width),
            forall|i: int|
                0 <= i < out.len() ==> out[i] == pixel_byte(shade, width as int, height as int, i),
        decreases height - y,
    {
        let (red, green, blue) = row_colour(shade, y, height);
        let mut x: u32 = 0;
        while x < width
            invariant
                x <= width,
                y < height,
                out.len() == 4 * (y * width + x),
                (red as int, green as int, blue as int) == row_rgb(shade, y as int, height as int),
                forall|i: int|
                    0 <= i < out.len() ==> out[i] == pixel_byte(
                        shade,
                        width as int,
                        height as int,
                        i,
                    ),
            decreases width - x,
        {
            let ghost place = y * width + x;
            proof {
                lemma_row_of_place(y as int, x as int, width as int);
            }
            out.push(red);
            out.push(green);
            out.push(blue);
            out.push(255);
            proof {
                assert forall|i: int| 0 <= i < out.len() implies out[i] == pixel_byte(
                    shade,
                    width as int,
                    height as int,
                    i,
                ) by {
                    if i >= 4 * place {
                        assert(i / 4 == place);
                    }
                }
            }
            x += 1;
        }
        proof {
            assert((y + 1) * width == y * width + width) by (nonlinear_arith);
        }
        y += 1;
    }
    proof {
        assert(height * width == width * height) by (nonlinear_arith);
        assert(out@ =~= placeholder_pixels(shade, width as int, height as int));
    }
    out
}

/// The placeholder of the given shade.
pub fn placeholder(shade: Shade) -> (r: RawImage)
    ensures
        r@ == spec_placeholder(shade),
{
    let pixels = paint(shade, PLACEHOLDER_WIDTH, PLACEHOLDER_HEIGHT);
    assert(PLACEHOLDER_WIDTH * PLACEHOLDER_HEIGHT == 480000) by (nonlinear_arith);
    RawImage::from_rgba(PLACEHOLDER_WIDTH, PLACEHOLDER_HEIGHT, pixels).unwrap()
}

} // verus!
