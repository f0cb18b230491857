//! The image processor: from raw pixels to a JPEG image of bounded width,
//! wrapped as a data URL.

use crate::encoding::{jpeg_data_url, jpeg_data_url_text};
use crate::error::{McpError, McpErrorView};
use vstd::prelude::*;

verus! {

/// The pixels that `image::imageops::resize` with the triangle filter makes of
/// an RGBA image of `width` by `height` when it is resized to `new_width` by
/// `new_height`.
pub uninterp spec fn resized_rgba(
    pixels: Seq<u8>,
    width: int,
    height: int,
    new_width: int,
    new_height: int,
) -> Seq<u8>;

/// The bytes that the JPEG encoder of the `image` crate writes for an RGBA
/// image of `width` by `height` at the given quality.
pub uninterp spec fn jpeg_bytes(pixels: Seq<u8>, width: int, height: int, quality: int) -> Seq<u8>;

/// The error type of the `image` crate.
#[verifier::external_type_specification]
#[verifier::external_body]
pub struct ExImageError(image::ImageError);

/// The largest width and height that a JPEG image can have.
pub const JPEG_MAX_SIDE: u32 = 65535;

/// Whether both sides of an image fit in the sixteen bits that JPEG has for
/// each.
pub open spec fn fits_jpeg(width: int, height: int) -> bool {
    width <= JPEG_MAX_SIDE && height <= JPEG_MAX_SIDE
}

/// The longest side of an image that can be resized. The resizer reckons the
/// places of pixels in single precision; up to this length every place is held
/// to well within half a pixel, so that each new pixel has old pixels to be
/// made of.
pub const RESIZE_MAX_SIDE: u32 = 1048576;

/// Whether an image of `width` by `height` can be resized: neither side is
/// longer than [`RESIZE_MAX_SIDE`], and its intermediate form, sixteen bytes a
/// pixel, fits a vector.
pub open spec fn fits_resizer(width: int, height: int) -> bool {
    &&& width <= RESIZE_MAX_SIDE
    &&& height <= RESIZE_MAX_SIDE
    &&& 16 * (width * height) <= isize::MAX
}

/// Calls `image::imageops::resize` with the triangle filter on an RGBA image
/// held as raw bytes. The result has four bytes for each of its `new_width`
/// times `new_height` pixels. The image must have pixels to sample, must not
/// grow, must have no side longer than [`RESIZE_MAX_SIDE`], and its
/// intermediate form must fit a vector.
#[verifier::external_body]
fn resize_rgba(
    pixels: &Vec<u8>,
    width: u32,
    height: u32,
    new_width: u32,
    new_height: u32,
) -> (r: Vec<u8>)
    requires
        pixels.len() == 4 * (width * height),
        1 <= new_width <= width,
        1 <= new_height <= height,
        fits_resizer(width as int, height as int),
    ensures
        r@ == resized_rgba(
            pixels@,
            width as int,
            height as int,
            new_width as int,
            new_height as int,
        ),
        r.len() == 4 * (new_width * new_height),
{
    let source = image::ImageBuffer::<image::Rgba<u8>, &[u8]>::from_raw(
        width,
        height,
        pixels.as_slice(),
    ).unwrap();
    image::imageops::resize(
        &source,
        new_width,
        new_height,
        image::imageops::FilterType::Triangle,
    ).into_raw()
}

/// Calls `JpegEncoder::new_with_quality` and `JpegEncoder::encode` of the
/// `image` crate on an RGBA image held as raw bytes, writing into a vector.
/// The encoder fails exactly when a side of the image does not fit in sixteen
/// bits.
#[verifier::external_body]
fn encode_jpeg(
    pixels: &Vec<u8>,
    width: u32,
    height: u32,
    quality: u8,
) -> (r: Result<Vec<u8>, image::ImageError>)
    requires
        pixels.len() == 4 * (width * height),
    ensures
        (r is Ok) == fits_jpeg(width as int, height as int),
        r matches Ok(bytes) ==> bytes@ == jpeg_bytes(
            pixels@,
            width as int,
            height as int,
            quality as int,
        ),
{
    let mut out: Vec<u8> = Vec::new();
    let done = image::codecs::jpeg::JpegEncoder::new_with_quality(&mut out, quality).encode(
        pixels.as_slice(),
        width,
        height,
        image::ColorType::Rgba8,
    );
    match done {
        Ok(()) => Ok(out),
        Err(e) => Err(e),
    }
}

/// The number of pixels of an image of `width` by `height`.
fn pixel_count(width: u32, height: u32) -> (r: u64)
    ensures
        r == width * height,
{
    assert(width * height <= u64::MAX) by (nonlinear_arith)
        requires
            width <= u32::MAX,
            height <= u32::MAX,
    ;
    (width as u64) * (height as u64)
}

/// An image as rows of RGBA pixels, four bytes each.
#[derive(Debug, PartialEq, Eq)]
pub struct RawImage {
    width: u32,
    height: u32,
    pixels: Vec<u8>,
}

/// Mathematical form of a [`RawImage`].
pub struct RawImageView {
    pub width: int,
    pub height: int,
    pub pixels: Seq<u8>,
}

impl View for RawImage {
    type V = RawImageView;

    closed spec fn view(&self) -> RawImageView {
        RawImageView {
            width: self.width as int,
            height: self.height as int,
            pixels: self.pixels@,
        }
    }
}

impl RawImage {
    #[verifier::type_invariant]
    spec fn sized(&self) -> bool {
        self.pixels.len() == 4 * (self.width * self.height)
    }

    /// An image of `width` by `height` with the given pixels, if they are as
    /// many as the size asks for.
    pub fn from_rgba(width: u32, height: u32, pixels: Vec<u8>) -> (r: Option<RawImage>)
        ensures
            r is Some <==> pixels.len() == 4 * (width * height),
            r matches Some(image) ==> image@ == (RawImageView {
                width: width as int,
                height: height as int,
                pixels: pixels@,
            }),
    {
        let wanted: u128 = 4 * (pixel_count(width, height) as u128);
        if pixels.len() as u128 == wanted {
            Some(RawImage { width, height, pixels })
        } else {
            None
        }
    }

    /// The number of pixels in a row.
    pub fn width(&self) -> (r: u32)
        ensures
            r == self@.width,
    {
        self.width
    }

    /// The number of rows.
    pub fn height(&self) -> (r: u32)
        ensures
            r == self@.height,
    {
        self.height
    }

    /// The bytes of the pixels, row by row.
    pub fn pixels(&self) -> (r: &Vec<u8>)
        ensures
            r@ == self@.pixels,
            r@.len() == 4 * (self@.width * self@.height),
    {
        proof {
            use_type_invariant(self);
        }
        &self.pixels
    }
}

/// The size to which an image of `width` by `height` is brought so that it is
/// at most `max_width` wide: its own where it is narrow enough, else
/// `max_width` and the height in proportion, rounded down but never below one.
pub open spec fn spec_target_size(width: int, height: int, max_width: int) -> (int, int) {
    if width <= max_width {
        (width, height)
    } else {
        let scaled = (height * max_width) / width;
        (
            max_width,
            if scaled < 1 {
                1
            } else {
                scaled
            },
        )
    }
}

/// The target size is not empty, not wider than asked for, and not larger
/// than the image.
pub proof fn lemma_target_size_bounds(width: int, height: int, max_width: int)
    requires
        1 <= width,
        1 <= height,
        1 <= max_width,
    ensures
        1 <= spec_target_size(width, height, max_width).0 <= max_width,
        spec_target_size(width, height, max_width).0 <= width,
        1 <= spec_target_size(width, height, max_width).1 <= height,
{
    if width > max_width {
        assert((height * max_width) / width <= height) by (nonlinear_arith)
            requires
                1 <= max_width < width,
                1 <= height,
        ;
    }
}

/// Works out the size to which an image is brought.
pub fn target_size(width: u32, height: u32, max_width: u32) -> (r: (u32, u32))
    requires
        1 <= max_width,
    ensures
        (r.0 as int, r.1 as int) == spec_target_size(width as int, height as int, max_width as int),
{
    if width <= max_width {
        (width, height)
    } else {
        assert(height * max_width <= u64::MAX) by (nonlinear_arith)
            requires
                height <= u32::MAX,
                max_width <= u32::MAX,
        ;
        let scaled: u64 = (height as u64 * max_width as u64) / (width as u64);
        assert(scaled <= height) by (nonlinear_arith)
            requires
                scaled == (height * max_width) / (width as int),
                1 <= max_width < width,
                0 <= height,
        ;
        if scaled < 1 {
            (max_width, 1)
        } else {
            (max_width, scaled as u32)
        }
    }
}

/// A finished image: its data URL and its size.
#[derive(Debug, Clone, PartialEq, Eq)]
pub struct ProcessedImage {
    pub data_url: String,
    pub width: u32,
    pub height: u32,
}

/// Mathematical form of a [`ProcessedImage`].
pub struct ProcessedView {
    pub data_url: Seq<char>,
    pub width: int,
    pub height: int,
}

impl View for ProcessedImage {
    type V = ProcessedView;

    open spec fn view(&self) -> ProcessedView {
        ProcessedView {
            data_url: self.data_url@,
            width: self.width as int,
            height: self.height as int,
        }
    }
}

/// Why an image cannot be processed, if it cannot.
#[derive(Debug, Clone, Copy, PartialEq, Eq, Structural)]
pub enum Obstacle {
    /// The image has no pixels.
    NoArea,
    /// A side of the finished image would not fit in sixteen bits.
    TooLargeToEncode,
    /// The image has to be made smaller and is too large for that.
    TooLargeToResize,
}

/// What stands in the way of processing `image` for the width `max_width`.
/// Whether the finished image can be encoded is settled from its size alone,
/// before anything is resized.
pub open spec fn spec_obstacle(image: RawImageView, max_width: int) -> Option<Obstacle> {
    if image.width <= 0 || image.height <= 0 {
        Some(Obstacle::NoArea)
    } else {
        let (w, h) = spec_target_size(image.width, image.height, max_width);
        if !fits_jpeg(w, h) {
            Some(Obstacle::TooLargeToEncode)
        } else if w != image.width && !fits_resizer(image.width, image.height) {
            Some(Obstacle::TooLargeToResize)
        } else {
            None
        }
    }
}

/// The pixels that are encoded: those of the image itself where it is narrow
/// enough, else those of the image resized to its target size.
pub open spec fn spec_fitted_pixels(image: RawImageView, max_width: int) -> Seq<u8> {
    let (w, h) = spec_target_size(image.width, image.height, max_width);
    if w == image.width {
        image.pixels
    } else {
        resized_rgba(image.pixels, image.width, image.height, w, h)
    }
}

/// The finished form of `image` at the given quality and width.
pub open spec fn spec_processed(
    image: RawImageView,
    quality: int,
    max_width: int,
) -> ProcessedView {
    let (w, h) = spec_target_size(image.width, image.height, max_width);
    ProcessedView {
        data_url: jpeg_data_url_text(
            jpeg_bytes(spec_fitted_pixels(image, max_width), w, h, quality),
        ),
        width: w,
        height: h,
    }
}

impl Obstacle {
    /// The words that a capture failure over this obstacle carries.
    pub open spec fn spec_text(self) -> Seq<char> {
        match self {
            Obstacle::NoArea => "the image has no area"@,
            Obstacle::TooLargeToEncode => "the image is too large to be encoded"@,
            Obstacle::TooLargeToResize => "the image is too large to be resized"@,
        }
    }

    /// The words that a capture failure over this obstacle carries.
    pub fn text(&self) -> (r: &'static str)
        ensures
            r@ == self.spec_text(),
    {
        match self {
            Obstacle::NoArea => "the image has no area",
            Obstacle::TooLargeToEncode => "the image is too large to be encoded",
            Obstacle::TooLargeToResize => "the image is too large to be resized",
        }
    }
}

/// What the image processor makes of `image` at the given quality and width:
/// its finished form, or a capture failure over what stands in the way.
pub open spec fn spec_process(image: RawImageView, quality: int, max_width: int) -> Result<
    ProcessedView,
    McpErrorView,
> {
    match spec_obstacle(image, max_width) {
        Some(obstacle) => Err(McpErrorView::CaptureFailed(obstacle.spec_text())),
        None => Ok(spec_processed(image, quality, max_width)),
    }
}

/// The failure over `obstacle`.
fn obstructed(obstacle: Obstacle) -> (r: Result<ProcessedImage, McpError>)
    ensures
        r matches Err(e) && e@ == McpErrorView::CaptureFailed(obstacle.spec_text()),
{
    Err(McpError::CaptureFailed(obstacle.text().to_owned()))
}

/// Brings `image` to a width of at most `max_width`, encodes it as JPEG at
/// `quality` and wraps the result as a data URL.
///
/// The quality must not exceed 100 and the width must be positive: to clamp
/// them is the caller's part. The image is processed unless an [`Obstacle`]
/// stands in the way; every failure is a capture failure.
pub fn process_image(image: &RawImage, quality: u8, max_width: u32) -> (r: Result<
    ProcessedImage,
    McpError,
>)
    requires
        quality <= 100,
        max_width >= 1,
    ensures
        match r {
            Ok(done) => spec_process(image@, quality as int, max_width as int) == Ok::<
                ProcessedView,
                McpErrorView,
            >(done@),
            Err(e) => spec_process(image@, quality as int, max_width as int) == Err::<
                ProcessedView,
                McpErrorView,
            >(e@),
        },
{
    let width = image.width();
    let height = image.height();
    if width == 0 || height == 0 {
        return obstructed(Obstacle::NoArea);
    }
    let (w, h) = target_size(width, height, max_width);
    proof {
        lemma_target_size_bounds(width as int, height as int, max_width as int);
    }
    if w > JPEG_MAX_SIDE || h > JPEG_MAX_SIDE {
        return obstructed(Obstacle::TooLargeToEncode);
    }
    let encoded = if w == width {
        assert(h == height);
        encode_jpeg(image.pixels(), w, h, quality)
    } else {
        let area: u128 = 16 * (pixel_count(width, height) as u128);
        if width > RESIZE_MAX_SIDE || height > RESIZE_MAX_SIDE || area > isize::MAX as u128 {
            return obstructed(Obstacle::TooLargeToResize);
        }
        let fitted = resize_rgba(image.pixels(), width, height, w, h);
        encode_jpeg(&fitted, w, h, quality)
    };
    match encoded {
        Ok(jpeg) => Ok(
            ProcessedImage { data_url: jpeg_data_url(jpeg.as_slice()), width: w, height: h },
        ),
        Err(_) => obstructed(Obstacle::TooLargeToEncode),
    }
}

} // verus!
