//! The pixel sort itself, which the `asdf-pixel-sort` crate performs.

use vstd::prelude::*;
use asdf_pixel_sort::{sort_with_options, Options, PColor};
use image::RgbImage;
use crate::frame::{Frame, FrameData};
use crate::options::{Direction, Threshold, TransformOptions};

verus! {

/// The sorter's default black threshold, the packed colour (11, 220, 0).
pub const DEFAULT_BLACK_RAW: i32 = -16_000_000;

/// The sorter's default white threshold, the packed colour (57, 162, 192).
pub const DEFAULT_WHITE_RAW: i32 = -13_000_000;

/// The sorter's default brightness threshold.
pub const DEFAULT_BRIGHTNESS_LEVEL: u8 = 60;

/// Reads `asdf_pixel_sort::DEFAULT_BLACK` as a packed colour.
///
/// Trusted: the crate defines it as the opaque colour (11, 220, 0), whose
/// packed form is -16000000.
#[verifier::external_body]
pub(crate) fn default_black() -> (raw: i32)
    ensures
        raw == DEFAULT_BLACK_RAW,
{
    asdf_pixel_sort::DEFAULT_BLACK.as_raw()
}

/// Reads `asdf_pixel_sort::DEFAULT_WHITE` as a packed colour.
///
/// Trusted: the crate defines it as the opaque colour (57, 162, 192), whose
/// packed form is -13000000.
#[verifier::external_body]
pub(crate) fn default_white() -> (raw: i32)
    ensures
        raw == DEFAULT_WHITE_RAW,
{
    asdf_pixel_sort::DEFAULT_WHITE.as_raw()
}

/// Reads `asdf_pixel_sort::DEFAULT_BRIGHTNESS`.
///
/// Trusted: the crate defines it as 60.
#[verifier::external_body]
pub(crate) fn default_brightness() -> (level: u8)
    ensures
        level == DEFAULT_BRIGHTNESS_LEVEL,
{
    asdf_pixel_sort::DEFAULT_BRIGHTNESS
}

/// The bytes of an image of the given size after `asdf-pixel-sort` has
/// sorted it by `threshold` along `direction`.
pub uninterp spec fn sorted_pixels(
    width: u32,
    height: u32,
    pixels: Seq<u8>,
    threshold: Threshold,
    direction: Direction,
) -> Seq<u8>;

/// Sorts a pixel buffer with `asdf_pixel_sort::sort_with_options`.
///
/// Trusted: the result is a function of the size, the bytes, the threshold
/// and the direction alone, and the sort moves pixels within the buffer
/// without changing its length. An image with a zero side is left out
/// because the crate subtracts one from each side.
#[verifier::external_body]
fn sort_pixels(width: u32, height: u32, pixels: Vec<u8>, threshold: Threshold, direction: Direction) -> (sorted:
    Vec<u8>)
    requires
        width > 0,
        height > 0,
        pixels@.len() == width * height * 3,
    ensures
        sorted@ == sorted_pixels(width, height, pixels@, threshold, direction),
        sorted@.len() == pixels@.len(),
{
    let mode = match threshold {
        Threshold::Black(raw) => asdf_pixel_sort::Mode::Black(PColor::from_raw(raw)),
        Threshold::Brightness(level) => asdf_pixel_sort::Mode::Brightness(level),
        Threshold::White(raw) => asdf_pixel_sort::Mode::White(PColor::from_raw(raw)),
    };
    let direction = match direction {
        Direction::Both => asdf_pixel_sort::Direction::Both,
        Direction::Column => asdf_pixel_sort::Direction::Column,
        Direction::Row => asdf_pixel_sort::Direction::Row,
    };
    let mut image = RgbImage::from_raw(width, height, pixels).unwrap();
    sort_with_options(&mut image, &Options { mode, direction });
    image.into_raw()
}

/// A frame after the pixel sort under the given options: the same size,
/// with the sorter's bytes. A frame without pixels is its own result.
pub open spec fn transformed(frame: FrameData, options: TransformOptions) -> FrameData {
    if frame.is_empty() {
        frame
    } else {
        FrameData {
            width: frame.width,
            height: frame.height,
            pixels: sorted_pixels(
                frame.width,
                frame.height,
                frame.pixels,
                options.active_threshold(),
                options.direction,
            ),
        }
    }
}

/// Applies the pixel sort to a frame under the given options.
pub fn transform(frame: Frame, options: &TransformOptions) -> (out: Frame)
    ensures
        out@ == transformed(frame@, *options),
{
    let width = frame.width();
    let height = frame.height();
    if width == 0 || height == 0 {
        return frame;
    }
    let pixels = frame.into_raw();
    let sorted = sort_pixels(width, height, pixels, options.threshold(), options.direction);
    Frame::new(width, height, sorted).unwrap()
}

} // verus!
