//! What this library reads and writes of an [`image::DynamicImage`].
//!
//! The image itself is opaque here. The functions of this module give names
//! to what can be observed of it through the `image` crate and say what the
//! crate's accessors do to it; none of that is proved, it restates the
//! crate's source.
use crate::color::Color;
use crate::fast_path::{pixel_rgb8, pixel_rgba8};
use image::{ColorType, DynamicImage, GenericImage, GenericImageView, Rgba};
use vstd::prelude::*;

verus! {

/// How an image lays out its pixels, as far as the traversal cares.
#[derive(Clone, Copy, Debug, PartialEq, Eq, Structural)]
pub enum PixelLayout {
    /// Three bytes per pixel: red, green, blue.
    Rgb8,
    /// Four bytes per pixel: red, green, blue, alpha.
    Rgba8,
    /// Any other representation.
    Other,
}

/// Makes `image::DynamicImage` known to the verifier, as a type whose inside
/// it does not see.
#[verifier::external_type_specification]
#[verifier::external_body]
pub struct ExDynamicImage(DynamicImage);

/// The number of pixel columns of an image.
pub uninterp spec fn image_width(img: DynamicImage) -> nat;

/// The number of pixel rows of an image.
pub uninterp spec fn image_height(img: DynamicImage) -> nat;

/// The pixel layout of an image.
pub uninterp spec fn image_layout(img: DynamicImage) -> PixelLayout;

/// The color of each pixel of an image, by column and row, as
/// `GenericImageView::get_pixel` reports it.
pub uninterp spec fn image_pixels(img: DynamicImage) -> Map<(int, int), Color>;

/// The color that an image of a layout other than the two byte layouts
/// reports for a pixel after `color` was written to it: `color` taken to the
/// image's own pixel type and back.
pub uninterp spec fn stored_color(img: DynamicImage, color: Color) -> Color;

/// The color that an image reports for a pixel after `color` was written to
/// it.
///
/// A four-byte layout keeps the color as it is and a three-byte layout drops
/// the transparency.
pub open spec fn written_color(img: DynamicImage, color: Color) -> Color {
    match image_layout(img) {
        PixelLayout::Rgba8 => color,
        PixelLayout::Rgb8 => color.opaque(),
        PixelLayout::Other => stored_color(img, color),
    }
}

/// Whether `samples` are the bytes of an image of a byte layout: pixel after
/// pixel, row after row, three or four bytes each. The buffer may be longer
/// than the image needs.
pub open spec fn holds_pixels(img: DynamicImage, samples: Seq<u8>) -> bool {
    let width = image_width(img) as int;
    let height = image_height(img) as int;
    match image_layout(img) {
        PixelLayout::Rgba8 => samples.len() >= 4 * (width * height) && forall|x: int, y: int|
            0 <= x < width && 0 <= y < height ==> #[trigger] image_pixels(img)[(x, y)]
                == pixel_rgba8(samples, y * width + x),
        PixelLayout::Rgb8 => samples.len() >= 3 * (width * height) && forall|x: int, y: int|
            0 <= x < width && 0 <= y < height ==> #[trigger] image_pixels(img)[(x, y)]
                == pixel_rgb8(samples, y * width + x),
        PixelLayout::Other => false,
    }
}

/// `DynamicImage::width` returns the width of the underlying buffer.
pub assume_specification[ DynamicImage::width ](img: &DynamicImage) -> (width: u32)
    ensures
        width == image_width(*img),
;

/// `DynamicImage::height` returns the height of the underlying buffer.
pub assume_specification[ DynamicImage::height ](img: &DynamicImage) -> (height: u32)
    ensures
        height == image_height(*img),
;

/// Reads `DynamicImage::color` and keeps of it whether the image is one of
/// the two byte layouts.
#[verifier::external_body]
pub(crate) fn layout_of(img: &DynamicImage) -> (layout: PixelLayout)
    ensures
        layout == image_layout(*img),
{
    match img.color() {
        ColorType::Rgb8 => PixelLayout::Rgb8,
        ColorType::Rgba8 => PixelLayout::Rgba8,
        _ => PixelLayout::Other,
    }
}

/// Calls `DynamicImage::as_mut_rgb8`, which hands out the buffer of an image
/// in the three-byte layout, and borrows the buffer's bytes. The image reads
/// its pixels from these bytes, also after they were changed.
#[verifier::external_body]
pub(crate) fn rgb8_samples_mut(img: &mut DynamicImage) -> (samples: &mut [u8])
    requires
        image_layout(*old(img)) == PixelLayout::Rgb8,
    ensures
        holds_pixels(*old(img), samples@),
        holds_pixels(*final(img), final(samples)@),
        image_width(*final(img)) == image_width(*old(img)),
        image_height(*final(img)) == image_height(*old(img)),
        image_layout(*final(img)) == image_layout(*old(img)),
        forall|other: Color| #[trigger]
            stored_color(*final(img), other) == stored_color(*old(img), other),
{
    img.as_mut_rgb8().unwrap()
}

/// Calls `DynamicImage::as_mut_rgba8`, which hands out the buffer of an image
/// in the four-byte layout, and borrows the buffer's bytes. The image reads
/// its pixels from these bytes, also after they were changed.
#[verifier::external_body]
pub(crate) fn rgba8_samples_mut(img: &mut DynamicImage) -> (samples: &mut [u8])
    requires
        image_layout(*old(img)) == PixelLayout::Rgba8,
    ensures
        holds_pixels(*old(img), samples@),
        holds_pixels(*final(img), final(samples)@),
        image_width(*final(img)) == image_width(*old(img)),
        image_height(*final(img)) == image_height(*old(img)),
        image_layout(*final(img)) == image_layout(*old(img)),
        forall|other: Color| #[trigger]
            stored_color(*final(img), other) == stored_color(*old(img), other),
{
    img.as_mut_rgba8().unwrap()
}

/// Calls `GenericImageView::get_pixel`, which panics outside the image and
/// inside it returns the pixel as 8-bit RGBA.
#[verifier::external_body]
pub(crate) fn get_pixel(img: &DynamicImage, x: u32, y: u32) -> (color: Color)
    requires
        x < image_width(*img),
        y < image_height(*img),
    ensures
        color == image_pixels(*img)[(x as int, y as int)],
{
    let Rgba([red, green, blue, alpha]) = img.get_pixel(x, y);
    Color { red, green, blue, alpha }
}

/// Calls `GenericImage::put_pixel`, which panics outside the image and inside
/// it converts the color to the image's pixel type and stores it at the one
/// place. Size and layout stay, and so does every other pixel.
#[verifier::external_body]
pub(crate) fn put_pixel(img: &mut DynamicImage, x: u32, y: u32, color: Color)
    requires
        x < image_width(*old(img)),
        y < image_height(*old(img)),
    ensures
        image_width(*final(img)) == image_width(*old(img)),
        image_height(*final(img)) == image_height(*old(img)),
        image_layout(*final(img)) == image_layout(*old(img)),
        forall|other: Color| #[trigger]
            stored_color(*final(img), other) == stored_color(*old(img), other),
        image_pixels(*final(img)) == image_pixels(*old(img)).insert(
            (x as int, y as int),
            written_color(*old(img), color),
        ),
{
    img.put_pixel(x, y, Rgba([color.red, color.green, color.blue, color.alpha]));
}

} // verus!
