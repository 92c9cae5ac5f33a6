//! Walking an image and replacing each pixel by its closest palette color.
//!
//! There are two ways through an image. An image whose pixels lie in memory
//! as three or four bytes each is mapped where its bytes lie, on all cores.
//! Any other image is walked on one core, pixel by pixel, each pixel read as
//! four channels and written back in the image's own pixel type. Where both
//! ways are open they end with the same pixels.
use crate::color::Color;
use crate::distance::DistanceAlgorithm;
use crate::palette::Palette;
use crate::fast_path::{lemma_mapped_rgb8_pixel, lemma_mapped_rgba8_pixel};
use crate::parallel::{par_map_rgb8_bytes, par_map_rgba8_bytes};
use crate::pixels::{
    get_pixel, image_height, image_layout, image_pixels, image_width, layout_of,
    put_pixel, rgb8_samples_mut, rgba8_samples_mut, stored_color, written_color, PixelLayout,
};
use crate::search::{lemma_nearest_exists, map_color, nearest_color};
use image::DynamicImage;
use vstd::prelude::*;

verus! {

/// Whether `after` is `before` with every pixel replaced by the palette entry
/// closest to it, as the layout of the image stores that entry.
pub open spec fn is_mapped_image<D: DistanceAlgorithm>(
    algorithm: &D,
    palette: Seq<Color>,
    before: DynamicImage,
    after: DynamicImage,
) -> bool {
    &&& image_width(after) == image_width(before)
    &&& image_height(after) == image_height(before)
    &&& image_layout(after) == image_layout(before)
    &&& forall|color: Color| #[trigger] stored_color(after, color) == stored_color(before, color)
    &&& forall|x: int, y: int|
        0 <= x < image_width(before) && 0 <= y < image_height(before) ==> #[trigger] image_pixels(
            after,
        )[(x, y)] == written_color(
            before,
            nearest_color(algorithm, image_pixels(before)[(x, y)], palette),
        )
}

/// Whether every palette entry comes back unchanged from the image when it
/// is written to a pixel. An image in the four-byte layout keeps every
/// palette; one in the three-byte layout keeps a palette without
/// transparency.
pub open spec fn keeps_palette(img: DynamicImage, palette: Seq<Color>) -> bool {
    forall|i: int| 0 <= i < palette.len() ==> written_color(img, #[trigger] palette[i]) == palette[i]
}

/// Take an image and convert it to a color palette.
///
/// Every pixel is replaced by the palette entry closest to it. The image
/// keeps its size and its layout, so what a pixel holds afterwards is the
/// palette entry as the layout stores it: unchanged in a four-byte layout,
/// without transparency in a three-byte layout.
///
/// The palette must hold at least one color.
pub fn map_image_to_palette<D: DistanceAlgorithm + Sync>(
    img: &mut DynamicImage,
    palette: &Palette,
    algorithm: &D,
)
    requires
        palette@.len() > 0,
    ensures
        is_mapped_image(algorithm, palette@, *old(img), *final(img)),
{
    map_image_to_palette_inner(img, palette, algorithm);
}

/// Inner parallel implementation of [`map_image_to_palette`].
///
/// An image in a three-byte or four-byte layout is mapped where its bytes
/// lie, on all cores. Any other image is read and written pixel by pixel,
/// each pixel taken to four channels and back.
fn map_image_to_palette_inner<D: DistanceAlgorithm + Sync>(
    img: &mut DynamicImage,
    palette: &Palette,
    algorithm: &D,
)
    requires
        palette@.len() > 0,
    ensures
        is_mapped_image(algorithm, palette@, *old(img), *final(img)),
{
    match layout_of(img) {
        PixelLayout::Rgb8 => {
            let samples = rgb8_samples_mut(img);
            let ghost read = samples@;
            par_map_rgb8_bytes(samples, palette, algorithm);
            proof {
                let width = image_width(*old(img)) as int;
                let height = image_height(*old(img)) as int;
                assert forall|x: int, y: int| 0 <= x < width && 0 <= y < height implies (
                #[trigger] image_pixels(*img)[(x, y)]) == written_color(
                    *old(img),
                    nearest_color(algorithm, image_pixels(*old(img))[(x, y)], palette@),
                ) by {
                    lemma_pixel_number(x, y, width, height);
                    lemma_mapped_rgb8_pixel(algorithm, palette@, read, y * width + x);
                }
            }
        },
        PixelLayout::Rgba8 => {
            let samples = rgba8_samples_mut(img);
            let ghost read = samples@;
            par_map_rgba8_bytes(samples, palette, algorithm);
            proof {
                let width = image_width(*old(img)) as int;
                let height = image_height(*old(img)) as int;
                assert forall|x: int, y: int| 0 <= x < width && 0 <= y < height implies (
                #[trigger] image_pixels(*img)[(x, y)]) == written_color(
                    *old(img),
                    nearest_color(algorithm, image_pixels(*old(img))[(x, y)], palette@),
                ) by {
                    lemma_pixel_number(x, y, width, height);
                    lemma_mapped_rgba8_pixel(algorithm, palette@, read, y * width + x);
                }
            }
        },
        PixelLayout::Other => {
            map_pixel_by_pixel(img, palette, algorithm);
        },
    }
}

/// Counted row after row, the pixel in column `x` of row `y` has a number
/// below the number of pixels.
proof fn lemma_pixel_number(x: int, y: int, width: int, height: int)
    requires
        0 <= x < width,
        0 <= y < height,
    ensures
        0 <= y * width + x < width * height,
{
    assert(0 <= y * width && (y + 1) * width <= height * width && (y + 1) * width == y * width
        + width && height * width == width * height) by (nonlinear_arith)
        requires
            0 <= y,
            y + 1 <= height,
            0 < width,
    ;
}

/// Maps an image of any layout on one core, reading and writing one pixel
/// at a time, row by row.
///
/// This is the way [`map_image_to_palette`] takes for an image in neither
/// byte layout. For an image in one of them it gives the same result as the
/// faster way over the bytes.
///
/// The palette must hold at least one color.
pub fn map_pixel_by_pixel<D: DistanceAlgorithm>(
    img: &mut DynamicImage,
    palette: &Palette,
    algorithm: &D,
)
    requires
        palette@.len() > 0,
    ensures
        is_mapped_image(algorithm, palette@, *old(img), *final(img)),
{
    let ghost before = *img;
    let width = img.width();
    let height = img.height();
    let mut y: u32 = 0;
    while y < height
        invariant
            palette@.len() > 0,
            y <= height,
            width == image_width(before),
            height == image_height(before),
            image_width(*img) == image_width(before),
            image_height(*img) == image_height(before),
            image_layout(*img) == image_layout(before),
            forall|other: Color| #[trigger] stored_color(*img, other) == stored_color(before, other),
            forall|i: int, j: int|
                0 <= i < width && 0 <= j < height ==> #[trigger] image_pixels(*img)[(i, j)] == (if j
                    < y {
                    written_color(
                        before,
                        nearest_color(algorithm, image_pixels(before)[(i, j)], palette@),
                    )
                } else {
                    image_pixels(before)[(i, j)]
                }),
        decreases height - y,
    {
        let mut x: u32 = 0;
        while x < width
            invariant
                palette@.len() > 0,
                y < height,
                x <= width,
                width == image_width(before),
                height == image_height(before),
                image_width(*img) == image_width(before),
                image_height(*img) == image_height(before),
                image_layout(*img) == image_layout(before),
                forall|other: Color| #[trigger]
                    stored_color(*img, other) == stored_color(before, other),
                forall|i: int, j: int|
                    0 <= i < width && 0 <= j < height ==> #[trigger] image_pixels(*img)[(i, j)]
                        == (if j < y || (j == y && i < x) {
                        written_color(
                            before,
                            nearest_color(algorithm, image_pixels(before)[(i, j)], palette@),
                        )
                    } else {
                        image_pixels(before)[(i, j)]
                    }),
            decreases width - x,
        {
            let px = get_pixel(img, x, y);
            let col = map_color(px, palette, algorithm);
            put_pixel(img, x, y, col);
            x += 1;
        }
        y += 1;
    }
}

/// Two traversals of one image with one palette and one measure end with
/// the same pixels, whatever order they took.
pub proof fn lemma_traversal_is_deterministic<D: DistanceAlgorithm>(
    algorithm: &D,
    palette: Seq<Color>,
    before: DynamicImage,
    first: DynamicImage,
    second: DynamicImage,
    x: int,
    y: int,
)
    requires
        is_mapped_image(algorithm, palette, before, first),
        is_mapped_image(algorithm, palette, before, second),
        0 <= x < image_width(before),
        0 <= y < image_height(before),
    ensures
        image_pixels(first)[(x, y)] == image_pixels(second)[(x, y)],
        image_width(first) == image_width(second),
        image_height(first) == image_height(second),
        image_layout(first) == image_layout(second),
{
}

/// The four-byte layout keeps every palette, and the three-byte layout keeps
/// exactly the palettes without transparency.
pub proof fn lemma_byte_layouts_keep_palette(img: DynamicImage, palette: Seq<Color>)
    ensures
        image_layout(img) == PixelLayout::Rgba8 ==> keeps_palette(img, palette),
        image_layout(img) == PixelLayout::Rgb8 ==> (keeps_palette(img, palette) <==> forall|i: int|
            0 <= i < palette.len() ==> (#[trigger] palette[i]).alpha == 255),
{
}

/// After a traversal every pixel holds a color of the palette, if the image
/// keeps the palette's colors.
pub proof fn lemma_output_is_in_palette<D: DistanceAlgorithm>(
    algorithm: &D,
    palette: Seq<Color>,
    before: DynamicImage,
    after: DynamicImage,
    x: int,
    y: int,
)
    requires
        palette.len() > 0,
        is_mapped_image(algorithm, palette, before, after),
        keeps_palette(before, palette),
        0 <= x < image_width(before),
        0 <= y < image_height(before),
    ensures
        palette.contains(image_pixels(after)[(x, y)]),
{
    lemma_nearest_exists(algorithm, image_pixels(before)[(x, y)], palette);
}

/// In a three-byte layout every pixel holds, after a traversal, the color
/// channels of a palette entry, and no transparency.
pub proof fn lemma_output_matches_palette_rgb<D: DistanceAlgorithm>(
    algorithm: &D,
    palette: Seq<Color>,
    before: DynamicImage,
    after: DynamicImage,
    x: int,
    y: int,
)
    requires
        palette.len() > 0,
        is_mapped_image(algorithm, palette, before, after),
        image_layout(before) == PixelLayout::Rgb8,
        0 <= x < image_width(before),
        0 <= y < image_height(before),
    ensures
        exists|i: int|
            0 <= i < palette.len() && image_pixels(after)[(x, y)] == (#[trigger] palette[i]).opaque(),
{
    lemma_nearest_exists(algorithm, image_pixels(before)[(x, y)], palette);
}

} // verus!
