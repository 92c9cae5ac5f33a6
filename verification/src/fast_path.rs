//! Mapping pixels that lie in a byte buffer, three or four bytes each.
//!
//! The functions of this module walk a buffer from start to end on one core.
//! A pixel's new value depends on nothing but its old value, the palette and
//! the measure, so a caller may also cut the buffer at pixel boundaries and
//! map the pieces apart, in any order.
use crate::color::Color;
use crate::distance::DistanceAlgorithm;
use crate::palette::Palette;
use crate::search::{lemma_nearest_exists, map_color, nearest_color};
use vstd::prelude::*;

verus! {

/// The pixel with number `index` of a buffer of four bytes per pixel.
pub open spec fn pixel_rgba8(bytes: Seq<u8>, index: int) -> Color {
    Color {
        red: bytes[4 * index],
        green: bytes[4 * index + 1],
        blue: bytes[4 * index + 2],
        alpha: bytes[4 * index + 3],
    }
}

/// The pixel with number `index` of a buffer of three bytes per pixel. It has
/// no transparency.
pub open spec fn pixel_rgb8(bytes: Seq<u8>, index: int) -> Color {
    Color {
        red: bytes[3 * index],
        green: bytes[3 * index + 1],
        blue: bytes[3 * index + 2],
        alpha: 255,
    }
}

/// A buffer of four bytes per pixel with every whole pixel replaced by the
/// palette entry closest to it. Bytes after the last whole pixel stay.
pub open spec fn mapped_rgba8<D: DistanceAlgorithm>(
    algorithm: &D,
    palette: Seq<Color>,
    bytes: Seq<u8>,
) -> Seq<u8> {
    Seq::new(
        bytes.len(),
        |k: int|
            if k < 4 * (bytes.len() / 4) {
                nearest_color(algorithm, pixel_rgba8(bytes, k / 4), palette).channels()[k % 4]
            } else {
                bytes[k]
            },
    )
}

/// A buffer of three bytes per pixel with every whole pixel replaced by the
/// color channels of the palette entry closest to it. Bytes after the last
/// whole pixel stay.
pub open spec fn mapped_rgb8<D: DistanceAlgorithm>(
    algorithm: &D,
    palette: Seq<Color>,
    bytes: Seq<u8>,
) -> Seq<u8> {
    Seq::new(
        bytes.len(),
        |k: int|
            if k < 3 * (bytes.len() / 3) {
                nearest_color(algorithm, pixel_rgb8(bytes, k / 3), palette).channels()[k % 3]
            } else {
                bytes[k]
            },
    )
}

/// Maps one pixel of a four-byte layout.
pub fn map_rgba8_pixel<D: DistanceAlgorithm>(
    pixel: [u8; 4],
    palette: &Palette,
    algorithm: &D,
) -> (mapped: [u8; 4])
    requires
        palette@.len() > 0,
    ensures
        mapped@ == nearest_color(algorithm, Color::of_rgba(pixel@), palette@).channels(),
{
    let color = Color::from_rgba_array(pixel);
    map_color(color, palette, algorithm).to_rgba_array()
}

/// Maps one pixel of a three-byte layout. The pixel is looked up as an opaque
/// color and takes the color channels of the entry found.
pub fn map_rgb8_pixel<D: DistanceAlgorithm>(
    pixel: [u8; 3],
    palette: &Palette,
    algorithm: &D,
) -> (mapped: [u8; 3])
    requires
        palette@.len() > 0,
    ensures
        mapped@ == nearest_color(algorithm, Color::of_rgb(pixel@), palette@).channels().take(3),
{
    let color = Color::from_rgb_array(pixel);
    map_color(color, palette, algorithm).to_rgb_array()
}

/// Maps every whole pixel of a buffer of four bytes per pixel, in place.
pub fn map_rgba8_bytes<D: DistanceAlgorithm>(buf: &mut [u8], palette: &Palette, algorithm: &D)
    requires
        palette@.len() > 0,
    ensures
        final(buf)@ == mapped_rgba8(algorithm, palette@, old(buf)@),
{
    let ghost before = buf@;
    let count = buf.len() / 4;
    let mut index: usize = 0;
    while index < count
        invariant
            palette@.len() > 0,
            index <= count,
            count == before.len() / 4,
            buf@.len() == before.len(),
            before.len() <= usize::MAX,
            forall|k: int|
                0 <= k < before.len() ==> #[trigger] buf@[k] == (if k < 4 * index {
                    mapped_rgba8(algorithm, palette@, before)[k]
                } else {
                    before[k]
                }),
        decreases count - index,
    {
        let base = 4 * index;
        let pixel = [buf[base], buf[base + 1], buf[base + 2], buf[base + 3]];
        let mapped = map_rgba8_pixel(pixel, palette, algorithm);
        buf[base] = mapped[0];
        buf[base + 1] = mapped[1];
        buf[base + 2] = mapped[2];
        buf[base + 3] = mapped[3];
        index += 1;
    }
}

/// Maps every whole pixel of a buffer of three bytes per pixel, in place.
pub fn map_rgb8_bytes<D: DistanceAlgorithm>(buf: &mut [u8], palette: &Palette, algorithm: &D)
    requires
        palette@.len() > 0,
    ensures
        final(buf)@ == mapped_rgb8(algorithm, palette@, old(buf)@),
{
    let ghost before = buf@;
    let count = buf.len() / 3;
    let mut index: usize = 0;
    while index < count
        invariant
            palette@.len() > 0,
            index <= count,
            count == before.len() / 3,
            buf@.len() == before.len(),
            before.len() <= usize::MAX,
            forall|k: int|
                0 <= k < before.len() ==> #[trigger] buf@[k] == (if k < 3 * index {
                    mapped_rgb8(algorithm, palette@, before)[k]
                } else {
                    before[k]
                }),
        decreases count - index,
    {
        let base = 3 * index;
        let pixel = [buf[base], buf[base + 1], buf[base + 2]];
        let mapped = map_rgb8_pixel(pixel, palette, algorithm);
        buf[base] = mapped[0];
        buf[base + 1] = mapped[1];
        buf[base + 2] = mapped[2];
        index += 1;
    }
}

/// Every whole pixel of a mapped four-byte buffer is the palette entry
/// closest to the pixel that stood there, and so a color of the palette.
pub proof fn lemma_mapped_rgba8_pixel<D: DistanceAlgorithm>(
    algorithm: &D,
    palette: Seq<Color>,
    bytes: Seq<u8>,
    index: int,
)
    requires
        palette.len() > 0,
        0 <= index < bytes.len() / 4,
    ensures
        pixel_rgba8(mapped_rgba8(algorithm, palette, bytes), index) == nearest_color(
            algorithm,
            pixel_rgba8(bytes, index),
            palette,
        ),
        palette.contains(pixel_rgba8(mapped_rgba8(algorithm, palette, bytes), index)),
{
    lemma_nearest_exists(algorithm, pixel_rgba8(bytes, index), palette);
}

/// Every whole pixel of a mapped three-byte buffer holds the color channels
/// of the palette entry closest to the pixel that stood there.
pub proof fn lemma_mapped_rgb8_pixel<D: DistanceAlgorithm>(
    algorithm: &D,
    palette: Seq<Color>,
    bytes: Seq<u8>,
    index: int,
)
    requires
        palette.len() > 0,
        0 <= index < bytes.len() / 3,
    ensures
        pixel_rgb8(mapped_rgb8(algorithm, palette, bytes), index) == nearest_color(
            algorithm,
            pixel_rgb8(bytes, index),
            palette,
        ).opaque(),
        exists|i: int|
            0 <= i < palette.len() && pixel_rgb8(mapped_rgb8(algorithm, palette, bytes), index) == (
            #[trigger] palette[i]).opaque(),
{
    lemma_nearest_exists(algorithm, pixel_rgb8(bytes, index), palette);
}

/// A four-byte buffer cut in two at a pixel boundary can be mapped piece by
/// piece: the mapped pieces, put together, are the mapped buffer.
pub proof fn lemma_rgba8_mapping_splits<D: DistanceAlgorithm>(
    algorithm: &D,
    palette: Seq<Color>,
    head: Seq<u8>,
    tail: Seq<u8>,
)
    requires
        head.len() % 4 == 0,
    ensures
        mapped_rgba8(algorithm, palette, head + tail) == mapped_rgba8(algorithm, palette, head)
            + mapped_rgba8(algorithm, palette, tail),
{
}

/// A three-byte buffer cut in two at a pixel boundary can be mapped piece by
/// piece: the mapped pieces, put together, are the mapped buffer.
pub proof fn lemma_rgb8_mapping_splits<D: DistanceAlgorithm>(
    algorithm: &D,
    palette: Seq<Color>,
    head: Seq<u8>,
    tail: Seq<u8>,
)
    requires
        head.len() % 3 == 0,
    ensures
        mapped_rgb8(algorithm, palette, head + tail) == mapped_rgb8(algorithm, palette, head)
            + mapped_rgb8(algorithm, palette, tail),
{
}

} // verus!
