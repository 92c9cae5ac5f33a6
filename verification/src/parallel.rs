//! Mapping the pixels of a byte buffer on all cores.
//!
//! The buffer is cut into its pixels and the pixels are handed to the
//! workers of `rayon`. A pixel's new value depends on nothing but its old
//! value, the palette and the measure, so the result is that of one walk
//! from start to end, whatever the number of workers and whatever the order
//! in which they take the pixels.
use crate::color::Color;
use crate::distance::DistanceAlgorithm;
use crate::fast_path::{map_rgb8_bytes, map_rgba8_bytes, mapped_rgb8, mapped_rgba8};
use crate::palette::Palette;
use rayon::prelude::{ParallelIterator, ParallelSliceMut};
use vstd::prelude::*;

verus! {

/// The piece of a four-byte buffer that holds the pixel with number `index`:
/// four bytes, or fewer where the buffer ends within the pixel.
pub open spec fn rgba8_piece(bytes: Seq<u8>, index: int) -> Seq<u8> {
    bytes.subrange(
        4 * index,
        if 4 * index + 4 <= bytes.len() {
            4 * index + 4
        } else {
            bytes.len() as int
        },
    )
}

/// The piece of a three-byte buffer that holds the pixel with number
/// `index`: three bytes, or fewer where the buffer ends within the pixel.
pub open spec fn rgb8_piece(bytes: Seq<u8>, index: int) -> Seq<u8> {
    bytes.subrange(
        3 * index,
        if 3 * index + 3 <= bytes.len() {
            3 * index + 3
        } else {
            bytes.len() as int
        },
    )
}

/// Calls rayon's `par_chunks_mut` with a chunk size of four and `for_each`
/// with [`map_rgba8_bytes`]. The first cuts the buffer into pieces of four
/// bytes that do not overlap, the last one shorter where the length is no
/// multiple of four; the second runs the function once on each piece. So
/// each piece ends as the function leaves it.
#[verifier::external_body]
fn for_each_rgba8_piece<D: DistanceAlgorithm + Sync>(
    buf: &mut [u8],
    palette: &Palette,
    algorithm: &D,
)
    requires
        palette@.len() > 0,
    ensures
        final(buf)@.len() == old(buf)@.len(),
        forall|index: int|
            0 <= index && 4 * index < old(buf)@.len() ==> #[trigger] rgba8_piece(
                final(buf)@,
                index,
            ) == mapped_rgba8(algorithm, palette@, rgba8_piece(old(buf)@, index)),
{
    buf.par_chunks_mut(4).for_each(|piece| map_rgba8_bytes(piece, palette, algorithm));
}

/// Calls rayon's `par_chunks_mut` with a chunk size of three and `for_each`
/// with [`map_rgb8_bytes`]. The first cuts the buffer into pieces of three
/// bytes that do not overlap, the last one shorter where the length is no
/// multiple of three; the second runs the function once on each piece. So
/// each piece ends as the function leaves it.
#[verifier::external_body]
fn for_each_rgb8_piece<D: DistanceAlgorithm + Sync>(
    buf: &mut [u8],
    palette: &Palette,
    algorithm: &D,
)
    requires
        palette@.len() > 0,
    ensures
        final(buf)@.len() == old(buf)@.len(),
        forall|index: int|
            0 <= index && 3 * index < old(buf)@.len() ==> #[trigger] rgb8_piece(
                final(buf)@,
                index,
            ) == mapped_rgb8(algorithm, palette@, rgb8_piece(old(buf)@, index)),
{
    buf.par_chunks_mut(3).for_each(|piece| map_rgb8_bytes(piece, palette, algorithm));
}

/// Maps every whole pixel of a buffer of four bytes per pixel, in place and
/// on all cores. The result is that of [`map_rgba8_bytes`].
pub fn par_map_rgba8_bytes<D: DistanceAlgorithm + Sync>(
    buf: &mut [u8],
    palette: &Palette,
    algorithm: &D,
)
    requires
        palette@.len() > 0,
    ensures
        final(buf)@ == mapped_rgba8(algorithm, palette@, old(buf)@),
{
    for_each_rgba8_piece(buf, palette, algorithm);
    proof {
        let before = old(buf)@;
        let mapped = mapped_rgba8(algorithm, palette@, before);
        assert forall|k: int| 0 <= k < before.len() implies buf@[k] == mapped[k] by {
            let index = k / 4;
            let piece = rgba8_piece(before, index);
            assert(buf@[k] == rgba8_piece(buf@, index)[k - 4 * index]);
            assert(piece[k - 4 * index] == before[k]);
            if piece.len() == 4 {
                assert(piece == before.subrange(4 * index, 4 * index + 4));
            }
        }
        assert(buf@ =~= mapped);
    }
}

/// Maps every whole pixel of a buffer of three bytes per pixel, in place and
/// on all cores. The result is that of [`map_rgb8_bytes`].
pub fn par_map_rgb8_bytes<D: DistanceAlgorithm + Sync>(
    buf: &mut [u8],
    palette: &Palette,
    algorithm: &D,
)
    requires
        palette@.len() > 0,
    ensures
        final(buf)@ == mapped_rgb8(algorithm, palette@, old(buf)@),
{
    for_each_rgb8_piece(buf, palette, algorithm);
    proof {
        let before = old(buf)@;
        let mapped = mapped_rgb8(algorithm, palette@, before);
        assert forall|k: int| 0 <= k < before.len() implies buf@[k] == mapped[k] by {
            let index = k / 3;
            let piece = rgb8_piece(before, index);
            assert(buf@[k] == rgb8_piece(buf@, index)[k - 3 * index]);
            assert(piece[k - 3 * index] == before[k]);
        }
        assert(buf@ =~= mapped);
    }
}

} // verus!
