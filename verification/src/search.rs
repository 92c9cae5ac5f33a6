//! Finding the palette entry closest to a color.
use crate::color::Color;
use crate::distance::{Distance, DistanceAlgorithm};
use crate::palette::Palette;
use vstd::prelude::*;

verus! {

/// Whether the entry at `index` is the closest to `query`: no entry is
/// closer, and every entry before it is farther away.
pub open spec fn is_nearest<D: DistanceAlgorithm>(
    algorithm: &D,
    query: Color,
    palette: Seq<Color>,
    index: int,
) -> bool {
    &&& 0 <= index < palette.len()
    &&& forall|j: int|
        0 <= j < palette.len() ==> algorithm.distance_spec(query, palette[index])
            <= algorithm.distance_spec(query, #[trigger] palette[j])
    &&& forall|j: int|
        0 <= j < index ==> algorithm.distance_spec(query, palette[index])
            < algorithm.distance_spec(query, #[trigger] palette[j])
}

/// The index of the entry closest to `query`; of several equally close
/// entries, the first. Meaningful for a palette that is not empty.
pub open spec fn nearest_index<D: DistanceAlgorithm>(
    algorithm: &D,
    query: Color,
    palette: Seq<Color>,
) -> int {
    choose|index: int| is_nearest(algorithm, query, palette, index)
}

/// The entry closest to `query`. Meaningful for a palette that is not empty.
pub open spec fn nearest_color<D: DistanceAlgorithm>(
    algorithm: &D,
    query: Color,
    palette: Seq<Color>,
) -> Color {
    palette[nearest_index(algorithm, query, palette)]
}

/// At most one index is the closest.
pub proof fn lemma_nearest_is_unique<D: DistanceAlgorithm>(
    algorithm: &D,
    query: Color,
    palette: Seq<Color>,
    first: int,
    second: int,
)
    requires
        is_nearest(algorithm, query, palette, first),
        is_nearest(algorithm, query, palette, second),
    ensures
        first == second,
{
    if first < second {
        assert(algorithm.distance_spec(query, palette[second]) < algorithm.distance_spec(
            query,
            palette[first],
        ));
    } else if second < first {
        assert(algorithm.distance_spec(query, palette[first]) < algorithm.distance_spec(
            query,
            palette[second],
        ));
    }
}

/// The index of the closest among the first `count` entries.
proof fn first_minimum<D: DistanceAlgorithm>(
    algorithm: &D,
    query: Color,
    palette: Seq<Color>,
    count: int,
) -> (index: int)
    requires
        0 < count <= palette.len(),
    ensures
        is_nearest(algorithm, query, palette.take(count), index),
    decreases count,
{
    if count == 1 {
        0
    } else {
        let before = first_minimum(algorithm, query, palette, count - 1);
        if algorithm.distance_spec(query, palette[count - 1]) < algorithm.distance_spec(
            query,
            palette[before],
        ) {
            count - 1
        } else {
            before
        }
    }
}

/// A palette that is not empty has a closest entry, and `nearest_index` is
/// its index.
pub proof fn lemma_nearest_exists<D: DistanceAlgorithm>(
    algorithm: &D,
    query: Color,
    palette: Seq<Color>,
)
    requires
        palette.len() > 0,
    ensures
        is_nearest(algorithm, query, palette, nearest_index(algorithm, query, palette)),
        palette.contains(nearest_color(algorithm, query, palette)),
{
    let index = first_minimum(algorithm, query, palette, palette.len() as int);
    assert(palette.take(palette.len() as int) == palette);
}

/// Of two entries at the same distance from the query, the later one is
/// never the closest: the earlier one wins the tie.
pub proof fn lemma_earlier_entry_wins<D: DistanceAlgorithm>(
    algorithm: &D,
    query: Color,
    palette: Seq<Color>,
    earlier: int,
    later: int,
)
    requires
        0 <= earlier < later < palette.len(),
        algorithm.distance_spec(query, palette[earlier]) == algorithm.distance_spec(
            query,
            palette[later],
        ),
    ensures
        nearest_index(algorithm, query, palette) != later,
        is_nearest(algorithm, query, palette, earlier) ==> nearest_index(algorithm, query, palette)
            == earlier,
{
    lemma_nearest_exists(algorithm, query, palette);
    if is_nearest(algorithm, query, palette, earlier) {
        lemma_nearest_is_unique(
            algorithm,
            query,
            palette,
            earlier,
            nearest_index(algorithm, query, palette),
        );
    }
}

/// Take a color and find the closest color to it in a palette.
///
/// The palette is walked from start to end and an entry replaces the best
/// one so far only if it is strictly closer, so of several equally close
/// entries the first is returned. An empty palette has no closest color.
pub fn closest_color_in_pallete<'b, D: DistanceAlgorithm>(
    color: &Color,
    palette: &'b Palette,
    algorithm: &D,
) -> (closest: Option<&'b Color>)
    ensures
        palette@.len() == 0 ==> closest is None,
        palette@.len() > 0 ==> is_nearest(
            algorithm,
            *color,
            palette@,
            nearest_index(algorithm, *color, palette@),
        ) && closest == Some(&nearest_color(algorithm, *color, palette@)),
{
    let mut min: Distance<D> = Distance::new_max();
    let mut col: Option<&'b Color> = None;
    let mut entries = palette.iter();
    let ghost mut seen: int = 0;
    let ghost mut best: int = 0;
    loop
        invariant
            0 <= seen <= palette@.len(),
            entries.remaining() == palette@.skip(seen),
            seen == 0 ==> col is None,
            seen > 0 ==> is_nearest(algorithm, *color, palette@.take(seen), best) && col == Some(
                &palette@[best],
            ) && min@ == algorithm.distance_spec(*color, palette@[best]),
        ensures
            seen == palette@.len(),
        decreases palette@.len() - seen,
    {
        let next = entries.next();
        match next {
            None => {
                break ;
            },
            Some(pcolor) => {
                let dist = Distance::new(color, pcolor, algorithm);
                if col.is_none() || dist < min {
                    min = dist;
                    col = Some(pcolor);
                    proof {
                        best = seen;
                    }
                }
                proof {
                    seen = seen + 1;
                }
            },
        }
    }
    proof {
        if palette@.len() > 0 {
            lemma_nearest_is_unique(
                algorithm,
                *color,
                palette@,
                best,
                nearest_index(algorithm, *color, palette@),
            );
        }
    }
    col
}

/// Replaces a color by the palette entry closest to it.
pub fn map_color<D: DistanceAlgorithm>(
    color: Color,
    palette: &Palette,
    algorithm: &D,
) -> (mapped: Color)
    requires
        palette@.len() > 0,
    ensures
        mapped == nearest_color(algorithm, color, palette@),
        palette@.contains(mapped),
{
    proof {
        lemma_nearest_exists(algorithm, color, palette@);
    }
    *closest_color_in_pallete(&color, palette, algorithm).unwrap()
}

} // verus!
