//! Library to convert (map) an image to a color palette.
//!
//! Every pixel of an image is replaced by the color of a small palette that
//! is closest to it. How close two colors are is decided by a
//! [`distance::DistanceAlgorithm`]; the closest entry is found by
//! [`closest_color_in_pallete`], and [`map_image_to_palette`] walks an image
//! with it.
//!
//! The functions of this library are verified with Verus: each states in its
//! contract what it returns or changes. What is taken on trust of the crates
//! `image` and `rayon` stands in [`pixels`] and [`parallel`].

pub mod algorithms;
pub mod color;
pub mod conversions;
pub mod distance;
pub mod fast_path;
pub mod palette;
pub mod parallel;
pub mod pixels;
pub mod search;
pub mod step;
pub mod traversal;
pub mod web;

pub use distance::Distance;
pub use palette::Palette;
pub use search::closest_color_in_pallete;
pub use traversal::map_image_to_palette;
