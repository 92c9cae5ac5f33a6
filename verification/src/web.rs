//! What a front end hands over as plain bytes and text: the palette as a run
//! of channel values and the algorithm as its name.
use crate::algorithms::Algorithms;
use crate::color::Color;
use crate::fast_path::pixel_rgba8;
use crate::palette::codec::{decoded_palette, texts, ColorRepr, PaletteError};
use crate::palette::Palette;
use vstd::prelude::*;

verus! {

/// Errors encountered when attempting to map an image to a color palette.
#[derive(Debug, Clone, Copy, PartialEq, Eq, Structural)]
pub enum MapErr {
    /// The passed algorithm name is that of no algorithm.
    InvalidAlgorithm,
    /// The passed bytes cannot be interpreted as an image.
    InvalidImg,
    /// The format of the image could not be determined.
    FormatNotUnderstood,
    /// Failed to (re-)encode the image after conversion.
    FailedToEncode,
    /// The passed rgba values in the palette are invalid.
    InvalidRgbaValues,
    /// The passed string for the palette could not be read.
    InvalidPaletteString,
}

/// The colors that a run of channel values spells, four values each.
pub open spec fn colors_of_rgba_bytes(bytes: Seq<u8>) -> Seq<Color> {
    Seq::new((bytes.len() / 4) as nat, |i: int| pixel_rgba8(bytes, i))
}

/// Reads a palette from a run of channel values: red, green, blue and alpha
/// of the first color, then of the second, and so on. A run that ends within
/// a color is refused.
pub fn palette_from_rgba_bytes(bytes: &[u8]) -> (palette: Result<Palette, MapErr>)
    ensures
        bytes@.len() % 4 != 0 ==> palette == Err::<Palette, MapErr>(MapErr::InvalidRgbaValues),
        bytes@.len() % 4 == 0 ==> (palette matches Ok(colors) && colors@ == colors_of_rgba_bytes(
            bytes@,
        )),
{
    if bytes.len() % 4 != 0 {
        return Err(MapErr::InvalidRgbaValues);
    }
    let count = bytes.len() / 4;
    let mut palette = Palette::new();
    let mut index: usize = 0;
    while index < count
        invariant
            index <= count,
            count == bytes@.len() / 4,
            bytes@.len() % 4 == 0,
            bytes@.len() <= usize::MAX,
            palette@ == colors_of_rgba_bytes(bytes@).take(index as int),
        decreases count - index,
    {
        let base = 4 * index;
        palette.add_color(
            Color::rgba(bytes[base], bytes[base + 1], bytes[base + 2], bytes[base + 3]),
        );
        index += 1;
    }
    Ok(palette)
}

/// Reads what a mapping needs besides the image: the palette from a run of
/// channel values and the algorithm from its name. The palette is looked at
/// first, so a call that is wrong in both reports the palette.
pub fn mapping_inputs(palette: &[u8], algorithm: &str) -> (inputs: Result<
    (Palette, Algorithms),
    MapErr,
>)
    ensures
        palette@.len() % 4 != 0 ==> inputs == Err::<(Palette, Algorithms), MapErr>(
            MapErr::InvalidRgbaValues,
        ),
        palette@.len() % 4 == 0 && Algorithms::named(algorithm@) is None ==> inputs == Err::<
            (Palette, Algorithms),
            MapErr,
        >(MapErr::InvalidAlgorithm),
        palette@.len() % 4 == 0 && Algorithms::named(algorithm@) is Some ==> (inputs matches Ok(
            (colors, chosen),
        ) && colors@ == colors_of_rgba_bytes(palette@) && Some(chosen) == Algorithms::named(
            algorithm@,
        )),
{
    let colors = match palette_from_rgba_bytes(palette) {
        Ok(colors) => colors,
        Err(error) => {
            return Err(error);
        },
    };
    match Algorithms::from_name(algorithm) {
        Some(chosen) => Ok((colors, chosen)),
        None => Err(MapErr::InvalidAlgorithm),
    }
}

/// Reads what a mapping needs besides the image where the palette arrives
/// as a list of written colors. The palette is looked at first, so a call
/// that is wrong in both reports the palette.
pub fn mapping_inputs_from_reprs(palette: &Vec<ColorRepr>, algorithm: &str) -> (inputs: Result<
    (Palette, Algorithms),
    MapErr,
>)
    ensures
        decoded_palette(texts(palette@)) is Err ==> inputs == Err::<(Palette, Algorithms), MapErr>(
            MapErr::InvalidPaletteString,
        ),
        decoded_palette(texts(palette@)) is Ok && Algorithms::named(algorithm@) is None ==> inputs
            == Err::<(Palette, Algorithms), MapErr>(MapErr::InvalidAlgorithm),
        decoded_palette(texts(palette@)) is Ok && Algorithms::named(algorithm@) is Some ==> (
        inputs matches Ok((colors, chosen)) && decoded_palette(texts(palette@)) == Ok::<
            Seq<Color>,
            PaletteError,
        >(colors@) && Some(chosen) == Algorithms::named(algorithm@)),
{
    let colors = match Palette::from_reprs(palette) {
        Ok(colors) => colors,
        Err(_) => {
            return Err(MapErr::InvalidPaletteString);
        },
    };
    match Algorithms::from_name(algorithm) {
        Some(chosen) => Ok((colors, chosen)),
        None => Err(MapErr::InvalidAlgorithm),
    }
}

} // verus!
