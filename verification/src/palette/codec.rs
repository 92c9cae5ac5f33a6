//! The two written forms of a palette: hex strings and channel arrays.
//!
//! A color is written either as `#RRGGBB` or `#RRGGBBAA`, with hex digits in
//! either case, or as an array of three or four channel values. Where the
//! transparency is left out the color is opaque.
use super::Palette;
use crate::color::Color;
use vstd::prelude::*;
use vstd::string::StringExecFns;

verus! {

/// Accepted representations of a color in a written palette.
#[derive(Debug)]
pub enum ColorRepr {
    /// As a hex string, e.g. `#ffeecc`.
    Hex(String),
    /// As an rgb(a) array, e.g. `[144, 234, 12]`.
    Array(Vec<u8>),
}

/// What a [`ColorRepr`] holds.
pub enum ColorText {
    /// The characters of a hex string.
    Hex(Seq<char>),
    /// The entries of a channel array.
    Array(Seq<u8>),
}

impl View for ColorRepr {
    type V = ColorText;

    open spec fn view(&self) -> ColorText {
        match self {
            ColorRepr::Hex(text) => ColorText::Hex(text@),
            ColorRepr::Array(channels) => ColorText::Array(channels@),
        }
    }
}

/// Why a written color was refused.
#[derive(Debug, Clone, Copy, PartialEq, Eq, Structural)]
pub enum PaletteError {
    /// A string that is neither `#RRGGBB` nor `#RRGGBBAA`.
    InvalidHexColor,
    /// An array of so many entries, which is neither three nor four.
    InvalidArrayLength(usize),
}

impl PaletteError {
    /// What was wrong with the written color, in words.
    pub fn message(&self) -> (text: &'static str)
        ensures
            text@ == match self {
                PaletteError::InvalidHexColor => {
                    "invalid hex color (expected #RRGGBB or #RRGGBBAA)"@
                },
                PaletteError::InvalidArrayLength(_) => "color array must be [r,g,b] or [r,g,b,a]"@,
            },
    {
        match self {
            PaletteError::InvalidHexColor => "invalid hex color (expected #RRGGBB or #RRGGBBAA)",
            PaletteError::InvalidArrayLength(_) => "color array must be [r,g,b] or [r,g,b,a]",
        }
    }
}

/// The value of a hex digit, in either case.
pub open spec fn hex_digit_value(digit: char) -> Option<u8> {
    if '0' <= digit <= '9' {
        Some((digit as u32 - '0' as u32) as u8)
    } else if 'a' <= digit <= 'f' {
        Some((digit as u32 - 'a' as u32 + 10) as u8)
    } else if 'A' <= digit <= 'F' {
        Some((digit as u32 - 'A' as u32 + 10) as u8)
    } else {
        None
    }
}

/// The byte that two hex digits spell, the high digit first.
pub open spec fn hex_byte(high: char, low: char) -> Option<u8> {
    match (hex_digit_value(high), hex_digit_value(low)) {
        (Some(h), Some(l)) => Some((16 * h + l) as u8),
        _ => None,
    }
}

/// The color that a hex string spells: `#` and then three bytes, or four.
pub open spec fn hex_color(text: Seq<char>) -> Option<Color> {
    if (text.len() == 7 || text.len() == 9) && text[0] == '#' {
        let alpha = if text.len() == 9 {
            hex_byte(text[7], text[8])
        } else {
            Some(255u8)
        };
        match (
            hex_byte(text[1], text[2]),
            hex_byte(text[3], text[4]),
            hex_byte(text[5], text[6]),
            alpha,
        ) {
            (Some(red), Some(green), Some(blue), Some(alpha)) => Some(
                Color { red, green, blue, alpha },
            ),
            _ => None,
        }
    } else {
        None
    }
}

/// The upper-case hex digit for a value below sixteen.
pub open spec fn hex_digit(value: u8) -> char
    recommends
        value < 16,
{
    if value < 10 {
        ('0' as u8 + value) as char
    } else {
        ('A' as u8 + (value - 10)) as char
    }
}

/// The two upper-case hex digits of a byte.
pub open spec fn hex_pair(byte: u8) -> Seq<char> {
    seq![hex_digit(byte / 16), hex_digit(byte % 16)]
}

/// The hex string of a color: `#RRGGBB` for an opaque color, `#RRGGBBAA` for
/// any other.
pub open spec fn hex_text(color: Color) -> Seq<char> {
    let opaque = seq!['#'] + hex_pair(color.red) + hex_pair(color.green) + hex_pair(color.blue);
    if color.alpha == 255 {
        opaque
    } else {
        opaque + hex_pair(color.alpha)
    }
}

/// The color that a channel array stands for. Three entries are an opaque
/// color, four carry the transparency.
pub open spec fn array_color(channels: Seq<u8>) -> Result<Color, PaletteError> {
    if channels.len() == 3 {
        Ok(Color::of_rgb(channels))
    } else if channels.len() == 4 {
        Ok(Color::of_rgba(channels))
    } else {
        Err(PaletteError::InvalidArrayLength(channels.len() as usize))
    }
}

/// The color that a written color stands for, or why it stands for none.
pub open spec fn decoded_color(repr: ColorText) -> Result<Color, PaletteError> {
    match repr {
        ColorText::Hex(text) => match hex_color(text) {
            Some(color) => Ok(color),
            None => Err(PaletteError::InvalidHexColor),
        },
        ColorText::Array(channels) => array_color(channels),
    }
}

/// What each of a list of written colors holds.
pub open spec fn texts(reprs: Seq<ColorRepr>) -> Seq<ColorText> {
    Seq::new(reprs.len(), |i: int| reprs[i]@)
}

/// The colors that a list of written colors stands for, in the same order;
/// or, if some entry stands for no color, the error of the first such entry.
pub open spec fn decoded_palette(texts: Seq<ColorText>) -> Result<Seq<Color>, PaletteError>
    decreases texts.len(),
{
    if texts.len() == 0 {
        Ok(Seq::empty())
    } else {
        match decoded_palette(texts.drop_last()) {
            Err(error) => Err(error),
            Ok(colors) => match decoded_color(texts.last()) {
                Ok(color) => Ok(colors.push(color)),
                Err(error) => Err(error),
            },
        }
    }
}

/// The colors of a palette written as hex strings.
pub open spec fn hex_form(colors: Seq<Color>) -> Seq<ColorText> {
    Seq::new(colors.len(), |i: int| ColorText::Hex(hex_text(colors[i])))
}

/// The colors of a palette written as arrays of four channels.
pub open spec fn array_form(colors: Seq<Color>) -> Seq<ColorText> {
    Seq::new(colors.len(), |i: int| ColorText::Array(colors[i].channels()))
}

/// Reads one hex digit.
fn parse_hex_digit(digit: char) -> (value: Option<u8>)
    ensures
        value == hex_digit_value(digit),
        value matches Some(v) ==> v < 16,
{
    if digit >= '0' && digit <= '9' {
        Some((digit as u32 - '0' as u32) as u8)
    } else if digit >= 'a' && digit <= 'f' {
        Some((digit as u32 - 'a' as u32 + 10) as u8)
    } else if digit >= 'A' && digit <= 'F' {
        Some((digit as u32 - 'A' as u32 + 10) as u8)
    } else {
        None
    }
}

/// Reads the byte that the two characters at `at` and after it spell.
fn parse_hex_byte(s: &str, at: usize) -> (value: Option<u8>)
    requires
        at < usize::MAX,
        at + 1 < s@.len(),
    ensures
        value == hex_byte(s@[at as int], s@[at + 1]),
{
    match (parse_hex_digit(s.get_char(at)), parse_hex_digit(s.get_char(at + 1))) {
        (Some(high), Some(low)) => Some(16 * high + low),
        _ => None,
    }
}

/// Parses a hex color into an rgba array.
///
/// Accepted forms are `#ff00ff` and `#ff00ff00`; anything else gives `None`.
pub fn parse_hex_color(s: &str) -> (parsed: Option<[u8; 4]>)
    ensures
        match hex_color(s@) {
            Some(color) => parsed matches Some(channels) && channels@ == color.channels(),
            None => parsed is None,
        },
{
    let len = s.unicode_len();
    if len != 7 && len != 9 {
        return None;
    }
    if s.get_char(0) != '#' {
        return None;
    }
    let alpha = if len == 9 {
        parse_hex_byte(s, 7)
    } else {
        Some(255u8)
    };
    match (parse_hex_byte(s, 1), parse_hex_byte(s, 3), parse_hex_byte(s, 5), alpha) {
        (Some(red), Some(green), Some(blue), Some(alpha)) => Some([red, green, blue, alpha]),
        _ => None,
    }
}

/// Reads a written color.
pub fn color_from_repr(repr: &ColorRepr) -> (color: Result<Color, PaletteError>)
    ensures
        color == decoded_color(repr@),
{
    match repr {
        ColorRepr::Hex(text) => match parse_hex_color(text.as_str()) {
            Some(channels) => Ok(Color::from_rgba_array(channels)),
            None => Err(PaletteError::InvalidHexColor),
        },
        ColorRepr::Array(channels) => {
            if channels.len() == 3 {
                Ok(Color::rgb(channels[0], channels[1], channels[2]))
            } else if channels.len() == 4 {
                Ok(Color::rgba(channels[0], channels[1], channels[2], channels[3]))
            } else {
                Err(PaletteError::InvalidArrayLength(channels.len()))
            }
        },
    }
}

impl Palette {
    /// Reads a palette from a list of written colors. The first entry that
    /// stands for no color makes the whole list fail, with its error.
    pub fn from_reprs(reprs: &Vec<ColorRepr>) -> (palette: Result<Palette, PaletteError>)
        ensures
            match palette {
                Ok(palette) => decoded_palette(texts(reprs@)) == Ok::<Seq<Color>, PaletteError>(
                    palette@,
                ),
                Err(error) => decoded_palette(texts(reprs@)) == Err::<Seq<Color>, PaletteError>(
                    error,
                ),
            },
    {
        let mut palette = Palette::new();
        let mut i: usize = 0;
        while i < reprs.len()
            invariant
                i <= reprs.len(),
                decoded_palette(texts(reprs@).take(i as int)) == Ok::<Seq<Color>, PaletteError>(
                    palette@,
                ),
            decreases reprs.len() - i,
        {
            let ghost prefix = texts(reprs@).take(i + 1);
            assert(prefix.drop_last() == texts(reprs@).take(i as int));
            match color_from_repr(&reprs[i]) {
                Ok(color) => {
                    palette.add_color(color);
                },
                Err(error) => {
                    proof {
                        lemma_error_stays(texts(reprs@), i + 1);
                    }
                    return Err(error);
                },
            }
            i += 1;
        }
        assert(texts(reprs@).take(i as int) == texts(reprs@));
        Ok(palette)
    }

    /// Writes the palette as hex strings, one for each color.
    pub fn to_hex_strings(&self) -> (strings: Vec<String>)
        ensures
            strings@.len() == self@.len(),
            forall|i: int| 0 <= i < self@.len() ==> (#[trigger] strings@[i])@ == hex_text(self@[i]),
    {
        let mut strings: Vec<String> = Vec::new();
        let mut i: usize = 0;
        while i < self.len()
            invariant
                i <= self@.len(),
                strings@.len() == i,
                forall|k: int| 0 <= k < i ==> (#[trigger] strings@[k])@ == hex_text(self@[k]),
            decreases self@.len() - i,
        {
            match self.get(i) {
                Some(color) => {
                    strings.push(to_hex(color.to_rgba_array()));
                },
                None => {},
            }
            i += 1;
        }
        strings
    }

    /// Writes the palette as arrays of four channels, one for each color.
    pub fn to_arrays(&self) -> (arrays: Vec<[u8; 4]>)
        ensures
            arrays@.len() == self@.len(),
            forall|i: int| 0 <= i < self@.len() ==> (#[trigger] arrays@[i])@ == self@[i].channels(),
    {
        let mut arrays: Vec<[u8; 4]> = Vec::new();
        let mut i: usize = 0;
        while i < self.len()
            invariant
                i <= self@.len(),
                arrays@.len() == i,
                forall|k: int| 0 <= k < i ==> (#[trigger] arrays@[k])@ == self@[k].channels(),
            decreases self@.len() - i,
        {
            match self.get(i) {
                Some(color) => {
                    arrays.push(color.to_rgba_array());
                },
                None => {},
            }
            i += 1;
        }
        arrays
    }
}

/// Once a prefix of a list fails, every longer prefix fails with the same
/// error.
proof fn lemma_error_stays(texts: Seq<ColorText>, count: int)
    requires
        0 <= count <= texts.len(),
        decoded_palette(texts.take(count)) is Err,
    ensures
        decoded_palette(texts) == decoded_palette(texts.take(count)),
    decreases texts.len() - count,
{
    if count == texts.len() {
        assert(texts.take(count) == texts);
    } else {
        assert(texts.take(count + 1).drop_last() == texts.take(count));
        lemma_error_stays(texts, count + 1);
    }
}

/// A list of written colors gives a palette exactly if each entry stands for
/// a color, and then the palette holds those colors in the same order. If
/// not, the error is that of the first entry that stands for none.
pub proof fn lemma_decoded_palette(texts: Seq<ColorText>)
    ensures
        match decoded_palette(texts) {
            Ok(colors) => colors.len() == texts.len() && forall|i: int|
                0 <= i < texts.len() ==> decoded_color(#[trigger] texts[i]) == Ok::<
                    Color,
                    PaletteError,
                >(colors[i]),
            Err(error) => exists|i: int|
                0 <= i < texts.len() && decoded_color(#[trigger] texts[i]) == Err::<
                    Color,
                    PaletteError,
                >(error) && forall|j: int| 0 <= j < i ==> decoded_color(#[trigger] texts[j]) is Ok,
        },
    decreases texts.len(),
{
    if texts.len() > 0 {
        let front = texts.drop_last();
        let last = texts.len() - 1;
        lemma_decoded_palette(front);
        match decoded_palette(front) {
            Ok(colors) => {
                match decoded_color(texts.last()) {
                    Ok(color) => {
                        let all = colors.push(color);
                        assert forall|i: int| 0 <= i < texts.len() implies decoded_color(
                            #[trigger] texts[i],
                        ) == Ok::<Color, PaletteError>(all[i]) by {
                            if i < last {
                                assert(texts[i] == front[i]);
                            }
                        }
                    },
                    Err(error) => {
                        assert forall|j: int| 0 <= j < last implies decoded_color(
                            #[trigger] texts[j],
                        ) is Ok by {
                            assert(texts[j] == front[j]);
                        }
                    },
                }
            },
            Err(error) => {
                let i = choose|i: int|
                    0 <= i < front.len() && decoded_color(#[trigger] front[i]) == Err::<
                        Color,
                        PaletteError,
                    >(error) && forall|j: int|
                        0 <= j < i ==> decoded_color(#[trigger] front[j]) is Ok;
                assert forall|j: int| 0 <= j < i implies decoded_color(#[trigger] texts[j]) is Ok by {
                    assert(decoded_color(front[j]) is Ok);
                }
            },
        }
    }
}

/// A palette written as hex strings, or as arrays of its channels, is read
/// back as the same palette.
pub proof fn lemma_palette_round_trip(colors: Seq<Color>)
    ensures
        decoded_palette(hex_form(colors)) == Ok::<Seq<Color>, PaletteError>(colors),
        decoded_palette(array_form(colors)) == Ok::<Seq<Color>, PaletteError>(colors),
    decreases colors.len(),
{
    if colors.len() == 0 {
        assert(colors =~= Seq::empty());
    } else {
        let front = colors.drop_last();
        lemma_palette_round_trip(front);
        lemma_hex_round_trip(colors.last());
        lemma_array_round_trip(colors.last());
        assert(hex_form(colors).drop_last() =~= hex_form(front));
        assert(array_form(colors).drop_last() =~= array_form(front));
        assert(front.push(colors.last()) =~= colors);
    }
}

/// The upper-case hex digit for a value below sixteen, as a string.
fn hex_digit_str(value: u8) -> (digit: &'static str)
    requires
        value < 16,
    ensures
        digit@ == seq![hex_digit(value)],
{
    proof {
        reveal_strlit("0");
        reveal_strlit("1");
        reveal_strlit("2");
        reveal_strlit("3");
        reveal_strlit("4");
        reveal_strlit("5");
        reveal_strlit("6");
        reveal_strlit("7");
        reveal_strlit("8");
        reveal_strlit("9");
        reveal_strlit("A");
        reveal_strlit("B");
        reveal_strlit("C");
        reveal_strlit("D");
        reveal_strlit("E");
        reveal_strlit("F");
    }
    match value {
        0 => "0",
        1 => "1",
        2 => "2",
        3 => "3",
        4 => "4",
        5 => "5",
        6 => "6",
        7 => "7",
        8 => "8",
        9 => "9",
        10 => "A",
        11 => "B",
        12 => "C",
        13 => "D",
        14 => "E",
        _ => "F",
    }
}

/// Appends the two hex digits of a byte.
fn push_hex_pair(text: &mut String, byte: u8)
    ensures
        final(text)@ == old(text)@ + hex_pair(byte),
{
    text.append(hex_digit_str(byte / 16));
    text.append(hex_digit_str(byte % 16));
}

/// Converts an rgba array into a hex string: `#RRGGBB` where the color is
/// opaque, `#RRGGBBAA` where it is not, with upper-case digits.
pub fn to_hex(rgba: [u8; 4]) -> (text: String)
    ensures
        text@ == hex_text(Color::of_rgba(rgba@)),
{
    proof {
        reveal_strlit("#");
    }
    let mut text = String::new();
    text.append("#");
    push_hex_pair(&mut text, rgba[0]);
    push_hex_pair(&mut text, rgba[1]);
    push_hex_pair(&mut text, rgba[2]);
    if rgba[3] != 255 {
        push_hex_pair(&mut text, rgba[3]);
    }
    text
}

/// A byte written as two hex digits is read back as the same byte.
pub proof fn lemma_hex_pair_round_trip(byte: u8)
    ensures
        hex_pair(byte).len() == 2,
        hex_byte(hex_pair(byte)[0], hex_pair(byte)[1]) == Some(byte),
{
}

/// A color written as a hex string is read back as the same color.
pub proof fn lemma_hex_round_trip(color: Color)
    ensures
        hex_color(hex_text(color)) == Some(color),
        decoded_color(ColorText::Hex(hex_text(color))) == Ok::<Color, PaletteError>(color),
{
    lemma_hex_pair_round_trip(color.red);
    lemma_hex_pair_round_trip(color.green);
    lemma_hex_pair_round_trip(color.blue);
    lemma_hex_pair_round_trip(color.alpha);
}

/// A color written as an array of its four channels is read back as the same
/// color.
pub proof fn lemma_array_round_trip(color: Color)
    ensures
        decoded_color(ColorText::Array(color.channels())) == Ok::<Color, PaletteError>(color),
{
}

} // verus!
