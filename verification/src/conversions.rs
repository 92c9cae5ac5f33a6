//! Conversions between different representations of a color.
use crate::color::Color;
use vstd::prelude::*;

verus! {

/// Errors generated when attempting conversions.
#[derive(Debug, Clone, Copy, PartialEq, Eq, Structural)]
pub enum ConversionError {
    /// The input value was too long to allow for conversion.
    InputTooLong,
    /// The input value was too short to allow for conversion.
    InputTooShort,
}

impl ConversionError {
    /// What went wrong, in words.
    pub fn message(&self) -> (text: &'static str)
        ensures
            text@ == match self {
                ConversionError::InputTooLong => "The input value was too long."@,
                ConversionError::InputTooShort => {
                    "The input value was too short to allow for conversion"@
                },
            },
    {
        match self {
            ConversionError::InputTooLong => "The input value was too long.",
            ConversionError::InputTooShort => {
                "The input value was too short to allow for conversion"
            },
        }
    }
}

/// The three components of a point in a color space, from a list that must
/// hold exactly three.
pub fn components_from_vec<T: Copy>(value: &Vec<T>) -> (components: Result<[T; 3], ConversionError>)
    ensures
        value@.len() > 3 ==> components == Err::<[T; 3], ConversionError>(
            ConversionError::InputTooLong,
        ),
        value@.len() < 3 ==> components == Err::<[T; 3], ConversionError>(
            ConversionError::InputTooShort,
        ),
        value@.len() == 3 ==> (components matches Ok(triple) && triple@ == value@),
{
    if value.len() > 3 {
        return Err(ConversionError::InputTooLong);
    }
    if value.len() < 3 {
        return Err(ConversionError::InputTooShort);
    }
    let triple = [value[0], value[1], value[2]];
    Ok(triple)
}

/// Trait to allow easier conversion to the three color channels and to a
/// [`Color`].
pub trait RgbConversionExt: Sized {
    /// The color that `self` stands for.
    spec fn as_color(&self) -> Color;

    /// Convert `self` to its red, green and blue channels.
    fn to_rgb(self) -> (rgb: [u8; 3])
        ensures
            rgb@ == seq![self.as_color().red, self.as_color().green, self.as_color().blue],
    ;

    /// Convert `self` to a [`Color`].
    fn to_rgba(self) -> (rgba: Color)
        ensures
            rgba == self.as_color(),
    ;
}

impl RgbConversionExt for [u8; 3] {
    open spec fn as_color(&self) -> Color {
        Color::of_rgb(self@)
    }

    fn to_rgb(self) -> (rgb: [u8; 3]) {
        self
    }

    fn to_rgba(self) -> (rgba: Color) {
        Color::from_rgb_array(self)
    }
}

impl RgbConversionExt for Color {
    open spec fn as_color(&self) -> Color {
        *self
    }

    fn to_rgb(self) -> (rgb: [u8; 3]) {
        self.to_rgb_array()
    }

    fn to_rgba(self) -> (rgba: Color) {
        self
    }
}

} // verus!
