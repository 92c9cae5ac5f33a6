//! The color value that every other module works on.
use vstd::prelude::*;

verus! {

/// An sRGB color with an alpha channel, eight bits per channel.
#[derive(Clone, Copy, Debug, PartialEq, Eq, Structural, Hash)]
pub struct Color {
    pub red: u8,
    pub green: u8,
    pub blue: u8,
    pub alpha: u8,
}

impl Color {
    /// The color whose channels are the entries of `channels`, in the order
    /// red, green, blue, alpha.
    pub open spec fn of_rgba(channels: Seq<u8>) -> Color
        recommends
            channels.len() == 4,
    {
        Color { red: channels[0], green: channels[1], blue: channels[2], alpha: channels[3] }
    }

    /// The opaque color whose color channels are the entries of `channels`,
    /// in the order red, green, blue.
    pub open spec fn of_rgb(channels: Seq<u8>) -> Color
        recommends
            channels.len() == 3,
    {
        Color { red: channels[0], green: channels[1], blue: channels[2], alpha: 255 }
    }

    /// The four channels in the order red, green, blue, alpha.
    pub open spec fn channels(self) -> Seq<u8> {
        seq![self.red, self.green, self.blue, self.alpha]
    }

    /// The same color with no transparency.
    pub open spec fn opaque(self) -> Color {
        Color { alpha: 255, ..self }
    }

    /// A color from its four channels.
    pub fn rgba(red: u8, green: u8, blue: u8, alpha: u8) -> (c: Color)
        ensures
            c == (Color { red, green, blue, alpha }),
    {
        Color { red, green, blue, alpha }
    }

    /// A fully opaque color from its three color channels.
    pub fn rgb(red: u8, green: u8, blue: u8) -> (c: Color)
        ensures
            c == (Color { red, green, blue, alpha: 255 }),
    {
        Color { red, green, blue, alpha: 255 }
    }

    /// A color from an array of red, green, blue and alpha.
    pub fn from_rgba_array(channels: [u8; 4]) -> (c: Color)
        ensures
            c == Color::of_rgba(channels@),
    {
        Color { red: channels[0], green: channels[1], blue: channels[2], alpha: channels[3] }
    }

    /// An opaque color from an array of red, green and blue.
    pub fn from_rgb_array(channels: [u8; 3]) -> (c: Color)
        ensures
            c == Color::of_rgb(channels@),
    {
        Color { red: channels[0], green: channels[1], blue: channels[2], alpha: 255 }
    }

    /// The channels as an array of red, green, blue and alpha.
    pub fn to_rgba_array(&self) -> (channels: [u8; 4])
        ensures
            channels@ == self.channels(),
    {
        [self.red, self.green, self.blue, self.alpha]
    }

    /// The color channels as an array of red, green and blue; alpha is
    /// dropped.
    pub fn to_rgb_array(&self) -> (channels: [u8; 3])
        ensures
            channels@ == seq![self.red, self.green, self.blue],
    {
        [self.red, self.green, self.blue]
    }
}

/// Opaque white.
pub open spec fn white() -> Color {
    Color { red: 255, green: 255, blue: 255, alpha: 255 }
}

/// Opaque black.
pub open spec fn black() -> Color {
    Color { red: 0, green: 0, blue: 0, alpha: 255 }
}

/// The opaque gray halfway between black and white.
pub open spec fn mid_gray() -> Color {
    Color { red: 127, green: 127, blue: 127, alpha: 255 }
}

} // verus!
