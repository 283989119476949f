//! Colors and texture positions as they are handed to the display layer:
//! four byte-sized channels, or a texture coordinate packed into the same
//! four bytes.

use vstd::prelude::*;

verus! {

/// The magnitude of one color channel.
pub type ColorMagnitude = u8;

/// A class for storing colors.
#[derive(Debug, Clone, Copy)]
pub struct Color {
    pub red: ColorMagnitude,
    pub green: ColorMagnitude,
    pub blue: ColorMagnitude,
    pub alpha: ColorMagnitude,
}

impl Color {
    /// Creates a new instance.
    pub fn new(red: ColorMagnitude, green: ColorMagnitude, blue: ColorMagnitude,
        alpha: ColorMagnitude) -> (r: Color)
        ensures
            r == (Color { red, green, blue, alpha }),
    {
        Color { red, green, blue, alpha }
    }
}

/// A class for storing texture positions as colors.
#[derive(Debug, Clone, Copy)]
pub struct TexturePositionAsColor {
    pub x: u16,
    pub y: u16,
}

impl TexturePositionAsColor {
    /// Creates a new instance.
    pub fn new(x: u16, y: u16) -> (r: TexturePositionAsColor)
        ensures
            r == (TexturePositionAsColor { x, y }),
    {
        TexturePositionAsColor { x, y }
    }

    /// The four raw bytes of the position, packed with the given
    /// endianness (browsers use the system's endianness for WebGL arrays).
    pub fn raw_bytes(&self, little_endian: bool) -> (r: (ColorMagnitude, ColorMagnitude,
        ColorMagnitude, ColorMagnitude))
        ensures
            little_endian ==> r == (
                (self.x % 256) as u8,
                (self.x / 256) as u8,
                (self.y % 256) as u8,
                (self.y / 256) as u8,
            ),
            !little_endian ==> r == (
                (self.x / 256) as u8,
                (self.x % 256) as u8,
                (self.y / 256) as u8,
                (self.y % 256) as u8,
            ),
    {
        let x_low = (self.x % 256) as u8;
        let x_high = (self.x / 256) as u8;
        let y_low = (self.y % 256) as u8;
        let y_high = (self.y / 256) as u8;
        if little_endian {
            (x_low, x_high, y_low, y_high)
        } else {
            (x_high, x_low, y_high, y_low)
        }
    }
}

} // verus!
