//! The text-alignment vocabulary shared with the display layer.

use vstd::prelude::*;

verus! {

/// The ways a piece of displayed text can be aligned.
#[derive(Debug, Copy, Clone)]
pub enum TextAlignment {
    LEFT,
    CENTER,
    RIGHT,
    JUSTIFY,
}

impl TextAlignment {
    /// Converts it to the CSS string equivalent.
    pub fn to_css(&self) -> (r: &'static str)
        ensures
            r@ == match *self {
                TextAlignment::LEFT => "left"@,
                TextAlignment::CENTER => "center"@,
                TextAlignment::RIGHT => "right"@,
                TextAlignment::JUSTIFY => "justify"@,
            },
    {
        match self {
            TextAlignment::LEFT => "left",
            TextAlignment::CENTER => "center",
            TextAlignment::RIGHT => "right",
            TextAlignment::JUSTIFY => "justify",
        }
    }
}

} // verus!
