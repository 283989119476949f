//! The mouse button vocabulary.  The pointer state handling lives with the
//! host layer, which receives the DOM events.

use vstd::prelude::*;

verus! {

/// The mouse buttons. Masks match the values the DOM uses.
#[derive(Debug, Clone, Copy)]
pub enum MouseButton {
    LEFT,
    RIGHT,
    MIDDLE,
}

/// The bit each button occupies in a DOM button-state byte.
pub open spec fn mouse_button_mask_s(button: MouseButton) -> u8 {
    match button {
        MouseButton::LEFT => 1u8,
        MouseButton::RIGHT => 2u8,
        MouseButton::MIDDLE => 4u8,
    }
}

impl MouseButton {
    /// The bit this button occupies in a DOM button-state byte.
    pub fn mask(&self) -> (r: u8)
        ensures
            r == mouse_button_mask_s(*self),
    {
        match self {
            MouseButton::LEFT => 1,
            MouseButton::RIGHT => 2,
            MouseButton::MIDDLE => 4,
        }
    }

    /// Whether this button is down in the given DOM button-state byte.
    pub fn is_down_in(&self, button_state: u8) -> (r: bool)
        ensures
            r == (button_state & mouse_button_mask_s(*self) == mouse_button_mask_s(*self)),
    {
        let mask = self.mask();
        button_state & mask == mask
    }
}

} // verus!
