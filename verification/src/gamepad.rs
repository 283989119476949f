//! The gamepad button vocabulary.  The analog state handling lives with
//! the host layer, which polls the device.

use vstd::prelude::*;

verus! {

/// All the gamepad buttons the game cares about.
#[derive(Debug, Copy, Clone)]
pub enum Button {
    A,
    B,
    X,
    Y,
    R,
    L,
    /// The number of tracked buttons.
    COUNT,
}

/// The position a button takes in a state table.
pub open spec fn button_index_s(button: Button) -> int {
    match button {
        Button::A => 0,
        Button::B => 1,
        Button::X => 2,
        Button::Y => 3,
        Button::R => 4,
        Button::L => 5,
        Button::COUNT => 6,
    }
}

/// The number of real buttons (everything before `COUNT`).
pub const BUTTON_COUNT: usize = 6;

impl Button {
    /// The position this button takes in a state table.
    pub fn index(&self) -> (r: usize)
        ensures
            r as int == button_index_s(*self),
    {
        match self {
            Button::A => 0,
            Button::B => 1,
            Button::X => 2,
            Button::Y => 3,
            Button::R => 4,
            Button::L => 5,
            Button::COUNT => 6,
        }
    }
}

} // verus!
