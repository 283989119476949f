//! The kinds of draw buffer the display layer understands.

use vstd::prelude::*;

verus! {

/// What a display buffer's vertices describe.
#[derive(Debug, Copy, Clone)]
pub enum DisplayBufferType {
    SOLIDS,
    LINES,
    IMAGES,
}

} // verus!
