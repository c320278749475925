//! The size of the screen that the scenes draw on.

use vstd::prelude::*;

verus! {

/// Width of the screen in pixels.
pub const WIDTH: u32 = 240;

/// Height of the screen in pixels.
pub const HEIGHT: u32 = 280;

} // verus!
