use vstd::prelude::*;

verus! {

/// An RGB color.
pub type Color = [u8; 3];

/// Default framebuffer background.
pub const DARK_GRAY: Color = [30, 30, 30];

} // verus!
