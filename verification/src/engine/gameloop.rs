use vstd::prelude::*;

verus! {

/// Frame information passed to the game each render call.
pub struct FrameInfo {
    pub fps: u32,
    pub cells_redrawn: usize,
    pub cells_total: usize,
    /// Time spent polling and processing input (microseconds).
    pub input_us: u64,
    /// Time spent in fixed update ticks (microseconds).
    pub update_us: u64,
    /// Time spent rendering to terminal (microseconds).
    pub render_us: u64,
}

} // verus!
