pub mod color;
pub mod framebuffer;
pub mod gameloop;
pub mod input;
pub mod renderer;
pub mod sprite;
pub mod tilemap;

use vstd::prelude::*;
use crate::engine::framebuffer::{FrameBuffer, FrameView};
use crate::engine::input::InputState;
use crate::engine::renderer::Renderer;

verus! {

/// The terminal's framebuffer, renderer and input state.
pub struct Terminal {
    pub fb: FrameBuffer,
    pub renderer: Renderer,
    pub input: InputState,
}

impl Terminal {
    /// Handle terminal resize: the framebuffer takes the new dimensions and is cleared.
    pub fn handle_resize(&mut self, cols: u16, rows: u16)
        requires
            cols * (rows * 2) <= usize::MAX,
        ensures
            final(self).fb.wf(),
            final(self).fb@ == FrameView::blank(cols as nat, (rows * 2) as nat, old(self).fb@.background),
            final(self).input == old(self).input,
    {
        self.fb.resize(cols as usize, rows as usize);
    }
}

/// Frame information passed to the tick callback.
pub struct FrameInfo {
    pub fps: u32,
    pub cells_redrawn: usize,
    pub cells_total: usize,
}

} // verus!
