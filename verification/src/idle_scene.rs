//! The idle scene: the current date and time, centred.

use vstd::prelude::*;
use crate::layout::{center, centered, TextRect};

verus! {

/// The idle scene. It keeps nothing between frames: each frame shows the
/// clock text that the caller read, in the middle of the canvas.
#[derive(Debug, Clone, Copy, PartialEq, Eq)]
pub struct IdleScene {}

impl IdleScene {
    /// A new idle scene.
    pub fn new() -> (scene: IdleScene) {
        IdleScene {  }
    }

    /// Places the frame's one text: a rendered clock text of the given size
    /// goes to the middle of a canvas of the given size.
    pub fn render(&self, canvas_width: u32, canvas_height: u32, text_width: u32, text_height: u32) -> (rect: TextRect)
        ensures
            rect == centered(canvas_width, canvas_height, text_width, text_height),
    {
        center(canvas_width, canvas_height, text_width, text_height)
    }
}

} // verus!
