//! The model of the console buffer the loop driver renders each frame.
//!
//! The real buffer is a character-and-color grid owned by the loop driver;
//! the bridge never reads or writes its cells. All the handoff protocol and
//! the resize policy read of it are its dimensions in cells, so that is what
//! the model carries. The value as a whole is what take/restore moves between
//! the driver and the host store.

use vstd::prelude::*;

verus! {

/// The console buffer, modeled by the attributes the bridge reads: its width
/// and height in cells.
#[derive(Clone, Copy, Debug, PartialEq, Eq, Structural)]
pub struct Console {
    /// Width of the grid, in cells.
    pub width: u32,
    /// Height of the grid, in cells.
    pub height: u32,
}

impl Console {
    /// Create a console of the given dimensions.
    pub fn new(width: u32, height: u32) -> (r: Console)
        ensures
            r.width == width,
            r.height == height,
    {
        Console { width, height }
    }

    /// Request new dimensions for the console grid.
    pub fn resize(&mut self, width: u32, height: u32)
        ensures
            final(self).width == width,
            final(self).height == height,
    {
        self.width = width;
        self.height = height;
    }

    /// The current dimensions of the console grid, as (width, height).
    pub fn get_size(&self) -> (r: (u32, u32))
        ensures
            r.0 == self.width,
            r.1 == self.height,
    {
        (self.width, self.height)
    }
}

} // verus!
