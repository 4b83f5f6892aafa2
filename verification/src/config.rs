//! Fixed configuration of the driver.

use vstd::prelude::*;

verus! {

/// Width of the display grid, in cells.
pub const SCREEN_WIDTH: usize = 64;

/// Height of the display grid, in cells.
pub const SCREEN_HEIGHT: usize = 32;

/// Number of cells of the display grid.
pub const SCREEN_CELLS: usize = SCREEN_WIDTH * SCREEN_HEIGHT;

/// Side of one painted cell, in window pixels.
pub const SCALE: usize = 30;

/// Width of the window, in pixels.
pub const WINDOW_WIDTH: usize = SCREEN_WIDTH * SCALE;

/// Height of the window, in pixels.
pub const WINDOW_HEIGHT: usize = SCREEN_HEIGHT * SCALE;

/// Interpreter steps executed per displayed frame.
pub const TICKS_PER_FRAME: usize = 20;

/// Background colour of the window, as 0xRRGGBB.
pub const BACKGROUND: u32 = 0x1E1E2E;

/// Colour of a lit cell, as 0xRRGGBB.
pub const FOREGROUND: u32 = 0x89B4FA;

/// The size to ask of the windowing library, width first: the display grid
/// with every cell drawn `SCALE` pixels wide and high.
pub fn window_size() -> (size: (i32, i32))
    ensures
        size.0 == SCREEN_WIDTH * SCALE,
        size.1 == SCREEN_HEIGHT * SCALE,
{
    (WINDOW_WIDTH as i32, WINDOW_HEIGHT as i32)
}

} // verus!
