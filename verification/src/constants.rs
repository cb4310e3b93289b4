//! Dimensions of the grid, cell markers and tick durations.

use vstd::prelude::*;

verus! {

/// Cells per row of the grid buffer, the frame on either side included.
pub const SCREEN_WIDTH: usize = 101;

/// Rows of the grid buffer.
pub const SCREEN_HEIGHT: usize = 40;

/// Cells of the grid buffer.
pub const SCREEN_CELLS: usize = 4040;

/// Bytes per row of the grid as text: its cells and the line break.
pub const TEXT_WIDTH: usize = 102;

/// Bytes of the grid as text.
pub const TEXT_BYTES: usize = 4080;

/// Nanoseconds between two ticks while the snake moves left or right.
pub const FRAME_DURATION_HORIZONTAL: u64 = 100_000_000;

/// Nanoseconds between two ticks while the snake moves up or down. A terminal
/// cell is taller than wide, so the vertical pace is slower.
pub const FRAME_DURATION_VERTICAL: u64 = 150_000_000;

/// An empty interior cell.
pub const CELL_BLANK: u8 = 32;

/// A body segment of the snake.
pub const CELL_BODY: u8 = 79;

/// The snake's head.
pub const CELL_HEAD: u8 = 64;

/// The food.
pub const CELL_FOOD: u8 = 37;

/// The top and bottom border.
pub const CELL_BORDER_ROW: u8 = 61;

/// The left and right border.
pub const CELL_BORDER_COLUMN: u8 = 124;

/// The line break that ends each row of the grid as text.
pub const CELL_LINE_BREAK: u8 = 10;

/// Random draws that food placement makes before it scans the grid in order.
pub const MAX_DRAWS: usize = 256;

} // verus!
