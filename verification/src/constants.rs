//! Sizes, in pixels, and the pace of the game.

use vstd::prelude::*;

verus! {

/// Side of one cell of the grid.
pub const CELL_SIZE: u32 = 40;

/// Side of a body segment.
pub const BODY_SIZE: u32 = 30;

/// Side of a body segment with food in it.
pub const BIG_BODY_SIZE: u32 = 36;

/// Side of the food.
pub const FOOD_SIZE: u32 = 20;

/// Margin that centres a body segment in its cell.
pub const OFFSET: u32 = (CELL_SIZE - BODY_SIZE) / 2;

/// Margin that centres a big body segment in its cell.
pub const BIG_OFFSET: u32 = (CELL_SIZE - BIG_BODY_SIZE) / 2;

/// Margin that centres the food in its cell.
pub const FOOD_OFFSET: u32 = (CELL_SIZE - FOOD_SIZE) / 2;

/// Time between two moves of the snake, in microseconds: a quarter of a
/// second.
pub const MOVE_DELAY: u64 = 250_000;

} // verus!
