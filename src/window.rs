//! The demonstration window's fixed settings.

use vstd::prelude::*;

verus! {

/// The scale factor a window starts from before the outputs are consulted.
pub const DEFAULT_WINDOW_SCALE: i32 = 1;

/// The side of one layout cell, in surface pixels.
pub const CELL_SIZE: i32 = 16;

/// The smallest content width the window accepts: fifteen cells.
pub const MIN_CONTENT_WIDTH: i32 = 15 * CELL_SIZE;

/// The smallest content height the window accepts: ten cells.
pub const MIN_CONTENT_HEIGHT: i32 = 10 * CELL_SIZE;

/// The application id and title the window announces.
pub const APP_ID: &'static str = "libdecor-demo";

} // verus!
