//! Integer codes of the decoration library's C interface. Their values are
//! fixed by that interface and must not change.
#![allow(non_camel_case_types)]

use vstd::prelude::*;

verus! {

/// An error the decoration library reports to the context's error callback.
pub type libdecor_error = i32;

pub const LIBDECOR_ERROR_COMPOSITOR_INCOMPATIBLE: libdecor_error = 0;

pub const LIBDECOR_ERROR_INVALID_FRAME_CONFIGURATION: libdecor_error = 1;

/// A set of window states, one bit each.
pub type libdecor_window_state = i32;

pub const LIBDECOR_WINDOW_STATE_NONE: libdecor_window_state = 0;

pub const LIBDECOR_WINDOW_STATE_ACTIVE: libdecor_window_state = 1 << 0;

pub const LIBDECOR_WINDOW_STATE_MAXIMIZED: libdecor_window_state = 1 << 1;

pub const LIBDECOR_WINDOW_STATE_FULLSCREEN: libdecor_window_state = 1 << 2;

pub const LIBDECOR_WINDOW_STATE_TILED_LEFT: libdecor_window_state = 1 << 3;

pub const LIBDECOR_WINDOW_STATE_TILED_RIGHT: libdecor_window_state = 1 << 4;

pub const LIBDECOR_WINDOW_STATE_TILED_TOP: libdecor_window_state = 1 << 5;

pub const LIBDECOR_WINDOW_STATE_TILED_BOTTOM: libdecor_window_state = 1 << 6;

pub const LIBDECOR_WINDOW_STATE_SUSPENDED: libdecor_window_state = 1 << 7;

/// The edge or corner an interactive resize drags.
pub type libdecor_resize_edge = i32;

pub const LIBDECOR_RESIZE_EDGE_NONE: libdecor_resize_edge = 0;

pub const LIBDECOR_RESIZE_EDGE_TOP: libdecor_resize_edge = 1;

pub const LIBDECOR_RESIZE_EDGE_BOTTOM: libdecor_resize_edge = 2;

pub const LIBDECOR_RESIZE_EDGE_LEFT: libdecor_resize_edge = 3;

pub const LIBDECOR_RESIZE_EDGE_TOP_LEFT: libdecor_resize_edge = 4;

pub const LIBDECOR_RESIZE_EDGE_BOTTOM_LEFT: libdecor_resize_edge = 5;

pub const LIBDECOR_RESIZE_EDGE_RIGHT: libdecor_resize_edge = 6;

pub const LIBDECOR_RESIZE_EDGE_TOP_RIGHT: libdecor_resize_edge = 7;

pub const LIBDECOR_RESIZE_EDGE_BOTTOM_RIGHT: libdecor_resize_edge = 8;

/// A set of actions a frame allows, one bit each.
pub type libdecor_capabilities = i32;

pub const LIBDECOR_ACTION_MOVE: libdecor_capabilities = 1 << 0;

pub const LIBDECOR_ACTION_RESIZE: libdecor_capabilities = 1 << 1;

pub const LIBDECOR_ACTION_MINIMIZE: libdecor_capabilities = 1 << 2;

pub const LIBDECOR_ACTION_FULLSCREEN: libdecor_capabilities = 1 << 3;

pub const LIBDECOR_ACTION_CLOSE: libdecor_capabilities = 1 << 4;

} // verus!
