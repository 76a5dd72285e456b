//! Client-side logic of a decorated window on a Wayland display: which
//! advertised globals to bind and at what version, the state that the
//! listener callbacks keep, the window's scale factor and the dispatch loop's
//! stop rule, plus the constants of the decoration library's ABI.
//!
//! The raw foreign declarations and the callbacks that hand the display's
//! events to this crate live in the companion application crate, since they
//! need raw pointers and foreign function declarations.

pub mod abi;
pub mod globals;
pub mod registry;
pub mod window;
