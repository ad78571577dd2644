//! Focus history for a tiling window manager: finds the focused window in a
//! tree snapshot, remembers the window focused before it, and decides what the
//! daemon does next as its connection to the window manager comes and goes.

pub mod tree;
pub mod tracker;
pub mod supervisor;
pub mod switch;
pub mod history;
