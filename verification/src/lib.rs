//! A minimal real-time pixel-buffer scaffold: a fixed-size RGBA frame
//! buffer with a per-frame draw hook and a fixed-interval update hook,
//! plus the dispatch rules that decide what each event of the loop does.
//!
//! The windowing and rendering themselves are I/O and live outside this
//! library; what stands here is everything the application decides or
//! computes: which pixels the draw hook paints, what the update hook
//! changes, and which action each delivered event triggers.

pub mod dispatch;
pub mod surface;
