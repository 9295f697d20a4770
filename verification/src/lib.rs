//! A tiling layout engine for a wlroots-style compositor: one centered
//! main window flanked by a left and a right stack column.
//!
//! Every placement request is answered by a pure computation from the
//! window count and the usable output size to a list of rectangles; no
//! state survives from one request to the next.

pub mod engine;
pub mod laws;
pub mod rect;
