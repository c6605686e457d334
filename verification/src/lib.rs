//! A verified chess board library: an 8x8 grid of squares, each holding a
//! piece value (color and kind, with an explicit `Empty` sentinel), a
//! side-to-move flag, a relocation operation, and a text rendering.

pub mod board;
pub mod render;
