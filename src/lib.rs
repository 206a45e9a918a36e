//! Points and axis-aligned rectangles on an integer grid, with the area of a
//! rectangle and the square spanned from a corner.
pub mod geometry;

pub use geometry::{rect_area, square, Point, Rectangle};
