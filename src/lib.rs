//! Replays a page's decoded drawing operators as calls on a 2D drawing
//! surface, keeping graphics and text state across operators.
//!
//! All lengths, coordinates, zoom factors and color components are fixed-point
//! integers counted in thousandths of a unit (`geometry::UNIT`).
pub mod color;
pub mod geometry;
pub mod surface;
pub mod text;
pub mod interp;
pub mod session;
pub mod laws;
