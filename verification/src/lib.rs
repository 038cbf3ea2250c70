//! An interactive vector-overlay engine for map data projected onto a 2D
//! screen: exact point-to-segment distance computation for hit-testing,
//! classification of free-form tag strings into closed style enumerations,
//! tag-driven resolution of render width and color, pluggable visualization
//! strategies, and a per-frame driver that updates hover/selection state and
//! emits an ordered sequence of draw primitives.
//!
//! All screen geometry is carried in fixed-point subpixel units (plain
//! integers), so every computation here is exact; the host converts to its
//! floating-point drawing surface at the boundary.

pub mod attribute2d;
pub mod engine;
pub mod geometry;
pub mod map_data;
pub mod visual;
