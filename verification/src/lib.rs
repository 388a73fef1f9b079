//! A small core of plane geometry over integer coordinates: points and
//! vectors, axis-aligned rectangles in two representations (corner pair and
//! origin plus extents), circles, and the overlap and bounding-union
//! operations on them.

pub mod object_data;
pub mod vector_data;
