//! The functions that every program has without importing anything, and the
//! methods of arrays and objects.

pub mod array;
pub mod misc;
pub mod object;
