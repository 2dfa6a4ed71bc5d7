//! Fixed-width numeric vectors over IEEE-754 bit patterns, with element-wise
//! arithmetic computed chunk by chunk at the hardware lane width.

mod chunk;
pub mod laws;
pub mod ops;
pub mod vector;
