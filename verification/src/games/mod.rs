pub mod bits;
pub mod universe;
