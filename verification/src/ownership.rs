//! Handing a value to a function: by move, and by copy.

pub mod copied;
pub mod moved;
