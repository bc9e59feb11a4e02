//! Small verified building blocks: arithmetic helpers, name assembly,
//! and functions that exercise ownership, borrowing and lifetimes.

pub mod arithmetic;
pub mod borrowing;
pub mod lifetimes;
pub mod ownership;
pub mod person;
