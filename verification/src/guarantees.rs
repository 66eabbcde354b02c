//! What callers can rely on, said of the columns, the engine and Arrow alone.

pub mod arrays;
pub mod columns;
pub mod extraction;
pub mod rows;
