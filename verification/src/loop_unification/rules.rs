//! The three rules: what is built in place of each kind of loop.

pub mod nodes;
pub mod repeat;
pub mod for_array;
pub mod for_range;
