//! Where the parts of a loop stand in what replaces it.

pub mod repeat_expansion_shape;
pub mod for_expansion_shape;
