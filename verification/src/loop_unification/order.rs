//! Inner loops draw their identities before the loops around them.

pub mod added_locals_are_fresh;
pub mod for_draws_after_its_parts;
pub mod repeat_draws_after_its_parts;
