//! Each part of a loop occurs once in what stands in the loop's place.

pub mod total_concat;
pub mod total_single;
pub mod occ_local_ref;
pub mod occ_init;
pub mod occ_while;
pub mod occ_block_expr;
pub mod occ_wrapped;
pub mod occ_update;
pub mod occ_range_field;
pub mod occ_range_guard;
pub mod occ_two;
pub mod occ_four;
pub mod occ_five;
pub mod occ_repeat_expansion;
pub mod occ_for_array_expansion;
pub mod occ_for_range_expansion;
