//! What holds of the pass as a whole.

pub mod lowered_spec_is_free;
pub mod lowered_opt_spec_is_free;
pub mod lowered_callable_is_free;
pub mod lowered_item_is_free;
pub mod lowered_package_is_free;
pub mod free_spec_is_fixed;
pub mod free_opt_spec_is_fixed;
pub mod free_callable_is_fixed;
pub mod free_item_is_fixed;
pub mod free_package_is_fixed;
pub mod pass_is_idempotent;
pub mod pass_is_idempotent_on_expr;
pub mod pass_is_deterministic;
pub mod for_is_lowered_after_its_parts;
pub mod repeat_is_lowered_after_its_parts;
