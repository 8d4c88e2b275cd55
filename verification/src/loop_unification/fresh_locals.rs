//! What stands in place of a loop adds locals with fresh identities only.

pub mod local_ref_added;
pub mod init_added;
pub mod while_added;
pub mod block_expr_added;
pub mod wrapped_added;
pub mod update_added;
pub mod repeat_expansion_added;
pub mod for_array_expansion_added;
pub mod range_guard_added;
pub mod range_field_added;
pub mod for_range_expansion_added;
