//! The checks that a message passes before it is acted on.

pub mod validate_execute_msg;
pub mod validate_init_msg;
