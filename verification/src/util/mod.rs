//! Helpers shared by the rest of the crate.

pub mod aliases;
pub mod codec;
pub mod constants;
pub mod contract_helpers;
pub mod event_attributes;
pub mod fees;
pub mod functions;
pub mod scope_address_utils;
pub mod search;
pub mod text;
pub mod traits;
