//! The questions that the contract answers. None of them changes anything.

pub mod query_asset_definition;
pub mod query_asset_definitions;
pub mod query_asset_scope_attribute;
pub mod query_state;
