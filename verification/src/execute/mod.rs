//! The commands, one module each.

pub mod add_asset_definition;
pub mod add_asset_verifier;
pub mod bind_contract_alias;
pub mod delete_asset_definition;
pub mod onboard_asset;
pub mod toggle_asset_definition;
pub mod update_access_routes;
pub mod update_asset_definition;
pub mod update_asset_verifier;
pub mod validate_asset;
