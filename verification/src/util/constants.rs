use vstd::prelude::*;

verus! {

/// The key of the attribute that names the kind of event.
pub const ASSET_EVENT_TYPE_KEY: &'static str = "asset_event_type";

/// The key of the attribute that names the asset type.
pub const ASSET_TYPE_KEY: &'static str = "asset_type";

/// The key of the attribute that holds the scope address of the asset.
pub const ASSET_SCOPE_ADDRESS_KEY: &'static str = "asset_scope_address";

/// The key of the attribute that holds the address of the verifier.
pub const VERIFIER_ADDRESS_KEY: &'static str = "asset_verifier_address";

/// The key of the attribute that holds a value that was set.
pub const NEW_VALUE_KEY: &'static str = "asset_new_value";

/// The coin of the Provenance Blockchain.
pub const NHASH: &'static str = "nhash";

} // verus!
