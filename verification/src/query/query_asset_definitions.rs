use crate::model::asset::AssetDefinition;
use crate::model::state::{list_asset_definitions, ContractStorage};
use vstd::prelude::*;

verus! {

/// Copies of all asset definitions, in the order in which they were added.
pub fn query_asset_definitions(storage: &ContractStorage) -> (r: Vec<AssetDefinition>)
    ensures
        r.deep_view() == storage@.asset_definitions,
{
    list_asset_definitions(storage)
}

} // verus!
