use crate::model::asset::{AssetScopeAttribute, AssetScopeAttributeView};
use crate::model::error::{outcome, ContractError, ContractErrorView};
use crate::model::types::asset_identifier::{AssetIdentifier, AssetIdentifierView};
use crate::service::asset_meta_repository::{get_asset, required_attribute};
use vstd::prelude::*;

verus! {

/// The attribute of an asset: the identifier must lead to a scope address,
/// and the scope must carry exactly one attribute.
pub open spec fn attribute_of(
    scope_attributes: Seq<AssetScopeAttributeView>,
    identifier: AssetIdentifierView,
) -> Result<AssetScopeAttributeView, ContractErrorView> {
    match identifier.scope_address_outcome() {
        Err(error) => Err(error),
        Ok(scope_address) => required_attribute(scope_attributes, scope_address),
    }
}

/// A copy of the attribute that the contract has written on the scope of
/// an asset.
///
/// `scope_attributes` are the attributes of this contract that the ledger
/// shows on the scope of the asset.
pub fn query_asset_scope_attribute(
    scope_attributes: &Vec<AssetScopeAttribute>,
    identifier: &AssetIdentifier,
) -> (r: Result<AssetScopeAttribute, ContractError>)
    ensures
        outcome(r) == attribute_of(scope_attributes.deep_view(), identifier@),
{
    let scope_address = match identifier.get_scope_address() {
        Ok(scope_address) => scope_address,
        Err(error) => {
            return Err(error);
        },
    };
    match get_asset(scope_attributes, scope_address.as_str()) {
        Ok(attribute) => Ok(attribute.clone()),
        Err(error) => Err(error),
    }
}

} // verus!
