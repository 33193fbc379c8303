use crate::execute::delete_asset_definition::{position_of_qualified, qualified_position};
use crate::model::asset::{AssetDefinition, AssetDefinitionView};
use crate::model::error::{outcome, ContractError, ContractErrorView};
use crate::model::state::{
    ContractStorage, ContractStorageView, NO_DEFINITION_FOR_SCOPE_SPEC, NO_DEFINITION_FOR_TYPE,
};
use crate::model::types::asset_qualifier::{AssetQualifier, AssetQualifierView};
use vstd::prelude::*;
use vstd::string::StringExecFns;

verus! {

/// What is said of a qualifier that names no definition.
pub open spec fn definition_not_found(qualifier: AssetQualifierView) -> ContractErrorView {
    match qualifier {
        AssetQualifierView::AssetType(asset_type) => ContractErrorView::NotFound {
            explanation: NO_DEFINITION_FOR_TYPE@ + asset_type,
        },
        AssetQualifierView::ScopeSpecAddress(address) => ContractErrorView::NotFound {
            explanation: NO_DEFINITION_FOR_SCOPE_SPEC@ + address,
        },
    }
}

/// The definition that a qualifier names, or the complaint that there is
/// none.
pub open spec fn qualified_definition(storage: ContractStorageView, qualifier: AssetQualifierView)
    -> Result<AssetDefinitionView, ContractErrorView> {
    match qualified_position(storage.asset_definitions, qualifier) {
        Ok(position) => Ok(storage.asset_definitions[position]),
        Err(_) => Err(definition_not_found(qualifier)),
    }
}

/// A copy of the asset definition that the qualifier names: the first one
/// of the type, in whatever letter case, or of the scope specification. A
/// qualifier that names none is answered with `NotFound`.
pub fn query_asset_definition(storage: &ContractStorage, qualifier: &AssetQualifier) -> (r: Result<
    AssetDefinition,
    ContractError,
>)
    ensures
        outcome(r) == qualified_definition(storage@, qualifier@),
{
    match position_of_qualified(storage, qualifier) {
        Ok(position) => Ok(storage.asset_definitions[position].clone()),
        Err(_) => Err(
            ContractError::NotFound {
                explanation: match qualifier {
                    AssetQualifier::AssetType(asset_type) => String::from_str(
                        NO_DEFINITION_FOR_TYPE,
                    ).concat(asset_type.as_str()),
                    AssetQualifier::ScopeSpecAddress(address) => String::from_str(
                        NO_DEFINITION_FOR_SCOPE_SPEC,
                    ).concat(address.as_str()),
                },
            },
        ),
    }
}

} // verus!
