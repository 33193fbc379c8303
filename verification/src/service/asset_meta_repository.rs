use crate::model::asset::{AssetScopeAttribute, AssetScopeAttributeView};
use crate::model::error::{ContractError, ContractErrorView};
use crate::model::types::response::{ContractMessage, ContractMessageView};
use crate::util::functions::{generate_asset_attribute_name, NAME_SEPARATOR};
use vstd::prelude::*;
use vstd::string::StringExecFns;

verus! {

/// A part of what an error says; the values it speaks of stand between the parts.
pub const NO_ATTRIBUTE_HEAD: &'static str = "scope at address [";

/// A part of what an error says; the values it speaks of stand between the parts.
pub const NO_ATTRIBUTE_TAIL: &'static str = "] did not include an asset scope attribute";

/// The name of the attribute that the contract writes for an asset type.
pub open spec fn attribute_name(asset_type: Seq<char>, base_contract_name: Seq<char>) -> Seq<char> {
    asset_type + NAME_SEPARATOR@ + base_contract_name
}

/// What is said of a scope on which the contract has written nothing.
pub open spec fn attribute_not_found(scope_address: Seq<char>) -> ContractErrorView {
    ContractErrorView::NotFound {
        explanation: NO_ATTRIBUTE_HEAD@ + scope_address + NO_ATTRIBUTE_TAIL@,
    }
}

/// What is said of a scope on which the contract finds more than one
/// attribute of its own.
pub open spec fn too_many_attributes(scope_address: Seq<char>, found: nat) -> ContractErrorView {
    ContractErrorView::InvalidScopeAttribute { scope_address, attribute_amount: found }
}

/// The one attribute on a scope, if the scope has any: none of none, the
/// attribute of one, and a complaint of more.
pub open spec fn sole_attribute(
    scope_attributes: Seq<AssetScopeAttributeView>,
    scope_address: Seq<char>,
) -> Result<Option<AssetScopeAttributeView>, ContractErrorView> {
    if scope_attributes.len() == 0 {
        Ok(None)
    } else if scope_attributes.len() == 1 {
        Ok(Some(scope_attributes[0]))
    } else {
        Err(too_many_attributes(scope_address, scope_attributes.len()))
    }
}

/// The one attribute on a scope: a complaint of none, the attribute of
/// one, and a complaint of more.
pub open spec fn required_attribute(
    scope_attributes: Seq<AssetScopeAttributeView>,
    scope_address: Seq<char>,
) -> Result<AssetScopeAttributeView, ContractErrorView> {
    match sole_attribute(scope_attributes, scope_address) {
        Err(error) => Err(error),
        Ok(None) => Err(attribute_not_found(scope_address)),
        Ok(Some(attribute)) => Ok(attribute),
    }
}

/// What the ledger is asked to do so that a scope carries a new attribute:
/// to remove the one it has, if it has one, and to write the new one.
pub open spec fn attribute_writes(
    scope_address: Seq<char>,
    previous: Option<AssetScopeAttributeView>,
    attribute: AssetScopeAttributeView,
    base_contract_name: Seq<char>,
) -> Seq<ContractMessageView> {
    let write = ContractMessageView::AddAttribute {
        address: scope_address,
        name: attribute_name(attribute.asset_type, base_contract_name),
        value: attribute,
    };
    match previous {
        Some(old) => seq![
            ContractMessageView::DeleteAttribute {
                address: scope_address,
                name: attribute_name(old.asset_type, base_contract_name),
            },
            write,
        ],
        None => seq![write],
    }
}

/// The view of an optional attribute.
pub open spec fn optional_attribute(attribute: Option<&AssetScopeAttribute>) -> Option<
    AssetScopeAttributeView,
> {
    match attribute {
        Some(found) => Some(found@),
        None => None,
    }
}

/// The one attribute among those found on a scope, if any was found. More
/// than one means that the scope is damaged.
pub fn try_get_asset<'a>(scope_attributes: &'a Vec<AssetScopeAttribute>, scope_address: &str) -> (r:
    Result<Option<&'a AssetScopeAttribute>, ContractError>)
    ensures
        match sole_attribute(scope_attributes.deep_view(), scope_address@) {
            Ok(expected) => r matches Ok(found) && optional_attribute(found) == expected,
            Err(error) => r matches Err(given) && given@ == error,
        },
{
    if scope_attributes.len() == 0 {
        Ok(None)
    } else if scope_attributes.len() == 1 {
        Ok(Some(&scope_attributes[0]))
    } else {
        Err(
            ContractError::InvalidScopeAttribute {
                scope_address: String::from_str(scope_address),
                attribute_amount: scope_attributes.len(),
            },
        )
    }
}

/// The one attribute among those found on a scope. None or more than one
/// is a failure.
pub fn get_asset<'a>(scope_attributes: &'a Vec<AssetScopeAttribute>, scope_address: &str) -> (r:
    Result<&'a AssetScopeAttribute, ContractError>)
    ensures
        match required_attribute(scope_attributes.deep_view(), scope_address@) {
            Ok(expected) => r matches Ok(found) && found@ == expected,
            Err(error) => r matches Err(given) && given@ == error,
        },
{
    match try_get_asset(scope_attributes, scope_address) {
        Err(error) => Err(error),
        Ok(None) => Err(
            ContractError::NotFound {
                explanation: String::from_str(NO_ATTRIBUTE_HEAD).concat(scope_address).concat(
                    NO_ATTRIBUTE_TAIL,
                ),
            },
        ),
        Ok(Some(attribute)) => Ok(attribute),
    }
}

/// Asks the ledger to put a new attribute on a scope in the place of the
/// one it has, if it has one.
pub fn attribute_update_messages(
    scope_address: &str,
    previous: Option<&AssetScopeAttribute>,
    attribute: AssetScopeAttribute,
    base_contract_name: &str,
) -> (r: Vec<ContractMessage>)
    ensures
        r.deep_view() == attribute_writes(
            scope_address@,
            optional_attribute(previous),
            attribute@,
            base_contract_name@,
        ),
{
    let mut messages: Vec<ContractMessage> = Vec::new();
    match previous {
        Some(old) => {
            messages.push(
                ContractMessage::DeleteAttribute {
                    address: String::from_str(scope_address),
                    name: generate_asset_attribute_name(
                        old.asset_type.as_str(),
                        base_contract_name,
                    ),
                },
            );
        },
        None => {},
    }
    let name = generate_asset_attribute_name(attribute.asset_type.as_str(), base_contract_name);
    messages.push(
        ContractMessage::AddAttribute {
            address: String::from_str(scope_address),
            name,
            value: attribute,
        },
    );
    assert(messages.deep_view() =~= attribute_writes(
        scope_address@,
        optional_attribute(previous),
        attribute@,
        base_contract_name@,
    ));
    messages
}

} // verus!
