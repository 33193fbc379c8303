use crate::model::asset::AssetDefinitionView;
use crate::model::error::{ContractError, ContractErrorView};
use crate::model::msg::ExecuteMsg;
use crate::model::state::{
    position_of_scope_spec,
    position_of_type,
    scope_spec_not_found,
    scope_spec_position,
    type_not_found,
    type_not_found_error,
    type_position,
    ContractStorage,
    ContractStorageView,
    NO_DEFINITION_FOR_SCOPE_SPEC,
};
use crate::model::types::asset_qualifier::{AssetQualifier, AssetQualifierView};
use crate::model::types::message_info::{MessageInfo, MessageInfoView};
use crate::model::types::response::{Response, ResponseView};
use crate::util::aliases::{committed, Commitment};
use crate::util::constants::{ASSET_EVENT_TYPE_KEY, ASSET_TYPE_KEY};
use crate::util::contract_helpers::{admin_route_verdict, check_admin_route};
use crate::util::event_attributes::{EventAttributes, EventType};
use crate::validation::validate_init_msg::definition_valid;
use vstd::prelude::*;
use vstd::string::StringExecFns;

verus! {

/// The message type that is named where a message of this kind is turned down.
pub const DELETE_MESSAGE: &'static str = "ExecuteMsg::DeleteAssetDefinition";

/// The command to remove an asset definition.
#[derive(Debug, Clone, PartialEq, Eq)]
pub struct DeleteAssetDefinitionV1 {
    /// The definition, by its type or by its scope specification.
    pub qualifier: AssetQualifier,
}

impl DeleteAssetDefinitionV1 {
    /// The command to remove the definition that the qualifier names.
    pub fn new(qualifier: AssetQualifier) -> (r: Self)
        ensures
            r.qualifier == qualifier,
    {
        DeleteAssetDefinitionV1 { qualifier }
    }

    /// The command that a message holds, if the message is of this kind.
    pub fn from_execute_msg(msg: ExecuteMsg) -> (r: Result<DeleteAssetDefinitionV1, ContractError>)
        ensures
            match msg {
                ExecuteMsg::DeleteAssetDefinition { qualifier } => r == Ok::<
                    DeleteAssetDefinitionV1,
                    ContractError,
                >(DeleteAssetDefinitionV1 { qualifier }),
                _ => r matches Err(error) && error@ == (ContractErrorView::InvalidMessageType {
                    expected_message_type: DELETE_MESSAGE@,
                }),
            },
    {
        match msg {
            ExecuteMsg::DeleteAssetDefinition { qualifier } => Ok(
                DeleteAssetDefinitionV1 { qualifier },
            ),
            _ => Err(
                ContractError::InvalidMessageType {
                    expected_message_type: String::from_str(DELETE_MESSAGE),
                },
            ),
        }
    }
}

/// Where the definition that a qualifier names is, or the complaint that
/// there is none.
pub open spec fn qualified_position(
    definitions: Seq<AssetDefinitionView>,
    qualifier: AssetQualifierView,
) -> Result<int, ContractErrorView> {
    match qualifier {
        AssetQualifierView::AssetType(asset_type) => match type_position(definitions, asset_type) {
            Some(position) => Ok(position),
            None => Err(type_not_found(asset_type)),
        },
        AssetQualifierView::ScopeSpecAddress(address) => match scope_spec_position(
            definitions,
            address,
        ) {
            Some(position) => Ok(position),
            None => Err(scope_spec_not_found(address)),
        },
    }
}

/// What removing a definition is to come to. The admin must send the
/// command, without coins. The definition must exist. Then it is taken out
/// from among the others.
pub open spec fn delete_asset_definition_commitment(
    storage: ContractStorageView,
    info: MessageInfoView,
    qualifier: AssetQualifierView,
) -> Commitment {
    match admin_route_verdict(storage, info) {
        Err(error) => Err(error),
        Ok(_) => match qualified_position(storage.asset_definitions, qualifier) {
            Err(error) => Err(error),
            Ok(position) => Ok(
                (
                    ContractStorageView {
                        state: storage.state,
                        asset_definitions: storage.asset_definitions.remove(position),
                    },
                    ResponseView {
                        attributes: seq![
                            (ASSET_EVENT_TYPE_KEY@, EventType::DeleteAssetDefinition.name()),
                            (ASSET_TYPE_KEY@, storage.asset_definitions[position].asset_type),
                        ],
                        messages: Seq::empty(),
                    },
                ),
            ),
        },
    }
}

/// Finds the definition that a qualifier names.
pub fn position_of_qualified(storage: &ContractStorage, qualifier: &AssetQualifier) -> (r: Result<
    usize,
    ContractError,
>)
    ensures
        match qualified_position(storage@.asset_definitions, qualifier@) {
            Ok(position) => r matches Ok(found) && found == position
                && found < storage.asset_definitions@.len(),
            Err(error) => r matches Err(given) && given@ == error,
        },
{
    match qualifier {
        AssetQualifier::AssetType(asset_type) => match position_of_type(
            &storage.asset_definitions,
            asset_type.as_str(),
        ) {
            Some(position) => Ok(position),
            None => Err(type_not_found_error(asset_type.as_str())),
        },
        AssetQualifier::ScopeSpecAddress(address) => match position_of_scope_spec(
            &storage.asset_definitions,
            address.as_str(),
        ) {
            Some(position) => Ok(position),
            None => Err(
                ContractError::RecordNotFound {
                    explanation: String::from_str(NO_DEFINITION_FOR_SCOPE_SPEC).concat(
                        address.as_str(),
                    ),
                },
            ),
        },
    }
}

/// Taking a definition out from among definitions that are distinct and
/// have nothing wrong with them leaves such definitions.
pub proof fn lemma_remove_keeps_wf(storage: ContractStorageView, position: int)
    requires
        storage.wf(),
        0 <= position < storage.asset_definitions.len(),
    ensures
        (ContractStorageView {
            state: storage.state,
            asset_definitions: storage.asset_definitions.remove(position),
        }).wf(),
{
    let before = storage.asset_definitions;
    let after = before.remove(position);
    assert forall|i: int, j: int| 0 <= i < j < after.len() implies (#[trigger] after[i]).key() != (
    #[trigger] after[j]).key() by {
        let a = if i < position {
            i
        } else {
            i + 1
        };
        let b = if j < position {
            j
        } else {
            j + 1
        };
        assert(after[i] == before[a] && after[j] == before[b]);
    }
    assert forall|i: int, j: int| 0 <= i < j < after.len() implies (
    #[trigger] after[i]).scope_spec_address != (#[trigger] after[j]).scope_spec_address by {
        let a = if i < position {
            i
        } else {
            i + 1
        };
        let b = if j < position {
            j
        } else {
            j + 1
        };
        assert(after[i] == before[a] && after[j] == before[b]);
    }
    assert forall|i: int| 0 <= i < after.len() implies definition_valid(#[trigger] after[i]) by {
        let a = if i < position {
            i
        } else {
            i + 1
        };
        assert(after[i] == before[a]);
    }
}

/// Removes an asset definition, for the admin.
pub fn delete_asset_definition(
    storage: &mut ContractStorage,
    info: &MessageInfo,
    msg: DeleteAssetDefinitionV1,
) -> (r: Result<Response, ContractError>)
    ensures
        committed(
            old(storage)@,
            final(storage)@,
            r,
            delete_asset_definition_commitment(old(storage)@, info@, msg.qualifier@),
        ),
        old(storage)@.wf() ==> final(storage)@.wf(),
{
    match check_admin_route(storage, info) {
        Ok(_) => {},
        Err(error) => {
            return Err(error);
        },
    }
    let position = match position_of_qualified(storage, &msg.qualifier) {
        Ok(position) => position,
        Err(error) => {
            return Err(error);
        },
    };
    let ghost before = storage.asset_definitions.deep_view();
    let removed = storage.asset_definitions.remove(position);
    proof {
        assert(storage.asset_definitions.deep_view() =~= before.remove(position as int));
        assert(removed@ == before[position as int]);
        if old(storage)@.wf() {
            lemma_remove_keeps_wf(old(storage)@, position as int);
        }
    }
    let attributes = EventAttributes::new(EventType::DeleteAssetDefinition).set_asset_type(
        removed.asset_type.as_str(),
    );
    let response = Response::new().add_attributes(attributes.attributes);
    proof {
        assert(response@.attributes =~= seq![
            (ASSET_EVENT_TYPE_KEY@, EventType::DeleteAssetDefinition.name()),
            (ASSET_TYPE_KEY@, before[position as int].asset_type),
        ]);
    }
    Ok(response)
}

} // verus!
