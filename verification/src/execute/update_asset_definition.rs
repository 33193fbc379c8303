use crate::model::asset::{AssetDefinition, AssetDefinitionView};
use crate::model::error::{ContractError, ContractErrorView};
use crate::model::msg::ExecuteMsg;
use crate::model::state::{
    definitions_distinct,
    has_key,
    position_of_type,
    replace_asset_definition,
    replacement_outcome,
    scope_spec_in_use_elsewhere,
    type_not_found_error,
    type_position,
    ContractStorage,
    ContractStorageView,
};
use crate::model::types::message_info::{MessageInfo, MessageInfoView};
use crate::model::types::response::{Response, ResponseView};
use crate::util::aliases::{committed, Commitment};
use crate::util::constants::{ASSET_EVENT_TYPE_KEY, ASSET_TYPE_KEY};
use crate::util::contract_helpers::{admin_route_verdict, check_admin_route};
use crate::util::event_attributes::{EventAttributes, EventType};
use crate::util::search::lemma_first_position;
use crate::util::text::lowercased;
use crate::validation::validate_init_msg::{
    definition_errors,
    fields_verdict,
    true_definition_checks,
    validate_asset_definition,
    DEFINITION_MESSAGE,
};
use vstd::prelude::*;
use vstd::string::StringExecFns;

verus! {

/// The message type that is named where a message of this kind is turned down.
pub const UPDATE_ASSET_DEFINITION_MESSAGE: &'static str = "ExecuteMsg::UpdateAssetDefinition";

/// The command to replace an asset definition.
#[derive(Debug, Clone, PartialEq, Eq)]
pub struct UpdateAssetDefinitionV1 {
    /// The definition to store. A definition of its type must exist.
    pub asset_definition: AssetDefinition,
}

impl UpdateAssetDefinitionV1 {
    /// The command to store this definition in the place of the one of its
    /// type.
    pub fn new(asset_definition: AssetDefinition) -> (r: Self)
        ensures
            r.asset_definition == asset_definition,
    {
        UpdateAssetDefinitionV1 { asset_definition }
    }

    /// The command that a message holds, if the message is of this kind.
    pub fn from_execute_msg(msg: ExecuteMsg) -> (r: Result<UpdateAssetDefinitionV1, ContractError>)
        ensures
            match msg {
                ExecuteMsg::UpdateAssetDefinition { asset_definition } => r matches Ok(command)
                    && command.asset_definition@ == asset_definition.definition(),
                _ => r matches Err(error) && error@ == (ContractErrorView::InvalidMessageType {
                    expected_message_type: UPDATE_ASSET_DEFINITION_MESSAGE@,
                }),
            },
    {
        match msg {
            ExecuteMsg::UpdateAssetDefinition { asset_definition } => Ok(
                UpdateAssetDefinitionV1 {
                    asset_definition: asset_definition.into_asset_definition(),
                },
            ),
            _ => Err(
                ContractError::InvalidMessageType {
                    expected_message_type: String::from_str(UPDATE_ASSET_DEFINITION_MESSAGE),
                },
            ),
        }
    }
}

/// What replacing a definition is to come to. The admin must send the
/// command, without coins. A definition of the type must exist, and no other
/// definition may have the scope specification. Nothing may be wrong with
/// the new definition. Then it takes the place of the old one.
pub open spec fn update_asset_definition_commitment(
    storage: ContractStorageView,
    info: MessageInfoView,
    definition: AssetDefinitionView,
) -> Commitment {
    match admin_route_verdict(storage, info) {
        Err(error) => Err(error),
        Ok(_) => match replacement_outcome(storage.asset_definitions, definition) {
            Err(error) => Err(error),
            Ok(definitions) => match fields_verdict(
                DEFINITION_MESSAGE@,
                definition_errors(definition, true_definition_checks(definition)),
            ) {
                Err(error) => Err(error),
                Ok(_) => Ok(
                    (
                        ContractStorageView { state: storage.state, asset_definitions: definitions },
                        ResponseView {
                            attributes: seq![
                                (ASSET_EVENT_TYPE_KEY@, EventType::UpdateAssetDefinition.name()),
                                (ASSET_TYPE_KEY@, definition.asset_type),
                            ],
                            messages: Seq::empty(),
                        },
                    ),
                ),
            },
        },
    }
}

/// A definition that takes the place of the definition of its type among
/// distinct definitions, none other of which has its scope specification,
/// leaves them distinct.
pub proof fn lemma_update_keeps_distinct(
    definitions: Seq<AssetDefinitionView>,
    definition: AssetDefinitionView,
)
    requires
        definitions_distinct(definitions),
        replacement_outcome(definitions, definition) is Ok,
    ensures
        definitions_distinct(replacement_outcome(definitions, definition)->Ok_0),
{
    lemma_first_position(definitions, has_key(lowercased(definition.asset_type)));
    let position = type_position(definitions, definition.asset_type)->Some_0;
    let after = definitions.update(position, definition);
    assert(has_key(lowercased(definition.asset_type))(definitions[position]));
    assert forall|i: int, j: int| 0 <= i < j < after.len() implies (#[trigger] after[i]).key() != (
    #[trigger] after[j]).key() by {
        assert(after[i].key() == definitions[i].key());
        assert(after[j].key() == definitions[j].key());
    }
    assert forall|i: int, j: int| 0 <= i < j < after.len() implies (
    #[trigger] after[i]).scope_spec_address != (#[trigger] after[j]).scope_spec_address by {
        if i != position && j != position {
            assert(after[i] == definitions[i] && after[j] == definitions[j]);
        } else if i == position {
            assert(after[j] == definitions[j]);
        } else {
            assert(after[i] == definitions[i]);
        }
    }
}

/// Replaces an asset definition, for the admin.
pub fn update_asset_definition(
    storage: &mut ContractStorage,
    info: &MessageInfo,
    msg: UpdateAssetDefinitionV1,
) -> (r: Result<Response, ContractError>)
    ensures
        committed(
            old(storage)@,
            final(storage)@,
            r,
            update_asset_definition_commitment(old(storage)@, info@, msg.asset_definition@),
        ),
        old(storage)@.wf() ==> final(storage)@.wf(),
{
    match check_admin_route(storage, info) {
        Ok(_) => {},
        Err(error) => {
            return Err(error);
        },
    }
    let position = match position_of_type(
        &storage.asset_definitions,
        msg.asset_definition.asset_type.as_str(),
    ) {
        Some(position) => position,
        None => {
            return Err(type_not_found_error(msg.asset_definition.asset_type.as_str()));
        },
    };
    if scope_spec_in_use_elsewhere(
        &storage.asset_definitions,
        msg.asset_definition.scope_spec_address.as_str(),
        position,
    ) {
        return Err(ContractError::DuplicateAssetDefinitionProvided);
    }
    match validate_asset_definition(&msg.asset_definition) {
        Ok(_) => {},
        Err(error) => {
            return Err(error);
        },
    }
    // Overwrite the existing asset definition with the new one
    match replace_asset_definition(storage, &msg.asset_definition) {
        Ok(_) => {},
        Err(error) => {
            return Err(error);
        },
    }
    proof {
        if old(storage)@.wf() {
            lemma_update_keeps_distinct(old(storage)@.asset_definitions, msg.asset_definition@);
        }
    }
    let attributes = EventAttributes::new(EventType::UpdateAssetDefinition).set_asset_type(
        msg.asset_definition.asset_type.as_str(),
    );
    let response = Response::new().add_attributes(attributes.attributes);
    proof {
        assert(response@.attributes =~= seq![
            (ASSET_EVENT_TYPE_KEY@, EventType::UpdateAssetDefinition.name()),
            (ASSET_TYPE_KEY@, msg.asset_definition@.asset_type),
        ]);
    }
    Ok(response)
}

} // verus!
