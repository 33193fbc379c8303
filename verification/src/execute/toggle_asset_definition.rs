use crate::model::asset::AssetDefinitionView;
use crate::model::error::{ContractError, ContractErrorView};
use crate::model::msg::ExecuteMsg;
use crate::model::state::{
    position_of_type,
    type_not_found,
    type_not_found_error,
    type_position,
    ContractStorage,
    ContractStorageView,
};
use crate::model::types::message_info::{MessageInfo, MessageInfoView};
use crate::model::types::response::{Response, ResponseView};
use crate::util::aliases::{committed, Commitment};
use crate::util::constants::{ASSET_EVENT_TYPE_KEY, ASSET_TYPE_KEY, NEW_VALUE_KEY};
use crate::util::contract_helpers::{admin_route_verdict, check_admin_route};
use crate::util::event_attributes::{EventAttributes, EventType};

use crate::validation::validate_init_msg::{definition_valid, true_definition_checks};
use vstd::prelude::*;
use vstd::string::StringExecFns;

verus! {

/// The message type that is named where a message of this kind is turned down.
pub const TOGGLE_MESSAGE: &'static str = "ExecuteMsg::ToggleAssetDefinition";

/// What the error says.
pub const TOGGLE_MISMATCH: &'static str =
    "the asset definition is not in the state that the toggle expects";

/// How whether a definition is enabled is written in an event.
pub const ENABLED_TEXT: &'static str = "true";

/// How whether a definition is enabled is written in an event.
pub const DISABLED_TEXT: &'static str = "false";

/// The command to enable a disabled asset definition or to disable an
/// enabled one.
#[derive(Debug, Clone, PartialEq, Eq)]
pub struct ToggleAssetDefinitionV1 {
    /// The type whose definition is meant.
    pub asset_type: String,
    /// Whether the sender takes the definition to be enabled at present. A
    /// toggle that finds the definition otherwise does nothing, so that a
    /// toggle sent twice is not applied twice.
    pub expected_result: bool,
}

impl ToggleAssetDefinitionV1 {
    /// The command to toggle the definition of a type.
    pub fn new(asset_type: &str, expected_result: bool) -> (r: Self)
        ensures
            r.asset_type@ == asset_type@,
            r.expected_result == expected_result,
    {
        ToggleAssetDefinitionV1 { asset_type: String::from_str(asset_type), expected_result }
    }

    /// The command that a message holds, if the message is of this kind.
    pub fn from_execute_msg(msg: ExecuteMsg) -> (r: Result<ToggleAssetDefinitionV1, ContractError>)
        ensures
            match msg {
                ExecuteMsg::ToggleAssetDefinition { asset_type, expected_result } => r matches Ok(
                    command,
                ) && command.asset_type@ == asset_type@ && command.expected_result
                    == expected_result,
                _ => r matches Err(error) && error@ == (ContractErrorView::InvalidMessageType {
                    expected_message_type: TOGGLE_MESSAGE@,
                }),
            },
    {
        match msg {
            ExecuteMsg::ToggleAssetDefinition { asset_type, expected_result } => Ok(
                ToggleAssetDefinitionV1 { asset_type, expected_result },
            ),
            _ => Err(
                ContractError::InvalidMessageType {
                    expected_message_type: String::from_str(TOGGLE_MESSAGE),
                },
            ),
        }
    }
}

/// How whether a definition is enabled is written.
pub open spec fn enabled_text(enabled: bool) -> Seq<char> {
    if enabled {
        ENABLED_TEXT@
    } else {
        DISABLED_TEXT@
    }
}

/// A definition with `enabled` turned over.
pub open spec fn toggled(definition: AssetDefinitionView) -> AssetDefinitionView {
    AssetDefinitionView {
        asset_type: definition.asset_type,
        scope_spec_address: definition.scope_spec_address,
        verifiers: definition.verifiers,
        enabled: !definition.enabled,
    }
}

/// What toggling a definition is to come to. The admin must send the
/// command, without coins. A definition of the type must exist; it must be
/// enabled exactly if the sender expects it to be. Then it is turned over.
pub open spec fn toggle_asset_definition_commitment(
    storage: ContractStorageView,
    info: MessageInfoView,
    asset_type: Seq<char>,
    expected_result: bool,
) -> Commitment {
    match admin_route_verdict(storage, info) {
        Err(error) => Err(error),
        Ok(_) => match type_position(storage.asset_definitions, asset_type) {
            None => Err(type_not_found(asset_type)),
            Some(position) => {
                let definition = storage.asset_definitions[position];
                if definition.enabled != expected_result {
                    Err(ContractErrorView::UnexpectedState { explanation: TOGGLE_MISMATCH@ })
                } else {
                    Ok(
                        (
                            ContractStorageView {
                                state: storage.state,
                                asset_definitions: storage.asset_definitions.update(
                                    position,
                                    toggled(definition),
                                ),
                            },
                            ResponseView {
                                attributes: seq![
                                    (
                                        ASSET_EVENT_TYPE_KEY@,
                                        EventType::ToggleAssetDefinition.name(),
                                    ),
                                    (ASSET_TYPE_KEY@, definition.asset_type),
                                    (NEW_VALUE_KEY@, enabled_text(!definition.enabled)),
                                ],
                                messages: Seq::empty(),
                            },
                        ),
                    )
                }
            },
        },
    }
}

/// Turning a definition over changes nothing that could be wrong with it.
pub proof fn lemma_toggled_valid(definition: AssetDefinitionView)
    ensures
        definition_valid(toggled(definition)) == definition_valid(definition),
{
    reveal(definition_valid);
    assert(true_definition_checks(toggled(definition)).verifiers =~= true_definition_checks(
        definition,
    ).verifiers);
    assert(true_definition_checks(toggled(definition)) == true_definition_checks(definition));
}

/// Enables a disabled asset definition or disables an enabled one, for the
/// admin.
pub fn toggle_asset_definition(
    storage: &mut ContractStorage,
    info: &MessageInfo,
    msg: ToggleAssetDefinitionV1,
) -> (r: Result<Response, ContractError>)
    ensures
        committed(
            old(storage)@,
            final(storage)@,
            r,
            toggle_asset_definition_commitment(
                old(storage)@,
                info@,
                msg.asset_type@,
                msg.expected_result,
            ),
        ),
        old(storage)@.wf() ==> final(storage)@.wf(),
{
    match check_admin_route(storage, info) {
        Ok(_) => {},
        Err(error) => {
            return Err(error);
        },
    }
    let position = match position_of_type(&storage.asset_definitions, msg.asset_type.as_str()) {
        Some(position) => position,
        None => {
            return Err(type_not_found_error(msg.asset_type.as_str()));
        },
    };
    let mut definition = storage.asset_definitions[position].clone();
    if definition.enabled != msg.expected_result {
        return Err(
            ContractError::UnexpectedState { explanation: String::from_str(TOGGLE_MISMATCH) },
        );
    }
    let ghost before = storage.asset_definitions.deep_view();
    definition.enabled = !definition.enabled;
    let attributes = EventAttributes::new(EventType::ToggleAssetDefinition).set_asset_type(
        definition.asset_type.as_str(),
    ).set_new_value(
        if definition.enabled {
            ENABLED_TEXT
        } else {
            DISABLED_TEXT
        },
    );
    assert(definition@ == toggled(before[position as int]));
    storage.asset_definitions.set(position, definition);
    proof {
        let after = before.update(position as int, toggled(before[position as int]));
        assert(storage.asset_definitions.deep_view() =~= after);
        if old(storage)@.wf() {
            lemma_toggled_valid(before[position as int]);
            assert forall|i: int, j: int| 0 <= i < j < after.len() implies (
            #[trigger] after[i]).key() != (#[trigger] after[j]).key() by {
                assert(after[i].key() == before[i].key());
                assert(after[j].key() == before[j].key());
            }
            assert forall|i: int, j: int| 0 <= i < j < after.len() implies (
            #[trigger] after[i]).scope_spec_address != (
            #[trigger] after[j]).scope_spec_address by {
                assert(after[i].scope_spec_address == before[i].scope_spec_address);
                assert(after[j].scope_spec_address == before[j].scope_spec_address);
            }
        }
    }
    let response = Response::new().add_attributes(attributes.attributes);
    proof {
        assert(response@.attributes =~= seq![
            (ASSET_EVENT_TYPE_KEY@, EventType::ToggleAssetDefinition.name()),
            (ASSET_TYPE_KEY@, before[position as int].asset_type),
            (NEW_VALUE_KEY@, enabled_text(!before[position as int].enabled)),
        ]);
    }
    Ok(response)
}

} // verus!
