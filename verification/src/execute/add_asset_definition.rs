use crate::model::asset::{AssetDefinition, AssetDefinitionView};
use crate::model::error::{ContractError, ContractErrorView};
use crate::model::msg::ExecuteMsg;
use crate::model::state::{
    definitions_distinct,
    has_key,
    has_scope_spec,
    position_of_scope_spec,
    position_of_type,
    scope_spec_position,
    type_position,
    ContractStorage,
    ContractStorageView,
};
use crate::model::types::message_info::{MessageInfo, MessageInfoView};
use crate::model::types::response::{Response, ResponseView};
use crate::util::aliases::{committed, Commitment};
use crate::util::constants::{ASSET_EVENT_TYPE_KEY, ASSET_TYPE_KEY};
use crate::util::contract_helpers::{admin_route_verdict, check_admin_route};
use crate::util::event_attributes::{EventAttributes, EventType};
use crate::util::search::lemma_first_position;
use crate::util::text::lowercased;
use crate::validation::validate_init_msg::{
    definition_errors,
    fields_verdict,
    true_definition_checks,
    validate_asset_definition,
    DEFINITION_MESSAGE,
};
use vstd::prelude::*;
use vstd::string::StringExecFns;

verus! {

/// The message type that is named where a message of this kind is turned down.
pub const ADD_ASSET_DEFINITION_MESSAGE: &'static str = "ExecuteMsg::AddAssetDefinition";

/// The command to add an asset definition.
#[derive(Debug, Clone, PartialEq, Eq)]
pub struct AddAssetDefinitionV1 {
    /// The definition to add.
    pub asset_definition: AssetDefinition,
}

impl AddAssetDefinitionV1 {
    /// The command to add this definition.
    pub fn new(asset_definition: AssetDefinition) -> (r: Self)
        ensures
            r.asset_definition == asset_definition,
    {
        AddAssetDefinitionV1 { asset_definition }
    }

    /// The command that a message holds, if the message is of this kind.
    pub fn from_execute_msg(msg: ExecuteMsg) -> (r: Result<AddAssetDefinitionV1, ContractError>)
        ensures
            match msg {
                ExecuteMsg::AddAssetDefinition { asset_definition } => r matches Ok(command)
                    && command.asset_definition@ == asset_definition.definition(),
                _ => r matches Err(error) && error@ == (ContractErrorView::InvalidMessageType {
                    expected_message_type: ADD_ASSET_DEFINITION_MESSAGE@,
                }),
            },
    {
        match msg {
            ExecuteMsg::AddAssetDefinition { asset_definition } => Ok(
                AddAssetDefinitionV1 { asset_definition: asset_definition.into_asset_definition() },
            ),
            _ => Err(
                ContractError::InvalidMessageType {
                    expected_message_type: String::from_str(ADD_ASSET_DEFINITION_MESSAGE),
                },
            ),
        }
    }
}

/// What adding a definition is to come to. The admin must send the command,
/// without coins. A definition of the same type, in whatever letter case,
/// or of the same scope specification must not exist. Nothing may be wrong
/// with the definition. Then it is stored behind the others.
pub open spec fn add_asset_definition_commitment(
    storage: ContractStorageView,
    info: MessageInfoView,
    definition: AssetDefinitionView,
) -> Commitment {
    match admin_route_verdict(storage, info) {
        Err(error) => Err(error),
        Ok(_) => if type_position(storage.asset_definitions, definition.asset_type) is Some
            || scope_spec_position(storage.asset_definitions, definition.scope_spec_address)
            is Some {
            Err(ContractErrorView::DuplicateAssetDefinitionProvided)
        } else {
            match fields_verdict(
                DEFINITION_MESSAGE@,
                definition_errors(definition, true_definition_checks(definition)),
            ) {
                Err(error) => Err(error),
                Ok(_) => Ok(
                    (
                        ContractStorageView {
                            state: storage.state,
                            asset_definitions: storage.asset_definitions.push(definition),
                        },
                        ResponseView {
                            attributes: seq![
                                (ASSET_EVENT_TYPE_KEY@, EventType::AddAssetDefinition.name()),
                                (ASSET_TYPE_KEY@, definition.asset_type),
                            ],
                            messages: Seq::empty(),
                        },
                    ),
                ),
            }
        },
    }
}

/// A definition that is stored behind distinct definitions, none of which
/// has its type or its scope specification, leaves them distinct.
pub proof fn lemma_push_keeps_distinct(
    definitions: Seq<AssetDefinitionView>,
    definition: AssetDefinitionView,
)
    requires
        definitions_distinct(definitions),
        type_position(definitions, definition.asset_type) is None,
        scope_spec_position(definitions, definition.scope_spec_address) is None,
    ensures
        definitions_distinct(definitions.push(definition)),
{
    lemma_first_position(definitions, has_key(lowercased(definition.asset_type)));
    lemma_first_position(definitions, has_scope_spec(definition.scope_spec_address));
    let after = definitions.push(definition);
    assert forall|i: int, j: int| 0 <= i < j < after.len() implies (#[trigger] after[i]).key() != (
    #[trigger] after[j]).key() by {
        if j < definitions.len() {
            assert(after[i] == definitions[i] && after[j] == definitions[j]);
        } else {
            assert(after[i] == definitions[i]);
            assert(!has_key(lowercased(definition.asset_type))(definitions[i]));
        }
    }
    assert forall|i: int, j: int| 0 <= i < j < after.len() implies (
    #[trigger] after[i]).scope_spec_address != (#[trigger] after[j]).scope_spec_address by {
        if j < definitions.len() {
            assert(after[i] == definitions[i] && after[j] == definitions[j]);
        } else {
            assert(after[i] == definitions[i]);
            assert(!has_scope_spec(definition.scope_spec_address)(definitions[i]));
        }
    }
}

/// A definition whose type differs from the type of a stored definition in
/// letter case at most is turned down as a duplicate, whatever else it
/// holds.
pub proof fn lemma_case_variant_is_duplicate(
    storage: ContractStorageView,
    info: MessageInfoView,
    definition: AssetDefinitionView,
    stored: int,
)
    requires
        admin_route_verdict(storage, info) is Ok,
        0 <= stored < storage.asset_definitions.len(),
        lowercased(storage.asset_definitions[stored].asset_type) == lowercased(
            definition.asset_type,
        ),
    ensures
        add_asset_definition_commitment(storage, info, definition) == Err::<
            (ContractStorageView, ResponseView),
            ContractErrorView,
        >(ContractErrorView::DuplicateAssetDefinitionProvided),
{
    lemma_first_position(storage.asset_definitions, has_key(lowercased(definition.asset_type)));
    assert(has_key(lowercased(definition.asset_type))(storage.asset_definitions[stored]));
}

/// Adds an asset definition, for the admin.
///
/// Adding a definition whose type differs from a stored one in letter case
/// at most fails as a duplicate.
pub fn add_asset_definition(
    storage: &mut ContractStorage,
    info: &MessageInfo,
    msg: AddAssetDefinitionV1,
) -> (r: Result<Response, ContractError>)
    ensures
        committed(
            old(storage)@,
            final(storage)@,
            r,
            add_asset_definition_commitment(old(storage)@, info@, msg.asset_definition@),
        ),
        old(storage)@.wf() ==> final(storage)@.wf(),
{
    match check_admin_route(storage, info) {
        Ok(_) => {},
        Err(error) => {
            return Err(error);
        },
    }
    if position_of_type(&storage.asset_definitions, msg.asset_definition.asset_type.as_str())
        .is_some() || position_of_scope_spec(
        &storage.asset_definitions,
        msg.asset_definition.scope_spec_address.as_str(),
    ).is_some() {
        return Err(ContractError::DuplicateAssetDefinitionProvided);
    }
    match validate_asset_definition(&msg.asset_definition) {
        Ok(_) => {},
        Err(error) => {
            return Err(error);
        },
    }
    let attributes = EventAttributes::new(EventType::AddAssetDefinition).set_asset_type(
        msg.asset_definition.asset_type.as_str(),
    );
    let ghost before = storage.asset_definitions.deep_view();
    let ghost added = msg.asset_definition@;
    storage.asset_definitions.push(msg.asset_definition);
    proof {
        assert(storage.asset_definitions.deep_view() =~= before.push(added));
        if old(storage)@.wf() {
            lemma_push_keeps_distinct(before, added);
        }
    }
    let response = Response::new().add_attributes(attributes.attributes);
    proof {
        assert(response@.attributes =~= seq![
            (ASSET_EVENT_TYPE_KEY@, EventType::AddAssetDefinition.name()),
            (ASSET_TYPE_KEY@, added.asset_type),
        ]);
    }
    Ok(response)
}

} // verus!
