use crate::model::asset::{AssetDefinitionView, VerifierDetail, VerifierDetailView};
use crate::model::error::{ContractError, ContractErrorView};
use crate::model::msg::ExecuteMsg;
use crate::model::state::{
    has_address, has_key, load_asset_definition_by_type, position_of_verifier,
    replace_asset_definition, replacement_outcome, type_not_found, type_position,
    verifier_position, with_verifiers, ContractStorage, ContractStorageView,
};
use crate::model::types::message_info::{MessageInfo, MessageInfoView};
use crate::model::types::response::{Response, ResponseView};
use crate::execute::update_asset_definition::lemma_update_keeps_distinct;
use crate::util::aliases::{committed, Commitment};
use crate::util::constants::{ASSET_EVENT_TYPE_KEY, ASSET_TYPE_KEY, VERIFIER_ADDRESS_KEY};
use crate::util::contract_helpers::{admin_route_verdict, check_admin_route};
use crate::util::event_attributes::{EventAttributes, EventType};
use crate::util::search::lemma_first_position;
use crate::util::text::lowercased;
use crate::validation::validate_init_msg::{
    definition_sound, definition_valid, fields_verdict, lemma_definition_valid,
    true_verifier_checks, validate_verifier, verifier_addresses, verifier_errors, verifier_valid,
    VERIFIER_MESSAGE,
};
use vstd::prelude::*;
use vstd::string::StringExecFns;

verus! {

/// The message type that is named where a message of this kind is turned down.
pub const ADD_ASSET_VERIFIER_MESSAGE: &'static str = "ExecuteMsg::AddAssetVerifier";

/// The command to add a verifier to an asset definition.
#[derive(Debug, Clone, PartialEq, Eq)]
pub struct AddAssetVerifierV1 {
    /// The type whose definition is meant.
    pub asset_type: String,
    /// The verifier to add.
    pub verifier: VerifierDetail,
}

impl AddAssetVerifierV1 {
    /// The command to add this verifier to the definition of a type.
    pub fn new(asset_type: &str, verifier: VerifierDetail) -> (r: Self)
        ensures
            r.asset_type@ == asset_type@,
            r.verifier == verifier,
    {
        AddAssetVerifierV1 { asset_type: String::from_str(asset_type), verifier }
    }

    /// The command that a message holds, if the message is of this kind.
    pub fn from_execute_msg(msg: ExecuteMsg) -> (r: Result<AddAssetVerifierV1, ContractError>)
        ensures
            match msg {
                ExecuteMsg::AddAssetVerifier { asset_type, verifier } => r matches Ok(command)
                    && command.asset_type@ == asset_type@ && command.verifier == verifier,
                _ => r matches Err(error) && error@ == (ContractErrorView::InvalidMessageType {
                    expected_message_type: ADD_ASSET_VERIFIER_MESSAGE@,
                }),
            },
    {
        match msg {
            ExecuteMsg::AddAssetVerifier { asset_type, verifier } => Ok(
                AddAssetVerifierV1 { asset_type, verifier },
            ),
            _ => Err(
                ContractError::InvalidMessageType {
                    expected_message_type: String::from_str(ADD_ASSET_VERIFIER_MESSAGE),
                },
            ),
        }
    }
}

/// What adding a verifier is to come to. The admin must send the command,
/// without coins. A definition of the type must exist, and it must not list
/// a verifier at the same address. Nothing may be wrong with the verifier.
/// Then the definition is stored anew with the verifier behind the others.
pub open spec fn add_asset_verifier_commitment(
    storage: ContractStorageView,
    info: MessageInfoView,
    asset_type: Seq<char>,
    verifier: VerifierDetailView,
) -> Commitment {
    match admin_route_verdict(storage, info) {
        Err(error) => Err(error),
        Ok(_) => match type_position(storage.asset_definitions, asset_type) {
            None => Err(type_not_found(asset_type)),
            Some(position) => {
                let definition = storage.asset_definitions[position];
                if verifier_position(definition.verifiers, verifier.address) is Some {
                    Err(ContractErrorView::DuplicateVerifierProvided)
                } else {
                    match fields_verdict(
                        VERIFIER_MESSAGE@,
                        verifier_errors(verifier, true_verifier_checks(verifier)),
                    ) {
                        Err(error) => Err(error),
                        Ok(_) => match replacement_outcome(
                            storage.asset_definitions,
                            with_verifiers(definition, definition.verifiers.push(verifier)),
                        ) {
                            Err(error) => Err(error),
                            Ok(definitions) => Ok(
                                (
                                    ContractStorageView {
                                        state: storage.state,
                                        asset_definitions: definitions,
                                    },
                                    ResponseView {
                                        attributes: seq![
                                            (
                                                ASSET_EVENT_TYPE_KEY@,
                                                EventType::AddAssetVerifier.name(),
                                            ),
                                            (ASSET_TYPE_KEY@, definition.asset_type),
                                            (VERIFIER_ADDRESS_KEY@, verifier.address),
                                        ],
                                        messages: Seq::empty(),
                                    },
                                ),
                            ),
                        },
                    }
                }
            },
        },
    }
}

/// A definition with which nothing is wrong stays so when a verifier with
/// which nothing is wrong, at an address that the definition does not list,
/// is put behind its verifiers.
pub proof fn lemma_added_verifier_valid(definition: AssetDefinitionView, verifier: VerifierDetailView)
    requires
        definition_valid(definition),
        verifier_valid(verifier),
        verifier_position(definition.verifiers, verifier.address) is None,
    ensures
        definition_valid(with_verifiers(definition, definition.verifiers.push(verifier))),
{
    let after = with_verifiers(definition, definition.verifiers.push(verifier));
    lemma_definition_valid(definition);
    lemma_definition_valid(after);
    lemma_first_position(definition.verifiers, has_address(verifier.address));
    let before_addresses = verifier_addresses(definition.verifiers);
    let after_addresses = verifier_addresses(after.verifiers);
    assert forall|i: int, j: int|
        0 <= i < after_addresses.len() && 0 <= j < after_addresses.len() && i != j implies after_addresses[i]
        != after_addresses[j] by {
        if i < before_addresses.len() && j < before_addresses.len() {
            assert(after_addresses[i] == before_addresses[i]);
            assert(after_addresses[j] == before_addresses[j]);
        } else if i < before_addresses.len() {
            assert(!has_address(verifier.address)(definition.verifiers[i]));
        } else {
            assert(!has_address(verifier.address)(definition.verifiers[j]));
        }
    }
    assert forall|i: int| 0 <= i < after.verifiers.len() implies verifier_valid(
        #[trigger] after.verifiers[i],
    ) by {
        if i < definition.verifiers.len() {
            assert(after.verifiers[i] == definition.verifiers[i]);
        }
    }
    assert(definition_sound(after));
}

/// Adds a verifier to an asset definition, for the admin.
pub fn add_asset_verifier(
    storage: &mut ContractStorage,
    info: &MessageInfo,
    msg: AddAssetVerifierV1,
) -> (r: Result<Response, ContractError>)
    ensures
        committed(
            old(storage)@,
            final(storage)@,
            r,
            add_asset_verifier_commitment(old(storage)@, info@, msg.asset_type@, msg.verifier@),
        ),
        old(storage)@.wf() ==> final(storage)@.wf(),
{
    match check_admin_route(storage, info) {
        Ok(_) => {},
        Err(error) => {
            return Err(error);
        },
    }
    let mut asset_definition = match load_asset_definition_by_type(
        storage,
        msg.asset_type.as_str(),
    ) {
        Ok(definition) => definition,
        Err(error) => {
            return Err(error);
        },
    };
    let ghost stored = asset_definition@;
    let ghost position = type_position(old(storage)@.asset_definitions, msg.asset_type@)->Some_0;
    // If the asset definition has a verifier with a matching address to the new verifier, this
    // request should be an update, not an add
    if position_of_verifier(&asset_definition.verifiers, msg.verifier.address.as_str()).is_some() {
        return Err(ContractError::DuplicateVerifierProvided);
    }
    match validate_verifier(&msg.verifier) {
        Ok(_) => {},
        Err(error) => {
            return Err(error);
        },
    }
    // Declare all attributes before values are moved
    let attributes = EventAttributes::new(EventType::AddAssetVerifier).set_asset_type(
        asset_definition.asset_type.as_str(),
    ).set_verifier(msg.verifier.address.as_str());
    // Store the new verifier in the definition and save it to storage
    let ghost added = msg.verifier@;
    asset_definition.verifiers.push(msg.verifier);
    proof {
        assert(asset_definition.verifiers.deep_view() =~= stored.verifiers.push(added));
        assert(asset_definition@ == with_verifiers(stored, stored.verifiers.push(added)));
    }
    match replace_asset_definition(storage, &asset_definition) {
        Ok(_) => {},
        Err(error) => {
            return Err(error);
        },
    }
    proof {
        if old(storage)@.wf() {
            lemma_first_position(
                old(storage)@.asset_definitions,
                has_key(lowercased(msg.asset_type@)),
            );
            lemma_added_verifier_valid(stored, added);
            lemma_update_keeps_distinct(old(storage)@.asset_definitions, asset_definition@);
        }
    }
    // Respond with emitted attributes
    let response = Response::new().add_attributes(attributes.attributes);
    proof {
        assert(response@.attributes =~= seq![
            (ASSET_EVENT_TYPE_KEY@, EventType::AddAssetVerifier.name()),
            (ASSET_TYPE_KEY@, stored.asset_type),
            (VERIFIER_ADDRESS_KEY@, added.address),
        ]);
    }
    Ok(response)
}

} // verus!
