use crate::execute::add_asset_definition::{
    add_asset_definition,
    add_asset_definition_commitment,
    lemma_push_keeps_distinct,
    AddAssetDefinitionV1,
};
use crate::execute::add_asset_verifier::{
    add_asset_verifier,
    add_asset_verifier_commitment,
    AddAssetVerifierV1,
};
use crate::execute::bind_contract_alias::{
    bind_contract_alias,
    bind_contract_alias_outcome,
    BindContractAliasV1,
};
use crate::execute::delete_asset_definition::{
    delete_asset_definition,
    delete_asset_definition_commitment,
    DeleteAssetDefinitionV1,
};
use crate::execute::onboard_asset::{onboard_asset, onboard_asset_outcome, OnboardAssetV1};
use crate::execute::toggle_asset_definition::{
    toggle_asset_definition,
    toggle_asset_definition_commitment,
    ToggleAssetDefinitionV1,
};
use crate::execute::update_access_routes::{
    update_access_routes,
    update_access_routes_outcome,
    UpdateAccessRoutesV1,
};
use crate::execute::update_asset_definition::{
    update_asset_definition,
    update_asset_definition_commitment,
    UpdateAssetDefinitionV1,
};
use crate::execute::update_asset_verifier::{
    update_asset_verifier,
    update_asset_verifier_commitment,
    UpdateAssetVerifierV1,
};
use crate::execute::validate_asset::{
    recorded_message,
    supplied_routes,
    validate_asset,
    validate_asset_outcome,
    ValidateAssetV1,
};
use crate::model::asset::{
    AssetDefinition,
    AssetDefinitionView,
    AssetScopeAttribute,
    AssetScopeAttributeView,
};
use crate::model::error::{ContractError, ContractErrorView};
use crate::model::msg::{AssetDefinitionInput, ExecuteMsg, InitMsg};
use crate::model::state::{
    definitions_distinct,
    position_of_scope_spec,
    position_of_type,
    scope_spec_position,
    type_position,
    ContractStorage,
    ContractStorageView,
    State,
    StateView,
};
use crate::model::types::message_info::{MessageInfo, MessageInfoView};
use crate::model::types::response::{ContractMessage, ContractMessageView, Response, ResponseView};
use crate::util::aliases::{committed, Commitment};
use crate::util::constants::ASSET_EVENT_TYPE_KEY;
use crate::util::contract_helpers::{check_funds_are_empty, no_funds_allowed};
use crate::util::event_attributes::{EventAttributes, EventType};
use crate::validation::validate_execute_msg::{execute_msg_verdict, validate_execute_msg};
use crate::validation::validate_init_msg::{
    definition_valid,
    fields_verdict,
    init_errors,
    input_errors,
    lemma_input_errors,
    lemma_inputs_errors,
    validate_init_msg,
    INSTANTIATE_MESSAGE,
};
use vstd::prelude::*;

verus! {

/// The definitions that a contract starts with, stored one behind the
/// other; a duplicate if one of them has the type, in whatever letter case,
/// or the scope specification of one before it.
pub open spec fn gathered(inputs: Seq<AssetDefinitionInput>) -> Result<
    Seq<AssetDefinitionView>,
    ContractErrorView,
>
    decreases inputs.len(),
{
    if inputs.len() == 0 {
        Ok(Seq::empty())
    } else {
        match gathered(inputs.drop_last()) {
            Err(error) => Err(error),
            Ok(definitions) => {
                let definition = inputs.last().definition();
                if type_position(definitions, definition.asset_type) is Some || scope_spec_position(
                    definitions,
                    definition.scope_spec_address,
                ) is Some {
                    Err(ContractErrorView::DuplicateAssetDefinitionProvided)
                } else {
                    Ok(definitions.push(definition))
                }
            },
        }
    }
}

/// What the ledger is asked to do when the contract is created: to bind
/// the base name, if that is wanted.
pub open spec fn binding(bind_base_name: bool, base_contract_name: Seq<char>) -> Seq<
    ContractMessageView,
> {
    if bind_base_name {
        seq![ContractMessageView::BindName { name: base_contract_name }]
    } else {
        Seq::empty()
    }
}

/// What creating the contract is to come to. No coins may come with the
/// message, nothing may be wrong with it, and no two of its definitions may
/// collide. Then the sender is the admin of a contract that stores the
/// definitions.
pub open spec fn instantiate_outcome(info: MessageInfoView, msg: InitMsg) -> Commitment {
    if info.funds.len() != 0 {
        Err(no_funds_allowed())
    } else {
        match fields_verdict(INSTANTIATE_MESSAGE@, init_errors(msg)) {
            Err(error) => Err(error),
            Ok(_) => match gathered(msg.asset_definitions@) {
                Err(error) => Err(error),
                Ok(definitions) => Ok(
                    (
                        ContractStorageView {
                            state: StateView {
                                base_contract_name: msg.base_contract_name@,
                                admin: info.sender,
                                is_test: match msg.is_test {
                                    Some(is_test) => is_test,
                                    None => false,
                                },
                            },
                            asset_definitions: definitions,
                        },
                        ResponseView {
                            attributes: seq![
                                (ASSET_EVENT_TYPE_KEY@, EventType::InstantiateContract.name()),
                            ],
                            messages: binding(msg.bind_base_name, msg.base_contract_name@),
                        },
                    ),
                ),
            },
        }
    }
}

/// Definitions that were gathered are distinct, and each is one of the
/// inputs.
pub proof fn lemma_gathered(inputs: Seq<AssetDefinitionInput>)
    requires
        gathered(inputs) is Ok,
    ensures
        definitions_distinct(gathered(inputs)->Ok_0),
        gathered(inputs)->Ok_0.len() == inputs.len(),
        forall|i: int|
            0 <= i < inputs.len() ==> (#[trigger] gathered(inputs)->Ok_0[i])
                == inputs[i].definition(),
    decreases inputs.len(),
{
    if inputs.len() > 0 {
        lemma_gathered(inputs.drop_last());
        let before = gathered(inputs.drop_last())->Ok_0;
        lemma_push_keeps_distinct(before, inputs.last().definition());
    }
}

/// Stores the definitions that a contract starts with, one behind the
/// other.
pub fn gather_definitions(inputs: &Vec<AssetDefinitionInput>) -> (r: Result<
    Vec<AssetDefinition>,
    ContractError,
>)
    ensures
        match gathered(inputs@) {
            Ok(definitions) => r matches Ok(stored) && stored.deep_view() == definitions,
            Err(error) => r matches Err(given) && given@ == error,
        },
{
    let mut asset_definitions: Vec<AssetDefinition> = Vec::new();
    assert(inputs@.take(0) =~= Seq::<AssetDefinitionInput>::empty());
    assert(asset_definitions.deep_view() =~= Seq::<AssetDefinitionView>::empty());
    let mut i: usize = 0;
    while i < inputs.len()
        invariant
            i <= inputs@.len(),
            gathered(inputs@.take(i as int)) == Ok::<Seq<AssetDefinitionView>, ContractErrorView>(
                asset_definitions.deep_view(),
            ),
        decreases inputs@.len() - i,
    {
        let definition = inputs[i].as_asset_definition();
        let ghost before = asset_definitions.deep_view();
        proof {
            assert(inputs@.take(i + 1).drop_last() =~= inputs@.take(i as int));
            assert(inputs@.take(i + 1).last() == inputs@[i as int]);
        }
        let type_taken = position_of_type(&asset_definitions, definition.asset_type.as_str())
            .is_some();
        let scope_spec_taken = position_of_scope_spec(
            &asset_definitions,
            definition.scope_spec_address.as_str(),
        ).is_some();
        if type_taken || scope_spec_taken {
            proof {
                assert(gathered(inputs@.take(i + 1)) is Err);
                lemma_gathered_prefix(inputs@, i + 1);
            }
            return Err(ContractError::DuplicateAssetDefinitionProvided);
        }
        asset_definitions.push(definition);
        proof {
            assert(asset_definitions.deep_view() =~= before.push(inputs@[i as int].definition()));
            assert(gathered(inputs@.take(i + 1)) == Ok::<
                Seq<AssetDefinitionView>,
                ContractErrorView,
            >(before.push(inputs@[i as int].definition())));
        }
        i = i + 1;
    }
    proof {
        assert(inputs@.take(i as int) =~= inputs@);
    }
    Ok(asset_definitions)
}

/// Creates the contract: the sender becomes its admin, and the definitions
/// of the message are stored.
pub fn instantiate(info: &MessageInfo, msg: InitMsg) -> (r: Result<
    (ContractStorage, Response),
    ContractError,
>)
    ensures
        match instantiate_outcome(info@, msg) {
            Ok((storage, response)) => r matches Ok((stored, given)) && stored@ == storage
                && given@ == response && stored@.wf(),
            Err(error) => r matches Err(given) && given@ == error,
        },
{
    match check_funds_are_empty(info) {
        Ok(_) => {},
        Err(error) => {
            return Err(error);
        },
    }
    match validate_init_msg(&msg) {
        Ok(_) => {},
        Err(error) => {
            return Err(error);
        },
    }
    let asset_definitions = match gather_definitions(&msg.asset_definitions) {
        Ok(definitions) => definitions,
        Err(error) => {
            return Err(error);
        },
    };
    proof {
        let inputs = msg.asset_definitions@;
        lemma_gathered(inputs);
        lemma_inputs_errors(inputs);
        assert forall|i: int| 0 <= i < inputs.len() implies definition_valid(
            #[trigger] asset_definitions.deep_view()[i],
        ) by {
            assert(input_errors(inputs[i]).len() == 0);
            lemma_input_errors(inputs[i]);
            assert(gathered(inputs)->Ok_0[i] == inputs[i].definition());
        }
    }
    let is_test = match msg.is_test {
        Some(is_test) => is_test,
        None => false,
    };
    let mut messages: Vec<ContractMessage> = Vec::new();
    if msg.bind_base_name {
        messages.push(ContractMessage::BindName { name: msg.base_contract_name.clone() });
    }
    assert(messages.deep_view() =~= binding(msg.bind_base_name, msg.base_contract_name@));
    let state = State {
        base_contract_name: msg.base_contract_name,
        admin: info.sender.clone(),
        is_test,
    };
    let storage = ContractStorage { state, asset_definitions };
    let attributes = EventAttributes::new(EventType::InstantiateContract);
    let response = Response::new().add_attributes(attributes.attributes).add_messages(messages);
    proof {
        assert(response@.attributes =~= seq![
            (ASSET_EVENT_TYPE_KEY@, EventType::InstantiateContract.name()),
        ]);
        assert(response@.messages =~= binding(msg.bind_base_name, msg.base_contract_name@));
    }
    Ok((storage, response))
}

/// Where the first definitions collide, all of them do.
pub proof fn lemma_gathered_prefix(inputs: Seq<AssetDefinitionInput>, n: int)
    requires
        0 <= n <= inputs.len(),
        gathered(inputs.take(n)) is Err,
    ensures
        gathered(inputs) == gathered(inputs.take(n)),
        gathered(inputs) == Err::<Seq<AssetDefinitionView>, ContractErrorView>(
            ContractErrorView::DuplicateAssetDefinitionProvided,
        ),
    decreases inputs.len() - n,
{
    lemma_gathered_error(inputs.take(n));
    if n == inputs.len() {
        assert(inputs.take(n) =~= inputs);
    } else {
        assert(inputs.take(n + 1).drop_last() =~= inputs.take(n));
        lemma_gathered_prefix(inputs, n + 1);
    }
}

/// Definitions fail to be gathered for one reason only.
pub proof fn lemma_gathered_error(inputs: Seq<AssetDefinitionInput>)
    requires
        gathered(inputs) is Err,
    ensures
        gathered(inputs) == Err::<Seq<AssetDefinitionView>, ContractErrorView>(
            ContractErrorView::DuplicateAssetDefinitionProvided,
        ),
    decreases inputs.len(),
{
    if inputs.len() > 0 {
        if gathered(inputs.drop_last()) is Err {
            lemma_gathered_error(inputs.drop_last());
        }
    }
}

/// What a command that leaves the storage alone comes to.
pub open spec fn unchanged(
    storage: ContractStorageView,
    outcome: Result<ResponseView, ContractErrorView>,
) -> Commitment {
    match outcome {
        Ok(response) => Ok((storage, response)),
        Err(error) => Err(error),
    }
}

/// What a message to the contract is to come to: it is checked, and then
/// the command that it holds is carried out.
pub open spec fn execute_commitment(
    storage: ContractStorageView,
    scope_attributes: Seq<AssetScopeAttributeView>,
    info: MessageInfoView,
    msg: ExecuteMsg,
) -> Commitment {
    match execute_msg_verdict(msg) {
        Err(error) => Err(error),
        Ok(_) => match msg {
            ExecuteMsg::OnboardAsset {
                identifier,
                asset_type,
                verifier_address,
                access_routes,
            } => unchanged(
                storage,
                onboard_asset_outcome(
                    storage,
                    scope_attributes,
                    info,
                    identifier@,
                    asset_type@,
                    verifier_address@,
                    supplied_routes(access_routes),
                ),
            ),
            ExecuteMsg::VerifyAsset { identifier, success, message, access_routes } => unchanged(
                storage,
                validate_asset_outcome(
                    storage,
                    scope_attributes,
                    info,
                    identifier@,
                    success,
                    recorded_message(success, message),
                    supplied_routes(access_routes),
                ),
            ),
            ExecuteMsg::AddAssetDefinition { asset_definition } => add_asset_definition_commitment(
                storage,
                info,
                asset_definition.definition(),
            ),
            ExecuteMsg::UpdateAssetDefinition {
                asset_definition,
            } => update_asset_definition_commitment(storage, info, asset_definition.definition()),
            ExecuteMsg::ToggleAssetDefinition {
                asset_type,
                expected_result,
            } => toggle_asset_definition_commitment(storage, info, asset_type@, expected_result),
            ExecuteMsg::AddAssetVerifier { asset_type, verifier } => add_asset_verifier_commitment(
                storage,
                info,
                asset_type@,
                verifier@,
            ),
            ExecuteMsg::UpdateAssetVerifier {
                asset_type,
                verifier,
            } => update_asset_verifier_commitment(storage, info, asset_type@, verifier@),
            ExecuteMsg::UpdateAccessRoutes { identifier, owner_address, access_routes } => unchanged(
                storage,
                update_access_routes_outcome(
                    storage,
                    scope_attributes,
                    info,
                    identifier@,
                    owner_address@,
                    access_routes.deep_view(),
                ),
            ),
            ExecuteMsg::BindContractAlias { alias_name } => unchanged(
                storage,
                bind_contract_alias_outcome(storage, info, alias_name@),
            ),
            ExecuteMsg::DeleteAssetDefinition { qualifier } => delete_asset_definition_commitment(
                storage,
                info,
                qualifier@,
            ),
        },
    }
}

/// Carries out a message to the contract.
///
/// `scope_attributes` are the attributes of this contract that the ledger
/// shows on the scope of the asset that the message names; they are looked
/// at for messages on assets only. A message that fails leaves the storage
/// as it was.
pub fn execute(
    storage: &mut ContractStorage,
    scope_attributes: &Vec<AssetScopeAttribute>,
    info: &MessageInfo,
    msg: ExecuteMsg,
) -> (r: Result<Response, ContractError>)
    ensures
        committed(
            old(storage)@,
            final(storage)@,
            r,
            execute_commitment(old(storage)@, scope_attributes.deep_view(), info@, msg),
        ),
        old(storage)@.wf() ==> final(storage)@.wf(),
{
    // Ensure the execute message is properly formatted before doing anything
    match validate_execute_msg(&msg) {
        Ok(_) => {},
        Err(error) => {
            return Err(error);
        },
    }
    match msg {
        ExecuteMsg::OnboardAsset { .. } => match OnboardAssetV1::from_execute_msg(msg) {
            Ok(command) => onboard_asset(storage, scope_attributes, info, command),
            Err(error) => Err(error),
        },
        ExecuteMsg::VerifyAsset { .. } => match ValidateAssetV1::from_execute_msg(msg) {
            Ok(command) => validate_asset(storage, scope_attributes, info, command),
            Err(error) => Err(error),
        },
        ExecuteMsg::AddAssetDefinition { .. } => match AddAssetDefinitionV1::from_execute_msg(msg) {
            Ok(command) => add_asset_definition(storage, info, command),
            Err(error) => Err(error),
        },
        ExecuteMsg::UpdateAssetDefinition {
            ..
        } => match UpdateAssetDefinitionV1::from_execute_msg(msg) {
            Ok(command) => update_asset_definition(storage, info, command),
            Err(error) => Err(error),
        },
        ExecuteMsg::ToggleAssetDefinition {
            ..
        } => match ToggleAssetDefinitionV1::from_execute_msg(msg) {
            Ok(command) => toggle_asset_definition(storage, info, command),
            Err(error) => Err(error),
        },
        ExecuteMsg::AddAssetVerifier { .. } => match AddAssetVerifierV1::from_execute_msg(msg) {
            Ok(command) => add_asset_verifier(storage, info, command),
            Err(error) => Err(error),
        },
        ExecuteMsg::UpdateAssetVerifier { .. } => match UpdateAssetVerifierV1::from_execute_msg(
            msg,
        ) {
            Ok(command) => update_asset_verifier(storage, info, command),
            Err(error) => Err(error),
        },
        ExecuteMsg::UpdateAccessRoutes { .. } => match UpdateAccessRoutesV1::from_execute_msg(msg) {
            Ok(command) => update_access_routes(storage, scope_attributes, info, command),
            Err(error) => Err(error),
        },
        ExecuteMsg::BindContractAlias { .. } => match BindContractAliasV1::from_execute_msg(msg) {
            Ok(command) => bind_contract_alias(storage, info, command),
            Err(error) => Err(error),
        },
        ExecuteMsg::DeleteAssetDefinition {
            ..
        } => match DeleteAssetDefinitionV1::from_execute_msg(msg) {
            Ok(command) => delete_asset_definition(storage, info, command),
            Err(error) => Err(error),
        },
    }
}

} // verus!
