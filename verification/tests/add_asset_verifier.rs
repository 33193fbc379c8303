use asset_classification_smart_contract::contract::{execute, instantiate};
use asset_classification_smart_contract::execute::add_asset_verifier::{
    add_asset_verifier, AddAssetVerifierV1,
};
use asset_classification_smart_contract::model::asset::VerifierDetail;
use asset_classification_smart_contract::model::error::ContractError;
use asset_classification_smart_contract::model::msg::{
    AssetDefinitionInput, ExecuteMsg, InitMsg,
};
use asset_classification_smart_contract::model::state::{
    load_asset_definition_by_type, ContractStorage,
};
use asset_classification_smart_contract::model::types::fee_destination::FeeDestination;
use asset_classification_smart_contract::model::types::message_info::{coin, MessageInfo};
use asset_classification_smart_contract::model::types::response::Response;
use asset_classification_smart_contract::util::constants::{
    ASSET_EVENT_TYPE_KEY, ASSET_TYPE_KEY, NHASH, VERIFIER_ADDRESS_KEY,
};
use asset_classification_smart_contract::util::event_attributes::EventType;
use asset_classification_smart_contract::validation::validate_init_msg::validate_verifier;

const DEFAULT_ADMIN_ADDRESS: &str = "tp1335hded4gyzpt00fpz75mms4m7ck02wgq0mt3z";
const DEFAULT_ASSET_TYPE: &str = "test_asset";
const DEFAULT_SCOPE_SPEC_ADDRESS: &str = "scopespec1qs0xkksv59w3rmy20gljdv9sur2sekygfh";
const DEFAULT_VERIFIER_ADDRESS: &str = "tp13ry74e5wkvqt99c690kfuk3xlaqhnltx2nxf9y";
const DEFAULT_FEE_ADDRESS: &str = "tp1vra8x9tf4lvap4ayjsnrf3mx20kxsua7c63t64";
const DEFAULT_CONTRACT_BASE_NAME: &str = "asset";

// Addresses must be valid bech32, so these are valid randomly-generated values for testing
const TEST_VERIFIER_ADDRESS: &str = "tp1g83pm46c8wxsnlra2ytruec7nuy95ttc8yy5n3";
const TEST_FEE_ADDRESS: &str = "tp1jz6mk0mfxd7heqhveezd2yf8ht0m3nekm6xve6";

fn mock_info(sender: &str, funds: Vec<asset_classification_smart_contract::model::types::message_info::Coin>) -> MessageInfo {
    MessageInfo::new(sender, funds)
}

fn test_instantiate_success() -> ContractStorage {
    let msg = InitMsg {
        base_contract_name: DEFAULT_CONTRACT_BASE_NAME.to_string(),
        bind_base_name: true,
        asset_definitions: vec![AssetDefinitionInput::new(
            DEFAULT_ASSET_TYPE,
            DEFAULT_SCOPE_SPEC_ADDRESS,
            vec![VerifierDetail::new(
                DEFAULT_VERIFIER_ADDRESS,
                1000,
                NHASH,
                100,
                vec![FeeDestination::new(DEFAULT_FEE_ADDRESS, 100)],
            )],
            None,
        )],
        is_test: Some(true),
    };
    let (storage, _) = instantiate(&mock_info(DEFAULT_ADMIN_ADDRESS, vec![]), msg)
        .expect("expected instantiation to succeed");
    storage
}

fn single_attribute_for_key<'a>(response: &'a Response, key: &str) -> &'a str {
    let found: Vec<&str> = response
        .attributes
        .iter()
        .filter(|attribute| attribute.key == key)
        .map(|attribute| attribute.value.as_str())
        .collect();
    assert_eq!(1, found.len(), "expected a single attribute for key {}", key);
    found[0]
}

#[test]
fn test_valid_add_asset_verifier_via_execute() {
    let mut deps = test_instantiate_success();
    let verifier = get_valid_new_verifier();
    let response = execute(
        &mut deps,
        &vec![],
        &mock_info(DEFAULT_ADMIN_ADDRESS, vec![]),
        ExecuteMsg::AddAssetVerifier {
            asset_type: DEFAULT_ASSET_TYPE.to_string(),
            verifier: verifier.clone(),
        },
    )
    .expect("expected the add verifier function to execute properly");
    assert!(
        response.messages.is_empty(),
        "adding an asset verifier should not require messages",
    );
    assert_eq!(
        3,
        response.attributes.len(),
        "adding an asset verifier should produce the correct number of attributes",
    );
    assert_eq!(
        EventType::AddAssetVerifier.event_name().as_str(),
        single_attribute_for_key(&response, ASSET_EVENT_TYPE_KEY),
        "expected the correct event type to be emitted",
    );
    assert_eq!(
        DEFAULT_ASSET_TYPE,
        single_attribute_for_key(&response, ASSET_TYPE_KEY),
        "expected the default asset type to be used for the main add key",
    );
    assert_eq!(
        &verifier.address,
        single_attribute_for_key(&response, VERIFIER_ADDRESS_KEY),
        "expected the new verifier's address to be emitted as an attribute",
    );
    test_default_verifier_was_added(&verifier, &deps);
}

#[test]
fn test_valid_add_asset_verifier_via_internal() {
    let mut deps = test_instantiate_success();
    let msg = get_add_verifier();
    add_asset_verifier(
        &mut deps,
        &mock_info(DEFAULT_ADMIN_ADDRESS, vec![]),
        msg.clone(),
    )
    .expect("expected the add verifier function to return properly");
    test_default_verifier_was_added(&msg.verifier, &deps);
}

#[test]
fn test_invalid_add_asset_verifier_for_invalid_asset_type() {
    let mut deps = test_instantiate_success();
    let error = execute(
        &mut deps,
        &vec![],
        &mock_info(DEFAULT_ADMIN_ADDRESS, vec![]),
        ExecuteMsg::AddAssetVerifier {
            // Invalid because the asset type is missing
            asset_type: String::new(),
            verifier: get_valid_new_verifier(),
        },
    )
    .unwrap_err();
    assert!(
        matches!(error, ContractError::InvalidMessageFields { .. }),
        "when an invalid asset type is provided to execute, the invalid message fields error should be returned, but got: {:?}",
        error,
    );
}

#[test]
fn test_invalid_add_asset_verifier_for_invalid_msg() {
    let mut deps = test_instantiate_success();
    let error = execute(
        &mut deps,
        &vec![],
        &mock_info(DEFAULT_ADMIN_ADDRESS, vec![]),
        ExecuteMsg::AddAssetVerifier {
            asset_type: DEFAULT_ASSET_TYPE.to_string(),
            // Invalid because the address is blank
            verifier: VerifierDetail::new("", 0, NHASH, 0, vec![]),
        },
    )
    .unwrap_err();
    assert!(
        matches!(error, ContractError::InvalidMessageFields { .. }),
        "when an invalid verifier is provided to execute, the invalid message fields error should be returned, but got: {:?}",
        error,
    );
}

#[test]
fn test_invalid_add_asset_verifier_for_invalid_sender() {
    let mut deps = test_instantiate_success();
    let error = add_asset_verifier(
        &mut deps,
        &mock_info("non-admin-person", vec![]),
        get_add_verifier(),
    )
    .unwrap_err();
    assert!(
        matches!(error, ContractError::Unauthorized { .. }),
        "expected the unauthorized response to be returned when a different address than the admin is the sender, but got: {:?}",
        error,
    );
}

#[test]
fn test_invalid_add_asset_verifier_for_provided_funds() {
    let mut deps = test_instantiate_success();
    let error = add_asset_verifier(
        &mut deps,
        &mock_info(DEFAULT_ADMIN_ADDRESS, vec![coin(6900, "nhash")]),
        get_add_verifier(),
    )
    .unwrap_err();
    assert!(
        matches!(error, ContractError::InvalidFunds(_)),
        "expected the invalid funds response to be returned when funds are provided to the function, but got: {:?}",
        error,
    );
}

#[test]
fn test_invalid_add_asset_verifier_for_duplicate_verifier_address() {
    let mut deps = test_instantiate_success();
    let error = add_asset_verifier(
        &mut deps,
        &mock_info(DEFAULT_ADMIN_ADDRESS, vec![]),
        AddAssetVerifierV1::new(
            DEFAULT_ASSET_TYPE,
            VerifierDetail::new(DEFAULT_VERIFIER_ADDRESS, 100, NHASH, 0, vec![]),
        ),
    )
    .unwrap_err();
    assert!(
        matches!(error, ContractError::DuplicateVerifierProvided),
        "expected the duplcate verifier error to be returned when the verifier to be added is already placed on the asset definition, but got: {:?}",
        error,
    );
}

#[test]
fn add_asset_verifier_for_a_missing_type_is_record_not_found() {
    let mut deps = test_instantiate_success();
    let before = deps.clone();
    let error = add_asset_verifier(
        &mut deps,
        &mock_info(DEFAULT_ADMIN_ADDRESS, vec![]),
        AddAssetVerifierV1::new("no-such-type", get_valid_new_verifier()),
    )
    .unwrap_err();
    match error {
        ContractError::RecordNotFound { explanation } => assert_eq!(
            "no asset definition existed for asset type no-such-type",
            explanation
        ),
        other => panic!("unexpected error: {:?}", other),
    }
    assert_eq!(before, deps, "a failed command must leave the storage as it was");
}

#[test]
fn add_asset_verifier_finds_the_type_in_any_letter_case() {
    let mut deps = test_instantiate_success();
    add_asset_verifier(
        &mut deps,
        &mock_info(DEFAULT_ADMIN_ADDRESS, vec![]),
        AddAssetVerifierV1::new("TEST_Asset", get_valid_new_verifier()),
    )
    .expect("the type should be found");
    test_default_verifier_was_added(&get_valid_new_verifier(), &deps);
}

#[test]
fn from_execute_msg_takes_only_its_own_kind() {
    let command = AddAssetVerifierV1::from_execute_msg(ExecuteMsg::AddAssetVerifier {
        asset_type: DEFAULT_ASSET_TYPE.to_string(),
        verifier: get_valid_new_verifier(),
    })
    .unwrap();
    assert_eq!(get_add_verifier(), command);
    let error = AddAssetVerifierV1::from_execute_msg(ExecuteMsg::BindContractAlias {
        alias_name: "alias".to_string(),
    })
    .unwrap_err();
    match error {
        ContractError::InvalidMessageType { expected_message_type } => {
            assert_eq!("ExecuteMsg::AddAssetVerifier", expected_message_type)
        }
        other => panic!("unexpected error: {:?}", other),
    }
}

// Checks that the verifier passed in was added to the default asset type's definition
fn test_default_verifier_was_added(verifier: &VerifierDetail, deps: &ContractStorage) {
    let state_def = load_asset_definition_by_type(deps, DEFAULT_ASSET_TYPE)
        .expect("expected the default asset type to be stored in the state");
    let target_verifier = state_def.verifiers.into_iter().find(|v| v.address == verifier.address)
        .expect("expected a single verifier to be produced when searching for the new verifier's address");
    assert_eq!(
        verifier, &target_verifier,
        "expected the verifier stored in state to equate to the newly-added verifier",
    );
}

fn get_valid_new_verifier() -> VerifierDetail {
    let verifier = VerifierDetail::new(
        TEST_VERIFIER_ADDRESS,
        500000,
        NHASH,
        50000,
        vec![FeeDestination::new(TEST_FEE_ADDRESS, 50000)],
    );
    validate_verifier(&verifier).expect("expected the new verifier to pass validation");
    verifier
}

fn get_add_verifier() -> AddAssetVerifierV1 {
    AddAssetVerifierV1 {
        asset_type: DEFAULT_ASSET_TYPE.to_string(),
        verifier: get_valid_new_verifier(),
    }
}
