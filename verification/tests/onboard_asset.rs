use asset_classification_smart_contract::contract::{execute, instantiate};
use asset_classification_smart_contract::execute::onboard_asset::{onboard_asset, OnboardAssetV1};
use asset_classification_smart_contract::execute::validate_asset::{
    validate_asset, ValidateAssetV1,
};
use asset_classification_smart_contract::model::asset::{AssetScopeAttribute, VerifierDetail};
use asset_classification_smart_contract::model::error::ContractError;
use asset_classification_smart_contract::model::msg::{
    AssetDefinitionInput, ExecuteMsg, InitMsg,
};
use asset_classification_smart_contract::model::state::ContractStorage;
use asset_classification_smart_contract::model::types::access_route::AccessRoute;
use asset_classification_smart_contract::model::types::asset_identifier::AssetIdentifier;
use asset_classification_smart_contract::model::types::asset_onboarding_status::AssetOnboardingStatus;
use asset_classification_smart_contract::model::types::fee_destination::FeeDestination;
use asset_classification_smart_contract::model::types::message_info::{coin, Coin, MessageInfo};
use asset_classification_smart_contract::model::types::response::{ContractMessage, Response};

const ADMIN: &str = "tp1335hded4gyzpt00fpz75mms4m7ck02wgq0mt3z";
const SENDER: &str = "tp1pgm8hyk0pvphmlvfjc8wsvk4daluz5tgpxmkjw";
const SCOPE_SPEC: &str = "scopespec1qs0xkksv59w3rmy20gljdv9sur2sekygfh";
// V1, D1 and D2 as valid bech32 addresses
const V1: &str = "tp13ry74e5wkvqt99c690kfuk3xlaqhnltx2nxf9y";
const D1: &str = "tp1vra8x9tf4lvap4ayjsnrf3mx20kxsua7c63t64";
const D2: &str = "tp15x5pkpz3dpw9txaugylpg4gyelxttuf4ev0565";
const ASSET_UUID: &str = "0c39efb6-9fef-11ec-ab21-6bf5c9fb3f83";
const SCOPE_ADDRESS: &str = "scope1qqxrnmaknlh3rm9ty94ltj0m87psnapt5l";

fn info(sender: &str, funds: Vec<Coin>) -> MessageInfo {
    MessageInfo::new(sender, funds)
}

fn mortgage_verifier() -> VerifierDetail {
    VerifierDetail::new(
        V1,
        1000,
        "nhash",
        400,
        vec![FeeDestination::new(D1, 300), FeeDestination::new(D2, 100)],
    )
}

fn new_contract() -> ContractStorage {
    let (storage, response) = instantiate(
        &info(ADMIN, vec![]),
        InitMsg {
            base_contract_name: "asset".to_string(),
            bind_base_name: false,
            asset_definitions: vec![],
            is_test: None,
        },
    )
    .unwrap();
    assert!(response.messages.is_empty());
    storage
}

fn contract_with_mortgage() -> ContractStorage {
    let mut storage = new_contract();
    execute(
        &mut storage,
        &vec![],
        &info(ADMIN, vec![]),
        ExecuteMsg::AddAssetDefinition {
            asset_definition: AssetDefinitionInput::new(
                "mortgage",
                SCOPE_SPEC,
                vec![mortgage_verifier()],
                None,
            ),
        },
    )
    .expect("the admin should be able to add the definition");
    storage
}

fn attributes_after(before: Vec<AssetScopeAttribute>, response: &Response) -> Vec<AssetScopeAttribute> {
    let mut attributes = before;
    for message in &response.messages {
        match message {
            ContractMessage::DeleteAttribute { .. } => attributes.clear(),
            ContractMessage::AddAttribute { value, .. } => attributes.push(value.clone()),
            _ => {}
        }
    }
    attributes
}

fn payments(response: &Response) -> Vec<(String, u128, String)> {
    response
        .messages
        .iter()
        .filter_map(|message| match message {
            ContractMessage::Send { to_address, amount, denom } => {
                Some((to_address.clone(), *amount, denom.clone()))
            }
            _ => None,
        })
        .collect()
}

fn onboard_msg(identifier: AssetIdentifier) -> ExecuteMsg {
    ExecuteMsg::OnboardAsset {
        identifier,
        asset_type: "mortgage".to_string(),
        verifier_address: V1.to_string(),
        access_routes: Some(vec![AccessRoute::new("https://data", None)]),
    }
}

#[test]
fn mortgage_is_onboarded_denied_and_onboarded_again() {
    let mut storage = contract_with_mortgage();

    // onboarding with the exact price succeeds and distributes the price
    let response = execute(
        &mut storage,
        &vec![],
        &info(SENDER, vec![coin(1000, "nhash")]),
        onboard_msg(AssetIdentifier::asset_uuid(ASSET_UUID)),
    )
    .expect("onboarding should succeed");
    assert_eq!(
        vec![
            (D1.to_string(), 300, "nhash".to_string()),
            (D2.to_string(), 100, "nhash".to_string()),
            (V1.to_string(), 600, "nhash".to_string()),
        ],
        payments(&response)
    );
    assert_eq!(4, response.messages.len());
    match &response.messages[0] {
        ContractMessage::AddAttribute { address, name, .. } => {
            assert_eq!(SCOPE_ADDRESS, address);
            assert_eq!("mortgage.asset", name);
        }
        other => panic!("unexpected message: {:?}", other),
    }
    let on_scope = attributes_after(vec![], &response);
    assert_eq!(1, on_scope.len());
    assert_eq!(AssetOnboardingStatus::Pending, on_scope[0].onboarding_status);
    assert_eq!("mortgage", on_scope[0].asset_type);
    assert_eq!(SENDER, on_scope[0].requestor_address);
    assert_eq!(V1, on_scope[0].verifier_address);
    assert_eq!(Some(mortgage_verifier()), on_scope[0].latest_verifier_detail);
    assert_eq!(None, on_scope[0].latest_verification_result);
    assert_eq!(1, on_scope[0].transactions.len());
    assert_eq!(0, on_scope[0].transactions[0].index);
    assert_eq!(None, on_scope[0].transactions[0].result);
    assert_eq!(1, on_scope[0].access_definitions.len());
    assert_eq!(SENDER, on_scope[0].access_definitions[0].owner_address);

    // the verifier turns the asset down
    let response = execute(
        &mut storage,
        &on_scope,
        &info(V1, vec![]),
        ExecuteMsg::VerifyAsset {
            identifier: AssetIdentifier::scope_address(SCOPE_ADDRESS),
            success: false,
            message: Some("the appraisal is missing".to_string()),
            access_routes: None,
        },
    )
    .expect("the verifier's answer should be taken");
    assert!(payments(&response).is_empty());
    let on_scope = attributes_after(on_scope, &response);
    assert_eq!(1, on_scope.len());
    assert_eq!(AssetOnboardingStatus::Denied, on_scope[0].onboarding_status);
    assert_eq!(
        "the appraisal is missing",
        on_scope[0].latest_verification_result.as_ref().unwrap().message
    );

    // the round is over, so the requestor may onboard the asset again
    let response = execute(
        &mut storage,
        &on_scope,
        &info(SENDER, vec![coin(1000, "nhash")]),
        onboard_msg(AssetIdentifier::scope_address(SCOPE_ADDRESS)),
    )
    .expect("a new round should begin");
    assert!(matches!(response.messages[0], ContractMessage::DeleteAttribute { .. }));
    let on_scope = attributes_after(on_scope, &response);
    assert_eq!(1, on_scope.len());
    assert_eq!(AssetOnboardingStatus::Pending, on_scope[0].onboarding_status);
    assert_eq!(None, on_scope[0].latest_verification_result);
    assert_eq!(2, on_scope[0].transactions.len());
    assert_eq!(
        "the appraisal is missing",
        on_scope[0].transactions[0].result.as_ref().unwrap().message
    );
    assert_eq!(1, on_scope[0].transactions[1].index);
    assert_eq!(None, on_scope[0].transactions[1].result);
}

#[test]
fn pending_asset_cannot_be_onboarded_by_either_identifier() {
    let storage = contract_with_mortgage();
    let first = onboard_asset(
        &storage,
        &vec![],
        &info(SENDER, vec![coin(1000, "nhash")]),
        OnboardAssetV1::from_execute_msg(onboard_msg(AssetIdentifier::asset_uuid(ASSET_UUID)))
            .unwrap(),
    )
    .unwrap();
    let on_scope = attributes_after(vec![], &first);
    for identifier in [
        AssetIdentifier::asset_uuid(ASSET_UUID),
        AssetIdentifier::asset_uuid("0C39EFB6-9FEF-11EC-AB21-6BF5C9FB3F83"),
        AssetIdentifier::scope_address(SCOPE_ADDRESS),
    ] {
        let error = onboard_asset(
            &storage,
            &on_scope,
            &info(SENDER, vec![coin(1000, "nhash")]),
            OnboardAssetV1::from_execute_msg(onboard_msg(identifier)).unwrap(),
        )
        .unwrap_err();
        match error {
            ContractError::AssetAlreadyOnboarded { scope_address } => {
                assert_eq!(SCOPE_ADDRESS, scope_address)
            }
            other => panic!("unexpected error: {:?}", other),
        }
    }
}

#[test]
fn approved_asset_can_be_onboarded_again() {
    let storage = contract_with_mortgage();
    let first = onboard_asset(
        &storage,
        &vec![],
        &info(SENDER, vec![coin(1000, "nhash")]),
        OnboardAssetV1::from_execute_msg(onboard_msg(AssetIdentifier::asset_uuid(ASSET_UUID)))
            .unwrap(),
    )
    .unwrap();
    let on_scope = attributes_after(vec![], &first);
    let answer = validate_asset(
        &storage,
        &on_scope,
        &info(V1, vec![]),
        ValidateAssetV1 {
            identifier: AssetIdentifier::asset_uuid(ASSET_UUID),
            success: true,
            message: None,
            access_routes: None,
        },
    )
    .unwrap();
    let on_scope = attributes_after(on_scope, &answer);
    let again = onboard_asset(
        &storage,
        &on_scope,
        &info(SENDER, vec![coin(1000, "nhash")]),
        OnboardAssetV1::from_execute_msg(onboard_msg(AssetIdentifier::asset_uuid(ASSET_UUID)))
            .unwrap(),
    )
    .expect("a finished round allows a new one");
    let on_scope = attributes_after(on_scope, &again);
    assert_eq!(AssetOnboardingStatus::Pending, on_scope[0].onboarding_status);
    assert_eq!(2, on_scope[0].transactions.len());
    assert!(on_scope[0].transactions[0].result.as_ref().unwrap().success);
}

#[test]
fn onboarding_fails_step_by_step() {
    let mut storage = contract_with_mortgage();
    let paid = info(SENDER, vec![coin(1000, "nhash")]);
    let command = |identifier: AssetIdentifier, asset_type: &str, verifier: &str| OnboardAssetV1 {
        identifier,
        asset_type: asset_type.to_string(),
        verifier_address: verifier.to_string(),
        access_routes: vec![],
    };
    let scope = || AssetIdentifier::scope_address(SCOPE_ADDRESS);

    let error =
        onboard_asset(&storage, &vec![], &paid, command(AssetIdentifier::asset_uuid("x"), "mortgage", V1))
            .unwrap_err();
    assert!(matches!(error, ContractError::UuidError(_)), "{:?}", error);

    let error = onboard_asset(&storage, &vec![], &paid, command(scope(), "heloc", V1)).unwrap_err();
    match error {
        ContractError::UnsupportedAssetType { asset_type } => assert_eq!("heloc", asset_type),
        other => panic!("unexpected error: {:?}", other),
    }

    let error = onboard_asset(&storage, &vec![], &paid, command(scope(), "mortgage", D1)).unwrap_err();
    match error {
        ContractError::UnsupportedValidator { validator_address, asset_type } => {
            assert_eq!(D1, validator_address);
            assert_eq!("mortgage", asset_type);
        }
        other => panic!("unexpected error: {:?}", other),
    }

    for funds in [
        vec![],
        vec![coin(999, "nhash")],
        vec![coin(1001, "nhash")],
        vec![coin(1000, "usdf")],
        vec![coin(1000, "nhash"), coin(1, "usdf")],
    ] {
        let error = onboard_asset(&storage, &vec![], &info(SENDER, funds), command(scope(), "mortgage", V1))
            .unwrap_err();
        match error {
            ContractError::InvalidFunds(message) => assert_eq!(
                "improper funds supplied for onboarding: expected exactly 1000nhash",
                message
            ),
            other => panic!("unexpected error: {:?}", other),
        }
    }

    // the type is found in any letter case, and the attribute carries the stored spelling
    let response = onboard_asset(&storage, &vec![], &paid, command(scope(), "MORTGAGE", V1)).unwrap();
    assert_eq!("mortgage", attributes_after(vec![], &response)[0].asset_type);

    execute(
        &mut storage,
        &vec![],
        &info(ADMIN, vec![]),
        ExecuteMsg::ToggleAssetDefinition { asset_type: "mortgage".to_string(), expected_result: true },
    )
    .unwrap();
    let error = onboard_asset(&storage, &vec![], &paid, command(scope(), "mortgage", V1)).unwrap_err();
    match error {
        ContractError::AssetTypeDisabled { asset_type } => assert_eq!("mortgage", asset_type),
        other => panic!("unexpected error: {:?}", other),
    }
}

#[test]
fn snapshot_of_the_verifier_outlives_changes_of_the_definition() {
    let mut storage = contract_with_mortgage();
    let first = onboard_asset(
        &storage,
        &vec![],
        &info(SENDER, vec![coin(1000, "nhash")]),
        OnboardAssetV1::from_execute_msg(onboard_msg(AssetIdentifier::asset_uuid(ASSET_UUID)))
            .unwrap(),
    )
    .unwrap();
    let on_scope = attributes_after(vec![], &first);
    execute(
        &mut storage,
        &vec![],
        &info(ADMIN, vec![]),
        ExecuteMsg::UpdateAssetVerifier {
            asset_type: "mortgage".to_string(),
            verifier: VerifierDetail::new(V1, 5, "nhash", 0, vec![]),
        },
    )
    .unwrap();
    let answer = validate_asset(
        &storage,
        &on_scope,
        &info(V1, vec![]),
        ValidateAssetV1 {
            identifier: AssetIdentifier::asset_uuid(ASSET_UUID),
            success: true,
            message: None,
            access_routes: None,
        },
    )
    .unwrap();
    let on_scope = attributes_after(on_scope, &answer);
    assert_eq!(Some(mortgage_verifier()), on_scope[0].latest_verifier_detail);
}
