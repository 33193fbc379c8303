use asset_classification_smart_contract::contract::instantiate;
use asset_classification_smart_contract::execute::onboard_asset::{onboard_asset, OnboardAssetV1};
use asset_classification_smart_contract::execute::validate_asset::{
    validate_asset, ValidateAssetV1,
};
use asset_classification_smart_contract::model::asset::{AssetScopeAttribute, VerifierDetail};
use asset_classification_smart_contract::model::error::ContractError;
use asset_classification_smart_contract::model::msg::{
    AssetDefinitionInput, ExecuteMsg, InitMsg,
};
use asset_classification_smart_contract::model::state::ContractStorage;
use asset_classification_smart_contract::model::types::access_route::AccessRoute;
use asset_classification_smart_contract::model::types::asset_identifier::AssetIdentifier;
use asset_classification_smart_contract::model::types::asset_onboarding_status::AssetOnboardingStatus;
use asset_classification_smart_contract::model::types::fee_destination::FeeDestination;
use asset_classification_smart_contract::model::types::message_info::{coin, MessageInfo};
use asset_classification_smart_contract::model::types::response::{ContractMessage, Response};

const DEFAULT_ADMIN_ADDRESS: &str = "tp1335hded4gyzpt00fpz75mms4m7ck02wgq0mt3z";
const DEFAULT_SENDER_ADDRESS: &str = "tp1pgm8hyk0pvphmlvfjc8wsvk4daluz5tgpxmkjw";
const DEFAULT_ASSET_TYPE: &str = "test_asset";
const DEFAULT_SCOPE_SPEC_ADDRESS: &str = "scopespec1qs0xkksv59w3rmy20gljdv9sur2sekygfh";
const DEFAULT_VALIDATOR_ADDRESS: &str = "tp13ry74e5wkvqt99c690kfuk3xlaqhnltx2nxf9y";
const DEFAULT_FEE_ADDRESS: &str = "tp1vra8x9tf4lvap4ayjsnrf3mx20kxsua7c63t64";
const DEFAULT_CONTRACT_BASE_NAME: &str = "asset";
const DEFAULT_ASSET_UUID: &str = "0c39efb6-9fef-11ec-ab21-6bf5c9fb3f83";
const DEFAULT_SCOPE_ADDRESS: &str = "scope1qqxrnmaknlh3rm9ty94ltj0m87psnapt5l";
const DEFAULT_ONBOARDING_COST: u128 = 1000;
const DEFAULT_ONBOARDING_DENOM: &str = "nhash";

fn mock_info_with_nhash(sender: &str, amount: u128) -> MessageInfo {
    MessageInfo::new(sender, vec![coin(amount, DEFAULT_ONBOARDING_DENOM)])
}

fn setup_test_suite() -> ContractStorage {
    let msg = InitMsg {
        base_contract_name: DEFAULT_CONTRACT_BASE_NAME.to_string(),
        bind_base_name: true,
        asset_definitions: vec![AssetDefinitionInput::new(
            DEFAULT_ASSET_TYPE,
            DEFAULT_SCOPE_SPEC_ADDRESS,
            vec![VerifierDetail::new(
                DEFAULT_VALIDATOR_ADDRESS,
                DEFAULT_ONBOARDING_COST,
                DEFAULT_ONBOARDING_DENOM,
                100,
                vec![FeeDestination::new(DEFAULT_FEE_ADDRESS, 100)],
            )],
            None,
        )],
        is_test: Some(true),
    };
    let (storage, _) = instantiate(&MessageInfo::new(DEFAULT_ADMIN_ADDRESS, vec![]), msg)
        .expect("expected instantiation to succeed");
    storage
}

// What the ledger shows on the scope once it has done what a response asks for
fn attributes_after(before: Vec<AssetScopeAttribute>, response: &Response) -> Vec<AssetScopeAttribute> {
    let mut attributes = before;
    for message in &response.messages {
        match message {
            ContractMessage::DeleteAttribute { .. } => attributes.clear(),
            ContractMessage::AddAttribute { value, .. } => attributes.push(value.clone()),
            _ => {}
        }
    }
    attributes
}

fn default_onboard_asset() -> OnboardAssetV1 {
    OnboardAssetV1 {
        identifier: AssetIdentifier::scope_address(DEFAULT_SCOPE_ADDRESS),
        asset_type: DEFAULT_ASSET_TYPE.to_string(),
        verifier_address: DEFAULT_VALIDATOR_ADDRESS.to_string(),
        access_routes: vec![],
    }
}

fn test_onboard_asset(deps: &ContractStorage) -> Vec<AssetScopeAttribute> {
    let response = onboard_asset(
        deps,
        &vec![],
        &mock_info_with_nhash(DEFAULT_SENDER_ADDRESS, DEFAULT_ONBOARDING_COST),
        default_onboard_asset(),
    )
    .expect("expected onboard_asset call to succeed");
    attributes_after(vec![], &response)
}

#[test]
fn test_validate_asset_not_found_error() {
    let deps = setup_test_suite();

    let err = validate_asset(
        &deps,
        &vec![],
        &mock_info_with_nhash(DEFAULT_VALIDATOR_ADDRESS, DEFAULT_ONBOARDING_COST),
        ValidateAssetV1 {
            identifier: AssetIdentifier::scope_address(DEFAULT_SCOPE_ADDRESS),
            success: true,
            message: None,
            access_routes: None,
        },
    )
    .unwrap_err();

    match err {
        ContractError::NotFound { explanation } => {
            assert_eq!(
                format!(
                    "scope at address [{}] did not include an asset scope attribute",
                    DEFAULT_SCOPE_ADDRESS
                ),
                explanation,
                "the asset not found message should reflect that the asset was not found"
            );
        }
        _ => panic!(
            "unexpected error when non-onboarded asset provided: {:?}",
            err
        ),
    }
}

#[test]
fn test_validate_asset_wrong_validator_error() {
    let deps = setup_test_suite();

    let on_scope = test_onboard_asset(&deps);

    let info = mock_info_with_nhash(
        "tp129z88fpzthllrdzktw98cck3ypd34wv77nqfyl",
        DEFAULT_ONBOARDING_COST,
    );
    let err = validate_asset(
        &deps,
        &on_scope,
        &info.clone(),
        ValidateAssetV1 {
            identifier: AssetIdentifier::scope_address(DEFAULT_SCOPE_ADDRESS),
            success: true,
            message: None,
            access_routes: None,
        },
    )
    .unwrap_err();

    match err {
        ContractError::UnathorizedAssetValidator {
            scope_address,
            validator_address,
            expected_validator_address,
        } => {
            assert_eq!(
                DEFAULT_SCOPE_ADDRESS, scope_address,
                "the unauthorized validator message should reflect the scope address"
            );
            assert_eq!(
                info.sender.to_string(), validator_address,
                "the unauthorized validator message should reflect the provided (sender) validator address"
            );
            assert_eq!(
                DEFAULT_VALIDATOR_ADDRESS, expected_validator_address,
                "the unauthorized validator message should reflect the expected validator address (from onboarding)"
            );
        }
        _ => panic!(
            "unexpected error when unauthorized validator submits validation: {:?}",
            err
        ),
    }
}

#[test]
fn test_validate_asset_adds_error_message_on_negative_validation() {
    let deps = setup_test_suite();
    let on_scope = test_onboard_asset(&deps);

    let info = mock_info_with_nhash(DEFAULT_VALIDATOR_ADDRESS, DEFAULT_ONBOARDING_COST);

    let result = validate_asset(
        &deps,
        &on_scope,
        &info.clone(),
        ValidateAssetV1 {
            identifier: AssetIdentifier::scope_address(DEFAULT_SCOPE_ADDRESS),
            success: true,
            message: Some("Your data sucks".to_string()),
            access_routes: None,
        },
    )
    .unwrap();

    assert_eq!(
        2,
        result.messages.len(),
        "validate asset should produce two messages (attribute delete/update combo)"
    );
}

#[test]
fn answer_is_recorded_on_the_attribute() {
    let deps = setup_test_suite();
    let on_scope = test_onboard_asset(&deps);
    let info = MessageInfo::new(DEFAULT_VALIDATOR_ADDRESS, vec![]);
    let response = validate_asset(
        &deps,
        &on_scope,
        &info,
        ValidateAssetV1 {
            identifier: AssetIdentifier::asset_uuid(DEFAULT_ASSET_UUID),
            success: false,
            message: Some("Your data sucks".to_string()),
            access_routes: Some(vec![AccessRoute::new("grpc://verifier", Some("copy"))]),
        },
    )
    .unwrap();
    match &response.messages[0] {
        ContractMessage::DeleteAttribute { address, name } => {
            assert_eq!(DEFAULT_SCOPE_ADDRESS, address);
            assert_eq!("test_asset.asset", name);
        }
        other => panic!("unexpected message: {:?}", other),
    }
    let after = attributes_after(on_scope, &response);
    assert_eq!(1, after.len());
    let attribute = &after[0];
    assert_eq!(AssetOnboardingStatus::Denied, attribute.onboarding_status);
    let result = attribute.latest_verification_result.as_ref().unwrap();
    assert_eq!("Your data sucks", result.message);
    assert!(!result.success);
    assert_eq!(1, attribute.transactions.len());
    assert_eq!(Some(result), attribute.transactions[0].result.as_ref());
    assert_eq!(1, attribute.access_definitions.len());
    assert_eq!(DEFAULT_VALIDATOR_ADDRESS, attribute.access_definitions[0].owner_address);
    assert_eq!(
        vec![AccessRoute::new("grpc://verifier", Some("copy"))],
        attribute.access_definitions[0].access_routes
    );
    assert_eq!(
        vec![
            ("asset_event_type", "validate_asset"),
            ("asset_type", DEFAULT_ASSET_TYPE),
            ("asset_scope_address", DEFAULT_SCOPE_ADDRESS),
            ("asset_verifier_address", DEFAULT_VALIDATOR_ADDRESS),
        ],
        response
            .attributes
            .iter()
            .map(|a| (a.key.as_str(), a.value.as_str()))
            .collect::<Vec<_>>()
    );
}

#[test]
fn answer_without_message_gets_the_words_that_stand_for_it() {
    let deps = setup_test_suite();
    let on_scope = test_onboard_asset(&deps);
    let info = MessageInfo::new(DEFAULT_VALIDATOR_ADDRESS, vec![]);
    for (success, expected, status) in [
        (true, "verification successful", AssetOnboardingStatus::Approved),
        (false, "verification failure", AssetOnboardingStatus::Denied),
    ] {
        let response = validate_asset(
            &deps,
            &on_scope,
            &info,
            ValidateAssetV1 {
                identifier: AssetIdentifier::scope_address(DEFAULT_SCOPE_ADDRESS),
                success,
                message: None,
                access_routes: None,
            },
        )
        .unwrap();
        let after = attributes_after(on_scope.clone(), &response);
        assert_eq!(status, after[0].onboarding_status);
        assert_eq!(expected, after[0].latest_verification_result.as_ref().unwrap().message);
        assert!(after[0].access_definitions.is_empty());
    }
}

#[test]
fn second_answer_fails_and_writes_nothing() {
    let deps = setup_test_suite();
    let on_scope = test_onboard_asset(&deps);
    let info = MessageInfo::new(DEFAULT_VALIDATOR_ADDRESS, vec![]);
    let first = validate_asset(
        &deps,
        &on_scope,
        &info,
        ValidateAssetV1 {
            identifier: AssetIdentifier::scope_address(DEFAULT_SCOPE_ADDRESS),
            success: true,
            message: None,
            access_routes: None,
        },
    )
    .unwrap();
    let after = attributes_after(on_scope, &first);
    assert_eq!(AssetOnboardingStatus::Approved, after[0].onboarding_status);
    for success in [true, false] {
        for identifier in [
            AssetIdentifier::scope_address(DEFAULT_SCOPE_ADDRESS),
            AssetIdentifier::asset_uuid(DEFAULT_ASSET_UUID),
        ] {
            let error = validate_asset(
                &deps,
                &after,
                &info,
                ValidateAssetV1 {
                    identifier,
                    success,
                    message: Some("again".to_string()),
                    access_routes: None,
                },
            )
            .unwrap_err();
            match error {
                ContractError::AssetAlreadyValidated { scope_address, status } => {
                    assert_eq!(DEFAULT_SCOPE_ADDRESS, scope_address);
                    assert_eq!(AssetOnboardingStatus::Approved, status);
                }
                other => panic!("unexpected error: {:?}", other),
            }
        }
    }
    // someone else fails too, for being someone else
    let error = validate_asset(
        &deps,
        &after,
        &MessageInfo::new(DEFAULT_SENDER_ADDRESS, vec![]),
        ValidateAssetV1 {
            identifier: AssetIdentifier::scope_address(DEFAULT_SCOPE_ADDRESS),
            success: false,
            message: None,
            access_routes: None,
        },
    )
    .unwrap_err();
    assert!(matches!(error, ContractError::UnathorizedAssetValidator { .. }));
}

#[test]
fn scope_with_two_attributes_is_damaged() {
    let deps = setup_test_suite();
    let mut on_scope = test_onboard_asset(&deps);
    on_scope.push(on_scope[0].clone());
    let error = validate_asset(
        &deps,
        &on_scope,
        &MessageInfo::new(DEFAULT_VALIDATOR_ADDRESS, vec![]),
        ValidateAssetV1 {
            identifier: AssetIdentifier::scope_address(DEFAULT_SCOPE_ADDRESS),
            success: true,
            message: None,
            access_routes: None,
        },
    )
    .unwrap_err();
    match error {
        ContractError::InvalidScopeAttribute { scope_address, attribute_amount } => {
            assert_eq!(DEFAULT_SCOPE_ADDRESS, scope_address);
            assert_eq!(2, attribute_amount);
        }
        other => panic!("unexpected error: {:?}", other),
    }
}

#[test]
fn answer_on_a_malformed_identifier_fails_before_anything_else() {
    let deps = setup_test_suite();
    let error = validate_asset(
        &deps,
        &vec![],
        &MessageInfo::new(DEFAULT_VALIDATOR_ADDRESS, vec![]),
        ValidateAssetV1 {
            identifier: AssetIdentifier::asset_uuid("nope"),
            success: true,
            message: None,
            access_routes: None,
        },
    )
    .unwrap_err();
    assert!(matches!(error, ContractError::UuidError(_)));
}

#[test]
fn validate_asset_from_execute_msg_takes_only_its_own_kind() {
    let command = ValidateAssetV1::from_execute_msg(ExecuteMsg::VerifyAsset {
        identifier: AssetIdentifier::scope_address(DEFAULT_SCOPE_ADDRESS),
        success: true,
        message: Some("fine".to_string()),
        access_routes: None,
    })
    .unwrap();
    assert_eq!(
        ValidateAssetV1 {
            identifier: AssetIdentifier::scope_address(DEFAULT_SCOPE_ADDRESS),
            success: true,
            message: Some("fine".to_string()),
            access_routes: None,
        },
        command
    );
    let error = ValidateAssetV1::from_execute_msg(ExecuteMsg::BindContractAlias {
        alias_name: "alias".to_string(),
    })
    .unwrap_err();
    match error {
        ContractError::InvalidMessageType { expected_message_type } => {
            assert_eq!("ExecuteMsg::ValidateAsset", expected_message_type)
        }
        other => panic!("unexpected error: {:?}", other),
    }
}
