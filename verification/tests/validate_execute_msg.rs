use asset_classification_smart_contract::model::asset::VerifierDetail;
use asset_classification_smart_contract::model::error::ContractError;
use asset_classification_smart_contract::model::msg::ExecuteMsg;
use asset_classification_smart_contract::model::types::asset_identifier::AssetIdentifier;
use asset_classification_smart_contract::model::types::asset_qualifier::AssetQualifier;
use asset_classification_smart_contract::util::aliases::AssetResult;
use asset_classification_smart_contract::validation::validate_execute_msg::{
    validate_asset_validator_msg, validate_execute_msg, validate_onboard_asset,
    validate_toggle_asset_definition, validate_validate_asset,
};

#[test]
fn test_validate_onboard_asset_success_for_asset_uuid() {
    validate_onboard_asset(
        &AssetIdentifier::asset_uuid("asset_uuid"),
        "asset_type",
        "validator_address",
    )
    .expect("expected validation to pass when all arguments are properly supplied");
}

#[test]
fn test_validate_onboard_asset_success_for_scope_address() {
    validate_onboard_asset(
        &AssetIdentifier::scope_address("scope_address"),
        "asset_type",
        "validator_address",
    )
    .expect("expected validation to pass when all arguments are properly supplied");
}

#[test]
fn test_validate_onboard_asset_invalid_asset_type() {
    let result = validate_onboard_asset(
        &AssetIdentifier::asset_uuid("asset_uuid"),
        "",
        "validator_address",
    );
    test_invalid_message_fields(result, |message_type, invalid_fields| {
        assert_eq!(
            "ExecuteMsg::OnboardAsset",
            message_type.as_str(),
            "incorrect message type for error"
        );
        assert_eq!(
            1,
            invalid_fields.len(),
            "expected only a single invalid field to be found"
        );
        assert_eq!(
            "asset_type: must not be blank",
            invalid_fields.first().unwrap().as_str(),
            "expected the appropriate error message to be returned",
        );
    });
}

#[test]
fn test_validate_onboard_asset_invalid_validator_address() {
    let result =
        validate_onboard_asset(&AssetIdentifier::asset_uuid("asset_uuid"), "asset_type", "");
    test_invalid_message_fields(result, |message_type, invalid_fields| {
        assert_eq!(
            "ExecuteMsg::OnboardAsset",
            message_type.as_str(),
            "incorrect message type for error"
        );
        assert_eq!(
            1,
            invalid_fields.len(),
            "expected only a single invalid field to be found"
        );
        assert_eq!(
            "validator_address: must not be blank",
            invalid_fields.first().unwrap().as_str(),
            "expected the appropriate error message to be returned",
        );
    });
}

#[test]
fn test_validate_validate_asset_success_for_asset_uuid() {
    validate_validate_asset(&AssetIdentifier::asset_uuid(
        "4b9601f4-a0ad-11ec-b214-2f7b0096dea6",
    ))
    .expect("expected the validation to pass when all fields are correctly supplied");
}

#[test]
fn test_validate_validate_asset_success_for_scope_address() {
    validate_validate_asset(&AssetIdentifier::scope_address(
        "scope1qps4rfeu5zk3rm9r2gp36dl9r3tq6rpyqd",
    ))
    .expect("expected the validation to pass when all fields are correctly supplied");
}

#[test]
fn test_validate_validate_asset_invalid_asset_uuid() {
    let result = validate_validate_asset(&AssetIdentifier::asset_uuid(""));
    test_invalid_message_fields(result, |message_type, invalid_fields| {
        assert_eq!(
            "ExecuteMsg::ValidateAsset",
            message_type.as_str(),
            "incorrect message type for error",
        );
        assert_eq!(
            1,
            invalid_fields.len(),
            "expected only a single invalid field to be found",
        );
        assert_eq!(
            "identifier:asset_uuid: must not be blank",
            invalid_fields.first().unwrap().as_str(),
            "expected the appropriate error message to be returned",
        );
    });
}

#[test]
fn test_validate_validate_asset_invalid_scope_address() {
    let result = validate_validate_asset(&AssetIdentifier::scope_address(""));
    test_invalid_message_fields(result, |message_type, invalid_fields| {
        assert_eq!(
            "ExecuteMsg::ValidateAsset",
            message_type.as_str(),
            "incorrect message type for error",
        );
        assert_eq!(
            1,
            invalid_fields.len(),
            "expected only a single invalid field to be found",
        );
        assert_eq!(
            "identifier:scope_address: must not be blank",
            invalid_fields.first().unwrap().as_str(),
            "expected the appropriate error message to be returned",
        );
    });
}

#[test]
fn test_validate_toggle_asset_definition_success() {
    validate_toggle_asset_definition("asset_type")
        .expect("expected the validation to pass when all fields are correctly supplied");
}

#[test]
fn test_validate_toggle_asset_definition_invalid_asset_type() {
    let result = validate_toggle_asset_definition("");
    test_invalid_message_fields(result, |message_type, invalid_fields| {
        assert_eq!(
            "ExecuteMsg::ToggleAssetDefinition",
            message_type.as_str(),
            "incorrect message type for error"
        );
        assert_eq!(
            1,
            invalid_fields.len(),
            "expected only a single invalid field to be found"
        );
        assert_eq!(
            "asset_type: must not be blank",
            invalid_fields.first().unwrap().as_str(),
            "expected the appropriate error message to be returned"
        );
    });
}

#[test]
fn onboard_asset_reports_every_blank_field_in_order() {
    let result = validate_onboard_asset(&AssetIdentifier::scope_address(""), "", "");
    test_invalid_message_fields(result, |message_type, invalid_fields| {
        assert_eq!("ExecuteMsg::OnboardAsset", message_type);
        assert_eq!(
            vec![
                "identifier:scope_address: must not be blank".to_string(),
                "asset_type: must not be blank".to_string(),
                "validator_address: must not be blank".to_string(),
            ],
            invalid_fields
        );
    });
}

#[test]
fn verifier_message_reports_the_blank_type_first() {
    let verifier = VerifierDetail::new("", 10, "nhash", 20, vec![]);
    let result = validate_asset_validator_msg("", &verifier);
    test_invalid_message_fields(result, |message_type, invalid_fields| {
        assert_eq!("VerifierDetail", message_type);
        assert_eq!(
            vec![
                "asset_type must not be empty".to_string(),
                "verifier:address: must not be blank".to_string(),
                "verifier:fee_amount: must not be greater than the onboarding cost".to_string(),
                "verifier:fee_destinations: the fee amounts of the destinations must sum to the fee amount"
                    .to_string(),
            ],
            invalid_fields
        );
    });
}

#[test]
fn every_kind_of_message_is_checked() {
    let blank_identifier = AssetIdentifier::asset_uuid("");
    let cases: Vec<(ExecuteMsg, &str, &str)> = vec![
        (
            ExecuteMsg::VerifyAsset {
                identifier: AssetIdentifier::asset_uuid(""),
                success: true,
                message: None,
                access_routes: None,
            },
            "ExecuteMsg::ValidateAsset",
            "identifier:asset_uuid: must not be blank",
        ),
        (
            ExecuteMsg::ToggleAssetDefinition { asset_type: String::new(), expected_result: true },
            "ExecuteMsg::ToggleAssetDefinition",
            "asset_type: must not be blank",
        ),
        (
            ExecuteMsg::UpdateAccessRoutes {
                identifier: AssetIdentifier::scope_address("scope"),
                owner_address: String::new(),
                access_routes: vec![],
            },
            "ExecuteMsg::UpdateAccessRoutes",
            "owner_address: must not be blank",
        ),
        (
            ExecuteMsg::BindContractAlias { alias_name: String::new() },
            "ExecuteMsg::BindContractAlias",
            "alias_name: must not be blank",
        ),
        (
            ExecuteMsg::DeleteAssetDefinition { qualifier: AssetQualifier::asset_type("") },
            "ExecuteMsg::DeleteAssetDefinition",
            "qualifier:asset_type: must not be blank",
        ),
        (
            ExecuteMsg::DeleteAssetDefinition {
                qualifier: AssetQualifier::scope_spec_address(""),
            },
            "ExecuteMsg::DeleteAssetDefinition",
            "qualifier:scope_spec_address: must not be blank",
        ),
        (
            ExecuteMsg::OnboardAsset {
                identifier: blank_identifier,
                asset_type: "heloc".to_string(),
                verifier_address: "verifier".to_string(),
                access_routes: None,
            },
            "ExecuteMsg::OnboardAsset",
            "identifier:asset_uuid: must not be blank",
        ),
    ];
    for (msg, expected_type, expected_field) in cases {
        test_invalid_message_fields(validate_execute_msg(&msg), |message_type, invalid_fields| {
            assert_eq!(expected_type, message_type);
            assert_eq!(vec![expected_field.to_string()], invalid_fields);
        });
    }
    validate_execute_msg(&ExecuteMsg::BindContractAlias { alias_name: "alias".to_string() })
        .expect("a named alias should pass");
}

// Extracts the InvalidMessageFunds error data from a response from one of the functions
// in this file, allowing a unit test to target the relevant information without as much
// boilerplate nonsense.
fn test_invalid_message_fields<F>(result: AssetResult<()>, test_func: F)
where
    F: Fn(String, Vec<String>) -> (),
{
    match result {
        Ok(_) => panic!("expected the result to be an error"),
        Err(e) => match e {
            ContractError::InvalidMessageFields {
                message_type,
                invalid_fields,
            } => test_func(message_type, invalid_fields),
            _ => panic!("unexpected error type encountered: {:?}", e),
        },
    }
}
