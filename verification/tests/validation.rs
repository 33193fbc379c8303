use asset_classification_smart_contract::model::asset::{AssetDefinition, VerifierDetail};
use asset_classification_smart_contract::model::error::ContractError;
use asset_classification_smart_contract::model::msg::{AssetDefinitionInput, InitMsg};
use asset_classification_smart_contract::model::types::fee_destination::FeeDestination;
use asset_classification_smart_contract::validation::validate_init_msg::{
    check_definition_addresses, check_verifier_addresses, definition_field_errors,
    validate_asset_definition, validate_asset_definition_internal, validate_init_msg,
    validate_verifier, validate_verifier_internal, validate_verifier_with_provided_errors,
    verifier_field_errors, DefinitionChecks, VerifierChecks,
};

const SCOPE_SPEC: &str = "scopespec1qs0xkksv59w3rmy20gljdv9sur2sekygfh";
const VERIFIER: &str = "tp13ry74e5wkvqt99c690kfuk3xlaqhnltx2nxf9y";
const FEE_1: &str = "tp1vra8x9tf4lvap4ayjsnrf3mx20kxsua7c63t64";
const FEE_2: &str = "tp15x5pkpz3dpw9txaugylpg4gyelxttuf4ev0565";

fn valid_verifier() -> VerifierDetail {
    VerifierDetail::new(
        VERIFIER,
        1000,
        "nhash",
        400,
        vec![FeeDestination::new(FEE_1, 300), FeeDestination::new(FEE_2, 100)],
    )
}

fn fields(result: Result<(), ContractError>) -> (String, Vec<String>) {
    match result {
        Err(ContractError::InvalidMessageFields { message_type, invalid_fields }) => {
            (message_type, invalid_fields)
        }
        other => panic!("expected invalid message fields, but got {:?}", other),
    }
}

#[test]
fn valid_verifier_passes() {
    assert!(validate_verifier_internal(&valid_verifier()).is_empty());
    validate_verifier(&valid_verifier()).expect("nothing is wrong with the verifier");
    // no fee and no destinations
    validate_verifier(&VerifierDetail::new(VERIFIER, 0, "nhash", 0, vec![]))
        .expect("a verifier that works for nothing is valid");
    // the whole cost as fee
    validate_verifier(&VerifierDetail::new(
        VERIFIER,
        10,
        "nhash",
        10,
        vec![FeeDestination::new(FEE_1, 10)],
    ))
    .expect("the fee may be the whole cost");
}

#[test]
fn verifier_address_must_not_be_blank() {
    let verifier = VerifierDetail::new("", 1000, "nhash", 0, vec![]);
    assert_eq!(
        vec!["verifier:address: must not be blank".to_string()],
        validate_verifier_internal(&verifier)
    );
}

#[test]
fn verifier_address_must_be_bech32() {
    let verifier = VerifierDetail::new("V1", 1000, "nhash", 0, vec![]);
    assert_eq!(
        vec!["verifier:address: must be a valid address".to_string()],
        validate_verifier_internal(&verifier)
    );
}

#[test]
fn fee_must_not_exceed_cost() {
    let verifier =
        VerifierDetail::new(VERIFIER, 100, "nhash", 101, vec![FeeDestination::new(FEE_1, 101)]);
    assert_eq!(
        vec!["verifier:fee_amount: must not be greater than the onboarding cost".to_string()],
        validate_verifier_internal(&verifier)
    );
}

#[test]
fn destinations_must_sum_to_the_fee() {
    for (fee, amounts) in [
        (400u128, vec![300u128, 99]),
        (400, vec![300, 101]),
        (1, vec![]),
        (0, vec![1]),
        (400, vec![u128::MAX, 401]),
    ] {
        let destinations = amounts
            .iter()
            .zip([FEE_1, FEE_2])
            .map(|(amount, address)| FeeDestination::new(address, *amount))
            .collect();
        let verifier = VerifierDetail::new(VERIFIER, 1000, "nhash", fee, destinations);
        assert_eq!(
            vec![
                "verifier:fee_destinations: the fee amounts of the destinations must sum to the fee amount"
                    .to_string()
            ],
            validate_verifier_internal(&verifier),
            "fee {} amounts {:?}",
            fee,
            amounts
        );
    }
}

#[test]
fn destinations_must_have_distinct_valid_addresses() {
    let verifier = VerifierDetail::new(
        VERIFIER,
        1000,
        "nhash",
        4,
        vec![
            FeeDestination::new(FEE_1, 1),
            FeeDestination::new("", 1),
            FeeDestination::new(FEE_1, 1),
            FeeDestination::new("D2", 1),
        ],
    );
    assert_eq!(
        vec![
            "verifier:fee_destinations: all fee destinations within a verifier must have unique addresses"
                .to_string(),
            "fee_destination:address: must not be blank".to_string(),
            "fee_destination:address: must be a valid address".to_string(),
        ],
        validate_verifier_internal(&verifier)
    );
}

#[test]
fn provided_errors_come_first() {
    let verifier = VerifierDetail::new("", 1000, "nhash", 0, vec![]);
    let (message_type, invalid_fields) = fields(validate_verifier_with_provided_errors(
        &verifier,
        Some(vec!["first".to_string()]),
    ));
    assert_eq!("VerifierDetail", message_type);
    assert_eq!(
        vec!["first".to_string(), "verifier:address: must not be blank".to_string()],
        invalid_fields
    );
    let (_, invalid_fields) = fields(validate_verifier_with_provided_errors(
        &valid_verifier(),
        Some(vec!["only".to_string()]),
    ));
    assert_eq!(vec!["only".to_string()], invalid_fields);
    validate_verifier_with_provided_errors(&valid_verifier(), None).expect("nothing is wrong");
    validate_verifier_with_provided_errors(&valid_verifier(), Some(vec![]))
        .expect("nothing is wrong");
}

#[test]
fn valid_definition_passes() {
    let definition = AssetDefinition::new("mortgage", SCOPE_SPEC, vec![valid_verifier()]);
    assert!(validate_asset_definition_internal(&definition).is_empty());
    validate_asset_definition(&definition).expect("nothing is wrong with the definition");
}

#[test]
fn everything_wrong_with_a_definition_is_reported_at_once() {
    let definition = AssetDefinition::new(
        "",
        "spec1",
        vec![
            VerifierDetail::new(VERIFIER, 10, "nhash", 20, vec![FeeDestination::new(FEE_1, 20)]),
            VerifierDetail::new(VERIFIER, 10, "nhash", 0, vec![]),
            VerifierDetail::new("", 10, "nhash", 0, vec![]),
        ],
    );
    let (message_type, invalid_fields) = fields(validate_asset_definition(&definition));
    assert_eq!("AssetDefinition", message_type);
    assert_eq!(
        vec![
            "asset_definition:asset_type: must not be blank".to_string(),
            "asset_definition:scope_spec_address: must be a valid address".to_string(),
            "asset_definition:verifiers: all verifiers within an asset definition must have unique addresses"
                .to_string(),
            "verifier:fee_amount: must not be greater than the onboarding cost".to_string(),
            "verifier:address: must not be blank".to_string(),
        ],
        invalid_fields
    );
}

#[test]
fn definition_needs_a_scope_spec_and_a_verifier() {
    let definition = AssetDefinition::new("mortgage", "", vec![]);
    assert_eq!(
        vec![
            "asset_definition:scope_spec_address: must not be blank".to_string(),
            "asset_definition:verifiers: at least one verifier must be supplied per asset type"
                .to_string(),
        ],
        validate_asset_definition_internal(&definition)
    );
}

#[test]
fn field_errors_go_by_the_checks_they_are_given() {
    // a verifier with unusable addresses, taken for valid and for invalid
    let verifier = VerifierDetail::new("V1", 10, "nhash", 1, vec![FeeDestination::new("D1", 1)]);
    let all_passed = VerifierChecks { address_valid: true, destinations_valid: vec![true] };
    assert!(verifier_field_errors(&verifier, &all_passed).is_empty());
    let none_passed = VerifierChecks { address_valid: false, destinations_valid: vec![false] };
    assert_eq!(
        vec![
            "verifier:address: must be a valid address".to_string(),
            "fee_destination:address: must be a valid address".to_string(),
        ],
        verifier_field_errors(&verifier, &none_passed)
    );
    // a check that is missing counts as failed
    let missing = VerifierChecks { address_valid: true, destinations_valid: vec![] };
    assert_eq!(
        vec!["fee_destination:address: must be a valid address".to_string()],
        verifier_field_errors(&verifier, &missing)
    );

    let definition = AssetDefinition::new("mortgage", "spec1", vec![verifier]);
    let passed = DefinitionChecks { scope_spec_valid: true, verifiers: vec![all_passed] };
    assert!(definition_field_errors(&definition, &passed).is_empty());
    let unchecked = DefinitionChecks { scope_spec_valid: false, verifiers: vec![] };
    assert_eq!(
        vec![
            "asset_definition:scope_spec_address: must be a valid address".to_string(),
            "verifier:address: must be a valid address".to_string(),
            "fee_destination:address: must be a valid address".to_string(),
        ],
        definition_field_errors(&definition, &unchecked)
    );
}

#[test]
fn addresses_are_checked_against_bech32() {
    let verifier = VerifierDetail::new(
        VERIFIER,
        10,
        "nhash",
        2,
        vec![FeeDestination::new("D1", 1), FeeDestination::new(FEE_1, 1)],
    );
    let checks = check_verifier_addresses(&verifier);
    assert!(checks.address_valid);
    assert_eq!(vec![false, true], checks.destinations_valid);
    let definition = AssetDefinition::new("mortgage", "spec1", vec![verifier]);
    let checks = check_definition_addresses(&definition);
    assert!(!checks.scope_spec_valid);
    assert_eq!(1, checks.verifiers.len());
    assert!(checks.verifiers[0].address_valid);
}

#[test]
fn init_msg_is_checked_as_a_whole() {
    let msg = InitMsg {
        base_contract_name: String::new(),
        bind_base_name: false,
        asset_definitions: vec![
            AssetDefinitionInput::new("mortgage", SCOPE_SPEC, vec![valid_verifier()], None),
            AssetDefinitionInput::new("heloc", SCOPE_SPEC, vec![], Some(false)),
        ],
        is_test: None,
    };
    let (message_type, invalid_fields) = fields(validate_init_msg(&msg));
    assert_eq!("Instantiate", message_type);
    assert_eq!(
        vec![
            "base_contract_name: must not be blank".to_string(),
            "asset_definition:verifiers: at least one verifier must be supplied per asset type"
                .to_string(),
        ],
        invalid_fields
    );
    let msg = InitMsg {
        base_contract_name: "asset".to_string(),
        bind_base_name: false,
        asset_definitions: vec![],
        is_test: None,
    };
    validate_init_msg(&msg).expect("a contract may start without definitions");
}
