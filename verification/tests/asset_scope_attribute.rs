use asset_classification_smart_contract::execute::update_access_routes::{
    update_access_routes, UpdateAccessRoutesV1,
};
use asset_classification_smart_contract::model::asset::{AssetScopeAttribute, VerifierDetail};
use asset_classification_smart_contract::model::error::ContractError;
use asset_classification_smart_contract::model::state::{ContractStorage, State};
use asset_classification_smart_contract::model::types::access_route::{
    replace_access_routes, AccessDefinition, AccessRoute,
};
use asset_classification_smart_contract::model::types::asset_identifier::AssetIdentifier;
use asset_classification_smart_contract::model::types::asset_onboarding_status::AssetOnboardingStatus;
use asset_classification_smart_contract::model::types::message_info::MessageInfo;
use asset_classification_smart_contract::model::types::response::ContractMessage;
use asset_classification_smart_contract::query::query_asset_scope_attribute::query_asset_scope_attribute;
use cosmwasm_std::StdError;

const ADMIN: &str = "tp1335hded4gyzpt00fpz75mms4m7ck02wgq0mt3z";
const SENDER: &str = "tp1pgm8hyk0pvphmlvfjc8wsvk4daluz5tgpxmkjw";
const VERIFIER: &str = "tp13ry74e5wkvqt99c690kfuk3xlaqhnltx2nxf9y";
const OTHER: &str = "tp1my5c5yx3kpe4sd7uf0v9mtryrv8neme8dhq864";
const ASSET_UUID: &str = "0c39efb6-9fef-11ec-ab21-6bf5c9fb3f83";
const SCOPE_ADDRESS: &str = "scope1qqxrnmaknlh3rm9ty94ltj0m87psnapt5l";

fn sample_verifier() -> VerifierDetail {
    VerifierDetail::new(VERIFIER, 100, "nhash", 0, vec![])
}

fn storage() -> ContractStorage {
    ContractStorage { state: State::new("asset", ADMIN, false), asset_definitions: vec![] }
}

fn attribute() -> AssetScopeAttribute {
    AssetScopeAttribute::new("mortgage", SENDER, VERIFIER, None, sample_verifier()).unwrap()
}

#[test]
fn new_attribute_is_pending_in_its_first_round() {
    let attribute = attribute();
    assert_eq!("mortgage", attribute.asset_type);
    assert_eq!(SENDER, attribute.requestor_address);
    assert_eq!(VERIFIER, attribute.verifier_address);
    assert_eq!(AssetOnboardingStatus::Pending, attribute.onboarding_status);
    assert_eq!(Some(sample_verifier()), attribute.latest_verifier_detail);
    assert_eq!(None, attribute.latest_verification_result);
    assert!(attribute.access_definitions.is_empty());
    assert_eq!(1, attribute.transactions.len());
    assert_eq!(0, attribute.transactions[0].index);
    assert_eq!(VERIFIER, attribute.transactions[0].verifier_address);
    let approved = AssetScopeAttribute::new(
        "mortgage",
        SENDER,
        VERIFIER,
        Some(AssetOnboardingStatus::Approved),
        sample_verifier(),
    )
    .unwrap();
    assert_eq!(AssetOnboardingStatus::Approved, approved.onboarding_status);
    assert_eq!(
        attribute,
        AssetScopeAttribute::new_unchecked("mortgage", SENDER, VERIFIER, None, sample_verifier())
    );
}

#[test]
fn new_attribute_needs_valid_addresses_that_agree() {
    let error = AssetScopeAttribute::new("mortgage", "requestor", VERIFIER, None, sample_verifier())
        .unwrap_err();
    assert!(matches!(error, ContractError::Bech32Error(_)));
    let error =
        AssetScopeAttribute::new("mortgage", SENDER, "verifier", None, sample_verifier()).unwrap_err();
    assert!(matches!(error, ContractError::Bech32Error(_)));
    let error = AssetScopeAttribute::new("mortgage", SENDER, OTHER, None, sample_verifier()).unwrap_err();
    match error {
        ContractError::Std(StdError::GenericErr { msg, .. }) => assert_eq!(
            format!(
                "provided validator address [{}] did not match the validator detail's address [{}]",
                OTHER, VERIFIER
            ),
            msg
        ),
        other => panic!("unexpected error: {:?}", other),
    }
}

#[test]
fn routes_of_an_owner_are_replaced_as_a_whole() {
    let definitions = vec![
        AccessDefinition::new(SENDER, vec![AccessRoute::new("a", None)]),
        AccessDefinition::new(VERIFIER, vec![AccessRoute::new("b", Some("copy"))]),
        AccessDefinition::new(SENDER, vec![AccessRoute::new("c", None)]),
    ];
    let replaced = replace_access_routes(&definitions, SENDER, vec![AccessRoute::new("d", None)]);
    assert_eq!(
        vec![
            AccessDefinition::new(VERIFIER, vec![AccessRoute::new("b", Some("copy"))]),
            AccessDefinition::new(SENDER, vec![AccessRoute::new("d", None)]),
        ],
        replaced
    );
    let added = replace_access_routes(&vec![], OTHER, vec![]);
    assert_eq!(vec![AccessDefinition::new(OTHER, vec![])], added);
}

#[test]
fn owner_and_admin_may_update_access_routes() {
    let on_scope = vec![attribute()];
    for sender in [ADMIN, SENDER] {
        let response = update_access_routes(
            &storage(),
            &on_scope,
            &MessageInfo::new(sender, vec![]),
            UpdateAccessRoutesV1 {
                identifier: AssetIdentifier::asset_uuid(ASSET_UUID),
                owner_address: SENDER.to_string(),
                access_routes: vec![AccessRoute::new("https://data", Some("main"))],
            },
        )
        .unwrap();
        assert_eq!(2, response.messages.len());
        assert_eq!(
            ContractMessage::DeleteAttribute {
                address: SCOPE_ADDRESS.to_string(),
                name: "mortgage.asset".to_string(),
            },
            response.messages[0]
        );
        match &response.messages[1] {
            ContractMessage::AddAttribute { address, name, value } => {
                assert_eq!(SCOPE_ADDRESS, address);
                assert_eq!("mortgage.asset", name);
                assert_eq!(
                    vec![AccessDefinition::new(
                        SENDER,
                        vec![AccessRoute::new("https://data", Some("main"))]
                    )],
                    value.access_definitions
                );
                assert_eq!(AssetOnboardingStatus::Pending, value.onboarding_status);
                assert_eq!(on_scope[0].transactions, value.transactions);
            }
            other => panic!("unexpected message: {:?}", other),
        }
        assert_eq!(
            vec![
                ("asset_event_type", "update_access_routes"),
                ("asset_type", "mortgage"),
                ("asset_scope_address", SCOPE_ADDRESS),
            ],
            response
                .attributes
                .iter()
                .map(|a| (a.key.as_str(), a.value.as_str()))
                .collect::<Vec<_>>()
        );
    }
}

#[test]
fn others_may_not_update_access_routes() {
    let error = update_access_routes(
        &storage(),
        &vec![attribute()],
        &MessageInfo::new(OTHER, vec![]),
        UpdateAccessRoutesV1 {
            identifier: AssetIdentifier::asset_uuid(ASSET_UUID),
            owner_address: SENDER.to_string(),
            access_routes: vec![],
        },
    )
    .unwrap_err();
    match error {
        ContractError::Unauthorized { explanation } => assert_eq!(
            "only the admin or the owner of the access routes can update them",
            explanation
        ),
        other => panic!("unexpected error: {:?}", other),
    }
}

#[test]
fn access_routes_need_exactly_one_attribute_on_the_scope() {
    let command = || UpdateAccessRoutesV1 {
        identifier: AssetIdentifier::scope_address(SCOPE_ADDRESS),
        owner_address: SENDER.to_string(),
        access_routes: vec![],
    };
    let error = update_access_routes(
        &storage(),
        &vec![],
        &MessageInfo::new(SENDER, vec![]),
        command(),
    )
    .unwrap_err();
    assert!(matches!(error, ContractError::NotFound { .. }));
    let error = update_access_routes(
        &storage(),
        &vec![attribute(), attribute(), attribute()],
        &MessageInfo::new(SENDER, vec![]),
        command(),
    )
    .unwrap_err();
    match error {
        ContractError::InvalidScopeAttribute { scope_address, attribute_amount } => {
            assert_eq!(SCOPE_ADDRESS, scope_address);
            assert_eq!(3, attribute_amount);
        }
        other => panic!("unexpected error: {:?}", other),
    }
}

#[test]
fn attribute_is_found_by_either_identifier() {
    let on_scope = vec![attribute()];
    for identifier in [
        AssetIdentifier::asset_uuid(ASSET_UUID),
        AssetIdentifier::scope_address(SCOPE_ADDRESS),
    ] {
        assert_eq!(attribute(), query_asset_scope_attribute(&on_scope, &identifier).unwrap());
    }
    let error =
        query_asset_scope_attribute(&vec![], &AssetIdentifier::asset_uuid(ASSET_UUID)).unwrap_err();
    match error {
        ContractError::NotFound { explanation } => assert_eq!(
            format!(
                "scope at address [{}] did not include an asset scope attribute",
                SCOPE_ADDRESS
            ),
            explanation
        ),
        other => panic!("unexpected error: {:?}", other),
    }
    let error =
        query_asset_scope_attribute(&on_scope, &AssetIdentifier::asset_uuid("zz")).unwrap_err();
    assert!(matches!(error, ContractError::UuidError(_)));
}

#[test]
fn access_routes_are_updated_through_execute() {
    let mut contract = storage();
    let before = contract.clone();
    let response = asset_classification_smart_contract::contract::execute(
        &mut contract,
        &vec![attribute()],
        &MessageInfo::new(SENDER, vec![]),
        asset_classification_smart_contract::model::msg::ExecuteMsg::UpdateAccessRoutes {
            identifier: AssetIdentifier::scope_address(SCOPE_ADDRESS),
            owner_address: SENDER.to_string(),
            access_routes: vec![AccessRoute::new("https://data", None)],
        },
    )
    .unwrap();
    assert_eq!(2, response.messages.len());
    assert_eq!(before, contract, "a command on an asset leaves the storage alone");
}
