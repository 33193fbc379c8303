use asset_classification_smart_contract::model::error::ContractError;
use asset_classification_smart_contract::model::types::asset_identifier::AssetIdentifier;

#[test]
fn test_asset_identifier_parse_for_asset_uuid() {
    // The uuid was generated randomly and the scope address was derived via provenance's MetadataAddress util
    let asset_uuid = "0c39efb6-9fef-11ec-ab21-6bf5c9fb3f83";
    let expected_scope_address = "scope1qqxrnmaknlh3rm9ty94ltj0m87psnapt5l";
    let identifier = AssetIdentifier::asset_uuid(asset_uuid);
    let result_identifiers = identifier
        .to_identifiers()
        .expect("parsing idenitifiers should succeed");
    assert_eq!(
        asset_uuid,
        result_identifiers.asset_uuid.as_str(),
        "expected the asset uuid value to pass through successfully",
    );
    assert_eq!(
        expected_scope_address,
        result_identifiers.scope_address.as_str(),
        "expected the scope address to be derived correctly",
    );
}

#[test]
fn test_asset_identifier_parse_for_scope_address() {
    // The uuid was generated randomly and the scope address was derived via provenance's MetadataAddress util
    let scope_address = "scope1qz3s7dvsnlh3rmyy3pm5tszs2v7qhwhde8";
    let expected_asset_uuid = "a30f3590-9fef-11ec-8488-7745c050533c";
    let identifier = AssetIdentifier::scope_address(scope_address);
    let result_identifiers = identifier
        .to_identifiers()
        .expect("parsing identifiers should succeed");
    assert_eq!(
        scope_address,
        result_identifiers.scope_address.as_str(),
        "expected the scope address to pass through successfully",
    );
    assert_eq!(
        expected_asset_uuid,
        result_identifiers.asset_uuid.as_str(),
        "expected the asset uuid to be derived correctly",
    );
}

#[test]
fn test_asset_identifier_to_functions_from_asset_uuid() {
    let initial_uuid = "5134f836-a15c-11ec-abb6-a733aad66af8";
    let expected_scope_address = "scope1qpgnf7pk59wprm9tk6nn82kkdtuq2wlq5p";
    let identifier = AssetIdentifier::asset_uuid(initial_uuid);
    let asset_uuid = identifier
        .get_asset_uuid()
        .expect("the asset uuid should be directly accessible");
    let scope_address = identifier
        .get_scope_address()
        .expect("the scope address should be accessible by conversion");
    assert_eq!(
        initial_uuid, asset_uuid,
        "the asset uuid output should be identical to the input"
    );
    assert_eq!(
        expected_scope_address, scope_address,
        "the scope address output should be as expected"
    );
}

#[test]
fn test_asset_identifier_to_functions_from_scope_address() {
    let initial_address = "scope1qzdyhglu59w3rm9n0z0h3mn657yqrgjcwl";
    let expected_asset_uuid = "9a4ba3fc-a15d-11ec-b378-9f78ee7aa788";
    let identifier = AssetIdentifier::scope_address(initial_address);
    let scope_address = identifier
        .get_scope_address()
        .expect("the scope address should be directly accessible");
    let asset_uuid = identifier
        .get_asset_uuid()
        .expect("the asset uuid should be accessible by conversion");
    assert_eq!(
        initial_address, scope_address,
        "the scope address output should be identical to the input"
    );
    assert_eq!(
        expected_asset_uuid, asset_uuid,
        "the asset uuid output should be as expected"
    );
}

#[test]
fn uuid_and_scope_address_lead_back_to_each_other() {
    let uuids = [
        "0c39efb6-9fef-11ec-ab21-6bf5c9fb3f83",
        "00000000-0000-0000-0000-000000000000",
        "ffffffff-ffff-ffff-ffff-ffffffffffff",
    ];
    for uuid in uuids {
        let address = AssetIdentifier::asset_uuid(uuid).get_scope_address().unwrap();
        let back = AssetIdentifier::scope_address(&address).get_asset_uuid().unwrap();
        assert_eq!(uuid, back);
        let again = AssetIdentifier::asset_uuid(&back).get_scope_address().unwrap();
        assert_eq!(address, again);
    }
}

#[test]
fn upper_case_uuid_leads_back_to_its_lower_case_writing() {
    let address = AssetIdentifier::asset_uuid("0C39EFB6-9FEF-11EC-AB21-6BF5C9FB3F83")
        .get_scope_address()
        .unwrap();
    assert_eq!("scope1qqxrnmaknlh3rm9ty94ltj0m87psnapt5l", address);
    let back = AssetIdentifier::scope_address(&address).get_asset_uuid().unwrap();
    assert_eq!("0c39efb6-9fef-11ec-ab21-6bf5c9fb3f83", back);
}

#[test]
fn malformed_uuid_is_a_uuid_error() {
    let error = AssetIdentifier::asset_uuid("not-a-uuid").get_scope_address().unwrap_err();
    assert!(matches!(error, ContractError::UuidError(_)));
    let error = AssetIdentifier::asset_uuid("").to_identifiers().unwrap_err();
    assert!(matches!(error, ContractError::UuidError(_)));
}

#[test]
fn malformed_scope_address_is_a_bech32_error() {
    let error = AssetIdentifier::scope_address("scope1qqqq").get_asset_uuid().unwrap_err();
    assert!(matches!(error, ContractError::Bech32Error(_)));
    // one character of a valid address changed: the checksum no longer holds
    let error = AssetIdentifier::scope_address("scope1qqxrnmaknlh3rm9ty94ltj0m87psnapt5m")
        .get_asset_uuid()
        .unwrap_err();
    assert!(matches!(error, ContractError::Bech32Error(_)));
}

#[test]
fn address_with_another_prefix_is_an_invalid_address() {
    // a valid account address, which is no scope
    let error = AssetIdentifier::scope_address("tp1g83pm46c8wxsnlra2ytruec7nuy95ttc8yy5n3")
        .get_asset_uuid()
        .unwrap_err();
    match error {
        ContractError::InvalidAddress { address, explanation } => {
            assert_eq!("tp1g83pm46c8wxsnlra2ytruec7nuy95ttc8yy5n3", address);
            assert_eq!("the address does not have the prefix [scope]", explanation);
        }
        other => panic!("unexpected error: {:?}", other),
    }
}

#[test]
fn scope_address_must_hold_a_scope_key_and_a_uuid() {
    // the key byte of a scope specification under the prefix of a scope; one byte too few
    for address in [
        "scope1qsxrnmaknlh3rm9ty94ltj0m87psul4zkr",
        "scope1qqxrnmaknlh3rm9ty94ltj0m8un6zwwp",
    ] {
        let error = AssetIdentifier::scope_address(address).get_asset_uuid().unwrap_err();
        match error {
            ContractError::InvalidAddress { address: given, explanation } => {
                assert_eq!(address, given);
                assert_eq!(
                    "the address does not hold the key byte of a scope followed by the 16 bytes of a uuid",
                    explanation
                );
            }
            other => panic!("unexpected error for {}: {:?}", address, other),
        }
    }
}

#[test]
fn address_in_another_writing_leads_back_to_the_canonical_one() {
    // upper case, and the checksum of the second Bech32 variant
    for address in [
        "SCOPE1QQXRNMAKNLH3RM9TY94LTJ0M87PSNAPT5L",
        "scope1qqxrnmaknlh3rm9ty94ltj0m87psxp383a",
    ] {
        let uuid = AssetIdentifier::scope_address(address).get_asset_uuid().unwrap();
        assert_eq!("0c39efb6-9fef-11ec-ab21-6bf5c9fb3f83", uuid);
        let back = AssetIdentifier::asset_uuid(&uuid).get_scope_address().unwrap();
        assert_eq!("scope1qqxrnmaknlh3rm9ty94ltj0m87psnapt5l", back);
    }
}

#[test]
fn given_value_passes_through_untouched() {
    let identifier = AssetIdentifier::asset_uuid("0C39EFB6-9FEF-11EC-AB21-6BF5C9FB3F83");
    assert_eq!("0C39EFB6-9FEF-11EC-AB21-6BF5C9FB3F83", identifier.get_asset_uuid().unwrap());
    let found = identifier.to_identifiers().unwrap();
    assert_eq!("0C39EFB6-9FEF-11EC-AB21-6BF5C9FB3F83", found.asset_uuid);
    assert_eq!("scope1qqxrnmaknlh3rm9ty94ltj0m87psnapt5l", found.scope_address);
    // the simple and the urn writing of a uuid are read too
    for text in [
        "0c39efb69fef11ecab216bf5c9fb3f83",
        "urn:uuid:0c39efb6-9fef-11ec-ab21-6bf5c9fb3f83",
    ] {
        assert_eq!(
            "scope1qqxrnmaknlh3rm9ty94ltj0m87psnapt5l",
            AssetIdentifier::asset_uuid(text).get_scope_address().unwrap()
        );
    }
}
