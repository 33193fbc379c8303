use asset_classification_smart_contract::model::error::ContractError;
use asset_classification_smart_contract::util::traits::{OptionExtensions, ResultExtensions};

#[test]
fn test_to_ok() {
    let value: Result<String, ContractError> = "hello".to_string().to_ok();
    assert_eq!(
        "hello".to_string(),
        value.unwrap(),
        "expected the value to serialize correctly",
    );
}

#[test]
fn test_to_err() {
    let error: Result<(), ContractError> =
        ContractError::InvalidFunds("no u".to_string()).to_err();
    assert!(
        matches!(error.unwrap_err(), ContractError::InvalidFunds(_)),
        "the error should unwrap correctly",
    );
}

#[test]
fn to_some_wraps_the_value() {
    assert_eq!(Some(3u8), 3u8.to_some());
}
