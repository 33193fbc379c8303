use asset_classification_smart_contract::model::error::ContractError;
use asset_classification_smart_contract::util::functions::{
    decimal_display_string, distinct_count_by_property, generate_asset_attribute_name, replace_single_matching_vec_element,
    replacement_failure_message, validate_address,
};
use asset_classification_smart_contract::util::text::number_text;
use cosmwasm_std::{Decimal, StdError};

#[derive(Debug, PartialEq)]
struct TestVal(u32);

#[test]
fn test_replace_matching_vec_elements_success() {
    let source = vec![TestVal(1), TestVal(2), TestVal(3), TestVal(4), TestVal(5)];
    let result_vec = replace_single_matching_vec_element(source, TestVal(6), |v| v.0 == 5)
        .expect("the replacement should work correctly");
    let expected_result = vec![TestVal(1), TestVal(2), TestVal(3), TestVal(4), TestVal(6)];
    assert_eq!(
        expected_result, result_vec,
        "expected a single result to be replaced correctly",
    );
}

#[test]
fn test_replace_matching_vec_elements_failure_for_no_matches() {
    let source = vec![TestVal(10), TestVal(20)];
    let error =
        replace_single_matching_vec_element(source, TestVal(99), |v| v.0 == 100).unwrap_err();
    match error {
        ContractError::Std(e) => match e {
            StdError::GenericErr { msg, .. } => {
                assert_eq!(
                    "expected a single value to be replaced, but found 0", msg,
                    "the StdError message was not the expected result for no values replaced",
                );
            }
            _ => panic!("unexpected StdError variant found"),
        },
        _ => panic!("unexpected error type encountered"),
    };
}

#[test]
fn test_replace_matching_vec_elements_failure_for_multiple_matches() {
    let source = vec![TestVal(1), TestVal(2)];
    let error =
        replace_single_matching_vec_element(source, TestVal(10), |v| v.0 > 0).unwrap_err();
    match error {
        ContractError::Std(e) => match e {
            StdError::GenericErr { msg, .. } => {
                assert_eq!(
                    "expected a single value to be replaced, but found 2", msg,
                    "the StdError message was not the expected result for many values replaced",
                )
            }
            _ => panic!("unexpected StdError variant found"),
        },
        _ => panic!("unexpected error type encountered"),
    };
}

#[test]
fn replacement_moves_the_new_value_to_the_end() {
    let source = vec![TestVal(1), TestVal(2), TestVal(3)];
    let result = replace_single_matching_vec_element(source, TestVal(9), |v| v.0 == 1).unwrap();
    assert_eq!(vec![TestVal(2), TestVal(3), TestVal(9)], result);
}

#[test]
fn replacement_in_an_empty_list_fails() {
    let source: Vec<TestVal> = vec![];
    let error = replace_single_matching_vec_element(source, TestVal(9), |_| true).unwrap_err();
    assert!(matches!(error, ContractError::Std(_)));
}

#[test]
fn replacement_failure_message_names_the_count() {
    assert_eq!(
        "expected a single value to be replaced, but found 0",
        replacement_failure_message(0)
    );
    assert_eq!(
        "expected a single value to be replaced, but found 17",
        replacement_failure_message(17)
    );
}

#[test]
fn numbers_are_written_in_decimal() {
    assert_eq!("0", number_text(0));
    assert_eq!("7", number_text(7));
    assert_eq!("10", number_text(10));
    assert_eq!("1500000", number_text(1500000));
    assert_eq!(u128::MAX.to_string(), number_text(u128::MAX));
}

#[test]
fn attribute_name_is_type_dot_base_name() {
    let attribute_name = generate_asset_attribute_name("mortgage", "asset");
    assert_eq!("mortgage.asset", attribute_name.as_str());
    assert_eq!(".", generate_asset_attribute_name("", ""));
}

#[test]
fn distinct_count_counts_each_key_once() {
    let values = vec!["a".to_string(), "b".to_string(), "c".to_string(), "a".to_string()];
    let distinct_count = distinct_count_by_property(&values, |s| s);
    assert_eq!(3, distinct_count);
    let none: Vec<String> = vec![];
    assert_eq!(0, distinct_count_by_property(&none, |s| s));
    let same = vec!["x".to_string(), "x".to_string()];
    assert_eq!(1, distinct_count_by_property(&same, |s| s));
}

#[test]
fn distinct_count_goes_by_the_selected_property() {
    let values = vec![
        ("a".to_string(), 1),
        ("b".to_string(), 2),
        ("a".to_string(), 3),
    ];
    assert_eq!(2, distinct_count_by_property(&values, |pair| &pair.0));
}

#[test]
fn valid_bech32_is_an_address() {
    let address = validate_address("tp1g83pm46c8wxsnlra2ytruec7nuy95ttc8yy5n3").unwrap();
    assert_eq!("tp1g83pm46c8wxsnlra2ytruec7nuy95ttc8yy5n3", address);
}

#[test]
fn invalid_bech32_is_no_address() {
    for text in ["", "V1", "verifier", "tp1g83pm46c8wxsnlra2ytruec7nuy95ttc8yy5n4"] {
        let error = validate_address(text).unwrap_err();
        assert!(matches!(error, ContractError::Bech32Error(_)), "{}", text);
    }
}

#[test]
fn decimal_is_displayed_as_a_percentage() {
    let decimal = Decimal::percent(25);
    let display_string = decimal_display_string(decimal.atomics().u128());
    assert_eq!("25%", display_string.as_str());
    assert_eq!("0%", decimal_display_string(0));
    assert_eq!("100%", decimal_display_string(Decimal::one().atomics().u128()));
    // parts of a hundredth are dropped
    assert_eq!("12%", decimal_display_string(Decimal::permille(129).atomics().u128()));
    assert_eq!(
        "34028236692093846346337%",
        decimal_display_string(Decimal::MAX.atomics().u128())
    );
}
