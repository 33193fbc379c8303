use crate::model::asset::{VerifierDetail, VerifierDetailView};
use crate::model::error::{verdict, ContractError, ContractErrorView};
use crate::model::msg::ExecuteMsg;
use crate::model::types::asset_identifier::{AssetIdentifier, AssetIdentifierView};
use crate::model::types::asset_qualifier::{AssetQualifier, AssetQualifierView};
use crate::util::text::{push_text, texts};
use crate::validation::validate_init_msg::{
    check_fields, complaint, definition_errors, fields_verdict, true_definition_checks,
    true_verifier_checks, validate_asset_definition, validate_verifier_with_provided_errors,
    verifier_errors, DEFINITION_MESSAGE, VERIFIER_MESSAGE,
};
use vstd::prelude::*;
use vstd::string::StringExecFns;

verus! {

/// The message type that is named where a message of this kind is turned down.
pub const ONBOARD_ASSET_MESSAGE: &'static str = "ExecuteMsg::OnboardAsset";

/// The message type that is named where a message of this kind is turned down.
pub const VALIDATE_ASSET_MESSAGE: &'static str = "ExecuteMsg::ValidateAsset";

/// The message type that is named where a message of this kind is turned down.
pub const TOGGLE_ASSET_DEFINITION_MESSAGE: &'static str = "ExecuteMsg::ToggleAssetDefinition";

/// The message type that is named where a message of this kind is turned down.
pub const UPDATE_ACCESS_ROUTES_MESSAGE: &'static str = "ExecuteMsg::UpdateAccessRoutes";

/// The message type that is named where a message of this kind is turned down.
pub const BIND_CONTRACT_ALIAS_MESSAGE: &'static str = "ExecuteMsg::BindContractAlias";

/// The message type that is named where a message of this kind is turned down.
pub const DELETE_ASSET_DEFINITION_MESSAGE: &'static str = "ExecuteMsg::DeleteAssetDefinition";

/// What is said of a field that fails this check.
pub const BLANK_ASSET_UUID: &'static str = "identifier:asset_uuid: must not be blank";

/// What is said of a field that fails this check.
pub const BLANK_SCOPE_ADDRESS: &'static str = "identifier:scope_address: must not be blank";

/// What is said of a field that fails this check.
pub const BLANK_TYPE: &'static str = "asset_type: must not be blank";

/// What is said of a field that fails this check.
pub const BLANK_VALIDATOR: &'static str = "validator_address: must not be blank";

/// What is said of a field that fails this check.
pub const BLANK_OWNER: &'static str = "owner_address: must not be blank";

/// What is said of a field that fails this check.
pub const BLANK_ALIAS: &'static str = "alias_name: must not be blank";

/// What is said of a field that fails this check.
pub const BLANK_QUALIFIER_TYPE: &'static str = "qualifier:asset_type: must not be blank";

/// What is said of a field that fails this check.
pub const BLANK_QUALIFIER_ADDRESS: &'static str = "qualifier:scope_spec_address: must not be blank";

/// What is said of a field that fails this check.
pub const EMPTY_TYPE: &'static str = "asset_type must not be empty";

/// What is wrong with an identifier: its text is blank.
pub open spec fn identifier_errors(identifier: AssetIdentifierView) -> Seq<Seq<char>> {
    match identifier {
        AssetIdentifierView::AssetUuid(asset_uuid) => complaint(
            asset_uuid.len() == 0,
            BLANK_ASSET_UUID@,
        ),
        AssetIdentifierView::ScopeAddress(scope_address) => complaint(
            scope_address.len() == 0,
            BLANK_SCOPE_ADDRESS@,
        ),
    }
}

/// What is wrong with a qualifier: its text is blank.
pub open spec fn qualifier_errors(qualifier: AssetQualifierView) -> Seq<Seq<char>> {
    match qualifier {
        AssetQualifierView::AssetType(asset_type) => complaint(
            asset_type.len() == 0,
            BLANK_QUALIFIER_TYPE@,
        ),
        AssetQualifierView::ScopeSpecAddress(address) => complaint(
            address.len() == 0,
            BLANK_QUALIFIER_ADDRESS@,
        ),
    }
}

/// What is wrong with a request to onboard: a blank identifier, a blank
/// asset type, a blank verifier address, in this order.
pub open spec fn onboard_asset_errors(
    identifier: AssetIdentifierView,
    asset_type: Seq<char>,
    verifier_address: Seq<char>,
) -> Seq<Seq<char>> {
    identifier_errors(identifier) + complaint(asset_type.len() == 0, BLANK_TYPE@) + complaint(
        verifier_address.len() == 0,
        BLANK_VALIDATOR@,
    )
}

/// What is wrong with a request to replace access routes: a blank
/// identifier, a blank owner address.
pub open spec fn update_access_routes_errors(
    identifier: AssetIdentifierView,
    owner_address: Seq<char>,
) -> Seq<Seq<char>> {
    identifier_errors(identifier) + complaint(owner_address.len() == 0, BLANK_OWNER@)
}

/// What the check of a message comes to.
pub open spec fn execute_msg_verdict(msg: ExecuteMsg) -> Result<(), ContractErrorView> {
    match msg {
        ExecuteMsg::OnboardAsset { identifier, asset_type, verifier_address, .. } => fields_verdict(
            ONBOARD_ASSET_MESSAGE@,
            onboard_asset_errors(identifier@, asset_type@, verifier_address@),
        ),
        ExecuteMsg::VerifyAsset { identifier, .. } => fields_verdict(
            VALIDATE_ASSET_MESSAGE@,
            identifier_errors(identifier@),
        ),
        ExecuteMsg::AddAssetDefinition { asset_definition } => fields_verdict(
            DEFINITION_MESSAGE@,
            definition_errors(
                asset_definition.definition(),
                true_definition_checks(asset_definition.definition()),
            ),
        ),
        ExecuteMsg::UpdateAssetDefinition { asset_definition } => fields_verdict(
            DEFINITION_MESSAGE@,
            definition_errors(
                asset_definition.definition(),
                true_definition_checks(asset_definition.definition()),
            ),
        ),
        ExecuteMsg::ToggleAssetDefinition { asset_type, .. } => fields_verdict(
            TOGGLE_ASSET_DEFINITION_MESSAGE@,
            complaint(asset_type@.len() == 0, BLANK_TYPE@),
        ),
        ExecuteMsg::AddAssetVerifier { asset_type, verifier } => asset_verifier_verdict(
            asset_type@,
            verifier@,
        ),
        ExecuteMsg::UpdateAssetVerifier { asset_type, verifier } => asset_verifier_verdict(
            asset_type@,
            verifier@,
        ),
        ExecuteMsg::UpdateAccessRoutes { identifier, owner_address, .. } => fields_verdict(
            UPDATE_ACCESS_ROUTES_MESSAGE@,
            update_access_routes_errors(identifier@, owner_address@),
        ),
        ExecuteMsg::BindContractAlias { alias_name } => fields_verdict(
            BIND_CONTRACT_ALIAS_MESSAGE@,
            complaint(alias_name@.len() == 0, BLANK_ALIAS@),
        ),
        ExecuteMsg::DeleteAssetDefinition { qualifier } => fields_verdict(
            DELETE_ASSET_DEFINITION_MESSAGE@,
            qualifier_errors(qualifier@),
        ),
    }
}

/// What the check of a verifier for an asset type comes to: a blank type is
/// reported before what is wrong with the verifier.
pub open spec fn asset_verifier_verdict(asset_type: Seq<char>, verifier: VerifierDetailView)
    -> Result<(), ContractErrorView> {
    fields_verdict(
        VERIFIER_MESSAGE@,
        complaint(asset_type.len() == 0, EMPTY_TYPE@) + verifier_errors(
            verifier,
            true_verifier_checks(verifier),
        ),
    )
}

/// Appends one message if the text is blank.
fn push_if_blank(errors: &mut Vec<String>, text: &str, message: &str)
    ensures
        texts(final(errors)@) == texts(old(errors)@) + complaint(text@.len() == 0, message@),
{
    if text.is_empty() {
        push_text(errors, String::from_str(message));
        assert(texts(errors@) =~= texts(old(errors)@) + seq![message@]);
    } else {
        assert(texts(errors@) =~= texts(old(errors)@) + Seq::<Seq<char>>::empty());
    }
}

/// Appends what is wrong with an identifier.
fn push_identifier_errors(errors: &mut Vec<String>, identifier: &AssetIdentifier)
    ensures
        texts(final(errors)@) == texts(old(errors)@) + identifier_errors(identifier@),
{
    match identifier {
        AssetIdentifier::AssetUuid(asset_uuid) => push_if_blank(
            errors,
            asset_uuid.as_str(),
            BLANK_ASSET_UUID,
        ),
        AssetIdentifier::ScopeAddress(scope_address) => push_if_blank(
            errors,
            scope_address.as_str(),
            BLANK_SCOPE_ADDRESS,
        ),
    }
}

/// Checks every kind of message before it is acted on. Everything that is
/// wrong with the message is reported at once.
pub fn validate_execute_msg(msg: &ExecuteMsg) -> (r: Result<(), ContractError>)
    ensures
        verdict(r) == execute_msg_verdict(*msg),
{
    match msg {
        ExecuteMsg::OnboardAsset {
            identifier,
            asset_type,
            verifier_address,
            ..
        } => validate_onboard_asset(identifier, asset_type.as_str(), verifier_address.as_str()),
        ExecuteMsg::VerifyAsset { identifier, .. } => validate_validate_asset(identifier),
        ExecuteMsg::AddAssetDefinition { asset_definition } => validate_asset_definition(
            &asset_definition.as_asset_definition(),
        ),
        ExecuteMsg::UpdateAssetDefinition { asset_definition } => validate_asset_definition(
            &asset_definition.as_asset_definition(),
        ),
        ExecuteMsg::ToggleAssetDefinition { asset_type, .. } => validate_toggle_asset_definition(
            asset_type.as_str(),
        ),
        ExecuteMsg::AddAssetVerifier { asset_type, verifier } => validate_asset_validator_msg(
            asset_type.as_str(),
            verifier,
        ),
        ExecuteMsg::UpdateAssetVerifier { asset_type, verifier } => validate_asset_validator_msg(
            asset_type.as_str(),
            verifier,
        ),
        ExecuteMsg::UpdateAccessRoutes {
            identifier,
            owner_address,
            ..
        } => validate_update_access_routes(identifier, owner_address.as_str()),
        ExecuteMsg::BindContractAlias { alias_name } => validate_bind_contract_alias(
            alias_name.as_str(),
        ),
        ExecuteMsg::DeleteAssetDefinition { qualifier } => validate_delete_asset_definition(
            qualifier,
        ),
    }
}

/// Checks a request to onboard an asset: the identifier, the asset type and
/// the verifier's address must not be blank.
pub fn validate_onboard_asset(
    identifier: &AssetIdentifier,
    asset_type: &str,
    verifier_address: &str,
) -> (r: Result<(), ContractError>)
    ensures
        verdict(r) == fields_verdict(
            ONBOARD_ASSET_MESSAGE@,
            onboard_asset_errors(identifier@, asset_type@, verifier_address@),
        ),
{
    let mut invalid_fields: Vec<String> = Vec::new();
    assert(texts(invalid_fields@) =~= Seq::<Seq<char>>::empty());
    push_identifier_errors(&mut invalid_fields, identifier);
    push_if_blank(&mut invalid_fields, asset_type, BLANK_TYPE);
    push_if_blank(&mut invalid_fields, verifier_address, BLANK_VALIDATOR);
    assert(texts(invalid_fields@) =~= onboard_asset_errors(
        identifier@,
        asset_type@,
        verifier_address@,
    ));
    check_fields(ONBOARD_ASSET_MESSAGE, invalid_fields)
}

/// Checks a verifier's answer on an asset: the identifier must not be
/// blank.
pub fn validate_validate_asset(identifier: &AssetIdentifier) -> (r: Result<(), ContractError>)
    ensures
        verdict(r) == fields_verdict(VALIDATE_ASSET_MESSAGE@, identifier_errors(identifier@)),
{
    let mut invalid_fields: Vec<String> = Vec::new();
    assert(texts(invalid_fields@) =~= Seq::<Seq<char>>::empty());
    push_identifier_errors(&mut invalid_fields, identifier);
    assert(texts(invalid_fields@) =~= identifier_errors(identifier@));
    check_fields(VALIDATE_ASSET_MESSAGE, invalid_fields)
}

/// Checks a request to enable or disable an asset definition: the asset
/// type must not be blank.
pub fn validate_toggle_asset_definition(asset_type: &str) -> (r: Result<(), ContractError>)
    ensures
        verdict(r) == fields_verdict(
            TOGGLE_ASSET_DEFINITION_MESSAGE@,
            complaint(asset_type@.len() == 0, BLANK_TYPE@),
        ),
{
    let mut invalid_fields: Vec<String> = Vec::new();
    assert(texts(invalid_fields@) =~= Seq::<Seq<char>>::empty());
    push_if_blank(&mut invalid_fields, asset_type, BLANK_TYPE);
    assert(texts(invalid_fields@) =~= complaint(asset_type@.len() == 0, BLANK_TYPE@));
    check_fields(TOGGLE_ASSET_DEFINITION_MESSAGE, invalid_fields)
}

/// Checks a verifier that is to be added to an asset type or replaced in
/// it: the type must not be blank, and nothing may be wrong with the
/// verifier.
pub fn validate_asset_validator_msg(asset_type: &str, verifier: &VerifierDetail) -> (r: Result<
    (),
    ContractError,
>)
    ensures
        verdict(r) == asset_verifier_verdict(asset_type@, verifier@),
{
    let errors = if asset_type.is_empty() {
        let mut found: Vec<String> = Vec::new();
        found.push(String::from_str(EMPTY_TYPE));
        assert(texts(found@) =~= seq![EMPTY_TYPE@]);
        Some(found)
    } else {
        None
    };
    validate_verifier_with_provided_errors(verifier, errors)
}

/// Checks a request to replace access routes: the identifier and the
/// owner's address must not be blank.
pub fn validate_update_access_routes(identifier: &AssetIdentifier, owner_address: &str) -> (r:
    Result<(), ContractError>)
    ensures
        verdict(r) == fields_verdict(
            UPDATE_ACCESS_ROUTES_MESSAGE@,
            update_access_routes_errors(identifier@, owner_address@),
        ),
{
    let mut invalid_fields: Vec<String> = Vec::new();
    assert(texts(invalid_fields@) =~= Seq::<Seq<char>>::empty());
    push_identifier_errors(&mut invalid_fields, identifier);
    push_if_blank(&mut invalid_fields, owner_address, BLANK_OWNER);
    assert(texts(invalid_fields@) =~= update_access_routes_errors(identifier@, owner_address@));
    check_fields(UPDATE_ACCESS_ROUTES_MESSAGE, invalid_fields)
}

/// Checks a request to bind an alias: the name must not be blank.
pub fn validate_bind_contract_alias(alias_name: &str) -> (r: Result<(), ContractError>)
    ensures
        verdict(r) == fields_verdict(
            BIND_CONTRACT_ALIAS_MESSAGE@,
            complaint(alias_name@.len() == 0, BLANK_ALIAS@),
        ),
{
    let mut invalid_fields: Vec<String> = Vec::new();
    assert(texts(invalid_fields@) =~= Seq::<Seq<char>>::empty());
    push_if_blank(&mut invalid_fields, alias_name, BLANK_ALIAS);
    assert(texts(invalid_fields@) =~= complaint(alias_name@.len() == 0, BLANK_ALIAS@));
    check_fields(BIND_CONTRACT_ALIAS_MESSAGE, invalid_fields)
}

/// Checks a request to remove an asset definition: the qualifier must not
/// be blank.
pub fn validate_delete_asset_definition(qualifier: &AssetQualifier) -> (r: Result<
    (),
    ContractError,
>)
    ensures
        verdict(r) == fields_verdict(
            DELETE_ASSET_DEFINITION_MESSAGE@,
            qualifier_errors(qualifier@),
        ),
{
    let mut invalid_fields: Vec<String> = Vec::new();
    assert(texts(invalid_fields@) =~= Seq::<Seq<char>>::empty());
    match qualifier {
        AssetQualifier::AssetType(asset_type) => push_if_blank(
            &mut invalid_fields,
            asset_type.as_str(),
            BLANK_QUALIFIER_TYPE,
        ),
        AssetQualifier::ScopeSpecAddress(address) => push_if_blank(
            &mut invalid_fields,
            address.as_str(),
            BLANK_QUALIFIER_ADDRESS,
        ),
    }
    assert(texts(invalid_fields@) =~= qualifier_errors(qualifier@));
    check_fields(DELETE_ASSET_DEFINITION_MESSAGE, invalid_fields)
}

} // verus!
