use crate::model::types::asset_onboarding_status::AssetOnboardingStatus;
use crate::util::text::texts;
use vstd::prelude::*;

verus! {

/// The error type of `cosmwasm-std`, carried through unread.
#[verifier::external_type_specification]
#[verifier::external_body]
pub struct ExStdError(cosmwasm_std::StdError);

/// The error type of `bech32`, carried through unread.
#[verifier::external_type_specification]
#[verifier::external_body]
pub struct ExBech32Error(bech32::Error);

/// The error type of `semver`, carried through unread.
#[verifier::external_type_specification]
#[verifier::external_body]
pub struct ExSemVerError(semver::Error);

/// The error type of `uuid`, carried through unread.
#[verifier::external_type_specification]
#[verifier::external_body]
pub struct ExUuidError(uuid::Error);

/// Everything that can go wrong in this crate.
#[derive(Debug)]
pub enum ContractError {
    /// A general failure, in the framework's own error type.
    Std(cosmwasm_std::StdError),
    /// A text that is not valid bech32.
    Bech32Error(bech32::Error),
    /// A version that does not parse.
    SemVer(semver::Error),
    /// A definition with that type or scope specification exists already.
    DuplicateAssetDefinitionProvided,
    /// A validator with that address is listed already.
    DuplicateValidatorProvided,
    /// A verifier with that address is listed already.
    DuplicateVerifierProvided,
    /// An address that cannot be used.
    InvalidAddress { address: String, explanation: String },
    /// A migration to a contract of another name.
    InvalidContractName { current_contract: String, migration_contract: String },
    /// A migration to an older version.
    InvalidContractVersion { current_version: String, migration_version: String },
    /// Coins were sent that should not have been, or the wrong ones.
    InvalidFunds(String),
    /// A message with unusable fields; each is described.
    InvalidMessageFields { message_type: String, invalid_fields: Vec<String> },
    /// A message of another kind than the one asked for.
    InvalidMessageType { expected_message_type: String },
    /// Something asked for does not exist.
    NotFound { explanation: String },
    /// No definition exists for the asset type.
    UnsupportedAssetType { asset_type: String },
    /// The asset type does not list the verifier.
    UnsupportedValidator { validator_address: String, asset_type: String },
    /// The asset has an onboarding under way.
    AssetAlreadyOnboarded { scope_address: String },
    /// The asset waits for its verifier.
    AssetPendingValidation { scope_address: String, validator_address: String },
    /// The asset has never been onboarded.
    AssetNotFound { scope_address: String },
    /// An onboarding failed for the reason given.
    AssetOnboardingError { asset_type: String, scope_address: String, message: String },
    /// Neither an asset uuid nor a scope address was given.
    AssetIdentifierNotSupplied,
    /// An asset uuid and a scope address that do not belong together.
    AssetIdentifierMismatch { asset_uuid: String, scope_address: String },
    /// The asset type takes no onboardings at present.
    AssetTypeDisabled { asset_type: String },
    /// Someone other than the chosen verifier tried to verify.
    UnathorizedAssetValidator {
        scope_address: String,
        validator_address: String,
        expected_validator_address: String,
    },
    /// The verifier has answered already.
    AssetAlreadyValidated { scope_address: String, status: AssetOnboardingStatus },
    /// A scope that cannot be used.
    InvalidScope { explanation: String },
    /// A scope with more than one attribute of this contract.
    InvalidScopeAttribute { scope_address: String, attribute_amount: usize },
    /// A record that was to be created exists already.
    RecordAlreadyExists { explanation: String },
    /// A record that was to be changed does not exist.
    RecordNotFound { explanation: String },
    /// The sender may not do this.
    Unauthorized { explanation: String },
    /// The stored state is not what the message expects.
    UnexpectedState { explanation: String },
    /// The contract does not offer this.
    Unimplemented,
    /// A text that is not a uuid.
    UuidError(uuid::Error),
}

/// What a [`ContractError`] stands for. A general failure stands for the
/// framework's error itself, which is known by what made it; an error of
/// `bech32`, `semver` or `uuid` is known by its kind alone.
pub enum ContractErrorView {
    Std(cosmwasm_std::StdError),
    Bech32Error,
    SemVer,
    DuplicateAssetDefinitionProvided,
    DuplicateValidatorProvided,
    DuplicateVerifierProvided,
    InvalidAddress { address: Seq<char>, explanation: Seq<char> },
    InvalidContractName { current_contract: Seq<char>, migration_contract: Seq<char> },
    InvalidContractVersion { current_version: Seq<char>, migration_version: Seq<char> },
    InvalidFunds(Seq<char>),
    InvalidMessageFields { message_type: Seq<char>, invalid_fields: Seq<Seq<char>> },
    InvalidMessageType { expected_message_type: Seq<char> },
    NotFound { explanation: Seq<char> },
    UnsupportedAssetType { asset_type: Seq<char> },
    UnsupportedValidator { validator_address: Seq<char>, asset_type: Seq<char> },
    AssetAlreadyOnboarded { scope_address: Seq<char> },
    AssetPendingValidation { scope_address: Seq<char>, validator_address: Seq<char> },
    AssetNotFound { scope_address: Seq<char> },
    AssetOnboardingError { asset_type: Seq<char>, scope_address: Seq<char>, message: Seq<char> },
    AssetIdentifierNotSupplied,
    AssetIdentifierMismatch { asset_uuid: Seq<char>, scope_address: Seq<char> },
    AssetTypeDisabled { asset_type: Seq<char> },
    UnathorizedAssetValidator {
        scope_address: Seq<char>,
        validator_address: Seq<char>,
        expected_validator_address: Seq<char>,
    },
    AssetAlreadyValidated { scope_address: Seq<char>, status: AssetOnboardingStatus },
    InvalidScope { explanation: Seq<char> },
    InvalidScopeAttribute { scope_address: Seq<char>, attribute_amount: nat },
    RecordAlreadyExists { explanation: Seq<char> },
    RecordNotFound { explanation: Seq<char> },
    Unauthorized { explanation: Seq<char> },
    UnexpectedState { explanation: Seq<char> },
    Unimplemented,
    UuidError,
}

impl View for ContractError {
    type V = ContractErrorView;

    open spec fn view(&self) -> ContractErrorView {
        match *self {
            ContractError::Std(error) => ContractErrorView::Std(error),
            ContractError::Bech32Error(_) => ContractErrorView::Bech32Error,
            ContractError::SemVer(_) => ContractErrorView::SemVer,
            ContractError::DuplicateAssetDefinitionProvided => {
                ContractErrorView::DuplicateAssetDefinitionProvided
            },
            ContractError::DuplicateValidatorProvided => {
                ContractErrorView::DuplicateValidatorProvided
            },
            ContractError::DuplicateVerifierProvided => {
                ContractErrorView::DuplicateVerifierProvided
            },
            ContractError::InvalidAddress {
                address,
                explanation,
            } => ContractErrorView::InvalidAddress {
                address: address@,
                explanation: explanation@,
            },
            ContractError::InvalidContractName {
                current_contract,
                migration_contract,
            } => ContractErrorView::InvalidContractName {
                current_contract: current_contract@,
                migration_contract: migration_contract@,
            },
            ContractError::InvalidContractVersion {
                current_version,
                migration_version,
            } => ContractErrorView::InvalidContractVersion {
                current_version: current_version@,
                migration_version: migration_version@,
            },
            ContractError::InvalidFunds(message) => ContractErrorView::InvalidFunds(message@),
            ContractError::InvalidMessageFields {
                message_type,
                invalid_fields,
            } => ContractErrorView::InvalidMessageFields {
                message_type: message_type@,
                invalid_fields: texts(invalid_fields@),
            },
            ContractError::InvalidMessageType {
                expected_message_type,
            } => ContractErrorView::InvalidMessageType {
                expected_message_type: expected_message_type@,
            },
            ContractError::NotFound { explanation } => ContractErrorView::NotFound {
                explanation: explanation@,
            },
            ContractError::UnsupportedAssetType {
                asset_type,
            } => ContractErrorView::UnsupportedAssetType {
                asset_type: asset_type@,
            },
            ContractError::UnsupportedValidator {
                validator_address,
                asset_type,
            } => ContractErrorView::UnsupportedValidator {
                validator_address: validator_address@,
                asset_type: asset_type@,
            },
            ContractError::AssetAlreadyOnboarded {
                scope_address,
            } => ContractErrorView::AssetAlreadyOnboarded {
                scope_address: scope_address@,
            },
            ContractError::AssetPendingValidation {
                scope_address,
                validator_address,
            } => ContractErrorView::AssetPendingValidation {
                scope_address: scope_address@,
                validator_address: validator_address@,
            },
            ContractError::AssetNotFound { scope_address } => ContractErrorView::AssetNotFound {
                scope_address: scope_address@,
            },
            ContractError::AssetOnboardingError {
                asset_type,
                scope_address,
                message,
            } => ContractErrorView::AssetOnboardingError {
                asset_type: asset_type@,
                scope_address: scope_address@,
                message: message@,
            },
            ContractError::AssetIdentifierNotSupplied => {
                ContractErrorView::AssetIdentifierNotSupplied
            },
            ContractError::AssetIdentifierMismatch {
                asset_uuid,
                scope_address,
            } => ContractErrorView::AssetIdentifierMismatch {
                asset_uuid: asset_uuid@,
                scope_address: scope_address@,
            },
            ContractError::AssetTypeDisabled {
                asset_type,
            } => ContractErrorView::AssetTypeDisabled {
                asset_type: asset_type@,
            },
            ContractError::UnathorizedAssetValidator {
                scope_address,
                validator_address,
                expected_validator_address,
            } => ContractErrorView::UnathorizedAssetValidator {
                scope_address: scope_address@,
                validator_address: validator_address@,
                expected_validator_address: expected_validator_address@,
            },
            ContractError::AssetAlreadyValidated {
                scope_address,
                status,
            } => ContractErrorView::AssetAlreadyValidated {
                scope_address: scope_address@,
                status: status,
            },
            ContractError::InvalidScope { explanation } => ContractErrorView::InvalidScope {
                explanation: explanation@,
            },
            ContractError::InvalidScopeAttribute {
                scope_address,
                attribute_amount,
            } => ContractErrorView::InvalidScopeAttribute {
                scope_address: scope_address@,
                attribute_amount: attribute_amount as nat,
            },
            ContractError::RecordAlreadyExists {
                explanation,
            } => ContractErrorView::RecordAlreadyExists {
                explanation: explanation@,
            },
            ContractError::RecordNotFound { explanation } => ContractErrorView::RecordNotFound {
                explanation: explanation@,
            },
            ContractError::Unauthorized { explanation } => ContractErrorView::Unauthorized {
                explanation: explanation@,
            },
            ContractError::UnexpectedState { explanation } => ContractErrorView::UnexpectedState {
                explanation: explanation@,
            },
            ContractError::Unimplemented => ContractErrorView::Unimplemented,
            ContractError::UuidError(_) => ContractErrorView::UuidError,
        }
    }
}

/// The view of a result whose error is a [`ContractError`].
pub open spec fn outcome<T: View>(r: Result<T, ContractError>) -> Result<T::V, ContractErrorView> {
    match r {
        Ok(value) => Ok(value@),
        Err(error) => Err(error@),
    }
}

/// The view of a result that carries no value.
pub open spec fn verdict(r: Result<(), ContractError>) -> Result<(), ContractErrorView> {
    match r {
        Ok(_) => Ok(()),
        Err(error) => Err(error@),
    }
}

/// The error that `StdError::generic_err` makes of a message: a
/// `StdError::GenericErr` that holds the message and nothing else.
pub uninterp spec fn generic_error(msg: Seq<char>) -> cosmwasm_std::StdError;

/// Calls `StdError::generic_err`, which stores the message in a
/// `StdError::GenericErr`. The value is opaque here, so the result is named
/// [`generic_error`]: it depends on the message alone, since the crate is
/// built without its `backtraces` feature.
#[verifier::external_body]
fn generic_std_error(msg: String) -> (r: cosmwasm_std::StdError)
    ensures
        r == generic_error(msg@),
{
    cosmwasm_std::StdError::generic_err(msg)
}

/// A general failure with a message.
pub open spec fn general_failure(msg: Seq<char>) -> ContractErrorView {
    ContractErrorView::Std(generic_error(msg))
}

impl ContractError {
    /// A general failure with the given message: the framework's generic
    /// error of the message, as a `Std` error.
    pub fn std_err(msg: String) -> (r: ContractError)
        ensures
            r == ContractError::Std(generic_error(msg@)),
            r@ == general_failure(msg@),
    {
        ContractError::Std(generic_std_error(msg))
    }
}

} // verus!
