use crate::model::asset::{AssetDefinition, AssetDefinitionView, VerifierDetail};
use crate::model::types::access_route::AccessRoute;
use crate::model::types::asset_identifier::AssetIdentifier;
use crate::model::types::asset_qualifier::AssetQualifier;
use vstd::prelude::*;
use vstd::string::StringExecFns;

verus! {

/// An asset definition as a message carries it: whether it is enabled may
/// be left out, and then it is.
#[derive(Debug, Clone, PartialEq, Eq)]
pub struct AssetDefinitionInput {
    /// The name of the asset type.
    pub asset_type: String,
    /// The bech32 address of the scope specification.
    pub scope_spec_address: String,
    /// The verifiers that may be chosen for this type.
    pub verifiers: Vec<VerifierDetail>,
    /// Whether the type takes onboardings; `None` stands for `true`.
    pub enabled: Option<bool>,
}

impl AssetDefinitionInput {
    /// The definition that the input describes.
    pub open spec fn definition(&self) -> AssetDefinitionView {
        AssetDefinitionView {
            asset_type: self.asset_type@,
            scope_spec_address: self.scope_spec_address@,
            verifiers: self.verifiers.deep_view(),
            enabled: match self.enabled {
                Some(enabled) => enabled,
                None => true,
            },
        }
    }

    /// An input with the given values.
    pub fn new(
        asset_type: &str,
        scope_spec_address: &str,
        verifiers: Vec<VerifierDetail>,
        enabled: Option<bool>,
    ) -> (r: Self)
        ensures
            r.asset_type@ == asset_type@,
            r.scope_spec_address@ == scope_spec_address@,
            r.verifiers == verifiers,
            r.enabled == enabled,
    {
        AssetDefinitionInput {
            asset_type: String::from_str(asset_type),
            scope_spec_address: String::from_str(scope_spec_address),
            verifiers,
            enabled,
        }
    }

    /// A copy of the input as a definition.
    pub fn as_asset_definition(&self) -> (r: AssetDefinition)
        ensures
            r@ == self.definition(),
    {
        let verifiers = self.verifiers.clone();
        assert(verifiers.deep_view() =~= self.verifiers.deep_view());
        AssetDefinition {
            asset_type: self.asset_type.clone(),
            scope_spec_address: self.scope_spec_address.clone(),
            verifiers,
            enabled: match self.enabled {
                Some(enabled) => enabled,
                None => true,
            },
        }
    }

    /// The input turned into a definition.
    pub fn into_asset_definition(self) -> (r: AssetDefinition)
        ensures
            r@ == self.definition(),
    {
        AssetDefinition {
            asset_type: self.asset_type,
            scope_spec_address: self.scope_spec_address,
            verifiers: self.verifiers,
            enabled: match self.enabled {
                Some(enabled) => enabled,
                None => true,
            },
        }
    }
}

/// What the contract is created with.
#[derive(Debug, Clone, PartialEq, Eq)]
pub struct InitMsg {
    /// The name under which the contract writes its attributes.
    pub base_contract_name: String,
    /// Whether the base name is to be bound to the contract at creation.
    pub bind_base_name: bool,
    /// The asset definitions to start with.
    pub asset_definitions: Vec<AssetDefinitionInput>,
    /// Whether the contract runs under test; `None` stands for `false`.
    pub is_test: Option<bool>,
}

/// The commands that change the contract's state.
#[allow(inconsistent_fields)]
#[derive(Debug, Clone, PartialEq, Eq)]
pub enum ExecuteMsg {
    /// Stages an asset for verification and pays the verifier's price.
    OnboardAsset {
        identifier: AssetIdentifier,
        asset_type: String,
        verifier_address: String,
        access_routes: Option<Vec<AccessRoute>>,
    },
    /// The verifier's answer on an asset that waits for it.
    VerifyAsset {
        identifier: AssetIdentifier,
        success: bool,
        message: Option<String>,
        access_routes: Option<Vec<AccessRoute>>,
    },
    /// Adds an asset definition. For the admin.
    AddAssetDefinition { asset_definition: AssetDefinitionInput },
    /// Replaces an asset definition. For the admin.
    UpdateAssetDefinition { asset_definition: AssetDefinitionInput },
    /// Enables or disables an asset definition. For the admin.
    ToggleAssetDefinition { asset_type: String, expected_result: bool },
    /// Adds a verifier to an asset definition. For the admin.
    AddAssetVerifier { asset_type: String, verifier: VerifierDetail },
    /// Replaces a verifier of an asset definition. For the admin.
    UpdateAssetVerifier { asset_type: String, verifier: VerifierDetail },
    /// Replaces the access routes that one account has on an asset.
    UpdateAccessRoutes {
        identifier: AssetIdentifier,
        owner_address: String,
        access_routes: Vec<AccessRoute>,
    },
    /// Binds one more name to the contract. For the admin.
    BindContractAlias { alias_name: String },
    /// Removes an asset definition. For the admin.
    DeleteAssetDefinition { qualifier: AssetQualifier },
}

/// The questions that the contract answers.
#[derive(Debug, Clone, PartialEq, Eq)]
pub enum QueryMsg {
    /// One asset definition.
    QueryAssetDefinition { qualifier: AssetQualifier },
    /// All asset definitions.
    QueryAssetDefinitions {  },
    /// The attribute that the contract has written on an asset's scope.
    QueryAssetScopeAttribute { identifier: AssetIdentifier },
    /// The contract's configuration.
    QueryState {  },
    /// The contract's name and version.
    QueryVersion {  },
}

/// The ways to move the contract to a new version of its code.
#[derive(Debug, Clone, PartialEq, Eq)]
pub enum MigrateMsg {
    /// A plain upgrade of the code.
    ContractUpgrade {  },
}

} // verus!
