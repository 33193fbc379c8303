use crate::model::error::{outcome, ContractError, ContractErrorView};
use crate::util::scope_address_utils::{
    asset_uuid_of, asset_uuid_outcome, asset_uuid_to_scope_address, canonical_address,
    canonical_uuid, scope_address_of, scope_address_outcome, scope_address_to_asset_uuid,
};
use vstd::prelude::*;
use vstd::string::StringExecFns;

verus! {

/// The two ways to name an asset. Each leads to the other.
#[derive(Debug, PartialEq, Eq)]
pub enum AssetIdentifier {
    /// The uuid of the asset.
    AssetUuid(String),
    /// The bech32 address of the asset's scope.
    ScopeAddress(String),
}

/// What an [`AssetIdentifier`] stands for.
pub enum AssetIdentifierView {
    AssetUuid(Seq<char>),
    ScopeAddress(Seq<char>),
}

impl View for AssetIdentifier {
    type V = AssetIdentifierView;

    open spec fn view(&self) -> AssetIdentifierView {
        match *self {
            AssetIdentifier::AssetUuid(asset_uuid) => AssetIdentifierView::AssetUuid(asset_uuid@),
            AssetIdentifier::ScopeAddress(scope_address) => AssetIdentifierView::ScopeAddress(
                scope_address@,
            ),
        }
    }
}

impl Clone for AssetIdentifier {
    fn clone(&self) -> (r: Self)
        ensures
            r@ == self@,
    {
        match self {
            AssetIdentifier::AssetUuid(asset_uuid) => AssetIdentifier::AssetUuid(
                asset_uuid.clone(),
            ),
            AssetIdentifier::ScopeAddress(scope_address) => AssetIdentifier::ScopeAddress(
                scope_address.clone(),
            ),
        }
    }
}

/// An asset's uuid and scope address together.
#[derive(Debug, PartialEq, Eq)]
pub struct AssetIdentifiers {
    /// The uuid of the asset.
    pub asset_uuid: String,
    /// The bech32 address of the asset's scope.
    pub scope_address: String,
}

/// What [`AssetIdentifiers`] stand for.
pub struct AssetIdentifiersView {
    pub asset_uuid: Seq<char>,
    pub scope_address: Seq<char>,
}

impl View for AssetIdentifiers {
    type V = AssetIdentifiersView;

    open spec fn view(&self) -> AssetIdentifiersView {
        AssetIdentifiersView { asset_uuid: self.asset_uuid@, scope_address: self.scope_address@ }
    }
}

impl AssetIdentifiers {
    /// The pair of the two given values, as they are.
    pub fn new(asset_uuid: &str, scope_address: &str) -> (r: Self)
        ensures
            r@ == (AssetIdentifiersView { asset_uuid: asset_uuid@, scope_address: scope_address@ }),
    {
        AssetIdentifiers {
            asset_uuid: String::from_str(asset_uuid),
            scope_address: String::from_str(scope_address),
        }
    }
}

impl AssetIdentifierView {
    /// The asset uuid behind the identifier: the uuid as it was given, or
    /// the one derived from the scope address.
    pub open spec fn asset_uuid_outcome(self) -> Result<Seq<char>, ContractErrorView> {
        match self {
            AssetIdentifierView::AssetUuid(asset_uuid) => Ok(asset_uuid),
            AssetIdentifierView::ScopeAddress(scope_address) => asset_uuid_outcome(scope_address),
        }
    }

    /// The scope address behind the identifier: the address as it was
    /// given, or the one derived from the asset uuid.
    pub open spec fn scope_address_outcome(self) -> Result<Seq<char>, ContractErrorView> {
        match self {
            AssetIdentifierView::AssetUuid(asset_uuid) => scope_address_outcome(asset_uuid),
            AssetIdentifierView::ScopeAddress(scope_address) => Ok(scope_address),
        }
    }

    /// Both values behind the identifier. A failure to find the uuid is
    /// reported before one to find the address.
    pub open spec fn identifiers_outcome(self) -> Result<AssetIdentifiersView, ContractErrorView> {
        match self.asset_uuid_outcome() {
            Err(error) => Err(error),
            Ok(asset_uuid) => match self.scope_address_outcome() {
                Err(error) => Err(error),
                Ok(scope_address) => Ok(AssetIdentifiersView { asset_uuid, scope_address }),
            },
        }
    }

    /// Whether a pair of values agrees with the identifier it was derived
    /// from: the derived value leads back to the given one, in its canonical
    /// writing.
    pub open spec fn leads_back(self, found: AssetIdentifiersView) -> bool {
        match self {
            AssetIdentifierView::AssetUuid(asset_uuid) => asset_uuid_of(found.scope_address)
                == canonical_uuid(asset_uuid),
            AssetIdentifierView::ScopeAddress(scope_address) => scope_address_of(found.asset_uuid)
                == canonical_address(scope_address),
        }
    }
}

impl AssetIdentifier {
    /// Names an asset by its uuid.
    pub fn asset_uuid(asset_uuid: &str) -> (r: Self)
        ensures
            r@ == AssetIdentifierView::AssetUuid(asset_uuid@),
    {
        AssetIdentifier::AssetUuid(String::from_str(asset_uuid))
    }

    /// Names an asset by the address of its scope.
    pub fn scope_address(scope_address: &str) -> (r: Self)
        ensures
            r@ == AssetIdentifierView::ScopeAddress(scope_address@),
    {
        AssetIdentifier::ScopeAddress(String::from_str(scope_address))
    }

    /// The uuid of the asset: the one given, untouched, or the one derived
    /// from the scope address.
    pub fn get_asset_uuid(&self) -> (r: Result<String, ContractError>)
        ensures
            outcome(r) == self@.asset_uuid_outcome(),
            r matches Ok(asset_uuid) ==> self@ matches AssetIdentifierView::ScopeAddress(
                scope_address,
            ) ==> scope_address_of(asset_uuid@) == canonical_address(scope_address),
    {
        match self {
            AssetIdentifier::AssetUuid(asset_uuid) => Ok(asset_uuid.clone()),
            AssetIdentifier::ScopeAddress(scope_address) => scope_address_to_asset_uuid(
                scope_address.as_str(),
            ),
        }
    }

    /// The scope address of the asset: the one given, untouched, or the one
    /// derived from the uuid.
    pub fn get_scope_address(&self) -> (r: Result<String, ContractError>)
        ensures
            outcome(r) == self@.scope_address_outcome(),
            r matches Ok(scope_address) ==> self@ matches AssetIdentifierView::AssetUuid(
                asset_uuid,
            ) ==> asset_uuid_of(scope_address@) == canonical_uuid(asset_uuid),
    {
        match self {
            AssetIdentifier::AssetUuid(asset_uuid) => asset_uuid_to_scope_address(
                asset_uuid.as_str(),
            ),
            AssetIdentifier::ScopeAddress(scope_address) => Ok(scope_address.clone()),
        }
    }

    /// Both the uuid and the scope address, the missing one derived from
    /// the given one. The derived value leads back to the given one.
    pub fn to_identifiers(&self) -> (r: Result<AssetIdentifiers, ContractError>)
        ensures
            outcome(r) == self@.identifiers_outcome(),
            r matches Ok(found) ==> self@.leads_back(found@),
    {
        let asset_uuid = match self.get_asset_uuid() {
            Ok(asset_uuid) => asset_uuid,
            Err(error) => {
                return Err(error);
            },
        };
        let scope_address = match self.get_scope_address() {
            Ok(scope_address) => scope_address,
            Err(error) => {
                return Err(error);
            },
        };
        Ok(AssetIdentifiers { asset_uuid, scope_address })
    }
}

} // verus!
