use vstd::prelude::*;
use vstd::string::StringExecFns;

verus! {

/// The two ways to name an asset definition.
#[derive(Debug, PartialEq, Eq)]
pub enum AssetQualifier {
    /// The name of the asset type, in any letter case.
    AssetType(String),
    /// The bech32 address of the scope specification.
    ScopeSpecAddress(String),
}

/// What an [`AssetQualifier`] stands for.
pub enum AssetQualifierView {
    AssetType(Seq<char>),
    ScopeSpecAddress(Seq<char>),
}

impl View for AssetQualifier {
    type V = AssetQualifierView;

    open spec fn view(&self) -> AssetQualifierView {
        match *self {
            AssetQualifier::AssetType(asset_type) => AssetQualifierView::AssetType(asset_type@),
            AssetQualifier::ScopeSpecAddress(address) => AssetQualifierView::ScopeSpecAddress(
                address@,
            ),
        }
    }
}

impl Clone for AssetQualifier {
    fn clone(&self) -> (r: Self)
        ensures
            r@ == self@,
    {
        match self {
            AssetQualifier::AssetType(asset_type) => AssetQualifier::AssetType(asset_type.clone()),
            AssetQualifier::ScopeSpecAddress(address) => AssetQualifier::ScopeSpecAddress(
                address.clone(),
            ),
        }
    }
}

impl AssetQualifier {
    /// Names a definition by its asset type.
    pub fn asset_type(asset_type: &str) -> (r: Self)
        ensures
            r@ == AssetQualifierView::AssetType(asset_type@),
    {
        AssetQualifier::AssetType(String::from_str(asset_type))
    }

    /// Names a definition by the address of its scope specification.
    pub fn scope_spec_address(scope_spec_address: &str) -> (r: Self)
        ensures
            r@ == AssetQualifierView::ScopeSpecAddress(scope_spec_address@),
    {
        AssetQualifier::ScopeSpecAddress(String::from_str(scope_spec_address))
    }
}

} // verus!
