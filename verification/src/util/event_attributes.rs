use crate::model::types::response::Attribute;
use crate::util::constants::{
    ASSET_EVENT_TYPE_KEY, ASSET_SCOPE_ADDRESS_KEY, ASSET_TYPE_KEY, NEW_VALUE_KEY,
    VERIFIER_ADDRESS_KEY,
};
use vstd::prelude::*;
use vstd::string::StringExecFns;

verus! {

/// The kinds of event that the contract reports.
#[derive(Debug, Clone, Copy, PartialEq, Eq, Structural)]
pub enum EventType {
    InstantiateContract,
    MigrateContract,
    OnboardAsset,
    ValidateAsset,
    AddAssetDefinition,
    UpdateAssetDefinition,
    ToggleAssetDefinition,
    AddAssetVerifier,
    UpdateAssetVerifier,
    UpdateAccessRoutes,
    BindContractAlias,
    DeleteAssetDefinition,
}

impl EventType {
    /// The name under which the kind of event is reported.
    pub open spec fn name(self) -> Seq<char> {
        match self {
            EventType::InstantiateContract => "instantiate_contract"@,
            EventType::MigrateContract => "migrate_contract"@,
            EventType::OnboardAsset => "onboard_asset"@,
            EventType::ValidateAsset => "validate_asset"@,
            EventType::AddAssetDefinition => "add_asset_definition"@,
            EventType::UpdateAssetDefinition => "update_asset_definition"@,
            EventType::ToggleAssetDefinition => "toggle_asset_definition"@,
            EventType::AddAssetVerifier => "add_asset_verifier"@,
            EventType::UpdateAssetVerifier => "update_asset_verifier"@,
            EventType::UpdateAccessRoutes => "update_access_routes"@,
            EventType::BindContractAlias => "bind_contract_alias"@,
            EventType::DeleteAssetDefinition => "delete_asset_definition"@,
        }
    }

    /// The name under which the kind of event is reported.
    pub fn event_name(&self) -> (r: String)
        ensures
            r@ == self.name(),
    {
        String::from_str(
            match self {
                EventType::InstantiateContract => "instantiate_contract",
                EventType::MigrateContract => "migrate_contract",
                EventType::OnboardAsset => "onboard_asset",
                EventType::ValidateAsset => "validate_asset",
                EventType::AddAssetDefinition => "add_asset_definition",
                EventType::UpdateAssetDefinition => "update_asset_definition",
                EventType::ToggleAssetDefinition => "toggle_asset_definition",
                EventType::AddAssetVerifier => "add_asset_verifier",
                EventType::UpdateAssetVerifier => "update_asset_verifier",
                EventType::UpdateAccessRoutes => "update_access_routes",
                EventType::BindContractAlias => "bind_contract_alias",
                EventType::DeleteAssetDefinition => "delete_asset_definition",
            },
        )
    }
}

/// The attributes that report one event, in the order in which they were
/// set.
#[derive(Debug)]
pub struct EventAttributes {
    pub attributes: Vec<Attribute>,
}

impl View for EventAttributes {
    type V = Seq<(Seq<char>, Seq<char>)>;

    open spec fn view(&self) -> Seq<(Seq<char>, Seq<char>)> {
        self.attributes.deep_view()
    }
}

impl EventAttributes {
    /// The attributes of an event of which only the kind is known.
    pub fn new(event_type: EventType) -> (r: Self)
        ensures
            r@ == seq![(ASSET_EVENT_TYPE_KEY@, event_type.name())],
    {
        let mut attributes: Vec<Attribute> = Vec::new();
        attributes.push(
            Attribute {
                key: String::from_str(ASSET_EVENT_TYPE_KEY),
                value: event_type.event_name(),
            },
        );
        let r = EventAttributes { attributes };
        assert(r@ =~= seq![(ASSET_EVENT_TYPE_KEY@, event_type.name())]);
        r
    }

    /// The attributes of an event that concerns one asset: the kind of
    /// event, the asset type and the scope address.
    pub fn for_asset_event(event_type: EventType, asset_type: &str, scope_address: &str) -> (r:
        Self)
        ensures
            r@ == seq![
                (ASSET_EVENT_TYPE_KEY@, event_type.name()),
                (ASSET_TYPE_KEY@, asset_type@),
                (ASSET_SCOPE_ADDRESS_KEY@, scope_address@),
            ],
    {
        EventAttributes::new(event_type).set_asset_type(asset_type).set_scope_address(
            scope_address,
        )
    }

    /// The attributes with one more at the end.
    pub fn set(self, key: &str, value: &str) -> (r: Self)
        ensures
            r@ == self@.push((key@, value@)),
    {
        let mut attributes = self.attributes;
        attributes.push(Attribute::new(key, value));
        let r = EventAttributes { attributes };
        assert(r@ =~= self@.push((key@, value@)));
        r
    }

    /// Adds the asset type.
    pub fn set_asset_type(self, asset_type: &str) -> (r: Self)
        ensures
            r@ == self@.push((ASSET_TYPE_KEY@, asset_type@)),
    {
        self.set(ASSET_TYPE_KEY, asset_type)
    }

    /// Adds the scope address of the asset.
    pub fn set_scope_address(self, scope_address: &str) -> (r: Self)
        ensures
            r@ == self@.push((ASSET_SCOPE_ADDRESS_KEY@, scope_address@)),
    {
        self.set(ASSET_SCOPE_ADDRESS_KEY, scope_address)
    }

    /// Adds the address of the verifier.
    pub fn set_verifier(self, verifier_address: &str) -> (r: Self)
        ensures
            r@ == self@.push((VERIFIER_ADDRESS_KEY@, verifier_address@)),
    {
        self.set(VERIFIER_ADDRESS_KEY, verifier_address)
    }

    /// Adds a value that the event has set.
    pub fn set_new_value(self, value: &str) -> (r: Self)
        ensures
            r@ == self@.push((NEW_VALUE_KEY@, value@)),
    {
        self.set(NEW_VALUE_KEY, value)
    }
}

} // verus!
