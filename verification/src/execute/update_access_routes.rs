use crate::model::asset::{AssetScopeAttribute, AssetScopeAttributeView};
use crate::model::error::{ContractError, ContractErrorView};
use crate::model::msg::ExecuteMsg;
use crate::model::state::{ContractStorage, ContractStorageView};
use crate::model::types::access_route::{AccessRoute, AccessRouteView};
use crate::model::types::asset_identifier::{AssetIdentifier, AssetIdentifierView};
use crate::model::types::message_info::{MessageInfo, MessageInfoView};
use crate::model::types::response::{Response, ResponseView};
use crate::service::asset_meta_repository::{
    attribute_update_messages, attribute_writes, get_asset, required_attribute,
};
use crate::util::aliases::answered;
use crate::util::constants::{ASSET_EVENT_TYPE_KEY, ASSET_SCOPE_ADDRESS_KEY, ASSET_TYPE_KEY};
use crate::util::event_attributes::{EventAttributes, EventType};
use vstd::prelude::*;
use vstd::string::StringExecFns;

verus! {

/// The message type that is named where a message of this kind is turned down.
pub const UPDATE_ROUTES_MESSAGE: &'static str = "ExecuteMsg::UpdateAccessRoutes";

/// What the error says.
pub const OWNER_OR_ADMIN_REQUIRED: &'static str =
    "only the admin or the owner of the access routes can update them";

/// The command to replace the access routes that one account has on an
/// asset.
#[derive(Debug, Clone, PartialEq, Eq)]
pub struct UpdateAccessRoutesV1 {
    /// The asset, by its uuid or by the address of its scope.
    pub identifier: AssetIdentifier,
    /// The account whose routes are replaced.
    pub owner_address: String,
    /// The routes that the account is to have from now on.
    pub access_routes: Vec<AccessRoute>,
}

impl UpdateAccessRoutesV1 {
    /// The command that a message holds, if the message is of this kind.
    pub fn from_execute_msg(msg: ExecuteMsg) -> (r: Result<UpdateAccessRoutesV1, ContractError>)
        ensures
            match msg {
                ExecuteMsg::UpdateAccessRoutes { identifier, owner_address, access_routes } => r
                    == Ok::<UpdateAccessRoutesV1, ContractError>(
                    UpdateAccessRoutesV1 { identifier, owner_address, access_routes },
                ),
                _ => r matches Err(error) && error@ == (ContractErrorView::InvalidMessageType {
                    expected_message_type: UPDATE_ROUTES_MESSAGE@,
                }),
            },
    {
        match msg {
            ExecuteMsg::UpdateAccessRoutes { identifier, owner_address, access_routes } => Ok(
                UpdateAccessRoutesV1 { identifier, owner_address, access_routes },
            ),
            _ => Err(
                ContractError::InvalidMessageType {
                    expected_message_type: String::from_str(UPDATE_ROUTES_MESSAGE),
                },
            ),
        }
    }
}

/// What replacing access routes is to come to, step by step:
///
/// 1. the sender must be the admin or the owner of the routes;
/// 2. the identifier must lead to a uuid and a scope address;
/// 3. the scope must carry exactly one attribute.
///
/// Then the ledger is asked to put the attribute with the owner's new
/// routes on the scope in the place of the old one.
pub open spec fn update_access_routes_outcome(
    storage: ContractStorageView,
    scope_attributes: Seq<AssetScopeAttributeView>,
    info: MessageInfoView,
    identifier: AssetIdentifierView,
    owner_address: Seq<char>,
    access_routes: Seq<AccessRouteView>,
) -> Result<ResponseView, ContractErrorView> {
    if info.sender != storage.state.admin && info.sender != owner_address {
        Err(ContractErrorView::Unauthorized { explanation: OWNER_OR_ADMIN_REQUIRED@ })
    } else {
        match identifier.identifiers_outcome() {
            Err(error) => Err(error),
            Ok(identifiers) => match required_attribute(
                scope_attributes,
                identifiers.scope_address,
            ) {
                Err(error) => Err(error),
                Ok(attribute) => Ok(
                    ResponseView {
                        attributes: seq![
                            (ASSET_EVENT_TYPE_KEY@, EventType::UpdateAccessRoutes.name()),
                            (ASSET_TYPE_KEY@, attribute.asset_type),
                            (ASSET_SCOPE_ADDRESS_KEY@, identifiers.scope_address),
                        ],
                        messages: attribute_writes(
                            identifiers.scope_address,
                            Some(attribute),
                            attribute.rerouted(owner_address, access_routes),
                            storage.state.base_contract_name,
                        ),
                    },
                ),
            },
        }
    }
}

/// Replaces the access routes that one account has on an asset, for that
/// account or the admin.
///
/// `scope_attributes` are the attributes of this contract that the ledger
/// shows on the scope of the asset. Nothing is stored: the response asks the
/// ledger to replace the attribute.
pub fn update_access_routes(
    storage: &ContractStorage,
    scope_attributes: &Vec<AssetScopeAttribute>,
    info: &MessageInfo,
    msg: UpdateAccessRoutesV1,
) -> (r: Result<Response, ContractError>)
    ensures
        answered(
            r,
            update_access_routes_outcome(
                storage@,
                scope_attributes.deep_view(),
                info@,
                msg.identifier@,
                msg.owner_address@,
                msg.access_routes.deep_view(),
            ),
        ),
{
    if info.sender != storage.state.admin && info.sender != msg.owner_address {
        return Err(
            ContractError::Unauthorized { explanation: String::from_str(OWNER_OR_ADMIN_REQUIRED) },
        );
    }
    let identifiers = match msg.identifier.to_identifiers() {
        Ok(identifiers) => identifiers,
        Err(error) => {
            return Err(error);
        },
    };
    let scope_address = identifiers.scope_address.as_str();
    let attribute = match get_asset(scope_attributes, scope_address) {
        Ok(attribute) => attribute,
        Err(error) => {
            return Err(error);
        },
    };
    let rerouted = attribute.reroute(msg.owner_address.as_str(), msg.access_routes);
    let writes = attribute_update_messages(
        scope_address,
        Some(attribute),
        rerouted,
        storage.state.base_contract_name.as_str(),
    );
    let attributes = EventAttributes::for_asset_event(
        EventType::UpdateAccessRoutes,
        attribute.asset_type.as_str(),
        scope_address,
    );
    let response = Response::new().add_attributes(attributes.attributes).add_messages(writes);
    proof {
        assert(response@.attributes =~= seq![
            (ASSET_EVENT_TYPE_KEY@, EventType::UpdateAccessRoutes.name()),
            (ASSET_TYPE_KEY@, attribute@.asset_type),
            (ASSET_SCOPE_ADDRESS_KEY@, scope_address@),
        ]);
        assert(response@.messages =~= writes.deep_view());
    }
    Ok(response)
}

} // verus!
