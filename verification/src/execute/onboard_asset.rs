use crate::model::asset::{
    AssetDefinitionView,
    AssetScopeAttribute,
    AssetScopeAttributeView,
    VerifierDetail,
    VerifierDetailView,
};
use crate::model::error::{ContractError, ContractErrorView};
use crate::model::msg::ExecuteMsg;
use crate::model::state::{
    position_of_type,
    position_of_verifier,
    type_position,
    verifier_position,
    ContractStorage,
    ContractStorageView,
};
use crate::model::types::access_route::{AccessRoute, AccessRouteView};
use crate::model::types::asset_identifier::{AssetIdentifier, AssetIdentifierView};
use crate::model::types::asset_onboarding_status::AssetOnboardingStatus;
use crate::model::types::message_info::{Coin, CoinView, MessageInfo, MessageInfoView};
use crate::model::types::response::{Response, ResponseView};
use crate::service::asset_meta_repository::{
    attribute_update_messages,
    attribute_writes,
    sole_attribute,
    try_get_asset,
};
use crate::util::aliases::answered;
use crate::util::constants::{
    ASSET_EVENT_TYPE_KEY,
    ASSET_SCOPE_ADDRESS_KEY,
    ASSET_TYPE_KEY,
    VERIFIER_ADDRESS_KEY,
};
use crate::util::event_attributes::{EventAttributes, EventType};
use crate::util::fees::{calculate_verifier_cost_messages, cost_payments};
use crate::util::text::{decimal_text, number_text};
use vstd::prelude::*;
use vstd::string::StringExecFns;

verus! {

/// The message type that is named where a message of this kind is turned down.
pub const ONBOARD_MESSAGE: &'static str = "ExecuteMsg::OnboardAsset";

/// What the error says.
pub const IMPROPER_FUNDS: &'static str =
    "improper funds supplied for onboarding: expected exactly ";

/// The command to onboard an asset.
#[derive(Debug, Clone, PartialEq, Eq)]
pub struct OnboardAssetV1 {
    /// The asset, by its uuid or by the address of its scope.
    pub identifier: AssetIdentifier,
    /// The type under which the asset is to be onboarded.
    pub asset_type: String,
    /// The verifier that the sender chooses among those of the type.
    pub verifier_address: String,
    /// Where the verifier can fetch the data behind the asset.
    pub access_routes: Vec<AccessRoute>,
}

impl OnboardAssetV1 {
    /// The command that a message holds, if the message is of this kind.
    /// Access routes that the message leaves out are taken to be none.
    pub fn from_execute_msg(msg: ExecuteMsg) -> (r: Result<OnboardAssetV1, ContractError>)
        ensures
            match msg {
                ExecuteMsg::OnboardAsset {
                    identifier,
                    asset_type,
                    verifier_address,
                    access_routes,
                } => r matches Ok(command) && command.identifier == identifier
                    && command.asset_type == asset_type && command.verifier_address
                    == verifier_address && command.access_routes.deep_view() == match access_routes {
                    Some(routes) => routes.deep_view(),
                    None => Seq::empty(),
                },
                _ => r matches Err(error) && error@ == (ContractErrorView::InvalidMessageType {
                    expected_message_type: ONBOARD_MESSAGE@,
                }),
            },
    {
        match msg {
            ExecuteMsg::OnboardAsset { identifier, asset_type, verifier_address, access_routes } => {
                let access_routes = match access_routes {
                    Some(routes) => routes,
                    None => {
                        let none: Vec<AccessRoute> = Vec::new();
                        assert(none.deep_view() =~= Seq::empty());
                        none
                    },
                };
                Ok(OnboardAssetV1 { identifier, asset_type, verifier_address, access_routes })
            },
            _ => Err(
                ContractError::InvalidMessageType {
                    expected_message_type: String::from_str(ONBOARD_MESSAGE),
                },
            ),
        }
    }
}

/// Whether the coins that came with a message are the price of the
/// verifier's work and nothing else: one amount of the verifier's coin,
/// equal to the onboarding cost; or no coins, where the cost is zero.
pub open spec fn paid_exactly(funds: Seq<CoinView>, verifier: VerifierDetailView) -> bool {
    ||| funds.len() == 1 && funds[0].denom == verifier.onboarding_denom && funds[0].amount
        == verifier.onboarding_cost
    ||| funds.len() == 0 && verifier.onboarding_cost == 0
}

/// What is said of coins that are not the price of the verifier's work.
pub open spec fn improper_funds(verifier: VerifierDetailView) -> ContractErrorView {
    ContractErrorView::InvalidFunds(
        IMPROPER_FUNDS@ + decimal_text(verifier.onboarding_cost) + verifier.onboarding_denom,
    )
}

/// What onboarding an asset is to come to, step by step:
///
/// 1. the identifier must lead to a uuid and a scope address;
/// 2. the asset type must have a definition, and the definition must be
///    enabled;
/// 3. the definition must list the verifier;
/// 4. the scope must not carry more than one attribute, and no attribute
///    that is pending;
/// 5. the coins that came with the message must be the verifier's price;
/// 6. the fee must fit in the price.
///
/// Then the ledger is asked to put an attribute for a new round on the
/// scope, and to pay the fee destinations and the verifier.
pub open spec fn onboard_asset_outcome(
    storage: ContractStorageView,
    scope_attributes: Seq<AssetScopeAttributeView>,
    info: MessageInfoView,
    identifier: AssetIdentifierView,
    asset_type: Seq<char>,
    verifier_address: Seq<char>,
    access_routes: Seq<AccessRouteView>,
) -> Result<ResponseView, ContractErrorView> {
    match identifier.identifiers_outcome() {
        Err(error) => Err(error),
        Ok(identifiers) => match type_position(storage.asset_definitions, asset_type) {
            None => Err(ContractErrorView::UnsupportedAssetType { asset_type }),
            Some(position) => {
                let definition = storage.asset_definitions[position];
                if !definition.enabled {
                    Err(ContractErrorView::AssetTypeDisabled { asset_type })
                } else {
                    match verifier_position(definition.verifiers, verifier_address) {
                        None => Err(
                            ContractErrorView::UnsupportedValidator {
                                validator_address: verifier_address,
                                asset_type,
                            },
                        ),
                        Some(chosen) => onboarding_outcome(
                            storage,
                            scope_attributes,
                            info,
                            identifiers.scope_address,
                            definition,
                            definition.verifiers[chosen],
                            access_routes,
                        ),
                    }
                }
            },
        },
    }
}

/// What onboarding comes to once the asset, the definition and the verifier
/// are known: steps 4 to 6 of [`onboard_asset_outcome`], and the response.
pub open spec fn onboarding_outcome(
    storage: ContractStorageView,
    scope_attributes: Seq<AssetScopeAttributeView>,
    info: MessageInfoView,
    scope_address: Seq<char>,
    definition: AssetDefinitionView,
    verifier: VerifierDetailView,
    access_routes: Seq<AccessRouteView>,
) -> Result<ResponseView, ContractErrorView> {
    match sole_attribute(scope_attributes, scope_address) {
        Err(error) => Err(error),
        Ok(previous) => if previous matches Some(attribute) && attribute.onboarding_status
            == AssetOnboardingStatus::Pending {
            Err(ContractErrorView::AssetAlreadyOnboarded { scope_address })
        } else if !paid_exactly(info.funds, verifier) {
            Err(improper_funds(verifier))
        } else {
            match cost_payments(verifier) {
                Err(error) => Err(error),
                Ok(payments) => Ok(
                    ResponseView {
                        attributes: seq![
                            (ASSET_EVENT_TYPE_KEY@, EventType::OnboardAsset.name()),
                            (ASSET_TYPE_KEY@, definition.asset_type),
                            (ASSET_SCOPE_ADDRESS_KEY@, scope_address),
                            (VERIFIER_ADDRESS_KEY@, verifier.address),
                        ],
                        messages: attribute_writes(
                            scope_address,
                            previous,
                            AssetScopeAttributeView::onboarded(
                                previous,
                                definition.asset_type,
                                info.sender,
                                verifier,
                                access_routes,
                            ),
                            storage.state.base_contract_name,
                        ) + payments,
                    },
                ),
            }
        },
    }
}

/// Onboarding an asset whose onboarding is pending fails, whatever the
/// message holds and by whichever identifier the asset is named. Where the
/// identifier leads to a scope, the asset type is defined and enabled, and
/// the definition lists the verifier, the failure is that the asset is
/// onboarded already.
pub proof fn lemma_pending_asset_is_not_onboarded(
    storage: ContractStorageView,
    attribute: AssetScopeAttributeView,
    info: MessageInfoView,
    identifier: AssetIdentifierView,
    asset_type: Seq<char>,
    verifier_address: Seq<char>,
    access_routes: Seq<AccessRouteView>,
)
    requires
        attribute.onboarding_status == AssetOnboardingStatus::Pending,
    ensures
        onboard_asset_outcome(
            storage,
            seq![attribute],
            info,
            identifier,
            asset_type,
            verifier_address,
            access_routes,
        ) is Err,
        ({
            &&& identifier.identifiers_outcome() matches Ok(identifiers)
            &&& type_position(storage.asset_definitions, asset_type) matches Some(position)
            &&& storage.asset_definitions[position].enabled
            &&& verifier_position(storage.asset_definitions[position].verifiers, verifier_address)
                is Some
        }) ==> onboard_asset_outcome(
            storage,
            seq![attribute],
            info,
            identifier,
            asset_type,
            verifier_address,
            access_routes,
        ) == Err::<ResponseView, ContractErrorView>(
            ContractErrorView::AssetAlreadyOnboarded {
                scope_address: identifier.identifiers_outcome()->Ok_0.scope_address,
            },
        ),
{
}

/// An asset named by its uuid and the same asset named by the scope address
/// that the uuid leads to are onboarded with the same outcome, but for the
/// uuid itself being looked at first.
pub proof fn lemma_onboarding_by_either_identifier(
    storage: ContractStorageView,
    scope_attributes: Seq<AssetScopeAttributeView>,
    info: MessageInfoView,
    asset_uuid: Seq<char>,
    scope_address: Seq<char>,
    asset_type: Seq<char>,
    verifier_address: Seq<char>,
    access_routes: Seq<AccessRouteView>,
)
    requires
        AssetIdentifierView::AssetUuid(asset_uuid).scope_address_outcome() == Ok::<
            Seq<char>,
            ContractErrorView,
        >(scope_address),
        AssetIdentifierView::ScopeAddress(scope_address).asset_uuid_outcome() is Ok,
    ensures
        onboard_asset_outcome(
            storage,
            scope_attributes,
            info,
            AssetIdentifierView::AssetUuid(asset_uuid),
            asset_type,
            verifier_address,
            access_routes,
        ) == onboard_asset_outcome(
            storage,
            scope_attributes,
            info,
            AssetIdentifierView::ScopeAddress(scope_address),
            asset_type,
            verifier_address,
            access_routes,
        ),
{
}

/// Whether the coins that came with a message are the price of the
/// verifier's work and nothing else.
pub fn funds_match_cost(funds: &Vec<Coin>, verifier: &VerifierDetail) -> (r: bool)
    ensures
        r == paid_exactly(funds.deep_view(), verifier@),
{
    if funds.len() == 0 {
        verifier.onboarding_cost == 0
    } else if funds.len() == 1 {
        funds[0].denom == verifier.onboarding_denom && funds[0].amount == verifier.onboarding_cost
    } else {
        false
    }
}

/// What is said of coins that are not the price of the verifier's work.
pub fn improper_funds_error(verifier: &VerifierDetail) -> (r: ContractError)
    ensures
        r@ == improper_funds(verifier@),
{
    ContractError::InvalidFunds(
        String::from_str(IMPROPER_FUNDS).concat(
            number_text(verifier.onboarding_cost).as_str(),
        ).concat(verifier.onboarding_denom.as_str()),
    )
}

/// Onboards an asset: stages it for verification by the chosen verifier
/// and distributes the price of the verifier's work.
///
/// `scope_attributes` are the attributes of this contract that the ledger
/// shows on the scope of the asset. Nothing is stored: the response asks the
/// ledger to write the new attribute and to make the payments.
///
/// An asset whose onboarding is pending cannot be onboarded, by whichever
/// of its two identifiers it is named.
pub fn onboard_asset(
    storage: &ContractStorage,
    scope_attributes: &Vec<AssetScopeAttribute>,
    info: &MessageInfo,
    msg: OnboardAssetV1,
) -> (r: Result<Response, ContractError>)
    ensures
        answered(
            r,
            onboard_asset_outcome(
                storage@,
                scope_attributes.deep_view(),
                info@,
                msg.identifier@,
                msg.asset_type@,
                msg.verifier_address@,
                msg.access_routes.deep_view(),
            ),
        ),
{
    let identifiers = match msg.identifier.to_identifiers() {
        Ok(identifiers) => identifiers,
        Err(error) => {
            return Err(error);
        },
    };
    let position = match position_of_type(&storage.asset_definitions, msg.asset_type.as_str()) {
        Some(position) => position,
        None => {
            return Err(ContractError::UnsupportedAssetType { asset_type: msg.asset_type });
        },
    };
    let definition = &storage.asset_definitions[position];
    if !definition.enabled {
        return Err(ContractError::AssetTypeDisabled { asset_type: msg.asset_type });
    }
    let chosen = match position_of_verifier(&definition.verifiers, msg.verifier_address.as_str()) {
        Some(chosen) => chosen,
        None => {
            return Err(
                ContractError::UnsupportedValidator {
                    validator_address: msg.verifier_address,
                    asset_type: msg.asset_type,
                },
            );
        },
    };
    let verifier = &definition.verifiers[chosen];
    let scope_address = identifiers.scope_address.as_str();
    let previous = match try_get_asset(scope_attributes, scope_address) {
        Ok(previous) => previous,
        Err(error) => {
            return Err(error);
        },
    };
    match previous {
        Some(attribute) => {
            if attribute.onboarding_status == AssetOnboardingStatus::Pending {
                return Err(
                    ContractError::AssetAlreadyOnboarded {
                        scope_address: identifiers.scope_address,
                    },
                );
            }
        },
        None => {},
    }
    if !funds_match_cost(&info.funds, verifier) {
        return Err(improper_funds_error(verifier));
    }
    let payments = match calculate_verifier_cost_messages(verifier) {
        Ok(payments) => payments,
        Err(error) => {
            return Err(error);
        },
    };
    let attribute = AssetScopeAttribute::onboard(
        previous,
        definition.asset_type.as_str(),
        info.sender.as_str(),
        verifier,
        msg.access_routes,
    );
    let attributes = EventAttributes::for_asset_event(
        EventType::OnboardAsset,
        definition.asset_type.as_str(),
        scope_address,
    ).set_verifier(verifier.address.as_str());
    let writes = attribute_update_messages(
        scope_address,
        previous,
        attribute,
        storage.state.base_contract_name.as_str(),
    );
    let response = Response::new().add_attributes(attributes.attributes).add_messages(
        writes,
    ).add_messages(payments);
    proof {
        assert(response@.attributes =~= seq![
            (ASSET_EVENT_TYPE_KEY@, EventType::OnboardAsset.name()),
            (ASSET_TYPE_KEY@, definition@.asset_type),
            (ASSET_SCOPE_ADDRESS_KEY@, scope_address@),
            (VERIFIER_ADDRESS_KEY@, verifier@.address),
        ]);
        assert(response@.messages =~= writes.deep_view() + payments.deep_view());
    }
    Ok(response)
}

} // verus!
