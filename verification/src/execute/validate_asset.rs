use crate::model::asset::{AssetScopeAttribute, AssetScopeAttributeView};
use crate::model::error::{ContractError, ContractErrorView};
use crate::model::msg::ExecuteMsg;
use crate::model::state::{ContractStorage, ContractStorageView};
use crate::model::types::access_route::{AccessRoute, AccessRouteView};
use crate::model::types::asset_identifier::{AssetIdentifier, AssetIdentifierView};
use crate::model::types::asset_onboarding_status::AssetOnboardingStatus;
use crate::model::types::message_info::{MessageInfo, MessageInfoView};
use crate::model::types::response::{ContractMessageView, Response, ResponseView};
use crate::service::asset_meta_repository::{
    attribute_update_messages, attribute_writes, get_asset, required_attribute,
};
use crate::util::aliases::answered;
use crate::util::constants::{
    ASSET_EVENT_TYPE_KEY, ASSET_SCOPE_ADDRESS_KEY, ASSET_TYPE_KEY, VERIFIER_ADDRESS_KEY,
};
use crate::util::event_attributes::{EventAttributes, EventType};
use vstd::prelude::*;
use vstd::string::StringExecFns;

verus! {

/// The message type that is named where a message of this kind is turned down.
pub const VALIDATE_MESSAGE: &'static str = "ExecuteMsg::ValidateAsset";

/// What stands for the verifier's message where it accepts an asset and
/// says nothing.
pub const DEFAULT_SUCCESS_MESSAGE: &'static str = "verification successful";

/// What stands for the verifier's message where it turns an asset down and
/// says nothing.
pub const DEFAULT_FAILURE_MESSAGE: &'static str = "verification failure";

/// The command that carries a verifier's answer on an asset.
#[derive(Debug, Clone, PartialEq, Eq)]
pub struct ValidateAssetV1 {
    /// The asset, by its uuid or by the address of its scope.
    pub identifier: AssetIdentifier,
    /// Whether the verifier accepts the asset.
    pub success: bool,
    /// What the verifier has to say about the asset.
    pub message: Option<String>,
    /// Where the data behind the asset can be fetched from the verifier.
    pub access_routes: Option<Vec<AccessRoute>>,
}

impl ValidateAssetV1 {
    /// The command that a message holds, if the message is of this kind.
    pub fn from_execute_msg(msg: ExecuteMsg) -> (r: Result<ValidateAssetV1, ContractError>)
        ensures
            match msg {
                ExecuteMsg::VerifyAsset { identifier, success, message, access_routes } => r
                    == Ok::<ValidateAssetV1, ContractError>(
                    ValidateAssetV1 { identifier, success, message, access_routes },
                ),
                _ => r matches Err(error) && error@ == (ContractErrorView::InvalidMessageType {
                    expected_message_type: VALIDATE_MESSAGE@,
                }),
            },
    {
        match msg {
            ExecuteMsg::VerifyAsset { identifier, success, message, access_routes } => Ok(
                ValidateAssetV1 { identifier, success, message, access_routes },
            ),
            _ => Err(
                ContractError::InvalidMessageType {
                    expected_message_type: String::from_str(VALIDATE_MESSAGE),
                },
            ),
        }
    }

}

/// The message that goes on record: the verifier's own, or the words that
/// stand for it.
pub open spec fn recorded_message(success: bool, message: Option<String>) -> Seq<char> {
    match message {
        Some(message) => message@,
        None => if success {
            DEFAULT_SUCCESS_MESSAGE@
        } else {
            DEFAULT_FAILURE_MESSAGE@
        },
    }
}

/// The access routes that a message supplies; none where it leaves them
/// out.
pub open spec fn supplied_routes(access_routes: Option<Vec<AccessRoute>>) -> Seq<AccessRouteView> {
    match access_routes {
        Some(routes) => routes.deep_view(),
        None => Seq::empty(),
    }
}

/// What a verifier's answer is to come to, step by step:
///
/// 1. the identifier must lead to a uuid and a scope address;
/// 2. the scope must carry exactly one attribute;
/// 3. the sender must be the verifier that the attribute names;
/// 4. the attribute must be pending.
///
/// Then the ledger is asked to put the attribute with the answer on the
/// scope in the place of the pending one. No payment is made.
pub open spec fn validate_asset_outcome(
    storage: ContractStorageView,
    scope_attributes: Seq<AssetScopeAttributeView>,
    info: MessageInfoView,
    identifier: AssetIdentifierView,
    success: bool,
    message: Seq<char>,
    access_routes: Seq<AccessRouteView>,
) -> Result<ResponseView, ContractErrorView> {
    match identifier.identifiers_outcome() {
        Err(error) => Err(error),
        Ok(identifiers) => match required_attribute(scope_attributes, identifiers.scope_address) {
            Err(error) => Err(error),
            Ok(attribute) => if info.sender != attribute.verifier_address {
                Err(
                    ContractErrorView::UnathorizedAssetValidator {
                        scope_address: identifiers.scope_address,
                        validator_address: info.sender,
                        expected_validator_address: attribute.verifier_address,
                    },
                )
            } else if attribute.onboarding_status.is_terminal() {
                Err(
                    ContractErrorView::AssetAlreadyValidated {
                        scope_address: identifiers.scope_address,
                        status: attribute.onboarding_status,
                    },
                )
            } else {
                Ok(
                    ResponseView {
                        attributes: seq![
                            (ASSET_EVENT_TYPE_KEY@, EventType::ValidateAsset.name()),
                            (ASSET_TYPE_KEY@, attribute.asset_type),
                            (ASSET_SCOPE_ADDRESS_KEY@, identifiers.scope_address),
                            (VERIFIER_ADDRESS_KEY@, info.sender),
                        ],
                        messages: attribute_writes(
                            identifiers.scope_address,
                            Some(attribute),
                            attribute.verified(success, message, access_routes),
                            storage.state.base_contract_name,
                        ),
                    },
                )
            },
        },
    }
}

/// The attribute that a response asks the ledger to write, if it asks for
/// one.
pub open spec fn written_attribute(response: ResponseView) -> Option<AssetScopeAttributeView> {
    if response.messages.len() > 0 {
        match response.messages.last() {
            ContractMessageView::AddAttribute { value, .. } => Some(value),
            _ => None,
        }
    } else {
        None
    }
}

/// A verifier answers once. After an answer that was taken, the attribute
/// that was written holds the answer's status; any further answer on it
/// fails, whoever sends it and whatever it says, so that nothing is written
/// over the first. Where the further answer names the asset aright and
/// comes from the verifier, the failure is that the asset has its answer
/// already, with the status of the first.
pub proof fn lemma_answer_is_final(
    storage: ContractStorageView,
    attribute: AssetScopeAttributeView,
    info: MessageInfoView,
    identifier: AssetIdentifierView,
    success: bool,
    message: Seq<char>,
    access_routes: Seq<AccessRouteView>,
    later_storage: ContractStorageView,
    later_info: MessageInfoView,
    later_identifier: AssetIdentifierView,
    later_success: bool,
    later_message: Seq<char>,
    later_access_routes: Seq<AccessRouteView>,
)
    requires
        validate_asset_outcome(
            storage,
            seq![attribute],
            info,
            identifier,
            success,
            message,
            access_routes,
        ) is Ok,
    ensures
        ({
            let first = validate_asset_outcome(
                storage,
                seq![attribute],
                info,
                identifier,
                success,
                message,
                access_routes,
            )->Ok_0;
            let written = attribute.verified(success, message, access_routes);
            let later = validate_asset_outcome(
                later_storage,
                seq![written],
                later_info,
                later_identifier,
                later_success,
                later_message,
                later_access_routes,
            );
            &&& written_attribute(first) == Some(written)
            &&& written.onboarding_status == AssetOnboardingStatus::of_outcome(success)
            &&& later is Err
            &&& (later_identifier.identifiers_outcome() is Ok && later_info.sender
                == written.verifier_address) ==> later == Err::<ResponseView, ContractErrorView>(
                ContractErrorView::AssetAlreadyValidated {
                    scope_address: later_identifier.identifiers_outcome()->Ok_0.scope_address,
                    status: AssetOnboardingStatus::of_outcome(success),
                },
            )
        }),
{
    let identifiers = identifier.identifiers_outcome()->Ok_0;
    let written = attribute.verified(success, message, access_routes);
    let writes = attribute_writes(
        identifiers.scope_address,
        Some(attribute),
        written,
        storage.state.base_contract_name,
    );
    assert(writes.len() == 2);
    assert(writes.last() == writes[1]);
}

/// Records a verifier's answer on an asset that waits for it.
///
/// `scope_attributes` are the attributes of this contract that the ledger
/// shows on the scope of the asset. Nothing is stored: the response asks the
/// ledger to replace the attribute.
///
/// An answer on an asset that has its answer already fails, and asks the
/// ledger for nothing.
pub fn validate_asset(
    storage: &ContractStorage,
    scope_attributes: &Vec<AssetScopeAttribute>,
    info: &MessageInfo,
    msg: ValidateAssetV1,
) -> (r: Result<Response, ContractError>)
    ensures
        answered(
            r,
            validate_asset_outcome(
                storage@,
                scope_attributes.deep_view(),
                info@,
                msg.identifier@,
                msg.success,
                recorded_message(msg.success, msg.message),
                supplied_routes(msg.access_routes),
            ),
        ),
{
    let asset_identifiers = match msg.identifier.to_identifiers() {
        Ok(identifiers) => identifiers,
        Err(error) => {
            return Err(error);
        },
    };
    let scope_address = asset_identifiers.scope_address.as_str();
    // look up asset in repository
    let meta = match get_asset(scope_attributes, scope_address) {
        Ok(meta) => meta,
        Err(error) => {
            return Err(error);
        },
    };
    // verify sender is requested validator
    if info.sender != meta.verifier_address {
        return Err(
            ContractError::UnathorizedAssetValidator {
                scope_address: asset_identifiers.scope_address,
                validator_address: info.sender.clone(),
                expected_validator_address: meta.verifier_address.clone(),
            },
        );
    }
    if meta.onboarding_status != AssetOnboardingStatus::Pending {
        return Err(
            ContractError::AssetAlreadyValidated {
                scope_address: asset_identifiers.scope_address,
                status: meta.onboarding_status,
            },
        );
    }
    let access_routes = match msg.access_routes {
        Some(routes) => routes,
        None => {
            let none: Vec<AccessRoute> = Vec::new();
            assert(none.deep_view() =~= Seq::empty());
            none
        },
    };
    let verified = match &msg.message {
        Some(message) => meta.verify(msg.success, message.as_str(), access_routes),
        None => meta.verify(
            msg.success,
            if msg.success {
                DEFAULT_SUCCESS_MESSAGE
            } else {
                DEFAULT_FAILURE_MESSAGE
            },
            access_routes,
        ),
    };
    let writes = attribute_update_messages(
        scope_address,
        Some(meta),
        verified,
        storage.state.base_contract_name.as_str(),
    );
    // construct/emit validation attribute
    let attributes = EventAttributes::for_asset_event(
        EventType::ValidateAsset,
        meta.asset_type.as_str(),
        scope_address,
    ).set_verifier(info.sender.as_str());
    let response = Response::new().add_attributes(attributes.attributes).add_messages(writes);
    proof {
        assert(response@.attributes =~= seq![
            (ASSET_EVENT_TYPE_KEY@, EventType::ValidateAsset.name()),
            (ASSET_TYPE_KEY@, meta@.asset_type),
            (ASSET_SCOPE_ADDRESS_KEY@, scope_address@),
            (VERIFIER_ADDRESS_KEY@, info@.sender),
        ]);
        assert(response@.messages =~= writes.deep_view());
    }
    Ok(response)
}

} // verus!
