use crate::execute::update_asset_definition::lemma_update_keeps_distinct;
use crate::model::asset::{
    AssetDefinition, AssetDefinitionView, VerifierDetail, VerifierDetailView,
};
use crate::model::error::{general_failure, ContractError, ContractErrorView};
use crate::model::msg::ExecuteMsg;
use crate::model::state::{
    has_key,
    load_asset_definition_by_type,
    position_of_verifier,
    replace_asset_definition,
    replacement_outcome,
    type_not_found,
    type_position,
    verifier_position,
    with_verifiers,
    ContractStorage,
    ContractStorageView,
};
use crate::model::types::message_info::{MessageInfo, MessageInfoView};
use crate::model::types::response::{Response, ResponseView};
use crate::util::aliases::{committed, Commitment};
use crate::util::constants::{ASSET_EVENT_TYPE_KEY, ASSET_TYPE_KEY, VERIFIER_ADDRESS_KEY};
use crate::util::contract_helpers::{admin_route_verdict, check_admin_route};
use crate::util::event_attributes::{EventAttributes, EventType};
use crate::util::functions::{
    marked_count, replace_single_matching_vec_element, unmarked, REPLACEMENT_FAILURE,
};
use crate::util::text::decimal_text;
use crate::util::search::lemma_first_position;
use crate::util::text::lowercased;
use crate::validation::validate_init_msg::{
    definition_sound,
    definition_valid,
    fields_verdict,
    lemma_definition_valid,
    true_verifier_checks,
    validate_verifier,
    verifier_addresses,
    verifier_errors,
    verifier_valid,
    VERIFIER_MESSAGE,
};
use vstd::prelude::*;
use vstd::string::StringExecFns;

verus! {

/// The message type that is named where a message of this kind is turned down.
pub const UPDATE_ASSET_VERIFIER_MESSAGE: &'static str = "ExecuteMsg::UpdateAssetVerifier";

/// A part of what an error says; the values it speaks of stand between the parts.
pub const NO_VERIFIER_HEAD: &'static str = "no verifier existed with address [";

/// A part of what an error says; the values it speaks of stand between the parts.
pub const NO_VERIFIER_MIDDLE: &'static str = "] for asset type [";

/// A part of what an error says; the values it speaks of stand between the parts.
pub const NO_VERIFIER_TAIL: &'static str = "]";

/// The command to replace a verifier of an asset definition.
#[derive(Debug, Clone, PartialEq, Eq)]
pub struct UpdateAssetVerifierV1 {
    /// The type whose definition is meant.
    pub asset_type: String,
    /// The verifier to store. The definition must list one at its address.
    pub verifier: VerifierDetail,
}

impl UpdateAssetVerifierV1 {
    /// The command to store this verifier in the definition of a type.
    pub fn new(asset_type: &str, verifier: VerifierDetail) -> (r: Self)
        ensures
            r.asset_type@ == asset_type@,
            r.verifier == verifier,
    {
        UpdateAssetVerifierV1 { asset_type: String::from_str(asset_type), verifier }
    }

    /// The command that a message holds, if the message is of this kind.
    pub fn from_execute_msg(msg: ExecuteMsg) -> (r: Result<UpdateAssetVerifierV1, ContractError>)
        ensures
            match msg {
                ExecuteMsg::UpdateAssetVerifier { asset_type, verifier } => r matches Ok(command)
                    && command.asset_type@ == asset_type@ && command.verifier == verifier,
                _ => r matches Err(error) && error@ == (ContractErrorView::InvalidMessageType {
                    expected_message_type: UPDATE_ASSET_VERIFIER_MESSAGE@,
                }),
            },
    {
        match msg {
            ExecuteMsg::UpdateAssetVerifier { asset_type, verifier } => Ok(
                UpdateAssetVerifierV1 { asset_type, verifier },
            ),
            _ => Err(
                ContractError::InvalidMessageType {
                    expected_message_type: String::from_str(UPDATE_ASSET_VERIFIER_MESSAGE),
                },
            ),
        }
    }
}

/// Which verifiers are at an address.
pub open spec fn address_marks(verifiers: Seq<VerifierDetailView>, address: Seq<char>) -> Seq<bool> {
    Seq::new(verifiers.len(), |i: int| verifiers[i].address == address)
}

/// What is said of an address at which an asset type has no verifier.
pub open spec fn verifier_not_found(address: Seq<char>, asset_type: Seq<char>) -> ContractErrorView {
    ContractErrorView::RecordNotFound {
        explanation: NO_VERIFIER_HEAD@ + address + NO_VERIFIER_MIDDLE@ + asset_type
            + NO_VERIFIER_TAIL@,
    }
}

/// What replacing a verifier is to come to. The admin must send the
/// command, without coins. A definition of the type must exist, and it must
/// list a verifier at the address. Nothing may be wrong with the new
/// verifier. Then the definition is stored anew, without the old verifier
/// and with the new one behind the others.
pub open spec fn update_asset_verifier_commitment(
    storage: ContractStorageView,
    info: MessageInfoView,
    asset_type: Seq<char>,
    verifier: VerifierDetailView,
) -> Commitment {
    match admin_route_verdict(storage, info) {
        Err(error) => Err(error),
        Ok(_) => match type_position(storage.asset_definitions, asset_type) {
            None => Err(type_not_found(asset_type)),
            Some(position) => {
                let definition = storage.asset_definitions[position];
                let marks = address_marks(definition.verifiers, verifier.address);
                if verifier_position(definition.verifiers, verifier.address) is None {
                    Err(verifier_not_found(verifier.address, definition.asset_type))
                } else {
                    match fields_verdict(
                        VERIFIER_MESSAGE@,
                        verifier_errors(verifier, true_verifier_checks(verifier)),
                    ) {
                        Err(error) => Err(error),
                        Ok(_) => if marked_count(marks) != 1 {
                            Err(
                                general_failure(
                                    REPLACEMENT_FAILURE@ + decimal_text(marked_count(marks)),
                                ),
                            )
                        } else {
                            match replacement_outcome(
                                storage.asset_definitions,
                                with_verifiers(
                                    definition,
                                    unmarked(definition.verifiers, marks).push(verifier),
                                ),
                            ) {
                                Err(error) => Err(error),
                                Ok(definitions) => Ok(
                                    (
                                        ContractStorageView {
                                            state: storage.state,
                                            asset_definitions: definitions,
                                        },
                                        ResponseView {
                                            attributes: seq![
                                                (
                                                    ASSET_EVENT_TYPE_KEY@,
                                                    EventType::UpdateAssetVerifier.name(),
                                                ),
                                                (ASSET_TYPE_KEY@, definition.asset_type),
                                                (VERIFIER_ADDRESS_KEY@, verifier.address),
                                            ],
                                            messages: Seq::empty(),
                                        },
                                    ),
                                ),
                            }
                        },
                    }
                }
            },
        },
    }
}

/// What is left of verifiers at distinct addresses, when those at one
/// address are taken out, are verifiers of the list at distinct addresses
/// other than that one.
pub proof fn lemma_unmarked_verifiers(verifiers: Seq<VerifierDetailView>, address: Seq<char>)
    requires
        verifier_addresses(verifiers).no_duplicates(),
    ensures
        verifier_addresses(unmarked(verifiers, address_marks(verifiers, address))).no_duplicates(),
        forall|k: int|
            0 <= k < unmarked(verifiers, address_marks(verifiers, address)).len() ==> {
                let kept = #[trigger] unmarked(verifiers, address_marks(verifiers, address))[k];
                kept.address != address && exists|i: int|
                    0 <= i < verifiers.len() && verifiers[i] == kept
            },
    decreases verifiers.len(),
{
    let marks = address_marks(verifiers, address);
    if verifiers.len() > 0 {
        let head = verifiers.drop_last();
        assert(marks.drop_last() =~= address_marks(head, address));
        assert forall|i: int, j: int|
            0 <= i < head.len() && 0 <= j < head.len() && i != j implies verifier_addresses(head)[i]
            != verifier_addresses(head)[j] by {
            assert(verifier_addresses(head)[i] == verifier_addresses(verifiers)[i]);
            assert(verifier_addresses(head)[j] == verifier_addresses(verifiers)[j]);
        }
        lemma_unmarked_verifiers(head, address);
        let kept_head = unmarked(head, address_marks(head, address));
        let kept = unmarked(verifiers, marks);
        assert forall|k: int| 0 <= k < kept.len() implies {
            let one = #[trigger] kept[k];
            one.address != address && exists|i: int| 0 <= i < verifiers.len() && verifiers[i] == one
        } by {
            if k < kept_head.len() {
                assert(kept[k] == kept_head[k]);
                let i = choose|i: int| 0 <= i < head.len() && head[i] == kept_head[k];
                assert(verifiers[i] == kept[k]);
            } else {
                assert(kept[k] == verifiers.last());
                assert(verifiers[verifiers.len() - 1] == kept[k]);
            }
        }
        assert forall|a: int, b: int|
            0 <= a < kept.len() && 0 <= b < kept.len() && a != b implies verifier_addresses(kept)[a]
            != verifier_addresses(kept)[b] by {
            if a < kept_head.len() && b < kept_head.len() {
                assert(verifier_addresses(kept)[a] == verifier_addresses(kept_head)[a]);
                assert(verifier_addresses(kept)[b] == verifier_addresses(kept_head)[b]);
            } else {
                let low = if a < b {
                    a
                } else {
                    b
                };
                assert(kept[low] == kept_head[low]);
                let i = choose|i: int| 0 <= i < head.len() && head[i] == kept_head[low];
                assert(verifier_addresses(verifiers)[i] == kept[low].address);
                assert(verifier_addresses(verifiers)[verifiers.len() - 1]
                    == verifiers.last().address);
            }
        }
    }
}

/// A definition with which nothing is wrong stays so when a verifier with
/// which nothing is wrong takes the place of the verifier at its address.
pub proof fn lemma_replaced_verifier_valid(
    definition: AssetDefinitionView,
    verifier: VerifierDetailView,
)
    requires
        definition_valid(definition),
        verifier_valid(verifier),
    ensures
        definition_valid(
            with_verifiers(
                definition,
                unmarked(
                    definition.verifiers,
                    address_marks(definition.verifiers, verifier.address),
                ).push(verifier),
            ),
        ),
{
    let kept = unmarked(
        definition.verifiers,
        address_marks(definition.verifiers, verifier.address),
    );
    let after = with_verifiers(definition, kept.push(verifier));
    lemma_definition_valid(definition);
    lemma_definition_valid(after);
    lemma_unmarked_verifiers(definition.verifiers, verifier.address);
    assert forall|i: int, j: int|
        0 <= i < after.verifiers.len() && 0 <= j < after.verifiers.len() && i != j implies verifier_addresses(
        after.verifiers,
    )[i] != verifier_addresses(after.verifiers)[j] by {
        if i < kept.len() && j < kept.len() {
            assert(verifier_addresses(after.verifiers)[i] == verifier_addresses(kept)[i]);
            assert(verifier_addresses(after.verifiers)[j] == verifier_addresses(kept)[j]);
        } else if i < kept.len() {
            assert(after.verifiers[i] == kept[i]);
        } else {
            assert(after.verifiers[j] == kept[j]);
        }
    }
    assert forall|i: int| 0 <= i < after.verifiers.len() implies verifier_valid(
        #[trigger] after.verifiers[i],
    ) by {
        if i < kept.len() {
            assert(after.verifiers[i] == kept[i]);
            let source = choose|s: int|
                0 <= s < definition.verifiers.len() && definition.verifiers[s] == kept[i];
            assert(verifier_valid(definition.verifiers[source]));
        }
    }
    assert(definition_sound(after));
}

/// What is said of an address at which an asset type has no verifier.
pub fn verifier_not_found_error(address: &str, asset_type: &str) -> (r: ContractError)
    ensures
        r@ == verifier_not_found(address@, asset_type@),
{
    ContractError::RecordNotFound {
        explanation: String::from_str(NO_VERIFIER_HEAD).concat(address).concat(
            NO_VERIFIER_MIDDLE,
        ).concat(asset_type).concat(NO_VERIFIER_TAIL),
    }
}

/// Replaces a verifier of an asset definition, for the admin.
pub fn update_asset_verifier(
    storage: &mut ContractStorage,
    info: &MessageInfo,
    msg: UpdateAssetVerifierV1,
) -> (r: Result<Response, ContractError>)
    ensures
        committed(
            old(storage)@,
            final(storage)@,
            r,
            update_asset_verifier_commitment(old(storage)@, info@, msg.asset_type@, msg.verifier@),
        ),
        old(storage)@.wf() ==> final(storage)@.wf(),
{
    match check_admin_route(storage, info) {
        Ok(_) => {},
        Err(error) => {
            return Err(error);
        },
    }
    let asset_definition = match load_asset_definition_by_type(storage, msg.asset_type.as_str()) {
        Ok(definition) => definition,
        Err(error) => {
            return Err(error);
        },
    };
    let ghost stored = asset_definition@;
    // If the asset definition does not list the verifier, this request should be an add, not
    // an update
    if position_of_verifier(&asset_definition.verifiers, msg.verifier.address.as_str()).is_none() {
        return Err(
            verifier_not_found_error(
                msg.verifier.address.as_str(),
                asset_definition.asset_type.as_str(),
            ),
        );
    }
    match validate_verifier(&msg.verifier) {
        Ok(_) => {},
        Err(error) => {
            return Err(error);
        },
    }
    let attributes = EventAttributes::new(EventType::UpdateAssetVerifier).set_asset_type(
        asset_definition.asset_type.as_str(),
    ).set_verifier(msg.verifier.address.as_str());
    let address = msg.verifier.address.clone();
    let ghost wanted = msg.verifier@;
    let ghost listed = asset_definition.verifiers@;
    let at_address = |verifier: &VerifierDetail| -> (found: bool)
        ensures
            found == (verifier.address@ == address@),
        { verifier.address == address };
    let asset_type = asset_definition.asset_type;
    let scope_spec_address = asset_definition.scope_spec_address;
    let enabled = asset_definition.enabled;
    let verifiers = match replace_single_matching_vec_element(
        asset_definition.verifiers,
        msg.verifier,
        at_address,
    ) {
        Ok(verifiers) => verifiers,
        Err(error) => {
            proof {
                let marks = choose|marks: Seq<bool>|
                    {
                        &&& marks.len() == listed.len()
                        &&& forall|i: int|
                            0 <= i < listed.len() ==> call_ensures(
                                at_address,
                                (&listed[i],),
                                #[trigger] marks[i],
                            )
                        &&& marked_count(marks) != 1
                        &&& error@ == general_failure(
                            REPLACEMENT_FAILURE@ + decimal_text(marked_count(marks)),
                        )
                    };
                assert(marks =~= address_marks(stored.verifiers, wanted.address));
            }
            return Err(error);
        },
    };
    proof {
        let marks = choose|marks: Seq<bool>|
            {
                &&& marks.len() == listed.len()
                &&& forall|i: int|
                    0 <= i < listed.len() ==> call_ensures(
                        at_address,
                        (&listed[i],),
                        #[trigger] marks[i],
                    )
                &&& marked_count(marks) == 1
                &&& verifiers@ == unmarked(listed, marks).push(msg.verifier)
            };
        assert(marks =~= address_marks(stored.verifiers, wanted.address));
        lemma_unmarked_view(listed, marks);
        let kept = unmarked(listed, marks);
        let kept_views = Seq::new(kept.len(), |i: int| kept[i]@);
        assert(stored.verifiers =~= Seq::new(listed.len(), |i: int| listed[i]@));
        assert(kept_views == unmarked(stored.verifiers, marks));
        assert forall|i: int| 0 <= i < verifiers@.len() implies verifiers.deep_view()[i]
            == kept_views.push(wanted)[i] by {
            if i < kept.len() {
                assert(verifiers@[i] == kept[i]);
            }
        }
        assert(verifiers.deep_view() =~= kept_views.push(wanted));
    }
    let replaced = AssetDefinition {
        asset_type,
        scope_spec_address,
        verifiers,
        enabled,
    };
    match replace_asset_definition(storage, &replaced) {
        Ok(_) => {},
        Err(error) => {
            return Err(error);
        },
    }
    proof {
        if old(storage)@.wf() {
            lemma_first_position(
                old(storage)@.asset_definitions,
                has_key(lowercased(msg.asset_type@)),
            );
            lemma_replaced_verifier_valid(stored, wanted);
            lemma_update_keeps_distinct(old(storage)@.asset_definitions, replaced@);
        }
    }
    let response = Response::new().add_attributes(attributes.attributes);
    proof {
        assert(response@.attributes =~= seq![
            (ASSET_EVENT_TYPE_KEY@, EventType::UpdateAssetVerifier.name()),
            (ASSET_TYPE_KEY@, stored.asset_type),
            (VERIFIER_ADDRESS_KEY@, wanted.address),
        ]);
    }
    Ok(response)
}

/// The views of what is left of a list of verifiers are what is left of
/// the views.
pub proof fn lemma_unmarked_view(verifiers: Seq<VerifierDetail>, marks: Seq<bool>)
    requires
        marks.len() == verifiers.len(),
    ensures
        Seq::new(
            unmarked(verifiers, marks).len(),
            |i: int| unmarked(verifiers, marks)[i]@,
        ) == unmarked(Seq::new(verifiers.len(), |i: int| verifiers[i]@), marks),
    decreases verifiers.len(),
{
    let views = Seq::new(verifiers.len(), |i: int| verifiers[i]@);
    let left = Seq::new(unmarked(verifiers, marks).len(), |i: int| unmarked(verifiers, marks)[i]@);
    if verifiers.len() == 0 {
        assert(left =~= unmarked(views, marks));
    } else {
        lemma_unmarked_view(verifiers.drop_last(), marks.drop_last());
        let head_views = Seq::new(
            verifiers.drop_last().len(),
            |i: int| verifiers.drop_last()[i]@,
        );
        assert(head_views =~= views.drop_last());
        assert(left =~= unmarked(views, marks));
    }
}

} // verus!
